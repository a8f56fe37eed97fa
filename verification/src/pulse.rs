//! Edge-triggered pulse timer.
//!
//! A [`Pulse`] records the timestamps of the most recent rising and falling
//! transitions observed on a digital input line during one measurement
//! cycle. Timestamps are plain tick counts (microseconds in the intended
//! use); the caller's interrupt handler feeds edges in through
//! [`Pulse::on_edge`], and the measurement requester reads the elapsed pulse
//! width back out through [`Pulse::length`]. Each call mutates or reads the
//! whole record under one exclusive borrow, so a caller that wraps the record
//! in a mutual-exclusion primitive never observes a torn pair.

use vstd::prelude::*;

verus! {

/// Polarity of a digital transition.
#[derive(Clone, Copy, PartialEq, Eq, Structural, Debug)]
pub enum Edge {
    Rising,
    Falling,
}

/// One observed transition: its polarity and its timestamp in ticks.
#[derive(Clone, Copy, PartialEq, Eq, Structural, Debug)]
pub struct EdgeEvent {
    pub edge: Edge,
    pub ticks: u64,
}

/// The record of the last observed rising and falling edge timestamps for
/// one measurement cycle. Both fields start absent; every edge of a given
/// polarity overwrites that polarity's field, so only the last edge of each
/// polarity counts.
pub struct Pulse {
    pub start: Option<u64>,
    pub end: Option<u64>,
}

/// The timestamp of the last rising edge in `events`, if any.
pub open spec fn last_rising(events: Seq<EdgeEvent>) -> Option<u64>
    decreases events.len(),
{
    if events.len() == 0 {
        None
    } else if events.last().edge == Edge::Rising {
        Some(events.last().ticks)
    } else {
        last_rising(events.drop_last())
    }
}

/// The timestamp of the last falling edge in `events`, if any.
pub open spec fn last_falling(events: Seq<EdgeEvent>) -> Option<u64>
    decreases events.len(),
{
    if events.len() == 0 {
        None
    } else if events.last().edge == Edge::Falling {
        Some(events.last().ticks)
    } else {
        last_falling(events.drop_last())
    }
}

/// The pulse width a record with these two fields yields: absent while
/// either edge is missing, else the falling timestamp minus the rising one,
/// saturating to zero when the falling edge came first.
pub open spec fn pulse_width(start: Option<u64>, end: Option<u64>) -> Option<u64> {
    match (start, end) {
        (Some(s), Some(e)) => if e >= s {
            Some((e - s) as u64)
        } else {
            Some(0u64)
        },
        _ => None,
    }
}

/// `upd` if it is present, else `prev`: the value a field holds after the
/// updates in `upd`, starting from `prev`.
pub open spec fn overwritten(prev: Option<u64>, upd: Option<u64>) -> Option<u64> {
    match upd {
        Some(t) => Some(t),
        None => prev,
    }
}

impl Pulse {
    /// A fresh record with no edges observed yet. A new measurement cycle
    /// starts from this state.
    pub fn empty() -> (p: Pulse)
        ensures
            p.start is None,
            p.end is None,
    {
        Pulse { start: None, end: None }
    }

    /// Clears both fields, so a record can be reused for a new measurement
    /// cycle without carrying stale edges over.
    pub fn reset(&mut self)
        ensures
            final(self).start is None,
            final(self).end is None,
    {
        self.start = None;
        self.end = None;
    }

    /// Records one observed edge: a rising edge overwrites the rising
    /// timestamp and leaves the falling one alone, and symmetrically for a
    /// falling edge. Overwriting (last edge wins, not first) is deliberate:
    /// only the last rising edge before the matching falling edge counts.
    pub fn on_edge(&mut self, edge: Edge, ticks: u64)
        ensures
            edge == Edge::Rising ==> final(self).start == Some(ticks)
                && final(self).end == old(self).end,
            edge == Edge::Falling ==> final(self).end == Some(ticks)
                && final(self).start == old(self).start,
    {
        match edge {
            Edge::Rising => self.start = Some(ticks),
            Edge::Falling => self.end = Some(ticks),
        }
    }

    /// The elapsed ticks from the recorded rising edge to the recorded
    /// falling edge, or `None` while either edge is still missing. No edge,
    /// or only one edge, is a normal outcome (no measurement), not an error.
    /// When the edges were observed out of order (falling timestamp before
    /// rising), the width saturates to zero; no reordering is attempted.
    pub fn length(&self) -> (r: Option<u64>)
        ensures
            r == pulse_width(self.start, self.end),
            r is Some <==> (self.start is Some && self.end is Some),
    {
        match (self.start, self.end) {
            (Some(s), Some(e)) => {
                if e >= s {
                    Some(e - s)
                } else {
                    Some(0)
                }
            },
            _ => None,
        }
    }

    /// Replays a sequence of observed edges in order, one [`Pulse::on_edge`]
    /// call per event.
    ///
    /// Its contract is the consistency guarantee for interleaved writers:
    /// each `on_edge` call updates the record under one exclusive borrow, so
    /// however calls from the interrupt thread and the requester interleave,
    /// the record afterwards is exactly the last rising and last falling
    /// timestamp of the interleaved event sequence — never a half-updated
    /// mixture of two states.
    pub fn apply_edges(&mut self, events: &Vec<EdgeEvent>)
        ensures
            final(self).start == overwritten(old(self).start, last_rising(events@)),
            final(self).end == overwritten(old(self).end, last_falling(events@)),
    {
        let ghost initial: Pulse = *self;
        let mut i: usize = 0;
        while i < events.len()
            invariant
                0 <= i <= events@.len(),
                self.start == overwritten(initial.start, last_rising(events@.take(i as int))),
                self.end == overwritten(initial.end, last_falling(events@.take(i as int))),
            decreases events@.len() - i,
        {
            proof {
                assert(events@.take(i + 1).drop_last() =~= events@.take(i as int));
                assert(events@.take(i + 1).last() == events@[i as int]);
            }
            let ev = events[i];
            self.on_edge(ev.edge, ev.ticks);
            i = i + 1;
        }
        proof {
            assert(events@.take(events@.len() as int) =~= events@);
        }
    }
}

/// For every ordered pair of edge timestamps — a rising edge at `r` and a
/// falling edge strictly after it at `f` — the measured pulse width is
/// exactly `f - r`.
pub proof fn lemma_ordered_pair_width_exact(r: u64, f: u64)
    requires
        r < f,
    ensures
        pulse_width(Some(r), Some(f)) == Some((f - r) as u64),
{
}

/// Conversion from an echo pulse width in microseconds to distance in
/// millionths of a centimetre: round-trip time at the speed of sound, halved,
/// is `seconds * 17150` centimetres, so `microseconds * 17150` millionths of
/// a centimetre. Returns `None` when the product would not fit in 64 bits.
pub fn distance_micro_cm(duration_us: u64) -> (d: Option<u64>)
    ensures
        d is Some <==> duration_us * 17150 <= u64::MAX,
        duration_us * 17150 <= u64::MAX ==> d == Some((duration_us * 17150) as u64),
{
    if duration_us <= u64::MAX / 17150 {
        Some(duration_us * 17150)
    } else {
        None
    }
}

} // verus!
