use pulse_ramp::pulse::{distance_micro_cm, Edge, EdgeEvent, Pulse};

#[test]
fn fresh_record_has_no_measurement() {
    let p = Pulse::empty();
    assert_eq!(p.length(), None);
}

#[test]
fn only_rising_is_absent() {
    let mut p = Pulse::empty();
    p.on_edge(Edge::Rising, 1_000);
    assert_eq!(p.length(), None);
}

#[test]
fn only_falling_is_absent() {
    let mut p = Pulse::empty();
    p.on_edge(Edge::Falling, 1_000);
    assert_eq!(p.length(), None);
}

#[test]
fn ordered_pair_measures_exact_width() {
    let mut p = Pulse::empty();
    p.on_edge(Edge::Rising, 100);
    p.on_edge(Edge::Falling, 683);
    assert_eq!(p.length(), Some(583));
}

#[test]
fn second_rising_edge_wins() {
    let mut p = Pulse::empty();
    p.on_edge(Edge::Rising, 100);
    p.on_edge(Edge::Rising, 200);
    p.on_edge(Edge::Falling, 300);
    assert_eq!(p.length(), Some(100));
}

#[test]
fn out_of_order_pair_saturates_to_zero() {
    let mut p = Pulse::empty();
    p.on_edge(Edge::Rising, 500);
    p.on_edge(Edge::Falling, 300);
    assert_eq!(p.length(), Some(0));
}

#[test]
fn reset_clears_both_edges() {
    let mut p = Pulse::empty();
    p.on_edge(Edge::Rising, 10);
    p.on_edge(Edge::Falling, 20);
    p.reset();
    assert_eq!(p.start, None);
    assert_eq!(p.end, None);
    assert_eq!(p.length(), None);
}

#[test]
fn interleaved_edges_yield_consistent_record() {
    // Edges as two writers would interleave them: whatever the order, the
    // record afterwards holds exactly the last rising and the last falling
    // timestamp, never a mixture of two intermediate states.
    let mut p = Pulse::empty();
    let events = vec![
        EdgeEvent { edge: Edge::Rising, ticks: 5 },
        EdgeEvent { edge: Edge::Falling, ticks: 9 },
        EdgeEvent { edge: Edge::Rising, ticks: 14 },
        EdgeEvent { edge: Edge::Falling, ticks: 21 },
        EdgeEvent { edge: Edge::Rising, ticks: 30 },
    ];
    p.apply_edges(&events);
    assert_eq!(p.start, Some(30));
    assert_eq!(p.end, Some(21));
    assert_eq!(p.length(), Some(0));
}

#[test]
fn interleaving_one_polarity_leaves_other_absent() {
    let mut p = Pulse::empty();
    let events = vec![
        EdgeEvent { edge: Edge::Rising, ticks: 3 },
        EdgeEvent { edge: Edge::Rising, ticks: 8 },
    ];
    p.apply_edges(&events);
    assert_eq!(p.start, Some(8));
    assert_eq!(p.end, None);
    assert_eq!(p.length(), None);
}

#[test]
fn distance_for_typical_echo() {
    // A 583 microsecond echo is a pulse of 0.000583 s; at 17150 cm/s of
    // one-way travel that is just under 10 cm.
    let micro_cm = distance_micro_cm(583).unwrap();
    assert_eq!(micro_cm, 583 * 17150);
    let cm = micro_cm as f64 / 1_000_000.0;
    assert!((cm - 0.000583 * 17150.0).abs() < 1e-9);
    assert!((cm - 10.0).abs() < 0.01);
}

#[test]
fn distance_overflow_is_absent() {
    assert_eq!(distance_micro_cm(u64::MAX), None);
    assert_eq!(distance_micro_cm(u64::MAX / 17150), Some((u64::MAX / 17150) * 17150));
}
