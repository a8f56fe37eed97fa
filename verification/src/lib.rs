//! Pulse-width measurement and PWM duty-cycle ramp planning.
//!
//! Two independent pieces:
//!
//! * [`pulse`] — an edge-triggered pulse timer: it records the timestamps of
//!   rising and falling transitions on a digital input line and turns them
//!   into a single elapsed-time measurement (an ultrasonic echo pulse width),
//!   plus the conversion from pulse width to distance.
//! * [`ramp`] — a duty-cycle ramp planner: it produces the ordered sequence
//!   of duty-cycle steps that a PWM channel is driven through, and models the
//!   abort/release discipline of executing such a ramp.
//!
//! Hardware access (GPIO levels, interrupt registration, PWM channels) is
//! left to the caller; this crate works on plain timestamps and duty values.

pub mod pulse;
pub mod ramp;
