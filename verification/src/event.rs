//! Core vocabulary of the timer service: caller handles, the internal
//! message sum type that the interval protocol exchanges, and the events
//! that are delivered to callers.

use vstd::prelude::*;

verus! {

/// Opaque identity of the caller that should receive notifications.
/// The runtime maps it to its real delivery address; the core only
/// carries it through.
#[derive(Clone, Copy, PartialEq, Eq, Structural, Debug)]
pub struct Handle {
    pub id: u64,
}

/// Internal protocol message of one interval: either one elapsed period
/// (`Tick`) or a request to stop (`Cancel`), each carrying the caller the
/// interval was created for. Natural exhaustion and external cancellation
/// both speak through `Cancel`.
#[derive(Clone, Copy, PartialEq, Eq, Structural, Debug)]
pub enum Message {
    Tick(Handle),
    Cancel(Handle),
}

/// Notification delivered to a caller handle: `Okay` completes a sleep,
/// `Tick` reports one elapsed interval period, `Cancelled` is the single
/// terminal notice of an interval.
#[derive(Clone, Copy, PartialEq, Eq, Structural, Debug)]
pub enum Event {
    Okay(Handle),
    Tick(Handle),
    Cancelled(Handle),
}

/// The only failure surfaced synchronously to a caller: a period or delay
/// that the service rejects before any asynchronous work starts.
#[derive(Clone, Copy, PartialEq, Eq, Structural, Debug)]
pub enum TimerError {
    InvalidArgument,
}

} // verus!
