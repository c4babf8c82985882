//! A lightweight, cancellable timer service core: one-shot delayed
//! notifications (`sleep`) and repeating notification streams (`interval`)
//! with a bounded repeat count and asynchronous cancellation. This crate
//! holds the verified decision logic — request validation, the
//! generator/consumer state machines, and the event protocol they agree
//! on; a thin runtime drives it with real threads, channels and clocks.

use vstd::prelude::*;

pub mod engine;
pub mod event;
pub mod pool;
pub mod trace;

verus! {

use crate::engine::{run_consumer, run_generator, EngineState, GeneratorState};
use crate::event::{Event, Handle, Message, TimerError};
use crate::trace::{consume_events, generated_messages};

/// A span of time split into whole seconds and a sub-second remainder in
/// nanoseconds, the representation the tick source is configured with.
#[derive(Clone, Copy, PartialEq, Eq, Structural, Debug)]
pub struct Duration {
    pub secs: u64,
    pub nanos: u32,
}

pub const NANOS_PER_SEC: u64 = 1_000_000_000;

/// The `Duration` worth `duration` nanoseconds.
pub open spec fn spec_ns(duration: u64) -> Duration {
    Duration {
        secs: (duration / NANOS_PER_SEC) as u64,
        nanos: (duration % NANOS_PER_SEC) as u32,
    }
}

/// Converts a nanosecond count into a `Duration`.
#[verifier::when_used_as_spec(spec_ns)]
pub fn ns(duration: u64) -> (d: Duration)
    ensures
        d == spec_ns(duration),
{
    Duration { secs: duration / NANOS_PER_SEC, nanos: (duration % NANOS_PER_SEC) as u32 }
}

/// An accepted timer request, immutable once accepted: the tick period
/// in nanoseconds, the caller to notify, and the repeat limit, where a
/// non-positive limit means the interval repeats until cancelled.
#[derive(Clone, Copy, PartialEq, Eq, Structural, Debug)]
pub struct TimerRequest {
    pub period: u64,
    pub caller: Handle,
    pub repeat_limit: i32,
}

/// The shareable token returned by `interval`: any holder may request
/// cancellation of the running interval through it. The runtime pairs it
/// with the write end of the relay channel; the core records whom the
/// interval notifies.
#[derive(Clone, Copy, PartialEq, Eq, Structural, Debug)]
pub struct TimerHandle {
    pub owner: Handle,
}

/// An accepted one-shot request: wait out `delay`, then notify `caller`
/// exactly once.
#[derive(Clone, Copy, PartialEq, Eq, Structural, Debug)]
pub struct SleepRequest {
    pub delay: Duration,
    pub caller: Handle,
}

/// Everything the runtime needs to drive one freshly accepted interval:
/// the request itself, the period for the clock source, the handle to
/// give back to the caller, and the two state machines, one per
/// activity, in their initial states.
#[derive(Clone, Copy, PartialEq, Eq, Structural, Debug)]
pub struct IntervalSession {
    pub request: TimerRequest,
    pub period: Duration,
    pub handle: TimerHandle,
    pub engine: EngineState,
    pub generator: GeneratorState,
}

/// The interval session that `interval` sets up for an accepted request.
pub open spec fn spec_interval_session(duration: u64, caller: Handle, times: i32) -> IntervalSession {
    IntervalSession {
        request: TimerRequest { period: duration, caller: caller, repeat_limit: times },
        period: spec_ns(duration),
        handle: TimerHandle { owner: caller },
        engine: EngineState { tick_count: 0, limit: times, running: true },
        generator: GeneratorState { fired: 0, limit: times, stopped: false },
    }
}

/// Accepts a one-shot request: always succeeds, immediately. The
/// runtime waits out the delay and then delivers the one event that
/// `sleep_event` names.
pub fn sleep(duration: u64, caller: Handle) -> (r: SleepRequest)
    ensures
        r == (SleepRequest { delay: spec_ns(duration), caller: caller }),
{
    SleepRequest { delay: ns(duration), caller }
}

/// The single notification a completed sleep delivers to its caller.
pub fn sleep_event(r: &SleepRequest) -> (e: Event)
    ensures
        e == Event::Okay(r.caller),
{
    Event::Okay(r.caller)
}

/// Accepts or rejects an interval request, before any asynchronous work
/// starts: a zero period is rejected with `InvalidArgument`, and no
/// event is ever emitted for it; any other request yields a fresh
/// session immediately.
pub fn interval(duration: u64, caller: Handle, times: i32) -> (r: Result<
    IntervalSession,
    TimerError,
>)
    ensures
        duration == 0 <==> r is Err,
        r is Err ==> r->Err_0 == TimerError::InvalidArgument,
        r is Ok ==> r->Ok_0 == spec_interval_session(duration, caller, times),
{
    if duration == 0 {
        Err(TimerError::InvalidArgument)
    } else {
        Ok(
            IntervalSession {
                request: TimerRequest { period: duration, caller, repeat_limit: times },
                period: ns(duration),
                handle: TimerHandle { owner: caller },
                engine: EngineState::new(times),
                generator: GeneratorState::new(times),
            },
        )
    }
}

/// Requests cancellation of a running interval: the message the holder
/// injects into the relay channel. Cancellation is fire-and-forget and
/// is always accepted — this function is total and never fails, whether
/// the interval is still active or long retired; a cancel sent to a
/// retired interval is dropped silently by the engine.
pub fn cancel(handle: &TimerHandle) -> (m: Message)
    ensures
        m == Message::Cancel(handle.owner),
{
    Message::Cancel(handle.owner)
}

/// Replays one whole interval lifecycle without real time: validates
/// the request, lets the clock fire `fires` times with no external
/// interference, and returns the events the caller observes, in order.
pub fn run_interval(duration: u64, caller: Handle, times: i32, fires: u64) -> (r: Result<
    Vec<Event>,
    TimerError,
>)
    ensures
        duration == 0 <==> r is Err,
        r is Err ==> r->Err_0 == TimerError::InvalidArgument,
        r is Ok ==> r->Ok_0@ == consume_events(generated_messages(caller, times as int, fires as nat)),
{
    match interval(duration, caller, times) {
        Err(e) => Err(e),
        Ok(session) => {
            let msgs = run_generator(session.request.caller, session.request.repeat_limit, fires);
            let events = run_consumer(session.request.repeat_limit, &msgs);
            Ok(events)
        },
    }
}

} // verus!
