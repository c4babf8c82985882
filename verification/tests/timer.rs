use micro_timer::engine::{run_consumer, run_generator, EngineState, GeneratorState, StepEffect};
use micro_timer::event::{Event, Handle, Message, TimerError};
use micro_timer::{cancel, interval, ns, run_interval, sleep, sleep_event, Duration, TimerHandle};

fn handle(id: u64) -> Handle {
    Handle { id }
}

#[test]
fn zero_period_rejected_synchronously() {
    let h = handle(1);
    match interval(0, h, 1) {
        Err(e) => assert_eq!(e, TimerError::InvalidArgument),
        Ok(_) => panic!("a zero period must be rejected"),
    }
    // No events are ever emitted for a rejected request.
    assert_eq!(run_interval(0, h, 1, 10), Err(TimerError::InvalidArgument));
}

#[test]
fn bounded_interval_three_ticks_then_cancelled() {
    let h = handle(2);
    let events = run_interval(1_000_000, h, 3, 3).unwrap();
    assert_eq!(
        events,
        vec![Event::Tick(h), Event::Tick(h), Event::Tick(h), Event::Cancelled(h)]
    );
}

#[test]
fn bounded_interval_ignores_extra_fires() {
    let h = handle(3);
    // However often the clock still fires before the stop signal lands,
    // the caller observes exactly the quota and one terminal event.
    let events = run_interval(1_000_000, h, 3, 10).unwrap();
    assert_eq!(
        events,
        vec![Event::Tick(h), Event::Tick(h), Event::Tick(h), Event::Cancelled(h)]
    );
}

#[test]
fn unbounded_interval_cancelled_after_two_ticks() {
    let h = handle(4);
    let session = interval(1_000_000, h, 0).unwrap();
    // Two fires relayed, then an external cancel through the handle,
    // with one late tick already past the relay boundary behind it.
    let mut msgs = run_generator(h, 0, 2);
    msgs.push(cancel(&session.handle));
    msgs.push(Message::Tick(h));
    let events = run_consumer(0, &msgs);
    assert_eq!(events, vec![Event::Tick(h), Event::Tick(h), Event::Cancelled(h)]);
}

#[test]
fn unbounded_interval_never_terminates_alone() {
    let h = handle(5);
    let events = run_interval(1_000, h, 0, 5).unwrap();
    assert_eq!(events, vec![Event::Tick(h); 5]);
    let negative = run_interval(1_000, h, -7, 4).unwrap();
    assert_eq!(negative, vec![Event::Tick(h); 4]);
}

#[test]
fn cancel_is_idempotent() {
    let h = handle(6);
    let t = TimerHandle { owner: h };
    // Calling cancel twice never errors and yields the same message.
    let first = cancel(&t);
    let second = cancel(&t);
    assert_eq!(first, Message::Cancel(h));
    assert_eq!(first, second);
    // Two cancels in flight: only the first is ever processed.
    let msgs = vec![Message::Tick(h), Message::Cancel(h), Message::Cancel(h)];
    let events = run_consumer(0, &msgs);
    assert_eq!(events, vec![Event::Tick(h), Event::Cancelled(h)]);
}

#[test]
fn cancel_after_exhaustion_is_harmless() {
    let h = handle(7);
    // Natural exhaustion (limit 2) already queued the terminal notice; a
    // stale external cancel behind it is never read.
    let mut msgs = run_generator(h, 2, 2);
    msgs.push(Message::Cancel(h));
    let events = run_consumer(2, &msgs);
    assert_eq!(events, vec![Event::Tick(h), Event::Tick(h), Event::Cancelled(h)]);
}

#[test]
fn sleep_accepted_and_delivers_one_okay() {
    let h = handle(8);
    let req = sleep(1_000_000, h);
    assert_eq!(req.caller, h);
    assert_eq!(req.delay, Duration { secs: 0, nanos: 1_000_000 });
    assert_eq!(sleep_event(&req), Event::Okay(h));
}

#[test]
fn ns_splits_nanoseconds_exactly() {
    assert_eq!(ns(0), Duration { secs: 0, nanos: 0 });
    assert_eq!(ns(999_999_999), Duration { secs: 0, nanos: 999_999_999 });
    assert_eq!(ns(1_000_000_000), Duration { secs: 1, nanos: 0 });
    assert_eq!(ns(1_500_000_001), Duration { secs: 1, nanos: 500_000_001 });
    assert_eq!(
        ns(u64::MAX),
        Duration { secs: 18_446_744_073, nanos: 709_551_615 }
    );
}

#[test]
fn engine_counts_ticks_and_retires_once() {
    let h = handle(9);
    let mut engine = EngineState::new(0);
    assert!(engine.running);
    assert_eq!(engine.on_message(Message::Tick(h)), StepEffect::Delivered(Event::Tick(h)));
    assert_eq!(engine.tick_count, 1);
    assert_eq!(
        engine.on_message(Message::Cancel(h)),
        StepEffect::Terminated(Event::Cancelled(h))
    );
    assert!(!engine.running);
    // Retired: anything further is dropped silently.
    assert_eq!(engine.on_message(Message::Tick(h)), StepEffect::Ignored);
    assert_eq!(engine.on_message(Message::Cancel(h)), StepEffect::Ignored);
    assert_eq!(engine.tick_count, 1);
}

#[test]
fn generator_synthesizes_cancel_at_limit() {
    let h = handle(10);
    let mut g = GeneratorState::new(2);
    assert_eq!(g.on_fire(h), vec![Message::Tick(h)]);
    assert_eq!(g.on_fire(h), vec![Message::Tick(h), Message::Cancel(h)]);
    let mut unbounded = GeneratorState::new(0);
    for _ in 0..4 {
        assert_eq!(unbounded.on_fire(h), vec![Message::Tick(h)]);
    }
    let mut stopped = GeneratorState::new(0);
    stopped.on_stop();
    assert!(stopped.stopped);
}

#[test]
fn session_holds_request_and_fresh_state() {
    let h = handle(11);
    let session = interval(2_000_000_000, h, 5).unwrap();
    assert_eq!(session.request.period, 2_000_000_000);
    assert_eq!(session.request.caller, h);
    assert_eq!(session.request.repeat_limit, 5);
    assert_eq!(session.period, Duration { secs: 2, nanos: 0 });
    assert_eq!(session.handle.owner, h);
    assert_eq!(session.engine, EngineState { tick_count: 0, limit: 5, running: true });
    assert_eq!(session.generator, GeneratorState { fired: 0, limit: 5, stopped: false });
}
