//! The two state machines of one interval. The generator decides, on
//! each clock fire, which messages to forward into the relay channel; the
//! consumer (engine) decides, for each message read from the relay, which
//! event to deliver and whether to retire. The runtime supplies the
//! threads, channels and clock around them; every decision is made here.

use vstd::prelude::*;

verus! {

use crate::event::{Event, Handle, Message};
use crate::trace::{
    all_ticks, consume_events, fire_messages, generated_messages, lemma_consume_tick_prefix,
    tick_events_of,
};

/// What the consumption activity must do after handing one message to the
/// engine: nothing (the engine had already retired and drops the message
/// silently), deliver one tick event and keep listening, or deliver the
/// terminal event, signal the generator to stop, and retire.
#[derive(Clone, Copy, PartialEq, Eq, Structural, Debug)]
pub enum StepEffect {
    Ignored,
    Delivered(Event),
    Terminated(Event),
}

/// State owned exclusively by the consumption activity of one interval:
/// how many ticks it has delivered, the configured repeat limit (kept for
/// observation; the generator enforces it), and whether it is still
/// processing messages. Once `running` turns false it never turns true
/// again, and no further message has any effect.
#[derive(Clone, Copy, PartialEq, Eq, Structural, Debug)]
pub struct EngineState {
    pub tick_count: u64,
    pub limit: i32,
    pub running: bool,
}

impl EngineState {
    /// A fresh engine: no ticks delivered yet, actively listening.
    pub fn new(limit: i32) -> (s: EngineState)
        ensures
            s == (EngineState { tick_count: 0, limit: limit, running: true }),
    {
        EngineState { tick_count: 0, limit, running: true }
    }

    /// Processes one message read from the relay channel. A tick is
    /// counted and delivered; the first cancel — whether synthesized by
    /// the generator at exhaustion or injected externally — delivers the
    /// single terminal event and retires the engine; anything arriving
    /// after retirement is dropped silently.
    pub fn on_message(&mut self, msg: Message) -> (e: StepEffect)
        requires
            old(self).tick_count < u64::MAX,
        ensures
            final(self).limit == old(self).limit,
            !old(self).running ==> *final(self) == *old(self) && e == StepEffect::Ignored,
            old(self).running && msg is Tick ==> *final(self) == (EngineState {
                tick_count: (old(self).tick_count + 1) as u64,
                ..*old(self)
            }) && e == StepEffect::Delivered(Event::Tick(msg->Tick_0)),
            old(self).running && msg is Cancel ==> *final(self) == (EngineState {
                running: false,
                ..*old(self)
            }) && e == StepEffect::Terminated(Event::Cancelled(msg->Cancel_0)),
    {
        if !self.running {
            StepEffect::Ignored
        } else {
            match msg {
                Message::Tick(h) => {
                    self.tick_count = self.tick_count + 1;
                    StepEffect::Delivered(Event::Tick(h))
                },
                Message::Cancel(h) => {
                    self.running = false;
                    StepEffect::Terminated(Event::Cancelled(h))
                },
            }
        }
    }
}

/// State owned exclusively by the tick-generating activity of one
/// interval: how many times the clock has fired, the configured repeat
/// limit, and whether the stop signal has been observed.
#[derive(Clone, Copy, PartialEq, Eq, Structural, Debug)]
pub struct GeneratorState {
    pub fired: u64,
    pub limit: i32,
    pub stopped: bool,
}

impl GeneratorState {
    /// A fresh generator: no fires yet, not stopped.
    pub fn new(limit: i32) -> (g: GeneratorState)
        ensures
            g == (GeneratorState { fired: 0, limit: limit, stopped: false }),
    {
        GeneratorState { fired: 0, limit, stopped: false }
    }

    /// Decides what to forward on one clock fire: the tick itself, and,
    /// exactly when this fire reaches a positive repeat limit, a
    /// synthesized `Cancel` right after it.
    pub fn on_fire(&mut self, caller: Handle) -> (msgs: Vec<Message>)
        requires
            !old(self).stopped,
            old(self).fired < u64::MAX,
        ensures
            *final(self) == (GeneratorState { fired: (old(self).fired + 1) as u64, ..*old(self) }),
            msgs@ == fire_messages(caller, old(self).limit as int, old(self).fired + 1),
    {
        self.fired = self.fired + 1;
        let mut msgs: Vec<Message> = Vec::new();
        msgs.push(Message::Tick(caller));
        if self.limit > 0 && self.fired == self.limit as u64 {
            msgs.push(Message::Cancel(caller));
        }
        proof {
            assert(msgs@ =~= fire_messages(caller, old(self).limit as int, old(self).fired + 1));
        }
        msgs
    }

    /// Observes the stop signal: the generator exits its loop and
    /// forwards nothing further.
    pub fn on_stop(&mut self)
        ensures
            *final(self) == (GeneratorState { stopped: true, ..*old(self) }),
    {
        self.stopped = true;
    }
}

/// Replays the generator's decisions over `fires` consecutive clock
/// fires with no stop signal observed: exactly the messages it forwards
/// to the relay channel, in order.
pub fn run_generator(caller: Handle, limit: i32, fires: u64) -> (msgs: Vec<Message>)
    ensures
        msgs@ == generated_messages(caller, limit as int, fires as nat),
{
    let mut g = GeneratorState::new(limit);
    let mut msgs: Vec<Message> = Vec::new();
    let mut k: u64 = 0;
    while k < fires
        invariant
            k <= fires,
            g == (GeneratorState { fired: k, limit: limit, stopped: false }),
            msgs@ == generated_messages(caller, limit as int, k as nat),
        decreases fires - k,
    {
        let mut step = g.on_fire(caller);
        msgs.append(&mut step);
        k = k + 1;
        proof {
            assert(msgs@ =~= generated_messages(caller, limit as int, k as nat));
        }
    }
    msgs
}

/// Replays the consumption activity on the sequence of messages it
/// reads serially from the relay channel: the events it delivers, in
/// order, stopping at the first `Cancel` and reading nothing further.
pub fn run_consumer(limit: i32, msgs: &Vec<Message>) -> (events: Vec<Event>)
    ensures
        events@ == consume_events(msgs@),
{
    let mut engine = EngineState::new(limit);
    let mut events: Vec<Event> = Vec::new();
    let mut i: usize = 0;
    while i < msgs.len() && engine.running
        invariant
            i <= msgs@.len(),
            engine.limit == limit,
            engine.running ==> engine.tick_count == i && all_ticks(msgs@.take(i as int))
                && events@ == tick_events_of(msgs@.take(i as int)),
            !engine.running ==> events@ == consume_events(msgs@),
        decreases msgs@.len() - i,
    {
        let effect = engine.on_message(msgs[i]);
        match effect {
            StepEffect::Delivered(e) => {
                events.push(e);
                proof {
                    assert(msgs@.take(i + 1).drop_last() =~= msgs@.take(i as int));
                    assert(events@ =~= tick_events_of(msgs@.take(i + 1)));
                }
            },
            StepEffect::Terminated(e) => {
                events.push(e);
                proof {
                    lemma_consume_tick_prefix(msgs@.take(i as int), msgs@.skip(i as int));
                    assert(msgs@.take(i as int) + msgs@.skip(i as int) =~= msgs@);
                    assert(consume_events(msgs@.skip(i as int)) =~= seq![
                        Event::Cancelled(msgs@[i as int]->Cancel_0),
                    ]);
                    assert(events@ =~= consume_events(msgs@));
                }
            },
            StepEffect::Ignored => {},
        }
        i = i + 1;
    }
    proof {
        if engine.running {
            assert(msgs@.take(i as int) =~= msgs@);
            lemma_consume_tick_prefix(msgs@, Seq::<Message>::empty());
            assert(msgs@ + Seq::<Message>::empty() =~= msgs@);
            assert(tick_events_of(msgs@) + consume_events(Seq::<Message>::empty()) =~= tick_events_of(
                msgs@,
            ));
        }
    }
    events
}

} // verus!
