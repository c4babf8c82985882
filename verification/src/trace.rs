//! Trace-level model of one interval: which messages the generator
//! forwards into the relay channel, and which events the consumer
//! delivers when it reads them serially. The lemmas at the bottom are the
//! behavioural guarantees of the service: a bounded interval delivers
//! exactly its quota of ticks and then one terminal notice, cancellation
//! is terminal and idempotent, and ticks are never reordered, duplicated
//! or dropped.

use vstd::prelude::*;

verus! {

use crate::event::{Event, Handle, Message};

/// The messages the generator forwards on one clock fire, given the
/// configured repeat limit and the tick count reached with this fire
/// (counting from 1): always the tick itself, and — exactly when a
/// positive limit is reached — a synthesized `Cancel`, so that natural
/// exhaustion speaks the same vocabulary as external cancellation.
pub open spec fn fire_messages(caller: Handle, limit: int, count: int) -> Seq<Message> {
    if limit > 0 && count == limit {
        seq![Message::Tick(caller), Message::Cancel(caller)]
    } else {
        seq![Message::Tick(caller)]
    }
}

/// Everything the generator has forwarded after `fires` clock fires with
/// no external interference.
pub open spec fn generated_messages(caller: Handle, limit: int, fires: nat) -> Seq<Message>
    decreases fires,
{
    if fires == 0 {
        seq![]
    } else {
        generated_messages(caller, limit, (fires - 1) as nat) + fire_messages(
            caller,
            limit,
            fires as int,
        )
    }
}

/// `n` tick messages for one caller.
pub open spec fn tick_messages(caller: Handle, n: nat) -> Seq<Message> {
    Seq::new(n, |i: int| Message::Tick(caller))
}

/// `n` tick events for one caller.
pub open spec fn tick_events(caller: Handle, n: nat) -> Seq<Event> {
    Seq::new(n, |i: int| Event::Tick(caller))
}

/// A message sequence that holds no `Cancel` at all.
pub open spec fn all_ticks(msgs: Seq<Message>) -> bool {
    forall|i: int| 0 <= i < msgs.len() ==> msgs[i] is Tick
}

/// The tick events corresponding one-for-one to a sequence of tick
/// messages, in the same order.
pub open spec fn tick_events_of(msgs: Seq<Message>) -> Seq<Event> {
    Seq::new(msgs.len(), |i: int| Event::Tick(msgs[i]->Tick_0))
}

/// The events the consumption activity delivers when it reads `msgs` from
/// the relay channel serially: each tick is relayed as a tick event, and
/// the first `Cancel` is delivered as the terminal `Cancelled` event,
/// after which the loop exits and nothing further is read.
pub open spec fn consume_events(msgs: Seq<Message>) -> Seq<Event>
    decreases msgs.len(),
{
    if msgs.len() == 0 {
        seq![]
    } else {
        match msgs[0] {
            Message::Tick(h) => seq![Event::Tick(h)] + consume_events(msgs.drop_first()),
            Message::Cancel(h) => seq![Event::Cancelled(h)],
        }
    }
}

/// Index of the first `Cancel` in a message sequence, or its length if
/// it holds none: the point at which the consumption loop exits.
pub open spec fn first_cancel(msgs: Seq<Message>) -> int
    decreases msgs.len(),
{
    if msgs.len() == 0 {
        0
    } else if msgs[0] is Cancel {
        0
    } else {
        1 + first_cancel(msgs.drop_first())
    }
}

/// Reading a cancel-free prefix delivers its ticks one-for-one, in
/// order, and then continues with whatever follows.
pub proof fn lemma_consume_tick_prefix(msgs: Seq<Message>, rest: Seq<Message>)
    requires
        all_ticks(msgs),
    ensures
        consume_events(msgs + rest) == tick_events_of(msgs) + consume_events(rest),
    decreases msgs.len(),
{
    if msgs.len() == 0 {
        assert(msgs + rest =~= rest);
        assert(tick_events_of(msgs) + consume_events(rest) =~= consume_events(rest));
    } else {
        assert(msgs[0] is Tick);
        let h = msgs[0]->Tick_0;
        assert((msgs + rest)[0] == msgs[0]);
        assert((msgs + rest).drop_first() =~= msgs.drop_first() + rest);
        assert(all_ticks(msgs.drop_first()));
        lemma_consume_tick_prefix(msgs.drop_first(), rest);
        assert(seq![Event::Tick(h)] + (tick_events_of(msgs.drop_first()) + consume_events(rest))
            =~= tick_events_of(msgs) + consume_events(rest));
    }
}

/// Ordering: within one interval, the delivered tick events correspond
/// one-for-one, in generation order, to the tick messages before the
/// first `Cancel` — never reordered, duplicated or dropped — and the
/// terminal `Cancelled` event, if any, comes last.
pub proof fn lemma_ticks_in_order(msgs: Seq<Message>)
    ensures
        0 <= first_cancel(msgs) <= msgs.len(),
        first_cancel(msgs) == msgs.len() ==> consume_events(msgs).len() == msgs.len(),
        first_cancel(msgs) < msgs.len() ==> consume_events(msgs).len() == first_cancel(msgs) + 1
            && msgs[first_cancel(msgs)] is Cancel && consume_events(msgs)[first_cancel(msgs)]
            == Event::Cancelled(msgs[first_cancel(msgs)]->Cancel_0),
        forall|i: int|
            0 <= i < first_cancel(msgs) ==> msgs[i] is Tick && #[trigger] consume_events(msgs)[i]
                == Event::Tick(msgs[i]->Tick_0),
    decreases msgs.len(),
{
    if msgs.len() == 0 {
    } else if msgs[0] is Cancel {
    } else {
        lemma_ticks_in_order(msgs.drop_first());
        assert(consume_events(msgs) == seq![Event::Tick(msgs[0]->Tick_0)] + consume_events(
            msgs.drop_first(),
        ));
        assert forall|i: int| 0 <= i < first_cancel(msgs) implies msgs[i] is Tick
            && #[trigger] consume_events(msgs)[i] == Event::Tick(msgs[i]->Tick_0) by {
            if i > 0 {
                assert(msgs.drop_first()[i - 1] == msgs[i]);
                assert(consume_events(msgs.drop_first())[i - 1] == Event::Tick(
                    msgs.drop_first()[i - 1]->Tick_0,
                ));
            }
        }
    }
}

/// Termination is terminal: whatever mixture of ticks and cancels is
/// ever placed on the relay — a late tick, a second cancel racing the
/// first, a cancel after natural exhaustion — at most one `Cancelled`
/// event is delivered, it is the last event, and no tick follows it.
pub proof fn lemma_terminal_is_last(msgs: Seq<Message>)
    ensures
        forall|i: int|
            0 <= i < consume_events(msgs).len() && #[trigger] consume_events(msgs)[i] is Cancelled
                ==> i == consume_events(msgs).len() - 1,
    decreases msgs.len(),
{
    if msgs.len() == 0 {
    } else if msgs[0] is Cancel {
    } else {
        lemma_terminal_is_last(msgs.drop_first());
        let tail = consume_events(msgs.drop_first());
        assert(consume_events(msgs) == seq![Event::Tick(msgs[0]->Tick_0)] + tail);
        assert forall|i: int|
            0 <= i < consume_events(msgs).len() && #[trigger] consume_events(msgs)[i] is Cancelled
                implies i == consume_events(msgs).len() - 1 by {
            if i > 0 {
                assert(tail[i - 1] == consume_events(msgs)[i]);
            }
        }
    }
}

/// What the generator alone puts on the relay, unfolded: with a
/// non-positive limit, or before a positive limit is reached, only
/// ticks; once a positive limit is reached, exactly `limit` ticks, the
/// synthesized `Cancel`, and then one tick per further fire.
pub proof fn lemma_generated_structure(caller: Handle, limit: int, fires: nat)
    ensures
        limit <= 0 || fires < limit ==> generated_messages(caller, limit, fires) == tick_messages(
            caller,
            fires,
        ),
        limit > 0 && fires >= limit ==> generated_messages(caller, limit, fires) == tick_messages(
            caller,
            limit as nat,
        ) + seq![Message::Cancel(caller)] + tick_messages(caller, (fires - limit) as nat),
    decreases fires,
{
    if fires == 0 {
        assert(generated_messages(caller, limit, 0) =~= tick_messages(caller, 0));
    } else {
        lemma_generated_structure(caller, limit, (fires - 1) as nat);
        if limit <= 0 || fires < limit {
            assert(generated_messages(caller, limit, fires) =~= tick_messages(caller, fires));
        } else if fires == limit {
            assert(generated_messages(caller, limit, fires) =~= tick_messages(caller, limit as nat)
                + seq![Message::Cancel(caller)] + tick_messages(caller, 0));
        } else {
            assert(generated_messages(caller, limit, fires) =~= tick_messages(caller, limit as nat)
                + seq![Message::Cancel(caller)] + tick_messages(caller, (fires - limit) as nat));
        }
    }
}

/// The consumption loop exits exactly at a cancel: a message sequence
/// is cancel-free precisely when the consumer reads it to the very end.
pub proof fn lemma_first_cancel_bounds(msgs: Seq<Message>)
    ensures
        0 <= first_cancel(msgs) <= msgs.len(),
        all_ticks(msgs) <==> first_cancel(msgs) == msgs.len(),
        first_cancel(msgs) < msgs.len() ==> msgs[first_cancel(msgs)] is Cancel,
        forall|i: int| 0 <= i < first_cancel(msgs) ==> msgs[i] is Tick,
    decreases msgs.len(),
{
    if msgs.len() == 0 {
    } else if msgs[0] is Cancel {
        assert(!all_ticks(msgs));
    } else {
        lemma_first_cancel_bounds(msgs.drop_first());
        assert forall|i: int| 0 <= i < first_cancel(msgs) implies msgs[i] is Tick by {
            if i > 0 {
                assert(msgs.drop_first()[i - 1] == msgs[i]);
                assert(msgs.drop_first()[i - 1] is Tick);
            }
        }
        if all_ticks(msgs.drop_first()) {
            assert forall|i: int| 0 <= i < msgs.len() implies msgs[i] is Tick by {
                if i > 0 {
                    assert(msgs.drop_first()[i - 1] == msgs[i]);
                }
            }
        } else {
            let j = choose|j: int|
                0 <= j < msgs.drop_first().len() && !(msgs.drop_first()[j] is Tick);
            assert(msgs.drop_first()[j] == msgs[j + 1]);
            assert(!all_ticks(msgs));
        }
    }
}

/// Exactly one terminal event per interval lifecycle: however the race
/// between natural exhaustion and explicit cancellation plays out — one
/// cancel on the relay, both already in flight, late ticks behind them —
/// once any `Cancel` is present, the delivered events are some ticks
/// followed by exactly one `Cancelled`, and nothing else.
pub proof fn lemma_exactly_one_terminal(msgs: Seq<Message>)
    requires
        !all_ticks(msgs),
    ensures
        consume_events(msgs).len() >= 1,
        consume_events(msgs).last() is Cancelled,
        forall|i: int|
            0 <= i < consume_events(msgs).len() - 1 ==> #[trigger] consume_events(msgs)[i] is Tick,
{
    lemma_first_cancel_bounds(msgs);
    lemma_ticks_in_order(msgs);
}

/// A run of tick messages is cancel-free, and its delivered events are
/// the same run of tick events.
pub proof fn lemma_tick_messages_facts(caller: Handle, n: nat)
    ensures
        all_ticks(tick_messages(caller, n)),
        tick_events_of(tick_messages(caller, n)) == tick_events(caller, n),
{
    assert(tick_events_of(tick_messages(caller, n)) =~= tick_events(caller, n));
}

/// A bounded interval delivers exactly its quota: for every positive
/// repeat limit, once the clock has fired at least `limit` times, the
/// delivered events are exactly `limit` ticks followed by the single
/// terminal `Cancelled` — and nothing more, however often the clock
/// fires beyond the limit before the stop signal lands.
pub proof fn lemma_bounded_interval_events(caller: Handle, limit: i32, fires: nat)
    requires
        limit > 0,
        fires >= limit,
    ensures
        consume_events(generated_messages(caller, limit as int, fires)) == tick_events(
            caller,
            limit as nat,
        ) + seq![Event::Cancelled(caller)],
{
    lemma_generated_structure(caller, limit as int, fires);
    lemma_tick_messages_facts(caller, limit as nat);
    let pre = tick_messages(caller, limit as nat);
    let rest = seq![Message::Cancel(caller)] + tick_messages(caller, (fires - limit) as nat);
    assert(generated_messages(caller, limit as int, fires) =~= pre + rest);
    lemma_consume_tick_prefix(pre, rest);
    assert(consume_events(rest) =~= seq![Event::Cancelled(caller)]);
}

/// An unbounded interval never terminates on its own: with a
/// non-positive repeat limit the generator synthesizes no `Cancel`, so
/// after any number of fires the delivered events are exactly that many
/// ticks, in order, with no terminal event.
pub proof fn lemma_unbounded_interval_events(caller: Handle, limit: i32, fires: nat)
    requires
        limit <= 0,
    ensures
        consume_events(generated_messages(caller, limit as int, fires)) == tick_events(
            caller,
            fires,
        ),
{
    lemma_generated_structure(caller, limit as int, fires);
    lemma_tick_messages_facts(caller, fires);
    let pre = tick_messages(caller, fires);
    assert(pre + Seq::<Message>::empty() =~= pre);
    lemma_consume_tick_prefix(pre, Seq::<Message>::empty());
    assert(tick_events_of(pre) + consume_events(Seq::<Message>::empty()) =~= tick_events(
        caller,
        fires,
    ));
}

/// External cancellation ends the stream: after some ticks have been
/// relayed, an injected `Cancel` is followed by exactly one terminal
/// `Cancelled` event, and whatever was still in flight behind it —
/// late ticks, a second cancel — is never delivered.
pub proof fn lemma_external_cancel_events(caller: Handle, ticks: nat, late: Seq<Message>)
    ensures
        consume_events(tick_messages(caller, ticks) + (seq![Message::Cancel(caller)] + late))
            == tick_events(caller, ticks) + seq![Event::Cancelled(caller)],
{
    lemma_tick_messages_facts(caller, ticks);
    let rest = seq![Message::Cancel(caller)] + late;
    lemma_consume_tick_prefix(tick_messages(caller, ticks), rest);
    assert(consume_events(rest) =~= seq![Event::Cancelled(caller)]);
}

} // verus!
