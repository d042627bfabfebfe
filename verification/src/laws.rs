//! What holds of every history of the task.

use vstd::prelude::*;
use crate::metrics::saturate;
use crate::miner::ReadinessState;
use crate::task::{Awaiting, Effect, Event, TaskState};
use crate::trace::{
    announces, delivered, delivers, drained, effects, enqueued, gas_used, outcomes, polls,
    reported, run, steps_used, taken,
};
use crate::types::{MiningFailure, MiningOutcome};

verus! {

/// The first `n` elements of a sequence are its first `n - 1` elements and
/// then the element at `n - 1`.
proof fn lemma_take_drop_last<A>(s: Seq<A>, n: int)
    requires
        0 < n <= s.len(),
    ensures
        s.take(n).drop_last() == s.take(n - 1),
        s.take(n).last() == s[n - 1],
{
}

/// The outcomes of a history are those of the history without its last
/// event, and after them the outcome that the last event brought, if any.
proof fn lemma_outcomes_step<T>(events: Seq<Event<T>>)
    requires
        events.len() > 0,
    ensures
        outcomes(events) == match events.last() {
            Event::Completion(Some(outcome)) => outcomes(events.drop_last()).push(outcome),
            _ => outcomes(events.drop_last()),
        },
{
    match events.last() {
        Event::Completion(answer) => {
            let before = polls(events.drop_last());
            assert(polls(events) == before.push(answer));
            assert(before.push(answer).drop_last() =~= before);
        },
        _ => {},
    }
}

/// Gas and steps of a sequence of results with one more result at its end.
proof fn lemma_used_push(
    results: Seq<Result<MiningOutcome, MiningFailure>>,
    result: Result<MiningOutcome, MiningFailure>,
)
    ensures
        gas_used(results.push(result)) == gas_used(results) + match result {
            Ok(outcome) => outcome.stats.l1_gas_used as nat,
            Err(_) => 0,
        },
        steps_used(results.push(result)) == steps_used(results) + match result {
            Ok(outcome) => outcome.stats.cairo_steps_used as nat,
            Err(_) => 0,
        },
{
    assert(results.push(result).drop_last() =~= results);
}

/// The counters show the sum of what every mined block reported, each
/// capped at the counter's ceiling; blocks that failed add nothing. As long
/// as a sum fits the counter, the counter shows it exactly.
pub proof fn law_metrics_sum_mined_blocks<T>(start: TaskState, events: Seq<Event<T>>)
    requires
        start.totals.bounded(),
    ensures
        run(start, events).totals.l1_gas == saturate(
            start.totals.l1_gas + gas_used(outcomes(events)),
        ),
        run(start, events).totals.cairo_steps == saturate(
            start.totals.cairo_steps + steps_used(outcomes(events)),
        ),
        start.totals.l1_gas + gas_used(outcomes(events)) <= u64::MAX ==> run(
            start,
            events,
        ).totals.l1_gas == start.totals.l1_gas + gas_used(outcomes(events)),
        start.totals.cairo_steps + steps_used(outcomes(events)) <= u64::MAX ==> run(
            start,
            events,
        ).totals.cairo_steps == start.totals.cairo_steps + steps_used(outcomes(events)),
    decreases events.len(),
{
    if events.len() == 0 {
        assert(outcomes(events) =~= Seq::empty());
    } else {
        let before = events.drop_last();
        law_metrics_sum_mined_blocks(start, before);
        lemma_outcomes_step(events);
        match events.last() {
            Event::Completion(Some(outcome)) => {
                lemma_used_push(outcomes(before), outcome);
            },
            _ => {},
        }
    }
}

/// The counters never decrease: at every point of a history each counter
/// is at least what it was at any earlier point, and it never leaves the
/// range of the machine counter.
pub proof fn law_counters_never_decrease<T>(start: TaskState, events: Seq<Event<T>>, earlier: int)
    requires
        start.totals.bounded(),
        0 <= earlier <= events.len(),
    ensures
        run(start, events).totals.bounded(),
        run(start, events.take(earlier)).totals.l1_gas <= run(start, events).totals.l1_gas,
        run(start, events.take(earlier)).totals.cairo_steps <= run(
            start,
            events,
        ).totals.cairo_steps,
    decreases events.len(),
{
    if earlier == events.len() {
        assert(events.take(earlier) =~= events);
        if events.len() > 0 {
            law_counters_never_decrease(start, events.drop_last(), earlier - 1);
        }
    } else {
        law_counters_never_decrease(start, events.drop_last(), earlier);
        assert(events.drop_last().take(earlier) =~= events.take(earlier));
    }
}

/// Once the pool has handed over a batch with transactions in it, the task
/// does not ask the pool again before a new notification arrives: through
/// every later event that is no notification the pool stays known to be
/// empty, and the task is never awaiting a batch.
pub proof fn law_known_empty_pool_is_left_alone<T>(
    start: TaskState,
    events: Seq<Event<T>>,
    batch_at: int,
    until: int,
)
    requires
        0 <= batch_at < until <= events.len(),
        delivers(events[batch_at]),
        forall|j: int| batch_at < j < until ==> !announces(#[trigger] events[j]),
    ensures
        run(start, events.take(until)).readiness == ReadinessState::Empty,
        run(start, events.take(until)).awaiting != Awaiting::Batch,
    decreases until - batch_at,
{
    lemma_take_drop_last(events, until);
    if until > batch_at + 1 {
        law_known_empty_pool_is_left_alone(start, events, batch_at, until - 1);
        assert(!announces(events[until - 1]));
    }
}

/// The effects of a history without its last event are the effects of the
/// history without the last of them.
proof fn lemma_effects_step<T>(start: TaskState, events: Seq<Event<T>>)
    requires
        events.len() > 0,
    ensures
        effects(start, events).drop_last() == effects(start, events.drop_last()),
        effects(start, events).last() == run(start, events.drop_last()).effect(events.last()),
{
    let before = events.drop_last();
    assert forall|i: int| 0 <= i < before.len() implies before.take(i) == events.take(i) by {
        assert(before.take(i) =~= events.take(i));
    }
    assert(effects(start, events).drop_last() =~= effects(start, before));
    assert(events.take(events.len() - 1) =~= before);
}

/// The block producer is handed exactly what the pool gave: the transactions
/// of all batches taken from the pool, each once and in the order taken.
/// Every batch with transactions in it is handed on whole by the effect of
/// the event that brought it, and no other effect hands on anything; an
/// empty batch is never handed on.
pub proof fn law_enqueued_is_what_the_pool_gave<T>(start: TaskState, events: Seq<Event<T>>)
    ensures
        enqueued(effects(start, events)) == taken(events),
        forall|i: int|
            0 <= i < events.len() ==> (#[trigger] effects(start, events)[i] matches Effect::Enqueue(
                batch,
            ) ==> batch@.len() > 0 && events[i] == Event::Batch(batch)),
        forall|i: int|
            0 <= i < events.len() ==> (#[trigger] events[i] matches Event::Batch(batch) ==> (
            batch@.len() > 0 ==> effects(start, events)[i] == Effect::Enqueue(batch))),
    decreases events.len(),
{
    if events.len() == 0 {
        assert(effects(start, events) =~= Seq::empty());
    } else {
        law_enqueued_is_what_the_pool_gave(start, events.drop_last());
        lemma_effects_step(start, events);
        match events.last() {
            Event::Batch(batch) => {
                if batch@.len() == 0 {
                    assert(taken(events.drop_last()) + batch@ =~= taken(events.drop_last()));
                }
            },
            _ => {},
        }
    }
}

/// Every block outcome handed to the task is reported for logging, mined
/// blocks and failures alike, once and in the order in which the block
/// producer completed them.
pub proof fn law_outcomes_are_reported_in_order<T>(start: TaskState, events: Seq<Event<T>>)
    ensures
        reported(effects(start, events)) == outcomes(events),
    decreases events.len(),
{
    if events.len() == 0 {
        assert(effects(start, events) =~= Seq::empty());
        assert(outcomes(events) =~= Seq::empty());
    } else {
        law_outcomes_are_reported_in_order(start, events.drop_last());
        lemma_effects_step(start, events);
        lemma_outcomes_step(events);
    }
}

/// A task that was draining the completion stream after the first `since`
/// events and is no longer draining at the end of the history has seen
/// the stream empty in between, with no batch handed over afterwards.
proof fn lemma_left_draining<T>(start: TaskState, events: Seq<Event<T>>, since: int) -> (at: int)
    requires
        0 <= since <= events.len(),
        run(start, events.take(since)).awaiting == Awaiting::Completion,
        run(start, events).awaiting != Awaiting::Completion,
    ensures
        since <= at < events.len(),
        drained(events[at]),
        forall|j: int| at < j < events.len() ==> !delivers(#[trigger] events[j]),
    decreases events.len(),
{
    let before = events.drop_last();
    if since == events.len() {
        assert(events.take(since) =~= events);
        0
    } else if run(start, before).awaiting == Awaiting::Completion {
        events.len() - 1
    } else {
        assert(before.take(since) =~= events.take(since));
        let at = lemma_left_draining(start, before, since);
        assert(events[at] == before[at]);
        assert forall|j: int| at < j < events.len() implies !delivers(#[trigger] events[j]) by {
            if j < before.len() {
                assert(events[j] == before[j]);
            }
        }
        at
    }
}

/// The task stops draining only after it has seen the completion stream
/// empty, and has handed no batch to the block producer since: in a history
/// that wakes an idle task and ends with the task no longer awaiting a
/// completion (so also when it ends with the task idle again, having
/// yielded), some poll of the completion stream found nothing and no batch
/// with transactions in it came after that poll.
pub proof fn law_yield_only_after_drain<T>(start: TaskState, events: Seq<Event<T>>) -> (at: int)
    requires
        start.awaiting == Awaiting::Wake,
        events.len() > 0,
        events[0] == Event::<T>::Woken,
        run(start, events).awaiting != Awaiting::Completion,
    ensures
        0 < at < events.len(),
        drained(events[at]),
        forall|j: int| at < j < events.len() ==> !delivers(#[trigger] events[j]),
{
    lemma_take_drop_last(events, 1);
    assert(run(start, events.take(0)) == start);
    lemma_left_draining(start, events, 1)
}

/// Batches are drained in turn: once a batch was handed to the block
/// producer, the task turns to the miner again, or yields, only after a
/// later poll of the completion stream found nothing. So no second batch is
/// asked for before the outcomes of the first were drained.
pub proof fn law_batch_is_drained_before_the_next<T>(
    start: TaskState,
    events: Seq<Event<T>>,
    batch_at: int,
) -> (at: int)
    requires
        0 <= batch_at < events.len(),
        delivers(events[batch_at]),
        run(start, events).awaiting != Awaiting::Completion,
    ensures
        batch_at < at < events.len(),
        drained(events[at]),
        forall|j: int| at < j < events.len() ==> !delivers(#[trigger] events[j]),
{
    lemma_take_drop_last(events, batch_at + 1);
    lemma_left_draining(start, events, batch_at + 1)
}

/// The answers to the polls of a history's beginning are the first of the
/// answers to the polls of the whole history.
proof fn lemma_polls_prefix<T>(events: Seq<Event<T>>, n: int)
    requires
        0 <= n <= events.len(),
    ensures
        polls(events.take(n)).len() <= polls(events).len(),
        polls(events.take(n)) == polls(events).take(polls(events.take(n)).len() as int),
    decreases events.len(),
{
    if n == events.len() {
        assert(events.take(n) =~= events);
        assert(polls(events).take(polls(events).len() as int) =~= polls(events));
    } else {
        let before = events.drop_last();
        lemma_polls_prefix(before, n);
        assert(before.take(n) =~= events.take(n));
        let short = polls(before.take(n)).len() as int;
        assert(polls(events).take(short) =~= polls(before).take(short));
    }
}

/// Where the first answers are the results in `buffered`, the outcomes
/// delivered begin with `buffered`.
proof fn lemma_delivered_prefix(
    answers: Seq<Option<Result<MiningOutcome, MiningFailure>>>,
    buffered: Seq<Result<MiningOutcome, MiningFailure>>,
)
    requires
        answers.len() >= buffered.len(),
        forall|k: int| 0 <= k < buffered.len() ==> answers[k] == Some(buffered[k]),
    ensures
        buffered.len() <= delivered(answers).len() <= answers.len(),
        delivered(answers).take(buffered.len() as int) == buffered,
    decreases answers.len(),
{
    if answers.len() == 0 {
        assert(delivered(answers).take(0) =~= buffered);
    } else if answers.len() == buffered.len() {
        lemma_delivered_prefix(answers.drop_last(), buffered.drop_last());
        let n = buffered.len() as int;
        assert(delivered(answers) == delivered(answers.drop_last()).push(buffered.last()));
        assert(delivered(answers).take(n) =~= delivered(answers.drop_last()).take(n - 1).push(
            buffered.last(),
        ));
        assert(buffered.drop_last().push(buffered.last()) =~= buffered);
    } else {
        lemma_delivered_prefix(answers.drop_last(), buffered);
        let n = buffered.len() as int;
        assert(delivered(answers).take(n) =~= delivered(answers.drop_last()).take(n));
    }
}

/// Gas and steps of two sequences of results, one after the other.
proof fn lemma_used_concat(
    first: Seq<Result<MiningOutcome, MiningFailure>>,
    second: Seq<Result<MiningOutcome, MiningFailure>>,
)
    ensures
        gas_used(first + second) == gas_used(first) + gas_used(second),
        steps_used(first + second) == steps_used(first) + steps_used(second),
    decreases second.len(),
{
    if second.len() == 0 {
        assert(first + second =~= first);
    } else {
        lemma_used_concat(first, second.drop_last());
        assert((first + second).drop_last() =~= first + second.drop_last());
    }
}

/// Draining is exhaustive. Let the completion stream hold the results
/// `buffered` when a turn begins, so that it answers the polls of the turn
/// with them, in their order, before anything else. Then in every history
/// that wakes an idle task and ends with the task idle again, however many
/// more blocks complete on the way, the stream was polled more often than
/// it had results buffered, the first outcomes handed to the task are
/// `buffered`, and the counters hold them along with all that came later.
pub proof fn law_turn_consumes_buffered_outcomes<T>(
    start: TaskState,
    events: Seq<Event<T>>,
    buffered: Seq<Result<MiningOutcome, MiningFailure>>,
)
    requires
        start.awaiting == Awaiting::Wake,
        start.totals.bounded(),
        events.len() > 0,
        events[0] == Event::<T>::Woken,
        run(start, events).awaiting == Awaiting::Wake,
        forall|k: int|
            0 <= k < buffered.len() && k < polls(events).len() ==> polls(events)[k] == Some(
                buffered[k],
            ),
    ensures
        polls(events).len() > buffered.len(),
        outcomes(events).len() >= buffered.len(),
        outcomes(events).take(buffered.len() as int) == buffered,
        run(start, events).totals.l1_gas == saturate(
            start.totals.l1_gas + gas_used(buffered) + gas_used(
                outcomes(events).skip(buffered.len() as int),
            ),
        ),
        run(start, events).totals.cairo_steps == saturate(
            start.totals.cairo_steps + steps_used(buffered) + steps_used(
                outcomes(events).skip(buffered.len() as int),
            ),
        ),
{
    let at = law_yield_only_after_drain(start, events);
    lemma_polls_prefix(events, at + 1);
    lemma_take_drop_last(events, at + 1);
    let seen = polls(events.take(at)).len() as int;
    assert(polls(events.take(at + 1)) == polls(events.take(at)).push(None));
    assert(polls(events)[seen] == polls(events.take(at + 1))[seen]);
    assert(polls(events)[seen] is None);
    lemma_delivered_prefix(polls(events), buffered);
    let n = buffered.len() as int;
    let all = outcomes(events);
    assert(all =~= all.take(n) + all.skip(n));
    lemma_used_concat(buffered, all.skip(n));
    law_metrics_sum_mined_blocks(start, events);
}

} // verus!
