//! Histories of the task: what a sequence of events leads to.

use vstd::prelude::*;
use crate::task::{Effect, Event, TaskState};
use crate::types::{MiningFailure, MiningOutcome};

verus! {

/// The state that `events`, taken in one after the other, lead to from
/// `start`.
pub open spec fn run<T>(start: TaskState, events: Seq<Event<T>>) -> TaskState
    decreases events.len(),
{
    if events.len() == 0 {
        start
    } else {
        run(start, events.drop_last()).next(events.last())
    }
}

/// The effects that the events of a history ask for, one per event and in
/// the order of the events.
pub open spec fn effects<T>(start: TaskState, events: Seq<Event<T>>) -> Seq<Effect<T>> {
    Seq::new(events.len(), |i: int| run(start, events.take(i)).effect(events[i]))
}

/// The event reports a notification.
pub open spec fn announces<T>(event: Event<T>) -> bool {
    event matches Event::Notification(Some(_))
}

/// The event hands over a batch that holds transactions.
pub open spec fn delivers<T>(event: Event<T>) -> bool {
    event matches Event::Batch(batch) && batch@.len() > 0
}

/// The event reports that the completion stream had nothing at hand.
pub open spec fn drained<T>(event: Event<T>) -> bool {
    event == Event::<T>::Completion(None)
}

/// The answers of the completion stream to the polls of a history, in order.
pub open spec fn polls<T>(events: Seq<Event<T>>) -> Seq<Option<Result<MiningOutcome, MiningFailure>>>
    decreases events.len(),
{
    if events.len() == 0 {
        Seq::empty()
    } else {
        match events.last() {
            Event::Completion(answer) => polls(events.drop_last()).push(answer),
            _ => polls(events.drop_last()),
        }
    }
}

/// The block outcomes among the answers of the completion stream, in order.
pub open spec fn delivered(answers: Seq<Option<Result<MiningOutcome, MiningFailure>>>) -> Seq<
    Result<MiningOutcome, MiningFailure>,
>
    decreases answers.len(),
{
    if answers.len() == 0 {
        Seq::empty()
    } else {
        match answers.last() {
            Some(outcome) => delivered(answers.drop_last()).push(outcome),
            None => delivered(answers.drop_last()),
        }
    }
}

/// The block outcomes that a history hands to the task, in order.
pub open spec fn outcomes<T>(events: Seq<Event<T>>) -> Seq<Result<MiningOutcome, MiningFailure>> {
    delivered(polls(events))
}

/// L1 gas of the blocks that were mined among `results`. A failure counts
/// for nothing.
pub open spec fn gas_used(results: Seq<Result<MiningOutcome, MiningFailure>>) -> nat
    decreases results.len(),
{
    if results.len() == 0 {
        0
    } else {
        match results.last() {
            Ok(outcome) => gas_used(results.drop_last()) + outcome.stats.l1_gas_used as nat,
            Err(_) => gas_used(results.drop_last()),
        }
    }
}

/// VM steps of the blocks that were mined among `results`. A failure counts
/// for nothing.
pub open spec fn steps_used(results: Seq<Result<MiningOutcome, MiningFailure>>) -> nat
    decreases results.len(),
{
    if results.len() == 0 {
        0
    } else {
        match results.last() {
            Ok(outcome) => steps_used(results.drop_last()) + outcome.stats.cairo_steps_used as nat,
            Err(_) => steps_used(results.drop_last()),
        }
    }
}

/// The block outcomes that a sequence of effects reports for logging, in
/// the order reported.
pub open spec fn reported<T>(effects: Seq<Effect<T>>) -> Seq<Result<MiningOutcome, MiningFailure>>
    decreases effects.len(),
{
    if effects.len() == 0 {
        Seq::empty()
    } else {
        match effects.last() {
            Effect::Mined(outcome) => reported(effects.drop_last()).push(Ok(outcome)),
            Effect::Failed(failure) => reported(effects.drop_last()).push(Err(failure)),
            _ => reported(effects.drop_last()),
        }
    }
}

/// The transactions that a history takes from the pool, in the order taken.
pub open spec fn taken<T>(events: Seq<Event<T>>) -> Seq<T>
    decreases events.len(),
{
    if events.len() == 0 {
        Seq::empty()
    } else {
        match events.last() {
            Event::Batch(batch) => taken(events.drop_last()) + batch@,
            _ => taken(events.drop_last()),
        }
    }
}

/// The transactions that a sequence of effects hands to the block producer,
/// in the order handed over.
pub open spec fn enqueued<T>(effects: Seq<Effect<T>>) -> Seq<T>
    decreases effects.len(),
{
    if effects.len() == 0 {
        Seq::empty()
    } else {
        match effects.last() {
            Effect::Enqueue(batch) => enqueued(effects.drop_last()) + batch@,
            _ => enqueued(effects.drop_last()),
        }
    }
}

} // verus!
