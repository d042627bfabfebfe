//! The block-production task as a state machine.
//!
//! The runtime that hosts the task obtains whatever the task is
//! [`Awaiting`], hands it over as an [`Event`] and carries out the
//! [`Effect`] that comes back. The task itself never waits: when neither the
//! block producer nor the miner has anything for it, it awaits its next
//! wake-up, and the runtime yields.

use vstd::prelude::*;
use std::sync::Arc;
use std::task::Context;
use crate::metrics::{BlockProducerMetrics, Totals};
use crate::miner::{ReadinessState, TransactionMiner};
use crate::types::{MiningFailure, MiningOutcome, TransactionHandle};

verus! {

/// The input the task needs next.
#[derive(Clone, Copy, Debug, PartialEq, Eq, Structural)]
pub enum Awaiting {
    /// Nothing more to do this turn: yield until the scheduler wakes the task.
    Wake,
    /// One non-blocking poll of the block producer's completion stream.
    Completion,
    /// One non-blocking poll of the pool's notification channel, which
    /// [`BlockProductionTask::listen`] makes.
    Notification,
    /// The pool's ready transactions, all of them, taken in one call.
    Batch,
}

/// What the runtime obtained for the task.
#[derive(Debug, PartialEq, Eq)]
pub enum Event<T> {
    /// The scheduler polled the task.
    Woken,
    /// The completion stream was polled: the next block outcome, or `None`
    /// when the stream had nothing at hand.
    Completion(Option<Result<MiningOutcome, MiningFailure>>),
    /// The notification channel was polled: the next handle, or `None` when
    /// the channel had nothing at hand or is closed.
    Notification(Option<TransactionHandle>),
    /// The pool's ready transactions were taken, in the pool's order.
    Batch(Vec<T>),
}

/// What the runtime has to carry out after an event.
#[derive(Debug, PartialEq, Eq)]
pub enum Effect<T> {
    /// Nothing.
    Nothing,
    /// Log the block that was mined. Its statistics are already counted.
    Mined(MiningOutcome),
    /// Log the failure. Nothing is retried and the task goes on.
    Failed(MiningFailure),
    /// Hand the batch to the block producer, in this order, in one call.
    Enqueue(Vec<T>),
}

/// Mathematical state of the task.
pub struct TaskState {
    /// The input the task needs next.
    pub awaiting: Awaiting,
    /// What the miner knows of the pool.
    pub readiness: ReadinessState,
    /// The counters.
    pub totals: Totals,
}

impl TaskState {
    /// The state of a task that was just built around a miner.
    pub open spec fn initial(readiness: ReadinessState) -> TaskState {
        TaskState { awaiting: Awaiting::Wake, readiness, totals: Totals::zero() }
    }

    /// The state after the scheduler polled the task: an idle task starts
    /// draining the completion stream.
    pub open spec fn woken(self) -> TaskState {
        if self.awaiting == Awaiting::Wake {
            TaskState { awaiting: Awaiting::Completion, ..self }
        } else {
            self
        }
    }

    /// The state after one poll of the completion stream. A mined block is
    /// counted, a failure is not, and the task keeps draining; once the
    /// stream has nothing at hand, a draining task turns to the miner.
    pub open spec fn completed(
        self,
        answer: Option<Result<MiningOutcome, MiningFailure>>,
    ) -> TaskState {
        match answer {
            Some(Ok(outcome)) => TaskState { totals: self.totals.record(outcome.stats), ..self },
            Some(Err(_)) => self,
            None => if self.awaiting == Awaiting::Completion {
                TaskState { awaiting: Awaiting::Notification, ..self }
            } else {
                self
            },
        }
    }

    /// The state after one poll of the notification channel. A notification
    /// marks transactions as pending and the task keeps listening; once the
    /// channel has nothing at hand, a listening task asks the pool, unless
    /// the pool is known to be empty: then the turn is over.
    pub open spec fn heard(self, notification: Option<TransactionHandle>) -> TaskState {
        match notification {
            Some(_) => TaskState { readiness: self.readiness.after_poll(notification), ..self },
            None => if self.awaiting == Awaiting::Notification {
                if self.readiness.wants_query() {
                    TaskState { awaiting: Awaiting::Batch, ..self }
                } else {
                    TaskState { awaiting: Awaiting::Wake, ..self }
                }
            } else {
                self
            },
        }
    }

    /// The state after the pool handed over `transactions` transactions.
    /// With a batch to enqueue the pool is known to be empty and the task
    /// drains the completion stream again; with nothing from the pool, the
    /// turn of a task that asked for a batch is over.
    pub open spec fn took(self, transactions: nat) -> TaskState {
        if transactions > 0 {
            TaskState {
                awaiting: Awaiting::Completion,
                readiness: self.readiness.after_take(transactions),
                ..self
            }
        } else if self.awaiting == Awaiting::Batch {
            TaskState { awaiting: Awaiting::Wake, ..self }
        } else {
            self
        }
    }

    /// The state after an event.
    ///
    /// An event that carries something (a block outcome, a notification, a
    /// batch with transactions) is taken in whatever the task is awaiting, so
    /// that nothing handed over is dropped. An event that carries nothing
    /// moves the task on only when it answers what the task is awaiting.
    pub open spec fn next<T>(self, event: Event<T>) -> TaskState {
        match event {
            Event::Woken => self.woken(),
            Event::Completion(answer) => self.completed(answer),
            Event::Notification(notification) => self.heard(notification),
            Event::Batch(batch) => self.took(batch@.len()),
        }
    }

    /// What an event asks the runtime to carry out. It depends on the event
    /// alone.
    pub open spec fn effect<T>(self, event: Event<T>) -> Effect<T> {
        match event {
            Event::Completion(Some(Ok(outcome))) => Effect::Mined(outcome),
            Event::Completion(Some(Err(failure))) => Effect::Failed(failure),
            Event::Batch(batch) => if batch@.len() > 0 {
                Effect::Enqueue(batch)
            } else {
                Effect::Nothing
            },
            _ => Effect::Nothing,
        }
    }
}

/// Drives block production: drains the block producer's outcomes into the
/// metrics, then feeds it the miner's next batch, until neither has anything
/// left for this turn.
///
/// The task keeps the pool handle and the shared handle to the block
/// producer for the runtime, which makes the calls on them.
#[must_use]
pub struct BlockProductionTask<P, B> {
    /// Creates new blocks.
    block_producer: Arc<B>,
    /// Selects the transactions for the next block.
    miner: TransactionMiner,
    /// Holds all pending transactions.
    pool: P,
    /// Counts what the mined blocks consumed.
    metrics: BlockProducerMetrics,
    /// The input the task needs next.
    awaiting: Awaiting,
}

impl<P, B> View for BlockProductionTask<P, B> {
    type V = TaskState;

    closed spec fn view(&self) -> TaskState {
        TaskState { awaiting: self.awaiting, readiness: self.miner@, totals: self.metrics@ }
    }
}

impl<P, B> BlockProductionTask<P, B> {
    /// The pool handle that the task was built with.
    pub closed spec fn pool_handle(&self) -> P {
        self.pool
    }

    /// The block producer handle that the task was built with.
    pub closed spec fn block_producer_handle(&self) -> Arc<B> {
        self.block_producer
    }

    /// A task on the given pool, miner and block producer, idle until first
    /// woken, with all counters at zero.
    pub fn new(pool: P, miner: TransactionMiner, block_producer: Arc<B>) -> (task: Self)
        ensures
            task@ == TaskState::initial(miner@),
            task.pool_handle() == pool,
            task.block_producer_handle() == block_producer,
    {
        BlockProductionTask {
            block_producer,
            miner,
            pool,
            metrics: BlockProducerMetrics::new(),
            awaiting: Awaiting::Wake,
        }
    }

    /// The pool to take the next batch from.
    pub fn pool(&self) -> (pool: &P)
        ensures
            *pool == self.pool_handle(),
    {
        &self.pool
    }

    /// The block producer to poll for outcomes and to enqueue batches into.
    pub fn block_producer(&self) -> (block_producer: &Arc<B>)
        ensures
            *block_producer == self.block_producer_handle(),
    {
        &self.block_producer
    }

    /// Polls the notification channel once, without blocking, and takes the
    /// answer in as the event [`Event::Notification`].
    pub fn listen(&mut self, cx: &mut Context<'_>) -> (heard: Option<TransactionHandle>)
        ensures
            final(self)@ == old(self)@.heard(heard),
            final(self).pool_handle() == old(self).pool_handle(),
            final(self).block_producer_handle() == old(self).block_producer_handle(),
    {
        let heard = self.miner.listen(cx);
        if heard.is_none() {
            self.channel_drained();
        }
        heard
    }

    /// The channel had nothing at hand: a listening task asks the pool, or
    /// ends its turn where the pool is known to be empty.
    fn channel_drained(&mut self)
        ensures
            final(self)@ == old(self)@.heard(None),
            final(self).pool_handle() == old(self).pool_handle(),
            final(self).block_producer_handle() == old(self).block_producer_handle(),
    {
        if self.awaiting == Awaiting::Notification {
            if self.miner.should_query() {
                self.awaiting = Awaiting::Batch;
            } else {
                self.awaiting = Awaiting::Wake;
            }
        }
    }

    /// Takes one event in and says what to carry out. What to obtain next
    /// is then read from [`BlockProductionTask::awaiting`].
    pub fn step<T>(&mut self, event: Event<T>) -> (effect: Effect<T>)
        ensures
            final(self)@ == old(self)@.next(event),
            effect == old(self)@.effect(event),
            final(self).pool_handle() == old(self).pool_handle(),
            final(self).block_producer_handle() == old(self).block_producer_handle(),
    {
        match event {
            Event::Woken => {
                if self.awaiting == Awaiting::Wake {
                    self.awaiting = Awaiting::Completion;
                }
                Effect::Nothing
            },
            Event::Completion(Some(Ok(outcome))) => {
                self.metrics.record(outcome.stats);
                Effect::Mined(outcome)
            },
            Event::Completion(Some(Err(failure))) => Effect::Failed(failure),
            Event::Completion(None) => {
                if self.awaiting == Awaiting::Completion {
                    self.awaiting = Awaiting::Notification;
                }
                Effect::Nothing
            },
            Event::Notification(Some(handle)) => {
                self.miner.notify(handle);
                Effect::Nothing
            },
            Event::Notification(None) => {
                self.channel_drained();
                Effect::Nothing
            },
            Event::Batch(batch) => {
                match self.miner.accept(batch) {
                    Some(ready) => {
                        self.awaiting = Awaiting::Completion;
                        Effect::Enqueue(ready)
                    },
                    None => {
                        if self.awaiting == Awaiting::Batch {
                            self.awaiting = Awaiting::Wake;
                        }
                        Effect::Nothing
                    },
                }
            },
        }
    }

    /// The counters of a task always fit their machine width.
    pub proof fn lemma_totals_bounded(&self)
        ensures
            self@.totals.bounded(),
    {
        self.metrics.lemma_bounded();
    }

    /// The input the task needs next.
    pub fn awaiting(&self) -> (awaiting: Awaiting)
        ensures
            awaiting == self@.awaiting,
    {
        self.awaiting
    }

    /// The miner's readiness state.
    pub fn readiness(&self) -> (state: ReadinessState)
        ensures
            state == self@.readiness,
    {
        self.miner.state()
    }

    /// The counters as they stand.
    pub fn metrics(&self) -> (metrics: BlockProducerMetrics)
        ensures
            metrics@ == self@.totals,
    {
        self.metrics
    }
}

} // verus!
