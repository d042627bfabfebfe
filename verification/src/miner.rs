//! The miner: turns readiness notifications and the pool's "take everything
//! that is ready" operation into one decision per scheduling turn.

use vstd::prelude::*;
use futures::channel::mpsc::Receiver;
use futures::stream::Fuse;
use std::task::Context;
use crate::channel;
use crate::types::TransactionHandle;

verus! {

/// What the miner knows about ready transactions in the pool.
#[derive(Clone, Copy, Debug, PartialEq, Eq, Structural)]
pub enum ReadinessState {
    /// The pool has never been asked.
    Unknown,
    /// A notification arrived and the pool was not emptied since.
    Pending,
    /// The pool was emptied and no notification arrived since.
    Empty,
}

impl ReadinessState {
    /// Whether the pool is worth asking: always, unless it is known to be
    /// empty.
    pub open spec fn wants_query(self) -> bool {
        self != ReadinessState::Empty
    }

    /// The state after one poll of the notification channel: pending once
    /// a notification came, unchanged otherwise.
    pub open spec fn after_poll(self, heard: Option<TransactionHandle>) -> ReadinessState {
        if heard is Some {
            ReadinessState::Pending
        } else {
            self
        }
    }

    /// The state after the pool handed over `taken` transactions: known to
    /// be empty after a batch, unchanged after nothing.
    pub open spec fn after_take(self, taken: nat) -> ReadinessState {
        if taken > 0 {
            ReadinessState::Empty
        } else {
            self
        }
    }
}

/// Selects the transactions for the next block.
///
/// The miner owns the receiving end of the pool's notification channel. The
/// readiness state is all it remembers from one turn to the next. The pool
/// stays with the caller, which asks it when the miner says so and hands the
/// miner what the pool gave.
#[derive(Debug)]
pub struct TransactionMiner {
    /// Whether transactions are pending, as far as known.
    state: ReadinessState,
    /// Receives the handles of transactions that became ready in the pool.
    rx: Fuse<Receiver<TransactionHandle>>,
}

impl View for TransactionMiner {
    type V = ReadinessState;

    closed spec fn view(&self) -> ReadinessState {
        self.state
    }
}

impl TransactionMiner {
    /// A miner on the given channel that has never asked the pool.
    pub fn new(rx: Receiver<TransactionHandle>) -> (miner: Self)
        ensures
            miner@ == ReadinessState::Unknown,
            miner.channel() == channel::fused(rx),
    {
        TransactionMiner { state: ReadinessState::Unknown, rx: channel::fuse(rx) }
    }

    /// The current readiness state.
    pub fn state(&self) -> (state: ReadinessState)
        ensures
            state == self@,
    {
        self.state
    }

    /// Polls the notification channel once, without blocking, and takes
    /// note of the notification if one came. A closed channel is no error: it
    /// answers like an empty one from then on.
    pub fn listen(&mut self, cx: &mut Context<'_>) -> (heard: Option<TransactionHandle>)
        ensures
            final(self)@ == old(self)@.after_poll(heard),
    {
        let heard = channel::poll_next(&mut self.rx, cx);
        if let Some(handle) = heard {
            self.notify(handle);
        }
        heard
    }

    /// Takes note of one notification drained from the channel. Any number
    /// of them leaves the same mark: transactions are pending.
    pub fn notify(&mut self, handle: TransactionHandle)
        ensures
            final(self)@ == ReadinessState::Pending,
            final(self).channel() == old(self).channel(),
    {
        let _ = handle;
        self.state = ReadinessState::Pending;
    }

    /// Whether to ask the pool now that the channel is drained. The pool is
    /// left alone exactly when it is known to be empty.
    pub fn should_query(&self) -> (ask: bool)
        ensures
            ask == self@.wants_query(),
    {
        match self.state {
            ReadinessState::Empty => false,
            _ => true,
        }
    }

    /// Receives what the pool handed over. A batch with transactions in it
    /// is passed on untouched and the pool is then known to be empty;
    /// an empty one is "not ready" and changes nothing.
    pub fn accept<T>(&mut self, batch: Vec<T>) -> (ready: Option<Vec<T>>)
        ensures
            final(self)@ == old(self)@.after_take(batch@.len()),
            final(self).channel() == old(self).channel(),
            batch@.len() > 0 ==> ready == Some(batch),
            batch@.len() == 0 ==> ready is None,
    {
        if batch.len() == 0 {
            None
        } else {
            self.state = ReadinessState::Empty;
            Some(batch)
        }
    }

    /// The notification channel that the miner owns and listens on.
    pub closed spec fn channel(&self) -> Fuse<Receiver<TransactionHandle>> {
        self.rx
    }
}

} // verus!
