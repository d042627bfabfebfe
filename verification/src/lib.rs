//! Block-production scheduling for a sequencer node.
//!
//! The scheduler drains ready transactions from the pending-transaction
//! pool, hands them to the block producer and records what the mined blocks
//! consumed. It never blocks and never loops on its own: the decisions of
//! the production loop are a state machine, [`task::BlockProductionTask`],
//! which the node's runtime serves. The runtime obtains what the task is
//! awaiting (an outcome of the block producer, the pool's ready
//! transactions), hands it over as an event and carries out the effect that
//! the task answers with; the task polls the pool's notification channel
//! itself, through its [`miner::TransactionMiner`].
//!
//! - [`types`]: the values that flow between pool, scheduler and producer.
//! - [`metrics`]: the cumulative gas and step counters.
//! - [`channel`]: the notification channel as the miner uses it.
//! - [`miner`]: the readiness state and the decision whether to ask the pool.
//! - [`task`]: the task's state machine.
//! - [`trace`]: histories of events and what they lead to.
//! - [`laws`]: what is proved of every history.

pub mod channel;
pub mod laws;
pub mod metrics;
pub mod miner;
pub mod task;
pub mod trace;
pub mod types;
