//! The values that flow between the pool, the scheduler and the block producer.

use vstd::prelude::*;

verus! {

/// Identifier of a transaction on the readiness channel.
///
/// It is a field element in its 32-byte big-endian form. The scheduler never
/// looks inside it: a handle only signals that a transaction became ready.
#[derive(Clone, Copy, Debug, PartialEq, Eq, Hash)]
pub struct TransactionHandle {
    pub bytes: [u8; 32],
}

/// Resources that the execution of one block consumed.
#[derive(Clone, Copy, Debug, PartialEq, Eq)]
pub struct ExecutionStats {
    pub l1_gas_used: u64,
    pub cairo_steps_used: u64,
}

/// What the block producer reports for a block it assembled.
#[derive(Clone, Copy, Debug, PartialEq, Eq)]
pub struct MiningOutcome {
    pub block_number: u64,
    pub stats: ExecutionStats,
}

/// What the block producer reports when assembling a block failed.
#[derive(Debug, PartialEq, Eq)]
pub struct MiningFailure {
    /// Description of what went wrong.
    pub error: String,
}

impl Clone for MiningFailure {
    fn clone(&self) -> (copy: Self)
        ensures
            copy == *self,
    {
        MiningFailure { error: self.error.clone() }
    }
}

} // verus!
