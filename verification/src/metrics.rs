//! Cumulative resource counters of the block-production task.

use vstd::prelude::*;
use crate::types::ExecutionStats;

verus! {

/// The value a counter shows when the exact total is `total`: the total
/// itself as long as it fits the counter, the counter's ceiling afterwards.
pub open spec fn saturate(total: nat) -> nat {
    if total > u64::MAX {
        u64::MAX as nat
    } else {
        total
    }
}

/// Mathematical value of the two counters.
pub struct Totals {
    pub l1_gas: nat,
    pub cairo_steps: nat,
}

impl Totals {
    /// Both counters at zero.
    pub open spec fn zero() -> Totals {
        Totals { l1_gas: 0, cairo_steps: 0 }
    }

    /// The counters after one more block with the given statistics.
    pub open spec fn record(self, stats: ExecutionStats) -> Totals {
        Totals {
            l1_gas: saturate(self.l1_gas + stats.l1_gas_used as nat),
            cairo_steps: saturate(self.cairo_steps + stats.cairo_steps_used as nat),
        }
    }

    /// No counter is above its ceiling.
    pub open spec fn bounded(self) -> bool {
        self.l1_gas <= u64::MAX && self.cairo_steps <= u64::MAX
    }
}

/// Gas and step totals over every block mined during the task's lifetime.
///
/// The counters never decrease. Each one stops at `u64::MAX` instead of
/// wrapping around.
#[derive(Clone, Copy, Debug, PartialEq, Eq)]
pub struct BlockProducerMetrics {
    l1_gas_processed_total: u64,
    cairo_steps_processed_total: u64,
}

impl View for BlockProducerMetrics {
    type V = Totals;

    closed spec fn view(&self) -> Totals {
        Totals {
            l1_gas: self.l1_gas_processed_total as nat,
            cairo_steps: self.cairo_steps_processed_total as nat,
        }
    }
}

impl BlockProducerMetrics {
    /// Fresh counters, both at zero.
    pub fn new() -> (metrics: Self)
        ensures
            metrics@ == Totals::zero(),
    {
        BlockProducerMetrics { l1_gas_processed_total: 0, cairo_steps_processed_total: 0 }
    }

    /// Adds the statistics of one mined block to the counters.
    pub fn record(&mut self, stats: ExecutionStats)
        ensures
            final(self)@ == old(self)@.record(stats),
            final(self)@.l1_gas >= old(self)@.l1_gas,
            final(self)@.cairo_steps >= old(self)@.cairo_steps,
    {
        self.l1_gas_processed_total = self.l1_gas_processed_total.saturating_add(stats.l1_gas_used);
        self.cairo_steps_processed_total = self.cairo_steps_processed_total.saturating_add(
            stats.cairo_steps_used,
        );
    }

    /// Cumulative L1 gas of all mined blocks.
    pub fn l1_gas_processed_total(&self) -> (total: u64)
        ensures
            total == self@.l1_gas,
    {
        self.l1_gas_processed_total
    }

    /// Cumulative VM steps of all mined blocks.
    pub fn cairo_steps_processed_total(&self) -> (total: u64)
        ensures
            total == self@.cairo_steps,
    {
        self.cairo_steps_processed_total
    }

    /// The counters always fit their machine width.
    pub proof fn lemma_bounded(&self)
        ensures
            self@.bounded(),
    {
    }
}

impl Default for BlockProducerMetrics {
    fn default() -> (metrics: Self)
        ensures
            metrics@ == Totals::zero(),
    {
        BlockProducerMetrics::new()
    }
}

} // verus!
