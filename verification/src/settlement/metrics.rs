//! The integer counters of the settlement metrics: fills seen, settlements
//! that succeeded or failed, validation failures, ledger entries written and
//! settlement time spent.

use vstd::prelude::*;

verus! {

/// Counters kept across settlements. Each counter wraps around at `u64`'s
/// limit, as an atomic `fetch_add` does.
#[derive(Debug, Clone, Copy, PartialEq, Eq, Structural)]
pub struct SettlementCounters {
    /// Fill events received.
    pub total_fills: u64,
    /// Settlements that completed.
    pub successful_settlements: u64,
    /// Settlements that failed.
    pub failed_settlements: u64,
    /// Failed settlements that failed validation.
    pub validation_failures: u64,
    /// Ledger entries written by successful settlements.
    pub total_ledger_entries: u64,
    /// Microseconds spent in successful settlements.
    pub total_elapsed_us: u64,
}

/// `a + b` wrapped to 64 bits.
pub open spec fn wrapped(a: u64, b: u64) -> u64 {
    ((a as int + b as int) % 0x1_0000_0000_0000_0000) as u64
}

impl SettlementCounters {
    /// Every validation failure is also a failed settlement.
    pub open spec fn well_formed(&self) -> bool {
        self.validation_failures <= self.failed_settlements
    }

    /// All counters at zero.
    pub fn new() -> (r: Self)
        ensures
            r.total_fills == 0,
            r.successful_settlements == 0,
            r.failed_settlements == 0,
            r.validation_failures == 0,
            r.total_ledger_entries == 0,
            r.total_elapsed_us == 0,
            r.well_formed(),
    {
        SettlementCounters {
            total_fills: 0,
            successful_settlements: 0,
            failed_settlements: 0,
            validation_failures: 0,
            total_ledger_entries: 0,
            total_elapsed_us: 0,
        }
    }

    /// Counts one fill event received.
    pub fn record_fill(&mut self)
        ensures
            *final(self) == (SettlementCounters {
                total_fills: wrapped(old(self).total_fills, 1),
                ..*old(self)
            }),
    {
        self.total_fills = self.total_fills.wrapping_add(1);
    }

    /// Counts one completed settlement with the ledger entries it wrote and
    /// the time it took.
    pub fn record_success(&mut self, ledger_count: u64, elapsed_us: u64)
        ensures
            *final(self) == (SettlementCounters {
                successful_settlements: wrapped(old(self).successful_settlements, 1),
                total_ledger_entries: wrapped(old(self).total_ledger_entries, ledger_count),
                total_elapsed_us: wrapped(old(self).total_elapsed_us, elapsed_us),
                ..*old(self)
            }),
    {
        self.successful_settlements = self.successful_settlements.wrapping_add(1);
        self.total_ledger_entries = self.total_ledger_entries.wrapping_add(ledger_count);
        self.total_elapsed_us = self.total_elapsed_us.wrapping_add(elapsed_us);
    }

    /// Counts one failed settlement, and one validation failure when that is
    /// why it failed.
    pub fn record_failure(&mut self, is_validation: bool)
        ensures
            *final(self) == (SettlementCounters {
                failed_settlements: wrapped(old(self).failed_settlements, 1),
                validation_failures: if is_validation {
                    wrapped(old(self).validation_failures, 1)
                } else {
                    old(self).validation_failures
                },
                ..*old(self)
            }),
    {
        self.failed_settlements = self.failed_settlements.wrapping_add(1);
        if is_validation {
            self.validation_failures = self.validation_failures.wrapping_add(1);
        }
    }

    /// Settlements that have finished either way.
    pub fn settled(&self) -> (r: u64)
        requires
            self.successful_settlements + self.failed_settlements <= u64::MAX,
        ensures
            r == self.successful_settlements + self.failed_settlements,
    {
        self.successful_settlements + self.failed_settlements
    }
}

/// Recording a fill, a success or a failure keeps every validation failure
/// counted among the failed settlements, as long as the failure counter has
/// not reached `u64`'s limit.
pub proof fn lemma_counters_stay_well_formed(
    before: SettlementCounters,
    after_fill: SettlementCounters,
    after_success: SettlementCounters,
    after_failure: SettlementCounters,
    ledger_count: u64,
    elapsed_us: u64,
    is_validation: bool,
)
    requires
        before.well_formed(),
        before.failed_settlements < u64::MAX,
        after_fill == (SettlementCounters { total_fills: wrapped(before.total_fills, 1), ..before }),
        after_success == (SettlementCounters {
            successful_settlements: wrapped(before.successful_settlements, 1),
            total_ledger_entries: wrapped(before.total_ledger_entries, ledger_count),
            total_elapsed_us: wrapped(before.total_elapsed_us, elapsed_us),
            ..before
        }),
        after_failure == (SettlementCounters {
            failed_settlements: wrapped(before.failed_settlements, 1),
            validation_failures: if is_validation {
                wrapped(before.validation_failures, 1)
            } else {
                before.validation_failures
            },
            ..before
        }),
    ensures
        after_fill.well_formed(),
        after_success.well_formed(),
        after_failure.well_formed(),
        after_failure.failed_settlements == before.failed_settlements + 1,
{
}

} // verus!
