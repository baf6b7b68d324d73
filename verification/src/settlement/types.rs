//! Settlement domain enums: ledger direction and settlement status, and the
//! column names of the ledger CSV.

use vstd::prelude::*;

use crate::text::owned;

verus! {

/// Direction of a ledger entry.
#[derive(Debug, Clone, Copy, PartialEq, Eq, Structural)]
pub enum LedgerDirection {
    /// Money out (debit).
    Debit,
    /// Money in (credit).
    Credit,
}

/// Chinese name of each direction.
pub open spec fn ledger_direction_zh(d: LedgerDirection) -> Seq<char> {
    match d {
        LedgerDirection::Debit => "出账"@,
        LedgerDirection::Credit => "入账"@,
    }
}

impl LedgerDirection {
    /// Chinese name.
    pub fn as_zh(&self) -> (s: &'static str)
        ensures
            s@ == ledger_direction_zh(*self),
    {
        match self {
            LedgerDirection::Debit => "出账",
            LedgerDirection::Credit => "入账",
        }
    }
}

/// Outcome of a settlement.
#[derive(Debug, Clone, Copy, PartialEq, Eq, Structural)]
pub enum SettlementStatus {
    /// Settled.
    Success,
    /// Validation failed; settlement stopped.
    ValidationFailed,
    /// Fee calculation failed.
    FeeFailed,
    /// Position update failed.
    PositionFailed,
    /// Balance update failed.
    BalanceFailed,
    /// Ledger recording failed.
    LedgerFailed,
}

/// Chinese name of each status.
pub open spec fn settlement_status_zh(s: SettlementStatus) -> Seq<char> {
    match s {
        SettlementStatus::Success => "结算成功"@,
        SettlementStatus::ValidationFailed => "校验失败"@,
        SettlementStatus::FeeFailed => "手续费失败"@,
        SettlementStatus::PositionFailed => "持仓更新失败"@,
        SettlementStatus::BalanceFailed => "余额更新失败"@,
        SettlementStatus::LedgerFailed => "流水记录失败"@,
    }
}

impl SettlementStatus {
    /// Chinese name.
    pub fn as_zh(&self) -> (s: &'static str)
        ensures
            s@ == settlement_status_zh(*self),
    {
        match self {
            SettlementStatus::Success => "结算成功",
            SettlementStatus::ValidationFailed => "校验失败",
            SettlementStatus::FeeFailed => "手续费失败",
            SettlementStatus::PositionFailed => "持仓更新失败",
            SettlementStatus::BalanceFailed => "余额更新失败",
            SettlementStatus::LedgerFailed => "流水记录失败",
        }
    }

    /// Whether the settlement succeeded.
    pub fn is_success(&self) -> (r: bool)
        ensures
            r == (*self == SettlementStatus::Success),
    {
        match self {
            SettlementStatus::Success => true,
            _ => false,
        }
    }
}

/// Column names of the ledger CSV, in order.
pub open spec fn ledger_columns() -> Seq<Seq<char>> {
    seq![
        "ledger_id"@,
        "trade_id"@,
        "order_id"@,
        "account_id"@,
        "asset"@,
        "amount"@,
        "fee"@,
        "direction"@,
        "before_balance"@,
        "after_balance"@,
        "description"@,
        "timestamp"@,
    ]
}

/// The header row of the ledger CSV.
pub fn ledger_csv_header() -> (r: [String; 12])
    ensures
        forall|i: int| 0 <= i < 12 ==> (#[trigger] r@[i])@ == ledger_columns()[i],
{
    [
        owned("ledger_id"),
        owned("trade_id"),
        owned("order_id"),
        owned("account_id"),
        owned("asset"),
        owned("amount"),
        owned("fee"),
        owned("direction"),
        owned("before_balance"),
        owned("after_balance"),
        owned("description"),
        owned("timestamp"),
    ]
}

} // verus!
