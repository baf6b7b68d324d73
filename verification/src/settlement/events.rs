//! The kinds of event the settlement pipeline publishes, with their English
//! and Chinese names.

use vstd::prelude::*;

verus! {

/// The stage of settlement an event reports.
#[derive(Debug, Clone, Copy, PartialEq, Eq, Structural)]
pub enum SettlementEventKind {
    FillReceived,
    ValidationPassed,
    ValidationFailed,
    FeeCalculated,
    PositionUpdated,
    BalanceUpdated,
    PnLUpdated,
    LedgerRecorded,
    SettlementCompleted,
    SettlementFailed,
}

/// English name of an event kind (the serialised tag).
pub open spec fn kind_name(k: SettlementEventKind) -> Seq<char> {
    match k {
        SettlementEventKind::FillReceived => "FillReceived"@,
        SettlementEventKind::ValidationPassed => "ValidationPassed"@,
        SettlementEventKind::ValidationFailed => "ValidationFailed"@,
        SettlementEventKind::FeeCalculated => "FeeCalculated"@,
        SettlementEventKind::PositionUpdated => "PositionUpdated"@,
        SettlementEventKind::BalanceUpdated => "BalanceUpdated"@,
        SettlementEventKind::PnLUpdated => "PnLUpdated"@,
        SettlementEventKind::LedgerRecorded => "LedgerRecorded"@,
        SettlementEventKind::SettlementCompleted => "SettlementCompleted"@,
        SettlementEventKind::SettlementFailed => "SettlementFailed"@,
    }
}

/// Chinese name of an event kind.
pub open spec fn kind_name_zh(k: SettlementEventKind) -> Seq<char> {
    match k {
        SettlementEventKind::FillReceived => "接收成交"@,
        SettlementEventKind::ValidationPassed => "校验通过"@,
        SettlementEventKind::ValidationFailed => "校验失败"@,
        SettlementEventKind::FeeCalculated => "手续费已计算"@,
        SettlementEventKind::PositionUpdated => "持仓已更新"@,
        SettlementEventKind::BalanceUpdated => "余额已更新"@,
        SettlementEventKind::PnLUpdated => "盈亏已更新"@,
        SettlementEventKind::LedgerRecorded => "流水已记录"@,
        SettlementEventKind::SettlementCompleted => "结算完成"@,
        SettlementEventKind::SettlementFailed => "结算失败"@,
    }
}

impl SettlementEventKind {
    /// English name of the event.
    pub fn event_name(&self) -> (r: &'static str)
        ensures
            r@ == kind_name(*self),
    {
        match self {
            SettlementEventKind::FillReceived => "FillReceived",
            SettlementEventKind::ValidationPassed => "ValidationPassed",
            SettlementEventKind::ValidationFailed => "ValidationFailed",
            SettlementEventKind::FeeCalculated => "FeeCalculated",
            SettlementEventKind::PositionUpdated => "PositionUpdated",
            SettlementEventKind::BalanceUpdated => "BalanceUpdated",
            SettlementEventKind::PnLUpdated => "PnLUpdated",
            SettlementEventKind::LedgerRecorded => "LedgerRecorded",
            SettlementEventKind::SettlementCompleted => "SettlementCompleted",
            SettlementEventKind::SettlementFailed => "SettlementFailed",
        }
    }

    /// Chinese name of the event.
    pub fn event_name_zh(&self) -> (r: &'static str)
        ensures
            r@ == kind_name_zh(*self),
    {
        match self {
            SettlementEventKind::FillReceived => "接收成交",
            SettlementEventKind::ValidationPassed => "校验通过",
            SettlementEventKind::ValidationFailed => "校验失败",
            SettlementEventKind::FeeCalculated => "手续费已计算",
            SettlementEventKind::PositionUpdated => "持仓已更新",
            SettlementEventKind::BalanceUpdated => "余额已更新",
            SettlementEventKind::PnLUpdated => "盈亏已更新",
            SettlementEventKind::LedgerRecorded => "流水已记录",
            SettlementEventKind::SettlementCompleted => "结算完成",
            SettlementEventKind::SettlementFailed => "结算失败",
        }
    }
}

/// Distinct kinds of event carry distinct Chinese names, and distinct
/// English names.
pub proof fn lemma_event_names_unique(a: SettlementEventKind, b: SettlementEventKind)
    requires
        a != b,
    ensures
        kind_name_zh(a) != kind_name_zh(b),
        kind_name(a) != kind_name(b),
{
    reveal_strlit("FillReceived");
    reveal_strlit("ValidationPassed");
    reveal_strlit("ValidationFailed");
    reveal_strlit("FeeCalculated");
    reveal_strlit("PositionUpdated");
    reveal_strlit("BalanceUpdated");
    reveal_strlit("PnLUpdated");
    reveal_strlit("LedgerRecorded");
    reveal_strlit("SettlementCompleted");
    reveal_strlit("SettlementFailed");
    reveal_strlit("接收成交");
    reveal_strlit("校验通过");
    reveal_strlit("校验失败");
    reveal_strlit("手续费已计算");
    reveal_strlit("持仓已更新");
    reveal_strlit("余额已更新");
    reveal_strlit("盈亏已更新");
    reveal_strlit("流水已记录");
    reveal_strlit("结算完成");
    reveal_strlit("结算失败");
    assert(kind_name_zh(a)[0] != kind_name_zh(b)[0] || kind_name_zh(a)[3] != kind_name_zh(b)[3]);
    assert(kind_name(a).len() != kind_name(b).len() || kind_name(a)[0] != kind_name(b)[0]
        || kind_name(a)[10] != kind_name(b)[10]);
}

} // verus!
