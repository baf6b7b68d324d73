//! Risk rules: the result of a rule check, the built-in rules with their
//! names and descriptions, and the checks that read only counts.

use vstd::prelude::*;

use crate::text::{decimal, decimal_text, owned};

verus! {

/// Result of one rule check.
#[derive(Debug, Clone, PartialEq)]
pub enum RuleResult {
    /// The check passed.
    Pass,
    /// Warning (does not block, but is recorded), with its reason.
    Warn(String),
    /// Rejection (blocks the trade), with its reason.
    Reject(String),
}

impl RuleResult {
    /// Whether this is a rejection.
    pub fn is_reject(&self) -> (r: bool)
        ensures
            r == (*self is Reject),
    {
        match self {
            RuleResult::Reject(_) => true,
            _ => false,
        }
    }

    /// Whether this is a warning.
    pub fn is_warn(&self) -> (r: bool)
        ensures
            r == (*self is Warn),
    {
        match self {
            RuleResult::Warn(_) => true,
            _ => false,
        }
    }

    /// The reason of a warning or rejection; `None` for a pass.
    pub fn reason(&self) -> (r: Option<&str>)
        ensures
            match *self {
                RuleResult::Pass => r is None,
                RuleResult::Warn(m) => r is Some && r->0@ == m@,
                RuleResult::Reject(m) => r is Some && r->0@ == m@,
            },
    {
        match self {
            RuleResult::Reject(r) => Some(r.as_str()),
            RuleResult::Warn(r) => Some(r.as_str()),
            RuleResult::Pass => None,
        }
    }
}

/// Text `prefix + a + middle + b + suffix` with `a` and `b` in decimal.
pub open spec fn two_count_text(
    prefix: Seq<char>,
    a: nat,
    middle: Seq<char>,
    b: nat,
    suffix: Seq<char>,
) -> Seq<char> {
    prefix + decimal(a) + middle + decimal(b) + suffix
}

fn two_count_message(prefix: &str, a: usize, middle: &str, b: usize, suffix: &str) -> (s: String)
    ensures
        s@ == two_count_text(prefix@, a as nat, middle@, b as nat, suffix@),
{
    let mut s = owned(prefix);
    s.append(decimal_text(a as u128).as_str());
    s.append(middle);
    s.append(decimal_text(b as u128).as_str());
    s.append(suffix);
    s
}

/// Maximum number of open positions.
pub struct MaxPositionCountRule;

/// Size limit of a single position.
pub struct PositionSizeLimitRule;

/// Maximum number of pending orders.
pub struct MaxOrderCountRule;

/// Limit of the capital locked by one trade.
pub struct MaxSingleCapitalRule;

/// Maximum daily loss.
pub struct DailyLossRule;

/// Limit of consecutive losses.
pub struct ConsecutiveLossRule;

/// Maximum drawdown.
pub struct DrawdownRule;

/// Market / category / side exposure limits.
pub struct ExposureLimitRule;

/// Minimum market liquidity.
pub struct LiquidityRule;

/// Maximum slippage (spread).
pub struct SlippageRule;

/// Maximum volatility.
pub struct VolatilityRule;

impl MaxPositionCountRule {
    /// Rule name.
    pub fn name(&self) -> (s: &'static str)
        ensures
            s@ == "最大持仓数量"@,
    {
        "最大持仓数量"
    }

    /// Rule description.
    pub fn description(&self) -> (s: &'static str)
        ensures
            s@ == "当前持仓数不得超过配置上限"@,
    {
        "当前持仓数不得超过配置上限"
    }

    /// Rejects once the open positions reach the limit.
    pub fn check_counts(&self, open_position_count: usize, max_positions: usize) -> (r: RuleResult)
        ensures
            open_position_count >= max_positions ==> (r matches RuleResult::Reject(m) && m@
                == two_count_text(
                "持仓数量已达上限：当前 "@,
                open_position_count as nat,
                " 个，上限 "@,
                max_positions as nat,
                " 个"@,
            )),
            open_position_count < max_positions ==> r is Pass,
    {
        if open_position_count >= max_positions {
            RuleResult::Reject(
                two_count_message(
                    "持仓数量已达上限：当前 ",
                    open_position_count,
                    " 个，上限 ",
                    max_positions,
                    " 个",
                ),
            )
        } else {
            RuleResult::Pass
        }
    }
}

impl PositionSizeLimitRule {
    /// Rule name.
    pub fn name(&self) -> (s: &'static str)
        ensures
            s@ == "单笔持仓规模"@,
    {
        "单笔持仓规模"
    }

    /// Rule description.
    pub fn description(&self) -> (s: &'static str)
        ensures
            s@ == "单笔持仓金额不得超过配置上限"@,
    {
        "单笔持仓金额不得超过配置上限"
    }
}

impl MaxOrderCountRule {
    /// Rule name.
    pub fn name(&self) -> (s: &'static str)
        ensures
            s@ == "最大订单数量"@,
    {
        "最大订单数量"
    }

    /// Rule description.
    pub fn description(&self) -> (s: &'static str)
        ensures
            s@ == "待处理订单数不得超过配置上限"@,
    {
        "待处理订单数不得超过配置上限"
    }

    /// Rejects once the pending orders reach the limit.
    pub fn check_counts(&self, pending_order_count: usize, max_open_orders: usize) -> (r: RuleResult)
        ensures
            pending_order_count >= max_open_orders ==> (r matches RuleResult::Reject(m) && m@
                == two_count_text(
                "待处理订单已达上限：当前 "@,
                pending_order_count as nat,
                " 个，上限 "@,
                max_open_orders as nat,
                " 个"@,
            )),
            pending_order_count < max_open_orders ==> r is Pass,
    {
        if pending_order_count >= max_open_orders {
            RuleResult::Reject(
                two_count_message(
                    "待处理订单已达上限：当前 ",
                    pending_order_count,
                    " 个，上限 ",
                    max_open_orders,
                    " 个",
                ),
            )
        } else {
            RuleResult::Pass
        }
    }
}

impl MaxSingleCapitalRule {
    /// Rule name.
    pub fn name(&self) -> (s: &'static str)
        ensures
            s@ == "最大单笔资金占用"@,
    {
        "最大单笔资金占用"
    }

    /// Rule description.
    pub fn description(&self) -> (s: &'static str)
        ensures
            s@ == "单笔资金占用不得超过配置上限"@,
    {
        "单笔资金占用不得超过配置上限"
    }
}

impl DailyLossRule {
    /// Rule name.
    pub fn name(&self) -> (s: &'static str)
        ensures
            s@ == "每日最大亏损"@,
    {
        "每日最大亏损"
    }

    /// Rule description.
    pub fn description(&self) -> (s: &'static str)
        ensures
            s@ == "当日已实现亏损不得超过配置上限"@,
    {
        "当日已实现亏损不得超过配置上限"
    }
}

impl ConsecutiveLossRule {
    /// Rule name.
    pub fn name(&self) -> (s: &'static str)
        ensures
            s@ == "连续亏损限制"@,
    {
        "连续亏损限制"
    }

    /// Rule description.
    pub fn description(&self) -> (s: &'static str)
        ensures
            s@ == "连续亏损次数不得超过配置上限"@,
    {
        "连续亏损次数不得超过配置上限"
    }

    /// Rejects once the consecutive losses reach the limit.
    pub fn check_counts(&self, consecutive_losses: usize, max_consecutive_losses: usize) -> (r:
        RuleResult)
        ensures
            consecutive_losses >= max_consecutive_losses ==> (r matches RuleResult::Reject(m) && m@
                == two_count_text(
                "连续亏损达到限制：已连续 "@,
                consecutive_losses as nat,
                " 次亏损，上限 "@,
                max_consecutive_losses as nat,
                " 次"@,
            )),
            consecutive_losses < max_consecutive_losses ==> r is Pass,
    {
        if consecutive_losses >= max_consecutive_losses {
            RuleResult::Reject(
                two_count_message(
                    "连续亏损达到限制：已连续 ",
                    consecutive_losses,
                    " 次亏损，上限 ",
                    max_consecutive_losses,
                    " 次",
                ),
            )
        } else {
            RuleResult::Pass
        }
    }
}

impl DrawdownRule {
    /// Rule name.
    pub fn name(&self) -> (s: &'static str)
        ensures
            s@ == "最大回撤"@,
    {
        "最大回撤"
    }

    /// Rule description.
    pub fn description(&self) -> (s: &'static str)
        ensures
            s@ == "当前回撤不得超过配置上限"@,
    {
        "当前回撤不得超过配置上限"
    }
}

impl ExposureLimitRule {
    /// Rule name.
    pub fn name(&self) -> (s: &'static str)
        ensures
            s@ == "暴露限制"@,
    {
        "暴露限制"
    }

    /// Rule description.
    pub fn description(&self) -> (s: &'static str)
        ensures
            s@ == "单一市场/类别/方向暴露不得超过配置上限"@,
    {
        "单一市场/类别/方向暴露不得超过配置上限"
    }
}

impl LiquidityRule {
    /// Rule name.
    pub fn name(&self) -> (s: &'static str)
        ensures
            s@ == "最低流动性"@,
    {
        "最低流动性"
    }

    /// Rule description.
    pub fn description(&self) -> (s: &'static str)
        ensures
            s@ == "市场流动性不得低于配置下限"@,
    {
        "市场流动性不得低于配置下限"
    }
}

impl SlippageRule {
    /// Rule name.
    pub fn name(&self) -> (s: &'static str)
        ensures
            s@ == "最大滑点"@,
    {
        "最大滑点"
    }

    /// Rule description.
    pub fn description(&self) -> (s: &'static str)
        ensures
            s@ == "预估滑点不得超过配置上限"@,
    {
        "预估滑点不得超过配置上限"
    }
}

impl VolatilityRule {
    /// Rule name.
    pub fn name(&self) -> (s: &'static str)
        ensures
            s@ == "最高波动率"@,
    {
        "最高波动率"
    }

    /// Rule description.
    pub fn description(&self) -> (s: &'static str)
        ensures
            s@ == "市场波动率不得超过配置上限"@,
    {
        "市场波动率不得超过配置上限"
    }
}

} // verus!
