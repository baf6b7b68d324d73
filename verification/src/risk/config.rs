//! Risk configuration: the position-sizing strategy, rule switches and the
//! integer and path defaults of the risk parameters.

use vstd::prelude::*;

use crate::text::{owned, text_eq};

verus! {

/// Position-sizing strategy.
#[derive(Debug, Clone, Copy, PartialEq, Eq, Structural)]
pub enum PositionSizerKind {
    /// Fixed amount.
    Fixed,
    /// Fixed fraction of capital at risk.
    FixedRisk,
    /// Kelly criterion.
    Kelly,
    /// Volatility-adjusted.
    Volatility,
    /// Liquidity-adjusted.
    Liquidity,
    /// Confidence-adjusted.
    Confidence,
}

impl Default for PositionSizerKind {
    fn default() -> (r: Self)
        ensures
            r == PositionSizerKind::Fixed,
    {
        PositionSizerKind::Fixed
    }
}

/// Chinese name of each sizing strategy.
pub open spec fn sizer_kind_zh(k: PositionSizerKind) -> Seq<char> {
    match k {
        PositionSizerKind::Fixed => "固定金额"@,
        PositionSizerKind::FixedRisk => "固定风险"@,
        PositionSizerKind::Kelly => "Kelly公式"@,
        PositionSizerKind::Volatility => "波动率"@,
        PositionSizerKind::Liquidity => "流动性"@,
        PositionSizerKind::Confidence => "置信度"@,
    }
}

/// The strategy a configuration name selects; unknown names select `Fixed`.
pub open spec fn sizer_kind_named(name: Seq<char>) -> PositionSizerKind {
    if name == "FixedRisk"@ {
        PositionSizerKind::FixedRisk
    } else if name == "Kelly"@ {
        PositionSizerKind::Kelly
    } else if name == "Volatility"@ {
        PositionSizerKind::Volatility
    } else if name == "Liquidity"@ {
        PositionSizerKind::Liquidity
    } else if name == "Confidence"@ {
        PositionSizerKind::Confidence
    } else {
        PositionSizerKind::Fixed
    }
}

impl PositionSizerKind {
    /// Chinese name.
    pub fn as_zh(&self) -> (s: &'static str)
        ensures
            s@ == sizer_kind_zh(*self),
    {
        match self {
            PositionSizerKind::Fixed => "固定金额",
            PositionSizerKind::FixedRisk => "固定风险",
            PositionSizerKind::Kelly => "Kelly公式",
            PositionSizerKind::Volatility => "波动率",
            PositionSizerKind::Liquidity => "流动性",
            PositionSizerKind::Confidence => "置信度",
        }
    }

    /// The strategy named in a configuration file (`"FixedRisk"`, `"Kelly"`,
    /// `"Volatility"`, `"Liquidity"`, `"Confidence"`; anything else is `Fixed`).
    pub fn from_config_name(name: &str) -> (r: Self)
        ensures
            r == sizer_kind_named(name@),
            forall|k: PositionSizerKind| name@ == #[trigger] sizer_config_name(k) ==> r == k,
    {
        proof {
            assert forall|k: PositionSizerKind| name@ == #[trigger] sizer_config_name(k) implies sizer_kind_named(
                name@,
            ) == k by {
                lemma_sizer_names_select_their_strategy(k, name@);
            }
        }
        if text_eq(name, "FixedRisk") {
            PositionSizerKind::FixedRisk
        } else if text_eq(name, "Kelly") {
            PositionSizerKind::Kelly
        } else if text_eq(name, "Volatility") {
            PositionSizerKind::Volatility
        } else if text_eq(name, "Liquidity") {
            PositionSizerKind::Liquidity
        } else if text_eq(name, "Confidence") {
            PositionSizerKind::Confidence
        } else {
            PositionSizerKind::Fixed
        }
    }
}

/// The name under which a configuration file selects each strategy.
pub open spec fn sizer_config_name(k: PositionSizerKind) -> Seq<char> {
    match k {
        PositionSizerKind::Fixed => "Fixed"@,
        PositionSizerKind::FixedRisk => "FixedRisk"@,
        PositionSizerKind::Kelly => "Kelly"@,
        PositionSizerKind::Volatility => "Volatility"@,
        PositionSizerKind::Liquidity => "Liquidity"@,
        PositionSizerKind::Confidence => "Confidence"@,
    }
}

/// Each strategy's configuration name selects that very strategy, so two
/// different names of the table never select the same strategy; a name
/// outside the table selects `Fixed`.
pub proof fn lemma_sizer_names_select_their_strategy(k: PositionSizerKind, name: Seq<char>)
    ensures
        sizer_kind_named(sizer_config_name(k)) == k,
        (forall|j: PositionSizerKind| name != #[trigger] sizer_config_name(j)) ==> sizer_kind_named(name)
            == PositionSizerKind::Fixed,
{
    reveal_strlit("Fixed");
    reveal_strlit("FixedRisk");
    reveal_strlit("Kelly");
    reveal_strlit("Volatility");
    reveal_strlit("Liquidity");
    reveal_strlit("Confidence");
    assert("Fixed"@.len() == 5 && "Fixed"@[0] == 'F');
    assert("FixedRisk"@.len() == 9 && "FixedRisk"@[0] == 'F');
    assert("Kelly"@.len() == 5 && "Kelly"@[0] == 'K');
    assert("Volatility"@.len() == 10 && "Volatility"@[0] == 'V');
    assert("Liquidity"@.len() == 9 && "Liquidity"@[0] == 'L');
    assert("Confidence"@.len() == 10 && "Confidence"@[0] == 'C');
    if !(forall|j: PositionSizerKind| name != #[trigger] sizer_config_name(j)) {
    } else {
        assert(name != sizer_config_name(PositionSizerKind::FixedRisk));
        assert(name != sizer_config_name(PositionSizerKind::Kelly));
        assert(name != sizer_config_name(PositionSizerKind::Volatility));
        assert(name != sizer_config_name(PositionSizerKind::Liquidity));
        assert(name != sizer_config_name(PositionSizerKind::Confidence));
    }
}

/// Switch of one risk rule.
#[derive(Debug, Clone, Copy)]
pub struct RiskRuleConfig {
    /// Whether the rule is enabled.
    pub enabled: bool,
}

impl Default for RiskRuleConfig {
    fn default() -> (r: Self)
        ensures
            r.enabled,
    {
        RiskRuleConfig { enabled: default_true() }
    }
}

/// Default of a rule switch: enabled.
pub fn default_true() -> (r: bool)
    ensures
        r,
{
    true
}

/// Default maximum number of simultaneous positions.
pub fn default_max_positions() -> (r: usize)
    ensures
        r == 10,
{
    10
}

/// Default maximum number of pending orders.
pub fn default_max_open_orders() -> (r: usize)
    ensures
        r == 20,
{
    20
}

/// Default number of consecutive losses that halts trading.
pub fn default_max_consecutive_losses() -> (r: usize)
    ensures
        r == 5,
{
    5
}

/// Default path of the risk-event CSV.
pub fn default_risk_events_csv() -> (r: String)
    ensures
        r@ == "data/risk_events.csv"@,
{
    owned("data/risk_events.csv")
}

/// Default path of the risk-dashboard CSV.
pub fn default_risk_dashboard_csv() -> (r: String)
    ensures
        r@ == "data/risk_dashboard.csv"@,
{
    owned("data/risk_dashboard.csv")
}

} // verus!
