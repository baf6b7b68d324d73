//! Portfolio risk level: each pressure indicator (capital usage, drawdown,
//! daily loss, consecutive losses, open positions) adds risk points, and the
//! points map to a level Low / Medium / High / Critical.

use vstd::prelude::*;

use crate::risk::rules::two_count_text;
use crate::text::{decimal_text, owned};

verus! {

/// Portfolio risk level.
#[derive(Debug, Clone, Copy, PartialEq, Eq, Structural, PartialOrd, Ord)]
pub enum RiskLevel {
    /// Everything normal.
    Low,
    /// Some indicators close to their limits.
    Medium,
    /// Several indicators at or close to their limits.
    High,
    /// Hard limits hit: no new trades.
    Critical,
}

/// Position of a level in the order Low < Medium < High < Critical.
pub open spec fn level_rank(l: RiskLevel) -> nat {
    match l {
        RiskLevel::Low => 0,
        RiskLevel::Medium => 1,
        RiskLevel::High => 2,
        RiskLevel::Critical => 3,
    }
}

/// Chinese name of each level.
pub open spec fn level_zh(l: RiskLevel) -> Seq<char> {
    match l {
        RiskLevel::Low => "低"@,
        RiskLevel::Medium => "中"@,
        RiskLevel::High => "高"@,
        RiskLevel::Critical => "紧急"@,
    }
}

/// Colour marker of each level.
pub open spec fn level_color(l: RiskLevel) -> Seq<char> {
    match l {
        RiskLevel::Low => "🟢"@,
        RiskLevel::Medium => "🟡"@,
        RiskLevel::High => "🟠"@,
        RiskLevel::Critical => "🔴"@,
    }
}

impl RiskLevel {
    /// Chinese name.
    pub fn as_zh(&self) -> (s: &'static str)
        ensures
            s@ == level_zh(*self),
    {
        match self {
            RiskLevel::Low => "低",
            RiskLevel::Medium => "中",
            RiskLevel::High => "高",
            RiskLevel::Critical => "紧急",
        }
    }

    /// Colour marker.
    pub fn as_color(&self) -> (s: &'static str)
        ensures
            s@ == level_color(*self),
    {
        match self {
            RiskLevel::Low => "🟢",
            RiskLevel::Medium => "🟡",
            RiskLevel::High => "🟠",
            RiskLevel::Critical => "🔴",
        }
    }
}

/// Where an indicator stands against its limit.
#[derive(Debug, Clone, Copy, PartialEq, Eq, Structural)]
pub enum Band {
    /// Comfortably within the limit.
    Within,
    /// Close to the limit.
    Near,
    /// Beyond the limit.
    Over,
}

/// Position of a band in the order Within < Near < Over.
pub open spec fn band_rank(b: Band) -> nat {
    match b {
        Band::Within => 0,
        Band::Near => 1,
        Band::Over => 2,
    }
}

/// Points of a band: 3 beyond the limit, `near` close to it, 0 otherwise.
pub open spec fn band_points(b: Band, near: nat) -> nat {
    match b {
        Band::Over => 3,
        Band::Near => near,
        Band::Within => 0,
    }
}

/// Band of the consecutive-loss count: at the limit is beyond it, within two
/// of the limit is close to it.
pub open spec fn consecutive_loss_band(losses: nat, max_losses: nat) -> Band {
    if losses >= max_losses {
        Band::Over
    } else if losses + 2 >= max_losses {
        Band::Near
    } else {
        Band::Within
    }
}

/// Total risk points of a portfolio.
pub open spec fn risk_points(
    capital: Band,
    drawdown: Band,
    daily_loss: Band,
    losses: nat,
    max_losses: nat,
    open_positions: nat,
    max_positions: nat,
) -> nat {
    band_points(capital, 1) + band_points(drawdown, 1) + band_points(daily_loss, 2) + band_points(
        consecutive_loss_band(losses, max_losses),
        1,
    ) + if open_positions >= max_positions {
        2nat
    } else {
        0nat
    }
}

/// Level of a number of risk points: 0 Low, 1-2 Medium, 3-5 High, 6+ Critical.
pub open spec fn level_for_points(points: nat) -> RiskLevel {
    if points == 0 {
        RiskLevel::Low
    } else if points <= 2 {
        RiskLevel::Medium
    } else if points <= 5 {
        RiskLevel::High
    } else {
        RiskLevel::Critical
    }
}

/// Band of the consecutive-loss count against its limit.
pub fn consecutive_losses_band(losses: usize, max_losses: usize) -> (b: Band)
    ensures
        b == consecutive_loss_band(losses as nat, max_losses as nat),
{
    if losses >= max_losses {
        Band::Over
    } else if losses >= max_losses.saturating_sub(2) {
        Band::Near
    } else {
        Band::Within
    }
}

fn points_of(b: Band, near: u32) -> (p: u32)
    requires
        near <= 3,
    ensures
        p == band_points(b, near as nat),
{
    match b {
        Band::Over => 3,
        Band::Near => near,
        Band::Within => 0,
    }
}

/// Risk points and level of a portfolio from the bands of capital usage,
/// drawdown and daily loss and from its loss and position counts.
pub fn portfolio_risk_level(
    capital: Band,
    drawdown: Band,
    daily_loss: Band,
    consecutive_losses: usize,
    max_consecutive_losses: usize,
    open_positions: usize,
    max_positions: usize,
) -> (r: (RiskLevel, u32))
    ensures
        r.1 == risk_points(
            capital,
            drawdown,
            daily_loss,
            consecutive_losses as nat,
            max_consecutive_losses as nat,
            open_positions as nat,
            max_positions as nat,
        ),
        r.0 == level_for_points(r.1 as nat),
        r.1 == 0 ==> r.0 == RiskLevel::Low,
        1 <= r.1 <= 2 ==> r.0 == RiskLevel::Medium,
        3 <= r.1 <= 5 ==> r.0 == RiskLevel::High,
        r.1 >= 6 ==> r.0 == RiskLevel::Critical,
{
    let mut points: u32 = points_of(capital, 1);
    points = points + points_of(drawdown, 1);
    points = points + points_of(daily_loss, 2);
    points = points + points_of(consecutive_losses_band(consecutive_losses, max_consecutive_losses), 1);
    if open_positions >= max_positions {
        points = points + 2;
    }
    let level = if points == 0 {
        RiskLevel::Low
    } else if points <= 2 {
        RiskLevel::Medium
    } else if points <= 5 {
        RiskLevel::High
    } else {
        RiskLevel::Critical
    };
    (level, points)
}

/// Warning about the consecutive-loss count, when it is at or close to its limit.
pub fn consecutive_loss_warning(losses: usize, max_losses: usize) -> (r: Option<String>)
    ensures
        match consecutive_loss_band(losses as nat, max_losses as nat) {
            Band::Over => r is Some && r->0@ == two_count_text(
                "连续亏损 "@,
                losses as nat,
                " 次达到上限 "@,
                max_losses as nat,
                " 次"@,
            ),
            Band::Near => r is Some && r->0@ == two_count_text(
                "连续亏损 "@,
                losses as nat,
                " 次接近上限 "@,
                max_losses as nat,
                " 次"@,
            ),
            Band::Within => r is None,
        },
{
    let (middle, present) = match consecutive_losses_band(losses, max_losses) {
        Band::Over => (" 次达到上限 ", true),
        Band::Near => (" 次接近上限 ", true),
        Band::Within => ("", false),
    };
    if present {
        let mut s = owned("连续亏损 ");
        s.append(decimal_text(losses as u128).as_str());
        s.append(middle);
        s.append(decimal_text(max_losses as u128).as_str());
        s.append(" 次");
        Some(s)
    } else {
        None
    }
}

/// Warning about the number of open positions, when it has reached its limit.
pub fn position_count_warning(open_positions: usize, max_positions: usize) -> (r: Option<String>)
    ensures
        open_positions >= max_positions ==> r is Some && r->0@ == two_count_text(
            "持仓数 "@,
            open_positions as nat,
            " 达到上限 "@,
            max_positions as nat,
            Seq::empty(),
        ),
        open_positions < max_positions ==> r is None,
{
    if open_positions >= max_positions {
        let mut s = owned("持仓数 ");
        s.append(decimal_text(open_positions as u128).as_str());
        s.append(" 达到上限 ");
        s.append(decimal_text(max_positions as u128).as_str());
        assert(s@ =~= two_count_text(
            "持仓数 "@,
            open_positions as nat,
            " 达到上限 "@,
            max_positions as nat,
            Seq::empty(),
        ));
        Some(s)
    } else {
        None
    }
}

/// More risk points never give a lower level.
pub proof fn lemma_level_monotone(p1: nat, p2: nat)
    requires
        p1 <= p2,
    ensures
        level_rank(level_for_points(p1)) <= level_rank(level_for_points(p2)),
{
}

/// A portfolio under at least as much pressure on every indicator (same
/// limits) is never rated a lower risk level.
pub proof fn lemma_more_pressure_never_lowers_level(
    capital1: Band,
    drawdown1: Band,
    daily_loss1: Band,
    losses1: nat,
    open1: nat,
    capital2: Band,
    drawdown2: Band,
    daily_loss2: Band,
    losses2: nat,
    open2: nat,
    max_losses: nat,
    max_positions: nat,
)
    requires
        band_rank(capital1) <= band_rank(capital2),
        band_rank(drawdown1) <= band_rank(drawdown2),
        band_rank(daily_loss1) <= band_rank(daily_loss2),
        losses1 <= losses2,
        open1 <= open2,
    ensures
        level_rank(
            level_for_points(
                risk_points(capital1, drawdown1, daily_loss1, losses1, max_losses, open1, max_positions),
            ),
        ) <= level_rank(
            level_for_points(
                risk_points(capital2, drawdown2, daily_loss2, losses2, max_losses, open2, max_positions),
            ),
        ),
{
    lemma_level_monotone(
        risk_points(capital1, drawdown1, daily_loss1, losses1, max_losses, open1, max_positions),
        risk_points(capital2, drawdown2, daily_loss2, losses2, max_losses, open2, max_positions),
    );
}

/// The level is fixed by bands of risk points: no point is Low, one or two
/// Medium, three to five High, and six or more Critical.
pub proof fn lemma_level_bands(points: nat)
    ensures
        (level_for_points(points) == RiskLevel::Low) <==> points == 0,
        (level_for_points(points) == RiskLevel::Medium) <==> (1 <= points && points <= 2),
        (level_for_points(points) == RiskLevel::High) <==> (3 <= points && points <= 5),
        (level_for_points(points) == RiskLevel::Critical) <==> points >= 6,
{
}

/// A portfolio with two of capital usage, drawdown and daily loss beyond
/// their limits collects at least six risk points, so it is rated Critical,
/// whatever the other indicators say.
pub proof fn lemma_two_hard_limits_critical(
    capital: Band,
    drawdown: Band,
    daily_loss: Band,
    losses: nat,
    max_losses: nat,
    open_positions: nat,
    max_positions: nat,
)
    requires
        (capital == Band::Over && drawdown == Band::Over) || (capital == Band::Over && daily_loss
            == Band::Over) || (drawdown == Band::Over && daily_loss == Band::Over),
    ensures
        risk_points(capital, drawdown, daily_loss, losses, max_losses, open_positions, max_positions)
            >= 6,
        level_for_points(
            risk_points(capital, drawdown, daily_loss, losses, max_losses, open_positions, max_positions),
        ) == RiskLevel::Critical,
{
}

/// A portfolio with every indicator within its limit, fewer losses in a row
/// than two short of the limit and fewer open positions than allowed has no
/// risk point and is rated Low; any indicator beyond its limit makes it at
/// least High.
pub proof fn lemma_idle_low_and_any_breach_high(
    capital: Band,
    drawdown: Band,
    daily_loss: Band,
    losses: nat,
    max_losses: nat,
    open_positions: nat,
    max_positions: nat,
)
    ensures
        (capital == Band::Within && drawdown == Band::Within && daily_loss == Band::Within && losses
            + 2 < max_losses && open_positions < max_positions) ==> level_for_points(
            risk_points(capital, drawdown, daily_loss, losses, max_losses, open_positions, max_positions),
        ) == RiskLevel::Low,
        (capital == Band::Over || drawdown == Band::Over || daily_loss == Band::Over || losses
            >= max_losses) ==> level_rank(
            level_for_points(
                risk_points(capital, drawdown, daily_loss, losses, max_losses, open_positions, max_positions),
            ),
        ) >= 2,
{
}

} // verus!
