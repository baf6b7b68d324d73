//! Position sizers: one type per sizing strategy, each naming its strategy.

use vstd::prelude::*;

use crate::risk::config::PositionSizerKind;

verus! {

/// Fixed amount per trade.
pub struct FixedSizer;

/// Fixed fraction of capital at risk.
pub struct FixedRiskSizer;

/// Half Kelly.
pub struct KellySizer;

/// Smaller positions in more volatile markets.
pub struct VolatilitySizer;

/// Positions bounded by market liquidity.
pub struct LiquiditySizer;

/// Larger positions with more confidence.
pub struct ConfidenceSizer;

impl FixedSizer {
    /// The strategy of this sizer.
    pub fn kind(&self) -> (k: PositionSizerKind)
        ensures
            k == PositionSizerKind::Fixed,
    {
        PositionSizerKind::Fixed
    }
}

impl FixedRiskSizer {
    /// The strategy of this sizer.
    pub fn kind(&self) -> (k: PositionSizerKind)
        ensures
            k == PositionSizerKind::FixedRisk,
    {
        PositionSizerKind::FixedRisk
    }
}

impl KellySizer {
    /// The strategy of this sizer.
    pub fn kind(&self) -> (k: PositionSizerKind)
        ensures
            k == PositionSizerKind::Kelly,
    {
        PositionSizerKind::Kelly
    }
}

impl VolatilitySizer {
    /// The strategy of this sizer.
    pub fn kind(&self) -> (k: PositionSizerKind)
        ensures
            k == PositionSizerKind::Volatility,
    {
        PositionSizerKind::Volatility
    }
}

impl LiquiditySizer {
    /// The strategy of this sizer.
    pub fn kind(&self) -> (k: PositionSizerKind)
        ensures
            k == PositionSizerKind::Liquidity,
    {
        PositionSizerKind::Liquidity
    }
}

impl ConfidenceSizer {
    /// The strategy of this sizer.
    pub fn kind(&self) -> (k: PositionSizerKind)
        ensures
            k == PositionSizerKind::Confidence,
    {
        PositionSizerKind::Confidence
    }
}

} // verus!
