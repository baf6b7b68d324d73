//! What each market-data provider can serve.

use vstd::prelude::*;

verus! {

/// The services of a provider.
#[derive(Debug, Clone, Copy, PartialEq, Eq, Structural)]
pub struct ProviderCapability {
    /// Market lists.
    pub supports_markets: bool,
    /// Order books.
    pub supports_orderbook: bool,
    /// Trade history.
    pub supports_trades: bool,
    /// Best bid / ask.
    pub supports_bid_ask: bool,
    /// Liquidity figures.
    pub supports_liquidity: bool,
    /// Order-book levels served per side (0 without depth).
    pub depth_levels: u32,
    /// Order-book depth beyond the best level.
    pub supports_depth: bool,
}

/// Real arbitrage needs order books and best bid / ask.
pub open spec fn real_arbitrage(c: ProviderCapability) -> bool {
    c.supports_orderbook && c.supports_bid_ask
}

impl ProviderCapability {
    /// Whether the provider supports real arbitrage (order books and best
    /// bid / ask).
    pub fn supports_real_arbitrage(&self) -> (r: bool)
        ensures
            r == real_arbitrage(*self),
    {
        self.supports_orderbook && self.supports_bid_ask
    }
}

/// Gamma serves markets and liquidity only: its outcome prices are
/// normalised mid prices, so it supports no real arbitrage.
pub fn gamma_capability() -> (c: ProviderCapability)
    ensures
        c == (ProviderCapability {
            supports_markets: true,
            supports_orderbook: false,
            supports_trades: false,
            supports_bid_ask: false,
            supports_liquidity: true,
            depth_levels: 0,
            supports_depth: false,
        }),
{
    ProviderCapability {
        supports_markets: true,
        supports_orderbook: false,
        supports_trades: false,
        supports_bid_ask: false,
        supports_liquidity: true,
        depth_levels: 0,
        supports_depth: false,
    }
}

/// The built-in provider serves everything but trades, with five levels of
/// depth.
pub fn mock_capability() -> (c: ProviderCapability)
    ensures
        c == (ProviderCapability {
            supports_markets: true,
            supports_orderbook: true,
            supports_trades: false,
            supports_bid_ask: true,
            supports_liquidity: true,
            depth_levels: 5,
            supports_depth: true,
        }),
{
    ProviderCapability {
        supports_markets: true,
        supports_orderbook: true,
        supports_trades: false,
        supports_bid_ask: true,
        supports_liquidity: true,
        depth_levels: 5,
        supports_depth: true,
    }
}

/// The order-book provider serves books, trades, bid / ask and liquidity with
/// ten levels of depth, but no market lists.
pub fn clob_capability() -> (c: ProviderCapability)
    ensures
        c == (ProviderCapability {
            supports_markets: false,
            supports_orderbook: true,
            supports_trades: true,
            supports_bid_ask: true,
            supports_liquidity: true,
            depth_levels: 10,
            supports_depth: true,
        }),
{
    ProviderCapability {
        supports_markets: false,
        supports_orderbook: true,
        supports_trades: true,
        supports_bid_ask: true,
        supports_liquidity: true,
        depth_levels: 10,
        supports_depth: true,
    }
}

} // verus!
