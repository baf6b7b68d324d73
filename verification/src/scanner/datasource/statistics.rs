//! Per-round market data statistics: provider, market / price / liquidity
//! counts, invalid and cached counts, and the update time.

use vstd::prelude::*;

use crate::scanner::market::{count_where, MarketFacts};
use crate::text::owned;

verus! {

/// Market data statistics of one round.
#[derive(Debug, Clone)]
pub struct DataStatistics {
    pub provider: String,
    pub market_count: usize,
    pub orderbook_count: usize,
    pub price_count: usize,
    pub liquidity_count: usize,
    pub invalid_count: usize,
    pub cached_count: usize,
    pub updated_at: String,
}

impl DataStatistics {
    /// Statistics of a round's markets; order books are not fetched by the scan
    /// loop, so their count is zero. `updated_at` is the round's local time,
    /// already rendered as `YYYY-MM-DD HH:MM:SS`.
    pub fn build(
        markets: &Vec<MarketFacts>,
        provider: &str,
        invalid_count: usize,
        cached_count: usize,
        updated_at: &str,
    ) -> (r: Self)
        ensures
            r.provider@ == provider@,
            r.market_count == markets@.len(),
            r.orderbook_count == 0,
            r.price_count == count_where(markets@, |m: MarketFacts| m.binary_prices),
            r.liquidity_count == count_where(markets@, |m: MarketFacts| m.has_liquidity),
            r.invalid_count == invalid_count,
            r.cached_count == cached_count,
            r.updated_at@ == updated_at@,
    {
        let mut price_count: usize = 0;
        let mut liquidity_count: usize = 0;
        let mut i: usize = 0;
        assert(markets@.take(0) =~= Seq::<MarketFacts>::empty());
        while i < markets.len()
            invariant
                i <= markets@.len(),
                price_count == count_where(markets@.take(i as int), |m: MarketFacts| m.binary_prices),
                price_count <= i,
                liquidity_count == count_where(
                    markets@.take(i as int),
                    |m: MarketFacts| m.has_liquidity,
                ),
                liquidity_count <= i,
            decreases markets@.len() - i,
        {
            let ghost next = markets@.take(i + 1);
            assert(next.drop_last() =~= markets@.take(i as int));
            assert(next.last() == markets@[i as int]);
            if markets[i].binary_prices {
                price_count = price_count + 1;
            }
            if markets[i].has_liquidity {
                liquidity_count = liquidity_count + 1;
            }
            i = i + 1;
        }
        assert(markets@.take(markets@.len() as int) =~= markets@);
        DataStatistics {
            provider: owned(provider),
            market_count: markets.len(),
            orderbook_count: 0,
            price_count,
            liquidity_count,
            invalid_count,
            cached_count,
            updated_at: owned(updated_at),
        }
    }
}

} // verus!
