//! Scan observability: per-request statistics, market rejection reasons and
//! the cumulative counters kept across scan rounds.

use vstd::prelude::*;

use crate::scanner::market::RoundTally;

verus! {

/// Statistics of one paged HTTP request.
#[derive(Debug, Clone)]
pub struct PageStats {
    /// Request URL (with limit/offset).
    pub url: String,
    /// HTTP status (0 when the request never reached the server).
    pub status: u16,
    /// Response body size in bytes.
    pub bytes: usize,
    /// Elapsed milliseconds.
    pub elapsed_ms: u128,
    /// Whether the request succeeded.
    pub ok: bool,
    /// Full error text on failure.
    pub error: Option<String>,
}

impl Default for PageStats {
    fn default() -> (r: Self)
        ensures
            r.url@ == Seq::<char>::empty(),
            r.status == 0,
            r.bytes == 0,
            r.elapsed_ms == 0,
            !r.ok,
            r.error is None,
    {
        PageStats { url: String::new(), status: 0, bytes: 0, elapsed_ms: 0, ok: false, error: None }
    }
}

/// Aggregated statistics of one market fetch across all pages.
#[derive(Debug, Clone)]
pub struct FetchStats {
    /// Number of page requests.
    pub request_count: u64,
    /// Successful requests.
    pub success_count: u64,
    /// Failed requests.
    pub failed_count: u64,
    /// Total response bytes.
    pub total_bytes: u64,
    /// Total HTTP milliseconds.
    pub total_ms: u128,
    /// Total JSON decoding milliseconds.
    pub deserialize_ms: u128,
    /// Status of the last request.
    pub last_status: u16,
    /// Last error text, if any.
    pub last_error: Option<String>,
    /// URL of the first page.
    pub first_url: Option<String>,
    /// Rate-limit header, when the server sent one.
    pub rate_limit: Option<String>,
    /// Per-page details.
    pub pages: Vec<PageStats>,
}

impl Default for FetchStats {
    fn default() -> (r: Self)
        ensures
            r.request_count == 0,
            r.success_count == 0,
            r.failed_count == 0,
            r.total_bytes == 0,
            r.total_ms == 0,
            r.deserialize_ms == 0,
            r.last_status == 0,
            r.last_error is None,
            r.first_url is None,
            r.rate_limit is None,
            r.pages@.len() == 0,
    {
        FetchStats {
            request_count: 0,
            success_count: 0,
            failed_count: 0,
            total_bytes: 0,
            total_ms: 0,
            deserialize_ms: 0,
            last_status: 0,
            last_error: None,
            first_url: None,
            rate_limit: None,
            pages: Vec::new(),
        }
    }
}

/// Why a market was filtered out of a scan round.
#[derive(Debug, Clone, Copy, PartialEq, Eq, Structural)]
pub enum RejectionReason {
    /// The market is closed.
    Closed,
    /// The market is not active.
    Inactive,
    /// No outcome prices at all.
    MissingPrice,
    /// Prices present but unusable (not binary / not parseable).
    InvalidData,
    /// Valid prices, but YES + NO is not below the threshold.
    SumAboveThreshold,
}

/// Display text of each rejection reason.
pub open spec fn rejection_reason_text(r: RejectionReason) -> Seq<char> {
    match r {
        RejectionReason::Closed => "已关闭"@,
        RejectionReason::Inactive => "不活跃"@,
        RejectionReason::MissingPrice => "缺价"@,
        RejectionReason::InvalidData => "数据无效"@,
        RejectionReason::SumAboveThreshold => "YES+NO >= 阈值"@,
    }
}

impl RejectionReason {
    /// Display text of the reason.
    pub fn as_str(&self) -> (s: &'static str)
        ensures
            s@ == rejection_reason_text(*self),
    {
        match self {
            RejectionReason::Closed => "已关闭",
            RejectionReason::Inactive => "不活跃",
            RejectionReason::MissingPrice => "缺价",
            RejectionReason::InvalidData => "数据无效",
            RejectionReason::SumAboveThreshold => "YES+NO >= 阈值",
        }
    }
}

/// One filtered market: its question and the reason it was filtered.
#[derive(Debug, Clone)]
pub struct MarketRejection {
    pub question: String,
    pub reason: RejectionReason,
}

/// Counters accumulated over a whole scanning session.
#[derive(Debug, Clone)]
pub struct ScannerStats {
    /// HTTP requests.
    pub request_count: u64,
    /// Successful HTTP requests.
    pub success_count: u64,
    /// Failed HTTP requests.
    pub failed_count: u64,
    /// Markets received.
    pub market_count: u64,
    /// Markets parsed.
    pub parsed_count: u64,
    /// Active markets.
    pub active_count: u64,
    /// Markets missing prices.
    pub missing_price_count: u64,
    /// Markets filtered by the strategy threshold.
    pub strategy_rejected_count: u64,
    /// Possible opportunities.
    pub opportunity_count: u64,
    /// Completed scan rounds.
    pub round_count: u64,
}

impl ScannerStats {
    /// All counters at zero.
    pub open spec fn is_zero(self) -> bool {
        &&& self.request_count == 0
        &&& self.success_count == 0
        &&& self.failed_count == 0
        &&& self.market_count == 0
        &&& self.parsed_count == 0
        &&& self.active_count == 0
        &&& self.missing_price_count == 0
        &&& self.strategy_rejected_count == 0
        &&& self.opportunity_count == 0
        &&& self.round_count == 0
    }

    /// A fresh session with every counter at zero.
    pub fn new() -> (r: Self)
        ensures
            r.is_zero(),
    {
        ScannerStats {
            request_count: 0,
            success_count: 0,
            failed_count: 0,
            market_count: 0,
            parsed_count: 0,
            active_count: 0,
            missing_price_count: 0,
            strategy_rejected_count: 0,
            opportunity_count: 0,
            round_count: 0,
        }
    }

    /// Counts one completed scan round.
    pub fn record_round(&mut self)
        requires
            old(self).round_count < u64::MAX,
        ensures
            final(self).round_count == old(self).round_count + 1,
            final(self).request_count == old(self).request_count,
            final(self).success_count == old(self).success_count,
            final(self).failed_count == old(self).failed_count,
            final(self).market_count == old(self).market_count,
            final(self).parsed_count == old(self).parsed_count,
            final(self).active_count == old(self).active_count,
            final(self).missing_price_count == old(self).missing_price_count,
            final(self).strategy_rejected_count == old(self).strategy_rejected_count,
            final(self).opportunity_count == old(self).opportunity_count,
    {
        self.round_count = self.round_count + 1;
    }

    /// Adds the HTTP counters of one fetch.
    pub fn add_fetch(&mut self, fetch: &FetchStats)
        requires
            old(self).request_count + fetch.request_count <= u64::MAX,
            old(self).success_count + fetch.success_count <= u64::MAX,
            old(self).failed_count + fetch.failed_count <= u64::MAX,
        ensures
            final(self).request_count == old(self).request_count + fetch.request_count,
            final(self).success_count == old(self).success_count + fetch.success_count,
            final(self).failed_count == old(self).failed_count + fetch.failed_count,
            final(self).market_count == old(self).market_count,
            final(self).parsed_count == old(self).parsed_count,
            final(self).active_count == old(self).active_count,
            final(self).missing_price_count == old(self).missing_price_count,
            final(self).strategy_rejected_count == old(self).strategy_rejected_count,
            final(self).opportunity_count == old(self).opportunity_count,
            final(self).round_count == old(self).round_count,
    {
        self.request_count = self.request_count + fetch.request_count;
        self.success_count = self.success_count + fetch.success_count;
        self.failed_count = self.failed_count + fetch.failed_count;
    }

    /// Adds a round screened without detail: only the markets received and
    /// parsed and the opportunities found are counted.
    pub fn add_basic_round(&mut self, markets: usize, opportunities: usize)
        requires
            old(self).market_count + markets <= u64::MAX,
            old(self).parsed_count + markets <= u64::MAX,
            old(self).opportunity_count + opportunities <= u64::MAX,
        ensures
            final(self).market_count == old(self).market_count + markets,
            final(self).parsed_count == old(self).parsed_count + markets,
            final(self).opportunity_count == old(self).opportunity_count + opportunities,
            final(self).active_count == old(self).active_count,
            final(self).missing_price_count == old(self).missing_price_count,
            final(self).strategy_rejected_count == old(self).strategy_rejected_count,
            final(self).request_count == old(self).request_count,
            final(self).success_count == old(self).success_count,
            final(self).failed_count == old(self).failed_count,
            final(self).round_count == old(self).round_count,
    {
        self.market_count = self.market_count + markets as u64;
        self.parsed_count = self.parsed_count + markets as u64;
        self.opportunity_count = self.opportunity_count + opportunities as u64;
    }

    /// Adds the market counters of one analysed round.
    pub fn add_round(&mut self, a: &RoundTally)
        requires
            old(self).market_count + a.received <= u64::MAX,
            old(self).parsed_count + a.parsed <= u64::MAX,
            old(self).active_count + a.active <= u64::MAX,
            old(self).missing_price_count + a.missing_prices <= u64::MAX,
            old(self).strategy_rejected_count + a.filtered_strategy <= u64::MAX,
            old(self).opportunity_count + a.opportunities@.len() <= u64::MAX,
        ensures
            final(self).market_count == old(self).market_count + a.received,
            final(self).parsed_count == old(self).parsed_count + a.parsed,
            final(self).active_count == old(self).active_count + a.active,
            final(self).missing_price_count == old(self).missing_price_count + a.missing_prices,
            final(self).strategy_rejected_count == old(self).strategy_rejected_count
                + a.filtered_strategy,
            final(self).opportunity_count == old(self).opportunity_count + a.opportunities@.len(),
            final(self).request_count == old(self).request_count,
            final(self).success_count == old(self).success_count,
            final(self).failed_count == old(self).failed_count,
            final(self).round_count == old(self).round_count,
    {
        self.market_count = self.market_count + a.received as u64;
        self.parsed_count = self.parsed_count + a.parsed as u64;
        self.active_count = self.active_count + a.active as u64;
        self.missing_price_count = self.missing_price_count + a.missing_prices as u64;
        self.strategy_rejected_count = self.strategy_rejected_count + a.filtered_strategy as u64;
        self.opportunity_count = self.opportunity_count + a.opportunities.len() as u64;
    }
}

impl Default for ScannerStats {
    fn default() -> (r: Self)
        ensures
            r.is_zero(),
    {
        ScannerStats::new()
    }
}

} // verus!
