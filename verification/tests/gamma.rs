use pm_sim::scanner::datasource::capability::{clob_capability, gamma_capability, mock_capability};
use pm_sim::scanner::datasource::gamma::{
    fetch_failed, health_url, merge_batch, next_batch, page_offsets, page_url, probe_failed, probe_parsed,
    probe_rejected, rate_limit_text, status_of, success_status, unified_market_id, BatchMerge, MarketStatus,
    PageSummary, GAMMA_API_BASE, MAX_CONCURRENT_PAGES,
};

fn page(offset: usize, ok: bool, status: u16, market_count: usize) -> PageSummary {
    PageSummary { offset, ok, status, market_count }
}

#[test]
fn gamma_capability_no_orderbook_no_bidask() {
    let cap = gamma_capability();
    assert!(cap.supports_markets);
    assert!(cap.supports_liquidity);
    assert!(!cap.supports_orderbook);
    assert!(!cap.supports_bid_ask);
    assert!(!cap.supports_trades);
    assert!(!cap.supports_real_arbitrage());
    assert_eq!(cap.depth_levels, 0);
    assert!(!cap.supports_depth);
}

#[test]
fn clob_capability_has_orderbook_and_depth() {
    let cap = clob_capability();
    assert!(!cap.supports_markets);
    assert!(cap.supports_orderbook);
    assert!(cap.supports_bid_ask);
    assert!(cap.supports_trades);
    assert!(cap.supports_liquidity);
    assert!(cap.supports_real_arbitrage());
    assert!(cap.supports_depth);
    assert_eq!(cap.depth_levels, 10);
}

#[test]
fn capability_supports_real_arbitrage() {
    let cap = mock_capability();
    assert!(cap.supports_orderbook);
    assert!(cap.supports_bid_ask);
    assert!(cap.supports_real_arbitrage());
    assert_eq!(cap.depth_levels, 5);
    assert!(cap.supports_depth);
}

#[test]
fn to_unified_closed_and_inactive_status() {
    // Gamma reports a closed market with its active flag still set.
    let closed = status_of(true, true);
    assert_eq!(closed, MarketStatus::Closed);
    assert!(closed.closed());
    assert!(closed.active());

    let inactive = status_of(false, false);
    assert_eq!(inactive, MarketStatus::Inactive);
    assert!(!inactive.active());
}

#[test]
fn to_unified_market_id_fallbacks() {
    // No condition id: the id is used.
    assert_eq!(unified_market_id(None, Some("99".to_string()), Some("Q".to_string())), "99");
    // Neither: the question is used.
    assert_eq!(unified_market_id(None, None, Some("fallbackQ".to_string())), "fallbackQ");
}

#[test]
fn market_id_prefers_condition_id_and_defaults_to_empty() {
    assert_eq!(
        unified_market_id(Some("0xcond".to_string()), Some("42".to_string()), Some("问题A".to_string())),
        "0xcond"
    );
    assert_eq!(unified_market_id(None, None, None), "");
}

#[test]
fn active_open_market_status() {
    let s = status_of(false, true);
    assert_eq!(s, MarketStatus::Active);
    assert!(s.active());
    assert!(!s.closed());
}

#[test]
fn page_url_carries_offset_and_filters() {
    assert_eq!(
        page_url(0),
        "https://gamma-api.polymarket.com/markets?limit=100&offset=0&closed=false&order=volumeNum&ascending=false"
    );
    assert_eq!(
        page_url(2100),
        "https://gamma-api.polymarket.com/markets?limit=100&offset=2100&closed=false&order=volumeNum&ascending=false"
    );
    assert_eq!(health_url(), format!("{}/markets?limit=1&closed=false", GAMMA_API_BASE));
}

#[test]
fn page_offsets_cover_twenty_two_pages() {
    let v = page_offsets();
    assert_eq!(v.len(), 22);
    assert_eq!(v[0], 0);
    assert_eq!(v[1], 100);
    assert_eq!(v[21], 2100);
}

#[test]
fn batches_of_six_until_the_end() {
    let offsets = page_offsets();
    assert_eq!(next_batch(&offsets, 0), vec![0, 100, 200, 300, 400, 500]);
    assert_eq!(next_batch(&offsets, 6).len(), MAX_CONCURRENT_PAGES);
    assert_eq!(next_batch(&offsets, 18), vec![1800, 1900, 2000, 2100]);
    assert!(next_batch(&offsets, 22).is_empty());
    assert!(next_batch(&offsets, 30).is_empty());
}

#[test]
fn terminal_pages() {
    assert!(!page(0, true, 200, 100).is_terminal());
    assert!(page(0, false, 500, 0).is_terminal());
    assert!(page(0, true, 422, 0).is_terminal());
    assert!(page(0, true, 200, 0).is_terminal());
}

#[test]
fn merge_stops_at_unprocessable_page() {
    let mut pages = vec![page(0, true, 200, 100), page(100, true, 200, 40), page(200, true, 422, 0), page(300, true, 200, 9)];
    assert_eq!(merge_batch(&mut pages), BatchMerge { merged: 2, accounted: 3, stop: true });
}

#[test]
fn merge_stops_at_failed_first_page() {
    let mut pages = vec![page(0, false, 0, 0), page(100, true, 200, 100)];
    assert_eq!(merge_batch(&mut pages), BatchMerge { merged: 0, accounted: 1, stop: true });
}

#[test]
fn merge_takes_full_batch_without_terminal() {
    let mut pages = vec![page(0, true, 200, 100), page(100, true, 200, 100), page(200, true, 200, 100)];
    assert_eq!(merge_batch(&mut pages), BatchMerge { merged: 3, accounted: 3, stop: false });
    assert_eq!(merge_batch(&mut Vec::new()), BatchMerge { merged: 0, accounted: 0, stop: false });
}

#[test]
fn fetch_fails_only_without_markets_and_with_failures() {
    assert!(fetch_failed(0, 1));
    assert!(!fetch_failed(0, 0));
    assert!(!fetch_failed(5, 3));
}

#[test]
fn rate_limit_summary() {
    assert_eq!(
        rate_limit_text(Some("100"), Some("97"), Some("30")),
        Some("limit=100, remaining=97, reset=30".to_string())
    );
    assert_eq!(rate_limit_text(None, Some("5"), None), Some("remaining=5".to_string()));
    assert_eq!(rate_limit_text(Some("10"), None, Some("2")), Some("limit=10, reset=2".to_string()));
    assert_eq!(rate_limit_text(None, None, None), None);
}

#[test]
fn health_probes() {
    assert!(success_status(200));
    assert!(success_status(299));
    assert!(!success_status(300));
    assert!(!success_status(0));

    let p = probe_rejected(503, 12);
    assert!(!p.ok);
    assert_eq!(p.status, 503);
    assert_eq!(p.market_count, 0);
    assert_eq!(p.latency_ms, 12);
    assert_eq!(p.detail, "HTTP 503");

    let p = probe_parsed(200, 1, 80);
    assert!(p.ok);
    assert_eq!(p.market_count, 1);
    assert_eq!(p.detail, "HTTP 200，解析 1 个市场");

    let p = probe_failed(0, 15000, "请求失败: ", "timeout");
    assert!(!p.ok);
    assert_eq!(p.status, 0);
    assert_eq!(p.detail, "请求失败: timeout");
}

#[test]
fn merge_sorts_batch_by_offset_first() {
    // Pages arrive out of order; the terminal 422 page at offset 200 stops
    // the merge after offsets 0 and 100, whatever the arrival order.
    let mut pages = vec![page(300, true, 200, 9), page(200, true, 422, 0), page(0, true, 200, 100), page(100, true, 200, 40)];
    assert_eq!(merge_batch(&mut pages), BatchMerge { merged: 2, accounted: 3, stop: true });
    let offsets: Vec<usize> = pages.iter().map(|p| p.offset).collect();
    assert_eq!(offsets, vec![0, 100, 200, 300]);
}

#[test]
fn to_unified_binary_market() {
    // The identifier and status parts of the conversion (prices are
    // floating point and parsed outside the library).
    let id = unified_market_id(Some("0xcond".to_string()), Some("42".to_string()), Some("问题A".to_string()));
    assert_eq!(id, "0xcond");
    let status = status_of(false, true);
    assert_eq!(status, MarketStatus::Active);
    assert!(status.active());
    assert!(!status.closed());
}
