use pm_sim::scanner::datasource::cache::MarketDataCache;
use pm_sim::scanner::datasource::manager::{cache_info, cache_ttl_secs, capitalize, choose_provider, yn, ProviderKind};
use pm_sim::scanner::datasource::snapshot::snapshot_due;
use pm_sim::scanner::datasource::validator::ValidationError;
use pm_sim::scanner::datasource::{DataStatistics, MarketSnapshot, Validator};
use pm_sim::scanner::market::MarketFacts;

/// The facts read of an active binary market with the given prices, volume
/// and liquidity.
fn um_full(id: &str, question: &str, yes: Option<f64>, no: Option<f64>, volume: f64, liquidity: f64) -> MarketFacts {
    let outcome_count = if yes.is_some() && no.is_some() { 2 } else { 0 };
    let pair = match (yes, no) {
        (Some(y), Some(n)) => Some(y + n),
        _ => None,
    };
    MarketFacts {
        market_id: id.to_string(),
        question: question.to_string(),
        active: true,
        closed: false,
        yes_present: yes.is_some(),
        no_present: no.is_some(),
        binary_prices: pair.is_some(),
        outcome_count,
        sum_invalid: pair.map(|s| !s.is_finite() || s <= 0.0).unwrap_or(false),
        below_threshold: pair.map(|s| s < 0.99).unwrap_or(false),
        yes_in_range: yes.map(|p| (0.0..=1.0).contains(&p)).unwrap_or(true),
        no_in_range: no.map(|p| (0.0..=1.0).contains(&p)).unwrap_or(true),
        volume_negative: volume < 0.0,
        liquidity_negative: liquidity < 0.0,
        has_liquidity: liquidity > 0.0,
    }
}

fn um(id: &str, question: &str, yes: Option<f64>, no: Option<f64>) -> MarketFacts {
    um_full(id, question, yes, no, 0.0, 0.0)
}

fn ids(list: &[&str]) -> Vec<String> {
    list.iter().map(|s| s.to_string()).collect()
}

#[test]
fn valid_market_passes() {
    assert!(Validator::validate(&um("1", "Q", Some(0.4), Some(0.5))).is_ok());
}

#[test]
fn empty_question_invalid() {
    let err = Validator::validate(&um("1", "  ", Some(0.4), Some(0.5))).unwrap_err();
    assert_eq!(err.field, "question");
    assert_eq!(err.reason, "问题为空");
}

#[test]
fn price_out_of_range_invalid() {
    let err = Validator::validate(&um("1", "Q", Some(1.5), Some(0.5))).unwrap_err();
    assert_eq!(err.field, "yes_price");
    let err = Validator::validate(&um("1", "Q", Some(0.4), Some(-0.1))).unwrap_err();
    assert_eq!(err.field, "no_price");
}

#[test]
fn negative_volume_or_liquidity_invalid() {
    let m = um_full("1", "Q", Some(0.4), Some(0.5), -1.0, 0.0);
    assert_eq!(Validator::validate(&m).unwrap_err().field, "volume");
    let m = um_full("1", "Q", Some(0.4), Some(0.5), 0.0, -5.0);
    assert_eq!(Validator::validate(&m).unwrap_err().field, "liquidity");
}

#[test]
fn missing_prices_are_valid() {
    assert!(Validator::validate(&um("1", "Q", None, None)).is_ok());
}

#[test]
fn validate_many_counts() {
    let markets = vec![
        um("1", "Q1", Some(0.4), Some(0.5)),
        um("2", "", Some(0.4), Some(0.5)),
        um("3", "Q3", Some(2.0), Some(0.5)),
        um("4", "Q4", Some(0.4), Some(0.5)),
    ];
    let r = Validator::validate_many(&markets);
    assert_eq!(r.total, 4);
    assert_eq!(r.valid, 2);
    assert_eq!(r.invalid, 2);
    assert_eq!(r.errors.len(), 2);
    assert!((r.invalid as f64 / r.total as f64 - 0.5).abs() < 1e-9);
    assert_eq!(r.errors[0].0, "2");
    assert_eq!(r.errors[0].1.field, "question");
    assert_eq!(r.errors[1].0, "3");
    assert_eq!(r.errors[1].1.field, "yes_price");
}

#[test]
fn validation_error_new_keeps_fields() {
    let e = ValidationError::new("volume", "成交额为负");
    assert_eq!(e.field, "volume");
    assert_eq!(e.reason, "成交额为负");
}

#[test]
fn counts_price_and_liquidity() {
    let markets = vec![
        um_full("a", "a", Some(0.4), Some(0.5), 0.0, 100.0),
        um_full("b", "b", Some(0.4), Some(0.5), 0.0, 0.0),
        um_full("c", "c", None, None, 0.0, 50.0),
    ];
    let s = DataStatistics::build(&markets, "gamma", 1, 0, "2025-01-01 00:00:00");
    assert_eq!(s.market_count, 3);
    assert_eq!(s.price_count, 2);
    assert_eq!(s.liquidity_count, 2);
    assert_eq!(s.invalid_count, 1);
    assert_eq!(s.cached_count, 0);
    assert_eq!(s.provider, "gamma");
    assert_eq!(s.orderbook_count, 0);
    assert_eq!(s.updated_at, "2025-01-01 00:00:00");
}

#[test]
fn empty_markets_zero_counts() {
    let s = DataStatistics::build(&Vec::new(), "gamma", 0, 0, "t");
    assert_eq!(s.market_count, 0);
    assert_eq!(s.price_count, 0);
}

#[test]
fn hash_stable_regardless_of_order() {
    let a = MarketSnapshot::from_markets(&ids(&["x", "y", "z"]), "gamma", "t");
    let b = MarketSnapshot::from_markets(&ids(&["z", "x", "y"]), "gamma", "t");
    assert_eq!(a.hash, b.hash);
    assert_eq!(a.market_count, 3);
    assert_eq!(a.provider, "gamma");
    assert_eq!(a.timestamp, "t");
}

#[test]
fn hash_changes_when_set_changes() {
    let a = MarketSnapshot::from_markets(&ids(&["x", "y"]), "gamma", "t");
    let b = MarketSnapshot::from_markets(&ids(&["x", "w"]), "gamma", "t");
    assert_ne!(a.hash, b.hash);
}

#[test]
fn hash_depends_on_ids_not_on_split() {
    let a = MarketSnapshot::from_markets(&ids(&["ab", "c"]), "gamma", "t");
    let b = MarketSnapshot::from_markets(&ids(&["a", "bc"]), "gamma", "t");
    assert_ne!(a.hash, b.hash);
    let empty = MarketSnapshot::from_markets(&Vec::new(), "gamma", "t");
    assert_eq!(empty.market_count, 0);
}

#[test]
fn empty_cache_not_fresh() {
    let c: MarketDataCache<String, u32> = MarketDataCache::new(10);
    assert!(!c.is_fresh());
    assert_eq!(c.size(), 0);
    assert!(c.get_fresh().is_none());
    let info = cache_info(&c);
    assert_eq!(info.size, 0);
    assert_eq!(info.ttl_secs, 10);
    assert!(!info.fresh);
}

#[test]
fn set_then_get_fresh() {
    let mut c = MarketDataCache::new(10);
    c.set(vec!["m1".to_string()], 7u32);
    assert!(c.is_fresh());
    assert_eq!(c.size(), 1);
    let (m, s) = c.get_fresh().expect("fresh");
    assert_eq!(m.len(), 1);
    assert_eq!(m[0], "m1");
    assert_eq!(s, 7);
}

#[test]
fn expired_not_fresh() {
    let mut c = MarketDataCache::new(0);
    c.set(vec!["m1".to_string()], 0u32);
    assert!(!c.is_fresh());
    assert!(c.get_fresh().is_none());
    assert_eq!(c.size(), 1);
}

#[test]
fn set_overwrites() {
    let mut c = MarketDataCache::new(10);
    c.set(vec!["m1".to_string()], 1u32);
    c.set(vec!["m2".to_string(), "m3".to_string()], 2u32);
    assert_eq!(c.size(), 2);
    let (m, s) = c.get_fresh().expect("fresh");
    assert_eq!(m.len(), 2);
    assert_eq!(m[1], "m3");
    assert_eq!(s, 2);
    assert_eq!(c.ttl_secs(), 10);
}

#[test]
fn mock_provider_selected() {
    assert_eq!(choose_provider("mock"), Ok(ProviderKind::Mock));
}

#[test]
fn gamma_provider_selected() {
    assert_eq!(choose_provider("gamma"), Ok(ProviderKind::Gamma));
}

#[test]
fn from_config_clob_errors_clearly() {
    let err = choose_provider("clob").err().expect("应返回错误");
    assert!(err.contains("CLOB"));
}

#[test]
fn from_config_unknown_errors_clearly() {
    let err = choose_provider("polygon").err().expect("应返回错误");
    assert!(err.contains("未知数据源"));
    assert_eq!(err, "未知数据源 provider: polygon（支持 gamma / clob / mock）");
}

#[test]
fn cache_ttl_at_least_one_second() {
    assert_eq!(cache_ttl_secs(0), 1);
    assert_eq!(cache_ttl_secs(1), 1);
    assert_eq!(cache_ttl_secs(30), 30);
}

#[test]
fn snapshots_saved_every_tenth_round() {
    assert!(snapshot_due(10));
    assert!(snapshot_due(20));
    assert!(!snapshot_due(11));
    assert!(snapshot_due(0));
    assert!(!snapshot_due(1));
}

#[test]
fn capability_title_and_marks() {
    assert_eq!(capitalize("gamma"), "Gamma");
    assert_eq!(capitalize("mock"), "Mock");
    assert_eq!(capitalize(""), "");
    assert_eq!(capitalize("ßeta"), "SSeta");
    assert_eq!(capitalize("Clob"), "Clob");
    assert_eq!(yn(true), "✅");
    assert_eq!(yn(false), "❌");
}

#[test]
fn freshness_by_age() {
    let mut c: MarketDataCache<String, u32> = MarketDataCache::new(10);
    assert!(!c.is_fresh_at_age(0));
    assert!(c.get_fresh_at_age(0).is_none());
    c.set(vec!["m1".to_string()], 3u32);
    assert!(c.is_fresh_at_age(0));
    assert!(c.is_fresh_at_age(9_999));
    assert!(!c.is_fresh_at_age(10_000));
    let (m, s) = c.get_fresh_at_age(9_999).expect("fresh");
    assert_eq!(m, vec!["m1".to_string()]);
    assert_eq!(s, 3);
    assert!(c.get_fresh_at_age(10_000).is_none());
}
