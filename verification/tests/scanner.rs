use pm_sim::scanner::datasource::HealthProbe;
use pm_sim::scanner::diagnosis::{api_ok, diagnose_round, json_ok, Diagnosis};
use pm_sim::scanner::health::{
    assemble_health_report, check_api, check_clock, check_json, check_memory, CheckResult,
    CheckStatus, HealthReport,
};
use pm_sim::scanner::market::{pick_random_sample_positions, tally_markets, MarketFacts, RoundTally};
use pm_sim::scanner::pipeline::{build_round_module_stats, ModuleStats, RoundEventCounts, Stopwatch};
use pm_sim::scanner::stats::{FetchStats, PageStats, RejectionReason, ScannerStats};

/// The facts the screening reads of a market with the given prices, status
/// and outcome count, screened against `threshold`.
fn facts_with(
    question: &str,
    yes: Option<f64>,
    no: Option<f64>,
    outcome_count: usize,
    active: bool,
    closed: bool,
    threshold: f64,
) -> MarketFacts {
    let pair = match (yes, no) {
        (Some(y), Some(n)) if outcome_count == 2 => Some((y, n)),
        _ => None,
    };
    let sum = pair.map(|(y, n)| y + n);
    MarketFacts {
        market_id: question.to_string(),
        question: question.to_string(),
        active: active || closed,
        closed,
        yes_present: yes.is_some(),
        no_present: no.is_some(),
        binary_prices: pair.is_some(),
        outcome_count,
        sum_invalid: sum.map(|s| !s.is_finite() || s <= 0.0).unwrap_or(false),
        below_threshold: sum.map(|s| s < threshold).unwrap_or(false),
        yes_in_range: yes.map(|p| (0.0..=1.0).contains(&p)).unwrap_or(true),
        no_in_range: no.map(|p| (0.0..=1.0).contains(&p)).unwrap_or(true),
        volume_negative: false,
        liquidity_negative: false,
        has_liquidity: false,
    }
}

fn market(question: &str, yes: f64, no: f64, active: bool, closed: bool) -> MarketFacts {
    facts_with(question, Some(yes), Some(no), 2, active, closed, 0.99)
}

fn market_no_price(question: &str, active: bool, closed: bool) -> MarketFacts {
    facts_with(question, None, None, 0, active, closed, 0.99)
}

fn empty_tally() -> RoundTally {
    RoundTally {
        received: 0,
        parsed: 0,
        active: 0,
        closed: 0,
        with_prices: 0,
        missing_prices: 0,
        passed_validation: 0,
        passed_strategy: 0,
        filtered_closed: 0,
        filtered_inactive: 0,
        filtered_missing_price: 0,
        filtered_invalid_data: 0,
        filtered_strategy: 0,
        price_available: 0,
        yes_missing: 0,
        no_missing: 0,
        invalid_sum: 0,
        rejections: Vec::new(),
        opportunities: Vec::new(),
    }
}

fn check(name: &str, status: CheckStatus) -> CheckResult {
    CheckResult { name: name.to_string(), status, detail: String::new() }
}

fn probe(ok: bool, status: u16, market_count: usize, latency_ms: u128, detail: &str) -> HealthProbe {
    HealthProbe { ok, status, market_count, latency_ms, detail: detail.to_string() }
}

fn stats(name: &str, duration_ms: u128, input: u64, output: u64) -> ModuleStats {
    ModuleStats {
        name: name.to_string(),
        duration_ms,
        input_count: input,
        output_count: output,
        success: true,
        error_count: 0,
        warning_count: 0,
    }
}

#[test]
fn all_pass_true_when_no_fail() {
    let r = HealthReport { checks: vec![check("a", CheckStatus::Pass), check("b", CheckStatus::Warn)] };
    assert!(r.all_pass());
}

#[test]
fn all_pass_false_when_fail() {
    let r = HealthReport { checks: vec![check("a", CheckStatus::Fail)] };
    assert!(!r.all_pass());
}

#[test]
fn all_pass_agrees_with_fail_count() {
    let passing = HealthReport { checks: vec![check("a", CheckStatus::Pass), check("b", CheckStatus::Warn)] };
    assert_eq!(passing.fail_count(), 0);
    let failing = HealthReport {
        checks: vec![
            check("a", CheckStatus::Fail),
            check("b", CheckStatus::Pass),
            check("c", CheckStatus::Fail),
        ],
    };
    assert_eq!(failing.fail_count(), 2);
    assert!(!failing.all_pass());
    assert!(HealthReport::default().all_pass());
    assert_eq!(HealthReport::default().fail_count(), 0);
}

#[test]
fn check_status_labels() {
    assert_eq!(CheckStatus::Pass.emoji(), "🟢");
    assert_eq!(CheckStatus::Warn.emoji(), "🟡");
    assert_eq!(CheckStatus::Fail.emoji(), "🔴");
    assert_eq!(CheckStatus::Pass.zh(), "正常");
    assert_eq!(CheckStatus::Warn.zh(), "警告");
    assert_eq!(CheckStatus::Fail.zh(), "失败");
}

#[test]
fn api_check_reports_status_and_latency() {
    let (s, d) = check_api(&probe(true, 200, 10, 125, ""));
    assert_eq!(s, CheckStatus::Pass);
    assert_eq!(d, "HTTP 200（125 毫秒）");
    let (s, d) = check_api(&probe(false, 503, 0, 40, "x"));
    assert_eq!(s, CheckStatus::Fail);
    assert_eq!(d, "HTTP 503");
    let (s, d) = check_api(&probe(false, 0, 0, 0, "探测失败: 连接超时"));
    assert_eq!(s, CheckStatus::Fail);
    assert_eq!(d, "探测失败: 连接超时");
    let (s, _) = check_api(&probe(true, 299, 1, 1, ""));
    assert_eq!(s, CheckStatus::Pass);
    let (s, d) = check_api(&probe(true, 300, 1, 1, ""));
    assert_eq!(s, CheckStatus::Fail);
    assert_eq!(d, "HTTP 300");
}

#[test]
fn json_check_needs_http_success_and_parse() {
    let (s, d) = check_json(&probe(true, 200, 42, 10, ""));
    assert_eq!(s, CheckStatus::Pass);
    assert_eq!(d, "解析 42 个市场");
    let (s, d) = check_json(&probe(false, 200, 0, 10, ""));
    assert_eq!(s, CheckStatus::Fail);
    assert_eq!(d, "JSON 解析失败");
    let (s, d) = check_json(&probe(true, 500, 42, 10, ""));
    assert_eq!(s, CheckStatus::Fail);
    assert_eq!(d, "API 不可用，无法校验 JSON");
}

#[test]
fn memory_check_thresholds() {
    let (s, d) = check_memory(Some(63));
    assert_eq!(s, CheckStatus::Fail);
    assert_eq!(d, "可用物理内存过低: 63 MB（< 64 MB）");
    let (s, d) = check_memory(Some(64));
    assert_eq!(s, CheckStatus::Pass);
    assert_eq!(d, "可用物理内存: 64 MB");
    let (s, d) = check_memory(None);
    assert_eq!(s, CheckStatus::Warn);
    assert_eq!(d, "当前平台不支持内存检查，已跳过");
}

#[test]
fn clock_check_year_range() {
    let (s, d) = check_clock(2025, "2025-03-01 10:00:00");
    assert_eq!(s, CheckStatus::Pass);
    assert_eq!(d, "系统时间: 2025-03-01 10:00:00");
    let (s, d) = check_clock(2019, "2019-12-31 23:59:59");
    assert_eq!(s, CheckStatus::Fail);
    assert_eq!(d, "系统时钟异常: 2019-12-31 23:59:59（期望 2020..=2100）");
    assert_eq!(check_clock(2020, "t").0, CheckStatus::Pass);
    assert_eq!(check_clock(2100, "t").0, CheckStatus::Pass);
    assert_eq!(check_clock(2101, "t").0, CheckStatus::Fail);
}

#[test]
fn health_report_order_and_shared_probe() {
    let p = probe(false, 200, 0, 7, "");
    let r = assemble_health_report(
        (CheckStatus::Pass, "c".to_string()),
        (CheckStatus::Pass, "全部 CSV 就绪".to_string()),
        (CheckStatus::Pass, "s".to_string()),
        (CheckStatus::Pass, "t".to_string()),
        (CheckStatus::Warn, "m".to_string()),
        &p,
    );
    let names: Vec<&str> = r.checks.iter().map(|c| c.name.as_str()).collect();
    assert_eq!(names, vec!["配置", "CSV", "存储", "时钟", "内存", "API", "JSON"]);
    assert_eq!(r.checks[5].status, CheckStatus::Pass);
    assert_eq!(r.checks[5].detail, "HTTP 200（7 毫秒）");
    assert_eq!(r.checks[6].status, CheckStatus::Fail);
    assert_eq!(r.checks[6].detail, "JSON 解析失败");
    assert!(!r.all_pass());
    assert_eq!(r.fail_count(), 1);
}

#[test]
fn health_report_push_appends() {
    let mut r = HealthReport::default();
    r.push("配置", CheckStatus::Pass, "ok".to_string());
    r.push("内存", CheckStatus::Fail, "low".to_string());
    assert_eq!(r.checks.len(), 2);
    assert_eq!(r.checks[1].name, "内存");
    assert_eq!(r.checks[1].status, CheckStatus::Fail);
    assert_eq!(r.checks[1].detail, "low");
}

#[test]
fn module_stats_total_duration_sums() {
    let list = vec![stats("HTTP", 236, 0, 100), stats("策略", 2, 15, 0)];
    assert_eq!(ModuleStats::total_duration_ms(&list), 238);
}

#[test]
fn module_stats_new_is_blank() {
    let m = ModuleStats::new("存储");
    assert_eq!(m.name, "存储");
    assert_eq!(m.duration_ms, 0);
    assert_eq!(m.input_count, 0);
    assert_eq!(m.output_count, 0);
    assert!(m.success);
    assert_eq!(m.error_count, 0);
    assert_eq!(m.warning_count, 0);
    assert_eq!(ModuleStats::total_duration_ms(&[]), 0);
}

#[test]
fn stopwatch_finish_records_fields() {
    let sw = Stopwatch::new("测试");
    let ms = sw.finish(5, 3, true);
    assert_eq!(ms.name, "测试");
    assert_eq!(ms.input_count, 5);
    assert_eq!(ms.output_count, 3);
    assert!(ms.success);
    assert_eq!(ms.error_count, 0);
    let failed = Stopwatch::new("x").finish(1, 0, false);
    assert_eq!(failed.error_count, 1);
    assert_eq!(failed.warning_count, 0);
}

#[test]
fn stopwatch_finish_full_carries_errors() {
    let sw = Stopwatch::new("失败模块");
    let ms = sw.finish_full(10, 0, false, 3, 2);
    assert!(!ms.success);
    assert_eq!(ms.error_count, 3);
    assert_eq!(ms.warning_count, 2);
}

#[test]
fn stopwatch_elapsed_ms_does_not_consume() {
    let sw = Stopwatch::new("多次读");
    let _ = sw.elapsed_ms();
    let _ = sw.elapsed_ms();
    let ms = sw.finish(0, 0, true);
    assert_eq!(ms.input_count, 0);
}

#[test]
fn round_module_stats_rows() {
    let fetch = FetchStats {
        request_count: 2,
        success_count: 1,
        failed_count: 1,
        total_bytes: 2048,
        total_ms: 300,
        deserialize_ms: 12,
        ..Default::default()
    };
    let counts = RoundEventCounts {
        markets: 100,
        snapshots: 4,
        shadow_opened: 1,
        paper_opens: 2,
        paper_rejections: 3,
        exec_new_orders: 1,
        exec_events: 5,
    };
    let rows = build_round_module_stats(&fetch, 7, 9, 11, 13, &counts);
    let names: Vec<&str> = rows.iter().map(|m| m.name.as_str()).collect();
    assert_eq!(
        names,
        vec!["HTTP 请求", "JSON 解析", "市场归一化", "跟踪器", "策略调度", "影子交易", "纸面交易", "执行模拟", "指标", "存储"]
    );
    assert_eq!(rows[0].duration_ms, 300);
    assert_eq!(rows[0].output_count, 100);
    assert!(!rows[0].success);
    assert_eq!(rows[0].error_count, 1);
    assert_eq!(rows[1].input_count, 2048);
    assert_eq!(rows[1].duration_ms, 12);
    assert_eq!(rows[2].output_count, 4);
    assert_eq!(rows[4].duration_ms, 9);
    assert_eq!(rows[4].output_count, 4);
    assert_eq!(rows[6].warning_count, 3);
    assert_eq!(rows[8].input_count, 5);
    assert_eq!(rows[8].output_count, 1);
    assert_eq!(rows[9].duration_ms, 11);
    assert_eq!(ModuleStats::total_duration_ms(&rows), 300 + 12 + 7 + 9 + 13 + 11);
}

#[test]
fn rejection_reason_strings() {
    assert_eq!(RejectionReason::Closed.as_str(), "已关闭");
    assert_eq!(RejectionReason::Inactive.as_str(), "不活跃");
    assert_eq!(RejectionReason::MissingPrice.as_str(), "缺价");
    assert_eq!(RejectionReason::InvalidData.as_str(), "数据无效");
    assert_eq!(RejectionReason::SumAboveThreshold.as_str(), "YES+NO >= 阈值");
}

#[test]
fn scanner_stats_accumulates() {
    let mut s = ScannerStats::new();
    let fetch = FetchStats { request_count: 21, success_count: 21, ..Default::default() };
    s.add_fetch(&fetch);
    let mut a = empty_tally();
    a.received = 100;
    a.parsed = 100;
    a.active = 90;
    a.missing_prices = 5;
    a.filtered_strategy = 80;
    a.opportunities = vec![0];
    s.add_round(&a);
    s.record_round();
    assert_eq!(s.request_count, 21);
    assert_eq!(s.success_count, 21);
    assert_eq!(s.market_count, 100);
    assert_eq!(s.active_count, 90);
    assert_eq!(s.missing_price_count, 5);
    assert_eq!(s.strategy_rejected_count, 80);
    assert_eq!(s.opportunity_count, 1);
    assert_eq!(s.round_count, 1);
}

#[test]
fn fetch_and_page_defaults_are_empty() {
    let f = FetchStats::default();
    assert_eq!(f.request_count, 0);
    assert!(f.pages.is_empty());
    assert!(f.last_error.is_none());
    let p = PageStats::default();
    assert_eq!(p.status, 0);
    assert!(!p.ok);
    assert!(p.url.is_empty());
    assert_eq!(ScannerStats::default().round_count, 0);
}

#[test]
fn opportunities_filtered_by_threshold_and_binary() {
    let markets = vec![
        market("Low", 0.40, 0.55, true, false),
        market("Normal", 0.43, 0.57, true, false),
        market("Closed", 0.30, 0.40, true, true),
        market("Inactive", 0.30, 0.40, false, false),
    ];
    let t = tally_markets(&markets, false);
    assert_eq!(t.opportunities.len(), 1);
    assert_eq!(markets[t.opportunities[0]].question, "Low");
}

#[test]
fn find_opportunities_empty_when_all_normalized() {
    let markets = vec![market("X", 0.43, 0.57, true, false)];
    assert!(tally_markets(&markets, false).opportunities.is_empty());
}

#[test]
fn analyze_matches_find_opportunities() {
    let markets = vec![
        market("Low", 0.40, 0.55, true, false),
        market("Normal", 0.43, 0.57, true, false),
        market("Closed", 0.30, 0.40, true, true),
        market("Inactive", 0.30, 0.40, false, false),
        market_no_price("NoPrice", true, false),
    ];
    let a = tally_markets(&markets, true);
    let f = tally_markets(&markets, false);
    assert_eq!(a.opportunities.len(), f.opportunities.len());
    assert_eq!(markets[a.opportunities[0]].question, markets[f.opportunities[0]].question);
    assert_eq!(a.opportunities.len(), 1);
    assert_eq!(a.passed_strategy, 1);
}

#[test]
fn analyze_counts_all_stages() {
    let markets = vec![
        market("Opp", 0.40, 0.55, true, false),
        market("Strat", 0.43, 0.57, true, false),
        market("Closed", 0.30, 0.40, true, true),
        market("Inactive", 0.30, 0.40, false, false),
        market_no_price("NoPrice", true, false),
    ];
    let a = tally_markets(&markets, true);
    assert_eq!(a.received, 5);
    assert_eq!(a.parsed, 5);
    assert_eq!(a.active, 4);
    assert_eq!(a.closed, 1);
    assert_eq!(a.with_prices, 4);
    assert_eq!(a.missing_prices, 1);
    assert_eq!(a.passed_validation, 2);
    assert_eq!(a.passed_strategy, 1);
    assert_eq!(a.filtered_closed, 1);
    assert_eq!(a.filtered_inactive, 1);
    assert_eq!(a.filtered_missing_price, 1);
    assert_eq!(a.filtered_invalid_data, 0);
    assert_eq!(a.filtered_strategy, 1);
    assert_eq!(a.opportunities.len(), 1);
    assert_eq!(a.price_available, 4);
    assert_eq!(a.yes_missing, 1);
    assert_eq!(a.no_missing, 1);
}

#[test]
fn analyze_rejections_carry_question_and_reason() {
    let markets = vec![
        market("Closed", 0.30, 0.40, true, true),
        market_no_price("NoPrice", true, false),
        market("Strat", 0.43, 0.57, true, false),
    ];
    let a = tally_markets(&markets, true);
    assert_eq!(a.rejections.len(), 3);
    for r in &a.rejections {
        assert!(!r.question.is_empty());
        assert!(!r.reason.as_str().is_empty());
    }
    let reasons: Vec<&str> = a.rejections.iter().map(|r| r.reason.as_str()).collect();
    assert!(reasons.contains(&"已关闭"));
    assert!(reasons.contains(&"缺价"));
    assert!(reasons.contains(&"YES+NO >= 阈值"));
}

#[test]
fn tally_without_detail_collects_no_rejections() {
    let markets = vec![market("Closed", 0.30, 0.40, true, true), market("Opp", 0.1, 0.2, true, false)];
    let t = tally_markets(&markets, false);
    assert!(t.rejections.is_empty());
    assert_eq!(t.filtered_closed, 1);
    assert_eq!(t.opportunities, vec![1]);
}

#[test]
fn tally_classes_partition_the_round() {
    let markets = vec![
        market("Opp", 0.40, 0.55, true, false),
        market("Strat", 0.43, 0.57, true, false),
        market("Closed", 0.30, 0.40, true, true),
        market("Inactive", 0.30, 0.40, false, false),
        market_no_price("NoPrice", true, false),
        facts_with("Multi", None, None, 3, true, false, 0.99),
        facts_with("Bad", Some(-0.5), Some(0.2), 2, true, false, 0.99),
    ];
    let t = tally_markets(&markets, true);
    assert_eq!(t.filtered_invalid_data, 1);
    assert_eq!(t.invalid_sum, 1);
    assert_eq!(
        t.filtered_closed + t.filtered_inactive + t.filtered_missing_price + t.filtered_invalid_data
            + t.filtered_strategy + t.passed_strategy,
        t.received
    );
    assert_eq!(t.passed_validation, t.passed_strategy + t.filtered_strategy);
    assert_eq!(t.with_prices + t.missing_prices, t.received);
    assert_eq!(t.opportunities, vec![0, 6]);
    assert_eq!(t.rejections.len(), 5);
    assert_eq!(t.rejections[4].question, "Multi");
    assert_eq!(t.rejections[4].reason, RejectionReason::InvalidData);
}

#[test]
fn analyze_samples_random_three() {
    let names = ["Q1", "Q2", "Q3", "Q4"];
    let picked = pick_random_sample_positions(names.len(), 3);
    assert_eq!(picked.len(), 3);
    let chosen: Vec<&str> = picked.iter().map(|&i| names[i]).collect();
    for n in &chosen {
        assert!(names.contains(n), "未知样本: {}", n);
    }
    let mut sorted = chosen.clone();
    sorted.sort();
    sorted.dedup();
    assert_eq!(sorted.len(), 3, "样本存在重复: {:?}", chosen);
}

#[test]
fn analyze_samples_fewer_than_k() {
    let names = ["Only"];
    let picked = pick_random_sample_positions(names.len(), 3);
    assert_eq!(picked.len(), 1);
    assert_eq!(names[picked[0]], "Only");
}

#[test]
fn analyze_empty_markets() {
    let a = tally_markets(&Vec::new(), true);
    assert_eq!(a.received, 0);
    assert_eq!(a.opportunities.len(), 0);
    assert!(a.rejections.is_empty());
    assert!(pick_random_sample_positions(0, 3).is_empty());
    assert!(pick_random_sample_positions(5, 0).is_empty());
}

#[test]
fn module_marks() {
    let mut m = stats("x", 1, 0, 0);
    assert_eq!(m.table_mark(), "🟢");
    assert_eq!(m.timeline_mark(), "🟢");
    m.warning_count = 1;
    assert_eq!(m.table_mark(), "🟡");
    assert_eq!(m.timeline_mark(), "🟢");
    m.success = false;
    assert_eq!(m.table_mark(), "🔴");
    assert_eq!(m.timeline_mark(), "🔴");
}

#[test]
fn basic_round_counts_markets_and_opportunities() {
    let mut s = ScannerStats::new();
    s.add_basic_round(40, 3);
    s.add_basic_round(10, 0);
    assert_eq!(s.market_count, 50);
    assert_eq!(s.parsed_count, 50);
    assert_eq!(s.opportunity_count, 3);
    assert_eq!(s.active_count, 0);
    assert_eq!(s.round_count, 0);
}

#[test]
fn diagnosis_follows_the_data_chain() {
    let ok = FetchStats { request_count: 3, success_count: 3, ..Default::default() };
    assert!(api_ok(&ok));
    assert!(json_ok(&ok));
    assert_eq!(diagnose_round(&ok, 100, 0), Diagnosis::NoOpportunity);
    assert_eq!(diagnose_round(&ok, 100, 2), Diagnosis::OpportunitiesFound);
    assert_eq!(diagnose_round(&ok, 0, 0), Diagnosis::NoMarkets);
    let failed = FetchStats { request_count: 3, success_count: 2, failed_count: 1, ..Default::default() };
    assert!(!api_ok(&failed));
    assert!(!json_ok(&failed));
    assert_eq!(diagnose_round(&failed, 100, 2), Diagnosis::ApiFault);
    let silent = FetchStats::default();
    assert!(!api_ok(&silent));
    assert!(json_ok(&silent));
    assert_eq!(diagnose_round(&silent, 0, 0), Diagnosis::ApiFault);
}

#[test]
fn samples_are_shuffled() {
    let mut saw_other_order = false;
    for _ in 0..50 {
        let picked = pick_random_sample_positions(10, 3);
        assert_eq!(picked.len(), 3);
        if picked != vec![0, 1, 2] {
            saw_other_order = true;
        }
    }
    assert!(saw_other_order);
}

#[test]
fn stopwatch_finish_records_duration() {
    let sw = Stopwatch::new("测试");
    let start = std::time::Instant::now();
    while start.elapsed().as_millis() < 2 {}
    let ms = sw.finish(5, 3, true);
    assert_eq!(ms.name, "测试");
    assert_eq!(ms.input_count, 5);
    assert_eq!(ms.output_count, 3);
    assert!(ms.success);
    assert!(ms.duration_ms >= 1, "duration should be >= 1ms, got {}", ms.duration_ms);
    assert_eq!(ms.error_count, 0);
}
