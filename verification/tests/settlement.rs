use std::path::PathBuf;

use pm_sim::settlement::events::SettlementEventKind;
use pm_sim::settlement::flow::{begin_settlement, settlement_step, SettlementAction, SettlementInput, SettlementPhase};
use pm_sim::settlement::ids::{position_key, sequence_id, SequenceIds};
use pm_sim::settlement::metrics::SettlementCounters;
use pm_sim::settlement::repository::{CsvRepository, RepositoryType};
use pm_sim::settlement::types::{ledger_csv_header, LedgerDirection, SettlementStatus};
use pm_sim::settlement::validator::{PositionFacts, SettlementValidator, ValidationOutcome, ValidationResult};

const ALL_EVENT_KINDS: [SettlementEventKind; 10] = [
    SettlementEventKind::FillReceived,
    SettlementEventKind::ValidationPassed,
    SettlementEventKind::ValidationFailed,
    SettlementEventKind::FeeCalculated,
    SettlementEventKind::PositionUpdated,
    SettlementEventKind::BalanceUpdated,
    SettlementEventKind::PnLUpdated,
    SettlementEventKind::LedgerRecorded,
    SettlementEventKind::SettlementCompleted,
    SettlementEventKind::SettlementFailed,
];

#[test]
fn settlement_status_chinese_names() {
    let all = [
        SettlementStatus::Success,
        SettlementStatus::ValidationFailed,
        SettlementStatus::FeeFailed,
        SettlementStatus::PositionFailed,
        SettlementStatus::BalanceFailed,
        SettlementStatus::LedgerFailed,
    ];
    for s in &all {
        assert!(!s.as_zh().is_empty());
    }
}

#[test]
fn status_success_and_names() {
    assert!(SettlementStatus::Success.is_success());
    assert!(!SettlementStatus::ValidationFailed.is_success());
    assert_eq!(SettlementStatus::Success.as_zh(), "结算成功");
    assert_eq!(SettlementStatus::ValidationFailed.as_zh(), "校验失败");
    assert_eq!(LedgerDirection::Debit.as_zh(), "出账");
    assert_eq!(LedgerDirection::Credit.as_zh(), "入账");
}

#[test]
fn ledger_header_has_twelve_columns() {
    let h = ledger_csv_header();
    assert_eq!(h.len(), 12);
    assert_eq!(h[0], "ledger_id");
    assert_eq!(h[7], "direction");
    assert_eq!(h[11], "timestamp");
}

#[test]
fn validator_has_default_rules() {
    let v = SettlementValidator::with_default_rules();
    assert!(v.rule_count() >= 7);
}

#[test]
fn set_rule_toggles() {
    let mut v = SettlementValidator::with_default_rules();
    v.set_rule("成交价格合法", false);
    assert!(!v.is_enabled("成交价格合法"));
    assert!(v.is_enabled("成交数量合法"));
    assert_eq!(v.rule_count(), 7);
    v.set_rule("成交价格合法", true);
    assert!(v.is_enabled("成交价格合法"));
    v.set_rule("不存在的规则", false);
    assert_eq!(v.rule_count(), 7);
    assert!(!v.is_enabled("不存在的规则"));
    assert_eq!(SettlementValidator::default().rule_count(), 7);
}

#[test]
fn empty_fields_fail_consistency() {
    let v = SettlementValidator::with_default_rules();
    let r = v.validate_consistency("", "OMS-001", "ACCT-MAIN", "mkt-btc");
    let outcome = ValidationOutcome::new(vec![ValidationResult::pass("成交价格合法"), r]);
    assert!(!outcome.all_passed);
    assert!(outcome.summary_zh().contains("TradeId"));
}

#[test]
fn consistency_checks_fields_in_order() {
    let v = SettlementValidator::with_default_rules();
    assert!(v.validate_consistency("T", "O", "A", "M").passed);
    assert_eq!(v.validate_consistency("T", "", "", "M").reason, "OrderId 为空");
    assert_eq!(v.validate_consistency("T", "O", "", "M").reason, "AccountId 为空");
    let r = v.validate_consistency("T", "O", "A", "");
    assert_eq!(r.rule, "结算一致性");
    assert_eq!(r.reason, "MarketId 为空");
}

#[test]
fn outcome_summary_and_reasons() {
    let ok = ValidationOutcome::new(vec![ValidationResult::pass("a"), ValidationResult::pass("b")]);
    assert!(ok.all_passed);
    assert_eq!(ok.summary_zh(), "全部校验通过");
    assert!(ok.failure_reasons().is_empty());
    let bad = ValidationOutcome::new(vec![
        ValidationResult::fail("成交价格合法", "价格非法"),
        ValidationResult::pass("b"),
        ValidationResult::fail("余额充足", "余额不足"),
    ]);
    assert!(!bad.all_passed);
    assert_eq!(bad.failure_reasons(), vec!["[成交价格合法] 价格非法".to_string(), "[余额充足] 余额不足".to_string()]);
    assert_eq!(bad.summary_zh(), "校验失败: [成交价格合法] 价格非法; [余额充足] 余额不足");
}

#[test]
fn event_chinese_names_unique() {
    let mut names: Vec<&str> = ALL_EVENT_KINDS.iter().map(|k| k.event_name_zh()).collect();
    names.sort();
    names.dedup();
    assert_eq!(names.len(), ALL_EVENT_KINDS.len());
    let mut english: Vec<&str> = ALL_EVENT_KINDS.iter().map(|k| k.event_name()).collect();
    english.sort();
    english.dedup();
    assert_eq!(english.len(), ALL_EVENT_KINDS.len());
    assert_eq!(SettlementEventKind::FillReceived.event_name_zh(), "接收成交");
    assert_eq!(SettlementEventKind::SettlementCompleted.event_name(), "SettlementCompleted");
}

#[test]
fn sequence_ids_are_padded_and_unique() {
    assert_eq!(sequence_id("SPOS", "20250101", 1), "SPOS-20250101-000001");
    assert_eq!(sequence_id("LEDGER", "20250101", 1234567), "LEDGER-20250101-1234567");
    let mut ids = SequenceIds::new();
    let id1 = ids.next_id("SPOS", "20250101");
    let id2 = ids.next_id("SPOS", "20250101");
    assert!(id1 != id2);
    assert!(id1.starts_with("SPOS-"));
    assert_eq!(id2, "SPOS-20250101-000002");
}

#[test]
fn position_keys() {
    assert_eq!(position_key("mkt-btc", "Yes"), "mkt-btc|Yes");
    assert_ne!(position_key("mkt-btc", "Yes"), position_key("mkt-btc", "No"));
}

#[test]
fn csv_repository_paths() {
    let repo = CsvRepository::new(PathBuf::from("f.csv"), PathBuf::from("s.csv"), PathBuf::from("l.csv"));
    assert_eq!(repo.fills_csv(), &PathBuf::from("f.csv"));
    assert_eq!(repo.settlements_csv(), &PathBuf::from("s.csv"));
    assert_eq!(repo.ledger_csv(), &PathBuf::from("l.csv"));
    assert_eq!(repo.repo_type(), RepositoryType::Csv);
    assert_eq!(RepositoryType::Memory.as_zh(), "内存");
    assert_eq!(RepositoryType::Csv.as_zh(), "CSV");
    assert_eq!(RepositoryType::Sqlite.as_zh(), "SQLite");
}

#[test]
fn record_fill_increments() {
    let mut m = SettlementCounters::new();
    m.record_fill();
    m.record_fill();
    assert_eq!(m.total_fills, 2);
}

#[test]
fn record_success_updates_counters() {
    let mut m = SettlementCounters::new();
    m.record_success(3, 1500);
    m.record_success(2, 500);
    assert_eq!(m.successful_settlements, 2);
    assert_eq!(m.total_ledger_entries, 5);
    assert_eq!(m.total_elapsed_us, 2000);
    assert_eq!(m.settled(), 2);
}

#[test]
fn failures_counted_with_validation_share() {
    let mut m = SettlementCounters::new();
    m.record_failure(true);
    m.record_failure(false);
    m.record_success(1, 10);
    assert_eq!(m.failed_settlements, 2);
    assert_eq!(m.validation_failures, 1);
    assert!(m.validation_failures <= m.failed_settlements);
    assert_eq!(m.settled(), 3);
}

#[test]
fn counters_wrap_like_atomics() {
    let mut m = SettlementCounters::new();
    m.total_fills = u64::MAX;
    m.record_fill();
    assert_eq!(m.total_fills, 0);
}

fn run(is_buy: bool, inputs: &[SettlementInput]) -> (SettlementPhase, Vec<SettlementAction>) {
    let (mut phase, mut actions) = begin_settlement(is_buy);
    for i in inputs {
        let (next, more) = settlement_step(phase, *i);
        phase = next;
        actions.extend(more);
    }
    (phase, actions)
}

fn published_kinds(actions: &[SettlementAction]) -> Vec<SettlementEventKind> {
    actions
        .iter()
        .filter_map(|a| match a {
            SettlementAction::Publish(k) => Some(*k),
            _ => None,
        })
        .collect()
}

#[test]
fn buy_settlement_completes_with_all_events() {
    let (phase, actions) = run(
        true,
        &[
            SettlementInput::Validation { passed: true },
            SettlementInput::PositionApplied,
            SettlementInput::Freeze { ok: true },
            SettlementInput::BalanceMoved,
            SettlementInput::LedgerWritten { fee_positive: true },
        ],
    );
    assert_eq!(phase, SettlementPhase::Done(SettlementStatus::Success));
    assert_eq!(
        published_kinds(&actions),
        vec![
            SettlementEventKind::FillReceived,
            SettlementEventKind::ValidationPassed,
            SettlementEventKind::FeeCalculated,
            SettlementEventKind::PositionUpdated,
            SettlementEventKind::BalanceUpdated,
            SettlementEventKind::PnLUpdated,
            SettlementEventKind::LedgerRecorded,
            SettlementEventKind::SettlementCompleted,
        ]
    );
    assert!(actions.contains(&SettlementAction::FreezeBalance));
    assert!(actions.contains(&SettlementAction::DebitFill));
    assert!(actions.contains(&SettlementAction::RecordSuccess { ledger_entries: 2 }));
    assert_eq!(actions[0], SettlementAction::RecordFill);
    assert_eq!(*actions.last().unwrap(), SettlementAction::Finish(SettlementStatus::Success));
}

#[test]
fn sell_settlement_credits_and_counts_one_entry() {
    let (phase, actions) = run(
        false,
        &[
            SettlementInput::Validation { passed: true },
            SettlementInput::PositionApplied,
            SettlementInput::BalanceMoved,
            SettlementInput::LedgerWritten { fee_positive: false },
        ],
    );
    assert_eq!(phase, SettlementPhase::Done(SettlementStatus::Success));
    assert!(actions.contains(&SettlementAction::CreditClose));
    assert!(!actions.contains(&SettlementAction::FreezeBalance));
    assert!(actions.contains(&SettlementAction::RecordSuccess { ledger_entries: 1 }));
    assert_eq!(published_kinds(&actions).len(), 8);
}

#[test]
fn validation_failure_stops_the_settlement() {
    let (phase, actions) = run(true, &[SettlementInput::Validation { passed: false }]);
    assert_eq!(phase, SettlementPhase::Done(SettlementStatus::ValidationFailed));
    assert_eq!(
        published_kinds(&actions),
        vec![SettlementEventKind::FillReceived, SettlementEventKind::ValidationFailed]
    );
    assert!(actions.contains(&SettlementAction::RecordFailure { validation: true }));
    assert!(!actions.contains(&SettlementAction::ApplyPosition));
}

#[test]
fn freeze_failure_is_a_balance_failure() {
    let (phase, actions) = run(
        true,
        &[
            SettlementInput::Validation { passed: true },
            SettlementInput::PositionApplied,
            SettlementInput::Freeze { ok: false },
        ],
    );
    assert_eq!(phase, SettlementPhase::Done(SettlementStatus::BalanceFailed));
    assert!(actions.contains(&SettlementAction::RecordFailure { validation: false }));
    assert_eq!(*actions.last().unwrap(), SettlementAction::Finish(SettlementStatus::BalanceFailed));
}

#[test]
fn out_of_order_outcome_changes_nothing() {
    let (next, actions) = settlement_step(SettlementPhase::AwaitLedger, SettlementInput::PositionApplied);
    assert_eq!(next, SettlementPhase::AwaitLedger);
    assert!(actions.is_empty());
    let done = SettlementPhase::Done(SettlementStatus::Success);
    assert_eq!(settlement_step(done, SettlementInput::BalanceMoved).0, done);
}

fn open_position(direction: &str, closed: bool, covers: bool) -> PositionFacts {
    PositionFacts {
        market_id: "mkt-btc".to_string(),
        direction: direction.to_string(),
        is_closed: closed,
        covers_fill: covers,
        quantity_text: "100.00".to_string(),
    }
}

#[test]
fn sell_without_position_fails() {
    let v = SettlementValidator::with_default_rules();
    let r = v.validate_position(true, "mkt-btc", "YES", "100.00", None);
    let outcome = ValidationOutcome::new(vec![r]);
    assert!(!outcome.all_passed);
    assert!(outcome.summary_zh().contains("持仓"));
}

#[test]
fn sell_with_closed_position_fails() {
    let v = SettlementValidator::with_default_rules();
    let pos = open_position("YES", true, true);
    let r = v.validate_position(true, "mkt-btc", "YES", "100.00", Some(&pos));
    assert!(!r.passed);
    assert_eq!(r.reason, "持仓已平仓，不可继续平仓");
}

#[test]
fn inconsistent_direction_fails() {
    let v = SettlementValidator::with_default_rules();
    let pos = open_position("YES", false, true);
    let r = v.validate_position(true, "mkt-btc", "NO", "100.00", Some(&pos));
    assert!(!r.passed);
    assert_eq!(r.reason, "方向不匹配: 持仓 YES vs 成交 NO");
}

#[test]
fn position_rule_cases() {
    let v = SettlementValidator::with_default_rules();
    assert!(v.validate_position(false, "m", "YES", "1.00", None).passed);
    let pos = open_position("YES", false, true);
    let r = v.validate_position(true, "mkt-btc", "YES", "50.00", Some(&pos));
    assert!(r.passed);
    assert_eq!(r.rule, "持仓状态合法");
    let r = v.validate_position(true, "mkt-eth", "YES", "50.00", Some(&pos));
    assert_eq!(r.reason, "市场不匹配: 持仓 mkt-btc vs 成交 mkt-eth");
    let short = open_position("YES", false, false);
    let r = v.validate_position(true, "mkt-btc", "YES", "150.00", Some(&short));
    assert_eq!(r.reason, "持仓数量不足: 需要 150.00, 持有 100.00");
}

#[test]
fn metrics_initial_state() {
    // The counters of fresh metrics; the success rate is a floating-point
    // figure computed outside the library.
    let m = SettlementCounters::new();
    assert_eq!(m.total_fills, 0);
    assert_eq!(m.successful_settlements, 0);
    assert_eq!(m.failed_settlements, 0);
    assert_eq!(m.validation_failures, 0);
}
