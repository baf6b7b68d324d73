use pm_sim::risk::book::RiskBook;
use pm_sim::risk::engine::RiskDecision;
use pm_sim::risk::events::RiskEventKind;
use pm_sim::scanner::pipeline::{build_engine_pass_module_stats, EnginePassCounts};
use pm_sim::settlement::flow::{
    begin_settlement_with_bus, settlement_step_with_bus, SettlementAction, SettlementInput, SettlementPhase,
};
use pm_sim::settlement::types::SettlementStatus;
use pm_sim::settlement::validator::{SettlementValidator, ValidationResult};

fn run_on_bus(is_buy: bool, bus: bool, inputs: &[SettlementInput]) -> (SettlementPhase, Vec<SettlementAction>) {
    let (mut phase, mut actions) = begin_settlement_with_bus(is_buy, bus);
    for i in inputs {
        let (next, more) = settlement_step_with_bus(phase, *i, bus);
        phase = next;
        actions.extend(more);
    }
    (phase, actions)
}

const BUY_OK: [SettlementInput; 5] = [
    SettlementInput::Validation { passed: true },
    SettlementInput::PositionApplied,
    SettlementInput::Freeze { ok: true },
    SettlementInput::BalanceMoved,
    SettlementInput::LedgerWritten { fee_positive: true },
];

#[test]
fn disabled_event_bus_publishes_nothing() {
    let (phase, actions) = run_on_bus(true, false, &BUY_OK);
    assert_eq!(phase, SettlementPhase::Done(SettlementStatus::Success));
    assert!(!actions.iter().any(|a| matches!(a, SettlementAction::Publish(_))));
    assert_eq!(actions[0], SettlementAction::RecordFill);
    assert!(actions.contains(&SettlementAction::RecordSuccess { ledger_entries: 2 }));
    assert_eq!(*actions.last().unwrap(), SettlementAction::Finish(SettlementStatus::Success));
}

#[test]
fn enabled_event_bus_publishes_every_event() {
    let (_, on) = run_on_bus(true, true, &BUY_OK);
    let (_, off) = run_on_bus(true, false, &BUY_OK);
    let published = on.iter().filter(|a| matches!(a, SettlementAction::Publish(_))).count();
    assert_eq!(published, 8);
    assert_eq!(on.len(), off.len() + 8);
}

#[test]
fn disabled_bus_rejected_fill_still_counted() {
    let (phase, actions) = run_on_bus(false, false, &[SettlementInput::Validation { passed: false }]);
    assert_eq!(phase, SettlementPhase::Done(SettlementStatus::ValidationFailed));
    assert_eq!(
        actions,
        vec![
            SettlementAction::RecordFill,
            SettlementAction::RecordFailure { validation: true },
            SettlementAction::Finish(SettlementStatus::ValidationFailed),
        ]
    );
}

fn default_results(price_ok: bool) -> Vec<ValidationResult> {
    vec![
        if price_ok {
            ValidationResult::pass("成交价格合法")
        } else {
            ValidationResult::fail("成交价格合法", "价格必须大于 0")
        },
        ValidationResult::pass("成交数量合法"),
        ValidationResult::pass("成交方向合法"),
        ValidationResult::pass("余额充足"),
        ValidationResult::pass("手续费正确"),
        ValidationResult::pass("持仓状态合法"),
        ValidationResult::pass("结算一致性"),
    ]
}

#[test]
fn disabled_rule_is_not_enforced() {
    let mut v = SettlementValidator::with_default_rules();
    let results = default_results(false);
    let outcome = v.outcome_of(&results);
    assert!(!outcome.all_passed);
    assert_eq!(outcome.results.len(), 7);

    v.set_rule("成交价格合法", false);
    let outcome = v.outcome_of(&results);
    assert!(outcome.all_passed);
    assert_eq!(outcome.results.len(), 6);
    assert!(outcome.results.iter().all(|r| r.rule != "成交价格合法"));

    v.set_rule("成交价格合法", true);
    assert!(!v.outcome_of(&results).all_passed);
}

#[test]
fn rule_count_kept_by_switches() {
    let mut v = SettlementValidator::with_default_rules();
    v.set_rule("余额充足", false);
    v.set_rule("未知规则", false);
    v.set_rule("结算一致性", false);
    v.set_rule("余额充足", true);
    assert_eq!(v.rule_count(), 7);
    assert!(v.is_enabled("余额充足"));
    assert!(!v.is_enabled("结算一致性"));
}

#[test]
fn book_records_an_evaluation() {
    let mut book: RiskBook<String> = RiskBook::new();
    book.record_outcome(
        RiskDecision::Reject,
        vec![(RiskEventKind::RiskReject, "a".to_string()), (RiskEventKind::RiskReject, "b".to_string())],
        "review".to_string(),
    );
    book.record_outcome(
        RiskDecision::Review,
        vec![(RiskEventKind::LiquidityWarning, "c".to_string())],
        "需审核：x".to_string(),
    );
    book.record_outcome(RiskDecision::Accept, Vec::new(), "unused".to_string());
    assert_eq!(book.stats.total_evaluations, 3);
    assert_eq!(book.stats.accepted, 1);
    assert_eq!(book.stats.reviewed, 1);
    assert_eq!(book.stats.rejected, 1);
    assert_eq!(book.stats.total_events, 3);
    assert_eq!(book.total_rejections, 1);
    assert_eq!(book.collector.total(), 4);
    assert_eq!(book.collector.count(RiskEventKind::RiskReject), 2);
    assert_eq!(book.collector.count(RiskEventKind::LiquidityWarning), 1);
    assert_eq!(book.collector.count(RiskEventKind::RiskReview), 1);
    assert_eq!(book.collector.events(), &["a", "b", "c", "需审核：x"]);

    book.reset_daily();
    assert_eq!(book.collector.total(), 0);
    assert_eq!(book.collector.count(RiskEventKind::RiskReject), 0);
    assert_eq!(book.stats.total_evaluations, 3);
    assert_eq!(book.total_rejections, 1);
}

#[test]
fn engine_pass_module_rows() {
    let counts = EnginePassCounts {
        snapshots: 4,
        shadow_opened: 3,
        shadow_closed: 3,
        paper_opens: 2,
        paper_rejections: 1,
        paper_closes: 2,
        exec_new_orders: 2,
        exec_events: 5,
    };
    let rows = build_engine_pass_module_stats(7, 11, 13, &counts);
    assert_eq!(rows.len(), 8);
    let names: Vec<&str> = rows.iter().map(|r| r.name.as_str()).collect();
    assert_eq!(names, vec!["跟踪器", "策略调度", "影子交易", "纸面交易", "执行模拟", "纸面/执行推进", "指标", "存储"]);
    assert_eq!((rows[0].duration_ms, rows[0].input_count, rows[0].output_count), (7, 4, 4));
    assert_eq!((rows[1].duration_ms, rows[1].output_count), (11, 7));
    assert_eq!(rows[3].warning_count, 1);
    assert_eq!((rows[5].duration_ms, rows[5].input_count, rows[5].output_count), (13, 0, 3));
    assert_eq!((rows[6].input_count, rows[6].output_count), (15, 1));
    assert!(rows.iter().all(|r| r.success && r.error_count == 0));
}

#[test]
fn answered_settlement_finishes_within_five_steps() {
    // Answer every piece of work with its success until the machine finishes.
    for is_buy in [true, false] {
        let (mut phase, _) = begin_settlement_with_bus(is_buy, true);
        let mut steps = 0;
        while !matches!(phase, SettlementPhase::Done(_)) {
            let input = match phase {
                SettlementPhase::AwaitValidation { .. } => SettlementInput::Validation { passed: true },
                SettlementPhase::AwaitPosition { .. } => SettlementInput::PositionApplied,
                SettlementPhase::AwaitFreeze => SettlementInput::Freeze { ok: true },
                SettlementPhase::AwaitBalance => SettlementInput::BalanceMoved,
                _ => SettlementInput::LedgerWritten { fee_positive: false },
            };
            phase = settlement_step_with_bus(phase, input, true).0;
            steps += 1;
            assert!(steps <= 5);
        }
        assert_eq!(phase, SettlementPhase::Done(SettlementStatus::Success));
        assert_eq!(steps, if is_buy { 5 } else { 4 });
    }
}
