use pm_sim::portfolio::{
    daily_loss_verdict, open_position_verdict, state_changed, submit_order_verdict, OrderStatus,
    PositionStatus, RiskRejection, StateHash,
};

/// The limits the risk manager of these tests enforces.
const MAX_POSITIONS: usize = 2;
const MAX_POSITION_SIZE: f64 = 100.0;
const MAX_OPEN_ORDERS: usize = 3;
const MAX_DAILY_LOSS: f64 = 500.0;

fn price_valid(p: f64) -> bool {
    p.is_finite() && p > 0.0
}

fn cash_covers(available: f64, needed: f64) -> bool {
    !(available + f64::EPSILON < needed)
}

fn loss_exceeded(daily_pnl: f64) -> bool {
    -daily_pnl > MAX_DAILY_LOSS
}

fn check_open(price: f64, cash: f64, open: usize, daily_pnl: f64) -> Result<(), RiskRejection> {
    open_position_verdict(
        price_valid(price),
        open,
        MAX_POSITIONS,
        cash_covers(cash, MAX_POSITION_SIZE),
        loss_exceeded(daily_pnl),
    )
}

fn check_submit(price: f64, notional: f64, cash: f64, pending: usize) -> Result<(), RiskRejection> {
    submit_order_verdict(price_valid(price), pending, MAX_OPEN_ORDERS, cash_covers(cash, notional), loss_exceeded(0.0))
}

#[test]
fn open_position_blocks() {
    assert_eq!(check_open(0.0, 10000.0, 0, 0.0), Err(RiskRejection::InvalidPrice));
    assert_eq!(check_open(f64::NAN, 10000.0, 0, 0.0), Err(RiskRejection::InvalidPrice));
    assert_eq!(check_open(0.5, 10000.0, 2, 0.0), Err(RiskRejection::MaxPositions));
    assert_eq!(check_open(0.5, 50.0, 0, 0.0), Err(RiskRejection::InsufficientCash));
    assert!(check_open(0.5, 10000.0, 0, 0.0).is_ok());
}

#[test]
fn submit_order_blocks() {
    assert_eq!(check_submit(0.5, 100.0, 10000.0, 3), Err(RiskRejection::MaxOpenOrders));
    assert_eq!(check_submit(0.5, 100.0, 50.0, 0), Err(RiskRejection::InsufficientCash));
    assert!(check_submit(0.5, 100.0, 10000.0, 0).is_ok());
    assert_eq!(check_submit(-1.0, 100.0, 10000.0, 0), Err(RiskRejection::InvalidPrice));
}

#[test]
fn daily_loss_blocks_after_threshold() {
    assert!(check_open(0.5, 10000.0, 0, 0.0).is_ok());
    assert_eq!(check_open(0.5, 10000.0, 0, -600.0), Err(RiskRejection::MaxDailyLoss));
    assert!(check_open(0.5, 10000.0, 0, 0.0).is_ok());
}

#[test]
fn daily_loss_partial_recovery() {
    assert!(daily_loss_verdict(loss_exceeded(-400.0)).is_ok());
    assert!(daily_loss_verdict(loss_exceeded(-400.0 + 200.0)).is_ok());
    assert_eq!(
        daily_loss_verdict(loss_exceeded(-400.0 + 200.0 - 400.0)),
        Err(RiskRejection::MaxDailyLoss)
    );
}

#[test]
fn verdict_order_follows_checks() {
    assert_eq!(open_position_verdict(false, 5, 2, false, true), Err(RiskRejection::InvalidPrice));
    assert_eq!(open_position_verdict(true, 5, 2, false, true), Err(RiskRejection::MaxPositions));
    assert_eq!(open_position_verdict(true, 0, 2, false, true), Err(RiskRejection::InsufficientCash));
    assert_eq!(open_position_verdict(true, 0, 2, true, true), Err(RiskRejection::MaxDailyLoss));
    assert_eq!(submit_order_verdict(true, 3, 3, true, false), Err(RiskRejection::MaxOpenOrders));
    assert_eq!(submit_order_verdict(true, 2, 3, true, true), Err(RiskRejection::MaxDailyLoss));
}

#[test]
fn status_and_rejection_texts() {
    assert_eq!(OrderStatus::Pending.as_str(), "Pending");
    assert_eq!(OrderStatus::Filled.as_str(), "Filled");
    assert_eq!(OrderStatus::Cancelled.as_str(), "Cancelled");
    assert_eq!(PositionStatus::Open.as_str(), "Open");
    assert_eq!(PositionStatus::Closed.as_str(), "Closed");
    assert_eq!(RiskRejection::MaxPositions.as_str(), "Max Positions Reached");
    assert_eq!(RiskRejection::MaxOpenOrders.as_str(), "Max Open Orders Reached");
    assert_eq!(RiskRejection::InsufficientCash.as_str(), "Insufficient Cash");
    assert_eq!(RiskRejection::MaxDailyLoss.as_str(), "Max Daily Loss Reached");
    assert_eq!(RiskRejection::InvalidPrice.as_str(), "Invalid Price");
}

#[test]
fn state_changes_detected() {
    let h = StateHash { cash: 10_000_000_000, total_value: 10_000_000_000, total_pnl: 0, locked_cash: 0, open_count: 0, closed_count: 0 };
    assert!(state_changed(&None, &h));
    assert!(!state_changed(&Some(h), &h));
    let moved = StateHash { open_count: 1, ..h };
    assert!(state_changed(&Some(h), &moved));
}
