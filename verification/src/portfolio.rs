//! Paper-trading portfolio: order and position states, the risk manager's
//! rejection reasons and the order in which it applies its checks, and the
//! change detection that decides when a portfolio snapshot must be saved.

use vstd::prelude::*;

verus! {

/// Order state: Pending -> Filled, or Cancelled.
#[derive(Debug, Clone, Copy, PartialEq, Eq, Structural)]
pub enum OrderStatus {
    /// Created, not yet filled (momentary under immediate fills).
    Pending,
    /// Filled (simulated).
    Filled,
    /// Cancelled (e.g. refused by the risk manager).
    Cancelled,
}

/// Text of each order state.
pub open spec fn order_status_text(s: OrderStatus) -> Seq<char> {
    match s {
        OrderStatus::Pending => "Pending"@,
        OrderStatus::Filled => "Filled"@,
        OrderStatus::Cancelled => "Cancelled"@,
    }
}

impl OrderStatus {
    /// Text for CSV output and the console.
    pub fn as_str(&self) -> (s: &'static str)
        ensures
            s@ == order_status_text(*self),
    {
        match self {
            OrderStatus::Pending => "Pending",
            OrderStatus::Filled => "Filled",
            OrderStatus::Cancelled => "Cancelled",
        }
    }
}

/// Position state.
#[derive(Debug, Clone, Copy, PartialEq, Eq, Structural)]
pub enum PositionStatus {
    Open,
    Closed,
}

/// Text of each position state.
pub open spec fn position_status_text(s: PositionStatus) -> Seq<char> {
    match s {
        PositionStatus::Open => "Open"@,
        PositionStatus::Closed => "Closed"@,
    }
}

impl PositionStatus {
    /// Text for CSV output and the console.
    pub fn as_str(&self) -> (s: &'static str)
        ensures
            s@ == position_status_text(*self),
    {
        match self {
            PositionStatus::Open => "Open",
            PositionStatus::Closed => "Closed",
        }
    }
}

/// Why the risk manager refused an order or position.
#[derive(Debug, Clone, Copy, PartialEq, Eq, Structural)]
pub enum RiskRejection {
    /// Maximum number of positions reached.
    MaxPositions,
    /// Maximum number of pending orders reached.
    MaxOpenOrders,
    /// Not enough available cash.
    InsufficientCash,
    /// The day's loss limit was reached.
    MaxDailyLoss,
    /// The price is not positive or not finite.
    InvalidPrice,
}

/// Console text of each rejection.
pub open spec fn rejection_text(r: RiskRejection) -> Seq<char> {
    match r {
        RiskRejection::MaxPositions => "Max Positions Reached"@,
        RiskRejection::MaxOpenOrders => "Max Open Orders Reached"@,
        RiskRejection::InsufficientCash => "Insufficient Cash"@,
        RiskRejection::MaxDailyLoss => "Max Daily Loss Reached"@,
        RiskRejection::InvalidPrice => "Invalid Price"@,
    }
}

impl RiskRejection {
    /// Console text.
    pub fn as_str(&self) -> (s: &'static str)
        ensures
            s@ == rejection_text(*self),
    {
        match self {
            RiskRejection::MaxPositions => "Max Positions Reached",
            RiskRejection::MaxOpenOrders => "Max Open Orders Reached",
            RiskRejection::InsufficientCash => "Insufficient Cash",
            RiskRejection::MaxDailyLoss => "Max Daily Loss Reached",
            RiskRejection::InvalidPrice => "Invalid Price",
        }
    }
}

/// Verdict of the risk check before opening a position: price validity, then the
/// position limit, then cash, then the daily loss limit. The price, cash and
/// loss comparisons come already decided.
pub open spec fn open_position_rule(
    price_valid: bool,
    open_positions: nat,
    max_positions: nat,
    cash_sufficient: bool,
    daily_loss_exceeded: bool,
) -> Result<(), RiskRejection> {
    if !price_valid {
        Err(RiskRejection::InvalidPrice)
    } else if open_positions >= max_positions {
        Err(RiskRejection::MaxPositions)
    } else if !cash_sufficient {
        Err(RiskRejection::InsufficientCash)
    } else if daily_loss_exceeded {
        Err(RiskRejection::MaxDailyLoss)
    } else {
        Ok(())
    }
}

/// Verdict of the risk check before submitting an order: price validity, then the
/// pending-order limit, then cash for the notional, then the daily loss limit.
pub open spec fn submit_order_rule(
    price_valid: bool,
    pending_orders: nat,
    max_open_orders: nat,
    cash_sufficient: bool,
    daily_loss_exceeded: bool,
) -> Result<(), RiskRejection> {
    if !price_valid {
        Err(RiskRejection::InvalidPrice)
    } else if pending_orders >= max_open_orders {
        Err(RiskRejection::MaxOpenOrders)
    } else if !cash_sufficient {
        Err(RiskRejection::InsufficientCash)
    } else if daily_loss_exceeded {
        Err(RiskRejection::MaxDailyLoss)
    } else {
        Ok(())
    }
}

/// The risk manager's verdict on opening a position.
pub fn open_position_verdict(
    price_valid: bool,
    current_open_positions: usize,
    max_positions: usize,
    cash_sufficient: bool,
    daily_loss_exceeded: bool,
) -> (r: Result<(), RiskRejection>)
    ensures
        r == open_position_rule(
            price_valid,
            current_open_positions as nat,
            max_positions as nat,
            cash_sufficient,
            daily_loss_exceeded,
        ),
{
    if !price_valid {
        return Err(RiskRejection::InvalidPrice);
    }
    if current_open_positions >= max_positions {
        return Err(RiskRejection::MaxPositions);
    }
    if !cash_sufficient {
        return Err(RiskRejection::InsufficientCash);
    }
    daily_loss_verdict(daily_loss_exceeded)
}

/// The risk manager's verdict on submitting an order.
pub fn submit_order_verdict(
    price_valid: bool,
    current_pending_orders: usize,
    max_open_orders: usize,
    cash_sufficient: bool,
    daily_loss_exceeded: bool,
) -> (r: Result<(), RiskRejection>)
    ensures
        r == submit_order_rule(
            price_valid,
            current_pending_orders as nat,
            max_open_orders as nat,
            cash_sufficient,
            daily_loss_exceeded,
        ),
{
    if !price_valid {
        return Err(RiskRejection::InvalidPrice);
    }
    if current_pending_orders >= max_open_orders {
        return Err(RiskRejection::MaxOpenOrders);
    }
    if !cash_sufficient {
        return Err(RiskRejection::InsufficientCash);
    }
    daily_loss_verdict(daily_loss_exceeded)
}

/// The daily-loss check alone.
pub fn daily_loss_verdict(daily_loss_exceeded: bool) -> (r: Result<(), RiskRejection>)
    ensures
        r == if daily_loss_exceeded {
            Err::<(), RiskRejection>(RiskRejection::MaxDailyLoss)
        } else {
            Ok::<(), RiskRejection>(())
        },
{
    if daily_loss_exceeded {
        Err(RiskRejection::MaxDailyLoss)
    } else {
        Ok(())
    }
}

/// Key figures of a portfolio in fixed point (millionths), used to detect
/// substantive changes since the last saved snapshot.
#[derive(Debug, Clone, Copy, PartialEq, Eq, Structural)]
pub struct StateHash {
    pub cash: u64,
    pub total_value: u64,
    pub total_pnl: i64,
    pub locked_cash: u64,
    pub open_count: usize,
    pub closed_count: usize,
}

/// Whether a portfolio must be saved: it never was, or its key figures
/// differ from those last saved.
pub fn state_changed(last_saved: &Option<StateHash>, current: &StateHash) -> (r: bool)
    ensures
        r == match *last_saved {
            Some(h) => h != *current,
            None => true,
        },
{
    match last_saved {
        Some(h) => *h != *current,
        None => true,
    }
}

/// Right after a snapshot is saved, the portfolio reads as unchanged until
/// one of its key figures moves.
pub proof fn lemma_saved_state_unchanged(h: StateHash)
    ensures
        (match Some(h) {
            Some(last) => last != h,
            None => true,
        }) == false,
{
}

} // verus!
