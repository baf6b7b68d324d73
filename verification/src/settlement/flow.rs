//! The course of one settlement as a state machine. The caller does the
//! work (validating the fill, updating position and balance, writing the
//! ledger) and reports each outcome; the machine answers with the next phase
//! and the actions to take: counters to bump, events to publish, the next
//! piece of work, and the final status.

use vstd::prelude::*;

use crate::settlement::events::SettlementEventKind;
use crate::settlement::types::SettlementStatus;

verus! {

/// Where a settlement stands.
#[derive(Debug, Clone, Copy, PartialEq, Eq, Structural)]
pub enum SettlementPhase {
    /// Waiting for the validation of the fill.
    AwaitValidation { is_buy: bool },
    /// Waiting for the position update.
    AwaitPosition { is_buy: bool },
    /// Waiting for the funds of a buy to be frozen.
    AwaitFreeze,
    /// Waiting for the balance to be debited or credited.
    AwaitBalance,
    /// Waiting for the ledger entries to be written.
    AwaitLedger,
    /// Finished with this status.
    Done(SettlementStatus),
}

/// The outcome of a piece of work, reported by the caller.
#[derive(Debug, Clone, Copy, PartialEq, Eq, Structural)]
pub enum SettlementInput {
    /// The fill was validated; `passed` when every enabled rule passed.
    Validation { passed: bool },
    /// The position was updated with the fill.
    PositionApplied,
    /// Freezing the cost of a buy succeeded (`ok`) or found too little cash.
    Freeze { ok: bool },
    /// The balance was debited (buy) or credited (sell).
    BalanceMoved,
    /// The ledger entries were written; `fee_positive` when a fee entry was
    /// written besides the fill entry.
    LedgerWritten { fee_positive: bool },
}

/// What the caller must do next.
#[derive(Debug, Clone, Copy, PartialEq, Eq, Structural)]
pub enum SettlementAction {
    /// Count a received fill.
    RecordFill,
    /// Publish an event of this kind.
    Publish(SettlementEventKind),
    /// Count a failed settlement (and a validation failure when `validation`).
    RecordFailure { validation: bool },
    /// Apply the fill to the position book.
    ApplyPosition,
    /// Freeze the cost of a buy.
    FreezeBalance,
    /// Debit the frozen cost of a buy.
    DebitFill,
    /// Credit the proceeds of a sell.
    CreditClose,
    /// Add the realised profit or loss to the day's history. The amount is
    /// floating point and known only to the caller, who records nothing when
    /// it is zero, so that a fill without profit or loss leaves no entry.
    RecordRealizedPnl,
    /// Write the ledger entries of the fill.
    WriteLedger,
    /// Count a completed settlement with its ledger entries.
    RecordSuccess { ledger_entries: u64 },
    /// The settlement is over with this status.
    Finish(SettlementStatus),
}

/// First phase and actions of a settlement.
pub open spec fn begin_spec(is_buy: bool) -> (SettlementPhase, Seq<SettlementAction>) {
    (
        SettlementPhase::AwaitValidation { is_buy },
        seq![
            SettlementAction::RecordFill,
            SettlementAction::Publish(SettlementEventKind::FillReceived),
        ],
    )
}

/// Next phase and actions after an outcome is reported in a phase. An
/// outcome that does not belong to the phase changes nothing.
pub open spec fn step_spec(phase: SettlementPhase, input: SettlementInput) -> (
    SettlementPhase,
    Seq<SettlementAction>,
) {
    match (phase, input) {
        (SettlementPhase::AwaitValidation { is_buy }, SettlementInput::Validation { passed }) => {
            if passed {
                (
                    SettlementPhase::AwaitPosition { is_buy },
                    seq![
                        SettlementAction::Publish(SettlementEventKind::ValidationPassed),
                        SettlementAction::Publish(SettlementEventKind::FeeCalculated),
                        SettlementAction::ApplyPosition,
                    ],
                )
            } else {
                (
                    SettlementPhase::Done(SettlementStatus::ValidationFailed),
                    seq![
                        SettlementAction::RecordFailure { validation: true },
                        SettlementAction::Publish(SettlementEventKind::ValidationFailed),
                        SettlementAction::Finish(SettlementStatus::ValidationFailed),
                    ],
                )
            }
        },
        (SettlementPhase::AwaitPosition { is_buy }, SettlementInput::PositionApplied) => {
            if is_buy {
                (SettlementPhase::AwaitFreeze, seq![SettlementAction::FreezeBalance])
            } else {
                (SettlementPhase::AwaitBalance, seq![SettlementAction::CreditClose])
            }
        },
        (SettlementPhase::AwaitFreeze, SettlementInput::Freeze { ok }) => {
            if ok {
                (SettlementPhase::AwaitBalance, seq![SettlementAction::DebitFill])
            } else {
                (
                    SettlementPhase::Done(SettlementStatus::BalanceFailed),
                    seq![
                        SettlementAction::RecordFailure { validation: false },
                        SettlementAction::Finish(SettlementStatus::BalanceFailed),
                    ],
                )
            }
        },
        (SettlementPhase::AwaitBalance, SettlementInput::BalanceMoved) => (
            SettlementPhase::AwaitLedger,
            seq![
                SettlementAction::Publish(SettlementEventKind::PositionUpdated),
                SettlementAction::Publish(SettlementEventKind::BalanceUpdated),
                SettlementAction::RecordRealizedPnl,
                SettlementAction::Publish(SettlementEventKind::PnLUpdated),
                SettlementAction::WriteLedger,
            ],
        ),
        (SettlementPhase::AwaitLedger, SettlementInput::LedgerWritten { fee_positive }) => (
            SettlementPhase::Done(SettlementStatus::Success),
            seq![
                SettlementAction::Publish(SettlementEventKind::LedgerRecorded),
                SettlementAction::RecordSuccess {
                    ledger_entries: if fee_positive {
                        2
                    } else {
                        1
                    },
                },
                SettlementAction::Publish(SettlementEventKind::SettlementCompleted),
                SettlementAction::Finish(SettlementStatus::Success),
            ],
        ),
        _ => (phase, Seq::empty()),
    }
}

/// Starts a settlement of a buy (`is_buy`) or a sell.
pub fn begin_settlement(is_buy: bool) -> (r: (SettlementPhase, Vec<SettlementAction>))
    ensures
        r.0 == begin_spec(is_buy).0,
        r.1@ == begin_spec(is_buy).1,
{
    let mut actions: Vec<SettlementAction> = Vec::new();
    actions.push(SettlementAction::RecordFill);
    actions.push(SettlementAction::Publish(SettlementEventKind::FillReceived));
    (SettlementPhase::AwaitValidation { is_buy }, actions)
}

/// Advances a settlement by the outcome of the work just done.
pub fn settlement_step(phase: SettlementPhase, input: SettlementInput) -> (r: (
    SettlementPhase,
    Vec<SettlementAction>,
))
    ensures
        r.0 == step_spec(phase, input).0,
        r.1@ == step_spec(phase, input).1,
        pnl_requests(r.1@) == (if phase is AwaitBalance && input is BalanceMoved {
            1nat
        } else {
            0nat
        }),
{
    proof {
        lemma_step_pnl(phase, input);
        assert((past_balance(step_spec(phase, input).0) && !past_balance(phase)) == (phase is AwaitBalance
            && input is BalanceMoved));
    }
    let mut actions: Vec<SettlementAction> = Vec::new();
    match (phase, input) {
        (SettlementPhase::AwaitValidation { is_buy }, SettlementInput::Validation { passed }) => {
            if passed {
                actions.push(SettlementAction::Publish(SettlementEventKind::ValidationPassed));
                actions.push(SettlementAction::Publish(SettlementEventKind::FeeCalculated));
                actions.push(SettlementAction::ApplyPosition);
                (SettlementPhase::AwaitPosition { is_buy }, actions)
            } else {
                actions.push(SettlementAction::RecordFailure { validation: true });
                actions.push(SettlementAction::Publish(SettlementEventKind::ValidationFailed));
                actions.push(SettlementAction::Finish(SettlementStatus::ValidationFailed));
                (SettlementPhase::Done(SettlementStatus::ValidationFailed), actions)
            }
        },
        (SettlementPhase::AwaitPosition { is_buy }, SettlementInput::PositionApplied) => {
            if is_buy {
                actions.push(SettlementAction::FreezeBalance);
                (SettlementPhase::AwaitFreeze, actions)
            } else {
                actions.push(SettlementAction::CreditClose);
                (SettlementPhase::AwaitBalance, actions)
            }
        },
        (SettlementPhase::AwaitFreeze, SettlementInput::Freeze { ok }) => {
            if ok {
                actions.push(SettlementAction::DebitFill);
                (SettlementPhase::AwaitBalance, actions)
            } else {
                actions.push(SettlementAction::RecordFailure { validation: false });
                actions.push(SettlementAction::Finish(SettlementStatus::BalanceFailed));
                (SettlementPhase::Done(SettlementStatus::BalanceFailed), actions)
            }
        },
        (SettlementPhase::AwaitBalance, SettlementInput::BalanceMoved) => {
            actions.push(SettlementAction::Publish(SettlementEventKind::PositionUpdated));
            actions.push(SettlementAction::Publish(SettlementEventKind::BalanceUpdated));
            actions.push(SettlementAction::RecordRealizedPnl);
            actions.push(SettlementAction::Publish(SettlementEventKind::PnLUpdated));
            actions.push(SettlementAction::WriteLedger);
            (SettlementPhase::AwaitLedger, actions)
        },
        (SettlementPhase::AwaitLedger, SettlementInput::LedgerWritten { fee_positive }) => {
            actions.push(SettlementAction::Publish(SettlementEventKind::LedgerRecorded));
            actions.push(
                SettlementAction::RecordSuccess {
                    ledger_entries: if fee_positive {
                        2
                    } else {
                        1
                    },
                },
            );
            actions.push(SettlementAction::Publish(SettlementEventKind::SettlementCompleted));
            actions.push(SettlementAction::Finish(SettlementStatus::Success));
            (SettlementPhase::Done(SettlementStatus::Success), actions)
        },
        _ => (phase, actions),
    }
}

/// The kinds of the events an action sequence publishes, in order.
pub open spec fn published(actions: Seq<SettlementAction>) -> Seq<SettlementEventKind>
    decreases actions.len(),
{
    if actions.len() == 0 {
        Seq::empty()
    } else {
        match actions.last() {
            SettlementAction::Publish(k) => published(actions.drop_last()).push(k),
            _ => published(actions.drop_last()),
        }
    }
}

proof fn lemma_published_append(a: Seq<SettlementAction>, b: Seq<SettlementAction>)
    ensures
        published(a + b) == published(a) + published(b),
    decreases b.len(),
{
    if b.len() == 0 {
        assert(a + b =~= a);
        assert(published(a) + published(b) =~= published(a));
    } else {
        lemma_published_append(a, b.drop_last());
        assert((a + b).drop_last() =~= a + b.drop_last());
        assert((a + b).last() == b.last());
        match b.last() {
            SettlementAction::Publish(k) => {
                assert(published(a) + published(b) =~= (published(a) + published(b.drop_last())).push(k));
            },
            _ => {},
        }
    }
}

/// The actions of a settlement that gets `inputs` reported in order, from
/// `phase` on, and the phase it ends in.
pub open spec fn run_from(phase: SettlementPhase, inputs: Seq<SettlementInput>) -> (
    SettlementPhase,
    Seq<SettlementAction>,
)
    decreases inputs.len(),
{
    if inputs.len() == 0 {
        (phase, Seq::empty())
    } else {
        let (next, acts) = step_spec(phase, inputs[0]);
        let (last, rest) = run_from(next, inputs.drop_first());
        (last, acts + rest)
    }
}

/// The outcomes of a settlement whose every piece of work succeeded.
pub open spec fn happy_inputs(is_buy: bool, fee_positive: bool) -> Seq<SettlementInput> {
    if is_buy {
        seq![
            SettlementInput::Validation { passed: true },
            SettlementInput::PositionApplied,
            SettlementInput::Freeze { ok: true },
            SettlementInput::BalanceMoved,
            SettlementInput::LedgerWritten { fee_positive },
        ]
    } else {
        seq![
            SettlementInput::Validation { passed: true },
            SettlementInput::PositionApplied,
            SettlementInput::BalanceMoved,
            SettlementInput::LedgerWritten { fee_positive },
        ]
    }
}

/// Every event kind, in the order a completed settlement publishes them.
pub open spec fn completed_events() -> Seq<SettlementEventKind> {
    seq![
        SettlementEventKind::FillReceived,
        SettlementEventKind::ValidationPassed,
        SettlementEventKind::FeeCalculated,
        SettlementEventKind::PositionUpdated,
        SettlementEventKind::BalanceUpdated,
        SettlementEventKind::PnLUpdated,
        SettlementEventKind::LedgerRecorded,
        SettlementEventKind::SettlementCompleted,
    ]
}

proof fn lemma_published_of_steps(is_buy: bool, fee_positive: bool)
    ensures
        published(begin_spec(is_buy).1) == seq![SettlementEventKind::FillReceived],
        published(
            step_spec(
                SettlementPhase::AwaitValidation { is_buy },
                SettlementInput::Validation { passed: true },
            ).1,
        ) == seq![SettlementEventKind::ValidationPassed, SettlementEventKind::FeeCalculated],
        published(
            step_spec(
                SettlementPhase::AwaitValidation { is_buy },
                SettlementInput::Validation { passed: false },
            ).1,
        ) == seq![SettlementEventKind::ValidationFailed],
        published(
            step_spec(SettlementPhase::AwaitPosition { is_buy }, SettlementInput::PositionApplied).1,
        ) == Seq::<SettlementEventKind>::empty(),
        published(step_spec(SettlementPhase::AwaitFreeze, SettlementInput::Freeze { ok: true }).1)
            == Seq::<SettlementEventKind>::empty(),
        published(step_spec(SettlementPhase::AwaitBalance, SettlementInput::BalanceMoved).1)
            == seq![
            SettlementEventKind::PositionUpdated,
            SettlementEventKind::BalanceUpdated,
            SettlementEventKind::PnLUpdated,
        ],
        published(
            step_spec(SettlementPhase::AwaitLedger, SettlementInput::LedgerWritten { fee_positive }).1,
        ) == seq![SettlementEventKind::LedgerRecorded, SettlementEventKind::SettlementCompleted],
{
    reveal_with_fuel(published, 6);
    assert(published(begin_spec(is_buy).1) =~= seq![SettlementEventKind::FillReceived]);
    assert(published(
        step_spec(
            SettlementPhase::AwaitValidation { is_buy },
            SettlementInput::Validation { passed: true },
        ).1,
    ) =~= seq![SettlementEventKind::ValidationPassed, SettlementEventKind::FeeCalculated]);
    assert(published(
        step_spec(
            SettlementPhase::AwaitValidation { is_buy },
            SettlementInput::Validation { passed: false },
        ).1,
    ) =~= seq![SettlementEventKind::ValidationFailed]);
    assert(published(
        step_spec(SettlementPhase::AwaitPosition { is_buy }, SettlementInput::PositionApplied).1,
    ) =~= Seq::<SettlementEventKind>::empty());
    assert(published(step_spec(SettlementPhase::AwaitFreeze, SettlementInput::Freeze { ok: true }).1)
        =~= Seq::<SettlementEventKind>::empty());
    assert(published(step_spec(SettlementPhase::AwaitBalance, SettlementInput::BalanceMoved).1)
        =~= seq![
        SettlementEventKind::PositionUpdated,
        SettlementEventKind::BalanceUpdated,
        SettlementEventKind::PnLUpdated,
    ]);
    assert(published(
        step_spec(SettlementPhase::AwaitLedger, SettlementInput::LedgerWritten { fee_positive }).1,
    ) =~= seq![SettlementEventKind::LedgerRecorded, SettlementEventKind::SettlementCompleted]);
}

proof fn lemma_run_one(phase: SettlementPhase, inputs: Seq<SettlementInput>)
    requires
        inputs.len() > 0,
    ensures
        run_from(phase, inputs).0 == run_from(step_spec(phase, inputs[0]).0, inputs.drop_first()).0,
        run_from(phase, inputs).1 == step_spec(phase, inputs[0]).1 + run_from(
            step_spec(phase, inputs[0]).0,
            inputs.drop_first(),
        ).1,
{
}

/// A settlement whose work all succeeds ends in success and publishes the
/// completed sequence of events.
pub proof fn lemma_completed_settlement(is_buy: bool, fee_positive: bool)
    ensures
        ({
            let (start, first) = begin_spec(is_buy);
            let (end, rest) = run_from(start, happy_inputs(is_buy, fee_positive));
            &&& end == SettlementPhase::Done(SettlementStatus::Success)
            &&& published(first + rest) == completed_events()
        }),
{
    let (start, first) = begin_spec(is_buy);
    let i0 = happy_inputs(is_buy, fee_positive);
    lemma_published_of_steps(is_buy, fee_positive);
    let s1 = step_spec(start, i0[0]);
    let i1 = i0.drop_first();
    lemma_run_one(start, i0);
    let s2 = step_spec(s1.0, i1[0]);
    let i2 = i1.drop_first();
    lemma_run_one(s1.0, i1);
    let s3 = step_spec(s2.0, i2[0]);
    let i3 = i2.drop_first();
    lemma_run_one(s2.0, i2);
    let s4 = step_spec(s3.0, i3[0]);
    let i4 = i3.drop_first();
    lemma_run_one(s3.0, i3);
    if is_buy {
        let s5 = step_spec(s4.0, i4[0]);
        let i5 = i4.drop_first();
        lemma_run_one(s4.0, i4);
        assert(i5 =~= Seq::<SettlementInput>::empty());
        let tail5 = run_from(s5.0, i5).1;
        assert(tail5 == Seq::<SettlementAction>::empty());
        lemma_published_append(s5.1, tail5);
        lemma_published_append(s4.1, s5.1 + tail5);
        lemma_published_append(s3.1, s4.1 + (s5.1 + tail5));
        lemma_published_append(s2.1, s3.1 + (s4.1 + (s5.1 + tail5)));
        lemma_published_append(s1.1, s2.1 + (s3.1 + (s4.1 + (s5.1 + tail5))));
        lemma_published_append(first, s1.1 + (s2.1 + (s3.1 + (s4.1 + (s5.1 + tail5)))));
        assert(published(first + run_from(start, i0).1) =~= completed_events());
    } else {
        assert(i4 =~= Seq::<SettlementInput>::empty());
        let tail4 = run_from(s4.0, i4).1;
        assert(tail4 == Seq::<SettlementAction>::empty());
        lemma_published_append(s4.1, tail4);
        lemma_published_append(s3.1, s4.1 + tail4);
        lemma_published_append(s2.1, s3.1 + (s4.1 + tail4));
        lemma_published_append(s1.1, s2.1 + (s3.1 + (s4.1 + tail4)));
        lemma_published_append(first, s1.1 + (s2.1 + (s3.1 + (s4.1 + tail4))));
        assert(published(first + run_from(start, i0).1) =~= completed_events());
    }
}

/// A fill that fails validation ends the settlement as a validation failure,
/// having published only its receipt and the validation failure.
pub proof fn lemma_rejected_settlement(is_buy: bool)
    ensures
        ({
            let (start, first) = begin_spec(is_buy);
            let (end, rest) = run_from(start, seq![SettlementInput::Validation { passed: false }]);
            &&& end == SettlementPhase::Done(SettlementStatus::ValidationFailed)
            &&& published(first + rest) == seq![
                SettlementEventKind::FillReceived,
                SettlementEventKind::ValidationFailed,
            ]
        }),
{
    let (start, first) = begin_spec(is_buy);
    let i0 = seq![SettlementInput::Validation { passed: false }];
    lemma_published_of_steps(is_buy, false);
    let s1 = step_spec(start, i0[0]);
    lemma_run_one(start, i0);
    assert(i0.drop_first() =~= Seq::<SettlementInput>::empty());
    let tail = run_from(s1.0, i0.drop_first()).1;
    assert(tail == Seq::<SettlementAction>::empty());
    lemma_published_append(s1.1, tail);
    lemma_published_append(first, s1.1 + tail);
    assert(published(first + run_from(start, i0).1) =~= seq![
        SettlementEventKind::FillReceived,
        SettlementEventKind::ValidationFailed,
    ]);
}

/// How many actions of a sequence satisfy `p`.
pub open spec fn action_count(actions: Seq<SettlementAction>, p: spec_fn(SettlementAction) -> bool) -> nat
    decreases actions.len(),
{
    if actions.len() == 0 {
        0
    } else {
        action_count(actions.drop_last(), p) + if p(actions.last()) {
            1nat
        } else {
            0nat
        }
    }
}

/// The action counts a received fill.
pub open spec fn is_fill_count(a: SettlementAction) -> bool {
    a is RecordFill
}

/// The action counts a finished settlement, as a success or a failure.
pub open spec fn is_settled_count(a: SettlementAction) -> bool {
    a is RecordSuccess || a is RecordFailure
}

proof fn lemma_count_append(a: Seq<SettlementAction>, b: Seq<SettlementAction>, p: spec_fn(SettlementAction) -> bool)
    ensures
        action_count(a + b, p) == action_count(a, p) + action_count(b, p),
    decreases b.len(),
{
    if b.len() == 0 {
        assert(a + b =~= a);
    } else {
        lemma_count_append(a, b.drop_last(), p);
        assert((a + b).drop_last() =~= a + b.drop_last());
        assert((a + b).last() == b.last());
    }
}

/// Fills and finished settlements counted by an action sequence.
pub open spec fn counted(actions: Seq<SettlementAction>) -> (nat, nat) {
    (
        action_count(actions, |a: SettlementAction| is_fill_count(a)),
        action_count(actions, |a: SettlementAction| is_settled_count(a)),
    )
}

proof fn lemma_counted_append(a: Seq<SettlementAction>, b: Seq<SettlementAction>)
    ensures
        counted(a + b).0 == counted(a).0 + counted(b).0,
        counted(a + b).1 == counted(a).1 + counted(b).1,
{
    lemma_count_append(a, b, |x: SettlementAction| is_fill_count(x));
    lemma_count_append(a, b, |x: SettlementAction| is_settled_count(x));
}

proof fn lemma_counted_of_steps(is_buy: bool, fee_positive: bool)
    ensures
        counted(begin_spec(is_buy).1) == (1nat, 0nat),
        counted(
            step_spec(
                SettlementPhase::AwaitValidation { is_buy },
                SettlementInput::Validation { passed: true },
            ).1,
        ) == (0nat, 0nat),
        counted(
            step_spec(
                SettlementPhase::AwaitValidation { is_buy },
                SettlementInput::Validation { passed: false },
            ).1,
        ) == (0nat, 1nat),
        counted(
            step_spec(SettlementPhase::AwaitPosition { is_buy }, SettlementInput::PositionApplied).1,
        ) == (0nat, 0nat),
        counted(step_spec(SettlementPhase::AwaitFreeze, SettlementInput::Freeze { ok: true }).1)
            == (0nat, 0nat),
        counted(step_spec(SettlementPhase::AwaitFreeze, SettlementInput::Freeze { ok: false }).1)
            == (0nat, 1nat),
        counted(step_spec(SettlementPhase::AwaitBalance, SettlementInput::BalanceMoved).1) == (
            0nat,
            0nat,
        ),
        counted(
            step_spec(SettlementPhase::AwaitLedger, SettlementInput::LedgerWritten { fee_positive }).1,
        ) == (0nat, 1nat),
        counted(Seq::<SettlementAction>::empty()) == (0nat, 0nat),
{
    reveal_with_fuel(action_count, 6);
}

/// A completed settlement counts its fill once and its success once.
pub proof fn lemma_completed_settlement_counted_once(is_buy: bool, fee_positive: bool)
    ensures
        ({
            let (start, first) = begin_spec(is_buy);
            counted(first + run_from(start, happy_inputs(is_buy, fee_positive)).1) == (1nat, 1nat)
        }),
{
    lemma_counted_of_steps(is_buy, fee_positive);
    let (start, first) = begin_spec(is_buy);
    let i0 = happy_inputs(is_buy, fee_positive);
    let s1 = step_spec(start, i0[0]);
    let i1 = i0.drop_first();
    lemma_run_one(start, i0);
    let s2 = step_spec(s1.0, i1[0]);
    let i2 = i1.drop_first();
    lemma_run_one(s1.0, i1);
    let s3 = step_spec(s2.0, i2[0]);
    let i3 = i2.drop_first();
    lemma_run_one(s2.0, i2);
    let s4 = step_spec(s3.0, i3[0]);
    let i4 = i3.drop_first();
    lemma_run_one(s3.0, i3);
    let tail = run_from(s4.0, i4).1;
    if is_buy {
        let s5 = step_spec(s4.0, i4[0]);
        let i5 = i4.drop_first();
        lemma_run_one(s4.0, i4);
        assert(i5 =~= Seq::<SettlementInput>::empty());
        assert(run_from(s5.0, i5).1 == Seq::<SettlementAction>::empty());
        lemma_counted_append(s5.1, run_from(s5.0, i5).1);
    } else {
        assert(i4 =~= Seq::<SettlementInput>::empty());
        assert(tail == Seq::<SettlementAction>::empty());
    }
    lemma_counted_append(s4.1, tail);
    lemma_counted_append(s3.1, s4.1 + tail);
    lemma_counted_append(s2.1, s3.1 + (s4.1 + tail));
    lemma_counted_append(s1.1, s2.1 + (s3.1 + (s4.1 + tail)));
    lemma_counted_append(first, s1.1 + (s2.1 + (s3.1 + (s4.1 + tail))));
}

/// A rejected fill counts its fill once and its failure once.
pub proof fn lemma_rejected_settlement_counted_once(is_buy: bool)
    ensures
        ({
            let (start, first) = begin_spec(is_buy);
            counted(first + run_from(start, seq![SettlementInput::Validation { passed: false }]).1)
                == (1nat, 1nat)
        }),
{
    lemma_counted_of_steps(is_buy, false);
    let (start, first) = begin_spec(is_buy);
    let r0 = seq![SettlementInput::Validation { passed: false }];
    let f1 = step_spec(start, r0[0]);
    lemma_run_one(start, r0);
    assert(r0.drop_first() =~= Seq::<SettlementInput>::empty());
    let tail = run_from(f1.0, r0.drop_first()).1;
    assert(tail == Seq::<SettlementAction>::empty());
    lemma_counted_append(f1.1, tail);
    lemma_counted_append(first, f1.1 + tail);
}

/// A buy whose funds cannot be frozen ends as a balance failure, counting
/// its fill once and its failure once.
pub proof fn lemma_unfunded_buy_counted_once()
    ensures
        ({
            let (start, first) = begin_spec(true);
            let (end, rest) = run_from(
                start,
                seq![
                    SettlementInput::Validation { passed: true },
                    SettlementInput::PositionApplied,
                    SettlementInput::Freeze { ok: false },
                ],
            );
            &&& end == SettlementPhase::Done(SettlementStatus::BalanceFailed)
            &&& counted(first + rest) == (1nat, 1nat)
        }),
{
    lemma_counted_of_steps(true, false);
    let (start, first) = begin_spec(true);
    let b0 = seq![
        SettlementInput::Validation { passed: true },
        SettlementInput::PositionApplied,
        SettlementInput::Freeze { ok: false },
    ];
    let b1 = step_spec(start, b0[0]);
    let bi1 = b0.drop_first();
    lemma_run_one(start, b0);
    let b2 = step_spec(b1.0, bi1[0]);
    let bi2 = bi1.drop_first();
    lemma_run_one(b1.0, bi1);
    let b3 = step_spec(b2.0, bi2[0]);
    let bi3 = bi2.drop_first();
    lemma_run_one(b2.0, bi2);
    assert(bi3 =~= Seq::<SettlementInput>::empty());
    let tail = run_from(b3.0, bi3).1;
    assert(tail == Seq::<SettlementAction>::empty());
    lemma_counted_append(b3.1, tail);
    lemma_counted_append(b2.1, b3.1 + tail);
    lemma_counted_append(b1.1, b2.1 + (b3.1 + tail));
    lemma_counted_append(first, b1.1 + (b2.1 + (b3.1 + tail)));
}

/// The actions without their event publications.
pub open spec fn without_publish(actions: Seq<SettlementAction>) -> Seq<SettlementAction>
    decreases actions.len(),
{
    if actions.len() == 0 {
        Seq::empty()
    } else if actions.last() is Publish {
        without_publish(actions.drop_last())
    } else {
        without_publish(actions.drop_last()).push(actions.last())
    }
}

/// The actions a settlement takes with the event bus switched on
/// (`bus_enabled`, all of them) or off (all but the publications).
pub open spec fn on_bus(actions: Seq<SettlementAction>, bus_enabled: bool) -> Seq<SettlementAction> {
    if bus_enabled {
        actions
    } else {
        without_publish(actions)
    }
}

/// Leaves out the publications when the event bus is off.
fn gate_publications(actions: Vec<SettlementAction>, bus_enabled: bool) -> (r: Vec<SettlementAction>)
    ensures
        r@ == on_bus(actions@, bus_enabled),
{
    if bus_enabled {
        return actions;
    }
    let mut r: Vec<SettlementAction> = Vec::new();
    let mut i: usize = 0;
    assert(actions@.take(0) =~= Seq::<SettlementAction>::empty());
    while i < actions.len()
        invariant
            i <= actions@.len(),
            r@ == without_publish(actions@.take(i as int)),
        decreases actions@.len() - i,
    {
        assert(actions@.take(i + 1).drop_last() =~= actions@.take(i as int));
        assert(actions@.take(i + 1).last() == actions@[i as int]);
        let a = actions[i];
        match a {
            SettlementAction::Publish(_) => {},
            _ => {
                r.push(a);
            },
        }
        i = i + 1;
    }
    assert(actions@.take(actions@.len() as int) =~= actions@);
    r
}

/// Starts a settlement of a buy or a sell, with the event bus switched on
/// or off: when it is off, no event is published.
pub fn begin_settlement_with_bus(is_buy: bool, bus_enabled: bool) -> (r: (SettlementPhase, Vec<SettlementAction>))
    ensures
        r.0 == begin_spec(is_buy).0,
        r.1@ == on_bus(begin_spec(is_buy).1, bus_enabled),
{
    let (phase, actions) = begin_settlement(is_buy);
    (phase, gate_publications(actions, bus_enabled))
}

/// Advances a settlement by the outcome of the work just done, with the
/// event bus switched on or off: when it is off, no event is published.
pub fn settlement_step_with_bus(phase: SettlementPhase, input: SettlementInput, bus_enabled: bool) -> (r: (
    SettlementPhase,
    Vec<SettlementAction>,
))
    ensures
        r.0 == step_spec(phase, input).0,
        r.1@ == on_bus(step_spec(phase, input).1, bus_enabled),
{
    let (next, actions) = settlement_step(phase, input);
    (next, gate_publications(actions, bus_enabled))
}

proof fn lemma_without_publish_append(a: Seq<SettlementAction>, b: Seq<SettlementAction>)
    ensures
        without_publish(a + b) == without_publish(a) + without_publish(b),
    decreases b.len(),
{
    if b.len() == 0 {
        assert(a + b =~= a);
        assert(without_publish(a) + without_publish(b) =~= without_publish(a));
    } else {
        lemma_without_publish_append(a, b.drop_last());
        assert((a + b).drop_last() =~= a + b.drop_last());
        assert((a + b).last() == b.last());
        if !(b.last() is Publish) {
            assert(without_publish(a) + without_publish(b) =~= (without_publish(a) + without_publish(
                b.drop_last(),
            )).push(b.last()));
        }
    }
}

proof fn lemma_without_publish_facts(actions: Seq<SettlementAction>)
    ensures
        published(without_publish(actions)) == Seq::<SettlementEventKind>::empty(),
        counted(without_publish(actions)) == counted(actions),
        successes(without_publish(actions)) == successes(actions),
    decreases actions.len(),
{
    if actions.len() > 0 {
        lemma_without_publish_facts(actions.drop_last());
        if !(actions.last() is Publish) {
            let w = without_publish(actions.drop_last());
            assert(without_publish(actions).drop_last() =~= w);
        }
    }
}

/// The actions of a settlement run with the event bus switched on or off,
/// step by step.
pub open spec fn run_on_bus(phase: SettlementPhase, inputs: Seq<SettlementInput>, bus_enabled: bool) -> (
    SettlementPhase,
    Seq<SettlementAction>,
)
    decreases inputs.len(),
{
    if inputs.len() == 0 {
        (phase, Seq::empty())
    } else {
        let (next, acts) = step_spec(phase, inputs[0]);
        let (last, rest) = run_on_bus(next, inputs.drop_first(), bus_enabled);
        (last, on_bus(acts, bus_enabled) + rest)
    }
}

proof fn lemma_run_on_bus(phase: SettlementPhase, inputs: Seq<SettlementInput>, bus_enabled: bool)
    ensures
        run_on_bus(phase, inputs, bus_enabled).0 == run_from(phase, inputs).0,
        run_on_bus(phase, inputs, bus_enabled).1 == on_bus(run_from(phase, inputs).1, bus_enabled),
    decreases inputs.len(),
{
    if inputs.len() > 0 {
        let (next, acts) = step_spec(phase, inputs[0]);
        lemma_run_on_bus(next, inputs.drop_first(), bus_enabled);
        lemma_without_publish_append(acts, run_from(next, inputs.drop_first()).1);
    } else {
        assert(without_publish(Seq::<SettlementAction>::empty()) =~= Seq::<SettlementAction>::empty());
    }
}

/// With the event bus switched off, a settlement publishes nothing, takes
/// the same course, and counts its fill and its outcome exactly as with the
/// bus on.
pub proof fn lemma_disabled_bus_publishes_nothing(is_buy: bool, inputs: Seq<SettlementInput>)
    ensures
        ({
            let (start, first) = begin_spec(is_buy);
            let (end_on, acts_on) = run_on_bus(start, inputs, true);
            let (end_off, acts_off) = run_on_bus(start, inputs, false);
            let all_on = on_bus(first, true) + acts_on;
            let all_off = on_bus(first, false) + acts_off;
            &&& end_off == end_on
            &&& published(all_off) == Seq::<SettlementEventKind>::empty()
            &&& counted(all_off) == counted(all_on)
            &&& successes(all_off) == successes(all_on)
        }),
{
    let (start, first) = begin_spec(is_buy);
    lemma_run_on_bus(start, inputs, true);
    lemma_run_on_bus(start, inputs, false);
    let all = first + run_from(start, inputs).1;
    lemma_without_publish_append(first, run_from(start, inputs).1);
    lemma_without_publish_facts(all);
}

/// Settlements counted as successes by an action sequence.
pub open spec fn successes(actions: Seq<SettlementAction>) -> nat {
    action_count(actions, |a: SettlementAction| a is RecordSuccess)
}

proof fn lemma_done_stays(phase: SettlementPhase, inputs: Seq<SettlementInput>)
    requires
        phase is Done,
    ensures
        run_from(phase, inputs) == (phase, Seq::<SettlementAction>::empty()),
    decreases inputs.len(),
{
    if inputs.len() > 0 {
        lemma_done_stays(phase, inputs.drop_first());
        assert(Seq::<SettlementAction>::empty() + Seq::<SettlementAction>::empty()
            =~= Seq::<SettlementAction>::empty());
    }
}

proof fn lemma_step_counts(phase: SettlementPhase, input: SettlementInput)
    requires
        !(phase is Done),
    ensures
        ({
            let (next, acts) = step_spec(phase, input);
            &&& counted(acts).0 == 0
            &&& counted(acts).1 == (if next is Done {
                1nat
            } else {
                0nat
            })
            &&& successes(acts) == (if next == SettlementPhase::Done(SettlementStatus::Success) {
                1nat
            } else {
                0nat
            })
        }),
{
    reveal_with_fuel(action_count, 6);
}

proof fn lemma_run_counts(phase: SettlementPhase, inputs: Seq<SettlementInput>)
    requires
        !(phase is Done),
    ensures
        ({
            let (end, acts) = run_from(phase, inputs);
            &&& counted(acts).0 == 0
            &&& counted(acts).1 == (if end is Done {
                1nat
            } else {
                0nat
            })
            &&& successes(acts) == (if end == SettlementPhase::Done(SettlementStatus::Success) {
                1nat
            } else {
                0nat
            })
        }),
    decreases inputs.len(),
{
    reveal_with_fuel(action_count, 1);
    if inputs.len() > 0 {
        let (next, acts) = step_spec(phase, inputs[0]);
        let tail = inputs.drop_first();
        lemma_step_counts(phase, inputs[0]);
        if next is Done {
            lemma_done_stays(next, tail);
        } else {
            lemma_run_counts(next, tail);
        }
        lemma_counted_append(acts, run_from(next, tail).1);
        lemma_count_append(acts, run_from(next, tail).1, |a: SettlementAction| a is RecordSuccess);
    }
}

/// Whatever outcomes are reported, a settlement counts its fill exactly
/// once, counts one finished settlement exactly when it has finished, and
/// counts a success exactly when it finished successfully.
pub proof fn lemma_settlement_counted_once(is_buy: bool, inputs: Seq<SettlementInput>)
    ensures
        ({
            let (start, first) = begin_spec(is_buy);
            let (end, rest) = run_from(start, inputs);
            &&& counted(first + rest).0 == 1
            &&& counted(first + rest).1 == (if end is Done {
                1nat
            } else {
                0nat
            })
            &&& successes(first + rest) == (if end == SettlementPhase::Done(
                SettlementStatus::Success,
            ) {
                1nat
            } else {
                0nat
            })
        }),
{
    let (start, first) = begin_spec(is_buy);
    lemma_counted_of_steps(is_buy, false);
    reveal_with_fuel(action_count, 3);
    assert(successes(first) == 0);
    lemma_run_counts(start, inputs);
    lemma_counted_append(first, run_from(start, inputs).1);
    lemma_count_append(first, run_from(start, inputs).1, |a: SettlementAction| a is RecordSuccess);
}

/// The outcome reports the very work the phase waits for.
pub open spec fn answers(phase: SettlementPhase, input: SettlementInput) -> bool {
    match (phase, input) {
        (SettlementPhase::AwaitValidation { .. }, SettlementInput::Validation { .. }) => true,
        (SettlementPhase::AwaitPosition { .. }, SettlementInput::PositionApplied) => true,
        (SettlementPhase::AwaitFreeze, SettlementInput::Freeze { .. }) => true,
        (SettlementPhase::AwaitBalance, SettlementInput::BalanceMoved) => true,
        (SettlementPhase::AwaitLedger, SettlementInput::LedgerWritten { .. }) => true,
        _ => false,
    }
}

/// The most pieces of work a settlement in `phase` still waits for.
pub open spec fn steps_left(phase: SettlementPhase) -> nat {
    match phase {
        SettlementPhase::AwaitValidation { is_buy } => if is_buy {
            5
        } else {
            4
        },
        SettlementPhase::AwaitPosition { is_buy } => if is_buy {
            4
        } else {
            3
        },
        SettlementPhase::AwaitFreeze => 3,
        SettlementPhase::AwaitBalance => 2,
        SettlementPhase::AwaitLedger => 1,
        SettlementPhase::Done(_) => 0,
    }
}

/// Every outcome of `inputs` answers the phase it is reported in.
pub open spec fn answered(phase: SettlementPhase, inputs: Seq<SettlementInput>) -> bool
    decreases inputs.len(),
{
    inputs.len() == 0 || (answers(phase, inputs[0]) && answered(
        step_spec(phase, inputs[0]).0,
        inputs.drop_first(),
    ))
}

/// One outcome that answers a waiting phase (the work succeeded).
pub open spec fn success_answer(phase: SettlementPhase) -> SettlementInput {
    match phase {
        SettlementPhase::AwaitValidation { .. } => SettlementInput::Validation { passed: true },
        SettlementPhase::AwaitPosition { .. } => SettlementInput::PositionApplied,
        SettlementPhase::AwaitFreeze => SettlementInput::Freeze { ok: true },
        SettlementPhase::AwaitBalance => SettlementInput::BalanceMoved,
        _ => SettlementInput::LedgerWritten { fee_positive: false },
    }
}

proof fn lemma_answered_bound(phase: SettlementPhase, inputs: Seq<SettlementInput>)
    requires
        answered(phase, inputs),
    ensures
        inputs.len() + steps_left(run_from(phase, inputs).0) <= steps_left(phase),
    decreases inputs.len(),
{
    if inputs.len() > 0 {
        lemma_answered_bound(step_spec(phase, inputs[0]).0, inputs.drop_first());
    }
}

proof fn lemma_answered_extend(phase: SettlementPhase, inputs: Seq<SettlementInput>, input: SettlementInput)
    requires
        answered(phase, inputs),
        answers(run_from(phase, inputs).0, input),
    ensures
        answered(phase, inputs.push(input)),
        run_from(phase, inputs.push(input)).0 == step_spec(run_from(phase, inputs).0, input).0,
    decreases inputs.len(),
{
    let ext = inputs.push(input);
    if inputs.len() == 0 {
        assert(run_from(phase, inputs).0 == phase);
        assert(ext[0] == input);
        assert(ext.drop_first() =~= Seq::<SettlementInput>::empty());
        assert(answered(step_spec(phase, input).0, ext.drop_first()));
        assert(run_from(step_spec(phase, input).0, ext.drop_first()).0 == step_spec(phase, input).0);
    } else {
        let next = step_spec(phase, inputs[0]).0;
        lemma_answered_extend(next, inputs.drop_first(), input);
        assert(ext.drop_first() =~= inputs.drop_first().push(input));
        assert(ext[0] == inputs[0]);
        assert(run_from(phase, inputs).0 == run_from(next, inputs.drop_first()).0);
    }
}

/// A settlement whose caller answers every piece of work it asks for always
/// finishes: it never waits for more than five answers (four for a sell),
/// and while it has not finished there is always an answer that takes it a
/// step further. Once finished it has counted its fill once and its outcome
/// once, and a success exactly when it succeeded.
pub proof fn lemma_answered_settlement_finishes(is_buy: bool, inputs: Seq<SettlementInput>)
    requires
        answered(begin_spec(is_buy).0, inputs),
    ensures
        ({
            let (start, first) = begin_spec(is_buy);
            let (end, rest) = run_from(start, inputs);
            &&& inputs.len() <= (if is_buy {
                5nat
            } else {
                4nat
            })
            &&& !(end is Done) ==> answers(end, success_answer(end)) && answered(
                start,
                inputs.push(success_answer(end)),
            )
            &&& end is Done ==> counted(first + rest) == (1nat, 1nat)
            &&& end is Done ==> (successes(first + rest) == 1 <==> end == SettlementPhase::Done(
                SettlementStatus::Success,
            ))
        }),
{
    let (start, first) = begin_spec(is_buy);
    let end = run_from(start, inputs).0;
    lemma_answered_bound(start, inputs);
    if !(end is Done) {
        lemma_answered_extend(start, inputs, success_answer(end));
    }
    lemma_settlement_counted_once(is_buy, inputs);
}

/// Requests to add the realised profit or loss to the day's history.
pub open spec fn pnl_requests(actions: Seq<SettlementAction>) -> nat {
    action_count(actions, |a: SettlementAction| a is RecordRealizedPnl)
}

/// The settlement has moved the balance of its fill (it waits for the
/// ledger or has completed).
pub open spec fn past_balance(phase: SettlementPhase) -> bool {
    phase is AwaitLedger || phase == SettlementPhase::Done(SettlementStatus::Success)
}

proof fn lemma_step_pnl(phase: SettlementPhase, input: SettlementInput)
    ensures
        past_balance(phase) ==> past_balance(step_spec(phase, input).0),
        pnl_requests(step_spec(phase, input).1) == (if past_balance(step_spec(phase, input).0)
            && !past_balance(phase) {
            1nat
        } else {
            0nat
        }),
{
    reveal_with_fuel(action_count, 6);
}

proof fn lemma_run_pnl(phase: SettlementPhase, inputs: Seq<SettlementInput>)
    ensures
        past_balance(phase) ==> past_balance(run_from(phase, inputs).0),
        pnl_requests(run_from(phase, inputs).1) == (if past_balance(run_from(phase, inputs).0)
            && !past_balance(phase) {
            1nat
        } else {
            0nat
        }),
    decreases inputs.len(),
{
    reveal_with_fuel(action_count, 1);
    if inputs.len() > 0 {
        let (next, acts) = step_spec(phase, inputs[0]);
        lemma_step_pnl(phase, inputs[0]);
        lemma_run_pnl(next, inputs.drop_first());
        lemma_count_append(
            acts,
            run_from(next, inputs.drop_first()).1,
            |a: SettlementAction| a is RecordRealizedPnl,
        );
    }
}

/// Every settlement asks exactly once to add its realised profit or loss to
/// the day's history once its balance has moved, and never before: a
/// completed settlement, buy or sell, asks for it exactly once, and one that
/// failed before its balance moved never does.
pub proof fn lemma_realized_pnl_recorded_once(is_buy: bool, inputs: Seq<SettlementInput>)
    ensures
        ({
            let (start, first) = begin_spec(is_buy);
            let (end, rest) = run_from(start, inputs);
            &&& pnl_requests(first + rest) == (if past_balance(end) {
                1nat
            } else {
                0nat
            })
            &&& end == SettlementPhase::Done(SettlementStatus::Success) ==> pnl_requests(first + rest)
                == 1
        }),
{
    let (start, first) = begin_spec(is_buy);
    reveal_with_fuel(action_count, 3);
    assert(pnl_requests(first) == 0);
    lemma_run_pnl(start, inputs);
    lemma_count_append(first, run_from(start, inputs).1, |a: SettlementAction| a is RecordRealizedPnl);
}

/// A completed settlement, buy or sell, with or without a fee entry, asks
/// exactly once for its realised profit or loss to be recorded.
pub proof fn lemma_completed_settlement_records_pnl(is_buy: bool, fee_positive: bool)
    ensures
        ({
            let (start, first) = begin_spec(is_buy);
            pnl_requests(first + run_from(start, happy_inputs(is_buy, fee_positive)).1) == 1
        }),
{
    lemma_completed_settlement(is_buy, fee_positive);
    lemma_realized_pnl_recorded_once(is_buy, happy_inputs(is_buy, fee_positive));
}

} // verus!
