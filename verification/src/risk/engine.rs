//! Risk engine decisions: how rule results and the risk score combine into
//! Accept / Review / Reject, the statistics kept across evaluations, the
//! reasons and suggestions attached to a decision, and which event kind a
//! rule warning is recorded under.

use vstd::prelude::*;

use crate::risk::events::RiskEventKind;
use crate::risk::rules::RuleResult;
use crate::text::{owned, text_eq};

verus! {

/// Final decision of the risk engine on a trade suggestion.
#[derive(Debug, Clone, Copy, PartialEq, Eq, Structural)]
pub enum RiskDecision {
    /// Passed every check: approved.
    Accept,
    /// Some indicator close to its limit: manual review advised.
    Review,
    /// A hard limit was hit: the trade is blocked.
    Reject,
}

/// Chinese name of each decision.
pub open spec fn decision_zh(d: RiskDecision) -> Seq<char> {
    match d {
        RiskDecision::Accept => "接受"@,
        RiskDecision::Review => "需审核"@,
        RiskDecision::Reject => "拒绝"@,
    }
}

/// The decision for given check outcomes: any rejecting rule rejects; a
/// warning or a score below the accept threshold sends the trade to review,
/// unless the score is also below the review threshold, which rejects.
pub open spec fn decision_for(
    any_reject: bool,
    any_warning: bool,
    below_accept: bool,
    below_review: bool,
) -> RiskDecision {
    if any_reject {
        RiskDecision::Reject
    } else if any_warning || below_accept {
        if below_review {
            RiskDecision::Reject
        } else {
            RiskDecision::Review
        }
    } else {
        RiskDecision::Accept
    }
}

impl RiskDecision {
    /// Chinese name.
    pub fn as_zh(&self) -> (s: &'static str)
        ensures
            s@ == decision_zh(*self),
    {
        match self {
            RiskDecision::Accept => "接受",
            RiskDecision::Review => "需审核",
            RiskDecision::Reject => "拒绝",
        }
    }

    /// The decision for the outcomes of the rules and of the score
    /// (`below_accept`: score < accept threshold; `below_review`: score <
    /// review threshold).
    pub fn from_checks(any_reject: bool, any_warning: bool, below_accept: bool, below_review: bool) -> (r:
        Self)
        ensures
            r == decision_for(any_reject, any_warning, below_accept, below_review),
    {
        if any_reject {
            RiskDecision::Reject
        } else if any_warning || below_accept {
            if below_review {
                RiskDecision::Reject
            } else {
                RiskDecision::Review
            }
        } else {
            RiskDecision::Accept
        }
    }
}

/// The risk engine has the final veto: a rejecting rule always rejects, and a
/// trade is accepted only when no rule rejects or warns and the score reaches
/// the accept threshold.
pub proof fn lemma_rule_rejection_is_final(
    any_reject: bool,
    any_warning: bool,
    below_accept: bool,
    below_review: bool,
)
    ensures
        any_reject ==> decision_for(any_reject, any_warning, below_accept, below_review)
            == RiskDecision::Reject,
        decision_for(any_reject, any_warning, below_accept, below_review) == RiskDecision::Accept
            <==> !any_reject && !any_warning && !below_accept,
{
}

/// Whether some rule result rejects.
pub open spec fn any_rejects(rs: Seq<RuleResult>) -> bool {
    exists|i: int| 0 <= i < rs.len() && rs[i] is Reject
}

/// Whether some rule result warns.
pub open spec fn any_warns(rs: Seq<RuleResult>) -> bool {
    exists|i: int| 0 <= i < rs.len() && rs[i] is Warn
}

/// Scans rule results for a rejection and for a warning.
pub fn scan_rule_results(results: &Vec<RuleResult>) -> (r: (bool, bool))
    ensures
        r.0 == any_rejects(results@),
        r.1 == any_warns(results@),
{
    let mut any_reject = false;
    let mut any_warning = false;
    let mut i: usize = 0;
    while i < results.len()
        invariant
            i <= results@.len(),
            any_reject == exists|j: int| 0 <= j < i && results@[j] is Reject,
            any_warning == exists|j: int| 0 <= j < i && results@[j] is Warn,
        decreases results@.len() - i,
    {
        if results[i].is_reject() {
            any_reject = true;
        }
        if results[i].is_warn() {
            any_warning = true;
        }
        i = i + 1;
    }
    (any_reject, any_warning)
}

/// Reason line of a rule: `"[" + rule name + "] " + message`.
pub fn rule_reason(rule_name: &str, message: &str) -> (s: String)
    ensures
        s@ == "["@ + rule_name@ + "] "@ + message@,
{
    let mut s = owned("[");
    s.append(rule_name);
    s.append("] ");
    s.append(message);
    s
}

/// Suggestion texts attached to a decision.
pub open spec fn suggestions_for(decision: RiskDecision, below_review: bool) -> Seq<Seq<char>> {
    match decision {
        RiskDecision::Reject => if below_review {
            seq!["风险评分过低，建议等待市场条件改善后再尝试"@, "检查各项风险指标，调整仓位规模或选择更低风险的机会"@]
        } else {
            seq!["检查各项风险指标，调整仓位规模或选择更低风险的机会"@]
        },
        RiskDecision::Review => seq!["部分风险指标接近上限，建议人工审核确认后手动放行"@],
        RiskDecision::Accept => Seq::empty(),
    }
}

/// The suggestions the engine attaches to a decision (`below_review`: the
/// score is below the review threshold).
pub fn decision_suggestions(decision: RiskDecision, below_review: bool) -> (r: Vec<String>)
    ensures
        r@.len() == suggestions_for(decision, below_review).len(),
        forall|i: int|
            0 <= i < r@.len() ==> (#[trigger] r@[i])@ == suggestions_for(decision, below_review)[i],
{
    let mut r: Vec<String> = Vec::new();
    match decision {
        RiskDecision::Reject => {
            if below_review {
                r.push(owned("风险评分过低，建议等待市场条件改善后再尝试"));
            }
            r.push(owned("检查各项风险指标，调整仓位规模或选择更低风险的机会"));
        },
        RiskDecision::Review => {
            r.push(owned("部分风险指标接近上限，建议人工审核确认后手动放行"));
        },
        RiskDecision::Accept => {},
    }
    r
}

/// Event kind under which a warning of the named rule is recorded.
pub open spec fn warning_kind_for(rule_name: Seq<char>) -> RiskEventKind {
    if rule_name == "最大持仓数量"@ {
        RiskEventKind::PositionLimit
    } else if rule_name == "暴露限制"@ {
        RiskEventKind::ExposureLimit
    } else if rule_name == "每日最大亏损"@ {
        RiskEventKind::DailyLossLimit
    } else if rule_name == "最低流动性"@ {
        RiskEventKind::LiquidityWarning
    } else if rule_name == "最大回撤"@ {
        RiskEventKind::DrawdownWarning
    } else if rule_name == "连续亏损限制"@ {
        RiskEventKind::ConsecutiveLossLimit
    } else if rule_name == "最大单笔资金占用"@ {
        RiskEventKind::CapitalUsageWarning
    } else {
        RiskEventKind::RiskReview
    }
}

/// The event kind of a warning raised by the rule named `rule_name`.
pub fn warning_event_kind(rule_name: &str) -> (k: RiskEventKind)
    ensures
        k == warning_kind_for(rule_name@),
{
    if text_eq(rule_name, "最大持仓数量") {
        RiskEventKind::PositionLimit
    } else if text_eq(rule_name, "暴露限制") {
        RiskEventKind::ExposureLimit
    } else if text_eq(rule_name, "每日最大亏损") {
        RiskEventKind::DailyLossLimit
    } else if text_eq(rule_name, "最低流动性") {
        RiskEventKind::LiquidityWarning
    } else if text_eq(rule_name, "最大回撤") {
        RiskEventKind::DrawdownWarning
    } else if text_eq(rule_name, "连续亏损限制") {
        RiskEventKind::ConsecutiveLossLimit
    } else if text_eq(rule_name, "最大单笔资金占用") {
        RiskEventKind::CapitalUsageWarning
    } else {
        RiskEventKind::RiskReview
    }
}

/// Statistics of the engine across evaluations.
#[derive(Debug, Clone, Copy)]
pub struct RiskEngineStats {
    /// Evaluations run.
    pub total_evaluations: u64,
    /// Accepted suggestions.
    pub accepted: u64,
    /// Suggestions sent to review.
    pub reviewed: u64,
    /// Rejected suggestions.
    pub rejected: u64,
    /// Risk events triggered by rules.
    pub total_events: u64,
}

impl RiskEngineStats {
    /// Every evaluation is counted as exactly one of accepted, reviewed or
    /// rejected (kept by `record_evaluation`, holds of the default).
    pub open spec fn balanced(self) -> bool {
        self.total_evaluations == self.accepted + self.reviewed + self.rejected
    }

    /// Counts one evaluation with its decision and the number of events its
    /// rules triggered.
    pub fn record_evaluation(&mut self, decision: RiskDecision, triggered_events: u64)
        requires
            old(self).total_evaluations < u64::MAX,
            old(self).accepted < u64::MAX,
            old(self).reviewed < u64::MAX,
            old(self).rejected < u64::MAX,
            old(self).total_events + triggered_events <= u64::MAX,
        ensures
            final(self).total_evaluations == old(self).total_evaluations + 1,
            final(self).accepted == old(self).accepted + if decision == RiskDecision::Accept {
                1int
            } else {
                0int
            },
            final(self).reviewed == old(self).reviewed + if decision == RiskDecision::Review {
                1int
            } else {
                0int
            },
            final(self).rejected == old(self).rejected + if decision == RiskDecision::Reject {
                1int
            } else {
                0int
            },
            final(self).total_events == old(self).total_events + triggered_events,
            old(self).balanced() ==> final(self).balanced(),
    {
        self.total_evaluations = self.total_evaluations + 1;
        match decision {
            RiskDecision::Accept => self.accepted = self.accepted + 1,
            RiskDecision::Review => self.reviewed = self.reviewed + 1,
            RiskDecision::Reject => self.rejected = self.rejected + 1,
        }
        self.total_events = self.total_events + triggered_events;
    }
}

impl Default for RiskEngineStats {
    fn default() -> (r: Self)
        ensures
            r.total_evaluations == 0,
            r.accepted == 0,
            r.reviewed == 0,
            r.rejected == 0,
            r.total_events == 0,
            r.balanced(),
    {
        RiskEngineStats { total_evaluations: 0, accepted: 0, reviewed: 0, rejected: 0, total_events: 0 }
    }
}

/// A rule's name with the result of its check.
#[derive(Debug, Clone)]
pub struct RuleCheck {
    pub name: String,
    pub result: RuleResult,
}

/// A risk event raised by a rule during an evaluation.
#[derive(Debug, Clone)]
pub struct RaisedEvent {
    pub kind: RiskEventKind,
    pub description: String,
}

/// What the engine concludes from the rule checks of one evaluation.
#[derive(Debug, Clone)]
pub struct RuleVerdict {
    pub decision: RiskDecision,
    /// `[rule] message` for every rule that warned or rejected, in rule order.
    pub reasons: Vec<String>,
    /// The event each warning or rejection raised, in rule order.
    pub events: Vec<RaisedEvent>,
    /// Suggestions attached to the decision.
    pub suggestions: Vec<String>,
}

/// The results of a sequence of rule checks.
pub open spec fn check_results(checks: Seq<RuleCheck>) -> Seq<RuleResult> {
    checks.map_values(|c: RuleCheck| c.result)
}

/// The reason line a check contributes, if it warned or rejected.
pub open spec fn check_reason(c: RuleCheck) -> Option<Seq<char>> {
    match c.result {
        RuleResult::Pass => None,
        RuleResult::Warn(m) => Some("["@ + c.name@ + "] "@ + m@),
        RuleResult::Reject(m) => Some("["@ + c.name@ + "] "@ + m@),
    }
}

/// The event a check raises, if it warned or rejected: a warning is recorded
/// under the kind of its rule, a rejection as a risk rejection; the
/// description is `rule: message`.
pub open spec fn check_event(c: RuleCheck) -> Option<(RiskEventKind, Seq<char>)> {
    match c.result {
        RuleResult::Pass => None,
        RuleResult::Warn(m) => Some((warning_kind_for(c.name@), c.name@ + ": "@ + m@)),
        RuleResult::Reject(m) => Some((RiskEventKind::RiskReject, c.name@ + ": "@ + m@)),
    }
}

/// Reason lines of a sequence of checks, in order.
pub open spec fn reasons_of(checks: Seq<RuleCheck>) -> Seq<Seq<char>>
    decreases checks.len(),
{
    if checks.len() == 0 {
        Seq::empty()
    } else {
        match check_reason(checks.last()) {
            Some(r) => reasons_of(checks.drop_last()).push(r),
            None => reasons_of(checks.drop_last()),
        }
    }
}

/// Events raised by a sequence of checks, in order.
pub open spec fn events_of(checks: Seq<RuleCheck>) -> Seq<(RiskEventKind, Seq<char>)>
    decreases checks.len(),
{
    if checks.len() == 0 {
        Seq::empty()
    } else {
        match check_event(checks.last()) {
            Some(e) => events_of(checks.drop_last()).push(e),
            None => events_of(checks.drop_last()),
        }
    }
}

fn event_description(rule_name: &str, message: &str) -> (s: String)
    ensures
        s@ == rule_name@ + ": "@ + message@,
{
    let mut s = owned(rule_name);
    s.append(": ");
    s.append(message);
    s
}

/// Judges the checks of one evaluation: the decision (any rejection
/// rejects; a warning or a score below the accept threshold sends to review,
/// or rejects below the review threshold), the reason lines, the events the
/// warnings and rejections raise, and the suggestions for the decision.
pub fn judge_rule_checks(checks: &Vec<RuleCheck>, below_accept: bool, below_review: bool) -> (r:
    RuleVerdict)
    ensures
        r.decision == decision_for(
            any_rejects(check_results(checks@)),
            any_warns(check_results(checks@)),
            below_accept,
            below_review,
        ),
        r.reasons@.len() == reasons_of(checks@).len(),
        forall|i: int| 0 <= i < r.reasons@.len() ==> (#[trigger] r.reasons@[i])@ == reasons_of(checks@)[i],
        r.events@.len() == events_of(checks@).len(),
        forall|i: int|
            0 <= i < r.events@.len() ==> (#[trigger] r.events@[i]).kind == events_of(checks@)[i].0
                && r.events@[i].description@ == events_of(checks@)[i].1,
        r.suggestions@.len() == suggestions_for(r.decision, below_review).len(),
        forall|i: int|
            0 <= i < r.suggestions@.len() ==> (#[trigger] r.suggestions@[i])@ == suggestions_for(
                r.decision,
                below_review,
            )[i],
{
    let mut any_reject = false;
    let mut any_warning = false;
    let mut reasons: Vec<String> = Vec::new();
    let mut events: Vec<RaisedEvent> = Vec::new();
    let n = checks.len();
    let mut i: usize = 0;
    while i < n
        invariant
            n == checks@.len(),
            i <= n,
            any_reject == exists|j: int| 0 <= j < i && checks@[j].result is Reject,
            any_warning == exists|j: int| 0 <= j < i && checks@[j].result is Warn,
            reasons@.len() == reasons_of(checks@.take(i as int)).len(),
            forall|k: int|
                0 <= k < reasons@.len() ==> (#[trigger] reasons@[k])@ == reasons_of(
                    checks@.take(i as int),
                )[k],
            events@.len() == events_of(checks@.take(i as int)).len(),
            forall|k: int|
                0 <= k < events@.len() ==> (#[trigger] events@[k]).kind == events_of(
                    checks@.take(i as int),
                )[k].0 && events@[k].description@ == events_of(checks@.take(i as int))[k].1,
        decreases n - i,
    {
        let ghost prev = checks@.take(i as int);
        let ghost next = checks@.take(i + 1);
        assert(next.drop_last() =~= prev);
        assert(next.last() == checks@[i as int]);
        let c = &checks[i];
        match &c.result {
            RuleResult::Pass => {},
            RuleResult::Warn(m) => {
                any_warning = true;
                reasons.push(rule_reason(c.name.as_str(), m.as_str()));
                events.push(
                    RaisedEvent {
                        kind: warning_event_kind(c.name.as_str()),
                        description: event_description(c.name.as_str(), m.as_str()),
                    },
                );
            },
            RuleResult::Reject(m) => {
                any_reject = true;
                reasons.push(rule_reason(c.name.as_str(), m.as_str()));
                events.push(
                    RaisedEvent {
                        kind: RiskEventKind::RiskReject,
                        description: event_description(c.name.as_str(), m.as_str()),
                    },
                );
            },
        }
        i = i + 1;
    }
    assert(checks@.take(n as int) =~= checks@);
    assert(any_reject == any_rejects(check_results(checks@))) by {
        if any_reject {
            let j = choose|j: int| 0 <= j < n && checks@[j].result is Reject;
            assert(check_results(checks@)[j] is Reject);
        }
    }
    assert(any_warning == any_warns(check_results(checks@))) by {
        if any_warning {
            let j = choose|j: int| 0 <= j < n && checks@[j].result is Warn;
            assert(check_results(checks@)[j] is Warn);
        }
    }
    let decision = RiskDecision::from_checks(any_reject, any_warning, below_accept, below_review);
    let suggestions = decision_suggestions(decision, below_review);
    RuleVerdict { decision, reasons, events, suggestions }
}

} // verus!
