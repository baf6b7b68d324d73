//! Settlement validation: single rule results, their aggregation into an
//! outcome with its failure reasons and summary, the validator's rule
//! switches, and the field-completeness rule of a fill.

use vstd::prelude::*;

use crate::text::{join_texts, joined, owned, text_eq};

verus! {

/// Result of one validation rule.
#[derive(Debug, Clone)]
pub struct ValidationResult {
    /// Rule name.
    pub rule: String,
    /// Whether the rule passed.
    pub passed: bool,
    /// Reason (empty when passed).
    pub reason: String,
}

impl ValidationResult {
    /// A passed rule.
    pub fn pass(rule: &str) -> (r: Self)
        ensures
            r.rule@ == rule@,
            r.passed,
            r.reason@ == Seq::<char>::empty(),
    {
        ValidationResult { rule: owned(rule), passed: true, reason: String::new() }
    }

    /// A failed rule with its reason.
    pub fn fail(rule: &str, reason: &str) -> (r: Self)
        ensures
            r.rule@ == rule@,
            !r.passed,
            r.reason@ == reason@,
    {
        ValidationResult { rule: owned(rule), passed: false, reason: owned(reason) }
    }
}

/// `"[" + rule + "] " + reason` for each failed result, in order.
pub open spec fn failure_lines(rs: Seq<ValidationResult>) -> Seq<Seq<char>>
    decreases rs.len(),
{
    if rs.len() == 0 {
        Seq::empty()
    } else if rs.last().passed {
        failure_lines(rs.drop_last())
    } else {
        failure_lines(rs.drop_last()).push("["@ + rs.last().rule@ + "] "@ + rs.last().reason@)
    }
}

/// Whether every result passed.
pub open spec fn all_pass(rs: Seq<ValidationResult>) -> bool {
    forall|i: int| 0 <= i < rs.len() ==> (#[trigger] rs[i]).passed
}

/// Results of all rules for one fill.
#[derive(Debug, Clone)]
pub struct ValidationOutcome {
    pub results: Vec<ValidationResult>,
    pub all_passed: bool,
}

proof fn lemma_no_failure_lines(rs: Seq<ValidationResult>)
    requires
        all_pass(rs),
    ensures
        failure_lines(rs).len() == 0,
    decreases rs.len(),
{
    if rs.len() > 0 {
        lemma_no_failure_lines(rs.drop_last());
    }
}

proof fn lemma_some_failure_line(rs: Seq<ValidationResult>)
    requires
        !all_pass(rs),
    ensures
        failure_lines(rs).len() > 0,
    decreases rs.len(),
{
    if rs.len() > 0 && rs.last().passed {
        assert(!all_pass(rs.drop_last())) by {
            let i = choose|i: int| 0 <= i < rs.len() && !(#[trigger] rs[i]).passed;
            assert(rs.drop_last()[i] == rs[i]);
        }
        lemma_some_failure_line(rs.drop_last());
    }
}

impl ValidationOutcome {
    /// Aggregates rule results; the outcome passes when every rule passed.
    pub fn new(results: Vec<ValidationResult>) -> (r: Self)
        ensures
            r.results@ == results@,
            r.all_passed == all_pass(results@),
    {
        let mut all = true;
        let mut i: usize = 0;
        while i < results.len()
            invariant
                i <= results@.len(),
                all == forall|j: int| 0 <= j < i ==> (#[trigger] results@[j]).passed,
            decreases results@.len() - i,
        {
            if !results[i].passed {
                all = false;
            }
            i = i + 1;
        }
        ValidationOutcome { results, all_passed: all }
    }

    /// `"[rule] reason"` of every failed rule, in order.
    pub fn failure_reasons(&self) -> (r: Vec<String>)
        ensures
            r@.len() == failure_lines(self.results@).len(),
            forall|i: int|
                0 <= i < r@.len() ==> (#[trigger] r@[i])@ == failure_lines(self.results@)[i],
    {
        let mut r: Vec<String> = Vec::new();
        let mut i: usize = 0;
        assert(self.results@.take(0) =~= Seq::<ValidationResult>::empty());
        while i < self.results.len()
            invariant
                i <= self.results@.len(),
                r@.len() == failure_lines(self.results@.take(i as int)).len(),
                forall|k: int|
                    0 <= k < r@.len() ==> (#[trigger] r@[k])@ == failure_lines(
                        self.results@.take(i as int),
                    )[k],
            decreases self.results@.len() - i,
        {
            let ghost next = self.results@.take(i + 1);
            assert(next.drop_last() =~= self.results@.take(i as int));
            assert(next.last() == self.results@[i as int]);
            let res = &self.results[i];
            if !res.passed {
                let mut line = owned("[");
                line.append(res.rule.as_str());
                line.append("] ");
                line.append(res.reason.as_str());
                r.push(line);
            }
            i = i + 1;
        }
        assert(self.results@.take(self.results@.len() as int) =~= self.results@);
        r
    }

    /// `"全部校验通过"` when every rule passed, otherwise `"校验失败: "`
    /// followed by the failure reasons joined by `"; "`.
    pub fn summary_zh(&self) -> (s: String)
        ensures
            self.all_passed ==> s@ == "全部校验通过"@,
            !self.all_passed ==> s@ == "校验失败: "@ + joined(failure_lines(self.results@), "; "@),
    {
        if self.all_passed {
            owned("全部校验通过")
        } else {
            let reasons = self.failure_reasons();
            assert(reasons@.map_values(|l: String| l@) =~= failure_lines(self.results@));
            let mut s = owned("校验失败: ");
            s.append(join_texts(&reasons, "; ").as_str());
            s
        }
    }
}

/// Names of the validator's rules, in the order they run.
pub open spec fn default_rule_names() -> Seq<Seq<char>> {
    seq![
        "成交价格合法"@,
        "成交数量合法"@,
        "成交方向合法"@,
        "余额充足"@,
        "手续费正确"@,
        "持仓状态合法"@,
        "结算一致性"@,
    ]
}

/// The default rules, all enabled, in order.
pub open spec fn default_rules() -> Seq<(Seq<char>, bool)> {
    default_rule_names().map_values(|n: Seq<char>| (n, true))
}

/// The rules after switching every rule named `name` to `enabled`.
pub open spec fn switched(rules: Seq<(Seq<char>, bool)>, name: Seq<char>, enabled: bool) -> Seq<
    (Seq<char>, bool),
> {
    rules.map_values(
        |e: (Seq<char>, bool)|
            if e.0 == name {
                (e.0, enabled)
            } else {
                e
            },
    )
}

/// The rules after a sequence of switches `(name, enabled)`, applied in order.
pub open spec fn switched_all(rules: Seq<(Seq<char>, bool)>, switches: Seq<(Seq<char>, bool)>) -> Seq<
    (Seq<char>, bool),
>
    decreases switches.len(),
{
    if switches.len() == 0 {
        rules
    } else {
        switched_all(switched(rules, switches[0].0, switches[0].1), switches.drop_first())
    }
}

/// The rule named `name` is known and switched off.
pub open spec fn rule_disabled(rules: Seq<(Seq<char>, bool)>, name: Seq<char>) -> bool {
    exists|i: int| 0 <= i < rules.len() && (#[trigger] rules[i]).0 == name && !rules[i].1
}

/// The results that are enforced: those of rules not switched off, in order.
pub open spec fn enforced(rules: Seq<(Seq<char>, bool)>, rs: Seq<ValidationResult>) -> Seq<
    ValidationResult,
>
    decreases rs.len(),
{
    if rs.len() == 0 {
        Seq::empty()
    } else if rule_disabled(rules, rs.last().rule@) {
        enforced(rules, rs.drop_last())
    } else {
        enforced(rules, rs.drop_last()).push(rs.last())
    }
}

/// Settlement validator: the rules it knows, each with an on/off switch.
#[derive(Debug, Clone)]
pub struct SettlementValidator {
    enabled_rules: Vec<(String, bool)>,
}

impl SettlementValidator {
    /// Rules as (name, enabled), in order.
    pub closed spec fn rules(&self) -> Seq<(Seq<char>, bool)> {
        self.enabled_rules@.map_values(|e: (String, bool)| (e.0@, e.1))
    }

    /// A validator with the seven default rules, all enabled.
    pub fn with_default_rules() -> (r: Self)
        ensures
            r.rules() == default_rules(),
            r.rules().len() == 7,
            forall|i: int|
                0 <= i < 7 ==> (#[trigger] r.rules()[i]).0 == default_rule_names()[i]
                    && r.rules()[i].1,
    {
        let mut rules: Vec<(String, bool)> = Vec::new();
        rules.push((owned("成交价格合法"), true));
        rules.push((owned("成交数量合法"), true));
        rules.push((owned("成交方向合法"), true));
        rules.push((owned("余额充足"), true));
        rules.push((owned("手续费正确"), true));
        rules.push((owned("持仓状态合法"), true));
        rules.push((owned("结算一致性"), true));
        let r = SettlementValidator { enabled_rules: rules };
        assert(r.rules() =~= default_rules());
        r
    }

    /// Number of rules.
    pub fn rule_count(&self) -> (r: usize)
        ensures
            r == self.rules().len(),
    {
        self.enabled_rules.len()
    }

    /// Switches every rule named `name` on or off; other rules are unchanged.
    pub fn set_rule(&mut self, name: &str, enabled: bool)
        ensures
            final(self).rules() == switched(old(self).rules(), name@, enabled),
            final(self).rules().len() == old(self).rules().len(),
            forall|i: int|
                0 <= i < old(self).rules().len() ==> (#[trigger] final(self).rules()[i]).0 == old(
                    self,
                ).rules()[i].0 && final(self).rules()[i].1 == if old(self).rules()[i].0 == name@ {
                    enabled
                } else {
                    old(self).rules()[i].1
                },
    {
        let ghost before = self.rules();
        let mut i: usize = 0;
        while i < self.enabled_rules.len()
            invariant
                i <= self.enabled_rules@.len(),
                self.rules().len() == before.len(),
                forall|k: int|
                    0 <= k < before.len() ==> (#[trigger] self.rules()[k]).0 == before[k].0,
                forall|k: int|
                    0 <= k < i ==> (#[trigger] self.rules()[k]).1 == if before[k].0 == name@ {
                        enabled
                    } else {
                        before[k].1
                    },
                forall|k: int| i <= k < before.len() ==> (#[trigger] self.rules()[k]).1 == before[k].1,
            decreases self.enabled_rules@.len() - i,
        {
            let ghost prev = self.rules();
            if text_eq(self.enabled_rules[i].0.as_str(), name) {
                let entry = (self.enabled_rules[i].0.clone(), enabled);
                self.enabled_rules.set(i, entry);
                assert(self.rules() =~= prev.update(i as int, (prev[i as int].0, enabled)));
            }
            i = i + 1;
        }
        assert(self.rules() =~= switched(before, name@, enabled));
    }

    /// Whether the rule named `name` is present and enabled.
    pub fn is_enabled(&self, name: &str) -> (r: bool)
        ensures
            r == exists|i: int|
                0 <= i < self.rules().len() && (#[trigger] self.rules()[i]).0 == name@
                    && self.rules()[i].1,
    {
        let mut i: usize = 0;
        while i < self.enabled_rules.len()
            invariant
                i <= self.enabled_rules@.len(),
                forall|k: int|
                    0 <= k < i ==> !((#[trigger] self.rules()[k]).0 == name@ && self.rules()[k].1),
            decreases self.enabled_rules@.len() - i,
        {
            if self.enabled_rules[i].1 && text_eq(self.enabled_rules[i].0.as_str(), name) {
                assert(self.rules()[i as int] == (
                    self.enabled_rules@[i as int].0@,
                    self.enabled_rules@[i as int].1,
                ));
                return true;
            }
            i = i + 1;
        }
        false
    }

    /// Field completeness of a fill: trade, order, account and market ids
    /// must be non-empty, checked in that order.
    pub fn validate_consistency(
        &self,
        trade_id: &str,
        order_id: &str,
        account_id: &str,
        market_id: &str,
    ) -> (r: ValidationResult)
        ensures
            r.rule@ == "结算一致性"@,
            r.passed == (trade_id@.len() > 0 && order_id@.len() > 0 && account_id@.len() > 0
                && market_id@.len() > 0),
            r.reason@ == if trade_id@.len() == 0 {
                "TradeId 为空"@
            } else if order_id@.len() == 0 {
                "OrderId 为空"@
            } else if account_id@.len() == 0 {
                "AccountId 为空"@
            } else if market_id@.len() == 0 {
                "MarketId 为空"@
            } else {
                Seq::<char>::empty()
            },
    {
        if trade_id.unicode_len() == 0 {
            return ValidationResult::fail("结算一致性", "TradeId 为空");
        }
        if order_id.unicode_len() == 0 {
            return ValidationResult::fail("结算一致性", "OrderId 为空");
        }
        if account_id.unicode_len() == 0 {
            return ValidationResult::fail("结算一致性", "AccountId 为空");
        }
        if market_id.unicode_len() == 0 {
            return ValidationResult::fail("结算一致性", "MarketId 为空");
        }
        ValidationResult::pass("结算一致性")
    }
}

/// What position validation reads of the open position found for a fill.
#[derive(Debug, Clone)]
pub struct PositionFacts {
    /// Market of the position.
    pub market_id: String,
    /// Direction of the position, by its display name.
    pub direction: String,
    /// The position is already fully closed.
    pub is_closed: bool,
    /// The position holds at least the filled quantity.
    pub covers_fill: bool,
    /// Quantity held, as displayed (two decimals).
    pub quantity_text: String,
}

/// The verdict of the position rule: `(passed, reason)`. Only a sell is
/// checked; it needs an open position of the same market and direction
/// holding at least the filled quantity.
pub open spec fn position_verdict(
    is_sell: bool,
    fill_market: Seq<char>,
    fill_direction: Seq<char>,
    fill_quantity_text: Seq<char>,
    position: Option<PositionFacts>,
) -> (bool, Seq<char>) {
    if !is_sell {
        (true, Seq::empty())
    } else {
        match position {
            None => (false, "平仓失败：无对应持仓"@),
            Some(p) => if p.is_closed {
                (false, "持仓已平仓，不可继续平仓"@)
            } else if p.market_id@ != fill_market {
                (false, "市场不匹配: 持仓 "@ + p.market_id@ + " vs 成交 "@ + fill_market)
            } else if p.direction@ != fill_direction {
                (false, "方向不匹配: 持仓 "@ + p.direction@ + " vs 成交 "@ + fill_direction)
            } else if !p.covers_fill {
                (false, "持仓数量不足: 需要 "@ + fill_quantity_text + ", 持有 "@ + p.quantity_text@)
            } else {
                (true, Seq::empty())
            },
        }
    }
}

/// The position found for a fill, by value.
pub open spec fn found(position: Option<&PositionFacts>) -> Option<PositionFacts> {
    match position {
        Some(p) => Some(*p),
        None => None,
    }
}

fn join4(a: &str, b: &str, c: &str, d: &str) -> (s: String)
    ensures
        s@ == a@ + b@ + c@ + d@,
{
    let mut s = owned(a);
    s.append(b);
    s.append(c);
    s.append(d);
    s
}

impl SettlementValidator {
    /// The position rule for a fill: a sell must close an open position of
    /// the same market and direction that holds at least the filled quantity.
    pub fn validate_position(
        &self,
        is_sell: bool,
        fill_market: &str,
        fill_direction: &str,
        fill_quantity_text: &str,
        position: Option<&PositionFacts>,
    ) -> (r: ValidationResult)
        ensures
            r.rule@ == "持仓状态合法"@,
            r.passed == position_verdict(is_sell, fill_market@, fill_direction@, fill_quantity_text@, found(position)).0,
            r.reason@ == position_verdict(is_sell, fill_market@, fill_direction@, fill_quantity_text@, found(position)).1,
            r.passed <==> (!is_sell || (position is Some && !position->0.is_closed
                && position->0.market_id@ == fill_market@ && position->0.direction@ == fill_direction@
                && position->0.covers_fill)),
    {
        if !is_sell {
            return ValidationResult::pass("持仓状态合法");
        }
        match position {
            None => ValidationResult::fail("持仓状态合法", "平仓失败：无对应持仓"),
            Some(p) => {
                if p.is_closed {
                    ValidationResult::fail("持仓状态合法", "持仓已平仓，不可继续平仓")
                } else if !text_eq(p.market_id.as_str(), fill_market) {
                    let reason = join4("市场不匹配: 持仓 ", p.market_id.as_str(), " vs 成交 ", fill_market);
                    ValidationResult { rule: owned("持仓状态合法"), passed: false, reason }
                } else if !text_eq(p.direction.as_str(), fill_direction) {
                    let reason = join4("方向不匹配: 持仓 ", p.direction.as_str(), " vs 成交 ", fill_direction);
                    ValidationResult { rule: owned("持仓状态合法"), passed: false, reason }
                } else if !p.covers_fill {
                    let reason = join4("持仓数量不足: 需要 ", fill_quantity_text, ", 持有 ", p.quantity_text.as_str());
                    ValidationResult { rule: owned("持仓状态合法"), passed: false, reason }
                } else {
                    ValidationResult::pass("持仓状态合法")
                }
            },
        }
    }
}

impl SettlementValidator {
    /// Whether the rule named `name` is known and switched off.
    fn is_disabled(&self, name: &str) -> (r: bool)
        ensures
            r == rule_disabled(self.rules(), name@),
    {
        let mut i: usize = 0;
        while i < self.enabled_rules.len()
            invariant
                i <= self.enabled_rules@.len(),
                forall|k: int|
                    0 <= k < i ==> !((#[trigger] self.rules()[k]).0 == name@ && !self.rules()[k].1),
            decreases self.enabled_rules@.len() - i,
        {
            if !self.enabled_rules[i].1 && text_eq(self.enabled_rules[i].0.as_str(), name) {
                assert(self.rules()[i as int] == (
                    self.enabled_rules@[i as int].0@,
                    self.enabled_rules@[i as int].1,
                ));
                return true;
            }
            i = i + 1;
        }
        false
    }

    /// The outcome of a fill from the results of the rules, in order: the
    /// results of rules switched off are not enforced and are left out; the
    /// fill passes when every enforced rule passed.
    pub fn outcome_of(&self, results: &Vec<ValidationResult>) -> (r: ValidationOutcome)
        ensures
            r.results@ == enforced(self.rules(), results@),
            r.all_passed == all_pass(enforced(self.rules(), results@)),
    {
        let mut kept: Vec<ValidationResult> = Vec::new();
        let mut i: usize = 0;
        assert(results@.take(0) =~= Seq::<ValidationResult>::empty());
        while i < results.len()
            invariant
                i <= results@.len(),
                kept@ == enforced(self.rules(), results@.take(i as int)),
            decreases results@.len() - i,
        {
            assert(results@.take(i + 1).drop_last() =~= results@.take(i as int));
            assert(results@.take(i + 1).last() == results@[i as int]);
            let res = &results[i];
            if !self.is_disabled(res.rule.as_str()) {
                let copy = ValidationResult {
                    rule: res.rule.clone(),
                    passed: res.passed,
                    reason: res.reason.clone(),
                };
                kept.push(copy);
            }
            i = i + 1;
        }
        assert(results@.take(results@.len() as int) =~= results@);
        ValidationOutcome::new(kept)
    }
}

proof fn lemma_switched_all_len(rules: Seq<(Seq<char>, bool)>, switches: Seq<(Seq<char>, bool)>)
    ensures
        switched_all(rules, switches).len() == rules.len(),
        forall|i: int|
            0 <= i < rules.len() ==> (#[trigger] switched_all(rules, switches)[i]).0 == rules[i].0,
    decreases switches.len(),
{
    if switches.len() > 0 {
        let next = switched(rules, switches[0].0, switches[0].1);
        lemma_switched_all_len(next, switches.drop_first());
        assert forall|i: int| 0 <= i < rules.len() implies (#[trigger] switched_all(
            rules,
            switches,
        )[i]).0 == rules[i].0 by {
            assert(next[i].0 == rules[i].0);
        }
    }
}

/// Switching rules on and off never adds or removes a rule: after any
/// sequence of switches, the default validator still has its seven rules,
/// under the same names and in the same order.
pub proof fn lemma_rule_count_kept(switches: Seq<(Seq<char>, bool)>)
    ensures
        switched_all(default_rules(), switches).len() == 7,
        forall|i: int|
            0 <= i < 7 ==> (#[trigger] switched_all(default_rules(), switches)[i]).0
                == default_rule_names()[i],
{
    lemma_switched_all_len(default_rules(), switches);
}

/// The position rule passes a sell only when an open position of the same
/// market and direction covers the filled quantity, and then with no reason;
/// a buy always passes it. Whenever it fails it gives a reason.
pub proof fn lemma_position_rule_guards_sells(
    is_sell: bool,
    fill_market: Seq<char>,
    fill_direction: Seq<char>,
    fill_quantity_text: Seq<char>,
    position: Option<PositionFacts>,
)
    ensures
        !is_sell ==> position_verdict(is_sell, fill_market, fill_direction, fill_quantity_text, position).0,
        is_sell ==> (position_verdict(is_sell, fill_market, fill_direction, fill_quantity_text, position).0
            <==> (position is Some && !position->0.is_closed && position->0.market_id@ == fill_market
            && position->0.direction@ == fill_direction && position->0.covers_fill)),
        position_verdict(is_sell, fill_market, fill_direction, fill_quantity_text, position).0 ==> position_verdict(
            is_sell,
            fill_market,
            fill_direction,
            fill_quantity_text,
            position,
        ).1.len() == 0,
        !position_verdict(is_sell, fill_market, fill_direction, fill_quantity_text, position).0 ==> position_verdict(
            is_sell,
            fill_market,
            fill_direction,
            fill_quantity_text,
            position,
        ).1.len() > 0,
{
    reveal_strlit("平仓失败：无对应持仓");
    reveal_strlit("持仓已平仓，不可继续平仓");
    reveal_strlit("市场不匹配: 持仓 ");
    reveal_strlit("方向不匹配: 持仓 ");
    reveal_strlit("持仓数量不足: 需要 ");
}

impl Default for SettlementValidator {
    fn default() -> (r: Self)
        ensures
            r.rules() == default_rules(),
            r.rules().len() == 7,
            forall|i: int|
                0 <= i < 7 ==> (#[trigger] r.rules()[i]).0 == default_rule_names()[i]
                    && r.rules()[i].1,
    {
        Self::with_default_rules()
    }
}

/// An outcome fails exactly when its summary carries at least one failure
/// reason.
pub proof fn lemma_outcome_fails_iff_reasons(rs: Seq<ValidationResult>)
    ensures
        all_pass(rs) <==> failure_lines(rs).len() == 0,
{
    if all_pass(rs) {
        lemma_no_failure_lines(rs);
    } else {
        lemma_some_failure_line(rs);
    }
}

} // verus!
