//! The Chinese explanation attached to every risk decision: the decision,
//! the risk score, the reasons and the suggestions.

use vstd::prelude::*;

use crate::risk::engine::RiskDecision;
use crate::text::{join_texts, joined, owned};

verus! {

/// Explanation of one risk decision. The score is carried as rendered text:
/// its one-line summary and its total rounded to a whole number.
#[derive(Debug, Clone)]
pub struct RiskExplain {
    pub decision: RiskDecision,
    /// The score's summary line.
    pub score_summary: String,
    /// The total score, rounded, as text.
    pub score_total: String,
    pub reasons: Vec<String>,
    pub suggestions: Vec<String>,
}

/// Marker and name of a decision in the explanation.
pub open spec fn decision_mark(d: RiskDecision) -> Seq<char> {
    match d {
        RiskDecision::Accept => "✅ 接受"@,
        RiskDecision::Review => "⚠️ 需审核"@,
        RiskDecision::Reject => "❌ 拒绝"@,
    }
}

/// Each item as a bullet line.
pub open spec fn bullets(items: Seq<Seq<char>>) -> Seq<Seq<char>> {
    items.map_values(|t: Seq<char>| "    - "@ + t)
}

/// A titled list of bullets followed by a blank line, or nothing when empty.
pub open spec fn section(title: Seq<char>, items: Seq<Seq<char>>) -> Seq<Seq<char>> {
    if items.len() == 0 {
        Seq::empty()
    } else {
        seq![title] + bullets(items) + seq![Seq::<char>::empty()]
    }
}

/// The lines of the explanation.
pub open spec fn explain_lines(
    decision: RiskDecision,
    score_summary: Seq<char>,
    reasons: Seq<Seq<char>>,
    suggestions: Seq<Seq<char>>,
) -> Seq<Seq<char>> {
    seq![
        "【风险审核结果】"@,
        Seq::<char>::empty(),
        "  决策："@ + decision_mark(decision),
        Seq::<char>::empty(),
        "  "@ + score_summary,
        Seq::<char>::empty(),
    ] + section("  理由："@, reasons) + section("  建议："@, suggestions) + if decision
        == RiskDecision::Accept && reasons.len() == 0 {
        seq!["  全部风险检查通过，交易建议已批准。"@]
    } else {
        Seq::<Seq<char>>::empty()
    }
}

/// The one-line form: the decision, the first reason (or a default) unless
/// accepted, and the score.
pub open spec fn one_line(decision: RiskDecision, score_total: Seq<char>, reasons: Seq<Seq<char>>) -> Seq<
    char,
> {
    match decision {
        RiskDecision::Accept => "✅ 接受 — 风险评分 "@ + score_total + "/100"@,
        RiskDecision::Review => "⚠️ 需审核 — "@ + (if reasons.len() > 0 {
            reasons[0]
        } else {
            "需人工审核"@
        }) + " — 风险评分 "@ + score_total + "/100"@,
        RiskDecision::Reject => "❌ 拒绝 — "@ + (if reasons.len() > 0 {
            reasons[0]
        } else {
            "未通过风险检查"@
        }) + " — 风险评分 "@ + score_total + "/100"@,
    }
}

/// The texts of a vector of strings.
pub open spec fn texts(v: Seq<String>) -> Seq<Seq<char>> {
    v.map_values(|s: String| s@)
}

fn push_section(lines: &mut Vec<String>, title: &str, items: &Vec<String>)
    ensures
        texts(final(lines)@) == texts(old(lines)@) + section(title@, texts(items@)),
{
    if items.len() == 0 {
        assert(texts(old(lines)@) + section(title@, texts(items@)) =~= texts(old(lines)@));
        return;
    }
    let ghost start = texts(lines@);
    let ghost prev0 = lines@;
    lines.push(owned(title));
    assert(texts(lines@) =~= texts(prev0).push(title@));
    assert(bullets(texts(items@).take(0)) =~= Seq::<Seq<char>>::empty());
    let mut i: usize = 0;
    while i < items.len()
        invariant
            i <= items@.len(),
            items@.len() > 0,
            texts(lines@) == start + seq![title@] + bullets(texts(items@).take(i as int)),
        decreases items@.len() - i,
    {
        let mut line = owned("    - ");
        line.append(items[i].as_str());
        let ghost prev = lines@;
        lines.push(line);
        assert(texts(lines@) =~= texts(prev).push("    - "@ + items@[i as int]@));
        assert(bullets(texts(items@).take(i + 1)) =~= bullets(texts(items@).take(i as int)).push(
            "    - "@ + items@[i as int]@,
        ));
        assert(texts(lines@) =~= start + seq![title@] + bullets(texts(items@).take(i + 1)));
        i = i + 1;
    }
    let ghost prev = lines@;
    lines.push(String::new());
    assert(texts(lines@) =~= texts(prev).push(Seq::<char>::empty()));
    assert(texts(items@).take(items@.len() as int) =~= texts(items@));
    assert(texts(lines@) =~= start + section(title@, texts(items@)));
}

impl RiskExplain {
    /// An explanation with no reason and no suggestion yet.
    pub fn new(decision: RiskDecision, score_summary: String, score_total: String) -> (r: Self)
        ensures
            r.decision == decision,
            r.score_summary == score_summary,
            r.score_total == score_total,
            r.reasons@.len() == 0,
            r.suggestions@.len() == 0,
    {
        RiskExplain { decision, score_summary, score_total, reasons: Vec::new(), suggestions: Vec::new() }
    }

    /// Adds a reason.
    pub fn add_reason(&mut self, reason: String)
        ensures
            final(self).reasons@ == old(self).reasons@.push(reason),
            final(self).suggestions@ == old(self).suggestions@,
            final(self).decision == old(self).decision,
            final(self).score_summary == old(self).score_summary,
            final(self).score_total == old(self).score_total,
    {
        self.reasons.push(reason);
    }

    /// Adds a suggestion.
    pub fn add_suggestion(&mut self, suggestion: String)
        ensures
            final(self).suggestions@ == old(self).suggestions@.push(suggestion),
            final(self).reasons@ == old(self).reasons@,
            final(self).decision == old(self).decision,
            final(self).score_summary == old(self).score_summary,
            final(self).score_total == old(self).score_total,
    {
        self.suggestions.push(suggestion);
    }

    /// The full Chinese explanation, one line per item.
    pub fn explain_zh(&self) -> (s: String)
        ensures
            s@ == joined(
                explain_lines(
                    self.decision,
                    self.score_summary@,
                    texts(self.reasons@),
                    texts(self.suggestions@),
                ),
                "\n"@,
            ),
    {
        let mut lines: Vec<String> = Vec::new();
        lines.push(owned("【风险审核结果】"));
        lines.push(String::new());
        let mut d = owned("  决策：");
        match self.decision {
            RiskDecision::Accept => d.append("✅ 接受"),
            RiskDecision::Review => d.append("⚠️ 需审核"),
            RiskDecision::Reject => d.append("❌ 拒绝"),
        }
        lines.push(d);
        lines.push(String::new());
        let mut sc = owned("  ");
        sc.append(self.score_summary.as_str());
        lines.push(sc);
        lines.push(String::new());
        assert(texts(lines@) =~= seq![
            "【风险审核结果】"@,
            Seq::<char>::empty(),
            "  决策："@ + decision_mark(self.decision),
            Seq::<char>::empty(),
            "  "@ + self.score_summary@,
            Seq::<char>::empty(),
        ]);
        push_section(&mut lines, "  理由：", &self.reasons);
        push_section(&mut lines, "  建议：", &self.suggestions);
        let ghost before = texts(lines@);
        if self.decision == RiskDecision::Accept && self.reasons.len() == 0 {
            lines.push(owned("  全部风险检查通过，交易建议已批准。"));
        }
        assert(texts(lines@) =~= explain_lines(
            self.decision,
            self.score_summary@,
            texts(self.reasons@),
            texts(self.suggestions@),
        ));
        join_texts(&lines, "\n")
    }

    /// The one-line form of the explanation.
    pub fn one_line_zh(&self) -> (s: String)
        ensures
            s@ == one_line(self.decision, self.score_total@, texts(self.reasons@)),
    {
        let mut s = String::new();
        match self.decision {
            RiskDecision::Accept => {
                s.append("✅ 接受 — 风险评分 ");
            },
            RiskDecision::Review => {
                s.append("⚠️ 需审核 — ");
                if self.reasons.len() > 0 {
                    s.append(self.reasons[0].as_str());
                } else {
                    s.append("需人工审核");
                }
                s.append(" — 风险评分 ");
            },
            RiskDecision::Reject => {
                s.append("❌ 拒绝 — ");
                if self.reasons.len() > 0 {
                    s.append(self.reasons[0].as_str());
                } else {
                    s.append("未通过风险检查");
                }
                s.append(" — 风险评分 ");
            },
        }
        s.append(self.score_total.as_str());
        s.append("/100");
        s
    }
}

} // verus!
