//! The risk engine's bookkeeping across evaluations: its statistics, the
//! risk events recorded since the last daily reset, and the rejections
//! counted since it started.

use vstd::prelude::*;

use crate::risk::engine::{RiskDecision, RiskEngineStats};
use crate::risk::events::{occurrences, RiskEventCollector, RiskEventKind};

verus! {

/// Kinds of the raised events, in order.
pub open spec fn raised_kinds<E>(raised: Seq<(RiskEventKind, E)>) -> Seq<RiskEventKind> {
    raised.map_values(|p: (RiskEventKind, E)| p.0)
}

/// Payloads of the raised events, in order.
pub open spec fn raised_payloads<E>(raised: Seq<(RiskEventKind, E)>) -> Seq<E> {
    raised.map_values(|p: (RiskEventKind, E)| p.1)
}

/// The review event of a decision: one `RiskReview` for a review, none
/// otherwise.
pub open spec fn review_kinds(decision: RiskDecision) -> Seq<RiskEventKind> {
    if decision == RiskDecision::Review {
        seq![RiskEventKind::RiskReview]
    } else {
        Seq::empty()
    }
}

/// One for `b`, zero otherwise.
pub open spec fn one_if(b: bool) -> nat {
    if b {
        1
    } else {
        0
    }
}

/// Statistics, events and rejection count of a risk engine.
pub struct RiskBook<E> {
    /// Evaluations and their decisions.
    pub stats: RiskEngineStats,
    /// Risk events since the last daily reset.
    pub collector: RiskEventCollector<E>,
    /// Rejections since the engine started.
    pub total_rejections: u64,
}

impl<E> RiskBook<E> {
    /// Every evaluation counted under one decision, the event counters
    /// matching the events, and every rejection counted once.
    pub open spec fn consistent(&self) -> bool {
        &&& self.stats.balanced()
        &&& self.collector.well_formed()
        &&& self.total_rejections == self.stats.rejected
    }

    /// A book with no evaluation and no event.
    pub fn new() -> (r: Self)
        ensures
            r.consistent(),
            r.stats.total_evaluations == 0,
            r.stats.accepted == 0,
            r.stats.reviewed == 0,
            r.stats.rejected == 0,
            r.stats.total_events == 0,
            r.collector.kinds().len() == 0,
            r.total_rejections == 0,
    {
        RiskBook { stats: RiskEngineStats::default(), collector: RiskEventCollector::new(), total_rejections: 0 }
    }

    /// Books one evaluation: the events its rules raised are recorded in
    /// order, followed by `review` as a `RiskReview` event when the decision
    /// is a review; the evaluation is counted under its decision with the
    /// number of raised events; a rejection is counted once more in the
    /// total.
    pub fn record_outcome(&mut self, decision: RiskDecision, raised: Vec<(RiskEventKind, E)>, review: E)
        requires
            old(self).consistent(),
            old(self).stats.total_evaluations < u64::MAX,
            old(self).stats.accepted < u64::MAX,
            old(self).stats.reviewed < u64::MAX,
            old(self).stats.rejected < u64::MAX,
            old(self).stats.total_events + raised@.len() <= u64::MAX,
            old(self).collector.kinds().len() + raised@.len() < usize::MAX,
        ensures
            final(self).consistent(),
            final(self).stats.total_evaluations == old(self).stats.total_evaluations + 1,
            final(self).stats.accepted == old(self).stats.accepted + one_if(
                decision == RiskDecision::Accept,
            ),
            final(self).stats.reviewed == old(self).stats.reviewed + one_if(
                decision == RiskDecision::Review,
            ),
            final(self).stats.rejected == old(self).stats.rejected + one_if(
                decision == RiskDecision::Reject,
            ),
            final(self).stats.total_events == old(self).stats.total_events + raised@.len(),
            final(self).total_rejections == old(self).total_rejections + one_if(
                decision == RiskDecision::Reject,
            ),
            final(self).collector.kinds() == old(self).collector.kinds() + raised_kinds(raised@)
                + review_kinds(decision),
            final(self).collector.payloads() == old(self).collector.payloads() + raised_payloads(
                raised@,
            ) + (if decision == RiskDecision::Review {
                seq![review]
            } else {
                Seq::empty()
            }),
            forall|k: RiskEventKind|
                #[trigger] final(self).collector.count_of(k) == old(self).collector.count_of(k)
                    + occurrences(raised_kinds(raised@), k) + one_if(
                    decision == RiskDecision::Review && k == RiskEventKind::RiskReview,
                ),
    {
        let ghost orig = raised@;
        let ghost kinds0 = self.collector.kinds();
        let ghost payloads0 = self.collector.payloads();
        let mut rest = raised;
        let mut j: usize = 0;
        let n = rest.len();
        assert(orig.take(0) =~= Seq::<(RiskEventKind, E)>::empty());
        assert(raised_kinds(orig.take(0)) =~= Seq::<RiskEventKind>::empty());
        assert(raised_payloads(orig.take(0)) =~= Seq::<E>::empty());
        assert(kinds0 + raised_kinds(orig.take(0)) =~= kinds0);
        assert(payloads0 + raised_payloads(orig.take(0)) =~= payloads0);
        while j < n
            invariant
                n == orig.len(),
                j <= n,
                rest@ == orig.skip(j as int),
                self.collector.well_formed(),
                self.collector.kinds() == kinds0 + raised_kinds(orig.take(j as int)),
                self.collector.payloads() == payloads0 + raised_payloads(orig.take(j as int)),
                kinds0.len() + n < usize::MAX,
                self.stats == old(self).stats,
                self.total_rejections == old(self).total_rejections,
            decreases n - j,
        {
            assert(rest@.len() == n - j);
            let (k, e) = rest.remove(0);
            proof {
                assert(orig.skip(j as int)[0] == orig[j as int]);
                assert(rest@ =~= orig.skip(j + 1));
                assert(orig.take(j + 1) =~= orig.take(j as int).push(orig[j as int]));
                assert(raised_kinds(orig.take(j + 1)) =~= raised_kinds(orig.take(j as int)).push(
                    k,
                ));
                assert(raised_payloads(orig.take(j + 1)) =~= raised_payloads(
                    orig.take(j as int),
                ).push(e));
            }
            self.collector.record(k, e);
            assert(self.collector.kinds() =~= kinds0 + raised_kinds(orig.take(j + 1)));
            assert(self.collector.payloads() =~= payloads0 + raised_payloads(orig.take(j + 1)));
            j = j + 1;
        }
        assert(orig.take(n as int) =~= orig);
        let ghost mid_kinds = self.collector.kinds();
        if decision == RiskDecision::Review {
            self.collector.record(RiskEventKind::RiskReview, review);
        }
        assert(self.collector.kinds() =~= kinds0 + raised_kinds(orig) + review_kinds(decision));
        assert(self.collector.payloads() =~= payloads0 + raised_payloads(orig) + (if decision
            == RiskDecision::Review {
            seq![review]
        } else {
            Seq::empty()
        }));
        if decision == RiskDecision::Reject {
            self.total_rejections = self.total_rejections + 1;
        }
        self.stats.record_evaluation(decision, n as u64);
        proof {
            assert forall|k: RiskEventKind| #[trigger] self.collector.count_of(k)
                == old(self).collector.count_of(k) + occurrences(raised_kinds(orig), k) + one_if(
                decision == RiskDecision::Review && k == RiskEventKind::RiskReview,
            ) by {
                self.collector.lemma_counts_match(k);
                old(self).collector.lemma_counts_match(k);
                lemma_occurrences_append(kinds0, raised_kinds(orig), k);
                lemma_occurrences_append(kinds0 + raised_kinds(orig), review_kinds(decision), k);
                reveal_with_fuel(occurrences, 2);
            }
        }
    }

    /// The daily reset: the day's risk events are cleared; the statistics
    /// and the rejection total are kept.
    pub fn reset_daily(&mut self)
        requires
            old(self).consistent(),
        ensures
            final(self).consistent(),
            final(self).collector.kinds().len() == 0,
            final(self).collector.payloads().len() == 0,
            final(self).stats == old(self).stats,
            final(self).total_rejections == old(self).total_rejections,
    {
        self.collector = RiskEventCollector::new();
    }
}

proof fn lemma_occurrences_append(a: Seq<RiskEventKind>, b: Seq<RiskEventKind>, k: RiskEventKind)
    ensures
        occurrences(a + b, k) == occurrences(a, k) + occurrences(b, k),
    decreases b.len(),
{
    if b.len() == 0 {
        assert(a + b =~= a);
    } else {
        lemma_occurrences_append(a, b.drop_last(), k);
        assert((a + b).drop_last() =~= a + b.drop_last());
        assert((a + b).last() == b.last());
    }
}

} // verus!
