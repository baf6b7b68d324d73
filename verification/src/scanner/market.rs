//! Opportunity screening of a scan round.
//!
//! Every market of a round falls into exactly one class, by priority:
//! `Closed` > `Inactive` > `MissingPrice` / `InvalidData` > `SumAboveThreshold` >
//! opportunity (binary market whose YES + NO is below the threshold).
//! A round is summarised by per-stage counters, the list of rejections and the
//! positions of the opportunities.

use vstd::prelude::*;

use rand::seq::SliceRandom;

use crate::scanner::stats::{MarketRejection, RejectionReason};

verus! {

/// What the screening reads of one market. Price comparisons (`YES + NO`
/// against the threshold, finiteness of the sum) are taken as already decided.
#[derive(Debug, Clone)]
pub struct MarketFacts {
    pub market_id: String,
    pub question: String,
    pub active: bool,
    pub closed: bool,
    /// A YES price is present.
    pub yes_present: bool,
    /// A NO price is present.
    pub no_present: bool,
    /// A usable binary (YES, NO) price pair is present.
    pub binary_prices: bool,
    /// Number of outcome prices (0 when missing).
    pub outcome_count: usize,
    /// With a price pair: YES + NO is not finite or not positive.
    pub sum_invalid: bool,
    /// With a price pair: YES + NO is below the opportunity threshold.
    pub below_threshold: bool,
    /// The YES price is absent or within `[0, 1]`.
    pub yes_in_range: bool,
    /// The NO price is absent or within `[0, 1]`.
    pub no_in_range: bool,
    /// The traded volume is negative.
    pub volume_negative: bool,
    /// The liquidity is negative.
    pub liquidity_negative: bool,
    /// The liquidity is positive.
    pub has_liquidity: bool,
}

/// The class of a market: `None` for an opportunity, otherwise the reason it
/// was filtered.
pub open spec fn classify(m: MarketFacts) -> Option<RejectionReason> {
    if m.closed {
        Some(RejectionReason::Closed)
    } else if !m.active {
        Some(RejectionReason::Inactive)
    } else if !m.binary_prices {
        if m.outcome_count == 0 {
            Some(RejectionReason::MissingPrice)
        } else {
            Some(RejectionReason::InvalidData)
        }
    } else if m.below_threshold {
        None
    } else {
        Some(RejectionReason::SumAboveThreshold)
    }
}

/// Number of markets of `s` that satisfy `p`.
pub open spec fn count_where(s: Seq<MarketFacts>, p: spec_fn(MarketFacts) -> bool) -> nat
    decreases s.len(),
{
    if s.len() == 0 {
        0
    } else {
        count_where(s.drop_last(), p) + if p(s.last()) {
            1nat
        } else {
            0nat
        }
    }
}

/// Positions (in order) of the markets of `s` that are opportunities.
pub open spec fn opportunity_positions(s: Seq<MarketFacts>) -> Seq<usize>
    decreases s.len(),
{
    if s.len() == 0 {
        Seq::empty()
    } else if classify(s.last()) is None {
        opportunity_positions(s.drop_last()).push((s.len() - 1) as usize)
    } else {
        opportunity_positions(s.drop_last())
    }
}

/// Rejections (in market order) of the markets of `s`, as (question, reason).
pub open spec fn rejection_list(s: Seq<MarketFacts>) -> Seq<(Seq<char>, RejectionReason)>
    decreases s.len(),
{
    if s.len() == 0 {
        Seq::empty()
    } else if classify(s.last()) is Some {
        rejection_list(s.drop_last()).push((s.last().question@, classify(s.last())->0))
    } else {
        rejection_list(s.drop_last())
    }
}

/// Per-stage counters of one round.
#[derive(Debug, Clone)]
pub struct RoundTally {
    /// Markets received.
    pub received: usize,
    /// Markets parsed.
    pub parsed: usize,
    /// Active markets.
    pub active: usize,
    /// Closed markets.
    pub closed: usize,
    /// Markets with a binary price pair.
    pub with_prices: usize,
    /// Markets without a binary price pair.
    pub missing_prices: usize,
    /// Open, active markets with a price pair.
    pub passed_validation: usize,
    /// Opportunities.
    pub passed_strategy: usize,
    /// Filtered as closed.
    pub filtered_closed: usize,
    /// Filtered as inactive.
    pub filtered_inactive: usize,
    /// Filtered for missing prices.
    pub filtered_missing_price: usize,
    /// Filtered for unusable price data.
    pub filtered_invalid_data: usize,
    /// Filtered by the threshold.
    pub filtered_strategy: usize,
    /// Markets with a usable price pair (same as `with_prices`).
    pub price_available: usize,
    /// Markets without a pair and without a YES price.
    pub yes_missing: usize,
    /// Markets without a pair and without a NO price.
    pub no_missing: usize,
    /// Markets with a pair whose sum is not finite or not positive.
    pub invalid_sum: usize,
    /// Filtered markets in order (collected only on the detailed path).
    pub rejections: Vec<MarketRejection>,
    /// Positions of the opportunities in the input, ascending.
    pub opportunities: Vec<usize>,
}

/// The counters of `t` are exactly those of the markets `s`.
pub open spec fn tally_of(t: RoundTally, s: Seq<MarketFacts>) -> bool {
    &&& t.received == s.len()
    &&& t.parsed == s.len()
    &&& t.active == count_where(s, |m: MarketFacts| m.active)
    &&& t.closed == count_where(s, |m: MarketFacts| m.closed)
    &&& t.with_prices == count_where(s, |m: MarketFacts| m.binary_prices)
    &&& t.missing_prices == count_where(s, |m: MarketFacts| !m.binary_prices)
    &&& t.price_available == count_where(s, |m: MarketFacts| m.binary_prices)
    &&& t.yes_missing == count_where(s, |m: MarketFacts| !m.binary_prices && !m.yes_present)
    &&& t.no_missing == count_where(s, |m: MarketFacts| !m.binary_prices && !m.no_present)
    &&& t.invalid_sum == count_where(s, |m: MarketFacts| m.binary_prices && m.sum_invalid)
    &&& t.passed_validation == count_where(
        s,
        |m: MarketFacts| !m.closed && m.active && m.binary_prices,
    )
    &&& t.filtered_closed == count_where(
        s,
        |m: MarketFacts| classify(m) == Some(RejectionReason::Closed),
    )
    &&& t.filtered_inactive == count_where(
        s,
        |m: MarketFacts| classify(m) == Some(RejectionReason::Inactive),
    )
    &&& t.filtered_missing_price == count_where(
        s,
        |m: MarketFacts| classify(m) == Some(RejectionReason::MissingPrice),
    )
    &&& t.filtered_invalid_data == count_where(
        s,
        |m: MarketFacts| classify(m) == Some(RejectionReason::InvalidData),
    )
    &&& t.filtered_strategy == count_where(
        s,
        |m: MarketFacts| classify(m) == Some(RejectionReason::SumAboveThreshold),
    )
    &&& t.passed_strategy == count_where(s, |m: MarketFacts| classify(m) is None)
    &&& t.opportunities@ == opportunity_positions(s)
}

/// The rejection list of `t` is that of `s` (question text and reason).
pub open spec fn rejections_of(t: RoundTally, s: Seq<MarketFacts>) -> bool {
    &&& t.rejections@.len() == rejection_list(s).len()
    &&& forall|i: int|
        0 <= i < t.rejections@.len() ==> (#[trigger] t.rejections@[i]).question@
            == rejection_list(s)[i].0 && t.rejections@[i].reason == rejection_list(s)[i].1
}

proof fn lemma_count_le(s: Seq<MarketFacts>, p: spec_fn(MarketFacts) -> bool)
    ensures
        count_where(s, p) <= s.len(),
    decreases s.len(),
{
    if s.len() > 0 {
        lemma_count_le(s.drop_last(), p);
    }
}

proof fn lemma_positions_bounded(s: Seq<MarketFacts>)
    ensures
        opportunity_positions(s).len() == count_where(s, |m: MarketFacts| classify(m) is None),
        forall|j: int|
            0 <= j < opportunity_positions(s).len() ==> opportunity_positions(s)[j] < s.len(),
    decreases s.len(),
{
    if s.len() > 0 {
        lemma_positions_bounded(s.drop_last());
    }
}

/// Bumps `c` by one when `b` holds.
fn bump(c: usize, b: bool) -> (r: usize)
    requires
        c < usize::MAX,
    ensures
        r == c + if b {
            1nat
        } else {
            0nat
        },
{
    if b {
        c + 1
    } else {
        c
    }
}

/// Screens the markets of one round. With `detail`, the rejections are
/// collected too; otherwise `rejections` stays empty.
pub fn tally_markets(markets: &Vec<MarketFacts>, detail: bool) -> (t: RoundTally)
    ensures
        tally_of(t, markets@),
        detail ==> rejections_of(t, markets@),
        detail ==> forall|i: int|
            0 <= i < t.rejections@.len() ==> exists|j: int|
                0 <= j < markets@.len() && (#[trigger] t.rejections@[i]).question@
                    == markets@[j].question@ && classify(markets@[j]) == Some(t.rejections@[i].reason),
        !detail ==> t.rejections@.len() == 0,
{
    let mut t = RoundTally {
        received: 0,
        parsed: 0,
        active: 0,
        closed: 0,
        with_prices: 0,
        missing_prices: 0,
        passed_validation: 0,
        passed_strategy: 0,
        filtered_closed: 0,
        filtered_inactive: 0,
        filtered_missing_price: 0,
        filtered_invalid_data: 0,
        filtered_strategy: 0,
        price_available: 0,
        yes_missing: 0,
        no_missing: 0,
        invalid_sum: 0,
        rejections: Vec::new(),
        opportunities: Vec::new(),
    };
    let n = markets.len();
    let mut i: usize = 0;
    assert(markets@.take(0) =~= Seq::<MarketFacts>::empty());
    while i < n
        invariant
            n == markets@.len(),
            i <= n,
            tally_of(t, markets@.take(i as int)),
            detail ==> rejections_of(t, markets@.take(i as int)),
            !detail ==> t.rejections@.len() == 0,
        decreases n - i,
    {
        let ghost prev = markets@.take(i as int);
        let ghost next = markets@.take(i + 1);
        assert(next.drop_last() =~= prev);
        assert(next.last() == markets@[i as int]);
        proof {
            lemma_count_le(prev, |m: MarketFacts| m.active);
            lemma_count_le(prev, |m: MarketFacts| m.closed);
            lemma_count_le(prev, |m: MarketFacts| m.binary_prices);
            lemma_count_le(prev, |m: MarketFacts| !m.binary_prices);
            lemma_count_le(prev, |m: MarketFacts| !m.binary_prices && !m.yes_present);
            lemma_count_le(prev, |m: MarketFacts| !m.binary_prices && !m.no_present);
            lemma_count_le(prev, |m: MarketFacts| m.binary_prices && m.sum_invalid);
            lemma_count_le(prev, |m: MarketFacts| !m.closed && m.active && m.binary_prices);
            lemma_count_le(prev, |m: MarketFacts| classify(m) == Some(RejectionReason::Closed));
            lemma_count_le(prev, |m: MarketFacts| classify(m) == Some(RejectionReason::Inactive));
            lemma_count_le(
                prev,
                |m: MarketFacts| classify(m) == Some(RejectionReason::MissingPrice),
            );
            lemma_count_le(
                prev,
                |m: MarketFacts| classify(m) == Some(RejectionReason::InvalidData),
            );
            lemma_count_le(
                prev,
                |m: MarketFacts| classify(m) == Some(RejectionReason::SumAboveThreshold),
            );
            lemma_count_le(prev, |m: MarketFacts| classify(m) is None);
        }
        let m = &markets[i];
        t.received = t.received + 1;
        t.parsed = t.parsed + 1;
        t.active = bump(t.active, m.active);
        t.closed = bump(t.closed, m.closed);
        t.with_prices = bump(t.with_prices, m.binary_prices);
        t.price_available = bump(t.price_available, m.binary_prices);
        t.missing_prices = bump(t.missing_prices, !m.binary_prices);
        t.yes_missing = bump(t.yes_missing, !m.binary_prices && !m.yes_present);
        t.no_missing = bump(t.no_missing, !m.binary_prices && !m.no_present);
        t.invalid_sum = bump(t.invalid_sum, m.binary_prices && m.sum_invalid);
        t.passed_validation = bump(t.passed_validation, !m.closed && m.active && m.binary_prices);
        let rejected: Option<RejectionReason> = if m.closed {
            t.filtered_closed = t.filtered_closed + 1;
            Some(RejectionReason::Closed)
        } else if !m.active {
            t.filtered_inactive = t.filtered_inactive + 1;
            Some(RejectionReason::Inactive)
        } else if !m.binary_prices {
            if m.outcome_count == 0 {
                t.filtered_missing_price = t.filtered_missing_price + 1;
                Some(RejectionReason::MissingPrice)
            } else {
                t.filtered_invalid_data = t.filtered_invalid_data + 1;
                Some(RejectionReason::InvalidData)
            }
        } else if m.below_threshold {
            t.passed_strategy = t.passed_strategy + 1;
            t.opportunities.push(i);
            None
        } else {
            t.filtered_strategy = t.filtered_strategy + 1;
            Some(RejectionReason::SumAboveThreshold)
        };
        assert(rejected == classify(markets@[i as int]));
        if detail {
            match rejected {
                Some(reason) => {
                    t.rejections.push(MarketRejection { question: m.question.clone(), reason });
                },
                None => {},
            }
        }
        i = i + 1;
        assert(t.opportunities@ =~= opportunity_positions(next));
        if detail {
            assert(t.rejections@.len() == rejection_list(next).len());
            assert forall|k: int| 0 <= k < t.rejections@.len() implies (
            #[trigger] t.rejections@[k]).question@ == rejection_list(next)[k].0
                && t.rejections@[k].reason == rejection_list(next)[k].1 by {
                if k < t.rejections@.len() - 1 || rejected is None {
                } else {
                }
            }
        }
    }
    assert(markets@.take(n as int) =~= markets@);
    proof {
        lemma_rejections_name_filtered_markets(markets@);
        if detail {
            assert forall|i: int| 0 <= i < t.rejections@.len() implies exists|j: int|
                0 <= j < markets@.len() && (#[trigger] t.rejections@[i]).question@
                    == markets@[j].question@ && classify(markets@[j]) == Some(t.rejections@[i].reason) by {
                assert(t.rejections@[i].question@ == rejection_list(markets@)[i].0);
                assert(t.rejections@[i].reason == rejection_list(markets@)[i].1);
            }
        }
    }
    t
}

/// Every market of a round is counted in exactly one class: the five filter
/// counters and the opportunity counter add up to the markets received.
pub proof fn lemma_round_partition(s: Seq<MarketFacts>)
    ensures
        count_where(s, |m: MarketFacts| classify(m) == Some(RejectionReason::Closed))
            + count_where(s, |m: MarketFacts| classify(m) == Some(RejectionReason::Inactive))
            + count_where(s, |m: MarketFacts| classify(m) == Some(RejectionReason::MissingPrice))
            + count_where(s, |m: MarketFacts| classify(m) == Some(RejectionReason::InvalidData))
            + count_where(
            s,
            |m: MarketFacts| classify(m) == Some(RejectionReason::SumAboveThreshold),
        ) + count_where(s, |m: MarketFacts| classify(m) is None) == s.len(),
    decreases s.len(),
{
    if s.len() > 0 {
        lemma_round_partition(s.drop_last());
    }
}

/// A tallied round satisfies the stage identities of the scan funnel:
/// the classes partition the markets received, the markets that passed
/// validation are exactly the opportunities plus those filtered by the
/// threshold, and every market either has a price pair or misses one.
pub proof fn lemma_tally_identities(t: RoundTally, s: Seq<MarketFacts>)
    requires
        tally_of(t, s),
    ensures
        t.filtered_closed + t.filtered_inactive + t.filtered_missing_price
            + t.filtered_invalid_data + t.filtered_strategy + t.passed_strategy == t.received,
        t.passed_validation == t.passed_strategy + t.filtered_strategy,
        t.with_prices + t.missing_prices == t.received,
        t.opportunities@.len() == t.passed_strategy,
    decreases s.len(),
{
    lemma_round_partition(s);
    lemma_validation_split(s);
    lemma_price_split(s);
    lemma_positions_bounded(s);
}

proof fn lemma_validation_split(s: Seq<MarketFacts>)
    ensures
        count_where(s, |m: MarketFacts| !m.closed && m.active && m.binary_prices) == count_where(
            s,
            |m: MarketFacts| classify(m) is None,
        ) + count_where(
            s,
            |m: MarketFacts| classify(m) == Some(RejectionReason::SumAboveThreshold),
        ),
    decreases s.len(),
{
    if s.len() > 0 {
        lemma_validation_split(s.drop_last());
    }
}

proof fn lemma_price_split(s: Seq<MarketFacts>)
    ensures
        count_where(s, |m: MarketFacts| m.binary_prices) + count_where(
            s,
            |m: MarketFacts| !m.binary_prices,
        ) == s.len(),
    decreases s.len(),
{
    if s.len() > 0 {
        lemma_price_split(s.drop_last());
    }
}

/// Screening with or without detail finds the same opportunities and the
/// same counters: the detailed path only adds the rejection list.
pub proof fn lemma_detail_changes_only_rejections(detailed: RoundTally, plain: RoundTally, s: Seq<MarketFacts>)
    requires
        tally_of(detailed, s),
        tally_of(plain, s),
    ensures
        detailed.opportunities@ == plain.opportunities@,
        detailed.passed_strategy == plain.passed_strategy,
        detailed.passed_validation == plain.passed_validation,
        detailed.filtered_closed == plain.filtered_closed,
        detailed.filtered_inactive == plain.filtered_inactive,
        detailed.filtered_missing_price == plain.filtered_missing_price,
        detailed.filtered_invalid_data == plain.filtered_invalid_data,
        detailed.filtered_strategy == plain.filtered_strategy,
        detailed.received == plain.received,
        detailed.active == plain.active,
        detailed.with_prices == plain.with_prices,
{
}

/// Every entry of a round's rejection list stands for a filtered market of
/// the round: it carries that market's question and its class, and there are
/// as many entries as filtered markets.
pub proof fn lemma_rejections_name_filtered_markets(s: Seq<MarketFacts>)
    ensures
        rejection_list(s).len() == count_where(s, |m: MarketFacts| classify(m) is Some),
        forall|i: int|
            0 <= i < rejection_list(s).len() ==> exists|j: int|
                0 <= j < s.len() && (#[trigger] rejection_list(s)[i]).0 == s[j].question@ && classify(
                    s[j],
                ) == Some(rejection_list(s)[i].1),
    decreases s.len(),
{
    if s.len() > 0 {
        let d = s.drop_last();
        lemma_rejections_name_filtered_markets(d);
        assert forall|i: int| 0 <= i < rejection_list(s).len() implies exists|j: int|
            0 <= j < s.len() && (#[trigger] rejection_list(s)[i]).0 == s[j].question@ && classify(s[j])
                == Some(rejection_list(s)[i].1) by {
            if i < rejection_list(d).len() {
                let j = choose|j: int|
                    0 <= j < d.len() && rejection_list(d)[i].0 == d[j].question@ && classify(d[j])
                        == Some(rejection_list(d)[i].1);
                assert(rejection_list(s)[i] == rejection_list(d)[i]);
                assert(s[j] == d[j]);
            } else {
                assert(rejection_list(s)[i] == (s.last().question@, classify(s.last())->0));
                assert(s[s.len() - 1] == s.last());
            }
        }
    }
}

/// Declares `rand::rngs::ThreadRng`, the thread-local random generator.
#[verifier::external_type_specification]
#[verifier::external_body]
pub struct ExThreadRng(rand::rngs::ThreadRng);

/// Calls `rand::rng`: a handle on the thread-local generator. Nothing is
/// claimed of its state.
#[verifier::external_body]
fn thread_rng() -> rand::rngs::ThreadRng {
    rand::rng()
}

/// Calls `SliceRandom::shuffle` on the positions. rand implements it as a
/// Fisher-Yates sequence of swaps, so the result is a permutation of the
/// input; which permutation depends on the generator and is left open.
#[verifier::external_body]
fn shuffle_positions(v: &mut Vec<usize>, rng: &mut rand::rngs::ThreadRng)
    ensures
        final(v)@.len() == old(v)@.len(),
        final(v)@.to_multiset() == old(v)@.to_multiset(),
{
    v.shuffle(rng);
}

proof fn lemma_permuted_positions(ordered: Seq<usize>, shuffled: Seq<usize>, n: usize)
    requires
        ordered.len() == n,
        forall|a: int| 0 <= a < n ==> #[trigger] ordered[a] == a,
        shuffled.len() == n,
        shuffled.to_multiset() == ordered.to_multiset(),
    ensures
        forall|a: int| 0 <= a < n ==> #[trigger] shuffled[a] < n,
        forall|a: int, b: int| 0 <= a < b < n ==> shuffled[a] != shuffled[b],
{
    broadcast use vstd::seq_lib::group_to_multiset_ensures;

    assert(ordered.no_duplicates());
    ordered.lemma_multiset_has_no_duplicates();
    shuffled.lemma_multiset_has_no_duplicates_conv();
    assert forall|a: int| 0 <= a < n implies #[trigger] shuffled[a] < n by {
        assert(shuffled.to_multiset().contains(shuffled[a]));
        assert(ordered.contains(shuffled[a]));
    }
}

/// Picks up to `k` distinct market positions out of `n` at random (all of them
/// when there are fewer than `k`).
pub fn pick_random_sample_positions(n: usize, k: usize) -> (r: Vec<usize>)
    ensures
        r@.len() == if n == 0 || k == 0 {
            0
        } else if k < n {
            k
        } else {
            n
        },
        forall|i: int| 0 <= i < r@.len() ==> #[trigger] r@[i] < n,
        forall|i: int, j: int| 0 <= i < j < r@.len() ==> r@[i] != r@[j],
{
    if n == 0 || k == 0 {
        return Vec::new();
    }
    let mut all: Vec<usize> = Vec::new();
    let mut j: usize = 0;
    while j < n
        invariant
            j <= n,
            all@.len() == j,
            forall|a: int| 0 <= a < j ==> #[trigger] all@[a] == a,
        decreases n - j,
    {
        all.push(j);
        j = j + 1;
    }
    let ghost ordered = all@;
    let mut rng = thread_rng();
    shuffle_positions(&mut all, &mut rng);
    proof {
        lemma_permuted_positions(ordered, all@, n);
    }
    let take = if k < n {
        k
    } else {
        n
    };
    let mut r: Vec<usize> = Vec::new();
    let mut i: usize = 0;
    while i < take
        invariant
            take <= n,
            all@.len() == n,
            forall|a: int| 0 <= a < n ==> #[trigger] all@[a] < n,
            forall|a: int, b: int| 0 <= a < b < n ==> all@[a] != all@[b],
            i <= take,
            r@ =~= all@.take(i as int),
        decreases take - i,
    {
        r.push(all[i]);
        i = i + 1;
    }
    r
}

} // verus!
