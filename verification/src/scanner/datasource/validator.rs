//! Market data validation: non-blank question, prices within `[0, 1]`,
//! non-negative volume and liquidity. Invalid markets are counted and listed,
//! never dropped.

use vstd::prelude::*;

use crate::scanner::market::MarketFacts;
use crate::text::{is_blank, is_blank_text, owned};

verus! {

/// One validation failure: the offending field and why.
#[derive(Debug, Clone)]
pub struct ValidationError {
    pub field: String,
    pub reason: String,
}

impl ValidationError {
    /// A failure of `field` for `reason`.
    pub fn new(field: &str, reason: &str) -> (r: Self)
        ensures
            r.field@ == field@,
            r.reason@ == reason@,
    {
        ValidationError { field: owned(field), reason: owned(reason) }
    }
}

/// The first rule a market breaks, as (field, reason), or `None` when valid.
pub open spec fn market_violation(m: MarketFacts) -> Option<(Seq<char>, Seq<char>)> {
    if is_blank_text(m.question@) {
        Some(("question"@, "问题为空"@))
    } else if !m.yes_in_range {
        Some(("yes_price"@, "YES 价超出 [0,1]"@))
    } else if !m.no_in_range {
        Some(("no_price"@, "NO 价超出 [0,1]"@))
    } else if m.volume_negative {
        Some(("volume"@, "成交额为负"@))
    } else if m.liquidity_negative {
        Some(("liquidity"@, "流动性为负"@))
    } else {
        None
    }
}

/// Validation report of a batch of markets.
#[derive(Debug, Clone)]
pub struct ValidatorReport {
    /// Markets checked.
    pub total: usize,
    /// Valid markets.
    pub valid: usize,
    /// Invalid markets.
    pub invalid: usize,
    /// Failures as (market id, error), in market order.
    pub errors: Vec<(String, ValidationError)>,
}

/// Failures of the markets of `s`, in order, as (market id, field, reason).
pub open spec fn violations(s: Seq<MarketFacts>) -> Seq<(Seq<char>, Seq<char>, Seq<char>)>
    decreases s.len(),
{
    if s.len() == 0 {
        Seq::empty()
    } else {
        match market_violation(s.last()) {
            Some(v) => violations(s.drop_last()).push((s.last().market_id@, v.0, v.1)),
            None => violations(s.drop_last()),
        }
    }
}

/// Data validator.
pub struct Validator;

impl Validator {
    /// Checks one market; the error names the first rule it breaks.
    pub fn validate(m: &MarketFacts) -> (r: Result<(), ValidationError>)
        ensures
            match market_violation(*m) {
                None => r is Ok,
                Some(v) => r is Err && r->Err_0.field@ == v.0 && r->Err_0.reason@ == v.1,
            },
    {
        if is_blank(m.question.as_str()) {
            return Err(ValidationError::new("question", "问题为空"));
        }
        if !m.yes_in_range {
            return Err(ValidationError::new("yes_price", "YES 价超出 [0,1]"));
        }
        if !m.no_in_range {
            return Err(ValidationError::new("no_price", "NO 价超出 [0,1]"));
        }
        if m.volume_negative {
            return Err(ValidationError::new("volume", "成交额为负"));
        }
        if m.liquidity_negative {
            return Err(ValidationError::new("liquidity", "流动性为负"));
        }
        Ok(())
    }

    /// Checks a batch, counting valid and invalid markets and listing the failures.
    pub fn validate_many(markets: &Vec<MarketFacts>) -> (r: ValidatorReport)
        ensures
            r.total == markets@.len(),
            r.valid + r.invalid == r.total,
            r.invalid == violations(markets@).len(),
            r.errors@.len() == r.invalid,
            forall|i: int|
                0 <= i < r.errors@.len() ==> {
                    &&& (#[trigger] r.errors@[i]).0@ == violations(markets@)[i].0
                    &&& r.errors@[i].1.field@ == violations(markets@)[i].1
                    &&& r.errors@[i].1.reason@ == violations(markets@)[i].2
                },
    {
        let mut report = ValidatorReport {
            total: markets.len(),
            valid: 0,
            invalid: 0,
            errors: Vec::new(),
        };
        let mut i: usize = 0;
        assert(markets@.take(0) =~= Seq::<MarketFacts>::empty());
        while i < markets.len()
            invariant
                i <= markets@.len(),
                report.total == markets@.len(),
                report.valid + report.invalid == i,
                report.invalid == violations(markets@.take(i as int)).len(),
                report.errors@.len() == report.invalid,
                forall|k: int|
                    0 <= k < report.errors@.len() ==> {
                        &&& (#[trigger] report.errors@[k]).0@ == violations(
                            markets@.take(i as int),
                        )[k].0
                        &&& report.errors@[k].1.field@ == violations(markets@.take(i as int))[k].1
                        &&& report.errors@[k].1.reason@ == violations(markets@.take(i as int))[k].2
                    },
            decreases markets@.len() - i,
        {
            let ghost next = markets@.take(i + 1);
            assert(next.drop_last() =~= markets@.take(i as int));
            assert(next.last() == markets@[i as int]);
            let m = &markets[i];
            match Self::validate(m) {
                Ok(()) => {
                    report.valid = report.valid + 1;
                },
                Err(e) => {
                    report.invalid = report.invalid + 1;
                    report.errors.push((m.market_id.clone(), e));
                },
            }
            i = i + 1;
        }
        assert(markets@.take(markets@.len() as int) =~= markets@);
        report
    }
}

} // verus!
