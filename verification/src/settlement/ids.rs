//! Identifiers minted by the settlement engine: `PREFIX-YYYYMMDD-NNNNNN`
//! sequence ids (settlements, positions, ledger entries) and position keys.

use vstd::prelude::*;

use crate::text::{decimal, digit_char, owned, padded_decimal, zero_padded};

verus! {

/// Text of a sequence id: prefix, date and the six-digit, zero-padded number.
pub open spec fn sequence_id_text(prefix: Seq<char>, date: Seq<char>, n: nat) -> Seq<char> {
    prefix + "-"@ + date + "-"@ + zero_padded(n, 6)
}

/// Counter that mints sequence ids; the first id carries number 1.
#[derive(Debug, Clone)]
pub struct SequenceIds {
    seq: u64,
}

impl SequenceIds {
    /// Number carried by the last id minted (0 before the first).
    pub closed spec fn last(&self) -> nat {
        self.seq as nat
    }

    /// A counter that has minted nothing yet.
    pub fn new() -> (r: Self)
        ensures
            r.last() == 0,
    {
        SequenceIds { seq: 0 }
    }

    /// Mints the next id for `prefix` on the day `date` (`YYYYMMDD`).
    pub fn next_id(&mut self, prefix: &str, date: &str) -> (r: String)
        requires
            old(self).last() < u64::MAX,
        ensures
            final(self).last() == old(self).last() + 1,
            r@ == sequence_id_text(prefix@, date@, final(self).last()),
    {
        self.seq = self.seq + 1;
        sequence_id(prefix, date, self.seq)
    }
}

/// `prefix-date-NNNNNN` with `n` zero-padded to six digits.
pub fn sequence_id(prefix: &str, date: &str, n: u64) -> (r: String)
    ensures
        r@ == sequence_id_text(prefix@, date@, n as nat),
{
    let mut s = owned(prefix);
    s.append("-");
    s.append(date);
    s.append("-");
    s.append(padded_decimal(n, 6).as_str());
    s
}

/// Key of an open position: `market_id + "|" + direction name`.
pub fn position_key(market_id: &str, direction_name: &str) -> (r: String)
    ensures
        r@ == market_id@ + "|"@ + direction_name@,
{
    let mut s = owned(market_id);
    s.append("|");
    s.append(direction_name);
    s
}

/// The number a string of decimal digits stands for.
pub open spec fn digits_value(s: Seq<char>) -> nat
    decreases s.len(),
{
    if s.len() == 0 {
        0
    } else {
        digits_value(s.drop_last()) * 10 + ((s.last() as int) - ('0' as int)) as nat
    }
}

proof fn lemma_digit_value(d: nat)
    requires
        d < 10,
    ensures
        (digit_char(d) as int) - ('0' as int) == d,
{
}

proof fn lemma_decimal_value(n: nat)
    ensures
        digits_value(decimal(n)) == n,
    decreases n,
{
    if n < 10 {
        lemma_digit_value(n);
        assert(decimal(n).drop_last() =~= Seq::<char>::empty());
        assert(decimal(n).last() == digit_char(n));
        assert(digits_value(decimal(n)) == digits_value(Seq::<char>::empty()) * 10 + n);
    } else {
        lemma_decimal_value(n / 10);
        lemma_digit_value(n % 10);
        assert(decimal(n).drop_last() =~= decimal(n / 10));
        assert(decimal(n).last() == digit_char(n % 10));
        assert(digits_value(decimal(n)) == digits_value(decimal(n / 10)) * 10 + (n % 10));
        assert((n / 10) * 10 + n % 10 == n);
    }
}

proof fn lemma_zeros_value(k: nat, d: Seq<char>)
    ensures
        digits_value(Seq::new(k, |i: int| '0') + d) == digits_value(d),
    decreases d.len(), k,
{
    if d.len() == 0 {
        assert(Seq::new(k, |i: int| '0') + d =~= Seq::new(k, |i: int| '0'));
        if k > 0 {
            assert(Seq::new(k, |i: int| '0').drop_last() =~= Seq::new((k - 1) as nat, |i: int| '0')
                + d);
            lemma_zeros_value((k - 1) as nat, d);
        }
    } else {
        assert((Seq::new(k, |i: int| '0') + d).drop_last() =~= Seq::new(k, |i: int| '0')
            + d.drop_last());
        lemma_zeros_value(k, d.drop_last());
    }
}

proof fn lemma_padded_value(n: nat, width: nat)
    ensures
        digits_value(zero_padded(n, width)) == n,
{
    lemma_decimal_value(n);
    let d = decimal(n);
    if d.len() < width {
        lemma_zeros_value((width - d.len()) as nat, d);
    }
}

proof fn lemma_concat_split(a1: Seq<char>, b1: Seq<char>, a2: Seq<char>, b2: Seq<char>)
    requires
        a1.len() == a2.len(),
        a1 + b1 == a2 + b2,
    ensures
        a1 == a2,
        b1 == b2,
{
    assert(a1 =~= (a1 + b1).subrange(0, a1.len() as int));
    assert(a2 =~= (a2 + b2).subrange(0, a2.len() as int));
    assert(b1 =~= (a1 + b1).subrange(a1.len() as int, (a1 + b1).len() as int));
    assert(b2 =~= (a2 + b2).subrange(a2.len() as int, (a2 + b2).len() as int));
}

/// Sequence ids never collide: two ids with the same prefix and dates of
/// the same length (`YYYYMMDD`) are equal only for the same date and the
/// same number, so the ids a counter mints one after another all differ.
pub proof fn lemma_sequence_ids_distinct(
    prefix: Seq<char>,
    date1: Seq<char>,
    n1: nat,
    date2: Seq<char>,
    n2: nat,
)
    requires
        date1.len() == date2.len(),
        sequence_id_text(prefix, date1, n1) == sequence_id_text(prefix, date2, n2),
    ensures
        date1 == date2,
        n1 == n2,
{
    let dash = "-"@;
    let lead1 = prefix + dash + date1;
    let lead2 = prefix + dash + date2;
    assert(sequence_id_text(prefix, date1, n1) =~= (lead1 + dash) + zero_padded(n1, 6));
    assert(sequence_id_text(prefix, date2, n2) =~= (lead2 + dash) + zero_padded(n2, 6));
    lemma_concat_split(lead1 + dash, zero_padded(n1, 6), lead2 + dash, zero_padded(n2, 6));
    lemma_concat_split(lead1, dash, lead2, dash);
    lemma_concat_split(prefix + dash, date1, prefix + dash, date2);
    lemma_padded_value(n1, 6);
    lemma_padded_value(n2, 6);
}

} // verus!
