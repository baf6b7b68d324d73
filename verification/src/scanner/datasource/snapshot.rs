//! Per-round market snapshot: time, market count, provider and a content hash
//! of the market set. The hash is taken over the sorted market ids, so the
//! same set of markets hashes the same whatever order the provider returned.

use std::collections::hash_map::DefaultHasher;
use std::hash::Hasher;

use vstd::prelude::*;

use crate::text::owned;
use crate::sorting::{clone_texts, lemma_sorted_views_order_independent, sort_texts, sorted_views, views};

verus! {

/// The byte stream hashed for a list of ids: each id's UTF-8 bytes followed
/// by a `0xFF` separator (so that `"ab" + "c"` and `"a" + "bc"` differ).
pub open spec fn id_stream(ids: Seq<Seq<char>>) -> Seq<u8>
    decreases ids.len(),
{
    if ids.len() == 0 {
        Seq::empty()
    } else {
        id_stream(ids.drop_last()) + vstd::utf8::encode_utf8(ids.last()) + seq![0xFFu8]
    }
}

/// The value of std's `DefaultHasher` after writing `bytes` into a fresh hasher.
pub uninterp spec fn default_hash_of(bytes: Seq<u8>) -> u64;

/// Hashes a byte stream with a fresh `std::collections::hash_map::DefaultHasher`
/// (`new`, `write`, `finish`). std documents that every hasher made by `new` is
/// the same, so the result is a function of the bytes; which function is left
/// to std.
#[verifier::external_body]
fn default_hash(bytes: &[u8]) -> (h: u64)
    ensures
        h == default_hash_of(bytes@),
{
    let mut hasher = DefaultHasher::new();
    hasher.write(bytes);
    hasher.finish()
}

/// Snapshot of one scan round.
#[derive(Debug, Clone)]
pub struct MarketSnapshot {
    /// Local time, `YYYY-MM-DD HH:MM:SS`.
    pub timestamp: String,
    /// Number of markets.
    pub market_count: usize,
    /// Data-source provider name.
    pub provider: String,
    /// Content hash of the market set.
    pub hash: u64,
}

/// Content hash of a set of market ids.
pub open spec fn market_set_hash(ids: Seq<Seq<char>>) -> u64 {
    default_hash_of(id_stream(sorted_views(ids)))
}

/// Appends the bytes of `s` to `out`.
fn push_bytes(out: &mut Vec<u8>, s: &str)
    ensures
        final(out)@ == old(out)@ + vstd::utf8::encode_utf8(s@),
{
    let b = s.as_bytes();
    let mut i: usize = 0;
    while i < b.len()
        invariant
            i <= b@.len(),
            b@ == vstd::utf8::encode_utf8(s@),
            out@ =~= old(out)@ + b@.take(i as int),
        decreases b@.len() - i,
    {
        out.push(b[i]);
        i = i + 1;
    }
    assert(b@.take(b@.len() as int) =~= b@);
}

impl MarketSnapshot {
    /// Snapshot of a round from the ids of its markets and the local time of
    /// the round, already rendered as `YYYY-MM-DD HH:MM:SS`.
    pub fn from_markets(market_ids: &Vec<String>, provider: &str, timestamp: &str) -> (r: Self)
        ensures
            r.market_count == market_ids@.len(),
            r.provider@ == provider@,
            r.timestamp@ == timestamp@,
            r.hash == market_set_hash(views(market_ids@)),
    {
        let sorted = sort_texts(clone_texts(market_ids));
        let mut bytes: Vec<u8> = Vec::new();
        let mut i: usize = 0;
        assert(views(sorted@).take(0) =~= Seq::<Seq<char>>::empty());
        while i < sorted.len()
            invariant
                i <= sorted@.len(),
                bytes@ == id_stream(views(sorted@).take(i as int)),
            decreases sorted@.len() - i,
        {
            push_bytes(&mut bytes, sorted[i].as_str());
            bytes.push(0xFFu8);
            assert(views(sorted@).take(i + 1).drop_last() =~= views(sorted@).take(i as int));
            i = i + 1;
        }
        assert(views(sorted@).take(sorted@.len() as int) =~= views(sorted@));
        let hash = default_hash(bytes.as_slice());
        MarketSnapshot {
            timestamp: owned(timestamp),
            market_count: market_ids.len(),
            provider: String::from_str(provider),
            hash,
        }
    }
}

/// The snapshot hash depends only on which markets are present: two
/// arrangements of the same market ids hash the same.
pub proof fn lemma_snapshot_hash_order_independent(ids1: Seq<Seq<char>>, ids2: Seq<Seq<char>>)
    requires
        ids1.to_multiset() == ids2.to_multiset(),
    ensures
        market_set_hash(ids1) == market_set_hash(ids2),
{
    lemma_sorted_views_order_independent(ids1, ids2);
}

/// A market snapshot is saved every this many scan rounds.
pub const MARKET_SNAPSHOT_INTERVAL: u64 = 10;

/// Whether the round with this number saves a market snapshot.
pub fn snapshot_due(round_count: u64) -> (r: bool)
    ensures
        r == (round_count % MARKET_SNAPSHOT_INTERVAL == 0),
{
    round_count % MARKET_SNAPSHOT_INTERVAL == 0
}

} // verus!
