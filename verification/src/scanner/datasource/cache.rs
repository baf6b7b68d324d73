//! In-memory market data cache: the last fetched markets and their fetch
//! statistics, served while younger than the time-to-live.

use vstd::prelude::*;

use crate::clock::{elapsed_since, instant_now, whole_millis};

verus! {

struct CachedEntry<M, S> {
    markets: Vec<M>,
    stats: S,
    fetched_at: std::time::Instant,
}

/// Cache of the last fetch (`M`: a market, `S`: the fetch statistics).
pub struct MarketDataCache<M, S> {
    ttl_secs: u64,
    entry: Option<CachedEntry<M, S>>,
}

/// `got` is what a read may hand back of a cache that stores `stored`:
/// nothing, or clones of the stored markets and statistics.
pub open spec fn read_of<M: Clone, S: Clone>(
    stored: Option<(Seq<M>, S)>,
    got: Option<(Vec<M>, S)>,
) -> bool {
    match got {
        None => true,
        Some((markets, stats)) => match stored {
            None => false,
            Some((m, s)) => {
                &&& markets@.len() == m.len()
                &&& forall|i: int| 0 <= i < m.len() ==> cloned::<M>(m[i], #[trigger] markets@[i])
                &&& cloned::<S>(s, stats)
            },
        },
    }
}

impl<M, S> MarketDataCache<M, S> {
    /// Time-to-live in seconds.
    pub closed spec fn ttl(&self) -> nat {
        self.ttl_secs as nat
    }

    /// The stored markets and statistics, if any.
    pub closed spec fn stored(&self) -> Option<(Seq<M>, S)> {
        match self.entry {
            Some(e) => Some((e.markets@, e.stats)),
            None => None,
        }
    }

    /// An empty cache whose entries live `ttl_secs` seconds.
    pub fn new(ttl_secs: u64) -> (r: Self)
        ensures
            r.ttl() == ttl_secs,
            r.stored() is None,
    {
        MarketDataCache { ttl_secs, entry: None }
    }

    /// Time-to-live in seconds.
    pub fn ttl_secs(&self) -> (r: u64)
        ensures
            r == self.ttl(),
    {
        self.ttl_secs
    }

    /// Number of cached markets (0 when nothing is cached).
    pub fn size(&self) -> (r: usize)
        ensures
            r == match self.stored() {
                Some((m, _)) => m.len(),
                None => 0,
            },
    {
        match &self.entry {
            Some(e) => e.markets.len(),
            None => 0,
        }
    }

    /// Milliseconds since the cached entry was stored, read from the
    /// monotonic clock; `None` with nothing cached.
    fn entry_age_ms(&self) -> (r: Option<u128>)
        ensures
            (r is Some) == (self.stored() is Some),
    {
        match &self.entry {
            Some(e) => {
                let elapsed = elapsed_since(&e.fetched_at);
                Some(whole_millis(&elapsed))
            },
            None => None,
        }
    }

    /// Whether an entry that is `age_ms` milliseconds old is fresh: something
    /// is cached and the age is below the time-to-live.
    pub fn is_fresh_at_age(&self, age_ms: u128) -> (r: bool)
        ensures
            r == (self.stored() is Some && age_ms < self.ttl() * 1000),
    {
        match &self.entry {
            Some(_) => age_ms < (self.ttl_secs as u128) * 1000,
            None => false,
        }
    }

    /// Clones of the cached markets and statistics if an entry `age_ms`
    /// milliseconds old is fresh; `None` otherwise.
    pub fn get_fresh_at_age(&self, age_ms: u128) -> (r: Option<(Vec<M>, S)>)
        where
            M: Clone,
            S: Clone,
        ensures
            read_of(self.stored(), r),
            (r is Some) == (self.stored() is Some && age_ms < self.ttl() * 1000),
    {
        match &self.entry {
            Some(e) => {
                if age_ms < (self.ttl_secs as u128) * 1000 {
                    Some((e.markets.clone(), e.stats.clone()))
                } else {
                    None
                }
            },
            None => None,
        }
    }

    /// Something is cached and younger than the time-to-live, by the
    /// monotonic clock (see `is_fresh_at_age` for the decision on a given
    /// age). With nothing cached, or a time-to-live of zero, it never is.
    pub fn is_fresh(&self) -> (r: bool)
        ensures
            r ==> self.stored() is Some,
            self.ttl() == 0 ==> !r,
    {
        match self.entry_age_ms() {
            Some(age) => self.is_fresh_at_age(age),
            None => false,
        }
    }

    /// Clones of the cached markets and statistics while they are fresh, by
    /// the monotonic clock (see `get_fresh_at_age` for the decision on a
    /// given age).
    pub fn get_fresh(&self) -> (r: Option<(Vec<M>, S)>)
        where
            M: Clone,
            S: Clone,
        ensures
            read_of(self.stored(), r),
            self.ttl() == 0 ==> r is None,
    {
        match self.entry_age_ms() {
            Some(age) => self.get_fresh_at_age(age),
            None => None,
        }
    }

    /// Stores a fetch, replacing what was cached, stamped now.
    pub fn set(&mut self, markets: Vec<M>, stats: S)
        ensures
            final(self).ttl() == old(self).ttl(),
            final(self).stored() == Some((markets@, stats)),
    {
        self.entry = Some(CachedEntry { markets, stats, fetched_at: instant_now() });
    }
}

/// What a fresh read gives back after a write is what was written, as
/// clones, or nothing once the entry has expired; never an earlier entry.
pub proof fn lemma_read_after_write<M: Clone, S: Clone>(
    written: MarketDataCache<M, S>,
    markets: Seq<M>,
    stats: S,
    got: Option<(Vec<M>, S)>,
)
    requires
        written.stored() == Some((markets, stats)),
        read_of(written.stored(), got),
    ensures
        match got {
            Some((m, s)) => {
                &&& m@.len() == markets.len()
                &&& forall|i: int| 0 <= i < markets.len() ==> cloned::<M>(markets[i], #[trigger] m@[i])
                &&& cloned::<S>(stats, s)
            },
            None => true,
        },
{
}

} // verus!
