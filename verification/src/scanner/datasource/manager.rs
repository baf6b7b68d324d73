//! Data-source manager decisions: which provider a configuration names, the
//! cache's time-to-live, and the cache status it reports.

use vstd::prelude::*;

use crate::scanner::datasource::cache::MarketDataCache;
use crate::text::{owned, text_eq};

verus! {

/// Cache status (for data-source diagnostics).
#[derive(Debug, Clone)]
pub struct CacheInfo {
    /// Markets currently cached.
    pub size: usize,
    /// Time to live, in seconds.
    pub ttl_secs: u64,
    /// Whether the cached entry is still within its time to live.
    pub fresh: bool,
}

/// The providers the manager can build.
#[derive(Debug, Clone, Copy, PartialEq, Eq, Structural)]
pub enum ProviderKind {
    /// The Gamma HTTP API.
    Gamma,
    /// Built-in markets, offline.
    Mock,
}

/// The provider a configured name selects, or the error for it.
pub open spec fn provider_for(name: Seq<char>) -> Result<ProviderKind, Seq<char>> {
    if name == "gamma"@ {
        Ok(ProviderKind::Gamma)
    } else if name == "mock"@ {
        Ok(ProviderKind::Mock)
    } else if name == "clob"@ {
        Err("CLOB Provider 尚未实现（V1.02 仅实现 gamma/mock）"@)
    } else {
        Err("未知数据源 provider: "@ + name + "（支持 gamma / clob / mock）"@)
    }
}

/// Selects the provider by its configured name: `gamma` and `mock` are
/// built; `clob` is known but not available; anything else is unknown.
pub fn choose_provider(name: &str) -> (r: Result<ProviderKind, String>)
    ensures
        match (r, provider_for(name@)) {
            (Ok(k), Ok(want)) => k == want,
            (Err(e), Err(want)) => e@ == want,
            _ => false,
        },
{
    if text_eq(name, "gamma") {
        Ok(ProviderKind::Gamma)
    } else if text_eq(name, "mock") {
        Ok(ProviderKind::Mock)
    } else if text_eq(name, "clob") {
        Err(owned("CLOB Provider 尚未实现（V1.02 仅实现 gamma/mock）"))
    } else {
        let mut s = owned("未知数据源 provider: ");
        s.append(name);
        s.append("（支持 gamma / clob / mock）");
        Err(s)
    }
}

/// The cache's time-to-live: the configured seconds, at least one.
pub fn cache_ttl_secs(configured: u64) -> (r: u64)
    ensures
        r == if configured < 1 {
            1
        } else {
            configured
        },
{
    if configured < 1 {
        1
    } else {
        configured
    }
}

/// The status of a cache: its size, time-to-live and freshness.
pub fn cache_info<M, S>(cache: &MarketDataCache<M, S>) -> (r: CacheInfo)
    ensures
        r.size == match cache.stored() {
            Some((m, _)) => m.len(),
            None => 0,
        },
        r.ttl_secs == cache.ttl(),
        r.fresh ==> cache.stored() is Some,
        cache.ttl() == 0 ==> !r.fresh,
{
    CacheInfo { size: cache.size(), ttl_secs: cache.ttl_secs(), fresh: cache.is_fresh() }
}

/// `"✅"` for yes, `"❌"` for no.
pub fn yn(ok: bool) -> (r: &'static str)
    ensures
        r@ == (if ok {
            "✅"@
        } else {
            "❌"@
        }),
{
    if ok {
        "✅"
    } else {
        "❌"
    }
}

/// The upper-case mapping of a character (one character may map to several).
pub uninterp spec fn uppercase_of(c: char) -> Seq<char>;

/// Calls `char::to_uppercase` and collects the characters. The mapping is
/// Unicode's, named by `uppercase_of`; for ASCII, std documents that it is
/// `to_ascii_uppercase`: `a`..`z` become `A`..`Z`, anything else stays.
#[verifier::external_body]
fn uppercase(c: char) -> (r: String)
    ensures
        r@ == uppercase_of(c),
        (c as u32) < 128 ==> r@ == seq![
            (if 'a' <= c && c <= 'z' {
                ((c as u32) - 32) as char
            } else {
                c
            }),
        ],
{
    c.to_uppercase().collect::<String>()
}

/// The text with its first character upper-cased (for titles).
pub fn capitalize(s: &str) -> (r: String)
    ensures
        s@.len() == 0 ==> r@ == Seq::<char>::empty(),
        s@.len() > 0 ==> r@ == uppercase_of(s@[0]) + s@.skip(1),
{
    let n = s.unicode_len();
    if n == 0 {
        return String::new();
    }
    let mut r = uppercase(s.get_char(0));
    r.append(s.substring_char(1, n));
    assert(s@.subrange(1, n as int) =~= s@.skip(1));
    r
}

} // verus!
