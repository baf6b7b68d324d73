//! The Gamma markets endpoint: request URLs, the paging plan, how fetched
//! pages are merged, the rate-limit summary and how a Gamma market record is
//! identified and classified.
//!
//! Pages are requested in batches; the pages of a batch are merged in offset
//! order, and the first terminal page (failed, answered 422, or empty) ends the
//! fetch: it still counts in the statistics, but neither it nor any later page
//! contributes markets.

use vstd::prelude::*;

use crate::scanner::datasource::HealthProbe;
use crate::text::{decimal, decimal_text, join_texts, joined, owned};

verus! {

/// Base address of the public Gamma API.
pub const GAMMA_API_BASE: &'static str = "https://gamma-api.polymarket.com";

/// Markets requested per page (the API's page maximum).
pub const PAGE_LIMIT: usize = 100;

/// Safety bound on the number of pages.
pub const MAX_PAGES: usize = 50;

/// Pages requested per fetch: the API truncates near 2100 markets, so 22 pages
/// of 100 reach the end, the last one being the probe that answers 422.
pub const EXPECTED_PAGES: usize = 22;

/// Pages in flight at the same time.
pub const MAX_CONCURRENT_PAGES: usize = 6;

/// The HTTP status by which the API says the offset is past its data.
pub const STATUS_UNPROCESSABLE: u16 = 422;

/// URL of the page that starts at `offset`.
pub open spec fn page_url_text(offset: nat) -> Seq<char> {
    GAMMA_API_BASE@ + "/markets?limit="@ + decimal(PAGE_LIMIT as nat) + "&offset="@ + decimal(offset)
        + "&closed=false&order=volumeNum&ascending=false"@
}

/// URL of the one-market health probe.
pub open spec fn health_url_text() -> Seq<char> {
    GAMMA_API_BASE@ + "/markets?limit=1&closed=false"@
}

/// The URL of the page of open markets, by descending volume, that starts at
/// `offset`.
pub fn page_url(offset: usize) -> (r: String)
    ensures
        r@ == page_url_text(offset as nat),
{
    let mut r = owned(GAMMA_API_BASE);
    r.append("/markets?limit=");
    let limit = decimal_text(PAGE_LIMIT as u128);
    r.append(limit.as_str());
    r.append("&offset=");
    let off = decimal_text(offset as u128);
    r.append(off.as_str());
    r.append("&closed=false&order=volumeNum&ascending=false");
    r
}

/// The URL of the health probe (one open market).
pub fn health_url() -> (r: String)
    ensures
        r@ == health_url_text(),
{
    let mut r = owned(GAMMA_API_BASE);
    r.append("/markets?limit=1&closed=false");
    r
}

/// The offsets of the pages of one fetch: `0, 100, …, 2100`.
pub fn page_offsets() -> (v: Vec<usize>)
    ensures
        v@.len() == EXPECTED_PAGES,
        forall|i: int| 0 <= i < v@.len() ==> v@[i] == i * PAGE_LIMIT,
{
    let mut v: Vec<usize> = Vec::new();
    let mut i: usize = 0;
    while i < EXPECTED_PAGES
        invariant
            i <= EXPECTED_PAGES,
            v@.len() == i,
            forall|j: int| 0 <= j < i ==> v@[j] == j * PAGE_LIMIT,
        decreases EXPECTED_PAGES - i,
    {
        v.push(i * PAGE_LIMIT);
        i = i + 1;
    }
    v
}

/// The offsets of the batch that follows `done` requested pages: the next
/// `MAX_CONCURRENT_PAGES` offsets, fewer at the end, none once all are requested.
pub fn next_batch(offsets: &Vec<usize>, done: usize) -> (b: Vec<usize>)
    ensures
        done >= offsets@.len() ==> b@.len() == 0,
        done < offsets@.len() ==> b@ == offsets@.subrange(
            done as int,
            if done + MAX_CONCURRENT_PAGES <= offsets@.len() {
                done + MAX_CONCURRENT_PAGES
            } else {
                offsets@.len() as int
            },
        ),
{
    let mut b: Vec<usize> = Vec::new();
    if done >= offsets.len() {
        return b;
    }
    let end: usize = if offsets.len() - done >= MAX_CONCURRENT_PAGES {
        done + MAX_CONCURRENT_PAGES
    } else {
        offsets.len()
    };
    let mut i: usize = done;
    while i < end
        invariant
            done <= i <= end,
            end <= offsets@.len(),
            b@ == offsets@.subrange(done as int, i as int),
        decreases end - i,
    {
        b.push(offsets[i]);
        assert(b@ =~= offsets@.subrange(done as int, i + 1));
        i = i + 1;
    }
    b
}

/// What the merge reads of one fetched page.
#[derive(Debug, Clone, Copy, PartialEq, Eq, Structural)]
pub struct PageSummary {
    /// Offset the page was requested at.
    pub offset: usize,
    /// The request and the decoding succeeded (a 422 answer counts as success).
    pub ok: bool,
    /// HTTP status (0 when the request never reached the server).
    pub status: u16,
    /// Markets decoded from the page.
    pub market_count: usize,
}

/// A page after which no data follows.
pub open spec fn page_terminal(p: PageSummary) -> bool {
    !p.ok || p.status == STATUS_UNPROCESSABLE || p.market_count == 0
}

impl PageSummary {
    /// Whether no data follows this page.
    pub fn is_terminal(&self) -> (r: bool)
        ensures
            r == page_terminal(*self),
    {
        !self.ok || self.status == STATUS_UNPROCESSABLE || self.market_count == 0
    }
}

/// How one batch of pages, in offset order, enters the fetch.
#[derive(Debug, Clone, Copy, PartialEq, Eq, Structural)]
pub struct BatchMerge {
    /// Leading pages whose markets are kept.
    pub merged: usize,
    /// Leading pages counted in the fetch statistics.
    pub accounted: usize,
    /// A terminal page was met: no further batch is requested.
    pub stop: bool,
}

/// Index of the first terminal page of `pages`, or its length when there is none.
pub open spec fn first_terminal(pages: Seq<PageSummary>) -> nat
    decreases pages.len(),
{
    if pages.len() == 0 {
        0
    } else if page_terminal(pages[0]) {
        0
    } else {
        1 + first_terminal(pages.drop_first())
    }
}

/// The merge of a batch: the pages before the first terminal one are merged,
/// the terminal page is counted too, and it stops the fetch.
pub open spec fn batch_merge_of(pages: Seq<PageSummary>) -> BatchMerge {
    let k = first_terminal(pages);
    if k < pages.len() {
        BatchMerge { merged: k as usize, accounted: (k + 1) as usize, stop: true }
    } else {
        BatchMerge { merged: k as usize, accounted: k as usize, stop: false }
    }
}

proof fn lemma_first_terminal(pages: Seq<PageSummary>)
    ensures
        first_terminal(pages) <= pages.len(),
        forall|i: int| 0 <= i < first_terminal(pages) ==> !page_terminal(#[trigger] pages[i]),
        first_terminal(pages) < pages.len() ==> page_terminal(pages[first_terminal(pages) as int]),
    decreases pages.len(),
{
    if pages.len() > 0 && !page_terminal(pages[0]) {
        let rest = pages.drop_first();
        lemma_first_terminal(rest);
        assert forall|i: int| 0 <= i < first_terminal(pages) implies !page_terminal(
            #[trigger] pages[i],
        ) by {
            if i > 0 {
                assert(pages[i] == rest[i - 1]);
            }
        }
        if first_terminal(pages) < pages.len() {
            assert(pages[first_terminal(pages) as int] == rest[first_terminal(rest) as int]);
        }
    }
}

proof fn lemma_first_terminal_unique(pages: Seq<PageSummary>, k: int)
    requires
        0 <= k <= pages.len(),
        forall|i: int| 0 <= i < k ==> !page_terminal(#[trigger] pages[i]),
        k < pages.len() ==> page_terminal(pages[k]),
    ensures
        first_terminal(pages) == k,
    decreases pages.len(),
{
    if pages.len() > 0 && k > 0 {
        let rest = pages.drop_first();
        assert(!page_terminal(pages[0]));
        assert forall|i: int| 0 <= i < k - 1 implies !page_terminal(#[trigger] rest[i]) by {
            assert(rest[i] == pages[i + 1]);
        }
        if k - 1 < rest.len() {
            assert(rest[k - 1] == pages[k]);
        }
        lemma_first_terminal_unique(rest, k - 1);
    }
}

/// `s` with `p` inserted after every page whose offset is at most `p`'s.
pub open spec fn insert_by_offset(s: Seq<PageSummary>, p: PageSummary) -> Seq<PageSummary>
    decreases s.len(),
{
    if s.len() == 0 {
        seq![p]
    } else if s.last().offset <= p.offset {
        s.push(p)
    } else {
        insert_by_offset(s.drop_last(), p).push(s.last())
    }
}

/// The pages in ascending offset order; pages of equal offset keep their
/// order (a stable sort by offset).
pub open spec fn sorted_by_offset(s: Seq<PageSummary>) -> Seq<PageSummary>
    decreases s.len(),
{
    if s.len() == 0 {
        Seq::empty()
    } else {
        insert_by_offset(sorted_by_offset(s.drop_last()), s.last())
    }
}

/// Offsets ascend.
pub open spec fn offsets_ascending(s: Seq<PageSummary>) -> bool {
    forall|i: int, j: int| 0 <= i < j < s.len() ==> s[i].offset <= s[j].offset
}

proof fn lemma_insert_at(s: Seq<PageSummary>, p: PageSummary, k: int)
    requires
        0 <= k <= s.len(),
        forall|j: int| k <= j < s.len() ==> s[j].offset > p.offset,
        k > 0 ==> s[k - 1].offset <= p.offset,
    ensures
        insert_by_offset(s, p) == s.take(k) + seq![p] + s.skip(k),
    decreases s.len(),
{
    if s.len() == 0 {
        assert(s.take(k) + seq![p] + s.skip(k) =~= seq![p]);
    } else if s.last().offset <= p.offset {
        assert(k == s.len());
        assert(s.take(k) + seq![p] + s.skip(k) =~= s.push(p));
    } else {
        let d = s.drop_last();
        lemma_insert_at(d, p, k);
        assert(insert_by_offset(s, p) == insert_by_offset(d, p).push(s.last()));
        assert((d.take(k) + seq![p] + d.skip(k)).push(s.last()) =~= s.take(k) + seq![p] + s.skip(k));
    }
}

proof fn lemma_insert_keeps_order(s: Seq<PageSummary>, p: PageSummary)
    requires
        offsets_ascending(s),
    ensures
        offsets_ascending(insert_by_offset(s, p)),
        insert_by_offset(s, p).len() == s.len() + 1,
        insert_by_offset(s, p).to_multiset() == s.to_multiset().insert(p),
    decreases s.len(),
{
    broadcast use vstd::seq_lib::group_to_multiset_ensures;

    if s.len() > 0 && s.last().offset > p.offset {
        let d = s.drop_last();
        assert(offsets_ascending(d));
        lemma_insert_keeps_order(d, p);
        let t = insert_by_offset(d, p);
        assert forall|j: int| 0 <= j < t.len() implies t[j].offset <= s.last().offset by {
            assert(t.to_multiset().contains(t[j]));
            if t[j] != p {
                assert(d.to_multiset().contains(t[j]));
                let m = choose|m: int| 0 <= m < d.len() && d[m] == t[j];
                assert(s[m] == d[m]);
            }
        }
        assert(s =~= d.push(s.last()));
    }
}

proof fn lemma_sorted_by_offset(s: Seq<PageSummary>)
    ensures
        offsets_ascending(sorted_by_offset(s)),
        sorted_by_offset(s).len() == s.len(),
        sorted_by_offset(s).to_multiset() == s.to_multiset(),
    decreases s.len(),
{
    broadcast use vstd::seq_lib::group_to_multiset_ensures;

    if s.len() > 0 {
        lemma_sorted_by_offset(s.drop_last());
        lemma_insert_keeps_order(sorted_by_offset(s.drop_last()), s.last());
        assert(s =~= s.drop_last().push(s.last()));
    }
}

/// Sorts pages by offset, keeping pages of equal offset in their order.
fn sort_by_offset(pages: &mut Vec<PageSummary>)
    ensures
        final(pages)@ == sorted_by_offset(old(pages)@),
{
    let ghost orig = pages@;
    let mut sorted: Vec<PageSummary> = Vec::new();
    let mut i: usize = 0;
    assert(orig.take(0) =~= Seq::<PageSummary>::empty());
    while i < pages.len()
        invariant
            pages@ == orig,
            i <= orig.len(),
            sorted@ == sorted_by_offset(orig.take(i as int)),
        decreases orig.len() - i,
    {
        let p = pages[i];
        let mut k: usize = sorted.len();
        while k > 0 && sorted[k - 1].offset > p.offset
            invariant
                k <= sorted@.len(),
                forall|j: int| k <= j < sorted@.len() ==> sorted@[j].offset > p.offset,
            decreases k,
        {
            k = k - 1;
        }
        proof {
            lemma_insert_at(sorted@, p, k as int);
            assert(orig.take(i + 1).drop_last() =~= orig.take(i as int));
            assert(orig.take(i + 1).last() == p);
        }
        sorted.insert(k, p);
        assert(sorted@ =~= sorted_by_offset(orig.take(i + 1)));
        i = i + 1;
    }
    assert(orig.take(orig.len() as int) =~= orig);
    *pages = sorted;
}

/// Merges one batch of fetched pages: the pages are first put in offset
/// order (pages of equal offset keep their order), then merged up to the
/// first terminal page.
pub fn merge_batch(pages: &mut Vec<PageSummary>) -> (m: BatchMerge)
    ensures
        final(pages)@ == sorted_by_offset(old(pages)@),
        offsets_ascending(final(pages)@),
        final(pages)@.to_multiset() == old(pages)@.to_multiset(),
        m == batch_merge_of(final(pages)@),
        m.merged <= m.accounted <= final(pages)@.len(),
{
    let ghost before = pages@;
    sort_by_offset(pages);
    proof {
        lemma_sorted_by_offset(before);
        lemma_first_terminal(pages@);
    }
    let mut k: usize = 0;
    while k < pages.len()
        invariant
            before == old(pages)@,
            pages@ == sorted_by_offset(before),
            offsets_ascending(pages@),
            pages@.to_multiset() == before.to_multiset(),
            k <= pages@.len(),
            forall|i: int| 0 <= i < k ==> !page_terminal(#[trigger] pages@[i]),
        decreases pages@.len() - k,
    {
        if pages[k].is_terminal() {
            proof {
                lemma_first_terminal_unique(pages@, k as int);
            }
            return BatchMerge { merged: k, accounted: k + 1, stop: true };
        }
        k = k + 1;
    }
    proof {
        lemma_first_terminal_unique(pages@, k as int);
    }
    BatchMerge { merged: k, accounted: k, stop: false }
}

/// A fetch fails as a whole when no market was merged and some counted
/// request failed.
pub fn fetch_failed(merged_markets: usize, failed_requests: u64) -> (r: bool)
    ensures
        r == (merged_markets == 0 && failed_requests > 0),
{
    merged_markets == 0 && failed_requests > 0
}

/// `label=value` for a header that is present.
pub open spec fn rate_limit_part(label: Seq<char>, value: Option<Seq<char>>) -> Seq<Seq<char>> {
    match value {
        Some(v) => seq![label + "="@ + v],
        None => Seq::empty(),
    }
}

/// The present rate-limit headers, in the order limit, remaining, reset.
pub open spec fn rate_limit_parts(
    limit: Option<Seq<char>>,
    remaining: Option<Seq<char>>,
    reset: Option<Seq<char>>,
) -> Seq<Seq<char>> {
    rate_limit_part("limit"@, limit) + rate_limit_part("remaining"@, remaining) + rate_limit_part(
        "reset"@,
        reset,
    )
}

/// The view of an optional text.
pub open spec fn opt_view(s: Option<&str>) -> Option<Seq<char>> {
    match s {
        Some(t) => Some(t@),
        None => None,
    }
}

fn push_part(parts: &mut Vec<String>, label: &str, value: Option<&str>)
    ensures
        final(parts)@.map_values(|l: String| l@) == old(parts)@.map_values(|l: String| l@)
            + rate_limit_part(label@, opt_view(value)),
{
    let ghost before = parts@.map_values(|l: String| l@);
    match value {
        Some(v) => {
            let mut part = owned(label);
            part.append("=");
            part.append(v);
            parts.push(part);
            assert(parts@.map_values(|l: String| l@) =~= before + rate_limit_part(
                label@,
                opt_view(value),
            ));
        },
        None => {
            assert(parts@.map_values(|l: String| l@) =~= before + rate_limit_part(
                label@,
                opt_view(value),
            ));
        },
    }
}

/// The rate-limit summary of a response: the present headers among
/// `x-ratelimit-limit`, `-remaining` and `-reset` as `label=value`, joined by
/// `", "`; `None` when none is present.
pub fn rate_limit_text(limit: Option<&str>, remaining: Option<&str>, reset: Option<&str>) -> (r:
    Option<String>)
    ensures
        ({
            let parts = rate_limit_parts(opt_view(limit), opt_view(remaining), opt_view(reset));
            &&& parts.len() == 0 ==> r is None
            &&& parts.len() > 0 ==> r is Some && r->0@ == joined(parts, ", "@)
        }),
{
    let mut parts: Vec<String> = Vec::new();
    assert(parts@.map_values(|l: String| l@) =~= Seq::<Seq<char>>::empty());
    push_part(&mut parts, "limit", limit);
    push_part(&mut parts, "remaining", remaining);
    push_part(&mut parts, "reset", reset);
    assert(parts@.map_values(|l: String| l@) =~= rate_limit_parts(
        opt_view(limit),
        opt_view(remaining),
        opt_view(reset),
    ));
    if parts.len() == 0 {
        None
    } else {
        Some(join_texts(&parts, ", "))
    }
}

/// The identifier of a Gamma market: its condition id, else its id, else its
/// question, else empty.
pub open spec fn market_id_of(
    condition_id: Option<Seq<char>>,
    id: Option<Seq<char>>,
    question: Option<Seq<char>>,
) -> Seq<char> {
    match condition_id {
        Some(c) => c,
        None => match id {
            Some(i) => i,
            None => match question {
                Some(q) => q,
                None => Seq::empty(),
            },
        },
    }
}

/// The view of an optional owned text.
pub open spec fn opt_string_view(s: Option<String>) -> Option<Seq<char>> {
    match s {
        Some(t) => Some(t@),
        None => None,
    }
}

/// The unified identifier of a Gamma market record.
pub fn unified_market_id(condition_id: Option<String>, id: Option<String>, question: Option<String>) -> (r: String)
    ensures
        r@ == market_id_of(
            opt_string_view(condition_id),
            opt_string_view(id),
            opt_string_view(question),
        ),
{
    match condition_id {
        Some(c) => c,
        None => match id {
            Some(i) => i,
            None => match question {
                Some(q) => q,
                None => String::new(),
            },
        },
    }
}

/// Status of a market as a provider reports it.
#[derive(Debug, Clone, Copy, PartialEq, Eq, Structural)]
pub enum MarketStatus {
    Active,
    Inactive,
    Closed,
}

/// Closed wins over the active flag.
pub open spec fn status_from(closed: bool, active: bool) -> MarketStatus {
    if closed {
        MarketStatus::Closed
    } else if active {
        MarketStatus::Active
    } else {
        MarketStatus::Inactive
    }
}

/// The unified status of a Gamma market from its `closed` and `active` flags.
pub fn status_of(closed: bool, active: bool) -> (s: MarketStatus)
    ensures
        s == status_from(closed, active),
{
    if closed {
        MarketStatus::Closed
    } else if active {
        MarketStatus::Active
    } else {
        MarketStatus::Inactive
    }
}

impl MarketStatus {
    /// Open for trading or closed: every status but `Inactive` (a closed
    /// Gamma market still carries its active flag).
    pub fn active(&self) -> (r: bool)
        ensures
            r == (*self != MarketStatus::Inactive),
    {
        !matches!(self, MarketStatus::Inactive)
    }

    /// The market is closed.
    pub fn closed(&self) -> (r: bool)
        ensures
            r == (*self == MarketStatus::Closed),
    {
        matches!(self, MarketStatus::Closed)
    }
}

/// A 2xx status.
pub open spec fn is_success_status(status: u16) -> bool {
    200 <= status <= 299
}

/// Whether an HTTP status is a success (2xx).
pub fn success_status(status: u16) -> (r: bool)
    ensures
        r == is_success_status(status),
{
    200 <= status && status <= 299
}

/// The probe of a response whose status is not a success: not ok, no
/// markets, detail `HTTP <status>`.
pub fn probe_rejected(status: u16, latency_ms: u128) -> (p: HealthProbe)
    ensures
        !p.ok,
        p.status == status,
        p.market_count == 0,
        p.latency_ms == latency_ms,
        p.detail@ == "HTTP "@ + decimal(status as nat),
{
    let mut detail = owned("HTTP ");
    detail.append(decimal_text(status as u128).as_str());
    HealthProbe { ok: false, status, market_count: 0, latency_ms, detail }
}

/// The probe of a successful response whose body decoded to
/// `market_count` markets: ok, detail `HTTP <status>，解析 <n> 个市场`.
pub fn probe_parsed(status: u16, market_count: usize, latency_ms: u128) -> (p: HealthProbe)
    ensures
        p.ok,
        p.status == status,
        p.market_count == market_count,
        p.latency_ms == latency_ms,
        p.detail@ == "HTTP "@ + decimal(status as nat) + "，解析 "@ + decimal(market_count as nat)
            + " 个市场"@,
{
    let mut detail = owned("HTTP ");
    detail.append(decimal_text(status as u128).as_str());
    detail.append("，解析 ");
    detail.append(decimal_text(market_count as u128).as_str());
    detail.append(" 个市场");
    HealthProbe { ok: true, status, market_count, latency_ms, detail }
}

/// The probe of a request that failed with `reason` (no response, unreadable
/// body, undecodable JSON): not ok, no markets, detail `<prefix><reason>`.
pub fn probe_failed(status: u16, latency_ms: u128, prefix: &str, reason: &str) -> (p: HealthProbe)
    ensures
        !p.ok,
        p.status == status,
        p.market_count == 0,
        p.latency_ms == latency_ms,
        p.detail@ == prefix@ + reason@,
{
    let mut detail = owned(prefix);
    detail.append(reason);
    HealthProbe { ok: false, status, market_count: 0, latency_ms, detail }
}

} // verus!
