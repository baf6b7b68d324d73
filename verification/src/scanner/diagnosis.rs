//! The verdicts of the diagnostic report: whether the API and the JSON
//! decoding worked, and what a round's outcome says about the data chain.

use vstd::prelude::*;

use crate::scanner::stats::FetchStats;

verus! {

/// The API answered: no request failed and at least one succeeded.
pub open spec fn api_healthy(fetch: FetchStats) -> bool {
    fetch.failed_count == 0 && fetch.success_count > 0
}

/// The JSON decoded: no request failed.
pub open spec fn json_healthy(fetch: FetchStats) -> bool {
    fetch.failed_count == 0
}

/// Whether the API answered.
pub fn api_ok(fetch: &FetchStats) -> (r: bool)
    ensures
        r == api_healthy(*fetch),
{
    fetch.failed_count == 0 && fetch.success_count > 0
}

/// Whether the JSON decoded.
pub fn json_ok(fetch: &FetchStats) -> (r: bool)
    ensures
        r == json_healthy(*fetch),
{
    fetch.failed_count == 0
}

/// Overall conclusion about one diagnosed round, first failing link first.
#[derive(Debug, Clone, Copy, PartialEq, Eq, Structural)]
pub enum Diagnosis {
    /// The API layer failed.
    ApiFault,
    /// The API answered but decoding failed.
    JsonFault,
    /// The API answered with no market.
    NoMarkets,
    /// The data chain works; no opportunity is the expected outcome.
    NoOpportunity,
    /// The data chain works and opportunities were found.
    OpportunitiesFound,
}

/// The conclusion for a round's fetch, markets received and opportunities.
pub open spec fn diagnosis_for(fetch: FetchStats, received: nat, opportunities: nat) -> Diagnosis {
    if !api_healthy(fetch) {
        Diagnosis::ApiFault
    } else if !json_healthy(fetch) {
        Diagnosis::JsonFault
    } else if received == 0 {
        Diagnosis::NoMarkets
    } else if opportunities == 0 {
        Diagnosis::NoOpportunity
    } else {
        Diagnosis::OpportunitiesFound
    }
}

/// Concludes on a diagnosed round.
pub fn diagnose_round(fetch: &FetchStats, received: usize, opportunities: usize) -> (r: Diagnosis)
    ensures
        r == diagnosis_for(*fetch, received as nat, opportunities as nat),
{
    if !api_ok(fetch) {
        Diagnosis::ApiFault
    } else if !json_ok(fetch) {
        Diagnosis::JsonFault
    } else if received == 0 {
        Diagnosis::NoMarkets
    } else if opportunities == 0 {
        Diagnosis::NoOpportunity
    } else {
        Diagnosis::OpportunitiesFound
    }
}

/// A healthy API never yields a JSON fault: once the API answered, the
/// conclusion is about the markets and opportunities.
pub proof fn lemma_api_health_excludes_json_fault(fetch: FetchStats, received: nat, opportunities: nat)
    requires
        api_healthy(fetch),
    ensures
        diagnosis_for(fetch, received, opportunities) != Diagnosis::ApiFault,
        diagnosis_for(fetch, received, opportunities) != Diagnosis::JsonFault,
{
}

} // verus!
