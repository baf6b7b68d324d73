//! Data-source layer: health probes, market snapshots, data validation,
//! per-round data statistics and cache status.

use vstd::prelude::*;

pub mod cache;
pub mod capability;
pub mod gamma;
pub mod manager;
pub mod snapshot;
pub mod statistics;
pub mod validator;

pub use manager::CacheInfo;
pub use snapshot::MarketSnapshot;
pub use statistics::DataStatistics;
pub use validator::{Validator, ValidatorReport};

verus! {

/// Result of a provider health probe (also reused by the start-up checks).
#[derive(Debug, Clone)]
pub struct HealthProbe {
    /// HTTP 2xx and the JSON body parsed.
    pub ok: bool,
    /// HTTP status (0 when the request never reached the server).
    pub status: u16,
    /// Markets returned by the probe.
    pub market_count: usize,
    /// Probe latency in milliseconds.
    pub latency_ms: u128,
    /// Human-readable detail.
    pub detail: String,
}

} // verus!
