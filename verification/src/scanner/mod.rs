//! Scanning subsystem: opportunity screening, scan statistics, module timing,
//! start-up health checks and the data-source layer.

pub mod datasource;
pub mod diagnosis;
pub mod health;
pub mod market;
pub mod pipeline;
pub mod stats;
