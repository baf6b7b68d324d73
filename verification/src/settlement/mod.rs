//! Settlement engine support: domain enums, identifiers, event kinds,
//! counters, validation and the CSV repository.

pub mod events;
pub mod flow;
pub mod ids;
pub mod metrics;
pub mod repository;
pub mod types;
pub mod validator;
