//! Risk engine: configuration, rules, decisions, events, explanations,
//! position sizers and portfolio risk levels.

pub mod book;
pub mod config;
pub mod dashboard;
pub mod engine;
pub mod events;
pub mod explain;
pub mod portfolio_risk;
pub mod position_sizer;
pub mod rules;
