//! Verified core of a simulation-only prediction-market trading toolkit.

pub mod sorting;
pub mod text;

mod clock;
pub mod portfolio;
pub mod scanner;
pub mod risk;
pub mod settlement;
