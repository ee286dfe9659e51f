//! The commitment transformation contract.

pub mod error;
pub mod types;
pub mod contract;
