//! The commitment lifecycle contract.

pub mod error;
pub mod types;
pub mod contract;
