//! Verified core of the CommitLabs commitment protocol: fee and time
//! arithmetic, input guards, error catalogues, and the state machines of the
//! commitment core, transformation and timelock contracts.

pub mod validation;
pub mod math;
pub mod fee;
pub mod time;
pub mod ids;
pub mod commitment_interface;
pub mod commitment_core;
pub mod transformation;
pub mod time_lock;
pub mod registry;
pub mod keyed;
pub mod rate_limit;
