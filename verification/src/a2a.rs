//! Bounded delegation of tasks to external agents.

pub mod cancellation;
pub mod collector;
pub mod delivery;
pub mod laws;
pub mod plan;
pub mod transport;
pub mod validation;
