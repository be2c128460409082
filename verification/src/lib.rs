//! Simulation of a price series by per-tick log-normal returns: the parameters
//! of the sampling distribution for a time grid and yearly statistics, and the
//! accumulation of a return series into a value series under a leverage policy.
//!
//! The library never looks inside a number. It is written over any type that
//! implements [`scalar::Scalar`], and every contract speaks of the results of
//! that type's operations as they come.
pub mod determinism;
pub mod error;
pub mod grid;
pub mod identities;
pub mod leverage;
pub mod sampling;
pub mod scalar;
