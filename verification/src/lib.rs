//! Supervision layer for a desktop portfolio application.
//!
//! The library owns the decision logic of the supervision layer: resolving
//! the filesystem layout from one application-data root, planning worker
//! subprocess invocations, interpreting their exit status, encoding inline
//! row payloads, decoding store rows into read projections, and driving the
//! backend readiness probe. All I/O (spawning processes, touching the disk,
//! opening store connections) is left to a thin unverified shell that calls
//! into these functions with plain values.

pub mod decimal;
pub mod errors;
pub mod importer;
pub mod json;
pub mod pathset;
pub mod store;
pub mod supervisor;
