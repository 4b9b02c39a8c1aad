//! Decision engine for an automated token-trading agent.
//!
//! The crate turns a set of per-source token assessments into one combined
//! risk and recommendation result, discovers the best candidate among
//! scored trade routes, validates and coordinates an execution, and keeps
//! execution telemetry. Network transports (chain RPC, venue APIs) live
//! outside this crate; it works on the plain values they produce.

pub mod types;
pub mod analysis;
pub mod execution;
pub mod notify;
pub mod routing;
pub mod telemetry;
pub mod util;
