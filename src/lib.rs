//! Deterministic state-transition core of a blockchain runtime: a fixed module
//! registry, the extrinsic validation chain, the block execution engine and the
//! host-facing entry points built on them.

pub mod registry;
pub mod fee;
pub mod validation;
pub mod execution;
pub mod consensus;
pub mod runtime;
pub mod api;
