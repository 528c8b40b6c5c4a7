//! A declarative applier for cluster resources.
//!
//! The library holds the verified logic of a resource-applier service: a
//! per-caller session store, resolution and validation of caller-supplied
//! connection configuration, the existence-check-then-create-or-patch /
//! idempotent-delete reconciliation engine, and a synthesizer that turns
//! connection-lifecycle events into service manifests. Network calls are
//! driven by an unverified shell around the library; every decision between
//! two calls is made here, with a contract.

pub mod config;
pub mod engine;
pub mod errors;
pub mod events;
pub mod manifest;
pub mod numbers;
pub mod outcome;
pub mod settings;
pub mod store;
pub mod strtools;
pub mod synth;

pub use outcome::OperationResponse;
