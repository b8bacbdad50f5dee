//! Verified core of a liquidity-pool metadata service.
//!
//! At process start the service must fetch on-chain details for every
//! configured pool, normalize each raw contract response into a pool
//! record, and collect the records into a registry keyed by address,
//! while bounding how many chain calls run at once and aborting the
//! whole initialization on the first failure.
//!
//! This crate holds that core as verified code. The network itself is
//! driven by the surrounding process: it asks the [`orchestrator`] which
//! entry may start next, performs the chain call, and hands the outcome
//! back. Every decision — slot accounting, fail-fast aborts, record
//! normalization, registry bookkeeping — is made here, under contract.

pub mod address;
pub mod config;
pub mod errors;
pub mod orchestrator;
pub mod pools;
pub mod registry;
pub mod types;
