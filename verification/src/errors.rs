//! The failures that can abort pool-state initialization.

use vstd::prelude::*;

verus! {

/// A fatal initialization failure. Every kind aborts the whole
/// initialization: the caller receives the error and must not use any
/// partially built registry.
#[derive(Debug, PartialEq, Eq)]
pub enum InitError {
    /// A configured address is not a normalized chain address.
    InvalidAddress,
    /// A chain call failed (timeout, connection error, contract
    /// revert); the message describes the cause.
    RpcFailure(String),
    /// A contract response did not have the expected shape.
    MalformedResponse,
    /// The concurrency gate reported an acquisition failure. A correct
    /// driver never produces it; it is kept as a fatal internal error.
    ConcurrencyLimitExhaustion,
}

impl Clone for InitError {
    fn clone(&self) -> (r: Self)
        ensures
            r == *self,
    {
        match self {
            InitError::InvalidAddress => InitError::InvalidAddress,
            InitError::RpcFailure(message) => InitError::RpcFailure(message.clone()),
            InitError::MalformedResponse => InitError::MalformedResponse,
            InitError::ConcurrencyLimitExhaustion => InitError::ConcurrencyLimitExhaustion,
        }
    }
}

} // verus!
