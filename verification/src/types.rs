//! The domain records: tokens, raw contract responses, and normalized
//! pool records.

use vstd::prelude::*;
use crate::address::is_normalized_address;

verus! {

/// The flavor of exchange protocol a pool belongs to. A passive tag:
/// nothing in this crate branches on it, but downstream consumers read
/// it.
#[derive(Clone, Copy, Debug, PartialEq, Eq, Structural)]
pub enum DexType {
    UniswapV3,
    PancakeSwapV3,
}

/// One of the two tokens of a pool, as reported by the chain contract.
/// Immutable value type.
#[derive(Debug)]
pub struct Token {
    pub address: String,
    pub symbol: String,
    pub decimals: u8,
}

impl Token {
    /// A token is well formed when its address is normalized.
    pub open spec fn wf(&self) -> bool {
        is_normalized_address(self.address@)
    }
}

impl Clone for Token {
    fn clone(&self) -> (r: Self)
        ensures
            r == *self,
    {
        Token {
            address: self.address.clone(),
            symbol: self.symbol.clone(),
            decimals: self.decimals,
        }
    }
}

/// The raw output of the chain contract call for one pool, verbatim:
/// both tokens' metadata, the scaled integer fee, the tick spacing and
/// the current tick.
#[derive(Debug)]
pub struct RawPoolDetails {
    pub token0: String,
    pub token0_symbol: String,
    pub token0_decimals: u8,
    pub token1: String,
    pub token1_symbol: String,
    pub token1_decimals: u8,
    pub fee: u32,
    pub tick_spacing: i32,
    pub current_tick: i32,
}

impl Clone for RawPoolDetails {
    fn clone(&self) -> (r: Self)
        ensures
            r == *self,
    {
        RawPoolDetails {
            token0: self.token0.clone(),
            token0_symbol: self.token0_symbol.clone(),
            token0_decimals: self.token0_decimals,
            token1: self.token1.clone(),
            token1_symbol: self.token1_symbol.clone(),
            token1_decimals: self.token1_decimals,
            fee: self.fee,
            tick_spacing: self.tick_spacing,
            current_tick: self.current_tick,
        }
    }
}

/// A contract response of the expected shape: both token addresses are
/// normalized chain addresses.
pub open spec fn raw_details_ok(d: RawPoolDetails) -> bool {
    is_normalized_address(d.token0@) && is_normalized_address(d.token1@)
}

/// A normalized pool record, created once per initialization cycle and
/// immutable afterwards.
///
/// `fee_raw` is the contract's scaled integer fee; dividing it by
/// [`crate::config::FEE_FACTOR`] gives the fee fraction. The exchange
/// rates of the two tokens are not stored here: they derive from
/// `current_tick` and the token decimals, and consumers that want them
/// as floating-point prices compute them from those fields.
#[derive(Debug)]
pub struct Pool {
    pub address: String,
    pub dex_type: DexType,
    pub token0: Token,
    pub token1: Token,
    pub fee_raw: u32,
    pub tick_spacing: i32,
    pub current_tick: i32,
}

impl Pool {
    /// A record is well formed when its own address and both token
    /// addresses are normalized.
    pub open spec fn wf(&self) -> bool {
        &&& is_normalized_address(self.address@)
        &&& self.token0.wf()
        &&& self.token1.wf()
    }
}

impl Clone for Pool {
    fn clone(&self) -> (r: Self)
        ensures
            r == *self,
    {
        Pool {
            address: self.address.clone(),
            dex_type: self.dex_type,
            token0: self.token0.clone(),
            token1: self.token1.clone(),
            fee_raw: self.fee_raw,
            tick_spacing: self.tick_spacing,
            current_tick: self.current_tick,
        }
    }
}

} // verus!
