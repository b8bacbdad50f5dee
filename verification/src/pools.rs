//! The pool record builder: the pure transform from one raw contract
//! response to a normalized pool record.

use vstd::prelude::*;
use crate::address::{address_is_normalized, is_normalized_address};
use crate::errors::InitError;
use crate::types::{DexType, Pool, RawPoolDetails, Token, raw_details_ok};

verus! {

/// The record that a well-shaped contract response denotes: the
/// configured address, the protocol tag, both tokens verbatim, and the
/// scaled fee and tick fields copied through.
pub open spec fn record_of(details: RawPoolDetails, address: String, dex_type: DexType) -> Pool {
    Pool {
        address: address,
        dex_type: dex_type,
        token0: Token {
            address: details.token0,
            symbol: details.token0_symbol,
            decimals: details.token0_decimals,
        },
        token1: Token {
            address: details.token1,
            symbol: details.token1_symbol,
            decimals: details.token1_decimals,
        },
        fee_raw: details.fee,
        tick_spacing: details.tick_spacing,
        current_tick: details.current_tick,
    }
}

/// Builds the normalized record for one pool from the raw contract
/// response. Pure: no network work happens here. Fails with
/// `MalformedResponse` exactly when the response is not well shaped.
pub fn build_pool_record(details: RawPoolDetails, address: String, dex_type: DexType) -> (r: Result<
    Pool,
    InitError,
>)
    requires
        is_normalized_address(address@),
    ensures
        raw_details_ok(details) ==> r == Ok::<Pool, InitError>(record_of(details, address, dex_type)),
        !raw_details_ok(details) ==> r == Err::<Pool, InitError>(InitError::MalformedResponse),
        r is Ok ==> r->Ok_0.wf(),
{
    if !address_is_normalized(details.token0.as_str()) {
        return Err(InitError::MalformedResponse);
    }
    if !address_is_normalized(details.token1.as_str()) {
        return Err(InitError::MalformedResponse);
    }
    let RawPoolDetails {
        token0,
        token0_symbol,
        token0_decimals,
        token1,
        token1_symbol,
        token1_decimals,
        fee,
        tick_spacing,
        current_tick,
    } = details;
    Ok(
        Pool {
            address: address,
            dex_type: dex_type,
            token0: Token { address: token0, symbol: token0_symbol, decimals: token0_decimals },
            token1: Token { address: token1, symbol: token1_symbol, decimals: token1_decimals },
            fee_raw: fee,
            tick_spacing: tick_spacing,
            current_tick: current_tick,
        },
    )
}

} // verus!
