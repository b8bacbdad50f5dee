use yieldai::errors::InitError;
use yieldai::pools::build_pool_record;
use yieldai::types::{DexType, RawPoolDetails};

fn test_address(i: u8) -> String {
    format!("0x{:040x}", i as u64)
}

fn details() -> RawPoolDetails {
    RawPoolDetails {
        token0: test_address(0xa0),
        token0_symbol: String::from("WBNB"),
        token0_decimals: 18,
        token1: test_address(0xa1),
        token1_symbol: String::from("USDT"),
        token1_decimals: 6,
        fee: 3000,
        tick_spacing: 60,
        current_tick: -12345,
    }
}

#[test]
fn builds_record_verbatim() {
    let pool = build_pool_record(details(), test_address(1), DexType::UniswapV3).unwrap();
    assert_eq!(pool.address, test_address(1));
    assert!(matches!(pool.dex_type, DexType::UniswapV3));
    assert_eq!(pool.token0.address, test_address(0xa0));
    assert_eq!(pool.token0.symbol, "WBNB");
    assert_eq!(pool.token0.decimals, 18);
    assert_eq!(pool.token1.address, test_address(0xa1));
    assert_eq!(pool.token1.symbol, "USDT");
    assert_eq!(pool.token1.decimals, 6);
    assert_eq!(pool.fee_raw, 3000);
    assert_eq!(pool.tick_spacing, 60);
    assert_eq!(pool.current_tick, -12345);
}

#[test]
fn keeps_scaled_fee_for_descaling() {
    // A raw fee of 3000 against the scale factor of 10000 stands for a
    // fee fraction of 3000/10000; the record keeps the raw value.
    let pool = build_pool_record(details(), test_address(1), DexType::PancakeSwapV3).unwrap();
    assert_eq!(pool.fee_raw, 3000);
    assert_eq!(yieldai::config::FEE_FACTOR, 10_000);
}

#[test]
fn rejects_bad_token0_address() {
    let mut d = details();
    d.token0 = String::from("0xNOTLOWERHEX000000000000000000000000000000");
    let r = build_pool_record(d, test_address(1), DexType::UniswapV3);
    assert!(matches!(r, Err(InitError::MalformedResponse)));
}

#[test]
fn rejects_bad_token1_address() {
    let mut d = details();
    d.token1 = String::from("short");
    let r = build_pool_record(d, test_address(1), DexType::UniswapV3);
    assert!(matches!(r, Err(InitError::MalformedResponse)));
}

#[test]
fn clone_copies_every_field() {
    let d = details();
    let d2 = d.clone();
    assert_eq!(d2.token0, d.token0);
    assert_eq!(d2.token1_symbol, d.token1_symbol);
    assert_eq!(d2.fee, d.fee);
    assert_eq!(d2.current_tick, d.current_tick);
}
