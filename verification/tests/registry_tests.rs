use yieldai::pools::build_pool_record;
use yieldai::registry::PoolRegistry;
use yieldai::types::{DexType, RawPoolDetails};

fn test_address(i: u8) -> String {
    format!("0x{:040x}", i as u64)
}

fn record(i: u8, fee: u32) -> yieldai::types::Pool {
    let details = RawPoolDetails {
        token0: test_address(0xb0),
        token0_symbol: String::from("T0"),
        token0_decimals: 18,
        token1: test_address(0xb1),
        token1_symbol: String::from("T1"),
        token1_decimals: 18,
        fee,
        tick_spacing: 10,
        current_tick: 7,
    };
    build_pool_record(details, test_address(i), DexType::UniswapV3).unwrap()
}

#[test]
fn empty_registry_has_no_entries() {
    let registry = PoolRegistry::new();
    assert_eq!(registry.len(), 0);
    assert!(!registry.contains(&test_address(1)));
    assert!(registry.get(&test_address(1)).is_none());
}

#[test]
fn inserted_record_comes_back() {
    let mut registry = PoolRegistry::new();
    registry.insert(record(1, 500));
    assert_eq!(registry.len(), 1);
    assert!(registry.contains(&test_address(1)));
    let got = registry.get(&test_address(1)).unwrap();
    assert_eq!(got.address, test_address(1));
    assert_eq!(got.fee_raw, 500);
    assert_eq!(got.token0.symbol, "T0");
    assert!(registry.get(&test_address(2)).is_none());
}

#[test]
fn insert_under_same_address_replaces() {
    let mut registry = PoolRegistry::new();
    registry.insert(record(1, 500));
    registry.insert(record(1, 3000));
    assert_eq!(registry.len(), 1);
    let got = registry.get(&test_address(1)).unwrap();
    assert_eq!(got.fee_raw, 3000);
}

#[test]
fn distinct_addresses_keep_distinct_records() {
    let mut registry = PoolRegistry::new();
    registry.insert(record(1, 100));
    registry.insert(record(2, 200));
    registry.insert(record(3, 300));
    assert_eq!(registry.len(), 3);
    assert_eq!(registry.get(&test_address(2)).unwrap().fee_raw, 200);
    assert_eq!(registry.get(&test_address(3)).unwrap().fee_raw, 300);
}
