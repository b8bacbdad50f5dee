use yieldai::config::PoolConfig;
use yieldai::errors::InitError;
use yieldai::orchestrator::{initialize_pool_registry, FetchOrchestrator};
use yieldai::types::{DexType, RawPoolDetails};

fn test_address(i: u8) -> String {
    format!("0x{:040x}", i as u64)
}

fn entry(i: u8) -> PoolConfig {
    PoolConfig { address: test_address(i), dex_type: DexType::UniswapV3 }
}

fn good_details(i: u8) -> RawPoolDetails {
    RawPoolDetails {
        token0: test_address(0xc0),
        token0_symbol: String::from("T0"),
        token0_decimals: 18,
        token1: test_address(0xc1),
        token1_symbol: String::from("T1"),
        token1_decimals: 6,
        fee: 100 * (i as u32 + 1),
        tick_spacing: 1,
        current_tick: i as i32,
    }
}

#[test]
fn empty_pool_list_yields_empty_registry() {
    for cap in [1usize, 2, 7] {
        let registry = initialize_pool_registry(vec![], vec![], cap).unwrap();
        assert_eq!(registry.len(), 0);
    }
}

#[test]
fn all_successes_fill_registry() {
    let n: u8 = 5;
    let entries: Vec<PoolConfig> = (0..n).map(entry).collect();
    let outcomes: Vec<Result<RawPoolDetails, InitError>> =
        (0..n).map(|i| Ok(good_details(i))).collect();
    let registry = initialize_pool_registry(entries, outcomes, 2).unwrap();
    assert_eq!(registry.len(), 5);
    for i in 0..n {
        let record = registry.get(&test_address(i)).unwrap();
        assert_eq!(record.address, test_address(i));
        assert_eq!(record.fee_raw, 100 * (i as u32 + 1));
        assert_eq!(record.current_tick, i as i32);
    }
}

#[test]
fn single_rpc_failure_fails_everything() {
    let n: u8 = 4;
    let entries: Vec<PoolConfig> = (0..n).map(entry).collect();
    let mut outcomes: Vec<Result<RawPoolDetails, InitError>> =
        (0..n).map(|i| Ok(good_details(i))).collect();
    outcomes[2] = Err(InitError::RpcFailure(String::from("connection refused")));
    let result = initialize_pool_registry(entries, outcomes, 2);
    match result {
        Err(InitError::RpcFailure(message)) => assert_eq!(message, "connection refused"),
        other => panic!("expected an rpc failure, got {:?}", other.map(|r| r.len())),
    }
}

#[test]
fn malformed_response_fails_everything() {
    let entries: Vec<PoolConfig> = (0..3).map(entry).collect();
    let mut bad = good_details(1);
    bad.token1 = String::from("0XUPPER");
    let outcomes: Vec<Result<RawPoolDetails, InitError>> =
        vec![Ok(good_details(0)), Ok(bad), Ok(good_details(2))];
    let result = initialize_pool_registry(entries, outcomes, 1);
    assert!(matches!(result, Err(InitError::MalformedResponse)));
}

#[test]
fn invalid_configured_address_fails_before_any_fetch() {
    let entries = vec![
        entry(1),
        PoolConfig {
            address: String::from("0xNOT_VALID"),
            dex_type: DexType::PancakeSwapV3,
        },
    ];
    let outcomes: Vec<Result<RawPoolDetails, InitError>> =
        vec![Ok(good_details(0)), Ok(good_details(1))];
    let result = initialize_pool_registry(entries, outcomes, 3);
    assert!(matches!(result, Err(InitError::InvalidAddress)));
}

/// Drives the state machine by hand, completing fetches out of order,
/// and checks the concurrency cap is what bounds the in-flight count.
fn drive(n: u8, cap: usize) -> (usize, yieldai::registry::PoolRegistry) {
    let entries: Vec<PoolConfig> = (0..n).map(entry).collect();
    let mut orchestrator = FetchOrchestrator::new(entries, cap).unwrap();
    let mut in_flight: Vec<usize> = Vec::new();
    let mut max_seen: usize = 0;
    loop {
        while let Some(index) = orchestrator.begin_fetch() {
            assert_eq!(*orchestrator.entry_address(index), test_address(index as u8));
            in_flight.push(index);
            assert!(orchestrator.in_flight_count() <= orchestrator.concurrency_limit());
            if orchestrator.in_flight_count() > max_seen {
                max_seen = orchestrator.in_flight_count();
            }
        }
        // Complete the oldest started fetch last: completion order is
        // the reverse of start order within each full batch.
        match in_flight.pop() {
            Some(index) => {
                orchestrator.complete_fetch(index, Ok(good_details(index as u8)));
            }
            None => break,
        }
    }
    assert!(orchestrator.all_settled());
    (max_seen, orchestrator.finish().unwrap())
}

#[test]
fn concurrency_cap_is_respected() {
    for cap in [1usize, 2, 6] {
        let (max_seen, registry) = drive(6, cap);
        assert!(max_seen <= cap);
        assert_eq!(max_seen, cap.min(6));
        assert_eq!(registry.len(), 6);
    }
}

#[test]
fn out_of_order_completion_fills_every_entry() {
    let (_, registry) = drive(5, 2);
    assert_eq!(registry.len(), 5);
    for i in 0..5u8 {
        assert!(registry.contains(&test_address(i)));
    }
}

#[test]
fn first_recorded_failure_wins() {
    let entries: Vec<PoolConfig> = (0..2).map(entry).collect();
    let mut orchestrator = FetchOrchestrator::new(entries, 2).unwrap();
    let first = orchestrator.begin_fetch().unwrap();
    let second = orchestrator.begin_fetch().unwrap();
    assert_eq!((first, second), (0, 1));
    orchestrator.complete_fetch(second, Err(InitError::RpcFailure(String::from("late"))));
    // The failure stands: nothing new starts.
    assert!(orchestrator.begin_fetch().is_none());
    assert!(orchestrator.has_failed());
    // The other fetch finishes fine, but its result is discarded.
    orchestrator.complete_fetch(first, Ok(good_details(0)));
    match orchestrator.finish() {
        Err(InitError::RpcFailure(message)) => assert_eq!(message, "late"),
        other => panic!("expected the first recorded failure, got {:?}", other.map(|r| r.len())),
    }
}

#[test]
fn failure_stops_new_dispatches_immediately() {
    let entries: Vec<PoolConfig> = (0..5).map(entry).collect();
    let mut orchestrator = FetchOrchestrator::new(entries, 1).unwrap();
    let first = orchestrator.begin_fetch().unwrap();
    orchestrator.complete_fetch(first, Err(InitError::RpcFailure(String::from("down"))));
    assert!(orchestrator.begin_fetch().is_none());
    assert!(orchestrator.finish().is_err());
}

#[test]
fn sequential_cap_equals_any_cap() {
    let n: u8 = 4;
    let make = |cap: usize| {
        let entries: Vec<PoolConfig> = (0..n).map(entry).collect();
        let outcomes: Vec<Result<RawPoolDetails, InitError>> =
            (0..n).map(|i| Ok(good_details(i))).collect();
        initialize_pool_registry(entries, outcomes, cap).unwrap()
    };
    let sequential = make(1);
    let concurrent = make(3);
    assert_eq!(sequential.len(), concurrent.len());
    for i in 0..n {
        let a = sequential.get(&test_address(i)).unwrap();
        let b = concurrent.get(&test_address(i)).unwrap();
        assert_eq!(a.fee_raw, b.fee_raw);
        assert_eq!(a.current_tick, b.current_tick);
    }
}
