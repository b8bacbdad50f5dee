//! The static configuration the process starts from, and its
//! validation.
//!
//! Parsing the configuration file and reading the environment are the
//! surrounding process's work; this module holds the parsed shape and
//! checks the properties initialization relies on: every configured
//! address normalized, and no pool configured twice.

use vstd::prelude::*;
use crate::address::{address_is_normalized, is_normalized_address};
use crate::types::DexType;

verus! {

/// The integer divisor that converts a contract-stored scaled fee into
/// a fraction: a raw fee of 3000 stands for 3000/10000 of one.
pub const FEE_FACTOR: u32 = 10_000;

/// One configured pool: its chain address and protocol tag. Read-only
/// input to the orchestrator.
#[derive(Debug)]
pub struct PoolConfig {
    pub address: String,
    pub dex_type: DexType,
}

impl Clone for PoolConfig {
    fn clone(&self) -> (r: Self)
        ensures
            r == *self,
    {
        PoolConfig { address: self.address.clone(), dex_type: self.dex_type }
    }
}

/// The chain section of the configuration file.
#[derive(Debug)]
pub struct ChainConfig {
    pub rpc_url: String,
    pub chain_id: u64,
}

/// The configuration file: the chain endpoint and the pools to
/// initialize.
#[derive(Debug)]
pub struct TomlConfig {
    pub chain: ChainConfig,
    pub pools: Vec<PoolConfig>,
}

/// The whole process configuration: the yield contract's address, the
/// signing key, the HTTP port, and the file-sourced section.
#[derive(Debug)]
pub struct Config {
    pub contract_address: String,
    pub private_key: String,
    pub port: u16,
    pub toml: TomlConfig,
}

/// Every configured address is a normalized chain address.
pub open spec fn entries_normalized(entries: Seq<PoolConfig>) -> bool {
    forall|i: int| 0 <= i < entries.len() ==> is_normalized_address(#[trigger] entries[i].address@)
}

/// No two configured entries share an address: an address uniquely
/// identifies a pool.
pub open spec fn entries_distinct(entries: Seq<PoolConfig>) -> bool {
    forall|i: int, j: int|
        #![trigger entries[i].address@, entries[j].address@]
        0 <= i < j < entries.len() ==> entries[i].address@ != entries[j].address@
}

/// Checks that every entry's address is a normalized chain address.
pub fn check_entries_normalized(entries: &Vec<PoolConfig>) -> (r: bool)
    ensures
        r == entries_normalized(entries@),
{
    let n: usize = entries.len();
    let mut i: usize = 0;
    while i < n
        invariant
            i <= n,
            n == entries@.len(),
            forall|j: int| 0 <= j < i ==> is_normalized_address(#[trigger] entries@[j].address@),
        decreases n - i,
    {
        if !address_is_normalized(entries[i].address.as_str()) {
            return false;
        }
        i = i + 1;
    }
    true
}

/// Checks that no two entries share an address.
pub fn check_entries_distinct(entries: &Vec<PoolConfig>) -> (r: bool)
    ensures
        r == entries_distinct(entries@),
{
    let n: usize = entries.len();
    let mut i: usize = 0;
    while i < n
        invariant
            i <= n,
            n == entries@.len(),
            forall|p: int, q: int|
                #![trigger entries@[p].address@, entries@[q].address@]
                0 <= p < q < i ==> entries@[p].address@ != entries@[q].address@,
        decreases n - i,
    {
        let mut j: usize = 0;
        while j < i
            invariant
                j <= i < n,
                n == entries@.len(),
                forall|p: int, q: int|
                    #![trigger entries@[p].address@, entries@[q].address@]
                    0 <= p < q < i ==> entries@[p].address@ != entries@[q].address@,
                forall|p: int| 0 <= p < j ==> (#[trigger] entries@[p].address@)
                    != entries@[i as int].address@,
            decreases i - j,
        {
            if entries[j].address == entries[i].address {
                return false;
            }
            j = j + 1;
        }
        i = i + 1;
    }
    true
}

/// Checks the whole configured pool list: every address normalized and
/// no address repeated.
pub fn validate_pool_configs(entries: &Vec<PoolConfig>) -> (r: bool)
    ensures
        r == (entries_normalized(entries@) && entries_distinct(entries@)),
{
    check_entries_normalized(entries) && check_entries_distinct(entries)
}

impl Config {
    /// The configuration a correct process starts from: the yield
    /// contract's address and every pool address normalized, no pool
    /// configured twice.
    pub open spec fn valid(&self) -> bool {
        &&& is_normalized_address(self.contract_address@)
        &&& entries_normalized(self.toml.pools@)
        &&& entries_distinct(self.toml.pools@)
    }

    /// Checks [`Config::valid`].
    pub fn validate(&self) -> (r: bool)
        ensures
            r == self.valid(),
    {
        address_is_normalized(self.contract_address.as_str()) && validate_pool_configs(
            &self.toml.pools,
        )
    }
}

} // verus!
