//! The pool registry: pool records keyed by their normalized address.
//!
//! The registry is backed by dashmap's concurrent map, so that once
//! initialization is done the surrounding process can share it for
//! concurrent reads. During initialization every write goes through the
//! orchestrator, which owns the registry exclusively; the wrappers
//! below therefore take the map by `&mut` and state what each call does
//! to its contents.

use vstd::prelude::*;
use crate::types::Pool;

verus! {

/// dashmap's concurrent hash map, the backing store of the registry.
#[verifier::external_type_specification]
#[verifier::external_body]
#[verifier::reject_recursive_types(K)]
#[verifier::reject_recursive_types(V)]
#[verifier::reject_recursive_types(S)]
pub struct ExDashMap<K, V, S>(dashmap::DashMap<K, V, S>);

/// The entries a registry map holds, keyed by the characters of the key
/// string. dashmap compares `String` keys by their contents, so two
/// keys with the same characters are the same key.
pub uninterp spec fn dash_contents(m: dashmap::DashMap<String, Pool>) -> Map<Seq<char>, Pool>;

/// The contents of a registry with no entries.
pub open spec fn empty_registry_map() -> Map<Seq<char>, Pool> {
    Map::empty()
}

/// Relies on dashmap::DashMap::new: creates a map with no entries.
#[verifier::external_body]
fn dash_new() -> (m: dashmap::DashMap<String, Pool>)
    ensures
        dash_contents(m) == empty_registry_map(),
{
    dashmap::DashMap::new()
}

/// Relies on dashmap::DashMap::insert: maps the key to the value,
/// replacing any entry the key had before.
#[verifier::external_body]
fn dash_insert(m: &mut dashmap::DashMap<String, Pool>, key: String, value: Pool)
    ensures
        dash_contents(*final(m)) == dash_contents(*old(m)).insert(key@, value),
{
    m.insert(key, value);
}

/// Relies on dashmap::DashMap::get: returns a copy of the value stored
/// under the key, if the key has one.
#[verifier::external_body]
fn dash_get(m: &dashmap::DashMap<String, Pool>, key: &String) -> (r: Option<Pool>)
    ensures
        r == (if dash_contents(*m).dom().contains(key@) {
            Some(dash_contents(*m)[key@])
        } else {
            None::<Pool>
        }),
{
    m.get(key).map(|entry| entry.value().clone())
}

/// Relies on dashmap::DashMap::len: the number of entries in the map.
#[verifier::external_body]
fn dash_len(m: &dashmap::DashMap<String, Pool>) -> (n: usize)
    ensures
        n == dash_contents(*m).dom().len(),
{
    m.len()
}

/// The mapping from normalized pool addresses to pool records, handed
/// to the rest of the process as shared read-mostly state once
/// initialization completes.
pub struct PoolRegistry {
    map: dashmap::DashMap<String, Pool>,
}

impl View for PoolRegistry {
    type V = Map<Seq<char>, Pool>;

    closed spec fn view(&self) -> Map<Seq<char>, Pool> {
        dash_contents(self.map)
    }
}

impl PoolRegistry {
    /// Every record stands under its own normalized address, and the
    /// registry holds finitely many entries.
    pub open spec fn wf(&self) -> bool {
        &&& self@.dom().finite()
        &&& forall|k: Seq<char>| self@.dom().contains(k) ==> (#[trigger] self@[k]).wf()
            && self@[k].address@ == k
    }

    /// An empty registry.
    pub fn new() -> (r: Self)
        ensures
            r@ == empty_registry_map(),
            r.wf(),
    {
        PoolRegistry { map: dash_new() }
    }

    /// Inserts a record under its own address.
    pub fn insert(&mut self, pool: Pool)
        requires
            old(self).wf(),
            pool.wf(),
        ensures
            final(self)@ == old(self)@.insert(pool.address@, pool),
            final(self).wf(),
    {
        let key: String = pool.address.clone();
        dash_insert(&mut self.map, key, pool);
    }

    /// Returns a copy of the record stored under an address, if any.
    pub fn get(&self, address: &String) -> (r: Option<Pool>)
        ensures
            r == (if self@.dom().contains(address@) {
                Some(self@[address@])
            } else {
                None::<Pool>
            }),
    {
        dash_get(&self.map, address)
    }

    /// Whether an address has a record.
    pub fn contains(&self, address: &String) -> (r: bool)
        ensures
            r == self@.dom().contains(address@),
    {
        self.get(address).is_some()
    }

    /// The number of records.
    pub fn len(&self) -> (n: usize)
        ensures
            n == self@.dom().len(),
    {
        dash_len(&self.map)
    }
}

} // verus!
