//! The bounded fetch orchestrator.
//!
//! Initialization must fetch on-chain details for every configured
//! pool, with at most a configured number of calls in flight at once,
//! and abort the whole operation on the first failure. The chain calls
//! themselves are the surrounding process's work; every decision is
//! made here, as a state machine: the driver asks which entry may start
//! next ([`FetchOrchestrator::begin_fetch`]), performs the call, hands
//! the outcome back ([`FetchOrchestrator::complete_fetch`]) — in any
//! completion order — and concludes with
//! [`FetchOrchestrator::finish`]. A purely sequential driver,
//! [`initialize_pool_registry`], runs the same machine over
//! pre-collected outcomes.

use vstd::prelude::*;
use vstd::set::{axiom_set_insert_len, axiom_set_remove_len};
use vstd::set_lib::{lemma_int_range, lemma_len_subset, set_int_range};
use crate::config::{PoolConfig, check_entries_normalized, entries_distinct, entries_normalized};
use crate::errors::InitError;
use crate::pools::{build_pool_record, record_of};
use crate::registry::{PoolRegistry, empty_registry_map};
use crate::types::{DexType, Pool, RawPoolDetails, raw_details_ok};

verus! {

/// The indices whose fetches have completed.
pub open spec fn done_set(done: Seq<bool>) -> Set<int> {
    Set::new(|i: int| 0 <= i < done.len() && done[i])
}

/// The registry holds exactly the completed entries: every completed
/// entry's address has a record, and every record belongs to some
/// completed entry.
pub open spec fn registry_matches_done(
    m: Map<Seq<char>, Pool>,
    entries: Seq<PoolConfig>,
    done: Seq<bool>,
) -> bool {
    &&& forall|i: int|
        0 <= i < entries.len() && done[i] ==> m.dom().contains(#[trigger] entries[i].address@)
    &&& forall|k: Seq<char>|
        m.dom().contains(k) ==> exists|i: int|
            0 <= i < entries.len() && done[i] && (#[trigger] entries[i].address@) == k
}

/// A call outcome that lets initialization proceed: the call returned
/// and its response is well shaped.
pub open spec fn outcome_ok(o: Result<RawPoolDetails, InitError>) -> bool {
    o is Ok && raw_details_ok(o->Ok_0)
}

/// The error a bad outcome contributes: the call's own error, or
/// `MalformedResponse` for an ill-shaped response.
pub open spec fn outcome_error(o: Result<RawPoolDetails, InitError>) -> InitError {
    if o is Err {
        o->Err_0
    } else {
        InitError::MalformedResponse
    }
}

/// The bounded-concurrency initialization, as a state machine over the
/// configured entries. It tracks which entries have been handed out,
/// which have completed, how many are in flight, the records collected
/// so far, and the first failure, if any.
pub struct FetchOrchestrator {
    entries: Vec<PoolConfig>,
    max_concurrency: usize,
    next_index: usize,
    done: Vec<bool>,
    n_in_flight: usize,
    n_completed: usize,
    registry: PoolRegistry,
    failure: Option<InitError>,
}

impl FetchOrchestrator {
    /// The configured entries, in configuration order.
    pub closed spec fn pool_entries(self) -> Seq<PoolConfig> {
        self.entries@
    }

    /// The concurrency cap: how many fetches may be in flight at once.
    pub closed spec fn concurrency_cap(self) -> int {
        self.max_concurrency as int
    }

    /// How many entries have been handed out so far. Entries are handed
    /// out in configuration order, so these are the first `started()`.
    pub closed spec fn started(self) -> int {
        self.next_index as int
    }

    /// For each entry, whether its fetch has completed.
    pub closed spec fn done_seq(self) -> Seq<bool> {
        self.done@
    }

    /// How many fetches are in flight: handed out and not completed.
    pub closed spec fn in_flight(self) -> int {
        self.n_in_flight as int
    }

    /// How many fetches have completed.
    pub closed spec fn completed(self) -> int {
        self.n_completed as int
    }

    /// The records collected so far, keyed by address.
    pub closed spec fn collected(self) -> Map<Seq<char>, Pool> {
        self.registry@
    }

    /// The first failure recorded, if any.
    pub closed spec fn failure_state(self) -> Option<InitError> {
        self.failure
    }

    /// The orchestrator's invariant, established by [`Self::new`] and
    /// preserved by every step.
    pub closed spec fn wf(self) -> bool {
        &&& self.max_concurrency >= 1
        &&& self.next_index <= self.entries@.len()
        &&& self.done@.len() == self.entries@.len()
        &&& self.n_completed <= self.next_index
        &&& self.n_in_flight == self.next_index - self.n_completed
        &&& self.n_in_flight <= self.max_concurrency
        &&& entries_normalized(self.entries@)
        &&& entries_distinct(self.entries@)
        &&& forall|i: int| 0 <= i < self.done@.len() && self.done@[i] ==> i < self.next_index
        &&& done_set(self.done@).finite()
        &&& done_set(self.done@).len() == self.n_completed
        &&& self.registry.wf()
        &&& self.registry@.dom().finite()
        &&& (self.failure is None ==> registry_matches_done(
            self.registry@,
            self.entries@,
            self.done@,
        ))
        &&& (self.failure is None ==> self.registry@.dom().len() == self.n_completed)
    }

    /// A new fetch may start: entries remain, a concurrency slot is
    /// free, and no failure has been recorded.
    pub open spec fn can_dispatch(self) -> bool {
        &&& self.started() < self.pool_entries().len()
        &&& self.in_flight() < self.concurrency_cap()
        &&& self.failure_state() is None
    }

    /// Builds the orchestrator over the configured entries. Returns
    /// `InvalidAddress` exactly when some entry's address is not a
    /// normalized chain address.
    pub fn new(entries: Vec<PoolConfig>, max_concurrency: usize) -> (r: Result<
        FetchOrchestrator,
        InitError,
    >)
        requires
            max_concurrency >= 1,
            entries_distinct(entries@),
        ensures
            match r {
                Ok(o) => {
                    &&& entries_normalized(entries@)
                    &&& o.wf()
                    &&& o.pool_entries() == entries@
                    &&& o.concurrency_cap() == max_concurrency as int
                    &&& o.started() == 0
                    &&& o.in_flight() == 0
                    &&& o.completed() == 0
                    &&& o.collected() == empty_registry_map()
                    &&& o.failure_state() is None
                    &&& o.done_seq().len() == entries@.len()
                    &&& forall|i: int| 0 <= i < entries@.len() ==> !(#[trigger] o.done_seq()[i])
                },
                Err(e) => {
                    &&& e == InitError::InvalidAddress
                    &&& !entries_normalized(entries@)
                },
            },
    {
        if !check_entries_normalized(&entries) {
            return Err(InitError::InvalidAddress);
        }
        let n: usize = entries.len();
        let mut done: Vec<bool> = Vec::new();
        let mut i: usize = 0;
        while i < n
            invariant
                i <= n,
                done@.len() == i,
                forall|j: int| 0 <= j < i ==> !(#[trigger] done@[j]),
            decreases n - i,
        {
            done.push(false);
            i = i + 1;
        }
        let orchestrator = FetchOrchestrator {
            entries,
            max_concurrency,
            next_index: 0,
            done,
            n_in_flight: 0,
            n_completed: 0,
            registry: PoolRegistry::new(),
            failure: None,
        };
        proof {
            assert(done_set(orchestrator.done@) =~= Set::<int>::empty());
        }
        Ok(orchestrator)
    }

    /// Claims a concurrency slot and hands out the next entry index to
    /// fetch, or nothing when no fetch may start now: every entry is
    /// handed out, no slot is free, or a failure already stands (the
    /// fail-fast policy: after a failure nothing new starts).
    pub fn begin_fetch(&mut self) -> (r: Option<usize>)
        requires
            old(self).wf(),
        ensures
            final(self).wf(),
            final(self).pool_entries() == old(self).pool_entries(),
            final(self).concurrency_cap() == old(self).concurrency_cap(),
            final(self).done_seq() == old(self).done_seq(),
            final(self).completed() == old(self).completed(),
            final(self).collected() == old(self).collected(),
            final(self).failure_state() == old(self).failure_state(),
            match r {
                Some(i) => {
                    &&& old(self).can_dispatch()
                    &&& i == old(self).started()
                    &&& final(self).started() == old(self).started() + 1
                    &&& final(self).in_flight() == old(self).in_flight() + 1
                    &&& !final(self).done_seq()[i as int]
                },
                None => {
                    &&& !old(self).can_dispatch()
                    &&& *final(self) == *old(self)
                },
            },
    {
        if self.next_index < self.entries.len() && self.n_in_flight < self.max_concurrency
            && self.failure.is_none() {
            let i = self.next_index;
            self.next_index = i + 1;
            self.n_in_flight = self.n_in_flight + 1;
            Some(i)
        } else {
            None
        }
    }

    /// The number of configured entries.
    pub fn num_entries(&self) -> (n: usize)
        ensures
            n == self.pool_entries().len(),
    {
        self.entries.len()
    }

    /// The configured address of one entry.
    pub fn entry_address(&self, i: usize) -> (r: &String)
        requires
            i < self.pool_entries().len(),
        ensures
            *r == self.pool_entries()[i as int].address,
    {
        &self.entries[i].address
    }

    /// The configured protocol tag of one entry.
    pub fn entry_dex_type(&self, i: usize) -> (r: DexType)
        requires
            i < self.pool_entries().len(),
        ensures
            r == self.pool_entries()[i as int].dex_type,
    {
        self.entries[i].dex_type
    }

    /// Records the outcome of the fetch for one started entry and
    /// releases its concurrency slot. While no failure stands, a
    /// well-shaped successful response is normalized into a record and
    /// inserted under the entry's configured address, a malformed one
    /// records `MalformedResponse`, and a failed call records its
    /// error; once a failure stands, later outcomes are discarded, so
    /// the first failure wins.
    pub fn complete_fetch(&mut self, index: usize, outcome: Result<RawPoolDetails, InitError>)
        requires
            old(self).wf(),
            index < old(self).started(),
            !old(self).done_seq()[index as int],
        ensures
            final(self).wf(),
            final(self).pool_entries() == old(self).pool_entries(),
            final(self).concurrency_cap() == old(self).concurrency_cap(),
            final(self).started() == old(self).started(),
            final(self).done_seq() == old(self).done_seq().update(index as int, true),
            final(self).in_flight() == old(self).in_flight() - 1,
            final(self).completed() == old(self).completed() + 1,
            old(self).failure_state() is Some ==> {
                &&& final(self).failure_state() == old(self).failure_state()
                &&& final(self).collected() == old(self).collected()
            },
            (old(self).failure_state() is None && outcome_ok(outcome)) ==> {
                &&& final(self).failure_state() is None
                &&& final(self).collected() == old(self).collected().insert(
                    old(self).pool_entries()[index as int].address@,
                    record_of(
                        outcome->Ok_0,
                        old(self).pool_entries()[index as int].address,
                        old(self).pool_entries()[index as int].dex_type,
                    ),
                )
            },
            (old(self).failure_state() is None && !outcome_ok(outcome)) ==> {
                &&& final(self).failure_state() == Some(outcome_error(outcome))
                &&& final(self).collected() == old(self).collected()
            },
    {
        let ghost pre = *old(self);
        proof {
            // A slot is in use: the completed count cannot cover every
            // started index while `index` is started and not done.
            let ds = done_set(pre.done@);
            let rng = set_int_range(0, pre.next_index as int);
            lemma_int_range(0, pre.next_index as int);
            assert(ds.subset_of(rng.remove(index as int)));
            axiom_set_remove_len(rng, index as int);
            lemma_len_subset(ds, rng.remove(index as int));
        }
        self.done[index] = true;
        proof {
            assert(done_set(self.done@) =~= done_set(pre.done@).insert(index as int));
            axiom_set_insert_len(done_set(pre.done@), index as int);
        }
        self.n_in_flight = self.n_in_flight - 1;
        self.n_completed = self.n_completed + 1;
        if self.failure.is_none() {
            match outcome {
                Ok(details) => {
                    let address = self.entries[index].address.clone();
                    let dex_type = self.entries[index].dex_type;
                    match build_pool_record(details, address, dex_type) {
                        Ok(pool) => {
                            proof {
                                // The entry's address has no record yet:
                                // records belong to completed entries,
                                // addresses are distinct, and this entry
                                // was not completed.
                                if pre.registry@.dom().contains(pool.address@) {
                                    let w = choose|i: int|
                                        0 <= i < pre.entries@.len() && pre.done@[i] && (
                                        #[trigger] pre.entries@[i].address@) == pool.address@;
                                    assert(w == index);
                                    assert(false);
                                }
                                assert(!pre.registry@.dom().contains(pool.address@));
                            }
                            self.registry.insert(pool);
                            proof {
                                axiom_set_insert_len(pre.registry@.dom(), pool.address@);
                                assert(self.registry@.dom() =~= pre.registry@.dom().insert(
                                    pool.address@,
                                ));
                                assert forall|k: Seq<char>| self.registry@.dom().contains(k)
                                    implies exists|i: int|
                                    0 <= i < self.entries@.len() && self.done@[i] && (
                                    #[trigger] self.entries@[i].address@) == k by {
                                    if k == pool.address@ {
                                        assert(self.done@[index as int] && self.entries@[index as int].address@
                                            == k);
                                    } else {
                                        let w = choose|i: int|
                                            0 <= i < pre.entries@.len() && pre.done@[i] && (
                                            #[trigger] pre.entries@[i].address@) == k;
                                        assert(self.done@[w] && self.entries@[w].address@ == k);
                                    }
                                }
                            }
                        },
                        Err(e) => {
                            self.failure = Some(e);
                        },
                    }
                },
                Err(e) => {
                    self.failure = Some(e);
                },
            }
        }
    }

    /// Whether one entry's fetch has completed.
    pub fn entry_completed(&self, i: usize) -> (r: bool)
        requires
            i < self.pool_entries().len(),
            self.wf(),
        ensures
            r == self.done_seq()[i as int],
    {
        self.done[i]
    }

    /// Whether a failure has been recorded.
    pub fn has_failed(&self) -> (r: bool)
        ensures
            r == (self.failure_state() is Some),
    {
        self.failure.is_some()
    }

    /// How many fetches are in flight right now.
    pub fn in_flight_count(&self) -> (n: usize)
        ensures
            n == self.in_flight(),
    {
        self.n_in_flight
    }

    /// How many entries have been handed out so far.
    pub fn started_count(&self) -> (n: usize)
        ensures
            n == self.started(),
    {
        self.next_index
    }

    /// The configured concurrency cap.
    pub fn concurrency_limit(&self) -> (n: usize)
        ensures
            n == self.concurrency_cap(),
    {
        self.max_concurrency
    }

    /// Whether every entry has been handed out and completed.
    pub fn all_settled(&self) -> (r: bool)
        ensures
            r == (self.started() == self.pool_entries().len() && self.in_flight() == 0),
    {
        self.next_index == self.entries.len() && self.n_in_flight == 0
    }

    /// Concludes the initialization. Callable once a failure stands
    /// (fail-fast: the caller neither starts nor awaits the rest) or
    /// once every entry has completed. On success the registry holds
    /// exactly one record per configured entry, under its address; on
    /// failure the first recorded error comes back and no registry
    /// does.
    pub fn finish(self) -> (r: Result<PoolRegistry, InitError>)
        requires
            self.wf(),
            self.failure_state() is Some || (self.started() == self.pool_entries().len()
                && self.in_flight() == 0),
        ensures
            match r {
                Ok(reg) => {
                    &&& self.failure_state() is None
                    &&& reg.wf()
                    &&& reg@ == self.collected()
                    &&& reg@.dom().len() == self.pool_entries().len()
                    &&& forall|i: int|
                        0 <= i < self.pool_entries().len() ==> reg@.dom().contains(
                            #[trigger] self.pool_entries()[i].address@,
                        )
                    &&& forall|k: Seq<char>|
                        reg@.dom().contains(k) ==> exists|i: int|
                            0 <= i < self.pool_entries().len() && (
                            #[trigger] self.pool_entries()[i].address@) == k
                },
                Err(e) => self.failure_state() == Some(e),
            },
    {
        let FetchOrchestrator { registry, failure, .. } = self;
        match failure {
            Some(e) => Err(e),
            None => {
                proof {
                    // Every entry completed: otherwise the done set,
                    // confined to the started indices minus the missing
                    // one, would be too small.
                    assert forall|i: int|
                        0 <= i < self.entries@.len() implies self.done@[i] by {
                        if !self.done@[i] {
                            let ds = done_set(self.done@);
                            let rng = set_int_range(0, self.next_index as int);
                            lemma_int_range(0, self.next_index as int);
                            assert(ds.subset_of(rng.remove(i)));
                            axiom_set_remove_len(rng, i);
                            lemma_len_subset(ds, rng.remove(i));
                            assert(false);
                        }
                    }
                }
                Ok(registry)
            },
        }
    }
}

/// Bounded concurrency: a well-formed orchestrator never has more
/// fetches in flight than its configured cap, and never a negative
/// count.
pub proof fn lemma_in_flight_bounded(o: FetchOrchestrator)
    requires
        o.wf(),
    ensures
        0 <= o.in_flight() <= o.concurrency_cap(),
{
}

/// Runs the whole initialization sequentially over pre-collected call
/// outcomes, one entry at a time in configuration order, with the
/// fail-fast policy. With a cap of one this is exactly what any
/// concurrent driver under any cap computes: the same records under
/// the same addresses, or the same first error in configuration order.
pub fn initialize_pool_registry(
    entries: Vec<PoolConfig>,
    outcomes: Vec<Result<RawPoolDetails, InitError>>,
    max_concurrency: usize,
) -> (r: Result<PoolRegistry, InitError>)
    requires
        max_concurrency >= 1,
        entries_distinct(entries@),
        outcomes@.len() == entries@.len(),
    ensures
        !entries_normalized(entries@) ==> r == Err::<PoolRegistry, InitError>(InitError::InvalidAddress),
        entries@.len() == 0 ==> (r is Ok && r->Ok_0@ == empty_registry_map()
            && r->Ok_0.wf()),
        entries_normalized(entries@) ==> match r {
            Ok(reg) => {
                &&& forall|i: int| 0 <= i < outcomes@.len() ==> outcome_ok(#[trigger] outcomes@[i])
                &&& reg.wf()
                &&& reg@.dom().len() == entries@.len()
                &&& forall|i: int|
                    0 <= i < entries@.len() ==> reg@.dom().contains(
                        #[trigger] entries@[i].address@,
                    ) && reg@[entries@[i].address@] == record_of(
                        outcomes@[i]->Ok_0,
                        entries@[i].address,
                        entries@[i].dex_type,
                    )
                &&& forall|k: Seq<char>|
                    reg@.dom().contains(k) ==> exists|i: int|
                        0 <= i < entries@.len() && (#[trigger] entries@[i].address@) == k
            },
            Err(e) => exists|f: int|
                {
                    &&& 0 <= f < outcomes@.len()
                    &&& !outcome_ok(#[trigger] outcomes@[f])
                    &&& forall|j: int| 0 <= j < f ==> outcome_ok(#[trigger] outcomes@[j])
                    &&& e == outcome_error(outcomes@[f])
                },
        },
{
    let n: usize = entries.len();
    let mut orchestrator = match FetchOrchestrator::new(entries, max_concurrency) {
        Ok(o) => o,
        Err(e) => {
            return Err(e);
        },
    };
    let mut i: usize = 0;
    let mut failed: bool = false;
    while i < n && !failed
        invariant
            n == entries@.len(),
            outcomes@.len() == n,
            i <= n,
            entries_normalized(entries@),
            entries_distinct(entries@),
            orchestrator.wf(),
            orchestrator.pool_entries() == entries@,
            orchestrator.concurrency_cap() >= 1,
            !failed ==> {
                &&& orchestrator.started() == i
                &&& orchestrator.in_flight() == 0
                &&& orchestrator.failure_state() is None
                &&& forall|j: int| 0 <= j < i ==> outcome_ok(#[trigger] outcomes@[j])
                &&& forall|j: int|
                    0 <= j < i ==> orchestrator.collected().dom().contains(
                        #[trigger] entries@[j].address@,
                    ) && orchestrator.collected()[entries@[j].address@] == record_of(
                        outcomes@[j]->Ok_0,
                        entries@[j].address,
                        entries@[j].dex_type,
                    )
                &&& forall|k: Seq<char>|
                    orchestrator.collected().dom().contains(k) ==> exists|j: int|
                        0 <= j < i && (#[trigger] entries@[j].address@) == k
            },
            failed ==> {
                &&& i < n
                &&& !outcome_ok(outcomes@[i as int])
                &&& forall|j: int| 0 <= j < i ==> outcome_ok(#[trigger] outcomes@[j])
                &&& orchestrator.failure_state() == Some(outcome_error(outcomes@[i as int]))
            },
        decreases n - i + (if failed { 0int } else { 1int }),
    {
        let index_opt = orchestrator.begin_fetch();
        assert(index_opt is Some);
        let index = index_opt.unwrap();
        let outcome: Result<RawPoolDetails, InitError> = match &outcomes[i] {
            Ok(details) => Ok(details.clone()),
            Err(e) => Err(e.clone()),
        };
        orchestrator.complete_fetch(index, outcome);
        if orchestrator.has_failed() {
            failed = true;
        } else {
            i = i + 1;
        }
    }
    match orchestrator.finish() {
        Ok(registry) => {
            proof {
                if entries@.len() == 0 {
                    assert(registry@ =~= empty_registry_map());
                }
            }
            Ok(registry)
        },
        Err(e) => {
            proof {
                assert(0 <= i < outcomes@.len() && !outcome_ok(outcomes@[i as int]));
            }
            Err(e)
        },
    }
}

} // verus!
