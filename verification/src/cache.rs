//! The two cache tiers of the worker.
//!
//! The first tier lives for one batch: an exact map from a transaction input
//! to the result of tracing it. The second tier lives as long as the worker:
//! a concurrent map from a coarse key to a materialised transaction, emptied
//! as a whole on a schedule and never entry by entry.

use crate::block::TransactionIdentifier;
use dashmap::DashMap;
use fxhash::FxHasher;
use std::collections::BTreeMap;
use std::hash::BuildHasherDefault;
use vstd::prelude::*;

verus! {

broadcast use vstd::laws_cmp::group_laws_cmp;

/// `dashmap::DashMap`, carried as an opaque value.
#[verifier::external_type_specification]
#[verifier::external_body]
#[verifier::reject_recursive_types(K)]
#[verifier::reject_recursive_types(V)]
#[verifier::reject_recursive_types(S)]
pub struct ExDashMap<K, V, S>(DashMap<K, V, S>);

/// `fxhash::FxHasher`, carried as an opaque value.
#[verifier::external_type_specification]
#[verifier::external_body]
pub struct ExFxHasher(FxHasher);

/// `std::hash::BuildHasherDefault`, carried as an opaque value.
#[verifier::external_type_specification]
#[verifier::external_body]
#[verifier::reject_recursive_types(H)]
pub struct ExBuildHasherDefault<H>(BuildHasherDefault<H>);

/// The result of tracing the satoshi of one transaction input.
#[derive(Clone, Copy, Debug, PartialEq, Eq)]
pub struct TraversalResult {
    pub inscription_number: u64,
    pub inscription_input_index: usize,
    pub transaction_identifier_inscription: TransactionIdentifier,
    pub ordinal_number: u64,
    pub transfers: u32,
}

/// One input of a materialised transaction.
#[derive(Clone, Copy, Debug, PartialEq, Eq)]
pub struct LazyBlockTransactionInput {
    pub txin: [u8; 8],
    pub block_height: u32,
    pub vout: u16,
    pub txin_value: u64,
}

/// The fields of a transaction that tracing reads.
#[derive(Clone, Debug, PartialEq, Eq)]
pub struct LazyBlockTransaction {
    pub txid: [u8; 8],
    pub inputs: Vec<LazyBlockTransactionInput>,
    pub outputs: Vec<u64>,
}

/// A materialised transaction as mathematical values.
pub struct LazyBlockTransactionView {
    pub txid: [u8; 8],
    pub inputs: Seq<LazyBlockTransactionInput>,
    pub outputs: Seq<u64>,
}

impl View for LazyBlockTransaction {
    type V = LazyBlockTransactionView;

    open spec fn view(&self) -> LazyBlockTransactionView {
        LazyBlockTransactionView { txid: self.txid, inputs: self.inputs@, outputs: self.outputs@ }
    }
}

/// The key of the first tier: the four words of a transaction hash, then the
/// index of an input.
pub type TraversalKey = (u64, u64, u64, u64, usize);

/// The key of the second tier: a height bucket and a short transaction hash.
pub type LazyKey = (u32, [u8; 8]);

/// What the second tier holds, as a mathematical map.
pub type LazyEntries = Map<LazyKey, LazyBlockTransactionView>;

/// The concurrent map that the second tier is made of.
pub type LazyMap = DashMap<LazyKey, LazyBlockTransaction, BuildHasherDefault<FxHasher>>;

/// The entries of a concurrent map, seen by the one owner that changes it.
pub uninterp spec fn lazy_entries(table: LazyMap) -> LazyEntries;

/// `DashMap::with_capacity_and_hasher`, with the default Fx hasher: a map
/// without entries. The capacity is bounded so that the allocation it asks
/// for stays far from the address space's limit.
#[verifier::external_body]
fn dashmap_with_capacity(capacity: usize) -> (table: LazyMap)
    requires
        capacity <= MAX_CACHE_SIZE,
    ensures
        lazy_entries(table) == LazyEntries::empty(),
{
    DashMap::with_capacity_and_hasher(capacity, BuildHasherDefault::<FxHasher>::default())
}

/// `DashMap::len`: the number of entries.
#[verifier::external_body]
fn dashmap_len(table: &LazyMap) -> (entries: usize)
    ensures
        entries == lazy_entries(*table).dom().len(),
{
    table.len()
}

/// `DashMap::clear`: no entry stays.
#[verifier::external_body]
fn dashmap_clear(table: &mut LazyMap)
    ensures
        lazy_entries(*final(table)) == LazyEntries::empty(),
{
    table.clear()
}

/// `DashMap::insert`: the key maps to the value from now on, every other
/// key is as before, and the value that the key had comes back.
#[verifier::external_body]
fn dashmap_insert(table: &mut LazyMap, key: LazyKey, value: LazyBlockTransaction) -> (previous:
    Option<LazyBlockTransaction>)
    ensures
        lazy_entries(*final(table)) == lazy_entries(*old(table)).insert(key, value@),
        previous is Some <==> lazy_entries(*old(table)).contains_key(key),
        previous matches Some(transaction) ==> transaction@ == lazy_entries(*old(table))[key],
{
    table.insert(key, value)
}

/// `DashMap::get`, with the entry's value cloned out of the guard: the value
/// of the key, if the map has the key.
#[verifier::external_body]
fn dashmap_get(table: &LazyMap, key: &LazyKey) -> (found: Option<LazyBlockTransaction>)
    ensures
        found is Some <==> lazy_entries(*table).contains_key(*key),
        found matches Some(transaction) ==> transaction@ == lazy_entries(*table)[*key],
{
    table.get(key).map(|entry| entry.value().clone())
}

/// The largest capacity hint that the second tier takes.
pub const MAX_CACHE_SIZE: usize = 0x10_0000;

/// The second tier: shared by every batch, emptied as a whole.
pub struct TraversalsCacheL2 {
    table: LazyMap,
}

impl View for TraversalsCacheL2 {
    type V = LazyEntries;

    closed spec fn view(&self) -> LazyEntries {
        lazy_entries(self.table)
    }
}

impl TraversalsCacheL2 {
    /// The tier holds finitely many entries. This holds of a new tier and
    /// stays true under every operation.
    pub open spec fn wf(self) -> bool {
        self@.dom().finite()
    }

    /// The number of entries.
    pub fn len(&self) -> (entries: usize)
        ensures
            entries == self@.len(),
    {
        dashmap_len(&self.table)
    }

    /// The entry of a key, if there is one.
    pub fn get(&self, key: &LazyKey) -> (found: Option<LazyBlockTransaction>)
        ensures
            match found {
                Some(transaction) => self@.contains_key(*key) && transaction@ == self@[*key],
                None => !self@.contains_key(*key),
            },
    {
        dashmap_get(&self.table, key)
    }

    /// Adds an entry, or replaces the one that the key had, which comes back.
    /// No other entry changes.
    pub fn insert(&mut self, key: LazyKey, value: LazyBlockTransaction) -> (previous: Option<
        LazyBlockTransaction,
    >)
        ensures
            final(self)@ == old(self)@.insert(key, value@),
            match previous {
                Some(transaction) => old(self)@.contains_key(key) && transaction@ == old(self)@[key],
                None => !old(self)@.contains_key(key),
            },
            old(self).wf() ==> final(self).wf(),
    {
        dashmap_insert(&mut self.table, key, value)
    }

    /// Empties the tier.
    pub fn clear(&mut self)
        ensures
            final(self)@ == LazyEntries::empty(),
            final(self).wf(),
    {
        dashmap_clear(&mut self.table);
    }
}

/// Allocates the second tier with room for `cache_size` entries. It starts
/// empty.
pub fn new_traversals_lazy_cache(cache_size: usize) -> (cache: TraversalsCacheL2)
    requires
        cache_size <= MAX_CACHE_SIZE,
    ensures
        cache@ == LazyEntries::empty(),
        cache.wf(),
{
    TraversalsCacheL2 { table: dashmap_with_capacity(cache_size) }
}

/// The key under which the first tier files the trace of one input.
pub open spec fn traversal_key(transaction: TransactionIdentifier, input_index: usize)
    -> TraversalKey {
    (
        transaction.hash[0],
        transaction.hash[1],
        transaction.hash[2],
        transaction.hash[3],
        input_index,
    )
}

/// The first tier is exact: two inputs share a key only if they are the same
/// input of the same transaction.
pub proof fn lemma_traversal_key_is_exact(
    transaction: TransactionIdentifier,
    input_index: usize,
    other: TransactionIdentifier,
    other_index: usize,
)
    ensures
        traversal_key(transaction, input_index) == traversal_key(other, other_index) <==> (
        transaction == other && input_index == other_index),
{
    if traversal_key(transaction, input_index) == traversal_key(other, other_index) {
        assert(transaction.hash =~= other.hash);
    }
}

/// The first tier: made for one batch and dropped with it.
pub struct TraversalsCacheL1 {
    traversals: BTreeMap<TraversalKey, TraversalResult>,
}

impl View for TraversalsCacheL1 {
    type V = Map<TraversalKey, TraversalResult>;

    closed spec fn view(&self) -> Map<TraversalKey, TraversalResult> {
        self.traversals@
    }
}

impl TraversalsCacheL1 {
    /// An empty tier.
    pub fn new() -> (cache: Self)
        ensures
            cache@ == Map::<TraversalKey, TraversalResult>::empty(),
    {
        TraversalsCacheL1 { traversals: BTreeMap::new() }
    }

    /// The number of traces held.
    pub fn len(&self) -> (entries: usize)
        ensures
            self@.dom().finite(),
            entries == self@.len(),
    {
        self.traversals.len()
    }

    /// The trace of an input, if the batch has traced it already.
    pub fn get(&self, transaction: &TransactionIdentifier, input_index: usize) -> (found: Option<
        TraversalResult,
    >)
        ensures
            found == self@.get(traversal_key(*transaction, input_index)),
    {
        let key: TraversalKey = (
            transaction.hash[0],
            transaction.hash[1],
            transaction.hash[2],
            transaction.hash[3],
            input_index,
        );
        match self.traversals.get(&key) {
            Some(result) => Some(*result),
            None => None,
        }
    }

    /// Files the trace of an input. Of two traces of one input the later
    /// stays, and the earlier comes back.
    pub fn insert(
        &mut self,
        transaction: &TransactionIdentifier,
        input_index: usize,
        result: TraversalResult,
    ) -> (previous: Option<TraversalResult>)
        ensures
            final(self)@ == old(self)@.insert(traversal_key(*transaction, input_index), result),
            previous == old(self)@.get(traversal_key(*transaction, input_index)),
    {
        let key: TraversalKey = (
            transaction.hash[0],
            transaction.hash[1],
            transaction.hash[2],
            transaction.hash[3],
            input_index,
        );
        self.traversals.insert(key, result)
    }
}

} // verus!
