//! The entries of a cache: a map from what a specifier denotes to the value
//! kept for it.

use fnv::FnvHashMap;
use vstd::prelude::*;
use crate::key::{AssetSpec, SpecView};

verus! {

/// `fnv::FnvHasher`, the hasher of the table; nothing is known of its state.
#[verifier::external_type_specification]
#[verifier::external_body]
pub struct ExFnvHasher(fnv::FnvHasher);

/// `core::hash::BuildHasherDefault`, which makes the table's hashers.
#[verifier::external_type_specification]
#[verifier::external_body]
#[verifier::reject_recursive_types(H)]
pub struct ExBuildHasherDefault<H>(core::hash::BuildHasherDefault<H>);

/// A table read by what its keys denote. The table tells its keys apart by
/// `==`, so no two of them denote the same specifier.
spec fn keyed_by_view<T>(table: Map<AssetSpec, T>) -> Map<SpecView, T> {
    Map::new(
        |id: SpecView| exists|k: AssetSpec| #[trigger] table.contains_key(k) && k@ == id,
        |id: SpecView| table[choose|k: AssetSpec| #[trigger] table.contains_key(k) && k@ == id],
    )
}

/// The value that `entries` holds for `id`, if any.
pub open spec fn lookup<T>(entries: Map<SpecView, T>, id: SpecView) -> Option<T> {
    if entries.contains_key(id) {
        Some(entries[id])
    } else {
        None
    }
}

/// The entries of a cache. No two of them have equal specifiers.
pub struct Entries<T> {
    table: FnvHashMap<AssetSpec, T>,
}

impl<T> View for Entries<T> {
    type V = Map<SpecView, T>;

    closed spec fn view(&self) -> Map<SpecView, T> {
        keyed_by_view(self.table@)
    }
}

/// `HashMap::insert` on the table, whose hasher is `fnv`'s. This is taken on
/// trust: the table tells keys apart by `AssetSpec`'s `==` and by the hash
/// derived beside it, that is by what a key denotes. After the call the table
/// holds `value` for what `key` denotes, every other entry is as it was, and
/// the value held for it before, if any, comes back.
#[verifier::external_body]
fn table_insert<T>(entries: &mut Entries<T>, key: AssetSpec, value: T) -> (prev: Option<T>)
    ensures
        final(entries)@ == old(entries)@.insert(key@, value),
        prev == lookup(old(entries)@, key@),
{
    entries.table.insert(key, value)
}

/// `HashMap::get` on the table. This is taken on trust: it hands out a
/// reference to the value held for what `key` denotes, or `None` where the
/// table holds none.
#[verifier::external_body]
fn table_get<'a, T>(entries: &'a Entries<T>, key: &AssetSpec) -> (found: Option<&'a T>)
    ensures
        match found {
            Some(value) => lookup(entries@, key@) == Some(*value),
            None => lookup(entries@, key@) is None,
        },
{
    entries.table.get(key)
}

/// `HashMap::retain` on the table. This is taken on trust: `f` is called
/// once for every entry, in no stated order, with the entry's key and with
/// its value in place. Where `f` answers `true` the entry stays, with the
/// value as `f` left it; where it answers `false` the entry is gone. Nothing
/// is added. What `f` may answer is what its own contract allows.
#[verifier::external_body]
fn table_retain<T, F>(entries: &mut Entries<T>, f: F) where F: FnMut(&AssetSpec, &mut T) -> bool
    requires
        forall|k: AssetSpec, slot: &mut T|
            lookup(old(entries)@, k@) == Some(*slot) ==> call_requires(f, (&k, slot)),
    ensures
        forall|id: SpecView| #[trigger]
            final(entries)@.contains_key(id) ==> old(entries)@.contains_key(id),
        forall|id: SpecView|
            #![trigger old(entries)@.contains_key(id)]
            #![trigger final(entries)@.contains_key(id)]
            old(entries)@.contains_key(id) ==> exists|k: AssetSpec, slot: &mut T|
                {
                    &&& k@ == id
                    &&& *slot == old(entries)@[id]
                    &&& #[trigger] call_ensures(f, (&k, slot), final(entries)@.contains_key(id))
                    &&& final(entries)@.contains_key(id) ==> final(entries)@[id] == *final(slot)
                },
{
    entries.table.retain(f)
}

impl<T> Entries<T> {
    /// Creates entries that hold nothing.
    pub fn new() -> (entries: Entries<T>)
        ensures
            entries@ == Map::<SpecView, T>::empty(),
    {
        let entries = Entries { table: FnvHashMap::default() };
        assert(entries@ =~= Map::<SpecView, T>::empty());
        entries
    }

    /// Inserts an asset under a specifier, in place of the one that may be
    /// there. Returns the previous value in case there was any.
    pub fn insert(&mut self, spec: AssetSpec, asset: T) -> (prev: Option<T>)
        ensures
            final(self)@ == old(self)@.insert(spec@, asset),
            prev == lookup(old(self)@, spec@),
    {
        table_insert(self, spec, asset)
    }

    /// Retrieves a clone of the asset held for a specifier, or `None` where
    /// none is held.
    pub fn get(&self, spec: &AssetSpec) -> (found: Option<T>) where T: Clone
        ensures
            match lookup(self@, spec@) {
                Some(held) => found matches Some(copy) && cloned(held, copy),
                None => found is None,
            },
    {
        match table_get(self, spec) {
            Some(held) => Some(held.clone()),
            None => None,
        }
    }

    /// Deletes all entries, except the ones `f` returned `true` for. `f` is
    /// given each entry once and may change its value in place.
    pub fn retain<F>(&mut self, f: F) where F: FnMut(&AssetSpec, &mut T) -> bool
        requires
            forall|k: AssetSpec, slot: &mut T|
                lookup(old(self)@, k@) == Some(*slot) ==> call_requires(f, (&k, slot)),
        ensures
            forall|id: SpecView| #[trigger]
                final(self)@.contains_key(id) ==> old(self)@.contains_key(id),
            forall|id: SpecView|
                #![trigger old(self)@.contains_key(id)]
                #![trigger final(self)@.contains_key(id)]
                old(self)@.contains_key(id) ==> exists|k: AssetSpec, slot: &mut T|
                    {
                        &&& k@ == id
                        &&& *slot == old(self)@[id]
                        &&& #[trigger] call_ensures(f, (&k, slot), final(self)@.contains_key(id))
                        &&& final(self)@.contains_key(id) ==> final(self)@[id] == *final(slot)
                    },
    {
        table_retain(self, f)
    }

    /// Deletes all entries.
    pub fn clear_all(&mut self)
        ensures
            final(self)@ == Map::<SpecView, T>::empty(),
    {
        self.table.clear();
        assert(self@ =~= Map::<SpecView, T>::empty());
    }
}

/// Round trip: a value inserted under a specifier is the one found under it.
pub proof fn lemma_insert_then_get<T>(before: Map<SpecView, T>, id: SpecView, value: T)
    ensures
        lookup(before.insert(id, value), id) == Some(value),
{
}

/// An insert leaves what is held under every other specifier as it was.
pub proof fn lemma_insert_keeps_others<T>(
    before: Map<SpecView, T>,
    id: SpecView,
    value: T,
    other: SpecView,
)
    requires
        other != id,
    ensures
        lookup(before.insert(id, value), other) == lookup(before, other),
{
}

/// Overwrite: after `first` was inserted under a specifier, an insert of
/// `second` under it finds `first` there to hand back, and from then on
/// `second` is found; the entries are as if only `second` had been inserted.
pub proof fn lemma_overwrite<T>(before: Map<SpecView, T>, id: SpecView, first: T, second: T)
    ensures
        lookup(before.insert(id, first), id) == Some(first),
        lookup(before.insert(id, first).insert(id, second), id) == Some(second),
        before.insert(id, first).insert(id, second) == before.insert(id, second),
{
    assert(before.insert(id, first).insert(id, second) =~= before.insert(id, second));
}

/// Retain by specifier: where `f` decides by the specifier alone, as `keep`
/// does, and leaves the values as they are, what `retain` leaves of `before`
/// is exactly the entries that `keep` accepts, each with its value.
pub proof fn lemma_retain_by_spec<T, F>(
    f: F,
    before: Map<SpecView, T>,
    after: Map<SpecView, T>,
    keep: spec_fn(SpecView) -> bool,
) where F: FnMut(&AssetSpec, &mut T) -> bool
    requires
        forall|id: SpecView| #[trigger] after.contains_key(id) ==> before.contains_key(id),
        forall|id: SpecView| #[trigger]
            before.contains_key(id) ==> exists|k: AssetSpec, slot: &mut T|
                {
                    &&& k@ == id
                    &&& *slot == before[id]
                    &&& #[trigger] call_ensures(f, (&k, slot), after.contains_key(id))
                    &&& after.contains_key(id) ==> after[id] == *final(slot)
                },
        forall|k: AssetSpec, slot: &mut T, kept: bool| #[trigger]
            call_ensures(f, (&k, slot), kept) ==> kept == keep(k@) && *final(slot) == *slot,
    ensures
        forall|id: SpecView|
            lookup(after, id) == (if keep(id) {
                lookup(before, id)
            } else {
                None
            }),
{
}

/// Once all entries are deleted, nothing is found under any specifier.
pub proof fn lemma_nothing_after_clear<T>(id: SpecView)
    ensures
        lookup(Map::<SpecView, T>::empty(), id) is None,
{
}

} // verus!
