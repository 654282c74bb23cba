//! A cache of converted assets that threads share.

use parking_lot::{RwLock, RwLockReadGuard, RwLockWriteGuard};
use vstd::prelude::*;
use crate::entries::Entries;
use crate::key::AssetSpec;

verus! {

/// `parking_lot::RawRwLock`, the lock's own state.
#[verifier::external_type_specification]
#[verifier::external_body]
pub struct ExRawRwLock(parking_lot::RawRwLock);

/// `lock_api::RwLock`, of which `parking_lot::RwLock` is an instance. What it
/// guards changes behind a shared reference, so nothing about that is a
/// function of the lock's value.
#[verifier::external_type_specification]
#[verifier::external_body]
#[verifier::reject_recursive_types(R)]
#[verifier::reject_recursive_types(T)]
pub struct ExRwLock<R, T: ?Sized>(parking_lot::lock_api::RwLock<R, T>);

/// Shared access to the entries behind a lock, held until the value is
/// dropped. It keeps a `parking_lot::RwLockReadGuard`.
#[verifier::external_body]
#[verifier::reject_recursive_types(T)]
struct ReadAccess<'a, T> {
    guard: RwLockReadGuard<'a, Entries<T>>,
}

/// Exclusive access to the entries behind a lock, held until the value is
/// dropped. It keeps a `parking_lot::RwLockWriteGuard`.
#[verifier::external_body]
#[verifier::reject_recursive_types(T)]
struct WriteAccess<'a, T> {
    guard: RwLockWriteGuard<'a, Entries<T>>,
}

/// `RwLock::new`: an unlocked lock around `entries`.
#[verifier::external_body]
fn new_lock<T>(entries: Entries<T>) -> RwLock<Entries<T>> {
    RwLock::new(entries)
}

/// `RwLock::read`: waits until no writer holds the lock, then shares it with
/// other readers. It does not return while this thread holds the lock for
/// writing.
#[verifier::external_body]
fn read_access<'a, T>(lock: &'a RwLock<Entries<T>>) -> ReadAccess<'a, T> {
    ReadAccess { guard: lock.read() }
}

/// `RwLock::write`: waits until nobody else holds the lock, then holds it
/// alone. It does not return while this thread holds the lock already.
#[verifier::external_body]
fn write_access<'a, T>(lock: &'a RwLock<Entries<T>>) -> WriteAccess<'a, T> {
    WriteAccess { guard: lock.write() }
}

/// The read guard's `deref`: the entries as they are while the lock is held.
#[verifier::external_body]
fn shared_entries<'a, 'b, T>(access: &'a ReadAccess<'b, T>) -> &'a Entries<T> {
    &*access.guard
}

/// The write guard's `deref_mut`: the entries, to be changed in place.
#[verifier::external_body]
fn exclusive_entries<'a, 'b, T>(access: &'a mut WriteAccess<'b, T>) -> &'a mut Entries<T> {
    &mut *access.guard
}

/// A basic implementation for a cache. This might be useful as the `Context`
/// of an `Asset`, so that the same asset doesn't get imported twice.
///
/// Because contexts have to be immutable, a lock for readers and writers is
/// used. Therefore, all operations are blocking (but shouldn't block for a
/// long time). Between two calls another thread may change the cache: what a
/// call finds is what [`Entries`] says of the entries as they were while the
/// call held the lock.
#[verifier::reject_recursive_types(T)]
pub struct Cache<T> {
    map: RwLock<Entries<T>>,
}

impl<T> Cache<T> where T: Clone {
    /// Creates a new `Cache` that holds nothing.
    pub fn new() -> Cache<T> {
        Cache { map: new_lock(Entries::new()) }
    }

    /// Inserts an asset, locking the cache for writing.
    ///
    /// Returns the previous value in case there was any.
    pub fn insert(&self, spec: AssetSpec, asset: T) -> Option<T> {
        let mut access = write_access(&self.map);
        exclusive_entries(&mut access).insert(spec, asset)
    }

    /// Retrieves an asset, locking the cache for reading. In case this asset
    /// has been inserted previously, it will be cloned and returned.
    /// Otherwise, you'll receive `None`.
    pub fn get(&self, spec: &AssetSpec) -> Option<T> {
        let access = read_access(&self.map);
        shared_entries(&access).get(spec)
    }

    /// Deletes all cached values, except the ones `f` returned `true` for.
    /// May be used when you're about to clear unused assets (see
    /// `Asset::clear`).
    ///
    /// Blocks the calling thread for getting write access. `f` runs while the
    /// cache is locked: it must not call into the same cache.
    pub fn retain<F>(&self, f: F) where F: FnMut(&AssetSpec, &mut T) -> bool
        requires
            forall|k: AssetSpec, slot: &mut T| call_requires(f, (&k, slot)),
    {
        let mut access = write_access(&self.map);
        exclusive_entries(&mut access).retain(f)
    }

    /// Deletes all cached values after locking the cache for writing.
    pub fn clear_all(&self) {
        let mut access = write_access(&self.map);
        exclusive_entries(&mut access).clear_all()
    }
}

impl<T> Default for Cache<T> {
    fn default() -> Cache<T> {
        Cache { map: new_lock(Entries::new()) }
    }
}

} // verus!
