//! The type-indexed registry.
//!
//! A [`ServiceLocator`] maps type fingerprints to erased handles.  At the
//! specification level it is a pair: a directory [`ServiceLocator::entries`]
//! from fingerprint to cell identity, and a counter
//! [`ServiceLocator::next`], the first cell identity not yet issued.  Every
//! `provide` creates a fresh cell under the next identity, so a handle
//! issued earlier never shares a cell with one issued later.

use crate::handle::ErasedHandle;
use crate::handle::Handle;
use vstd::prelude::*;

verus! {

broadcast use vstd::std_specs::hash::group_hash_axioms;

/// A simple service locator, storing one shared value per concrete type.
///
/// Values are stored under the fingerprint of their type and handed out as
/// [`Handle`]s: shared, reference-counted views that stay valid however the
/// registry is later mutated or dropped.
pub struct ServiceLocator {
    m: std::collections::HashMap<u64, ErasedHandle>,
    next_cell: Ghost<nat>,
}

impl ServiceLocator {
    /// The registry's directory: type fingerprint to the identity of the
    /// stored cell.
    pub closed spec fn entries(self) -> Map<u64, nat> {
        self.m@.map_values(|e: ErasedHandle| e.id())
    }

    /// The first cell identity not yet issued.
    pub closed spec fn next(self) -> nat {
        self.next_cell@
    }

    /// Well-formed: every stored handle sits under its own fingerprint and
    /// points at a cell issued earlier.
    pub closed spec fn wf(self) -> bool {
        forall|k: u64|
            self.m@.contains_key(k) ==> (#[trigger] self.m@[k]).key() == k && self.m@[k].id()
                < self.next_cell@
    }

    /// Look up the stored erased handle under one fingerprint.  Finds one
    /// exactly when the registry holds an entry at that key, and then hands
    /// back the stored handle itself: its fingerprint is the key, its cell is
    /// the one the directory records.
    pub fn get_erased(&self, key: u64) -> (r: Option<&ErasedHandle>)
        requires
            self.wf(),
        ensures
            match r {
                Some(e) => self.entries().contains_key(key) && e.key() == key && e.id()
                    == self.entries()[key] && e.id() < self.next(),
                None => !self.entries().contains_key(key),
            },
    {
        self.m.get(&key)
    }

    /// Get a value from the service locator by its type, `T`.
    /// If no service of that type has been provided, returns `None`.
    /// Otherwise, returns a fresh handle to the stored cell: a clone of the
    /// stored erased handle, narrowed back to `T`.  On a registry with no
    /// entries at all the lookup is always absent.
    pub fn get<T: 'static>(&self) -> (r: Option<Handle<T>>)
        requires
            self.wf(),
        ensures
            r matches Some(h) ==> self.entries().contains_pair(h.key(), h.id()) && h.id()
                < self.next(),
            self.entries() == Map::<u64, nat>::empty() ==> r is None,
    {
        let key: u64 = crate::raw::type_key::<T>();
        match self.get_erased(key) {
            Some(e) => e.narrow::<T>(),
            None => None,
        }
    }

    /// Provide the service locator with a service of type `T`, taking
    /// ownership of the value.  A fresh cell is created for it and stored
    /// under the fingerprint of `T`, replacing the entry already there, if
    /// any; entries under every other fingerprint are untouched.  The
    /// returned handle shares the fresh cell with the stored entry, and that
    /// cell is new: no handle issued earlier points at it, so holders of a
    /// replaced value keep it, undisturbed.
    pub fn provide<T: 'static>(&mut self, object: T) -> (h: Handle<T>)
        requires
            old(self).wf(),
        ensures
            final(self).wf(),
            h.id() == old(self).next(),
            final(self).next() == old(self).next() + 1,
            final(self).entries() == old(self).entries().insert(h.key(), h.id()),
            final(self).entries().contains_pair(h.key(), h.id()),
            forall|k: u64| #![trigger final(self).entries().contains_key(k)]
                k != h.key() ==> (final(self).entries().contains_key(k) <==> old(self).entries().contains_key(k)),
            forall|k: u64| #![trigger final(self).entries()[k]]
                k != h.key() && old(self).entries().contains_key(k) ==> final(self).entries()[k] == old(self).entries()[k],
            forall|k: u64|
                old(self).entries().contains_key(k) ==> old(self).entries()[k] != h.id(),
    {
        let key: u64 = crate::raw::type_key::<T>();
        let (traw, eraw) = crate::raw::new_cell(object);
        let ghost id: nat = self.next_cell@;
        let e = ErasedHandle::make(eraw, key, Ghost(id));
        self.next_cell = Ghost(id + 1);
        self.m.insert(key, e);
        proof {
            assert(self.entries() =~= old(self).entries().insert(key, id));
        }
        Handle::make(traw, key, Ghost(id))
    }
}

impl Default for ServiceLocator {
    /// An empty registry: no entries, no cell identity issued yet.
    fn default() -> (r: Self)
        ensures
            r.wf(),
            r.entries() == Map::<u64, nat>::empty(),
            r.next() == 0,
    {
        let r = ServiceLocator {
            m: std::collections::HashMap::new(),
            next_cell: Ghost(0nat),
        };
        proof {
            assert(r.entries() =~= Map::<u64, nat>::empty());
        }
        r
    }
}

/// Insert-then-get: once a provide has stored cell `id` under `key`, a
/// lookup at `key` on the new state finds exactly that cell.
pub proof fn lemma_provide_then_get(
    before: ServiceLocator,
    after: ServiceLocator,
    key: u64,
    id: nat,
)
    requires
        after.entries() == before.entries().insert(key, id),
    ensures
        after.entries().contains_pair(key, id),
{
}

/// Idempotent handle identity: handles found under one fingerprint on one
/// registry state all point at one cell, so mutations through any of them
/// are visible through the others.
pub proof fn lemma_get_idempotent(reg: ServiceLocator, key: u64, id1: nat, id2: nat)
    requires
        reg.entries().contains_pair(key, id1),
        reg.entries().contains_pair(key, id2),
    ensures
        id1 == id2,
{
}

/// Replacement detaches old holders: a handle issued before some provide
/// call (every such handle points at a cell the registry had already
/// issued) never shares a cell with the handle that provide returns.
pub proof fn lemma_replacement_detaches(
    before: ServiceLocator,
    earlier_id: nat,
    provided_id: nat,
)
    requires
        earlier_id < before.next(),
        provided_id == before.next(),
    ensures
        earlier_id != provided_id,
{
}

} // verus!
