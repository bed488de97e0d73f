//! Typed and erased handles to shared value cells.
//!
//! A cell is a heap-resident, reference-counted box holding one user value
//! behind a readers-writer lock.  A [`Handle<T>`] is one holder of such a
//! cell, viewed at the value's own type; an [`ErasedHandle`] is a holder
//! whose apparent type has been widened to "any value".  At the
//! specification level a handle is a pair: the fingerprint of the cell's
//! original type ([`Handle::key`]) and the identity of the cell it points at
//! ([`Handle::id`]).  Cell identities are ghost: handles carry the identity
//! of the cell they were issued for, operations that share a cell keep it,
//! and the registry issues a fresh identity for every cell it creates.

use vstd::prelude::*;

verus! {

/// A shared, reference-counted handle to one heap cell holding a value of
/// type `T`.  Cloning yields a new holder of the same cell; `read` and
/// `write` give scoped borrows of the shared value under readers-writer
/// exclusion.
#[verifier::reject_recursive_types(T)]
pub struct Handle<T: 'static> {
    pub(crate) raw: any_handle::AnyHandle<T>,
    pub(crate) key: u64,
    pub(crate) cell: Ghost<nat>,
}

impl<T: 'static> Handle<T> {
    /// The fingerprint of the type this handle was issued for.
    pub closed spec fn key(self) -> u64 {
        self.key
    }

    /// The identity of the cell this handle points at.
    pub closed spec fn id(self) -> nat {
        self.cell@
    }

    pub(crate) fn make(raw: any_handle::AnyHandle<T>, key: u64, cell: Ghost<nat>) -> (h: Self)
        ensures
            h.key() == key,
            h.id() == cell@,
    {
        Handle { raw, key, cell }
    }

    /// The fingerprint of the type this handle was issued for, as a value.
    pub fn fingerprint(&self) -> (k: u64)
        ensures
            k == self.key(),
    {
        self.key
    }

    /// A scoped shared borrow of the cell's value.  Any number of read
    /// borrows may be live at once; a read borrow excludes write borrows and
    /// may block until a writer elsewhere releases the cell.
    pub fn read<'a>(&'a self) -> (g: any_handle::AnyHandleReadGuard<'a, T>) {
        crate::raw::read(&self.raw)
    }

    /// A scoped exclusive borrow of the cell's value.  Only one write borrow
    /// may be live at a time, and it excludes all read borrows; it may block
    /// until borrows elsewhere are released.  Which cell the handle points at
    /// does not change.
    pub fn write<'a>(&'a mut self) -> (g: any_handle::AnyHandleWriteGuard<'a, T>)
        ensures
            final(self).key() == old(self).key(),
            final(self).id() == old(self).id(),
    {
        crate::raw::write(&mut self.raw)
    }
}

impl<T: 'static> Clone for Handle<T> {
    /// A new holder of the same cell.  The value is not copied; the cell's
    /// reference count grows by one.
    fn clone(&self) -> (r: Self)
        ensures
            r.key() == self.key(),
            r.id() == self.id(),
    {
        Handle { raw: crate::raw::clone_typed(&self.raw), key: self.key, cell: self.cell }
    }
}

/// A handle whose apparent type has been widened to "any value".  The cell's
/// original type is still recorded in the cell itself; [`ErasedHandle::narrow`]
/// recovers a typed handle to the same cell exactly when the requested type
/// matches it.
pub struct ErasedHandle {
    pub(crate) raw: crate::raw::RawErased,
    pub(crate) key: u64,
    pub(crate) cell: Ghost<nat>,
}

impl ErasedHandle {
    /// The fingerprint of the original type of the cell's value.
    pub closed spec fn key(self) -> u64 {
        self.key
    }

    /// The identity of the cell this handle points at.
    pub closed spec fn id(self) -> nat {
        self.cell@
    }

    pub(crate) fn make(raw: crate::raw::RawErased, key: u64, cell: Ghost<nat>) -> (e: Self)
        ensures
            e.key() == key,
            e.id() == cell@,
    {
        ErasedHandle { raw, key, cell }
    }

    /// The fingerprint of the original type of the cell's value, as a value.
    pub fn fingerprint(&self) -> (k: u64)
        ensures
            k == self.key(),
    {
        self.key
    }

    /// Recover a typed handle from an erased one.  Succeeds exactly when the
    /// cell's value has type `T`; on success the new handle shares the cell
    /// (same fingerprint, same cell identity) with this one.
    pub fn narrow<T: 'static>(&self) -> (r: Option<Handle<T>>)
        ensures
            r matches Some(h) ==> h.key() == self.key() && h.id() == self.id(),
    {
        match crate::raw::downcast::<T>(crate::raw::clone_erased(&self.raw)) {
            Some(raw) => Some(Handle { raw, key: self.key, cell: self.cell }),
            None => None,
        }
    }
}

impl Clone for ErasedHandle {
    /// A new holder of the same cell.  The value is not copied; the cell's
    /// reference count grows by one.
    fn clone(&self) -> (r: Self)
        ensures
            r.key() == self.key(),
            r.id() == self.id(),
    {
        ErasedHandle { raw: crate::raw::clone_erased(&self.raw), key: self.key, cell: self.cell }
    }
}

} // verus!
