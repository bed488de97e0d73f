//! Trusted boundary around the `any_handle` crate.
//!
//! The shared cells that the registry hands out are `any_handle::AnyHandle`
//! values: a reference-counted pointer to a heap cell guarded by a
//! readers-writer lock.  Verus sees that type, and the two guard types, as
//! opaque; the erased form (`AnyHandle<dyn Any>`) cannot even be declared, so
//! it is held inside an opaque struct.  Each operation the library needs is
//! wrapped here: one wrapper per operation, except that cell construction
//! also narrows the fresh cell back to its own type, which only the crate's
//! `downcast` can do.

use vstd::prelude::*;

verus! {

/// `any_handle::AnyHandle`, declared so it can stand in fields and
/// signatures; Verus sees its values as opaque.
#[verifier::external_type_specification]
#[verifier::external_body]
#[verifier::reject_recursive_types(T)]
pub struct ExAnyHandle<T: ?Sized>(any_handle::AnyHandle<T>);

/// `any_handle::AnyHandleReadGuard`: a scoped shared borrow of a cell's
/// value, released when dropped.
#[verifier::external_type_specification]
#[verifier::external_body]
#[verifier::reject_recursive_types(T)]
pub struct ExAnyHandleReadGuard<'a, T: ?Sized>(any_handle::AnyHandleReadGuard<'a, T>);

/// `any_handle::AnyHandleWriteGuard`: a scoped exclusive borrow of a cell's
/// value, released when dropped.
#[verifier::external_type_specification]
#[verifier::external_body]
#[verifier::reject_recursive_types(T)]
pub struct ExAnyHandleWriteGuard<'a, T: ?Sized>(any_handle::AnyHandleWriteGuard<'a, T>);

/// An `any_handle::AnyHandle<dyn Any>`: a cell handle whose apparent type has
/// been widened to "any value".  Verus does not take `dyn` types, so the
/// handle is held opaquely.
#[verifier::external_body]
pub struct RawErased {
    h: any_handle::AnyHandle<dyn std::any::Any>,
}

/// Relies on `AnyHandle::new` (a fresh cell holding the boxed value) and on
/// `AnyHandle::downcast` (which succeeds exactly when the cell's value has the
/// requested type, here the very type the cell was just built from, so the
/// unwrap cannot fail).  The two returned handles point at the same fresh
/// cell: one under the value's own type, one erased to "any value".
#[verifier::external_body]
pub(crate) fn new_cell<T: 'static>(value: T) -> (pair: (any_handle::AnyHandle<T>, RawErased))
{
    let erased: any_handle::AnyHandle<dyn std::any::Any> =
        any_handle::AnyHandle::new(Box::new(value));
    let typed: Option<any_handle::AnyHandle<T>> = erased.clone().downcast().ok();
    (typed.unwrap(), RawErased { h: erased })
}

/// Relies on `AnyHandle::clone`: a new holder of the same cell; the value is
/// not copied, only the reference count grows.
#[verifier::external_body]
pub(crate) fn clone_erased(e: &RawErased) -> (r: RawErased) {
    RawErased { h: e.h.clone() }
}

/// Relies on `AnyHandle::clone`: a new holder of the same cell; the value is
/// not copied, only the reference count grows.
#[verifier::external_body]
pub(crate) fn clone_typed<T: 'static>(h: &any_handle::AnyHandle<T>) -> (r: any_handle::AnyHandle<
    T,
>) {
    h.clone()
}

/// Relies on `AnyHandle::downcast`: the result is `Some` exactly when the
/// cell's value has type `T`, and the returned handle shares the cell of the
/// argument.
#[verifier::external_body]
pub(crate) fn downcast<T: 'static>(e: RawErased) -> (r: Option<any_handle::AnyHandle<T>>) {
    e.h.downcast().ok()
}

/// Relies on `AnyHandle::read`: a scoped shared borrow of the cell's value,
/// taken from the cell's readers-writer lock.  May block while a writer holds
/// the lock; panics only if another holder panicked while writing.
#[verifier::external_body]
pub(crate) fn read<'a, T: 'static>(h: &'a any_handle::AnyHandle<T>) -> (g:
    any_handle::AnyHandleReadGuard<'a, T>) {
    h.read()
}

/// Relies on `AnyHandle::write`: a scoped exclusive borrow of the cell's
/// value.  The handle itself (which cell it points at) is left as it was.
/// May block while other borrows are live; panics only if another holder
/// panicked while writing.
#[verifier::external_body]
pub(crate) fn write<'a, T: 'static>(h: &'a mut any_handle::AnyHandle<T>) -> (g:
    any_handle::AnyHandleWriteGuard<'a, T>)
    ensures
        *final(h) == *old(h),
{
    h.write()
}

/// Relies on `std::any::TypeId`: a process-stable identity of a `'static`
/// type, distinct for distinct types, here folded to a `u64` through
/// `DefaultHasher`, whose output std fixes for equal input.  Two calls on one
/// type in one process thus return the same fingerprint, and calls on
/// distinct types return distinct fingerprints short of a collision of the
/// fold; neither can be stated here, since a spec of either would claim the
/// fingerprint stable across processes, which `TypeId` is not.
#[verifier::external_body]
pub(crate) fn type_key<T: 'static>() -> (k: u64) {
    let mut hasher = std::collections::hash_map::DefaultHasher::new();
    std::hash::Hash::hash(&std::any::TypeId::of::<T>(), &mut hasher);
    std::hash::Hasher::finish(&hasher)
}

} // verus!
