//! Handle-based access to host-owned values kept in a resource table.
//!
//! Every operation here works on 32-bit handles. What a table holds is
//! modelled by the set of its live handles (`live_handles`): a handle that
//! is not live never resolves to a value.

use vstd::prelude::*;
use wasmtime::component::{Resource, ResourceTable, ResourceTableError};
use crate::outside::{live_handles, parent_handles};

verus! {

/// Why a table operation failed.
#[derive(Debug, Clone, Copy, PartialEq, Eq, Structural)]
pub enum TableError {
    /// The table has no free handle left.
    Full,
    /// The handle was never issued, or it has been removed or taken.
    NotFound,
    /// The handle is live but holds a value of another type.
    WrongType,
    /// The entry cannot be removed while child entries depend on it.
    HasChildren,
}

/// Whether `h` currently resolves to an entry of `t`.
pub open spec fn is_live(t: ResourceTable, h: u32) -> bool {
    live_handles(t).contains(h)
}

/// Whether the entry under `h` has child entries, which keep it from removal.
pub open spec fn has_children(t: ResourceTable, h: u32) -> bool {
    parent_handles(t).contains(h)
}

/// Relies on `ResourceTable::push`: the value goes under a handle that was not
/// live, and the only failure is a table without free handles, that is one in
/// which every 32-bit handle is live.
#[verifier::external_body]
fn push_entry<T: Send + 'static>(table: &mut ResourceTable, value: T) -> (r: Result<u32, TableError>)
    ensures
        match r {
            Ok(h) => !live_handles(*old(table)).contains(h)
                && live_handles(*final(table)) == live_handles(*old(table)).insert(h)
                && !parent_handles(*final(table)).contains(h),
            Err(e) => e == TableError::Full && live_handles(*final(table)) == live_handles(*old(table)),
        },
        parent_handles(*final(table)) == parent_handles(*old(table)),
        r is Err ==> forall|x: u32| live_handles(*old(table)).contains(x),
{
    match table.push(value) {
        Ok(res) => Ok(res.rep()),
        Err(_) => Err(TableError::Full),
    }
}

/// Relies on `ResourceTable::get`: a handle that is not live is reported as not
/// present; a live one yields its value, or a type mismatch.
#[verifier::external_body]
fn get_entry<T: 'static>(table: &ResourceTable, h: u32) -> (r: Result<&T, TableError>)
    ensures
        !live_handles(*table).contains(h) <==> (r matches Err(TableError::NotFound)),
        r is Err ==> (r matches Err(TableError::NotFound))
            || (r matches Err(TableError::WrongType)),
{
    match table.get(&Resource::<T>::new_borrow(h)) {
        Ok(v) => Ok(v),
        Err(ResourceTableError::NotPresent) => Err(TableError::NotFound),
        Err(ResourceTableError::WrongType) => Err(TableError::WrongType),
        Err(ResourceTableError::HasChildren) => Err(TableError::HasChildren),
        Err(ResourceTableError::Full) => Err(TableError::Full),
    }
}

/// Relies on `ResourceTable::delete`: a handle that is not live is reported as
/// not present and changes nothing; an entry with children stays; otherwise
/// the entry is freed, taken off its parent's children, and its value is
/// handed back when it has the asked type.
#[verifier::external_body]
fn delete_entry<T: 'static>(table: &mut ResourceTable, h: u32) -> (r: Result<T, TableError>)
    ensures
        !live_handles(*old(table)).contains(h) ==> (r matches Err(TableError::NotFound))
            && *final(table) == *old(table),
        live_handles(*old(table)).contains(h) && parent_handles(*old(table)).contains(h) ==>
            (r matches Err(TableError::HasChildren)) && *final(table) == *old(table),
        live_handles(*old(table)).contains(h) && !parent_handles(*old(table)).contains(h) ==>
            (r is Ok || (r matches Err(TableError::WrongType)))
            && live_handles(*final(table)) == live_handles(*old(table)).remove(h)
            && parent_handles(*final(table)).subset_of(parent_handles(*old(table)))
            && !parent_handles(*final(table)).contains(h),
{
    match table.delete(Resource::<T>::new_own(h)) {
        Ok(v) => Ok(v),
        Err(ResourceTableError::NotPresent) => Err(TableError::NotFound),
        Err(ResourceTableError::WrongType) => Err(TableError::WrongType),
        Err(ResourceTableError::HasChildren) => Err(TableError::HasChildren),
        Err(ResourceTableError::Full) => Err(TableError::Full),
    }
}

/// Stores `value` under a fresh handle.
///
/// Succeeds unless every 32-bit handle is already live; the handle returned
/// was not live before and is live afterwards, and no other handle changes.
/// The table hands out freed handles again, so a handle that was removed or
/// taken stays dead only until a later `insert` may reissue it.
pub fn insert<T: Send + 'static>(table: &mut ResourceTable, value: T) -> (r: Result<u32, TableError>)
    ensures
        match r {
            Ok(h) => !is_live(*old(table), h) && is_live(*final(table), h)
                && !has_children(*final(table), h)
                && live_handles(*final(table)) == live_handles(*old(table)).insert(h),
            Err(e) => e == TableError::Full && live_handles(*final(table)) == live_handles(*old(table)),
        },
        parent_handles(*final(table)) == parent_handles(*old(table)),
        r is Err ==> forall|x: u32| is_live(*old(table), x),
{
    push_entry(table, value)
}

/// Looks up the value stored under `handle`.
///
/// Fails with `NotFound` exactly when the handle is not live; a live handle
/// whose value has another type gives `WrongType`.
pub fn get<T: 'static>(table: &ResourceTable, handle: u32) -> (r: Result<&T, TableError>)
    ensures
        !is_live(*table, handle) <==> (r matches Err(TableError::NotFound)),
        r is Err ==> (r matches Err(TableError::NotFound)) || (r matches Err(TableError::WrongType)),
{
    get_entry(table, handle)
}

/// Removes the entry under `handle` and hands its value back.
///
/// A handle that is not live gives `NotFound` and leaves the table as it is,
/// so removing twice never frees twice. An entry with children stays in place
/// (`HasChildren`). In every other case the handle is dead afterwards, and the
/// value comes back when it has type `T` (else `WrongType`, and it is dropped).
pub fn remove<T: 'static>(table: &mut ResourceTable, handle: u32) -> (r: Result<T, TableError>)
    ensures
        !is_live(*old(table), handle) ==> (r matches Err(TableError::NotFound))
            && *final(table) == *old(table),
        is_live(*old(table), handle) && has_children(*old(table), handle) ==>
            (r matches Err(TableError::HasChildren)) && *final(table) == *old(table),
        is_live(*old(table), handle) && !has_children(*old(table), handle) ==>
            (r is Ok || (r matches Err(TableError::WrongType)))
            && live_handles(*final(table)) == live_handles(*old(table)).remove(handle)
            && parent_handles(*final(table)).subset_of(parent_handles(*old(table))),
{
    delete_entry(table, handle)
}

/// Hands the entry under `handle` over from `from` to `to`.
///
/// The value is looked up first and never destroyed on a failed lookup: a
/// handle that is not live in `from` gives `NotFound`, a value of another type
/// than `T` gives `WrongType`, and an entry with children gives `HasChildren`;
/// neither table changes then. Otherwise the entry leaves `from`, and on
/// success the value lives in `to` under the fresh handle returned. When every
/// handle of `to` is live the value is dropped and `Full` is returned.
pub fn take<T: Send + 'static>(from: &mut ResourceTable, to: &mut ResourceTable, handle: u32) -> (r: Result<u32, TableError>)
    ensures
        !is_live(*old(from), handle) ==> (r matches Err(TableError::NotFound))
            && *final(from) == *old(from) && *final(to) == *old(to),
        is_live(*old(from), handle) && has_children(*old(from), handle) ==>
            ((r matches Err(TableError::HasChildren)) || (r matches Err(TableError::WrongType)))
            && *final(from) == *old(from) && *final(to) == *old(to),
        is_live(*old(from), handle) && !has_children(*old(from), handle) ==>
            ((r matches Err(TableError::WrongType)) && *final(from) == *old(from) && *final(to) == *old(to))
            || (live_handles(*final(from)) == live_handles(*old(from)).remove(handle)
            && parent_handles(*final(from)).subset_of(parent_handles(*old(from)))
            && (r is Ok || (r matches Err(TableError::WrongType)) || (r matches Err(TableError::Full)))),
        match r {
            Ok(n) => !is_live(*old(to), n) && live_handles(*final(to)) == live_handles(*old(to)).insert(n)
                && !has_children(*final(to), n),
            Err(_) => live_handles(*final(to)) == live_handles(*old(to)),
        },
        parent_handles(*final(to)) == parent_handles(*old(to)),
        (r matches Err(TableError::Full)) ==> forall|x: u32| is_live(*old(to), x),
{
    if let Err(e) = get_entry::<T>(from, handle) {
        return Err(e);
    }
    match delete_entry::<T>(from, handle) {
        Ok(value) => push_entry(to, value),
        Err(e) => Err(e),
    }
}

/// A handle just returned by a successful `insert` is live, and once `remove`
/// or `take` has released it, it is not. By the contract of `get`, a lookup
/// of the handle therefore does not report `NotFound` right after the
/// insertion, and reports `NotFound` right after the release.
pub proof fn law_handle_lifetime(before: ResourceTable, inserted: ResourceTable, released: ResourceTable, h: u32)
    requires
        live_handles(inserted) == live_handles(before).insert(h),
        live_handles(released) == live_handles(inserted).remove(h),
    ensures
        is_live(inserted, h),
        !is_live(released, h),
{
}

/// Once `remove` (or `take`) has released a live handle, the handle is no
/// longer live and no other handle has become live. By the contract of
/// `remove`, a second `remove` of it then reports `NotFound` and leaves the
/// table unchanged, so nothing is freed twice.
pub proof fn law_second_remove_not_found(before: ResourceTable, after: ResourceTable, h: u32)
    requires
        is_live(before, h),
        live_handles(after) == live_handles(before).remove(h),
    ensures
        !is_live(after, h),
        live_handles(after).subset_of(live_handles(before)),
{
}

} // verus!
