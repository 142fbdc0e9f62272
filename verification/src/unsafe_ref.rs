//! The two caller-managed unchecked pointer wrappers.
//!
//! Neither wrapper keeps any ownership bookkeeping, and no operation of
//! either ever takes the arena mutably: letting any number of wrappers go
//! out of scope can never reclaim an allocation.  Reclamation happens only
//! through an explicit conversion back to an owning handle
//! ([`UnsafeRef::into_box`], [`UnsafeMut::into_box`]) that is then consumed
//! by [`crate::arena::Arena::take_unique`].

use core::marker::PhantomData;
use vstd::prelude::*;

use crate::arena::Arena;
use crate::arena::is_live_at;
use crate::arena::slot_with_value;
use crate::arena::value_at;
use crate::arena::writable_at;
use crate::handle::BoxPtr;
use crate::handle::RawPtr;

verus! {

/// Unchecked shared pointer.
///
/// This type acts like an `Rc` or `Arc` except that no reference count is
/// maintained: it is duplicated by copying the address alone, and the user
/// is responsible for freeing the managed object once it is no longer in
/// use.
///
/// The user must guarantee that an object managed by an `UnsafeRef` is not
/// moved, dropped or exclusively mutated as long as at least one `UnsafeRef`
/// is pointing to it.
#[derive(Debug)]
pub struct UnsafeRef<T> {
    pub addr: usize,
    pub meta: usize,
    pub marker: PhantomData<T>,
}

impl<T> Clone for UnsafeRef<T> {
    fn clone(&self) -> (r: Self)
        ensures
            r == *self,
    {
        UnsafeRef { addr: self.addr, meta: self.meta, marker: PhantomData }
    }
}

impl<T> Copy for UnsafeRef<T> {

}

impl<T> View for UnsafeRef<T> {
    type V = RawPtr;

    open spec fn view(&self) -> RawPtr {
        RawPtr { addr: self.addr, meta: self.meta }
    }
}

impl<T> UnsafeRef<T> {
    /// Creates an `UnsafeRef` from a raw address.
    ///
    /// The user must ensure that the `UnsafeRef` guarantees are upheld;
    /// nothing here checks them, and every later use of the wrapper states
    /// its own demands on the arena.
    pub fn from_raw(raw: RawPtr) -> (r: UnsafeRef<T>)
        ensures
            r@ == raw,
    {
        UnsafeRef { addr: raw.addr, meta: raw.meta, marker: PhantomData }
    }

    /// Converts an `UnsafeRef` into a raw address.  No bookkeeping moves.
    pub fn into_raw(ptr: Self) -> (r: RawPtr)
        ensures
            r == ptr@,
    {
        RawPtr { addr: ptr.addr, meta: ptr.meta }
    }

    /// Creates an `UnsafeRef` from a unique handle.  The allocation stays
    /// exactly as it is — in particular it is not reclaimed when the
    /// wrapper goes out of scope; the caller takes over that duty.
    pub fn from_box(val: BoxPtr<T>) -> (r: UnsafeRef<T>)
        ensures
            r@ == val@,
    {
        UnsafeRef { addr: val.addr, meta: val.meta, marker: PhantomData }
    }

    /// Converts an `UnsafeRef` back into a unique handle, through which the
    /// allocation can be reclaimed.
    ///
    /// The user must ensure that this is the only `UnsafeRef` managing the
    /// object and that it is not currently a member of any collection; the
    /// conversion is only valid if the `UnsafeRef` was created using
    /// [`UnsafeRef::from_box`].
    pub fn into_box(ptr: Self) -> (b: BoxPtr<T>)
        ensures
            b@ == ptr@,
    {
        BoxPtr::from_raw(UnsafeRef::into_raw(ptr))
    }

    /// A shared projection of the managed object.
    pub fn get<'a>(&self, arena: &'a Arena<T>) -> (r: &'a T)
        requires
            is_live_at(arena@, self@),
        ensures
            *r == value_at(arena@, self@),
    {
        arena.read(UnsafeRef::into_raw(*self))
    }
}

/// Unchecked unique pointer.
///
/// This type acts like a `Box`, allowing exclusive access to the object, but
/// performs no reclamation of its own: the user is responsible for freeing
/// the managed object once it is no longer in use.  It is not duplicable.
///
/// The user must guarantee that an object managed by an `UnsafeMut` is not
/// moved, dropped or accessed through any other path as long as the
/// `UnsafeMut` is pointing to it.
#[derive(Debug)]
pub struct UnsafeMut<T> {
    pub addr: usize,
    pub meta: usize,
    pub marker: PhantomData<T>,
}

impl<T> View for UnsafeMut<T> {
    type V = RawPtr;

    open spec fn view(&self) -> RawPtr {
        RawPtr { addr: self.addr, meta: self.meta }
    }
}

impl<T> UnsafeMut<T> {
    /// Creates an `UnsafeMut` from a raw address.
    ///
    /// The user must ensure that the `UnsafeMut` guarantees are upheld.
    pub fn from_raw(raw: RawPtr) -> (r: UnsafeMut<T>)
        ensures
            r@ == raw,
    {
        UnsafeMut { addr: raw.addr, meta: raw.meta, marker: PhantomData }
    }

    /// Converts an `UnsafeMut` into a raw address.  No bookkeeping moves.
    pub fn into_raw(ptr: Self) -> (r: RawPtr)
        ensures
            r == ptr@,
    {
        RawPtr { addr: ptr.addr, meta: ptr.meta }
    }

    /// Creates an `UnsafeMut` from a unique handle.  The allocation stays
    /// exactly as it is; the caller takes over the duty to reclaim it.
    pub fn from_box(val: BoxPtr<T>) -> (r: UnsafeMut<T>)
        ensures
            r@ == val@,
    {
        UnsafeMut { addr: val.addr, meta: val.meta, marker: PhantomData }
    }

    /// Converts an `UnsafeMut` back into a unique handle, through which the
    /// allocation can be reclaimed.
    ///
    /// The user must ensure that this is the only `UnsafeMut` managing the
    /// object and that it is not currently a member of any collection; the
    /// conversion is only valid if the `UnsafeMut` was created using
    /// [`UnsafeMut::from_box`].
    pub fn into_box(ptr: Self) -> (b: BoxPtr<T>)
        ensures
            b@ == ptr@,
    {
        BoxPtr::from_raw(UnsafeMut::into_raw(ptr))
    }

    /// A shared projection of the managed object.
    pub fn get<'a>(&self, arena: &'a Arena<T>) -> (r: &'a T)
        requires
            is_live_at(arena@, self@),
        ensures
            *r == value_at(arena@, self@),
    {
        arena.read(RawPtr { addr: self.addr, meta: self.meta })
    }

    /// Writes the managed object through this wrapper's exclusive access.
    pub fn set(&self, arena: &mut Arena<T>, value: T)
        requires
            writable_at(old(arena)@, self@),
        ensures
            final(arena)@ == old(arena)@.update(
                self@.addr as int,
                slot_with_value(old(arena)@[self@.addr as int], value),
            ),
    {
        arena.write(RawPtr { addr: self.addr, meta: self.meta }, value);
    }
}

} // verus!
