//! Raw addresses and the ownership handles of the supported representations.
//!
//! A handle is an opaque record of the address (and metadata) of the arena
//! slot it owns or borrows.  Which slot states a handle may legitimately be
//! used against is stated by the operations of [`crate::arena::Arena`] and by
//! the policy traits of [`crate::pointer_ops`]; the handles themselves carry
//! no bookkeeping.

use core::marker::PhantomData;
use vstd::prelude::*;

verus! {

/// An ownership-free interchange value: the address of a managed object,
/// paired with the metadata half that a dynamically-sized referent carries
/// (the length of a slice, the table of a dynamically-dispatched object).
/// A thin referent carries 0 as its metadata.
#[derive(Clone, Copy, PartialEq, Eq, Structural, Debug)]
pub struct RawPtr {
    pub addr: usize,
    pub meta: usize,
}

/// A handle owning a uniquely-owned allocation, as a `Box` does.
///
/// It is not duplicable; the allocation it owns is released only by
/// [`crate::arena::Arena::take_unique`].
#[derive(Debug)]
pub struct BoxPtr<T> {
    pub addr: usize,
    pub meta: usize,
    pub marker: PhantomData<T>,
}

/// A handle owning one strong reference to a non-atomically reference-counted
/// shared allocation, as an `Rc` does.
///
/// It is duplicated only by [`crate::arena::Arena::clone_shared`], which
/// adjusts the strong count of the allocation itself.
#[derive(Debug)]
pub struct RcPtr<T> {
    pub addr: usize,
    pub meta: usize,
    pub marker: PhantomData<T>,
}

/// A handle owning one strong reference to an atomically reference-counted
/// shared allocation, as an `Arc` does.
#[derive(Debug)]
pub struct ArcPtr<T> {
    pub addr: usize,
    pub meta: usize,
    pub marker: PhantomData<T>,
}

/// A borrowed reference to a managed object: no ownership is transferred by
/// converting it to and from its raw address, and it is freely copiable.
#[derive(Debug)]
pub struct RefPtr<T> {
    pub addr: usize,
    pub meta: usize,
    pub marker: PhantomData<T>,
}

impl<T> Clone for RefPtr<T> {
    fn clone(&self) -> (r: Self)
        ensures
            r == *self,
    {
        RefPtr { addr: self.addr, meta: self.meta, marker: PhantomData }
    }
}

impl<T> Copy for RefPtr<T> {

}

/// The pinned modifier over any handle: it asserts, as a documented invariant
/// layered on top of the underlying kind, that the referenced object's address
/// never changes while owned.  Address and metadata handling are those of the
/// underlying handle.
#[derive(Debug)]
pub struct Pinned<P> {
    pub inner: P,
}

impl<T> View for BoxPtr<T> {
    type V = RawPtr;

    open spec fn view(&self) -> RawPtr {
        RawPtr { addr: self.addr, meta: self.meta }
    }
}

impl<T> View for RcPtr<T> {
    type V = RawPtr;

    open spec fn view(&self) -> RawPtr {
        RawPtr { addr: self.addr, meta: self.meta }
    }
}

impl<T> View for ArcPtr<T> {
    type V = RawPtr;

    open spec fn view(&self) -> RawPtr {
        RawPtr { addr: self.addr, meta: self.meta }
    }
}

impl<T> View for RefPtr<T> {
    type V = RawPtr;

    open spec fn view(&self) -> RawPtr {
        RawPtr { addr: self.addr, meta: self.meta }
    }
}

impl<P: View<V = RawPtr>> View for Pinned<P> {
    type V = RawPtr;

    open spec fn view(&self) -> RawPtr {
        self.inner@
    }
}

impl<T> BoxPtr<T> {
    /// Reconstructs the handle from a raw address.
    ///
    /// The caller must present an address that was produced by a matching
    /// handle-to-address conversion and has not been reconstructed since;
    /// nothing here checks that, and every later use of the handle states its
    /// own demands on the arena.
    pub fn from_raw(raw: RawPtr) -> (p: Self)
        ensures
            p@ == raw,
    {
        BoxPtr { addr: raw.addr, meta: raw.meta, marker: PhantomData }
    }

    /// Consumes the handle and returns the raw address of the owned object.
    pub fn into_raw(self) -> (r: RawPtr)
        ensures
            r == self@,
    {
        RawPtr { addr: self.addr, meta: self.meta }
    }

    /// The raw address of the owned object, without consuming the handle.
    pub fn raw(&self) -> (r: RawPtr)
        ensures
            r == self@,
    {
        RawPtr { addr: self.addr, meta: self.meta }
    }
}

impl<T> RcPtr<T> {
    /// Reconstructs the handle from a raw address; see [`BoxPtr::from_raw`]
    /// for the caller's obligation.  The strong count of the allocation is
    /// not touched: the reconstructed handle stands for the strong reference
    /// that the matching handle-to-address conversion consumed.
    pub fn from_raw(raw: RawPtr) -> (p: Self)
        ensures
            p@ == raw,
    {
        RcPtr { addr: raw.addr, meta: raw.meta, marker: PhantomData }
    }

    /// Consumes the handle and returns the raw address of the shared object.
    /// The strong count is not touched.
    pub fn into_raw(self) -> (r: RawPtr)
        ensures
            r == self@,
    {
        RawPtr { addr: self.addr, meta: self.meta }
    }

    /// The raw address of the shared object, without consuming the handle.
    pub fn raw(&self) -> (r: RawPtr)
        ensures
            r == self@,
    {
        RawPtr { addr: self.addr, meta: self.meta }
    }
}

impl<T> ArcPtr<T> {
    /// Reconstructs the handle from a raw address; see [`RcPtr::from_raw`].
    pub fn from_raw(raw: RawPtr) -> (p: Self)
        ensures
            p@ == raw,
    {
        ArcPtr { addr: raw.addr, meta: raw.meta, marker: PhantomData }
    }

    /// Consumes the handle and returns the raw address of the shared object.
    /// The strong count is not touched.
    pub fn into_raw(self) -> (r: RawPtr)
        ensures
            r == self@,
    {
        RawPtr { addr: self.addr, meta: self.meta }
    }

    /// The raw address of the shared object, without consuming the handle.
    pub fn raw(&self) -> (r: RawPtr)
        ensures
            r == self@,
    {
        RawPtr { addr: self.addr, meta: self.meta }
    }
}

impl<T> RefPtr<T> {
    /// A borrow of the object behind a raw address.  The caller must keep the
    /// owner of that address alive for as long as the borrow is used.
    pub fn from_raw(raw: RawPtr) -> (p: Self)
        ensures
            p@ == raw,
    {
        RefPtr { addr: raw.addr, meta: raw.meta, marker: PhantomData }
    }

    /// The raw address of the borrowed object.  No ownership is transferred.
    pub fn into_raw(self) -> (r: RawPtr)
        ensures
            r == self@,
    {
        RawPtr { addr: self.addr, meta: self.meta }
    }

    /// The raw address of the borrowed object, without consuming the handle.
    pub fn raw(&self) -> (r: RawPtr)
        ensures
            r == self@,
    {
        RawPtr { addr: self.addr, meta: self.meta }
    }
}

impl<P> Pinned<P> {
    /// Pins a handle.  The pin guarantee is the caller's documented invariant;
    /// address and metadata handling are unchanged.
    pub fn new(inner: P) -> (p: Self)
        ensures
            p.inner == inner,
    {
        Pinned { inner }
    }

    /// Unwraps the pinned handle.
    pub fn into_inner(self) -> (p: P)
        ensures
            p == self.inner,
    {
        self.inner
    }
}

} // verus!
