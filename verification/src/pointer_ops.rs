//! The pointer conversion contract, the tiered access-capability contracts,
//! the default policy for each supported ownership representation, and the
//! guarded clone-from-raw operation.

use core::marker::PhantomData;
use vstd::prelude::*;

use crate::arena::Arena;
use crate::arena::Slot;
use crate::arena::bump_strong;
use crate::arena::is_shared_at;
use crate::arena::is_unique_at;
use crate::arena::strong_at;
use crate::handle::ArcPtr;
use crate::handle::BoxPtr;
use crate::handle::Pinned;
use crate::handle::RawPtr;
use crate::handle::RcPtr;
use crate::handle::RefPtr;
use crate::unsafe_ref::UnsafeMut;
use crate::unsafe_ref::UnsafeRef;

verus! {

/// Trait for pointer conversion operations.
///
/// `Value` is the object type managed by a collection; `Pointer` is the
/// handle type that owns (or borrows) an instance of it.  A collection
/// accepts a `Pointer` on insertion, stores only its raw address, and hands a
/// `Pointer` back on removal.
///
/// The view of a handle is its raw address, so the two conversions are exact
/// mutual inverses: `into_raw` returns precisely the handle's address and
/// metadata, and `from_raw` returns precisely the handle with that address
/// and metadata ([`lemma_round_trip_identity`]).  Neither conversion can
/// fail, and neither touches any allocation bookkeeping.
pub trait PointerOps: Sized {
    /// Object type which is inserted into a collection.
    type Value;

    /// Handle type which owns an instance of a value.
    type Pointer: View<V = RawPtr>;

    /// Constructs an owned handle from a raw address.
    ///
    /// The caller must present an address previously returned by `into_raw`
    /// of the same representation and not reconstructed since.  That
    /// discipline is not checked here — this operation never fails — and
    /// every later use of the handle states its own demands on the arena.
    fn from_raw(&self, raw: RawPtr) -> (p: Self::Pointer)
        ensures
            p@ == raw,
    ;

    /// Consumes the owned handle and returns the raw address of the owned
    /// object.
    fn into_raw(&self, ptr: Self::Pointer) -> (r: RawPtr)
        ensures
            r == ptr@,
    ;

    /// A handle is nothing beyond its raw address: handles with equal views
    /// are the same handle.  This is what makes the conversion round trip an
    /// identity on handles, not merely on addresses.
    proof fn lemma_view_injective(p1: Self::Pointer, p2: Self::Pointer)
        requires
            p1@ == p2@,
        ensures
            p1 == p2,
    ;
}

/// Round-trip identity.  `into_raw` returns exactly the view of the handle
/// it consumed, and `from_raw` returns exactly the handle whose view is the
/// given address; so for every representation, reconstructing a converted
/// handle yields the original handle back — same address, metadata preserved
/// bit-for-bit, same object.
pub proof fn lemma_round_trip_identity<O: PointerOps>(p: O::Pointer, reconstructed: O::Pointer)
    requires
        reconstructed@ == p@,
    ensures
        reconstructed == p,
{
    O::lemma_view_injective(reconstructed, p);
}

/// Trait for conditional exclusive access to the object managed by a
/// collection.
pub trait TryExclusivePointerOps: PointerOps {
    /// The arena states and addresses the capability may be queried on: a
    /// live allocation of this representation.
    spec fn mut_target(&self, slots: Seq<Slot<Self::Value>>, raw: RawPtr) -> bool;

    /// Whether the object behind `raw` is exclusively owned at this instant.
    spec fn exclusively_owned(&self, slots: Seq<Slot<Self::Value>>, raw: RawPtr) -> bool;

    /// Try to get unique access to the value: a present mutable projection
    /// exactly when the caller is the sole owner at this instant, and the
    /// projection is the queried address itself.  The query never blocks and
    /// never changes any bookkeeping.
    fn try_get_mut(&self, arena: &Arena<Self::Value>, raw: RawPtr) -> (r: Option<RawPtr>)
        requires
            self.mut_target(arena@, raw),
        ensures
            r is Some <==> self.exclusively_owned(arena@, raw),
            r is Some ==> r.unwrap() == raw,
    ;
}

/// Trait for unconditional exclusive access to the object managed by a
/// collection.
///
/// Implementing this trait automatically implements
/// [`TryExclusivePointerOps`], with a query that always returns a present
/// projection.
///
/// The default implementation of [`get_mut`](Self::get_mut) simply hands the
/// already-known-unique address back as the mutable projection — sound
/// because for these representations uniqueness is structural, not checked
/// at run time.
pub trait ExclusivePointerOps: TryExclusivePointerOps {
    /// The arena states and addresses statically known to be uniquely owned
    /// by this representation.
    spec fn unique_target(&self, slots: Seq<Slot<Self::Value>>, raw: RawPtr) -> bool;

    /// Get unique access to the value.  This function always succeeds; to
    /// allow exclusive access conditionally, implement
    /// [`TryExclusivePointerOps`] instead.
    fn get_mut(&self, arena: &Arena<Self::Value>, raw: RawPtr) -> (r: RawPtr)
        requires
            self.mut_target(arena@, raw),
        ensures
            r == raw,
    {
        raw
    }
}

impl<E: ExclusivePointerOps> TryExclusivePointerOps for E {
    open spec fn mut_target(&self, slots: Seq<Slot<Self::Value>>, raw: RawPtr) -> bool {
        self.unique_target(slots, raw)
    }

    open spec fn exclusively_owned(&self, slots: Seq<Slot<Self::Value>>, raw: RawPtr) -> bool {
        true
    }

    fn try_get_mut(&self, arena: &Arena<Self::Value>, raw: RawPtr) -> (r: Option<RawPtr>) {
        Some(self.get_mut(arena, raw))
    }
}

/// The default policy object: a stateless, freely copiable dispatcher bound
/// to exactly one handle representation.  It holds no data, can be
/// constructed on demand, and every instance for the same representation
/// behaves identically ([`lemma_policies_identical`]).
#[derive(Debug)]
pub struct DefaultPointerOps<Pointer>(PhantomData<Pointer>);

impl<Pointer> DefaultPointerOps<Pointer> {
    /// The one value of this policy type.
    pub closed spec fn spec_new() -> DefaultPointerOps<Pointer> {
        DefaultPointerOps(PhantomData)
    }

    /// Constructs an instance of `DefaultPointerOps`.
    pub fn new() -> (r: DefaultPointerOps<Pointer>)
        ensures
            r == Self::spec_new(),
    {
        DefaultPointerOps(PhantomData)
    }
}

impl<Pointer> Clone for DefaultPointerOps<Pointer> {
    fn clone(&self) -> (r: Self)
        ensures
            r == *self,
    {
        DefaultPointerOps(PhantomData)
    }
}

impl<Pointer> Copy for DefaultPointerOps<Pointer> {

}

impl<Pointer> Default for DefaultPointerOps<Pointer> {
    fn default() -> (r: Self)
        ensures
            r == Self::spec_new(),
    {
        DefaultPointerOps(PhantomData)
    }
}

/// Referential transparency of policy objects: any two policies for the same
/// representation are the same value, so they behave identically.
pub proof fn lemma_policies_identical<Pointer>(
    a: DefaultPointerOps<Pointer>,
    b: DefaultPointerOps<Pointer>,
)
    ensures
        a == b,
{
}

impl<T> PointerOps for DefaultPointerOps<BoxPtr<T>> {
    type Value = T;

    type Pointer = BoxPtr<T>;

    fn from_raw(&self, raw: RawPtr) -> (p: BoxPtr<T>) {
        BoxPtr::from_raw(raw)
    }

    fn into_raw(&self, ptr: BoxPtr<T>) -> (r: RawPtr) {
        ptr.into_raw()
    }

    proof fn lemma_view_injective(p1: BoxPtr<T>, p2: BoxPtr<T>) {
    }
}

impl<T> ExclusivePointerOps for DefaultPointerOps<BoxPtr<T>> {
    open spec fn unique_target(&self, slots: Seq<Slot<T>>, raw: RawPtr) -> bool {
        is_unique_at(slots, raw)
    }
}

impl<T> PointerOps for DefaultPointerOps<RcPtr<T>> {
    type Value = T;

    type Pointer = RcPtr<T>;

    fn from_raw(&self, raw: RawPtr) -> (p: RcPtr<T>) {
        RcPtr::from_raw(raw)
    }

    fn into_raw(&self, ptr: RcPtr<T>) -> (r: RawPtr) {
        ptr.into_raw()
    }

    proof fn lemma_view_injective(p1: RcPtr<T>, p2: RcPtr<T>) {
    }
}

impl<T> TryExclusivePointerOps for DefaultPointerOps<RcPtr<T>> {
    open spec fn mut_target(&self, slots: Seq<Slot<T>>, raw: RawPtr) -> bool {
        is_shared_at(slots, raw, false)
    }

    open spec fn exclusively_owned(&self, slots: Seq<Slot<T>>, raw: RawPtr) -> bool {
        strong_at(slots, raw) == 1
    }

    fn try_get_mut(&self, arena: &Arena<T>, raw: RawPtr) -> (r: Option<RawPtr>) {
        if arena.strong_count(raw) == 1 {
            Some(raw)
        } else {
            None
        }
    }
}

impl<T> PointerOps for DefaultPointerOps<ArcPtr<T>> {
    type Value = T;

    type Pointer = ArcPtr<T>;

    fn from_raw(&self, raw: RawPtr) -> (p: ArcPtr<T>) {
        ArcPtr::from_raw(raw)
    }

    fn into_raw(&self, ptr: ArcPtr<T>) -> (r: RawPtr) {
        ptr.into_raw()
    }

    proof fn lemma_view_injective(p1: ArcPtr<T>, p2: ArcPtr<T>) {
    }
}

impl<T> TryExclusivePointerOps for DefaultPointerOps<ArcPtr<T>> {
    open spec fn mut_target(&self, slots: Seq<Slot<T>>, raw: RawPtr) -> bool {
        is_shared_at(slots, raw, true)
    }

    open spec fn exclusively_owned(&self, slots: Seq<Slot<T>>, raw: RawPtr) -> bool {
        strong_at(slots, raw) == 1
    }

    fn try_get_mut(&self, arena: &Arena<T>, raw: RawPtr) -> (r: Option<RawPtr>) {
        if arena.strong_count(raw) == 1 {
            Some(raw)
        } else {
            None
        }
    }
}

impl<T> PointerOps for DefaultPointerOps<RefPtr<T>> {
    type Value = T;

    type Pointer = RefPtr<T>;

    fn from_raw(&self, raw: RawPtr) -> (p: RefPtr<T>) {
        RefPtr::from_raw(raw)
    }

    fn into_raw(&self, ptr: RefPtr<T>) -> (r: RawPtr) {
        ptr.into_raw()
    }

    proof fn lemma_view_injective(p1: RefPtr<T>, p2: RefPtr<T>) {
    }
}

impl<T> PointerOps for DefaultPointerOps<UnsafeRef<T>> {
    type Value = T;

    type Pointer = UnsafeRef<T>;

    fn from_raw(&self, raw: RawPtr) -> (p: UnsafeRef<T>) {
        UnsafeRef::from_raw(raw)
    }

    fn into_raw(&self, ptr: UnsafeRef<T>) -> (r: RawPtr) {
        UnsafeRef::into_raw(ptr)
    }

    proof fn lemma_view_injective(p1: UnsafeRef<T>, p2: UnsafeRef<T>) {
    }
}

impl<T> PointerOps for DefaultPointerOps<UnsafeMut<T>> {
    type Value = T;

    type Pointer = UnsafeMut<T>;

    fn from_raw(&self, raw: RawPtr) -> (p: UnsafeMut<T>) {
        UnsafeMut::from_raw(raw)
    }

    fn into_raw(&self, ptr: UnsafeMut<T>) -> (r: RawPtr) {
        UnsafeMut::into_raw(ptr)
    }

    proof fn lemma_view_injective(p1: UnsafeMut<T>, p2: UnsafeMut<T>) {
    }
}

impl<T> ExclusivePointerOps for DefaultPointerOps<UnsafeMut<T>> {
    open spec fn unique_target(&self, slots: Seq<Slot<T>>, raw: RawPtr) -> bool {
        is_unique_at(slots, raw)
    }
}

impl<T> PointerOps for DefaultPointerOps<Pinned<BoxPtr<T>>> {
    type Value = T;

    type Pointer = Pinned<BoxPtr<T>>;

    fn from_raw(&self, raw: RawPtr) -> (p: Pinned<BoxPtr<T>>) {
        Pinned::new(BoxPtr::from_raw(raw))
    }

    fn into_raw(&self, ptr: Pinned<BoxPtr<T>>) -> (r: RawPtr) {
        ptr.into_inner().into_raw()
    }

    proof fn lemma_view_injective(p1: Pinned<BoxPtr<T>>, p2: Pinned<BoxPtr<T>>) {
        <DefaultPointerOps<BoxPtr<T>> as PointerOps>::lemma_view_injective(p1.inner, p2.inner);
    }
}

impl<T> ExclusivePointerOps for DefaultPointerOps<Pinned<BoxPtr<T>>> {
    open spec fn unique_target(&self, slots: Seq<Slot<T>>, raw: RawPtr) -> bool {
        is_unique_at(slots, raw)
    }
}

impl<T> PointerOps for DefaultPointerOps<Pinned<RcPtr<T>>> {
    type Value = T;

    type Pointer = Pinned<RcPtr<T>>;

    fn from_raw(&self, raw: RawPtr) -> (p: Pinned<RcPtr<T>>) {
        Pinned::new(RcPtr::from_raw(raw))
    }

    fn into_raw(&self, ptr: Pinned<RcPtr<T>>) -> (r: RawPtr) {
        ptr.into_inner().into_raw()
    }

    proof fn lemma_view_injective(p1: Pinned<RcPtr<T>>, p2: Pinned<RcPtr<T>>) {
        <DefaultPointerOps<RcPtr<T>> as PointerOps>::lemma_view_injective(p1.inner, p2.inner);
    }
}

impl<T> TryExclusivePointerOps for DefaultPointerOps<Pinned<RcPtr<T>>> {
    open spec fn mut_target(&self, slots: Seq<Slot<T>>, raw: RawPtr) -> bool {
        is_shared_at(slots, raw, false)
    }

    open spec fn exclusively_owned(&self, slots: Seq<Slot<T>>, raw: RawPtr) -> bool {
        strong_at(slots, raw) == 1
    }

    fn try_get_mut(&self, arena: &Arena<T>, raw: RawPtr) -> (r: Option<RawPtr>) {
        if arena.strong_count(raw) == 1 {
            Some(raw)
        } else {
            None
        }
    }
}

impl<T> PointerOps for DefaultPointerOps<Pinned<ArcPtr<T>>> {
    type Value = T;

    type Pointer = Pinned<ArcPtr<T>>;

    fn from_raw(&self, raw: RawPtr) -> (p: Pinned<ArcPtr<T>>) {
        Pinned::new(ArcPtr::from_raw(raw))
    }

    fn into_raw(&self, ptr: Pinned<ArcPtr<T>>) -> (r: RawPtr) {
        ptr.into_inner().into_raw()
    }

    proof fn lemma_view_injective(p1: Pinned<ArcPtr<T>>, p2: Pinned<ArcPtr<T>>) {
        <DefaultPointerOps<ArcPtr<T>> as PointerOps>::lemma_view_injective(p1.inner, p2.inner);
    }
}

impl<T> TryExclusivePointerOps for DefaultPointerOps<Pinned<ArcPtr<T>>> {
    open spec fn mut_target(&self, slots: Seq<Slot<T>>, raw: RawPtr) -> bool {
        is_shared_at(slots, raw, true)
    }

    open spec fn exclusively_owned(&self, slots: Seq<Slot<T>>, raw: RawPtr) -> bool {
        strong_at(slots, raw) == 1
    }

    fn try_get_mut(&self, arena: &Arena<T>, raw: RawPtr) -> (r: Option<RawPtr>) {
        if arena.strong_count(raw) == 1 {
            Some(raw)
        } else {
            None
        }
    }
}

impl<T> PointerOps for DefaultPointerOps<Pinned<RefPtr<T>>> {
    type Value = T;

    type Pointer = Pinned<RefPtr<T>>;

    fn from_raw(&self, raw: RawPtr) -> (p: Pinned<RefPtr<T>>) {
        Pinned::new(RefPtr::from_raw(raw))
    }

    fn into_raw(&self, ptr: Pinned<RefPtr<T>>) -> (r: RawPtr) {
        ptr.into_inner().into_raw()
    }

    proof fn lemma_view_injective(p1: Pinned<RefPtr<T>>, p2: Pinned<RefPtr<T>>) {
        <DefaultPointerOps<RefPtr<T>> as PointerOps>::lemma_view_injective(p1.inner, p2.inner);
    }
}

impl<T> PointerOps for DefaultPointerOps<Pinned<UnsafeRef<T>>> {
    type Value = T;

    type Pointer = Pinned<UnsafeRef<T>>;

    fn from_raw(&self, raw: RawPtr) -> (p: Pinned<UnsafeRef<T>>) {
        Pinned::new(UnsafeRef::from_raw(raw))
    }

    fn into_raw(&self, ptr: Pinned<UnsafeRef<T>>) -> (r: RawPtr) {
        UnsafeRef::into_raw(ptr.into_inner())
    }

    proof fn lemma_view_injective(p1: Pinned<UnsafeRef<T>>, p2: Pinned<UnsafeRef<T>>) {
        <DefaultPointerOps<UnsafeRef<T>> as PointerOps>::lemma_view_injective(p1.inner, p2.inner);
    }
}

impl<T> PointerOps for DefaultPointerOps<Pinned<UnsafeMut<T>>> {
    type Value = T;

    type Pointer = Pinned<UnsafeMut<T>>;

    fn from_raw(&self, raw: RawPtr) -> (p: Pinned<UnsafeMut<T>>) {
        Pinned::new(UnsafeMut::from_raw(raw))
    }

    fn into_raw(&self, ptr: Pinned<UnsafeMut<T>>) -> (r: RawPtr) {
        UnsafeMut::into_raw(ptr.into_inner())
    }

    proof fn lemma_view_injective(p1: Pinned<UnsafeMut<T>>, p2: Pinned<UnsafeMut<T>>) {
        <DefaultPointerOps<UnsafeMut<T>> as PointerOps>::lemma_view_injective(p1.inner, p2.inner);
    }
}

impl<T> ExclusivePointerOps for DefaultPointerOps<Pinned<UnsafeMut<T>>> {
    open spec fn unique_target(&self, slots: Seq<Slot<T>>, raw: RawPtr) -> bool {
        is_unique_at(slots, raw)
    }
}

/// Trait for representations whose handles support native duplication: a
/// reference-counted kind duplicates by growing the allocation's own strong
/// count, an unchecked kind by copying the address.
pub trait ClonePointerOps: PointerOps {
    /// The arena states and addresses on which duplication may be attempted.
    spec fn clone_target(&self, slots: Seq<Slot<Self::Value>>, raw: RawPtr) -> bool;

    /// Whether the duplication step can complete now; a counted
    /// representation needs headroom in its strong count.
    spec fn clone_possible(&self, slots: Seq<Slot<Self::Value>>, raw: RawPtr) -> bool;

    /// The arena after a completed duplication.
    spec fn cloned_slots(&self, slots: Seq<Slot<Self::Value>>, raw: RawPtr) -> Seq<
        Slot<Self::Value>,
    >;

    /// Attempts the representation's native duplication of a live handle.
    /// When the duplication step cannot complete, the attempt terminates
    /// abnormally from the handle's point of view: nothing is returned and
    /// the arena — every count and every value — is exactly as it was.
    fn try_clone_pointer(&self, arena: &mut Arena<Self::Value>, ptr: &Self::Pointer) -> (r: Option<
        Self::Pointer,
    >)
        requires
            self.clone_target(old(arena)@, ptr@),
        ensures
            self.clone_possible(old(arena)@, ptr@) ==> r is Some,
            r is Some ==> final(arena)@ == self.cloned_slots(old(arena)@, ptr@),
            r is Some ==> r.unwrap()@ == ptr@,
            r is None ==> final(arena)@ == old(arena)@,
    ;

    /// Duplicates a live handle with the representation's native
    /// duplication.  Always succeeds, by the automatic derivation from
    /// [`try_clone_pointer`](Self::try_clone_pointer), since the caller has
    /// established that the duplication step can complete.
    fn clone_pointer(&self, arena: &mut Arena<Self::Value>, ptr: &Self::Pointer) -> (r:
        Self::Pointer)
        requires
            self.clone_target(old(arena)@, ptr@),
            self.clone_possible(old(arena)@, ptr@),
        ensures
            final(arena)@ == self.cloned_slots(old(arena)@, ptr@),
            r@ == ptr@,
    {
        let r = self.try_clone_pointer(arena, ptr);
        match r {
            Some(p) => p,
            None => vstd::pervasive::unreached(),
        }
    }
}

impl<T> ClonePointerOps for DefaultPointerOps<RcPtr<T>> {
    open spec fn clone_target(&self, slots: Seq<Slot<T>>, raw: RawPtr) -> bool {
        is_shared_at(slots, raw, false)
    }

    open spec fn clone_possible(&self, slots: Seq<Slot<T>>, raw: RawPtr) -> bool {
        strong_at(slots, raw) < usize::MAX
    }

    open spec fn cloned_slots(&self, slots: Seq<Slot<T>>, raw: RawPtr) -> Seq<Slot<T>> {
        bump_strong(slots, raw)
    }

    fn try_clone_pointer(&self, arena: &mut Arena<T>, ptr: &RcPtr<T>) -> (r: Option<RcPtr<T>>) {
        if arena.strong_count(ptr.raw()) < usize::MAX {
            Some(arena.clone_shared(ptr))
        } else {
            None
        }
    }
}

impl<T> ClonePointerOps for DefaultPointerOps<ArcPtr<T>> {
    open spec fn clone_target(&self, slots: Seq<Slot<T>>, raw: RawPtr) -> bool {
        is_shared_at(slots, raw, true)
    }

    open spec fn clone_possible(&self, slots: Seq<Slot<T>>, raw: RawPtr) -> bool {
        strong_at(slots, raw) < usize::MAX
    }

    open spec fn cloned_slots(&self, slots: Seq<Slot<T>>, raw: RawPtr) -> Seq<Slot<T>> {
        bump_strong(slots, raw)
    }

    fn try_clone_pointer(&self, arena: &mut Arena<T>, ptr: &ArcPtr<T>) -> (r: Option<ArcPtr<T>>) {
        if arena.strong_count(ptr.raw()) < usize::MAX {
            Some(arena.clone_shared_atomic(ptr))
        } else {
            None
        }
    }
}

impl<T> ClonePointerOps for DefaultPointerOps<Pinned<RcPtr<T>>> {
    open spec fn clone_target(&self, slots: Seq<Slot<T>>, raw: RawPtr) -> bool {
        is_shared_at(slots, raw, false)
    }

    open spec fn clone_possible(&self, slots: Seq<Slot<T>>, raw: RawPtr) -> bool {
        strong_at(slots, raw) < usize::MAX
    }

    open spec fn cloned_slots(&self, slots: Seq<Slot<T>>, raw: RawPtr) -> Seq<Slot<T>> {
        bump_strong(slots, raw)
    }

    fn try_clone_pointer(&self, arena: &mut Arena<T>, ptr: &Pinned<RcPtr<T>>) -> (r: Option<
        Pinned<RcPtr<T>>,
    >) {
        proof {
            assert(ptr@ == ptr.inner@);
        }
        if arena.strong_count(ptr.inner.raw()) < usize::MAX {
            Some(Pinned::new(arena.clone_shared(&ptr.inner)))
        } else {
            None
        }
    }
}

impl<T> ClonePointerOps for DefaultPointerOps<Pinned<ArcPtr<T>>> {
    open spec fn clone_target(&self, slots: Seq<Slot<T>>, raw: RawPtr) -> bool {
        is_shared_at(slots, raw, true)
    }

    open spec fn clone_possible(&self, slots: Seq<Slot<T>>, raw: RawPtr) -> bool {
        strong_at(slots, raw) < usize::MAX
    }

    open spec fn cloned_slots(&self, slots: Seq<Slot<T>>, raw: RawPtr) -> Seq<Slot<T>> {
        bump_strong(slots, raw)
    }

    fn try_clone_pointer(&self, arena: &mut Arena<T>, ptr: &Pinned<ArcPtr<T>>) -> (r: Option<
        Pinned<ArcPtr<T>>,
    >) {
        proof {
            assert(ptr@ == ptr.inner@);
        }
        if arena.strong_count(ptr.inner.raw()) < usize::MAX {
            Some(Pinned::new(arena.clone_shared_atomic(&ptr.inner)))
        } else {
            None
        }
    }
}

impl<T> ClonePointerOps for DefaultPointerOps<UnsafeRef<T>> {
    open spec fn clone_target(&self, slots: Seq<Slot<T>>, raw: RawPtr) -> bool {
        true
    }

    open spec fn clone_possible(&self, slots: Seq<Slot<T>>, raw: RawPtr) -> bool {
        true
    }

    open spec fn cloned_slots(&self, slots: Seq<Slot<T>>, raw: RawPtr) -> Seq<Slot<T>> {
        slots
    }

    fn try_clone_pointer(&self, arena: &mut Arena<T>, ptr: &UnsafeRef<T>) -> (r: Option<
        UnsafeRef<T>,
    >) {
        Some(ptr.clone())
    }
}

/// Clones an owning handle for `O`'s representation directly from a raw
/// address stored in a collection slot, without disturbing that slot.
///
/// The address is only safe to present if it is known to be managed by the
/// provided `pointer_ops` representation, which is what `clone_target`
/// states.
///
/// A temporary handle is reconstructed from the address, duplicated with the
/// representation's native duplication, and then converted back to its raw
/// form so that it is never destructed.  The net effect is exactly one new
/// strong reference: the stored slot's address and bookkeeping end up
/// exactly as if a plain duplication had been invoked on a live handle.
pub fn clone_pointer_from_raw<O: ClonePointerOps>(
    pointer_ops: &O,
    arena: &mut Arena<O::Value>,
    raw: RawPtr,
) -> (r: O::Pointer)
    requires
        pointer_ops.clone_target(old(arena)@, raw),
        pointer_ops.clone_possible(old(arena)@, raw),
    ensures
        final(arena)@ == pointer_ops.cloned_slots(old(arena)@, raw),
        r@ == raw,
{
    let temp = pointer_ops.from_raw(raw);
    let r = pointer_ops.clone_pointer(arena, &temp);
    // The temporary handle returns to its raw form instead of being
    // destructed, so the stored slot keeps the strong reference it stands
    // for.
    let _ = pointer_ops.into_raw(temp);
    r
}

/// The guarded form of [`clone_pointer_from_raw`] for a duplication step
/// that may terminate abnormally (a strong count without headroom).  The
/// release of the temporary handle — back to its raw form, never destructed
/// — runs on every exit path; so when the duplication fails, nothing leaks
/// and nothing is reclaimed: every count and every slot of the arena is
/// exactly as before the attempt, and the stored address is still
/// resolvable.
pub fn try_clone_pointer_from_raw<O: ClonePointerOps>(
    pointer_ops: &O,
    arena: &mut Arena<O::Value>,
    raw: RawPtr,
) -> (r: Option<O::Pointer>)
    requires
        pointer_ops.clone_target(old(arena)@, raw),
    ensures
        pointer_ops.clone_possible(old(arena)@, raw) ==> r is Some,
        r is Some ==> final(arena)@ == pointer_ops.cloned_slots(old(arena)@, raw),
        r is Some ==> r.unwrap()@ == raw,
        r is None ==> final(arena)@ == old(arena)@,
{
    let temp = pointer_ops.from_raw(raw);
    let r = pointer_ops.try_clone_pointer(arena, &temp);
    // The release step runs whether or not the duplication completed.
    let _ = pointer_ops.into_raw(temp);
    r
}

} // verus!
