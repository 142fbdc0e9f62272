//! The allocation model: an arena of slots, one per managed allocation.
//!
//! A raw address ([`crate::handle::RawPtr`]) indexes a slot.  Each live slot
//! records the managed value, the metadata half of the address it was
//! allocated under, and its ownership bookkeeping: nothing for a
//! uniquely-owned allocation, a strong count (atomic or not) for a shared
//! one.  The arena is the single place where allocation bookkeeping changes;
//! converting handles to and from raw addresses never touches it.

use vstd::prelude::*;

use crate::handle::ArcPtr;
use crate::handle::BoxPtr;
use crate::handle::RawPtr;
use crate::handle::RcPtr;

verus! {

/// One address of the arena.
pub enum Slot<T> {
    /// No allocation lives at this address: either none was ever made here,
    /// or the one that was has been reclaimed.
    Free,
    /// A uniquely-owned allocation, as behind a `Box`.
    Unique { value: T, meta: usize },
    /// A reference-counted shared allocation; `atomic` records whether the
    /// count is the atomically-maintained kind.
    Shared { value: T, strong: usize, atomic: bool, meta: usize },
}

/// A live allocation stands at `raw`: the slot is occupied and was allocated
/// under exactly the metadata that `raw` carries.
pub open spec fn is_live_at<T>(slots: Seq<Slot<T>>, raw: RawPtr) -> bool {
    &&& raw.addr < slots.len()
    &&& match slots[raw.addr as int] {
        Slot::Free => false,
        Slot::Unique { meta, .. } => meta == raw.meta,
        Slot::Shared { meta, .. } => meta == raw.meta,
    }
}

/// A uniquely-owned allocation stands at `raw`.
pub open spec fn is_unique_at<T>(slots: Seq<Slot<T>>, raw: RawPtr) -> bool {
    &&& raw.addr < slots.len()
    &&& match slots[raw.addr as int] {
        Slot::Unique { meta, .. } => meta == raw.meta,
        _ => false,
    }
}

/// A reference-counted allocation of the given atomicity stands at `raw`,
/// with at least one strong reference outstanding.
pub open spec fn is_shared_at<T>(slots: Seq<Slot<T>>, raw: RawPtr, atomic: bool) -> bool {
    &&& raw.addr < slots.len()
    &&& match slots[raw.addr as int] {
        Slot::Shared { strong, atomic: is_atomic, meta, .. } => {
            meta == raw.meta && is_atomic == atomic && strong >= 1
        },
        _ => false,
    }
}

/// A reference-counted allocation of either atomicity stands at `raw`.
pub open spec fn is_counted_at<T>(slots: Seq<Slot<T>>, raw: RawPtr) -> bool {
    is_shared_at(slots, raw, false) || is_shared_at(slots, raw, true)
}

/// The managed value at `raw`.
pub open spec fn value_at<T>(slots: Seq<Slot<T>>, raw: RawPtr) -> T
    recommends
        is_live_at(slots, raw),
{
    match slots[raw.addr as int] {
        Slot::Unique { value, .. } => value,
        Slot::Shared { value, .. } => value,
        Slot::Free => arbitrary(),
    }
}

/// The strong count of the reference-counted allocation at `raw`.
pub open spec fn strong_at<T>(slots: Seq<Slot<T>>, raw: RawPtr) -> usize
    recommends
        is_counted_at(slots, raw),
{
    match slots[raw.addr as int] {
        Slot::Shared { strong, .. } => strong,
        _ => arbitrary(),
    }
}

/// Writing through a mutable projection of `raw` is sound: the allocation is
/// either uniquely owned, or shared with exactly one strong reference.
pub open spec fn writable_at<T>(slots: Seq<Slot<T>>, raw: RawPtr) -> bool {
    is_unique_at(slots, raw) || (is_counted_at(slots, raw) && strong_at(slots, raw) == 1)
}

/// The slot, with its value replaced and its bookkeeping kept.
pub open spec fn slot_with_value<T>(s: Slot<T>, value: T) -> Slot<T> {
    match s {
        Slot::Free => Slot::Free,
        Slot::Unique { meta, .. } => Slot::Unique { value, meta },
        Slot::Shared { strong, atomic, meta, .. } => Slot::Shared { value, strong, atomic, meta },
    }
}

/// The arena after the strong count at `raw` has grown by one; every other
/// slot, and the value and metadata of this one, are untouched.
pub open spec fn bump_strong<T>(slots: Seq<Slot<T>>, raw: RawPtr) -> Seq<Slot<T>> {
    match slots[raw.addr as int] {
        Slot::Shared { value, strong, atomic, meta } => slots.update(
            raw.addr as int,
            Slot::Shared { value, strong: (strong + 1) as usize, atomic, meta },
        ),
        _ => slots,
    }
}

/// The arena after one strong reference at `raw` has been given up: the count
/// drops by one, and the slot is reclaimed when the last reference goes.
pub open spec fn drop_strong<T>(slots: Seq<Slot<T>>, raw: RawPtr) -> Seq<Slot<T>> {
    match slots[raw.addr as int] {
        Slot::Shared { value, strong, atomic, meta } => {
            if strong > 1 {
                slots.update(
                    raw.addr as int,
                    Slot::Shared { value, strong: (strong - 1) as usize, atomic, meta },
                )
            } else {
                slots.update(raw.addr as int, Slot::Free)
            }
        },
        _ => slots,
    }
}

/// The arena: every managed allocation, addressed by slot index.
pub struct Arena<T> {
    slots: Vec<Slot<T>>,
}

impl<T> View for Arena<T> {
    type V = Seq<Slot<T>>;

    closed spec fn view(&self) -> Seq<Slot<T>> {
        self.slots@
    }
}

impl<T> Arena<T> {
    /// An arena with no allocations.
    pub fn new() -> (a: Arena<T>)
        ensures
            a@ == Seq::<Slot<T>>::empty(),
    {
        Arena { slots: Vec::new() }
    }

    /// Allocates a uniquely-owned slot, as `Box::new` does, and returns the
    /// owning handle.  `meta` is the metadata half of the new allocation's
    /// address: 0 for a thin referent.
    pub fn alloc_unique(&mut self, value: T, meta: usize) -> (p: BoxPtr<T>)
        ensures
            final(self)@ == old(self)@.push(Slot::Unique { value, meta }),
            p@.addr == old(self)@.len(),
            p@.meta == meta,
    {
        let addr = self.slots.len();
        self.slots.push(Slot::Unique { value, meta });
        BoxPtr::from_raw(RawPtr { addr, meta })
    }

    /// Allocates a non-atomically reference-counted slot with one strong
    /// reference, as `Rc::new` does, and returns the owning handle.
    pub fn alloc_shared(&mut self, value: T, meta: usize) -> (p: RcPtr<T>)
        ensures
            final(self)@ == old(self)@.push(
                Slot::Shared { value, strong: 1, atomic: false, meta },
            ),
            p@.addr == old(self)@.len(),
            p@.meta == meta,
    {
        let addr = self.slots.len();
        self.slots.push(Slot::Shared { value, strong: 1, atomic: false, meta });
        RcPtr::from_raw(RawPtr { addr, meta })
    }

    /// Allocates an atomically reference-counted slot with one strong
    /// reference, as `Arc::new` does, and returns the owning handle.
    pub fn alloc_shared_atomic(&mut self, value: T, meta: usize) -> (p: ArcPtr<T>)
        ensures
            final(self)@ == old(self)@.push(
                Slot::Shared { value, strong: 1, atomic: true, meta },
            ),
            p@.addr == old(self)@.len(),
            p@.meta == meta,
    {
        let addr = self.slots.len();
        self.slots.push(Slot::Shared { value, strong: 1, atomic: true, meta });
        ArcPtr::from_raw(RawPtr { addr, meta })
    }

    /// Allocates a non-atomically reference-counted slot whose count already
    /// stands at `strong`: the state of an allocation whose other strong
    /// references are held elsewhere, for instance as raw addresses in a
    /// collection's link fields.  The returned handle stands for one of them.
    pub fn alloc_shared_with_count(&mut self, value: T, meta: usize, strong: usize) -> (p: RcPtr<
        T,
    >)
        requires
            strong >= 1,
        ensures
            final(self)@ == old(self)@.push(
                Slot::Shared { value, strong, atomic: false, meta },
            ),
            p@.addr == old(self)@.len(),
            p@.meta == meta,
    {
        let addr = self.slots.len();
        self.slots.push(Slot::Shared { value, strong, atomic: false, meta });
        RcPtr::from_raw(RawPtr { addr, meta })
    }

    /// A shared projection of the value at a live address.
    pub fn read(&self, raw: RawPtr) -> (r: &T)
        requires
            is_live_at(self@, raw),
        ensures
            *r == value_at(self@, raw),
    {
        match &self.slots[raw.addr] {
            Slot::Unique { value, .. } => value,
            Slot::Shared { value, .. } => value,
            Slot::Free => vstd::pervasive::unreached(),
        }
    }

    /// Writes the value behind a mutable projection.  Sound only while the
    /// caller holds exclusive access, which is what `writable_at` states; the
    /// bookkeeping of the slot is untouched.
    pub fn write(&mut self, raw: RawPtr, value: T)
        requires
            writable_at(old(self)@, raw),
        ensures
            final(self)@ == old(self)@.update(
                raw.addr as int,
                slot_with_value(old(self)@[raw.addr as int], value),
            ),
    {
        let addr = raw.addr;
        let slot = self.slots.remove(addr);
        match slot {
            Slot::Unique { meta, .. } => {
                self.slots.insert(addr, Slot::Unique { value, meta });
            },
            Slot::Shared { strong, atomic, meta, .. } => {
                self.slots.insert(addr, Slot::Shared { value, strong, atomic, meta });
            },
            Slot::Free => vstd::pervasive::unreached(),
        }
        proof {
            assert(self@ =~= old(self)@.update(
                addr as int,
                slot_with_value(old(self)@[addr as int], value),
            ));
        }
    }

    /// Consumes a unique handle and reclaims its allocation, handing the
    /// managed value back, as dropping or unwrapping a `Box` does.
    pub fn take_unique(&mut self, p: BoxPtr<T>) -> (value: T)
        requires
            is_unique_at(old(self)@, p@),
        ensures
            value == value_at(old(self)@, p@),
            final(self)@ == old(self)@.update(p@.addr as int, Slot::Free),
    {
        let addr = p.addr;
        let slot = self.slots.remove(addr);
        self.slots.insert(addr, Slot::Free);
        proof {
            assert(self@ =~= old(self)@.update(addr as int, Slot::Free));
        }
        match slot {
            Slot::Unique { value, .. } => value,
            _ => vstd::pervasive::unreached(),
        }
    }

    /// Duplicates a non-atomic shared handle, as `Rc::clone` does: the strong
    /// count of the allocation itself grows by one, and nothing else moves.
    pub fn clone_shared(&mut self, p: &RcPtr<T>) -> (r: RcPtr<T>)
        requires
            is_shared_at(old(self)@, p@, false),
            strong_at(old(self)@, p@) < usize::MAX,
        ensures
            final(self)@ == bump_strong(old(self)@, p@),
            r@ == p@,
    {
        let addr = p.addr;
        let slot = self.slots.remove(addr);
        match slot {
            Slot::Shared { value, strong, atomic, meta } => {
                self.slots.insert(addr, Slot::Shared { value, strong: strong + 1, atomic, meta });
                proof {
                    assert(self@ =~= bump_strong(old(self)@, p@));
                }
                RcPtr::from_raw(p.raw())
            },
            _ => vstd::pervasive::unreached(),
        }
    }

    /// Duplicates an atomic shared handle, as `Arc::clone` does, with the
    /// representation's own atomic count adjustment.
    pub fn clone_shared_atomic(&mut self, p: &ArcPtr<T>) -> (r: ArcPtr<T>)
        requires
            is_shared_at(old(self)@, p@, true),
            strong_at(old(self)@, p@) < usize::MAX,
        ensures
            final(self)@ == bump_strong(old(self)@, p@),
            r@ == p@,
    {
        let addr = p.addr;
        let slot = self.slots.remove(addr);
        match slot {
            Slot::Shared { value, strong, atomic, meta } => {
                self.slots.insert(addr, Slot::Shared { value, strong: strong + 1, atomic, meta });
                proof {
                    assert(self@ =~= bump_strong(old(self)@, p@));
                }
                ArcPtr::from_raw(p.raw())
            },
            _ => vstd::pervasive::unreached(),
        }
    }

    /// Gives up one strong reference of a non-atomic shared allocation, as
    /// dropping an `Rc` does.  When the last reference goes, the slot is
    /// reclaimed and the managed value handed back.
    pub fn drop_shared(&mut self, p: RcPtr<T>) -> (r: Option<T>)
        requires
            is_shared_at(old(self)@, p@, false),
        ensures
            final(self)@ == drop_strong(old(self)@, p@),
            r is Some <==> strong_at(old(self)@, p@) == 1,
            r is Some ==> r.unwrap() == value_at(old(self)@, p@),
    {
        let addr = p.addr;
        let slot = self.slots.remove(addr);
        match slot {
            Slot::Shared { value, strong, atomic, meta } => {
                if strong > 1 {
                    self.slots.insert(
                        addr,
                        Slot::Shared { value, strong: strong - 1, atomic, meta },
                    );
                    proof {
                        assert(self@ =~= drop_strong(old(self)@, p@));
                    }
                    None
                } else {
                    self.slots.insert(addr, Slot::Free);
                    proof {
                        assert(self@ =~= drop_strong(old(self)@, p@));
                    }
                    Some(value)
                }
            },
            _ => vstd::pervasive::unreached(),
        }
    }

    /// Gives up one strong reference of an atomic shared allocation, as
    /// dropping an `Arc` does.
    pub fn drop_shared_atomic(&mut self, p: ArcPtr<T>) -> (r: Option<T>)
        requires
            is_shared_at(old(self)@, p@, true),
        ensures
            final(self)@ == drop_strong(old(self)@, p@),
            r is Some <==> strong_at(old(self)@, p@) == 1,
            r is Some ==> r.unwrap() == value_at(old(self)@, p@),
    {
        let addr = p.addr;
        let slot = self.slots.remove(addr);
        match slot {
            Slot::Shared { value, strong, atomic, meta } => {
                if strong > 1 {
                    self.slots.insert(
                        addr,
                        Slot::Shared { value, strong: strong - 1, atomic, meta },
                    );
                    proof {
                        assert(self@ =~= drop_strong(old(self)@, p@));
                    }
                    None
                } else {
                    self.slots.insert(addr, Slot::Free);
                    proof {
                        assert(self@ =~= drop_strong(old(self)@, p@));
                    }
                    Some(value)
                }
            },
            _ => vstd::pervasive::unreached(),
        }
    }

    /// Reads the strong count of the reference-counted allocation at `raw`,
    /// with the representation's own check (atomic for the atomic kind).
    pub fn strong_count(&self, raw: RawPtr) -> (n: usize)
        requires
            is_counted_at(self@, raw),
        ensures
            n == strong_at(self@, raw),
    {
        match &self.slots[raw.addr] {
            Slot::Shared { strong, .. } => *strong,
            _ => vstd::pervasive::unreached(),
        }
    }
}

/// A uniquely-owned allocation is writable and live: the projection that
/// exclusive access hands out is usable.
pub proof fn lemma_unique_is_writable<T>(slots: Seq<Slot<T>>, raw: RawPtr)
    requires
        is_unique_at(slots, raw),
    ensures
        writable_at(slots, raw),
        is_live_at(slots, raw),
{
}

/// A shared allocation with exactly one outstanding strong reference is
/// writable and live: the projection that try-exclusive access hands out in
/// its present case is usable.
pub proof fn lemma_sole_reference_is_writable<T>(slots: Seq<Slot<T>>, raw: RawPtr)
    requires
        is_counted_at(slots, raw),
        strong_at(slots, raw) == 1,
    ensures
        writable_at(slots, raw),
        is_live_at(slots, raw),
{
}

/// Writing a value in place never disturbs ownership bookkeeping: the slot
/// stays live under the same address and metadata, a unique allocation stays
/// unique, and a counted allocation keeps its exact strong count.
pub proof fn lemma_write_keeps_bookkeeping<T>(slots: Seq<Slot<T>>, raw: RawPtr, value: T)
    requires
        is_live_at(slots, raw),
    ensures
        ({
            let after = slots.update(
                raw.addr as int,
                slot_with_value(slots[raw.addr as int], value),
            );
            &&& is_live_at(after, raw)
            &&& value_at(after, raw) == value
            &&& is_unique_at(slots, raw) ==> is_unique_at(after, raw)
            &&& is_counted_at(slots, raw) ==> is_counted_at(after, raw) && strong_at(after, raw)
                == strong_at(slots, raw)
        }),
{
}

/// Growing the strong count at `raw` is non-destructive: the count grows by
/// exactly one, the managed value and every other slot stay exactly as they
/// were, and the allocation remains resolvable at the same address.
pub proof fn lemma_bump_strong_nondestructive<T>(slots: Seq<Slot<T>>, raw: RawPtr, atomic: bool)
    requires
        is_shared_at(slots, raw, atomic),
        strong_at(slots, raw) < usize::MAX,
    ensures
        is_shared_at(bump_strong(slots, raw), raw, atomic),
        strong_at(bump_strong(slots, raw), raw) == strong_at(slots, raw) + 1,
        value_at(bump_strong(slots, raw), raw) == value_at(slots, raw),
        bump_strong(slots, raw).len() == slots.len(),
        forall|i: int|
            0 <= i < slots.len() && i != raw.addr ==> bump_strong(slots, raw)[i] == slots[i],
{
}

/// With exactly one strong reference outstanding, a counted allocation is
/// exclusively owned; creating a second strong reference ends that; giving
/// the second reference back restores the arena exactly, sole ownership
/// included.
pub proof fn lemma_duplicate_and_drop_restore_sole_ownership<T>(
    slots: Seq<Slot<T>>,
    raw: RawPtr,
    atomic: bool,
)
    requires
        is_shared_at(slots, raw, atomic),
        strong_at(slots, raw) == 1,
    ensures
        strong_at(bump_strong(slots, raw), raw) == 2,
        drop_strong(bump_strong(slots, raw), raw) == slots,
{
    assert(drop_strong(bump_strong(slots, raw), raw) =~= slots);
}

} // verus!
