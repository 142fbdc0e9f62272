use pointer_ops::Arena;
use pointer_ops::DefaultPointerOps;
use pointer_ops::PointerOps;
use pointer_ops::RcPtr;
use pointer_ops::UnsafeRef;
use pointer_ops::clone_pointer_from_raw;
use pointer_ops::try_clone_pointer_from_raw;

#[test]
fn clone_from_raw_adds_exactly_one_reference() {
    let mut arena: Arena<u64> = Arena::new();
    let pointer_ops = DefaultPointerOps::<RcPtr<u64>>::new();
    let p = arena.alloc_shared(7, 0);
    let raw = p.raw();
    assert_eq!(arena.strong_count(raw), 1);
    let p2 = clone_pointer_from_raw(&pointer_ops, &mut arena, raw);
    assert_eq!(arena.strong_count(raw), 2);
    assert_eq!(p2.raw(), raw);
    assert_eq!(*arena.read(raw), 7);
}

#[test]
fn clone_from_raw_leaves_slot_resolvable() {
    let mut arena: Arena<u64> = Arena::new();
    let pointer_ops = DefaultPointerOps::<RcPtr<u64>>::new();
    let p = arena.alloc_shared(7, 0);
    let raw = pointer_ops.into_raw(p);
    let extra = clone_pointer_from_raw(&pointer_ops, &mut arena, raw);
    // The stored address still stands for its own strong reference.
    let stored: RcPtr<u64> = pointer_ops.from_raw(raw);
    assert_eq!(arena.drop_shared(extra), None);
    assert_eq!(arena.drop_shared(stored), Some(7));
}

#[test]
fn failed_clone_leaves_count_unchanged() {
    let mut arena: Arena<u64> = Arena::new();
    let pointer_ops = DefaultPointerOps::<RcPtr<u64>>::new();
    let p = arena.alloc_shared_with_count(7, 0, usize::MAX);
    let raw = p.raw();
    let r = try_clone_pointer_from_raw(&pointer_ops, &mut arena, raw);
    assert!(r.is_none());
    assert_eq!(arena.strong_count(raw), usize::MAX);
    assert_eq!(*arena.read(raw), 7);
}

#[test]
fn successful_try_clone_matches_plain_clone() {
    let mut arena: Arena<u64> = Arena::new();
    let pointer_ops = DefaultPointerOps::<RcPtr<u64>>::new();
    let p = arena.alloc_shared(9, 0);
    let raw = p.raw();
    let r = try_clone_pointer_from_raw(&pointer_ops, &mut arena, raw);
    assert!(r.is_some());
    assert_eq!(arena.strong_count(raw), 2);
    assert_eq!(r.unwrap().raw(), raw);
}

#[test]
fn clone_unsafe_ref_from_raw_keeps_no_count() {
    let mut arena: Arena<u64> = Arena::new();
    let pointer_ops = DefaultPointerOps::<UnsafeRef<u64>>::new();
    let p = arena.alloc_unique(4, 0);
    let raw = p.raw();
    let u = UnsafeRef::from_box(p);
    let u2 = clone_pointer_from_raw(&pointer_ops, &mut arena, raw);
    assert_eq!(UnsafeRef::into_raw(u), raw);
    assert_eq!(UnsafeRef::into_raw(u2), raw);
    // No bookkeeping moved: the allocation is still the unique slot it was.
    assert_eq!(*arena.read(raw), 4);
}
