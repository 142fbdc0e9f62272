use pointer_ops::Arena;
use pointer_ops::BoxPtr;
use pointer_ops::DefaultPointerOps;
use pointer_ops::PointerOps;
use pointer_ops::RefPtr;

#[test]
fn value_forty_two_round_trip() {
    let mut arena: Arena<i32> = Arena::new();
    let pointer_ops = DefaultPointerOps::<BoxPtr<i32>>::new();
    let p = arena.alloc_unique(42, 0);
    let address = p.raw();
    let r = pointer_ops.into_raw(p);
    assert_eq!(r, address);
    let p2: BoxPtr<i32> = pointer_ops.from_raw(r);
    assert_eq!(*arena.read(p2.raw()), 42);
    assert_eq!(p2.raw(), address);
}

#[test]
fn distinct_allocations_get_distinct_addresses() {
    let mut arena: Arena<i32> = Arena::new();
    let p1 = arena.alloc_unique(1, 0);
    let p2 = arena.alloc_unique(2, 0);
    assert_ne!(p1.raw(), p2.raw());
    assert_eq!(*arena.read(p1.raw()), 1);
    assert_eq!(*arena.read(p2.raw()), 2);
}

#[test]
fn take_unique_reclaims_and_returns_value() {
    let mut arena: Arena<String> = Arena::new();
    let p = arena.alloc_unique(String::from("abc"), 0);
    assert_eq!(arena.take_unique(p), "abc");
}

#[test]
fn drop_shared_returns_value_only_at_last_reference() {
    let mut arena: Arena<i32> = Arena::new();
    let p = arena.alloc_shared(31, 0);
    let p2 = arena.clone_shared(&p);
    let p3 = arena.clone_shared(&p);
    assert_eq!(arena.strong_count(p.raw()), 3);
    assert_eq!(arena.drop_shared(p3), None);
    assert_eq!(arena.drop_shared(p2), None);
    assert_eq!(arena.drop_shared(p), Some(31));
}

#[test]
fn write_keeps_bookkeeping() {
    let mut arena: Arena<i32> = Arena::new();
    let p = arena.alloc_shared(1, 5);
    let raw = p.raw();
    arena.write(raw, 2);
    assert_eq!(*arena.read(raw), 2);
    assert_eq!(arena.strong_count(raw), 1);
    assert_eq!(arena.drop_shared(p), Some(2));
}

#[test]
fn borrowed_reference_conversion_is_ownership_free() {
    let mut arena: Arena<i32> = Arena::new();
    let owner = arena.alloc_unique(6, 0);
    let raw = owner.raw();
    let pointer_ops = DefaultPointerOps::<RefPtr<i32>>::new();
    let borrow: RefPtr<i32> = pointer_ops.from_raw(raw);
    let same = pointer_ops.into_raw(borrow);
    assert_eq!(same, raw);
    // the owner is untouched by the borrow's conversions
    assert_eq!(arena.take_unique(owner), 6);
}
