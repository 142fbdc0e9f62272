use pointer_ops::Arena;
use pointer_ops::ArcPtr;
use pointer_ops::BoxPtr;
use pointer_ops::DefaultPointerOps;
use pointer_ops::ExclusivePointerOps;
use pointer_ops::RcPtr;
use pointer_ops::TryExclusivePointerOps;
use pointer_ops::UnsafeMut;
use pointer_ops::UnsafeRef;

#[test]
fn get_mut_box_yields_same_address() {
    let mut arena: Arena<u32> = Arena::new();
    let pointer_ops = DefaultPointerOps::<BoxPtr<u32>>::new();
    let p = arena.alloc_unique(10, 0);
    let raw = p.raw();
    let m = pointer_ops.get_mut(&arena, raw);
    assert_eq!(m, raw);
    arena.write(m, 11);
    assert_eq!(*arena.read(raw), 11);
}

#[test]
fn get_mut_unsafe_mut_yields_same_address() {
    let mut arena: Arena<u32> = Arena::new();
    let pointer_ops = DefaultPointerOps::<UnsafeMut<u32>>::new();
    let p = UnsafeMut::from_box(arena.alloc_unique(10, 0));
    let raw = UnsafeMut::into_raw(p);
    let m = pointer_ops.get_mut(&arena, raw);
    assert_eq!(m, raw);
}

#[test]
fn exclusive_kind_try_get_mut_always_present() {
    let mut arena: Arena<u32> = Arena::new();
    let pointer_ops = DefaultPointerOps::<BoxPtr<u32>>::new();
    let p = arena.alloc_unique(10, 0);
    let raw = p.raw();
    assert_eq!(pointer_ops.try_get_mut(&arena, raw), Some(raw));
}

#[test]
fn try_get_mut_rc_tracks_sole_ownership() {
    let mut arena: Arena<u32> = Arena::new();
    let pointer_ops = DefaultPointerOps::<RcPtr<u32>>::new();
    let p = arena.alloc_shared(5, 0);
    let raw = p.raw();
    assert_eq!(pointer_ops.try_get_mut(&arena, raw), Some(raw));
    let p2 = arena.clone_shared(&p);
    assert_eq!(pointer_ops.try_get_mut(&arena, raw), None);
    assert_eq!(arena.drop_shared(p2), None);
    assert_eq!(pointer_ops.try_get_mut(&arena, raw), Some(raw));
    assert_eq!(arena.drop_shared(p), Some(5));
}

#[test]
fn try_get_mut_arc_tracks_sole_ownership() {
    let mut arena: Arena<u32> = Arena::new();
    let pointer_ops = DefaultPointerOps::<ArcPtr<u32>>::new();
    let p = arena.alloc_shared_atomic(5, 0);
    let raw = p.raw();
    assert_eq!(pointer_ops.try_get_mut(&arena, raw), Some(raw));
    let p2 = arena.clone_shared_atomic(&p);
    assert_eq!(pointer_ops.try_get_mut(&arena, raw), None);
    assert_eq!(arena.drop_shared_atomic(p2), None);
    assert_eq!(pointer_ops.try_get_mut(&arena, raw), Some(raw));
    assert_eq!(arena.drop_shared_atomic(p), Some(5));
}

#[test]
fn try_get_mut_present_permits_write() {
    let mut arena: Arena<u32> = Arena::new();
    let pointer_ops = DefaultPointerOps::<RcPtr<u32>>::new();
    let p = arena.alloc_shared(5, 0);
    let raw = p.raw();
    let m = pointer_ops.try_get_mut(&arena, raw).unwrap();
    arena.write(m, 6);
    assert_eq!(*arena.read(raw), 6);
}

#[test]
fn unsafe_ref_shares_read_access() {
    let mut arena: Arena<u32> = Arena::new();
    let p = arena.alloc_unique(8, 0);
    let u = UnsafeRef::from_box(p);
    let v = u.clone();
    assert_eq!(*u.get(&arena), 8);
    assert_eq!(*v.get(&arena), 8);
}
