use pointer_ops::Arena;
use pointer_ops::RawPtr;
use pointer_ops::UnsafeMut;
use pointer_ops::UnsafeRef;

#[test]
fn unsafe_ref_copies_never_reclaim() {
    let mut arena: Arena<u32> = Arena::new();
    let p = arena.alloc_unique(9, 0);
    let raw = p.raw();
    let u = UnsafeRef::from_box(p);
    for _ in 0..100 {
        let copy = u.clone();
        assert_eq!(UnsafeRef::into_raw(copy), raw);
        // every copy went out of scope; nothing was deallocated
    }
    assert_eq!(*arena.read(raw), 9);
    // only the explicit reclaiming conversion deallocates
    let b = UnsafeRef::into_box(u);
    assert_eq!(arena.take_unique(b), 9);
}

#[test]
fn unsafe_mut_wrappers_never_reclaim() {
    let mut arena: Arena<u32> = Arena::new();
    let p = arena.alloc_unique(3, 0);
    let raw = p.raw();
    let mut m = UnsafeMut::from_box(p);
    for _ in 0..100 {
        let again = UnsafeMut::into_raw(m);
        assert_eq!(again, raw);
        m = UnsafeMut::from_raw(again);
    }
    assert_eq!(*arena.read(raw), 3);
    let b = UnsafeMut::into_box(m);
    assert_eq!(arena.take_unique(b), 3);
}

#[test]
fn unsafe_mut_reads_and_writes() {
    let mut arena: Arena<u32> = Arena::new();
    let m = UnsafeMut::from_box(arena.alloc_unique(1, 0));
    assert_eq!(*m.get(&arena), 1);
    m.set(&mut arena, 2);
    assert_eq!(*m.get(&arena), 2);
    let b = UnsafeMut::into_box(m);
    assert_eq!(arena.take_unique(b), 2);
}

#[test]
fn unsafe_ref_round_trips_raw_address() {
    let raw = RawPtr { addr: 12, meta: 34 };
    let u: UnsafeRef<u8> = UnsafeRef::from_raw(raw);
    assert_eq!(UnsafeRef::into_raw(u), raw);
    let m: UnsafeMut<u8> = UnsafeMut::from_raw(raw);
    assert_eq!(UnsafeMut::into_raw(m), raw);
}
