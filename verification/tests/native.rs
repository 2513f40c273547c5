use conquer_pointer::native::{native_mark_mask, native_tag_word, MarkedNativePtr as Native};
use conquer_pointer::native_atomic::{native_exchange_result, AtomicMarkedNativePtr as Atomic};
use std::sync::atomic::Ordering;

type MarkedNativePtr = Native<u8>;
type AtomicMarkedNativePtr = Atomic<u8>;

#[test]
fn native_masks() {
    assert_eq!(native_mark_mask(), 0xFFFF_0000_0000_0000);
    assert_eq!(native_tag_word(1), 0x0001_0000_0000_0000);
    assert_eq!(native_tag_word(0xFFFF), 0xFFFF_0000_0000_0000);
    assert_eq!(conquer_pointer::native::MARK_BITS, 16);
    assert_eq!(conquer_pointer::native::MARK_SHIFT, 48);
}

#[test]
fn native_compose_and_decompose() {
    let ptr = MarkedNativePtr::compose(0x7FFF_1234_5677, 0xBEEF);
    assert_eq!(ptr.into_usize(), 0xBEEF_7FFF_1234_5677);
    assert_eq!(ptr.decompose(), (0x7FFF_1234_5677, 0xBEEF));
    assert_eq!(ptr.decompose_ptr(), 0x7FFF_1234_5677);
    assert_eq!(ptr.decompose_tag(), 0xBEEF);
    assert_eq!(ptr.into_ptr(), 0xBEEF_7FFF_1234_5677);
    // an odd address keeps all its bits: alignment does not matter
    assert_eq!(MarkedNativePtr::compose(0x1001, 3).decompose(), (0x1001, 3));
}

#[test]
fn native_null_and_new() {
    assert_eq!(MarkedNativePtr::null().decompose(), (0, 0));
    assert_eq!(MarkedNativePtr::default(), MarkedNativePtr::null());
    assert_eq!(MarkedNativePtr::new(0x1000).decompose(), (0x1000, 0));
    assert_eq!(MarkedNativePtr::from_usize(0x0003_0000_0000_1000).decompose(), (0x1000, 3));
    let cast: Native<u64> = MarkedNativePtr::compose(0x1000, 3).cast();
    assert_eq!(cast.decompose(), (0x1000, 3));
}

#[test]
fn native_tag_helpers() {
    let ptr = MarkedNativePtr::compose(0x1000, 3);
    assert_eq!(ptr.clear_tag().decompose(), (0x1000, 0));
    assert_eq!(ptr.with_tag(0xFFFF).decompose(), (0x1000, 0xFFFF));
    assert_eq!(ptr.with_tag(0).decompose(), (0x1000, 0));
    assert_eq!(ptr.add_tag(1).into_usize(), 0x0003_0000_0000_1001);
    assert_eq!(ptr.sub_tag(1).into_usize(), 0x0003_0000_0000_0FFF);
    assert_eq!(ptr, ptr.clone());
    assert_ne!(ptr, ptr.with_tag(4));
}

#[test]
fn native_atomic_operations() {
    let v = MarkedNativePtr::compose(0x1000, 1);
    let w = MarkedNativePtr::compose(0x1000, 2);
    let atomic = AtomicMarkedNativePtr::new(v);
    assert_eq!(atomic.load(Ordering::Relaxed), v);
    assert_eq!(atomic.compare_exchange(v, w, Ordering::SeqCst, Ordering::SeqCst), Ok(v));
    assert_eq!(atomic.compare_exchange(v, w, Ordering::SeqCst, Ordering::Relaxed), Err(w));
    assert_eq!(atomic.compare_and_swap(v, w, Ordering::Relaxed), w);
    assert_eq!(atomic.compare_and_swap(w, v, Ordering::AcqRel), w);
    assert_eq!(atomic.load(Ordering::Acquire), v);
    atomic.store(w, Ordering::Release);
    assert_eq!(atomic.into_inner(), w);
    assert_eq!(AtomicMarkedNativePtr::null().load(Ordering::SeqCst), MarkedNativePtr::null());
    assert_eq!(AtomicMarkedNativePtr::default().into_inner(), MarkedNativePtr::null());
}

#[test]
fn native_atomic_weak_exchange_in_a_loop() {
    let v = MarkedNativePtr::compose(0x1000, 1);
    let w = MarkedNativePtr::compose(0x1000, 2);
    let atomic = AtomicMarkedNativePtr::new(v);
    let mut tries = 0;
    while atomic.compare_exchange_weak(v, w, Ordering::SeqCst, Ordering::Relaxed).is_err() {
        tries += 1;
        assert!(tries < 1000);
    }
    assert_eq!(atomic.load(Ordering::Relaxed), w);
}

#[test]
fn native_fetch_add_adds_to_the_tag() {
    let atomic = AtomicMarkedNativePtr::new(MarkedNativePtr::compose(0x1001, 1));
    assert_eq!(atomic.fetch_add(2, Ordering::Relaxed).decompose(), (0x1001, 1));
    assert_eq!(atomic.load(Ordering::Relaxed).decompose(), (0x1001, 3));
    assert_eq!(atomic.fetch_add(0xFFFF, Ordering::Relaxed).decompose(), (0x1001, 3));
    assert_eq!(atomic.load(Ordering::Relaxed).decompose(), (0x1001, 2));
}

#[test]
fn native_exchange_result_reads_the_outcome() {
    let current = MarkedNativePtr::compose(0x1000, 1);
    let found = MarkedNativePtr::compose(0x2000, 2);
    assert_eq!(native_exchange_result(current, Ok(current.into_usize())), Ok(current));
    assert_eq!(native_exchange_result(current, Err(found.into_usize())), Err(found));
    assert_eq!(native_exchange_result(current, Err(current.into_usize())), Err(current));
}

#[test]
fn native_from_references() {
    let mut val = 9u8;
    let addr = core::ptr::from_ref(&val).addr();
    let from_ref = MarkedNativePtr::from(&val);
    let from_mut = MarkedNativePtr::from(&mut val);
    assert_eq!(from_ref, from_mut);
    assert_eq!(from_ref.into_usize(), addr);
    assert_ne!(from_ref.into_usize(), 0);
    assert_eq!(from_ref.decompose(), (addr, 0));
    assert_eq!(val, 9);
}

#[test]
fn native_strong_compare_exchange_fails_only_on_a_mismatch() {
    let v = MarkedNativePtr::compose(0x1000, 1);
    let w = MarkedNativePtr::compose(0x1000, 2);
    let atomic = AtomicMarkedNativePtr::new(v);
    for _ in 0..1000 {
        assert_eq!(atomic.compare_exchange(v, v, Ordering::SeqCst, Ordering::SeqCst), Ok(v));
    }
    assert_eq!(atomic.compare_exchange(w, v, Ordering::SeqCst, Ordering::Relaxed), Err(v));
}
