use conquer_pointer::dwcas::{
    cmpxchg16b, exchange_previous, exchange_result, load_probe, ordering_to_u8, store_orderings,
    store_retry,
};
use conquer_pointer::{AtomicMarkedPtr128 as Atomic128, MarkedPtr128 as Marked128};
use std::sync::atomic::Ordering;

type AtomicMarkedPtr128 = Atomic128<i32>;
type MarkedPtr128 = Marked128<i32>;

fn address_of_one() -> u64 {
    core::ptr::from_mut(&mut 1).addr() as u64
}

#[test]
fn compare_exchange() {
    let ptr = address_of_one();

    let current = MarkedPtr128::compose(ptr, 1);
    let new = MarkedPtr128::compose(ptr, 2);

    let mut atomic = AtomicMarkedPtr128::new(current);

    let res = atomic.compare_exchange(current, new, Ordering::Relaxed, Ordering::Relaxed);
    assert_eq!(res, Ok(current));

    let res = atomic.compare_exchange(current, new, Ordering::Relaxed, Ordering::Relaxed);
    assert_eq!(res, Err(new));
}

#[test]
fn compare_and_swap() {
    let ptr = address_of_one();

    let current = MarkedPtr128::compose(ptr, 1);
    let new = MarkedPtr128::compose(ptr, 2);

    let mut atomic = AtomicMarkedPtr128::new(current);

    let prev = atomic.compare_and_swap(current, new, Ordering::Relaxed);
    assert_eq!(prev, current);

    let prev = atomic.compare_and_swap(current, new, Ordering::Relaxed);
    assert_eq!(prev, new);
}

#[test]
fn load() {
    let ptr = address_of_one();

    let current = MarkedPtr128::new(ptr);

    let mut atomic = AtomicMarkedPtr128::new(current);
    assert_eq!(atomic.load(Ordering::Relaxed), current);
}

#[test]
fn wide_compare_exchange_is_all_or_nothing() {
    let mut atomic = AtomicMarkedPtr128::new(MarkedPtr128::compose(0x2000, 5));

    let res = atomic.compare_exchange(
        MarkedPtr128::compose(0x2000, 5),
        MarkedPtr128::compose(0x2000, 6),
        Ordering::SeqCst,
        Ordering::SeqCst,
    );
    assert_eq!(res, Ok(MarkedPtr128::compose(0x2000, 5)));
    assert_eq!(atomic.load(Ordering::SeqCst), MarkedPtr128::compose(0x2000, 6));

    // only the tag has moved on: the stale pair must fail and report the new one
    let res = atomic.compare_exchange(
        MarkedPtr128::compose(0x2000, 5),
        MarkedPtr128::compose(0x3000, 9),
        Ordering::AcqRel,
        Ordering::Acquire,
    );
    assert_eq!(res, Err(MarkedPtr128::compose(0x2000, 6)));
    assert_eq!(atomic.load(Ordering::Acquire), MarkedPtr128::compose(0x2000, 6));

    // only the pointer differs: still a failure, nothing is written
    let res = atomic.compare_exchange(
        MarkedPtr128::compose(0x2008, 6),
        MarkedPtr128::compose(0x3000, 9),
        Ordering::Relaxed,
        Ordering::Relaxed,
    );
    assert_eq!(res, Err(MarkedPtr128::compose(0x2000, 6)));
    assert_eq!(atomic.into_inner(), MarkedPtr128::compose(0x2000, 6));
}

#[test]
fn wide_load_changes_nothing() {
    let mut atomic = AtomicMarkedPtr128::new(MarkedPtr128::null());
    assert_eq!(atomic.load(Ordering::Relaxed), MarkedPtr128::null());
    assert_eq!(atomic.load(Ordering::SeqCst), MarkedPtr128::null());
    let mut atomic = AtomicMarkedPtr128::new(MarkedPtr128::compose(0x10, u64::MAX));
    assert_eq!(atomic.load(Ordering::Acquire), MarkedPtr128::compose(0x10, u64::MAX));
    assert_eq!(atomic.load(Ordering::Acquire), MarkedPtr128::compose(0x10, u64::MAX));
}

#[test]
fn wide_store_takes_effect() {
    let mut atomic = AtomicMarkedPtr128::new(MarkedPtr128::compose(0x2000, 5));
    atomic.store(MarkedPtr128::compose(0x4000, 1), Ordering::Release);
    assert_eq!(atomic.load(Ordering::Relaxed), MarkedPtr128::compose(0x4000, 1));
    atomic.store(MarkedPtr128::null(), Ordering::SeqCst);
    assert_eq!(atomic.load(Ordering::Relaxed), MarkedPtr128::null());
    atomic.store(MarkedPtr128::null(), Ordering::Relaxed);
    assert_eq!(atomic.into_inner(), MarkedPtr128::null());
}

#[test]
fn cmpxchg16b_compares_all_sixteen_bytes() {
    let mut cell: u128 = 5 << 64 | 0x2000;
    let prev = cmpxchg16b(&mut cell, 5 << 64 | 0x2000, 6 << 64 | 0x2000, Ordering::SeqCst, Ordering::SeqCst);
    assert_eq!(prev, 5 << 64 | 0x2000);
    assert_eq!(cell, 6 << 64 | 0x2000);
    let prev = cmpxchg16b(&mut cell, 5 << 64 | 0x2000, 0, Ordering::SeqCst, Ordering::Relaxed);
    assert_eq!(prev, 6 << 64 | 0x2000);
    assert_eq!(cell, 6 << 64 | 0x2000);
}

#[test]
fn ordering_numbers() {
    assert_eq!(ordering_to_u8(Ordering::Relaxed), 0);
    assert_eq!(ordering_to_u8(Ordering::Acquire), 1);
    assert_eq!(ordering_to_u8(Ordering::Release), 2);
    assert_eq!(ordering_to_u8(Ordering::AcqRel), 3);
    assert_eq!(ordering_to_u8(Ordering::SeqCst), 4);
}

#[test]
fn pair_and_u128() {
    let ptr = MarkedPtr128::compose(0x2000, 5);
    assert_eq!(ptr.into_u128(), 5u128 << 64 | 0x2000);
    assert_eq!(MarkedPtr128::from_u128(5u128 << 64 | 0x2000), ptr);
    assert_eq!(MarkedPtr128::from_u128(u128::MAX).decompose(), (u64::MAX, u64::MAX));
    assert_eq!(MarkedPtr128::compose(u64::MAX, 0).into_u128(), u64::MAX as u128);
    assert_eq!(MarkedPtr128::compose(0, 1).into_u128(), 1u128 << 64);
}

#[test]
fn pair_projections() {
    let ptr = MarkedPtr128::compose(0x2000, 0b11);
    assert_eq!(ptr.decompose(), (0x2000, 0b11));
    assert_eq!(ptr.decompose_ptr(), 0x2000);
    assert_eq!(ptr.decompose_tag(), 0b11);
    assert_eq!(ptr.ptr, 0x2000);
    assert_eq!(ptr.tag, 0b11);
    assert_eq!(MarkedPtr128::new(0x2000).decompose(), (0x2000, 0));
    assert_eq!(MarkedPtr128::null().decompose(), (0, 0));
    assert_eq!(MarkedPtr128::default(), MarkedPtr128::null());
    let cast: Marked128<u8> = ptr.cast();
    assert_eq!(cast.decompose(), (0x2000, 0b11));
    // the tag has a whole word: no bit of it is lost
    assert_eq!(MarkedPtr128::compose(0x2001, u64::MAX).decompose(), (0x2001, u64::MAX));
}

#[test]
fn steps_of_the_wide_operations() {
    let v = MarkedPtr128::compose(0x2000, 5);
    let w = MarkedPtr128::compose(0x2000, 6);
    assert_eq!(load_probe::<i32>(), MarkedPtr128::null());
    assert_eq!(exchange_previous(Ok::<MarkedPtr128, MarkedPtr128>(v)), v);
    assert_eq!(exchange_previous(Err::<MarkedPtr128, MarkedPtr128>(w)), w);
    assert_eq!(store_retry(Ok::<MarkedPtr128, MarkedPtr128>(v)), None);
    assert_eq!(store_retry(Err::<MarkedPtr128, MarkedPtr128>(w)), Some(w));
    assert_eq!(store_orderings(Ordering::Release), (Ordering::Release, Ordering::Relaxed));
    assert_eq!(store_orderings(Ordering::SeqCst), (Ordering::SeqCst, Ordering::Relaxed));
    assert_eq!(store_orderings(Ordering::Relaxed), (Ordering::Relaxed, Ordering::Relaxed));
    assert_eq!(exchange_result(v, v.into_u128()), Ok(v));
    assert_eq!(exchange_result(v, w.into_u128()), Err(w));
}

#[test]
fn pairs_are_ordered_by_address_then_tag() {
    assert!(MarkedPtr128::compose(0x1000, 9) < MarkedPtr128::compose(0x2000, 0));
    assert!(MarkedPtr128::compose(0x2000, 5) < MarkedPtr128::compose(0x2000, 6));
    assert!(MarkedPtr128::compose(0x2000, 5) >= MarkedPtr128::compose(0x2000, 5));
}
