//! The atomic pair of a pointer and a full-width tag, and the double-word
//! compare-and-swap that every operation on it is made of.
//!
//! The hardware instruction works on sixteen bytes that threads share.  What
//! stands here is the cell as its one owner sees it: each operation takes
//! the cell exclusively, so that nothing can come between its compare and
//! its swap, and says exactly what it leaves in the cell and what it
//! returns.  A cell that threads share runs the same steps on the hardware
//! instruction.

use crate::atomic::{
    is_exchange_ordering, is_load_ordering, is_store_ordering, previous_of,
    strongest_failure_ordering,
};
use crate::ptr128::MarkedPtr128;
use core::marker::PhantomData;
use core::sync::atomic::Ordering;
use vstd::prelude::*;

verus! {

/// A pair of an address and a 64-bit tag that is read and replaced as one
/// unit.
pub struct AtomicMarkedPtr128<T> {
    inner: u128,
    _marker: PhantomData<T>,
}

impl<T> View for AtomicMarkedPtr128<T> {
    type V = MarkedPtr128<T>;

    /// The pair that the cell holds.
    closed spec fn view(&self) -> MarkedPtr128<T> {
        MarkedPtr128::spec_from_u128(self.inner)
    }
}

/// The number by which the linked compare-and-swap routine knows a memory
/// ordering.
pub fn ordering_to_u8(order: Ordering) -> (res: u8)
    ensures
        order is Relaxed ==> res == 0,
        order is Acquire ==> res == 1,
        order is Release ==> res == 2,
        order is AcqRel ==> res == 3,
        order is SeqCst ==> res == 4,
{
    match order {
        Ordering::Relaxed => 0,
        Ordering::Acquire => 1,
        Ordering::Release => 2,
        Ordering::AcqRel => 3,
        Ordering::SeqCst => 4,
        _ => vstd::pervasive::unreached(),
    }
}

/// The double-word compare-and-swap: compares the sixteen bytes at `dst`
/// with `expected` and, if they are equal, replaces them with `new`.  Returns
/// what `dst` held before, which is `expected` exactly when the swap took place.
pub fn cmpxchg16b(
    dst: &mut u128,
    expected: u128,
    new: u128,
    success: Ordering,
    failure: Ordering,
) -> (previous: u128)
    requires
        is_exchange_ordering(success, failure),
    ensures
        previous == *old(dst),
        *old(dst) == expected ==> *final(dst) == new,
        *old(dst) != expected ==> *final(dst) == *old(dst),
{
    let previous = *dst;
    if previous == expected {
        *dst = new;
    }
    previous
}

/// The pair that a compare-and-exchange of `current` for `new` leaves in a
/// cell that holds `stored`: `new` if both words of `stored` are those of
/// `current`, else `stored` as it was.
pub open spec fn spec_exchange_next<T>(
    stored: MarkedPtr128<T>,
    current: MarkedPtr128<T>,
    new: MarkedPtr128<T>,
) -> MarkedPtr128<T> {
    if stored == current {
        new
    } else {
        stored
    }
}

/// What a compare-and-exchange against `current` returns on a cell that
/// holds `stored`: `Ok` with the previous pair if both words of `stored`
/// are those of `current`, else `Err` with `stored`.
pub open spec fn spec_exchange_outcome<T>(
    stored: MarkedPtr128<T>,
    current: MarkedPtr128<T>,
) -> Result<MarkedPtr128<T>, MarkedPtr128<T>> {
    if stored == current {
        Ok(current)
    } else {
        Err(stored)
    }
}

/// Compare-and-exchange succeeds once: on a cell that holds `v`, a
/// compare-and-exchange of `v` for `w` returns `Ok(v)`, and the same call
/// made again returns `Err(w)`, unless `w` is `v`, where it succeeds again.
pub proof fn lemma_wide_exchange_succeeds_once<T>(v: MarkedPtr128<T>, w: MarkedPtr128<T>)
    requires
        v != w,
    ensures
        spec_exchange_outcome(v, v) == Ok::<MarkedPtr128<T>, MarkedPtr128<T>>(v),
        spec_exchange_next(v, v, w) == w,
        spec_exchange_outcome(spec_exchange_next(v, v, w), v) == Err::<
            MarkedPtr128<T>,
            MarkedPtr128<T>,
        >(w),
        spec_exchange_next(spec_exchange_next(v, v, w), v, w) == w,
{
}

/// Wide compare-and-exchange is all or nothing: where the cell differs from
/// the expected pair in the tag alone, or in the address alone, nothing is
/// written and the pair in the cell is reported.
pub proof fn lemma_wide_exchange_is_all_or_nothing<T>(
    stored: MarkedPtr128<T>,
    current: MarkedPtr128<T>,
    new: MarkedPtr128<T>,
)
    requires
        stored.ptr != current.ptr || stored.tag != current.tag,
    ensures
        spec_exchange_outcome(stored, current) == Err::<MarkedPtr128<T>, MarkedPtr128<T>>(stored),
        spec_exchange_next(stored, current, new) == stored,
{
}

/// Reads what a double-word compare-and-swap returned: `Ok` with `current`
/// if the sixteen bytes found were those of `current`, so that the swap
/// took place, else `Err` with the pair found.
pub fn exchange_result<T>(current: MarkedPtr128<T>, previous: u128) -> (res: Result<
    MarkedPtr128<T>,
    MarkedPtr128<T>,
>)
    ensures
        res == spec_exchange_outcome(MarkedPtr128::spec_from_u128(previous), current),
{
    proof {
        current.lemma_u128_roundtrip(previous);
    }
    if previous == current.into_u128() {
        Ok(current)
    } else {
        Err(MarkedPtr128::from_u128(previous))
    }
}

/// The pair that a load compares the cell with and would swap in: `null`
/// for `null`, so that the cell is left as it is whether the compare
/// succeeds or fails.
pub fn load_probe<T>() -> (probe: MarkedPtr128<T>)
    ensures
        probe == MarkedPtr128::<T>::spec_compose(0, 0),
{
    MarkedPtr128::null()
}

/// The pair that the cell held before a compare-and-exchange, whichever
/// way it went.
pub fn exchange_previous<T>(outcome: Result<MarkedPtr128<T>, MarkedPtr128<T>>) -> (previous:
    MarkedPtr128<T>)
    ensures
        outcome matches Ok(pair) ==> previous == pair,
        outcome matches Err(pair) ==> previous == pair,
{
    previous_of(outcome)
}

/// The orderings of the compare-and-exchange that a store with `order` is
/// made of: `order` where it takes place and the weakest one where it fails.
pub fn store_orderings(order: Ordering) -> (pair: (Ordering, Ordering))
    requires
        is_store_ordering(order),
    ensures
        pair.0 == order,
        pair.1 is Relaxed,
        is_exchange_ordering(pair.0, pair.1),
{
    (order, Ordering::Relaxed)
}

/// What a store does after one compare-and-exchange: it is done where that
/// took place, else it tries again against the pair found in the cell.
pub fn store_retry<T>(outcome: Result<MarkedPtr128<T>, MarkedPtr128<T>>) -> (next: Option<
    MarkedPtr128<T>,
>)
    ensures
        outcome is Ok ==> next is None,
        outcome matches Err(actual) ==> next == Some(actual),
{
    match outcome {
        Ok(_) => None,
        Err(actual) => Some(actual),
    }
}

impl<T> AtomicMarkedPtr128<T> {
    /// Creates a cell that holds `marked_ptr`.
    pub fn new(marked_ptr: MarkedPtr128<T>) -> (res: Self)
        ensures
            res@ == marked_ptr,
    {
        proof {
            marked_ptr.lemma_u128_roundtrip(0);
        }
        Self { inner: marked_ptr.into_u128(), _marker: PhantomData }
    }

    /// Consumes the cell and returns the pair that it holds.
    pub fn into_inner(self) -> (res: MarkedPtr128<T>)
        ensures
            res == self@,
    {
        MarkedPtr128::from_u128(self.inner)
    }

    /// Loads the pair that the cell holds, both words at once.
    ///
    /// There is no instruction that reads sixteen bytes atomically, so this
    /// is a compare-and-swap of `null` for `null`: it changes nothing
    /// whether it succeeds or fails, and returns what it found.
    pub fn load(&mut self, order: Ordering) -> (res: MarkedPtr128<T>)
        requires
            is_load_ordering(order),
        ensures
            res == old(self)@,
            final(self)@ == old(self)@,
    {
        let probe = load_probe();
        self.compare_and_swap(probe, probe, order)
    }

    /// Stores `ptr` into the cell, both words at once.
    ///
    /// There is no instruction that writes sixteen bytes atomically, so this
    /// is a compare-and-swap against the pair last seen in the cell, tried
    /// again until it takes place.
    pub fn store(&mut self, ptr: MarkedPtr128<T>, order: Ordering)
        requires
            is_store_ordering(order),
        ensures
            final(self)@ == ptr,
    {
        let (success, failure) = store_orderings(order);
        let mut current = load_probe();
        loop
            invariant
                is_exchange_ordering(success, failure),
            ensures
                self@ == ptr,
            decreases
                    (if current == self@ {
                        0int
                    } else {
                        1int
                    }),
        {
            match store_retry(self.compare_exchange(current, ptr, success, failure)) {
                None => {
                    break ;
                },
                Some(actual) => {
                    current = actual;
                },
            }
        }
    }

    /// Stores `new` into the cell if it holds `current` in both words, and
    /// returns what it held before in either case.
    pub fn compare_and_swap(
        &mut self,
        current: MarkedPtr128<T>,
        new: MarkedPtr128<T>,
        order: Ordering,
    ) -> (res: MarkedPtr128<T>)
        ensures
            res == old(self)@,
            final(self)@ == spec_exchange_next(old(self)@, current, new),
    {
        let failure = strongest_failure_ordering(order);
        exchange_previous(self.compare_exchange(current, new, order, failure))
    }

    /// Stores `new` into the cell if it holds `current` in both words at
    /// once.
    ///
    /// On success both words are replaced and `Ok` holds the previous pair,
    /// which is `current`.  On failure nothing is replaced and `Err` holds
    /// the pair found in the cell.
    pub fn compare_exchange(
        &mut self,
        current: MarkedPtr128<T>,
        new: MarkedPtr128<T>,
        success: Ordering,
        failure: Ordering,
    ) -> (res: Result<MarkedPtr128<T>, MarkedPtr128<T>>)
        requires
            is_exchange_ordering(success, failure),
        ensures
            res == spec_exchange_outcome(old(self)@, current),
            final(self)@ == spec_exchange_next(old(self)@, current, new),
    {
        let old_u128 = current.into_u128();
        let new_u128 = new.into_u128();
        proof {
            current.lemma_u128_roundtrip(self.inner);
            new.lemma_u128_roundtrip(0);
        }
        let previous = cmpxchg16b(&mut self.inner, old_u128, new_u128, success, failure);
        exchange_result(current, previous)
    }
}

} // verus!
