//! The shared marked pointer for 64-bit machines with 48-bit virtual
//! addresses.
//!
//! The cell is one `AtomicUsize`.  What another thread has stored in it is
//! not known to a caller, so the contracts here say which orderings an
//! operation takes and how the value that comes back is read.

use crate::atomic::{
    atomic_compare_exchange, atomic_into_inner, is_exchange_ordering, is_load_ordering,
    is_store_ordering, previous_of, strongest_failure_ordering,
};
use crate::native::{native_tag_word, spec_native_tag_word, MarkedNativePtr};
use core::marker::PhantomData;
use core::sync::atomic::{AtomicUsize, Ordering};
use vstd::prelude::*;

verus! {

/// What a compare-and-exchange on marked pointers returns for the outcome
/// of the hardware's compare-and-exchange on their words: on success the
/// expected pointer, which the cell held, on failure the word found in the
/// cell.
pub open spec fn spec_native_exchange_result<T>(
    current: MarkedNativePtr<T>,
    outcome: Result<usize, usize>,
    res: Result<MarkedNativePtr<T>, MarkedNativePtr<T>>,
) -> bool {
    match outcome {
        Ok(_) => res == Ok::<MarkedNativePtr<T>, MarkedNativePtr<T>>(current),
        Err(found) => res matches Err(actual) && actual@ == found,
    }
}

/// Reads the outcome of the hardware's compare-and-exchange as marked
/// pointers.
pub fn native_exchange_result<T>(
    current: MarkedNativePtr<T>,
    outcome: Result<usize, usize>,
) -> (res: Result<MarkedNativePtr<T>, MarkedNativePtr<T>>)
    ensures
        spec_native_exchange_result(current, outcome, res),
{
    match outcome {
        Ok(_) => Ok(current),
        Err(found) => Err(MarkedNativePtr::from_usize(found)),
    }
}

/// A marked pointer with a 16-bit tag that can be safely shared between
/// threads.
pub struct AtomicMarkedNativePtr<T> {
    inner: AtomicUsize,
    _marker: PhantomData<T>,
}

/// Hands to the hardware's addition the operand for `value`, which is
/// `value` moved to the tag bits, so that only the tag in the cell changes.
/// Returns the word found.
fn atomic_fetch_add_tag(atomic: &AtomicUsize, value: u16, operand: usize, order: Ordering) -> usize
    requires
        operand == spec_native_tag_word(value),
{
    atomic.fetch_add(operand, order)
}

impl<T> AtomicMarkedNativePtr<T> {
    /// Creates a cell that holds the unmarked `null` pointer.
    pub fn null() -> Self {
        Self { inner: AtomicUsize::new(0), _marker: PhantomData }
    }

    /// Creates a cell that holds `marked_ptr`.
    pub fn new(marked_ptr: MarkedNativePtr<T>) -> Self {
        Self { inner: AtomicUsize::new(marked_ptr.into_usize()), _marker: PhantomData }
    }

    /// Consumes the cell and returns the marked pointer that it holds.
    pub fn into_inner(self) -> MarkedNativePtr<T> {
        MarkedNativePtr::from_usize(atomic_into_inner(self.inner))
    }

    /// Loads the value of the cell.
    pub fn load(&self, order: Ordering) -> MarkedNativePtr<T>
        requires
            is_load_ordering(order),
    {
        MarkedNativePtr::from_usize(self.inner.load(order))
    }

    /// Stores `ptr` into the cell.
    pub fn store(&self, ptr: MarkedNativePtr<T>, order: Ordering)
        requires
            is_store_ordering(order),
    {
        self.inner.store(ptr.into_usize(), order);
    }

    /// Stores `new` into the cell if it holds `current`, and returns what it
    /// held before in either case: `current` itself if the store took place.
    pub fn compare_and_swap(
        &self,
        current: MarkedNativePtr<T>,
        new: MarkedNativePtr<T>,
        order: Ordering,
    ) -> MarkedNativePtr<T> {
        let failure = strongest_failure_ordering(order);
        previous_of(self.compare_exchange(current, new, order, failure))
    }

    /// Stores `new` into the cell if it holds `current`.
    ///
    /// Returns `Ok` with `current` if the store took place, else `Err` with
    /// the value found in the cell, which is then another than `current`:
    /// this form does not fail where the cell holds `current`.
    pub fn compare_exchange(
        &self,
        current: MarkedNativePtr<T>,
        new: MarkedNativePtr<T>,
        success: Ordering,
        failure: Ordering,
    ) -> (res: Result<MarkedNativePtr<T>, MarkedNativePtr<T>>)
        requires
            is_exchange_ordering(success, failure),
        ensures
            res matches Ok(previous) ==> previous == current,
            res matches Err(actual) ==> actual@ != current@,
    {
        let outcome = atomic_compare_exchange(
            &self.inner,
            current.into_usize(),
            new.into_usize(),
            success,
            failure,
        );
        native_exchange_result(current, outcome)
    }

    /// Stores `new` into the cell if it holds `current`, and may fail to do
    /// so even then; callers retry in a loop.
    ///
    /// Returns `Ok` with `current` if the store took place, else `Err` with
    /// the value found in the cell, which may be `current` itself.
    pub fn compare_exchange_weak(
        &self,
        current: MarkedNativePtr<T>,
        new: MarkedNativePtr<T>,
        success: Ordering,
        failure: Ordering,
    ) -> (res: Result<MarkedNativePtr<T>, MarkedNativePtr<T>>)
        requires
            is_exchange_ordering(success, failure),
        ensures
            res matches Ok(previous) ==> previous == current,
    {
        let outcome = self.inner.compare_exchange_weak(
            current.into_usize(),
            new.into_usize(),
            success,
            failure,
        );
        native_exchange_result(current, outcome)
    }

    /// Adds `value` to the tag in the cell and returns the previous value.
    /// The tag is the top of the word: a carry out of it is lost and the
    /// address is never touched.
    pub fn fetch_add(&self, value: u16, order: Ordering) -> MarkedNativePtr<T>
        requires
            usize::BITS == 64,
    {
        let operand = native_tag_word(value);
        MarkedNativePtr::from_usize(atomic_fetch_add_tag(&self.inner, value, operand, order))
    }
}

impl<T> Default for AtomicMarkedNativePtr<T> {
    /// A cell that holds the unmarked `null` pointer.
    fn default() -> Self {
        Self::null()
    }
}

} // verus!
