//! The marked pointer that threads share.
//!
//! The cell is one `AtomicUsize`.  What another thread has stored in it is
//! not known to a caller, so the contracts here say which orderings an
//! operation takes, what is handed to the hardware, and how the value that
//! comes back is read.

use crate::codec::{mark_mask, spec_decompose_ptr, spec_decompose_tag, spec_mark_mask};
use crate::ptr::MarkedPtr;
use core::marker::PhantomData;
use core::sync::atomic::{AtomicUsize, Ordering};
use vstd::prelude::*;
use vstd::std_specs::convert::FromSpecImpl;

verus! {

/// The orderings that a load takes: all but `Release` and `AcqRel`.
pub open spec fn is_load_ordering(order: Ordering) -> bool {
    order is Relaxed || order is Acquire || order is SeqCst
}

/// The orderings that a store takes: all but `Acquire` and `AcqRel`.
pub open spec fn is_store_ordering(order: Ordering) -> bool {
    order is Relaxed || order is Release || order is SeqCst
}

/// The pairs of orderings that a compare-and-exchange takes: the failure
/// ordering is one that a load takes and is no stronger than the success
/// ordering.
pub open spec fn is_exchange_ordering(success: Ordering, failure: Ordering) -> bool {
    ||| failure is Relaxed
    ||| failure is Acquire && (success is Acquire || success is AcqRel || success is SeqCst)
    ||| failure is SeqCst && success is SeqCst
}

/// Tells whether a load takes `order`.
pub fn load_ordering_ok(order: Ordering) -> (ok: bool)
    ensures
        ok == is_load_ordering(order),
{
    match order {
        Ordering::Relaxed | Ordering::Acquire | Ordering::SeqCst => true,
        _ => false,
    }
}

/// Tells whether a store takes `order`.
pub fn store_ordering_ok(order: Ordering) -> (ok: bool)
    ensures
        ok == is_store_ordering(order),
{
    match order {
        Ordering::Relaxed | Ordering::Release | Ordering::SeqCst => true,
        _ => false,
    }
}

/// Tells whether a compare-and-exchange takes `success` and `failure` as
/// its pair of orderings.
pub fn exchange_ordering_ok(success: Ordering, failure: Ordering) -> (ok: bool)
    ensures
        ok == is_exchange_ordering(success, failure),
{
    match failure {
        Ordering::Relaxed => true,
        Ordering::Acquire => match success {
            Ordering::Acquire | Ordering::AcqRel | Ordering::SeqCst => true,
            _ => false,
        },
        Ordering::SeqCst => match success {
            Ordering::SeqCst => true,
            _ => false,
        },
        _ => false,
    }
}

/// The strongest failure ordering that goes with `order` as the success
/// ordering of a compare-and-exchange.
pub open spec fn strongest_failure_ordering_for(order: Ordering) -> Ordering {
    if order is SeqCst {
        Ordering::SeqCst
    } else if order is Acquire || order is AcqRel {
        Ordering::Acquire
    } else {
        Ordering::Relaxed
    }
}

/// Returns the strongest failure ordering that goes with `order` as the
/// success ordering of a compare-and-exchange.
pub fn strongest_failure_ordering(order: Ordering) -> (failure: Ordering)
    ensures
        failure == strongest_failure_ordering_for(order),
        is_exchange_ordering(order, failure),
        is_load_ordering(failure),
{
    match order {
        Ordering::Release => Ordering::Relaxed,
        Ordering::Relaxed => Ordering::Relaxed,
        Ordering::SeqCst => Ordering::SeqCst,
        Ordering::Acquire => Ordering::Acquire,
        Ordering::AcqRel => Ordering::Acquire,
        _ => vstd::pervasive::unreached(),
    }
}

/// What a compare-and-exchange on marked pointers returns for the outcome
/// of the hardware's compare-and-exchange on their words: on success the
/// expected pointer, which the cell held, on failure the word found in the
/// cell.
pub open spec fn spec_exchange_result<T, const N: usize>(
    current: MarkedPtr<T, N>,
    outcome: Result<usize, usize>,
    res: Result<MarkedPtr<T, N>, MarkedPtr<T, N>>,
) -> bool {
    match outcome {
        Ok(_) => res == Ok::<MarkedPtr<T, N>, MarkedPtr<T, N>>(current),
        Err(found) => res matches Err(actual) && actual@ == found,
    }
}

/// Reads the outcome of the hardware's compare-and-exchange as marked
/// pointers.
pub fn exchange_result<T, const N: usize>(
    current: MarkedPtr<T, N>,
    outcome: Result<usize, usize>,
) -> (res: Result<MarkedPtr<T, N>, MarkedPtr<T, N>>)
    ensures
        spec_exchange_result(current, outcome, res),
{
    match outcome {
        Ok(_) => Ok(current),
        Err(found) => Err(MarkedPtr::from_usize(found)),
    }
}

/// The pointer that a cell held before a compare-and-exchange, whichever
/// way that went.
pub fn previous_of<P>(outcome: Result<P, P>) -> (previous: P)
    ensures
        outcome matches Ok(found) ==> previous == found,
        outcome matches Err(found) ==> previous == found,
{
    match outcome {
        Ok(found) => found,
        Err(found) => found,
    }
}

/// What the hardware's compare-and-exchange makes of a word that no other
/// thread touches between the calls: the word it leaves in the cell, and the
/// outcome it reports.  It stores `new` and reports `Ok` with the word found
/// where that is `current`; else it stores nothing and reports `Err` with
/// the word found.
pub open spec fn spec_word_exchange(stored: usize, current: usize, new: usize) -> (
    usize,
    Result<usize, usize>,
) {
    if stored == current {
        (new, Ok(stored))
    } else {
        (stored, Err(stored))
    }
}

/// Single-word compare-and-exchange succeeds once: on a cell that holds `v`
/// and that no other thread touches, a compare-and-exchange of `v` for `w`
/// returns `Ok(v)`, and the same call made again returns `Err(w)`, unless
/// `w` is `v`, where it succeeds again.
pub proof fn lemma_exchange_succeeds_once<T, const N: usize>(
    v: MarkedPtr<T, N>,
    w: MarkedPtr<T, N>,
    first: Result<MarkedPtr<T, N>, MarkedPtr<T, N>>,
    second: Result<MarkedPtr<T, N>, MarkedPtr<T, N>>,
)
    requires
        v@ != w@,
        spec_exchange_result(v, spec_word_exchange(v@, v@, w@).1, first),
        spec_exchange_result(
            v,
            spec_word_exchange(spec_word_exchange(v@, v@, w@).0, v@, w@).1,
            second,
        ),
    ensures
        first == Ok::<MarkedPtr<T, N>, MarkedPtr<T, N>>(v),
        second == Err::<MarkedPtr<T, N>, MarkedPtr<T, N>>(w),
{
    let actual = second->Err_0;
    actual.lemma_view_is_injective(w);
}

/// The operand that `fetch_or` hands to the hardware: `value` cut down to
/// the tag bits, so that no pointer bit is set in it.
pub fn fetch_or_operand<const N: usize>(value: usize) -> (operand: usize)
    ensures
        operand == spec_decompose_tag(value, N),
        spec_decompose_ptr(operand, N) == 0,
{
    proof {
        lemma_tag_has_no_address(value, N);
    }
    value & mark_mask(N)
}

/// The operand that `fetch_xor` hands to the hardware: `value` cut down to
/// the tag bits, so that no pointer bit is set in it.
pub fn fetch_xor_operand<const N: usize>(value: usize) -> (operand: usize)
    ensures
        operand == spec_decompose_tag(value, N),
        spec_decompose_ptr(operand, N) == 0,
{
    fetch_or_operand::<N>(value)
}

/// The operand that `fetch_and` hands to the hardware: `value` with every
/// pointer bit set.
pub fn fetch_and_operand<const N: usize>(value: usize) -> (operand: usize)
    ensures
        operand == !spec_mark_mask(N) | value,
        spec_decompose_ptr(operand, N) == !spec_mark_mask(N),
        spec_decompose_tag(operand, N) == spec_decompose_tag(value, N),
{
    let mask = mark_mask(N);
    assert((!mask | value) & !mask == !mask && (!mask | value) & mask == value & mask)
        by (bit_vector);
    !mask | value
}

/// The word that `fetch_nand` puts in place of the word `found` in the
/// cell: the address of `found`, with the "nand" of its tag and `value` in
/// the tag bits.
pub open spec fn spec_fetch_nand_word(found: usize, value: usize, tag_bits: usize) -> usize {
    (found & !spec_mark_mask(tag_bits)) | (!(found & value) & spec_mark_mask(tag_bits))
}

/// Makes the word that `fetch_nand` puts in place of the word `found`: no
/// pointer bit changes, and the tag becomes the "nand" of the tag found and
/// `value`, cut down to the tag bits.
pub fn fetch_nand_word<const N: usize>(found: usize, value: usize) -> (word: usize)
    ensures
        word == spec_fetch_nand_word(found, value, N),
        spec_decompose_ptr(word, N) == spec_decompose_ptr(found, N),
        spec_decompose_tag(word, N) == !(spec_decompose_tag(found, N) & value) & spec_mark_mask(N),
{
    let mask = mark_mask(N);
    assert(((found & !mask) | (!(found & value) & mask)) & !mask == found & !mask && ((found
        & !mask) | (!(found & value) & mask)) & mask == !((found & mask) & value) & mask)
        by (bit_vector);
    (found & !mask) | (!(found & value) & mask)
}

/// The tag bits of a word hold no pointer bit.
pub proof fn lemma_tag_has_no_address(word: usize, tag_bits: usize)
    ensures
        spec_decompose_ptr(spec_decompose_tag(word, tag_bits), tag_bits) == 0,
{
    let m = spec_mark_mask(tag_bits);
    assert((word & m) & !m == 0) by (bit_vector);
}

/// A bitwise "or" with the operand of `fetch_or` changes no pointer bit, and
/// makes of the tag its "or" with the tag bits of `value`.
pub proof fn lemma_fetch_or_touches_tag_only(word: usize, value: usize, tag_bits: usize)
    ensures
        spec_decompose_ptr(word | spec_decompose_tag(value, tag_bits), tag_bits)
            == spec_decompose_ptr(word, tag_bits),
        spec_decompose_tag(word | spec_decompose_tag(value, tag_bits), tag_bits)
            == spec_decompose_tag(word, tag_bits) | spec_decompose_tag(value, tag_bits),
{
    let m = spec_mark_mask(tag_bits);
    assert((word | (value & m)) & !m == word & !m) by (bit_vector);
    assert((word | (value & m)) & m == (word & m) | (value & m)) by (bit_vector);
}

/// A bitwise "xor" with the operand of `fetch_xor` changes no pointer bit,
/// and makes of the tag its "xor" with the tag bits of `value`.
pub proof fn lemma_fetch_xor_touches_tag_only(word: usize, value: usize, tag_bits: usize)
    ensures
        spec_decompose_ptr(word ^ spec_decompose_tag(value, tag_bits), tag_bits)
            == spec_decompose_ptr(word, tag_bits),
        spec_decompose_tag(word ^ spec_decompose_tag(value, tag_bits), tag_bits)
            == spec_decompose_tag(word, tag_bits) ^ spec_decompose_tag(value, tag_bits),
{
    let m = spec_mark_mask(tag_bits);
    assert((word ^ (value & m)) & !m == word & !m) by (bit_vector);
    assert((word ^ (value & m)) & m == (word & m) ^ (value & m)) by (bit_vector);
}

/// A bitwise "and" with the operand of `fetch_and` changes no pointer bit,
/// and makes of the tag its "and" with the tag bits of `value`.
pub proof fn lemma_fetch_and_touches_tag_only(word: usize, value: usize, tag_bits: usize)
    ensures
        spec_decompose_ptr(word & (!spec_mark_mask(tag_bits) | value), tag_bits)
            == spec_decompose_ptr(word, tag_bits),
        spec_decompose_tag(word & (!spec_mark_mask(tag_bits) | value), tag_bits)
            == spec_decompose_tag(word, tag_bits) & spec_decompose_tag(value, tag_bits),
{
    let m = spec_mark_mask(tag_bits);
    assert((word & (!m | value)) & !m == word & !m) by (bit_vector);
    assert((word & (!m | value)) & m == (word & m) & (value & m)) by (bit_vector);
}

/// A marked pointer that can be safely shared between threads.
///
/// It is one machine word; every operation on it is atomic on that word.
pub struct AtomicMarkedPtr<T, const N: usize> {
    inner: AtomicUsize,
    _marker: PhantomData<T>,
}

/// Consumes the atomic and returns the word it held.  Calls
/// `AtomicUsize::into_inner`; other threads may have stored any word, so
/// nothing is said of the result.
#[verifier::external_body]
pub(crate) fn atomic_into_inner(atomic: AtomicUsize) -> usize {
    atomic.into_inner()
}

/// Replaces the word in the cell by what `fetch_nand_word` makes of it and
/// of `value`, and returns the word that was replaced.  Calls
/// `AtomicUsize::fetch_update`, which reads the cell and tries a
/// compare-and-exchange until one takes place; the function handed to it
/// always gives a word, so both sides of its result hold the word found.
/// Other threads may have stored any word, so nothing is said of the result.
#[verifier::external_body]
fn atomic_fetch_nand<const N: usize>(
    atomic: &AtomicUsize,
    value: usize,
    set_order: Ordering,
    fetch_order: Ordering,
) -> usize
    requires
        is_exchange_ordering(set_order, fetch_order),
{
    match atomic.fetch_update(
        set_order,
        fetch_order,
        |found| Some(fetch_nand_word::<N>(found, value)),
    ) {
        Ok(previous) => previous,
        Err(previous) => previous,
    }
}

/// Stores `new` into the cell if it holds `current`.  Calls
/// `AtomicUsize::compare_exchange`, the form that fails only where the
/// comparison does: `Ok` holds the word found, which is `current`, and `Err`
/// holds the word found, which is not `current`.  Which of the two comes
/// back is the cell's to say.
#[verifier::external_body]
pub(crate) fn atomic_compare_exchange(
    atomic: &AtomicUsize,
    current: usize,
    new: usize,
    success: Ordering,
    failure: Ordering,
) -> (outcome: Result<usize, usize>)
    requires
        is_exchange_ordering(success, failure),
    ensures
        outcome matches Ok(found) ==> found == current,
        outcome matches Err(found) ==> found != current,
{
    atomic.compare_exchange(current, new, success, failure)
}

/// Hands to the hardware's addition the operand for `value`, which is the
/// whole of `value`: nothing is masked.  Returns the word found.
fn atomic_fetch_add_word(atomic: &AtomicUsize, value: usize, operand: usize, order: Ordering) -> usize
    requires
        operand == value,
{
    atomic.fetch_add(operand, order)
}

/// Hands to the hardware's subtraction the operand for `value`, which is
/// the whole of `value`: nothing is masked.  Returns the word found.
fn atomic_fetch_sub_word(atomic: &AtomicUsize, value: usize, operand: usize, order: Ordering) -> usize
    requires
        operand == value,
{
    atomic.fetch_sub(operand, order)
}

/// Hands to the hardware's "or" the operand for `value`, which is the tag
/// bits of `value`, so that the address in the cell stays as it is.
/// Returns the word found.
fn atomic_fetch_or_tag<const N: usize>(
    atomic: &AtomicUsize,
    value: usize,
    operand: usize,
    order: Ordering,
) -> usize
    requires
        operand == spec_decompose_tag(value, N),
{
    atomic.fetch_or(operand, order)
}

/// Hands to the hardware's "xor" the operand for `value`, which is the tag
/// bits of `value`, so that the address in the cell stays as it is.
/// Returns the word found.
fn atomic_fetch_xor_tag<const N: usize>(
    atomic: &AtomicUsize,
    value: usize,
    operand: usize,
    order: Ordering,
) -> usize
    requires
        operand == spec_decompose_tag(value, N),
{
    atomic.fetch_xor(operand, order)
}

/// Hands to the hardware's "and" the operand for `value`, which is `value`
/// with every pointer bit set, so that the address in the cell stays as it
/// is.  Returns the word found.
fn atomic_fetch_and_tag<const N: usize>(
    atomic: &AtomicUsize,
    value: usize,
    operand: usize,
    order: Ordering,
) -> usize
    requires
        operand == !spec_mark_mask(N) | value,
{
    atomic.fetch_and(operand, order)
}

impl<T, const N: usize> AtomicMarkedPtr<T, N> {
    /// Creates a cell that holds the unmarked `null` pointer.
    pub fn null() -> Self {
        Self { inner: AtomicUsize::new(0), _marker: PhantomData }
    }

    /// Creates a cell that holds `marked_ptr`.
    pub fn new(marked_ptr: MarkedPtr<T, N>) -> Self {
        Self { inner: AtomicUsize::new(marked_ptr.into_usize()), _marker: PhantomData }
    }

    /// Consumes the cell and returns the marked pointer that it holds.
    pub fn into_inner(self) -> MarkedPtr<T, N> {
        MarkedPtr::from_usize(atomic_into_inner(self.inner))
    }

    /// Loads the value of the cell.
    pub fn load(&self, order: Ordering) -> MarkedPtr<T, N>
        requires
            is_load_ordering(order),
    {
        MarkedPtr::from_usize(self.inner.load(order))
    }

    /// Stores `ptr` into the cell.
    pub fn store(&self, ptr: MarkedPtr<T, N>, order: Ordering)
        requires
            is_store_ordering(order),
    {
        self.inner.store(ptr.into_usize(), order)
    }

    /// Stores `ptr` into the cell and returns the previous value.
    pub fn swap(&self, ptr: MarkedPtr<T, N>, order: Ordering) -> MarkedPtr<T, N> {
        MarkedPtr::from_usize(self.inner.swap(ptr.into_usize(), order))
    }

    /// Stores `new` into the cell if it holds `current`, and returns what it
    /// held before in either case: `current` itself if the store took place.
    pub fn compare_and_swap(
        &self,
        current: MarkedPtr<T, N>,
        new: MarkedPtr<T, N>,
        order: Ordering,
    ) -> MarkedPtr<T, N> {
        let failure = strongest_failure_ordering(order);
        previous_of(self.compare_exchange(current, new, order, failure))
    }

    /// Stores `new` into the cell if it holds `current`.
    ///
    /// Returns `Ok` with `current` if the store took place, else `Err` with
    /// the value found in the cell, which is then another than `current`:
    /// this form does not fail where the cell holds `current`.
    pub fn compare_exchange(
        &self,
        current: MarkedPtr<T, N>,
        new: MarkedPtr<T, N>,
        success: Ordering,
        failure: Ordering,
    ) -> (res: Result<MarkedPtr<T, N>, MarkedPtr<T, N>>)
        requires
            is_exchange_ordering(success, failure),
        ensures
            res matches Ok(previous) ==> previous == current,
            res matches Err(actual) ==> actual@ != current@,
    {
        let outcome = atomic_compare_exchange(
            &self.inner,
            current.into_usize(),
            new.into_usize(),
            success,
            failure,
        );
        exchange_result(current, outcome)
    }

    /// Stores `new` into the cell if it holds `current`, and may fail to do
    /// so even then; callers retry in a loop.
    ///
    /// Returns `Ok` with `current` if the store took place, else `Err` with
    /// the value found in the cell, which may be `current` itself.
    pub fn compare_exchange_weak(
        &self,
        current: MarkedPtr<T, N>,
        new: MarkedPtr<T, N>,
        success: Ordering,
        failure: Ordering,
    ) -> (res: Result<MarkedPtr<T, N>, MarkedPtr<T, N>>)
        requires
            is_exchange_ordering(success, failure),
        ensures
            res matches Ok(previous) ==> previous == current,
    {
        let outcome = self.inner.compare_exchange_weak(
            current.into_usize(),
            new.into_usize(),
            success,
            failure,
        );
        exchange_result(current, outcome)
    }

    /// Adds `value` to the whole word in the cell, wrapping around, and
    /// returns the previous value.  Nothing is masked: a carry out of the
    /// tag changes the address.
    pub fn fetch_add(&self, value: usize, order: Ordering) -> MarkedPtr<T, N> {
        MarkedPtr::from_usize(atomic_fetch_add_word(&self.inner, value, value, order))
    }

    /// Subtracts `value` from the whole word in the cell, wrapping around,
    /// and returns the previous value.  Nothing is masked: a borrow out of
    /// the tag changes the address.
    pub fn fetch_sub(&self, value: usize, order: Ordering) -> MarkedPtr<T, N> {
        MarkedPtr::from_usize(atomic_fetch_sub_word(&self.inner, value, value, order))
    }

    /// Performs a bitwise "and" of the tag bits of `value` with the tag in
    /// the cell and returns the previous value.
    pub fn fetch_and(&self, value: usize, order: Ordering) -> MarkedPtr<T, N> {
        let operand = fetch_and_operand::<N>(value);
        MarkedPtr::from_usize(atomic_fetch_and_tag::<N>(&self.inner, value, operand, order))
    }

    /// Performs a bitwise "nand" of `value` with the tag in the cell and
    /// returns the previous value.  The address in the cell stays as it is:
    /// the new word is made by `fetch_nand_word`.
    pub fn fetch_nand(&self, value: usize, order: Ordering) -> MarkedPtr<T, N> {
        let fetch_order = strongest_failure_ordering(order);
        MarkedPtr::from_usize(atomic_fetch_nand::<N>(&self.inner, value, order, fetch_order))
    }

    /// Performs a bitwise "or" of the tag bits of `value` with the tag in
    /// the cell and returns the previous value.
    pub fn fetch_or(&self, value: usize, order: Ordering) -> MarkedPtr<T, N> {
        let operand = fetch_or_operand::<N>(value);
        MarkedPtr::from_usize(atomic_fetch_or_tag::<N>(&self.inner, value, operand, order))
    }

    /// Performs a bitwise "xor" of the tag bits of `value` with the tag in
    /// the cell and returns the previous value.
    pub fn fetch_xor(&self, value: usize, order: Ordering) -> MarkedPtr<T, N> {
        let operand = fetch_xor_operand::<N>(value);
        MarkedPtr::from_usize(atomic_fetch_xor_tag::<N>(&self.inner, value, operand, order))
    }
}

impl<T, const N: usize> Default for AtomicMarkedPtr<T, N> {
    /// A cell that holds the unmarked `null` pointer.
    fn default() -> Self {
        Self::null()
    }
}

impl<T, const N: usize> From<MarkedPtr<T, N>> for AtomicMarkedPtr<T, N> {
    /// A cell that holds `marked_ptr`.
    fn from(marked_ptr: MarkedPtr<T, N>) -> Self {
        Self::new(marked_ptr)
    }
}

impl<T, const N: usize> FromSpecImpl<MarkedPtr<T, N>> for AtomicMarkedPtr<T, N> {
    /// A cell that threads share has no value to state, so the conversion
    /// has no specification function.
    open spec fn obeys_from_spec() -> bool {
        false
    }

    open spec fn from_spec(marked_ptr: MarkedPtr<T, N>) -> Self {
        arbitrary()
    }
}

} // verus!
