//! The nullable marked pointer.

use crate::codec::{
    assert_alignment, lemma_add_within_tag, lemma_aligned_address_has_no_tag,
    lemma_compose_keeps_ptr, lemma_compose_truncates_tag, lemma_decompose_is_div_mod,
    lemma_sub_within_tag, spec_compose, spec_decompose_ptr, spec_decompose_tag,
    spec_has_sufficient_alignment, spec_mark_mask,
};
use core::marker::PhantomData;
use vstd::layout::align_of;
use vstd::prelude::*;
use vstd::std_specs::cmp::PartialEqSpecImpl;
use vstd::std_specs::convert::FromSpecImpl;

verus! {

/// A pointer-sized word in which the low `N` bits hold a tag and the bits
/// above them the address of a `T`.
///
/// The type never dereferences the address and does not own the pointee.
#[derive(Debug, Hash, PartialOrd, Ord)]
pub struct MarkedPtr<T, const N: usize> {
    inner: usize,
    _marker: PhantomData<T>,
}

impl<T, const N: usize> View for MarkedPtr<T, N> {
    type V = usize;

    /// The marked word itself: address and tag in one integer.
    closed spec fn view(&self) -> usize {
        self.inner
    }
}

impl<T, const N: usize> Clone for MarkedPtr<T, N> {
    fn clone(&self) -> (res: Self)
        ensures
            res == *self,
    {
        Self { inner: self.inner, _marker: PhantomData }
    }
}

impl<T, const N: usize> Copy for MarkedPtr<T, N> {

}

impl<T, const N: usize> MarkedPtr<T, N> {
    /// The address component: the word with its low `N` bits cleared.
    pub open spec fn spec_ptr(self) -> usize {
        spec_decompose_ptr(self@, N)
    }

    /// The tag component: the low `N` bits of the word.
    pub open spec fn spec_tag(self) -> usize {
        spec_decompose_tag(self@, N)
    }

    /// A marked pointer is null when its address component is zero,
    /// whatever its tag.
    pub open spec fn spec_is_null(self) -> bool {
        self.spec_ptr() == 0
    }

    /// Two marked pointers with the same word are the same value.
    pub proof fn lemma_view_is_injective(self, other: Self)
        requires
            self@ == other@,
        ensures
            self == other,
    {
    }

    /// Creates an unmarked `null` pointer.
    pub fn null() -> (res: Self)
        ensures
            res@ == 0,
    {
        Self::new(0)
    }

    /// Creates a marked pointer from the address `ptr`, taken as it is.
    pub fn new(ptr: usize) -> (res: Self)
        ensures
            res@ == ptr,
    {
        Self { inner: ptr, _marker: PhantomData }
    }

    /// Creates a marked pointer from the integer `val`, taken as it is.
    pub fn from_usize(val: usize) -> (res: Self)
        ensures
            res@ == val,
    {
        Self::new(val)
    }

    /// Returns the marked word as an address, tag bits included.
    pub fn into_raw(self) -> (res: usize)
        ensures
            res == self@,
    {
        self.inner
    }

    /// Returns the marked word as an address, tag bits included.
    pub fn into_ptr(self) -> (res: usize)
        ensures
            res == self@,
    {
        self.inner
    }

    /// Returns the marked word as an integer.
    pub fn into_usize(self) -> (res: usize)
        ensures
            res == self@,
    {
        self.inner
    }

    /// Casts to a marked pointer of another pointee type; the word is kept.
    pub fn cast<U>(self) -> (res: MarkedPtr<U, N>)
        ensures
            res@ == self@,
    {
        MarkedPtr { inner: self.inner, _marker: PhantomData }
    }

    /// Composes a new marked pointer from the address `ptr` and `tag`.
    ///
    /// Bits of `tag` at or above `N` are silently truncated.
    pub fn compose(ptr: usize, tag: usize) -> (res: Self)
        requires
            spec_has_sufficient_alignment::<T>(N),
        ensures
            res@ == spec_compose(ptr, tag, N),
            res.spec_ptr() == spec_decompose_ptr(ptr, N),
            res.spec_tag() == spec_decompose_tag(tag, N),
    {
        assert_alignment::<T, N>();
        proof {
            lemma_compose_keeps_ptr(ptr, tag, N);
            lemma_compose_truncates_tag(ptr, tag, N);
        }
        Self::new(crate::codec::compose(ptr, tag, N))
    }

    /// Returns `true` if the marked pointer is `null`, whatever its tag.
    pub fn is_null(self) -> (res: bool)
        ensures
            res == self.spec_is_null(),
    {
        self.decompose_ptr() == 0
    }

    /// Clears (zeroes) the tag and returns the same pointer.
    pub fn clear_tag(self) -> (res: Self)
        ensures
            res@ == self.spec_ptr(),
            res.spec_ptr() == self.spec_ptr(),
            res.spec_tag() == 0,
    {
        proof {
            lemma_compose_keeps_ptr(self@, 0, N);
        }
        Self::new(self.decompose_ptr())
    }

    /// Splits the tag from the pointer and returns the unmarked pointer and
    /// the previous tag.
    pub fn split_tag(self) -> (res: (Self, usize))
        ensures
            res.0@ == self.spec_ptr(),
            res.0.spec_ptr() == self.spec_ptr(),
            res.0.spec_tag() == 0,
            res.1 == self.spec_tag(),
    {
        proof {
            lemma_compose_keeps_ptr(self@, 0, N);
        }
        let (ptr, tag) = self.decompose();
        (Self::new(ptr), tag)
    }

    /// Sets the tag to `tag` and returns the marked pointer.  The address
    /// component is untouched.
    pub fn set_tag(self, tag: usize) -> (res: Self)
        requires
            spec_has_sufficient_alignment::<T>(N),
        ensures
            res@ == spec_compose(self.spec_ptr(), tag, N),
            res.spec_ptr() == self.spec_ptr(),
            res.spec_tag() == spec_decompose_tag(tag, N),
    {
        assert_alignment::<T, N>();
        proof {
            lemma_compose_keeps_ptr(self@, 0, N);
        }
        let ptr = self.decompose_ptr();
        Self::compose(ptr, tag)
    }

    /// Sets the tag to `tag` and returns the marked pointer.  The address
    /// component is untouched.
    pub fn with_tag(self, tag: usize) -> (res: Self)
        requires
            spec_has_sufficient_alignment::<T>(N),
        ensures
            res@ == spec_compose(self.spec_ptr(), tag, N),
            res.spec_ptr() == self.spec_ptr(),
            res.spec_tag() == spec_decompose_tag(tag, N),
    {
        self.set_tag(tag)
    }

    /// Replaces the tag with what `func` makes of it.  The address component
    /// is untouched.
    pub fn update_tag<F: FnOnce(usize) -> usize>(self, func: F) -> (res: Self)
        requires
            spec_has_sufficient_alignment::<T>(N),
            call_requires(func, (self.spec_tag(),)),
        ensures
            exists|tag: usize|
                call_ensures(func, (self.spec_tag(),), tag) && res@ == spec_compose(
                    self.spec_ptr(),
                    tag,
                    N,
                ),
            res.spec_ptr() == self.spec_ptr(),
    {
        assert_alignment::<T, N>();
        proof {
            lemma_compose_keeps_ptr(self@, 0, N);
        }
        let (ptr, tag) = self.decompose();
        let new_tag = func(tag);
        Self::compose(ptr, new_tag)
    }

    /// Adds `value` to the whole word, wrapping around at the width of a
    /// word.  Nothing is masked: a carry out of the tag changes the address.
    pub fn add_tag(self, value: usize) -> (res: Self)
        ensures
            res@ == vstd::wrapping::usize_specs::wrapping_add(self@, value),
            self.spec_tag() + value <= spec_mark_mask(N) ==> res.spec_ptr() == self.spec_ptr()
                && res.spec_tag() == self.spec_tag() + value,
    {
        proof {
            if self.spec_tag() + value <= spec_mark_mask(N) {
                lemma_add_within_tag(self@, value, N);
            }
        }
        Self::from_usize(self.into_usize().wrapping_add(value))
    }

    /// Subtracts `value` from the whole word, wrapping around at zero.
    /// Nothing is masked: a borrow out of the tag changes the address.
    pub fn sub_tag(self, value: usize) -> (res: Self)
        ensures
            res@ == vstd::wrapping::usize_specs::wrapping_sub(self@, value),
            value <= self.spec_tag() ==> res.spec_ptr() == self.spec_ptr() && res.spec_tag()
                == self.spec_tag() - value,
    {
        proof {
            if value <= self.spec_tag() {
                lemma_sub_within_tag(self@, value, N);
            }
        }
        Self::from_usize(self.into_usize().wrapping_sub(value))
    }

    /// Tells whether adding `value` to the word carries out of the tag into
    /// the address: whether the tag and `value` together exceed the largest
    /// tag.
    pub fn add_carries_into_address(self, value: usize) -> (carried: bool)
        ensures
            carried == (self.spec_tag() + value > spec_mark_mask(N)),
            !carried ==> spec_decompose_ptr(
                vstd::wrapping::usize_specs::wrapping_add(self@, value),
                N,
            ) == self.spec_ptr(),
    {
        proof {
            lemma_decompose_is_div_mod(self@, N);
            if self.spec_tag() + value <= spec_mark_mask(N) {
                lemma_add_within_tag(self@, value, N);
            }
        }
        value > crate::codec::mark_mask(N) - self.decompose_tag()
    }

    /// Tells whether subtracting `value` from the word borrows from the
    /// address: whether `value` exceeds the tag.
    pub fn sub_borrows_from_address(self, value: usize) -> (borrowed: bool)
        ensures
            borrowed == (value > self.spec_tag()),
            !borrowed ==> spec_decompose_ptr(
                vstd::wrapping::usize_specs::wrapping_sub(self@, value),
                N,
            ) == self.spec_ptr(),
    {
        proof {
            if value <= self.spec_tag() {
                lemma_sub_within_tag(self@, value, N);
            }
        }
        value > self.decompose_tag()
    }

    /// Decomposes the marked pointer into its address and its tag.
    pub fn decompose(self) -> (res: (usize, usize))
        ensures
            res.0 == self.spec_ptr(),
            res.1 == self.spec_tag(),
    {
        (self.decompose_ptr(), self.decompose_tag())
    }

    /// Decomposes the marked pointer into only its address.
    pub fn decompose_ptr(self) -> (res: usize)
        ensures
            res == self.spec_ptr(),
    {
        crate::codec::decompose_ptr(self.inner, N)
    }

    /// Decomposes the marked pointer into only its tag.
    pub fn decompose_tag(self) -> (res: usize)
        ensures
            res == self.spec_tag(),
    {
        crate::codec::decompose_tag(self.inner, N)
    }
}

impl<T, const N: usize> PartialEq for MarkedPtr<T, N> {
    /// Two marked pointers are equal when their words are: same address and
    /// same tag.
    fn eq(&self, other: &Self) -> (res: bool) {
        self.inner == other.inner
    }
}

impl<T, const N: usize> PartialEqSpecImpl for MarkedPtr<T, N> {
    open spec fn obeys_eq_spec() -> bool {
        true
    }

    open spec fn eq_spec(&self, other: &Self) -> bool {
        self@ == other@
    }
}

impl<T, const N: usize> Eq for MarkedPtr<T, N> {

}

impl<T, const N: usize> Default for MarkedPtr<T, N> {
    /// The unmarked `null` pointer.
    fn default() -> (res: Self)
        ensures
            res@ == 0,
    {
        Self::null()
    }
}

/// The address of the referent of a shared reference.
///
/// Calls `core::ptr::from_ref` and `addr` on what it returns.  A reference is
/// never null and always aligned for its type; nothing else is claimed of the
/// address.
#[verifier::external_body]
pub(crate) fn address_of_ref<T>(reference: &T) -> (addr: usize)
    ensures
        addr != 0,
        addr as int % (align_of::<T>() as int) == 0,
{
    core::ptr::from_ref(reference).addr()
}

/// The address of the referent of an exclusive reference.
///
/// Calls `core::ptr::from_mut` and `addr` on what it returns.  A reference is
/// never null and always aligned for its type; the referent is not touched.
#[verifier::external_body]
pub(crate) fn address_of_mut<T>(reference: &mut T) -> (addr: usize)
    ensures
        addr != 0,
        addr as int % (align_of::<T>() as int) == 0,
        *final(reference) == *old(reference),
{
    core::ptr::from_mut(reference).addr()
}

impl<T, const N: usize> From<&T> for MarkedPtr<T, N> {
    /// The marked pointer whose word is the address of the referent.
    fn from(reference: &T) -> (res: Self)
        ensures
            res@ != 0,
            res@ as int % (align_of::<T>() as int) == 0,
            spec_has_sufficient_alignment::<T>(N) ==> res.spec_tag() == 0 && res.spec_ptr()
                == res@,
    {
        let addr = address_of_ref(reference);
        proof {
            if spec_has_sufficient_alignment::<T>(N) {
                lemma_aligned_address_has_no_tag::<T>(addr, N);
            }
        }
        Self::new(addr)
    }
}

impl<T, const N: usize> FromSpecImpl<&T> for MarkedPtr<T, N> {
    /// An address is no function of the referent's value, so the conversion
    /// has no specification function; its contract is on `from`.
    open spec fn obeys_from_spec() -> bool {
        false
    }

    open spec fn from_spec(reference: &T) -> Self {
        arbitrary()
    }
}

impl<T, const N: usize> FromSpecImpl<&mut T> for MarkedPtr<T, N> {
    /// An address is no function of the referent's value, so the conversion
    /// has no specification function; its contract is on `from`.
    open spec fn obeys_from_spec() -> bool {
        false
    }

    open spec fn from_spec(reference: &mut T) -> Self {
        arbitrary()
    }
}

impl<T, const N: usize> From<&mut T> for MarkedPtr<T, N> {
    /// The marked pointer whose word is the address of the referent.
    fn from(reference: &mut T) -> (res: Self)
        ensures
            res@ != 0,
            res@ as int % (align_of::<T>() as int) == 0,
            spec_has_sufficient_alignment::<T>(N) ==> res.spec_tag() == 0 && res.spec_ptr()
                == res@,
    {
        let addr = address_of_mut(reference);
        proof {
            if spec_has_sufficient_alignment::<T>(N) {
                lemma_aligned_address_has_no_tag::<T>(addr, N);
            }
        }
        Self::new(addr)
    }
}

} // verus!
