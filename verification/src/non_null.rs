//! The marked pointer that is never null.

use crate::codec::{
    lemma_add_within_tag, lemma_aligned_address_has_no_tag, lemma_alignment_is_pow2,
    lemma_compose_keeps_ptr,
    lemma_compose_roundtrip, lemma_compose_truncates_tag, lemma_decompose_is_div_mod,
    lemma_mark_mask_value, lemma_null_has_no_address, lemma_sub_within_tag, mark_mask,
    spec_compose, spec_decompose_ptr, spec_decompose_tag, spec_has_sufficient_alignment,
    spec_lower_bits, spec_mark_mask,
};
use crate::ptr::{address_of_mut, address_of_ref, MarkedPtr};
use core::marker::PhantomData;
use vstd::arithmetic::power2::{
    lemma_pow2_adds, lemma_pow2_pos, lemma_pow2_strictly_increases, pow2,
};
use vstd::layout::align_of;
use vstd::prelude::*;
use vstd::std_specs::cmp::PartialEqSpecImpl;
use vstd::std_specs::convert::TryFromSpecImpl;

verus! {

/// A `null` pointer together with the tag that it carried.
#[derive(Clone, Copy, Debug, Hash, PartialEq, Eq, Structural, PartialOrd, Ord)]
pub struct Null(pub usize);

impl Null {
    /// Returns the tag value.
    pub fn tag(self) -> (res: usize)
        ensures
            res == self.0,
    {
        self.0
    }
}

impl Default for Null {
    /// The `null` pointer with tag zero.
    fn default() -> (res: Self)
        ensures
            res == Null(0),
    {
        Null(0)
    }
}

/// A marked pointer whose address component is never zero.
///
/// The tag may be any value.  A word such as `0x1` is no valid value for
/// `N > 0`: its address component is zero and it would read as a `null`
/// pointer with tag `1`.
#[derive(Debug, Hash, PartialOrd, Ord)]
pub struct MarkedNonNull<T, const N: usize> {
    inner: usize,
    _marker: PhantomData<T>,
}

impl<T, const N: usize> View for MarkedNonNull<T, N> {
    type V = usize;

    /// The marked word itself: address and tag in one integer.
    closed spec fn view(&self) -> usize {
        self.inner
    }
}

impl<T, const N: usize> Clone for MarkedNonNull<T, N> {
    fn clone(&self) -> (res: Self)
        ensures
            res == *self,
    {
        proof {
            use_type_invariant(self);
        }
        Self { inner: self.inner, _marker: PhantomData }
    }
}

impl<T, const N: usize> Copy for MarkedNonNull<T, N> {

}

impl<T, const N: usize> MarkedNonNull<T, N> {
    /// Every value has a non-zero address component.
    #[verifier::type_invariant]
    spec fn address_is_not_null(self) -> bool {
        spec_decompose_ptr(self.inner, N) != 0
    }

    /// The address component: the word with its low `N` bits cleared.
    pub open spec fn spec_ptr(self) -> usize {
        spec_decompose_ptr(self@, N)
    }

    /// The tag component: the low `N` bits of the word.
    pub open spec fn spec_tag(self) -> usize {
        spec_decompose_tag(self@, N)
    }

    /// The value whose word is `word`.
    pub closed spec fn spec_from_usize(word: usize) -> Self {
        Self { inner: word, _marker: PhantomData }
    }

    /// Two values with the same word are the same value, and
    /// `spec_from_usize` is the inverse of the view.
    pub proof fn lemma_view_is_injective(self, other: Self)
        ensures
            self@ == other@ ==> self == other,
            Self::spec_from_usize(self@) == self,
            Self::spec_from_usize(self@)@ == self@,
    {
    }

    /// Creates a new marked non-null pointer from `marked_ptr` without
    /// checking if it is `null`.
    pub fn new_unchecked(marked_ptr: MarkedPtr<T, N>) -> (res: Self)
        requires
            !marked_ptr.spec_is_null(),
        ensures
            res@ == marked_ptr@,
    {
        Self { inner: marked_ptr.into_usize(), _marker: PhantomData }
    }

    /// Creates a new marked non-null pointer from the integer `val` without
    /// checking if its address component is zero.
    pub fn from_usize(val: usize) -> (res: Self)
        requires
            spec_decompose_ptr(val, N) != 0,
        ensures
            res@ == val,
    {
        Self { inner: val, _marker: PhantomData }
    }

    /// Creates a non-null pointer to the referent, without a tag.
    ///
    /// The alignment of `T` must suffice for `N` tag bits: the address of a
    /// `T` then has no bit set among them.
    pub fn from_ref(reference: &T) -> (res: Self)
        requires
            spec_has_sufficient_alignment::<T>(N),
        ensures
            res@ != 0,
            res@ as int % (align_of::<T>() as int) == 0,
            res.spec_tag() == 0,
            res.spec_ptr() == res@,
    {
        let addr = address_of_ref(reference);
        proof {
            lemma_aligned_address_has_no_tag::<T>(addr, N);
        }
        Self { inner: addr, _marker: PhantomData }
    }

    /// Creates a non-null pointer to the referent, without a tag.
    ///
    /// The alignment of `T` must suffice for `N` tag bits: the address of a
    /// `T` then has no bit set among them.
    pub fn from_mut(reference: &mut T) -> (res: Self)
        requires
            spec_has_sufficient_alignment::<T>(N),
        ensures
            res@ != 0,
            res@ as int % (align_of::<T>() as int) == 0,
            res.spec_tag() == 0,
            res.spec_ptr() == res@,
            *final(reference) == *old(reference),
    {
        let addr = address_of_mut(reference);
        proof {
            lemma_aligned_address_has_no_tag::<T>(addr, N);
        }
        Self { inner: addr, _marker: PhantomData }
    }

    /// Returns the marked word as an address, tag bits included.
    pub fn into_raw(self) -> (res: usize)
        ensures
            res == self@,
            spec_decompose_ptr(res, N) != 0,
    {
        proof {
            use_type_invariant(self);
        }
        self.inner
    }

    /// Returns the marked word as an address, tag bits included.
    pub fn into_non_null(self) -> (res: usize)
        ensures
            res == self@,
            spec_decompose_ptr(res, N) != 0,
    {
        self.into_raw()
    }

    /// Returns the marked word as an integer.
    pub fn into_usize(self) -> (res: usize)
        ensures
            res == self@,
            spec_decompose_ptr(res, N) != 0,
    {
        self.into_raw()
    }

    /// Casts to a marked pointer of another pointee type; the word is kept.
    pub fn cast<U>(self) -> (res: MarkedNonNull<U, N>)
        ensures
            res@ == self@,
    {
        proof {
            use_type_invariant(self);
        }
        MarkedNonNull { inner: self.inner, _marker: PhantomData }
    }

    /// Converts `self` into a (nullable) marked pointer.
    pub fn into_marked_ptr(self) -> (res: MarkedPtr<T, N>)
        ensures
            res@ == self@,
            !res.spec_is_null(),
    {
        proof {
            use_type_invariant(self);
        }
        MarkedPtr::new(self.inner)
    }

    /// Creates a new non-null pointer from `marked_ptr`.
    ///
    /// Fails if `marked_ptr` is `null`, in which case the tag that it
    /// carried is returned.
    pub fn new(marked_ptr: MarkedPtr<T, N>) -> (res: Result<Self, Null>)
        ensures
            res == Self::spec_new(marked_ptr),
            marked_ptr.spec_is_null() <==> res is Err,
            res matches Ok(ptr) ==> ptr@ == marked_ptr@,
            res matches Err(null) ==> null.0 == marked_ptr.spec_tag() && null.0 == marked_ptr@,
    {
        let word = marked_ptr.into_usize();
        proof {
            lemma_decompose_is_div_mod(word, N);
        }
        if word & !mark_mask(N) == 0 {
            Err(Null(word))
        } else {
            Ok(Self { inner: word, _marker: PhantomData })
        }
    }

    /// What `new` and the conversion from a marked pointer return: the same
    /// word as a non-null pointer, or the tag of a `null` pointer.
    pub open spec fn spec_new(marked_ptr: MarkedPtr<T, N>) -> Result<Self, Null> {
        if marked_ptr.spec_is_null() {
            Err(Null(marked_ptr.spec_tag()))
        } else {
            Ok(Self::spec_from_usize(marked_ptr@))
        }
    }

    /// Creates a new pointer that is dangling but well aligned: the larger
    /// of the alignment of `T` and `2^N`.
    pub fn dangling() -> (res: Self)
        requires
            N < usize::BITS,
        ensures
            res@ == if align_of::<T>() >= pow2(N as nat) {
                align_of::<T>()
            } else {
                pow2(N as nat)
            },
            res@ as int % (align_of::<T>() as int) == 0,
            res.spec_tag() == 0,
            res.spec_ptr() == res@,
    {
        let align: usize = core::mem::align_of::<T>();
        let mask = mark_mask(N);
        proof {
            lemma_mark_mask_value(N);
            lemma_alignment_is_pow2::<T>();
        }
        let unit: usize = mask + 1;
        let word: usize = if align >= unit {
            align
        } else {
            unit
        };
        proof {
            let low = spec_lower_bits::<T>();
            if low < N {
                lemma_pow2_strictly_increases(low, N as nat);
            } else if low > N {
                lemma_pow2_strictly_increases(N as nat, low);
            }
            lemma_power_of_two_words(low, N as nat);
            lemma_power_of_two_words(N as nat, low);
            vstd::arithmetic::div_mod::lemma_mod_self_0(word as int);
            lemma_aligned_word(word, N);
        }
        Self { inner: word, _marker: PhantomData }
    }

    /// Composes a new marked pointer from a non-null address `ptr` and a
    /// `tag`.
    ///
    /// `ptr` must have an address component of its own: an address below
    /// `2^N` would read back as a `null` pointer with a tag.
    pub fn compose(ptr: usize, tag: usize) -> (res: Self)
        requires
            spec_has_sufficient_alignment::<T>(N),
            spec_decompose_ptr(ptr, N) != 0,
        ensures
            res@ == spec_compose(ptr, tag, N),
            res.spec_ptr() == spec_decompose_ptr(ptr, N),
            res.spec_tag() == spec_decompose_tag(tag, N),
    {
        Self::compose_unchecked(ptr, tag)
    }

    /// Attempts to compose a new marked pointer from an address `ptr` and a
    /// `tag`.
    ///
    /// Fails if `ptr` has no bit set above its low `N` bits, where it would
    /// be read as a marked `null` pointer.  The error then holds `ptr`
    /// itself, which is all tag.
    pub fn try_compose(ptr: usize, tag: usize) -> (res: Result<Self, Null>)
        requires
            spec_has_sufficient_alignment::<T>(N),
        ensures
            spec_decompose_ptr(ptr, N) == 0 <==> res is Err,
            res matches Ok(composed) ==> composed@ == spec_compose(ptr, tag, N)
                && composed.spec_ptr() == spec_decompose_ptr(ptr, N) && composed.spec_tag()
                == spec_decompose_tag(tag, N),
            res matches Err(null) ==> null.0 == ptr,
    {
        if ptr & !mark_mask(N) == 0 {
            Err(Null(ptr))
        } else {
            Ok(Self::compose_unchecked(ptr, tag))
        }
    }

    /// Composes a new marked pointer from an address `ptr` and a `tag`
    /// without checking if `ptr` has an address component.
    pub fn compose_unchecked(ptr: usize, tag: usize) -> (res: Self)
        requires
            spec_has_sufficient_alignment::<T>(N),
            spec_decompose_ptr(ptr, N) != 0,
        ensures
            res@ == spec_compose(ptr, tag, N),
            res.spec_ptr() == spec_decompose_ptr(ptr, N),
            res.spec_tag() == spec_decompose_tag(tag, N),
    {
        Self::new_unchecked(MarkedPtr::compose(ptr, tag))
    }

    /// Clears (zeroes) the tag and returns the same pointer.
    pub fn clear_tag(self) -> (res: Self)
        ensures
            res@ == self.spec_ptr(),
            res.spec_ptr() == self.spec_ptr(),
            res.spec_tag() == 0,
    {
        proof {
            use_type_invariant(self);
            lemma_compose_keeps_ptr(self@, 0, N);
        }
        Self { inner: self.decompose_non_null(), _marker: PhantomData }
    }

    /// Splits the tag from the pointer and returns the unmarked pointer and
    /// the previous tag.
    pub fn split_tag(self) -> (res: (Self, usize))
        ensures
            res.0@ == self.spec_ptr(),
            res.0.spec_ptr() == self.spec_ptr(),
            res.0.spec_tag() == 0,
            res.1 == self.spec_tag(),
    {
        proof {
            use_type_invariant(self);
            lemma_compose_keeps_ptr(self@, 0, N);
        }
        let (inner, tag) = self.decompose();
        (Self { inner, _marker: PhantomData }, tag)
    }

    /// Sets the tag to `tag` and returns the marked pointer.  The address
    /// component is untouched.
    pub fn set_tag(self, tag: usize) -> (res: Self)
        requires
            spec_has_sufficient_alignment::<T>(N),
        ensures
            res@ == spec_compose(self.spec_ptr(), tag, N),
            res.spec_ptr() == self.spec_ptr(),
            res.spec_tag() == spec_decompose_tag(tag, N),
    {
        proof {
            use_type_invariant(self);
            lemma_compose_keeps_ptr(self@, 0, N);
        }
        let ptr = self.decompose_non_null();
        Self::compose_unchecked(ptr, tag)
    }

    /// Replaces the tag with what `func` makes of it.  The address component
    /// is untouched.
    pub fn update_tag<F: FnOnce(usize) -> usize>(self, func: F) -> (res: Self)
        requires
            spec_has_sufficient_alignment::<T>(N),
            call_requires(func, (self.spec_tag(),)),
        ensures
            exists|tag: usize|
                call_ensures(func, (self.spec_tag(),), tag) && res@ == spec_compose(
                    self.spec_ptr(),
                    tag,
                    N,
                ),
            res.spec_ptr() == self.spec_ptr(),
    {
        proof {
            use_type_invariant(self);
            lemma_compose_keeps_ptr(self@, 0, N);
        }
        let (ptr, tag) = self.decompose();
        let new_tag = func(tag);
        Self::compose_unchecked(ptr, new_tag)
    }

    /// Adds `value` to the whole word, wrapping around at the width of a
    /// word.  Nothing is masked; the caller sees to it that the address
    /// component of the result is not zero.
    pub fn add_tag(self, value: usize) -> (res: Self)
        requires
            spec_decompose_ptr(vstd::wrapping::usize_specs::wrapping_add(self@, value), N) != 0,
        ensures
            res@ == vstd::wrapping::usize_specs::wrapping_add(self@, value),
            self.spec_tag() + value <= spec_mark_mask(N) ==> res.spec_ptr() == self.spec_ptr()
                && res.spec_tag() == self.spec_tag() + value,
    {
        proof {
            if self.spec_tag() + value <= spec_mark_mask(N) {
                lemma_add_within_tag(self@, value, N);
            }
        }
        Self::from_usize(self.into_usize().wrapping_add(value))
    }

    /// Subtracts `value` from the whole word, wrapping around at zero.
    /// Nothing is masked; the caller sees to it that the address component
    /// of the result is not zero.
    pub fn sub_tag(self, value: usize) -> (res: Self)
        requires
            spec_decompose_ptr(vstd::wrapping::usize_specs::wrapping_sub(self@, value), N) != 0,
        ensures
            res@ == vstd::wrapping::usize_specs::wrapping_sub(self@, value),
            value <= self.spec_tag() ==> res.spec_ptr() == self.spec_ptr() && res.spec_tag()
                == self.spec_tag() - value,
    {
        proof {
            if value <= self.spec_tag() {
                lemma_sub_within_tag(self@, value, N);
            }
        }
        Self::from_usize(self.into_usize().wrapping_sub(value))
    }

    /// Decomposes the marked pointer into its address, which is not zero,
    /// and its tag.
    pub fn decompose(self) -> (res: (usize, usize))
        ensures
            res.0 == self.spec_ptr(),
            res.0 != 0,
            res.1 == self.spec_tag(),
    {
        (self.decompose_non_null(), self.decompose_tag())
    }

    /// Decomposes the marked pointer into only its address, which is not
    /// zero.
    pub fn decompose_ptr(self) -> (res: usize)
        ensures
            res == self.spec_ptr(),
            res != 0,
    {
        proof {
            use_type_invariant(self);
        }
        crate::codec::decompose_ptr(self.inner, N)
    }

    /// Decomposes the marked pointer into only its address, which is not
    /// zero.
    pub fn decompose_non_null(self) -> (res: usize)
        ensures
            res == self.spec_ptr(),
            res != 0,
    {
        self.decompose_ptr()
    }

    /// Decomposes the marked pointer into only its tag.
    pub fn decompose_tag(self) -> (res: usize)
        ensures
            res == self.spec_tag(),
    {
        crate::codec::decompose_tag(self.inner, N)
    }
}

/// Of two powers of two the larger is a multiple of the smaller.
proof fn lemma_power_of_two_words(low: nat, high: nat)
    ensures
        low <= high ==> pow2(high) as int % (pow2(low) as int) == 0,
        pow2(low) > 0,
{
    lemma_pow2_pos(low);
    if low <= high {
        let rest = (high - low) as nat;
        lemma_pow2_adds(low, rest);
        lemma_pow2_pos(rest);
        vstd::arithmetic::div_mod::lemma_mod_multiples_basic(pow2(rest) as int, pow2(low) as int);
    }
}

/// A non-zero multiple of `2^tag_bits` is an address without a tag.
proof fn lemma_aligned_word(word: usize, tag_bits: usize)
    requires
        tag_bits < usize::BITS,
        word as int % (pow2(tag_bits as nat) as int) == 0,
    ensures
        spec_decompose_tag(word, tag_bits) == 0,
        spec_decompose_ptr(word, tag_bits) == word,
{
    lemma_decompose_is_div_mod(word, tag_bits);
}

impl<T, const N: usize> PartialEq for MarkedNonNull<T, N> {
    /// Two marked pointers are equal when their words are: same address and
    /// same tag.
    fn eq(&self, other: &Self) -> (res: bool) {
        self.inner == other.inner
    }
}

impl<T, const N: usize> PartialEqSpecImpl for MarkedNonNull<T, N> {
    open spec fn obeys_eq_spec() -> bool {
        true
    }

    open spec fn eq_spec(&self, other: &Self) -> bool {
        self@ == other@
    }
}

impl<T, const N: usize> Eq for MarkedNonNull<T, N> {

}

impl<T, const N: usize> TryFrom<MarkedPtr<T, N>> for MarkedNonNull<T, N> {
    type Error = Null;

    /// The same word as a non-null pointer, or the tag of a `null` pointer.
    fn try_from(marked_ptr: MarkedPtr<T, N>) -> (res: Result<Self, Null>)
        ensures
            marked_ptr.spec_is_null() <==> res is Err,
            res matches Ok(ptr) ==> ptr@ == marked_ptr@,
            res matches Err(null) ==> null.0 == marked_ptr.spec_tag(),
    {
        Self::new(marked_ptr)
    }
}

impl<T, const N: usize> TryFromSpecImpl<MarkedPtr<T, N>> for MarkedNonNull<T, N> {
    open spec fn obeys_try_from_spec() -> bool {
        true
    }

    open spec fn try_from_spec(marked_ptr: MarkedPtr<T, N>) -> Result<Self, Null> {
        Self::spec_new(marked_ptr)
    }
}

/// The value made of a word has that word.
pub proof fn lemma_from_usize_has_the_word<T, const N: usize>(word: usize)
    ensures
        MarkedNonNull::<T, N>::spec_from_usize(word)@ == word,
{
}

/// A non-null marked pointer is accepted as it is: `new` gives back the
/// pointer whose word is that of the marked pointer.
pub proof fn lemma_non_null_is_accepted<T, const N: usize>(marked_ptr: MarkedPtr<T, N>)
    requires
        !marked_ptr.spec_is_null(),
    ensures
        MarkedNonNull::<T, N>::spec_new(marked_ptr) matches Ok(ptr) && ptr@ == marked_ptr@
            && ptr.spec_ptr() == marked_ptr.spec_ptr() && ptr.spec_tag() == marked_ptr.spec_tag(),
{
}

/// Non-null rejection: a marked pointer composed from the `null` address is
/// turned down whatever its tag, and the error holds the tag as the marked
/// pointer carried it: the given tag cut down to `N` bits, which is the
/// given tag itself where that is below `2^N`.
pub proof fn lemma_null_is_rejected<T, const N: usize>(marked_ptr: MarkedPtr<T, N>, tag: usize)
    requires
        marked_ptr@ == spec_compose(0, tag, N),
    ensures
        MarkedNonNull::<T, N>::spec_new(marked_ptr) == Err::<MarkedNonNull<T, N>, Null>(
            Null(spec_decompose_tag(tag, N)),
        ),
        tag < pow2(N as nat) ==> MarkedNonNull::<T, N>::spec_new(marked_ptr) == Err::<
            MarkedNonNull<T, N>,
            Null,
        >(Null(tag)),
{
    lemma_null_has_no_address(tag, N);
    lemma_compose_truncates_tag(0, tag, N);
    if tag < pow2(N as nat) {
        lemma_compose_roundtrip(0, tag, N);
    }
}

} // verus!
