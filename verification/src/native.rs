//! Marked pointers for 64-bit machines with 48-bit virtual addresses.
//!
//! Such a machine leaves the upper 16 bits of every pointer unused, so the
//! tag goes there and the pointee's alignment does not matter.

use crate::ptr::{address_of_mut, address_of_ref};
use core::marker::PhantomData;
use vstd::layout::align_of;
use vstd::prelude::*;
use vstd::std_specs::cmp::PartialEqSpecImpl;
use vstd::std_specs::convert::FromSpecImpl;

verus! {

/// The number of tag bits.
pub const MARK_BITS: usize = 16;

/// The position of the lowest tag bit.
pub const MARK_SHIFT: usize = 48;

/// The mask of the tag bits: the upper 16 bits of a 64-bit word.
pub open spec fn spec_native_mark_mask() -> usize {
    0xFFFFusize << 48
}

/// The word that carries `tag` in its upper 16 bits, above `ptr`.
pub open spec fn spec_native_compose(ptr: usize, tag: u16) -> usize {
    ptr | ((tag as usize) << 48)
}

/// The address component of a word: its lower 48 bits.
pub open spec fn spec_native_ptr(word: usize) -> usize {
    word & !spec_native_mark_mask()
}

/// The tag component of a word: its upper 16 bits.
pub open spec fn spec_native_tag(word: usize) -> u16 {
    (word >> 48) as u16
}

/// Returns the mask of the tag bits.
pub fn native_mark_mask() -> (mask: usize)
    requires
        usize::BITS == 64,
    ensures
        mask == spec_native_mark_mask(),
{
    0xFFFFusize << 48
}

/// `tag` moved to the tag bits of a word.
pub open spec fn spec_native_tag_word(tag: u16) -> usize {
    (tag as usize) << 48
}

/// Returns `tag` moved to the tag bits of a word; no address bit is set in
/// it.
pub fn native_tag_word(tag: u16) -> (word: usize)
    requires
        usize::BITS == 64,
    ensures
        word == spec_native_tag_word(tag),
        spec_native_ptr(word) == 0,
        spec_native_tag(word) == tag,
{
    proof {
        lemma_native_roundtrip(0, tag);
        assert(0usize | ((tag as usize) << 48) == (tag as usize) << 48) by (bit_vector);
    }
    (tag as usize) << 48
}

/// Round-trip: an address that fits 48 bits and any tag come back unchanged
/// from the word they were composed into.
pub proof fn lemma_native_roundtrip(ptr: usize, tag: u16)
    requires
        usize::BITS == 64,
        ptr < 0x1_0000_0000_0000,
    ensures
        spec_native_ptr(spec_native_compose(ptr, tag)) == ptr,
        spec_native_tag(spec_native_compose(ptr, tag)) == tag,
{
    let p = ptr as u64;
    assert((p | ((tag as u64) << 48)) & !(0xFFFFu64 << 48) == p && ((p | ((tag as u64) << 48))
        >> 48) as u16 == tag) by (bit_vector)
        requires
            p < 0x1_0000_0000_0000,
    ;
}

/// Whatever the word, its address component fits 48 bits and has no tag,
/// and composing it with a tag gives that address with that tag.
pub proof fn lemma_native_parts(word: usize, tag: u16)
    requires
        usize::BITS == 64,
    ensures
        spec_native_ptr(word) < 0x1_0000_0000_0000,
        spec_native_ptr(spec_native_ptr(word)) == spec_native_ptr(word),
        spec_native_tag(spec_native_ptr(word)) == 0,
        spec_native_ptr(word) + spec_native_tag(word) * 0x1_0000_0000_0000 == word,
        spec_native_compose(spec_native_ptr(word), spec_native_tag(word)) == word,
{
    let w = word as u64;
    assert((w & !(0xFFFFu64 << 48)) < 0x1_0000_0000_0000 && (w & !(0xFFFFu64 << 48)) & !(0xFFFFu64
        << 48) == (w & !(0xFFFFu64 << 48)) && (((w & !(0xFFFFu64 << 48)) >> 48) as u16) == 0 && (w
        & !(0xFFFFu64 << 48)) + ((w >> 48) as u16) * 0x1_0000_0000_0000 == w && ((w & !(0xFFFFu64
        << 48)) | ((((w >> 48) as u16) as u64) << 48)) == w) by (bit_vector);
}

/// A pointer-sized word in which the upper 16 bits hold a tag and the lower
/// 48 bits the address of a `T`.
#[derive(Debug, Hash, PartialOrd, Ord)]
pub struct MarkedNativePtr<T> {
    inner: usize,
    _marker: PhantomData<T>,
}

impl<T> View for MarkedNativePtr<T> {
    type V = usize;

    /// The marked word itself: address and tag in one integer.
    closed spec fn view(&self) -> usize {
        self.inner
    }
}

impl<T> Clone for MarkedNativePtr<T> {
    fn clone(&self) -> (res: Self)
        ensures
            res == *self,
    {
        Self { inner: self.inner, _marker: PhantomData }
    }
}

impl<T> Copy for MarkedNativePtr<T> {

}

impl<T> MarkedNativePtr<T> {
    /// The address component: the lower 48 bits of the word.
    pub open spec fn spec_ptr(self) -> usize {
        spec_native_ptr(self@)
    }

    /// The tag component: the upper 16 bits of the word.
    pub open spec fn spec_tag(self) -> u16 {
        spec_native_tag(self@)
    }

    /// Two marked pointers with the same word are the same value.
    pub proof fn lemma_view_is_injective(self, other: Self)
        requires
            self@ == other@,
        ensures
            self == other,
    {
    }

    /// Creates an unmarked `null` pointer.
    pub fn null() -> (res: Self)
        ensures
            res@ == 0,
    {
        Self::new(0)
    }

    /// Creates a marked pointer from the address `ptr`, taken as it is.
    pub fn new(ptr: usize) -> (res: Self)
        ensures
            res@ == ptr,
    {
        Self { inner: ptr, _marker: PhantomData }
    }

    /// Creates a marked pointer from the integer `val`, taken as it is.
    pub fn from_usize(val: usize) -> (res: Self)
        ensures
            res@ == val,
    {
        Self { inner: val, _marker: PhantomData }
    }

    /// Casts to a marked pointer of another pointee type; the word is kept.
    pub fn cast<U>(self) -> (res: MarkedNativePtr<U>)
        ensures
            res@ == self@,
    {
        MarkedNativePtr { inner: self.inner, _marker: PhantomData }
    }

    /// Returns the marked word as an address, tag bits included.
    pub fn into_ptr(self) -> (res: usize)
        ensures
            res == self@,
    {
        self.inner
    }

    /// Returns the marked word as an integer.
    pub fn into_usize(self) -> (res: usize)
        ensures
            res == self@,
    {
        self.inner
    }

    /// Clears (zeroes) the tag and returns the same pointer.
    pub fn clear_tag(self) -> (res: Self)
        requires
            usize::BITS == 64,
        ensures
            res@ == self.spec_ptr(),
            res.spec_ptr() == self.spec_ptr(),
            res.spec_tag() == 0,
    {
        proof {
            lemma_native_parts(self@, 0);
        }
        Self::new(self.decompose_ptr())
    }

    /// Sets the tag to `tag` and returns the marked pointer.  The address
    /// component is untouched.
    pub fn with_tag(self, tag: u16) -> (res: Self)
        requires
            usize::BITS == 64,
        ensures
            res@ == spec_native_compose(self.spec_ptr(), tag),
            res.spec_ptr() == self.spec_ptr(),
            res.spec_tag() == tag,
    {
        proof {
            lemma_native_parts(self@, 0);
            lemma_native_roundtrip(self.spec_ptr(), tag);
        }
        Self::compose(self.decompose_ptr(), tag)
    }

    /// Adds `value` to the whole word.  Nothing is masked and nothing is
    /// shifted: `value` is added as it is.
    pub fn add_tag(self, value: usize) -> (res: Self)
        requires
            self@ + value <= usize::MAX,
        ensures
            res@ == self@ + value,
    {
        Self::from_usize(self.into_usize() + value)
    }

    /// Subtracts `value` from the whole word.  Nothing is masked and nothing
    /// is shifted: `value` is subtracted as it is.
    pub fn sub_tag(self, value: usize) -> (res: Self)
        requires
            value <= self@,
        ensures
            res@ == self@ - value,
    {
        Self::from_usize(self.into_usize() - value)
    }

    /// Composes a new marked pointer from the address `ptr` and `tag`.
    ///
    /// The upper 16 bits of `ptr` are expected to be zero; bits that are set
    /// there end up in the tag.
    pub fn compose(ptr: usize, tag: u16) -> (res: Self)
        requires
            usize::BITS == 64,
        ensures
            res@ == spec_native_compose(ptr, tag),
            ptr < 0x1_0000_0000_0000 ==> res.spec_ptr() == ptr && res.spec_tag() == tag,
    {
        proof {
            if ptr < 0x1_0000_0000_0000 {
                lemma_native_roundtrip(ptr, tag);
            }
        }
        Self::new(ptr | native_tag_word(tag))
    }

    /// Decomposes the marked pointer into its address and its tag.
    pub fn decompose(self) -> (res: (usize, u16))
        requires
            usize::BITS == 64,
        ensures
            res.0 == self.spec_ptr(),
            res.1 == self.spec_tag(),
    {
        (self.decompose_ptr(), self.decompose_tag())
    }

    /// Decomposes the marked pointer into only its address.
    pub fn decompose_ptr(self) -> (res: usize)
        requires
            usize::BITS == 64,
        ensures
            res == self.spec_ptr(),
    {
        self.inner & !native_mark_mask()
    }

    /// Decomposes the marked pointer into only its tag.
    pub fn decompose_tag(self) -> (res: u16)
        requires
            usize::BITS == 64,
        ensures
            res == self.spec_tag(),
    {
        let word = self.inner;
        assert(word >> 48 <= 0xFFFF) by (bit_vector)
            requires
                usize::BITS == 64,
        ;
        (word >> 48) as u16
    }
}

impl<T> PartialEq for MarkedNativePtr<T> {
    /// Two marked pointers are equal when their words are: same address and
    /// same tag.
    fn eq(&self, other: &Self) -> (res: bool) {
        self.inner == other.inner
    }
}

impl<T> PartialEqSpecImpl for MarkedNativePtr<T> {
    open spec fn obeys_eq_spec() -> bool {
        true
    }

    open spec fn eq_spec(&self, other: &Self) -> bool {
        self@ == other@
    }
}

impl<T> Eq for MarkedNativePtr<T> {

}

impl<T> Default for MarkedNativePtr<T> {
    /// The unmarked `null` pointer.
    fn default() -> (res: Self)
        ensures
            res@ == 0,
    {
        Self::null()
    }
}

impl<T> From<&T> for MarkedNativePtr<T> {
    /// The marked pointer whose word is the address of the referent.
    fn from(reference: &T) -> (res: Self)
        ensures
            res@ != 0,
            res@ as int % (align_of::<T>() as int) == 0,
    {
        Self::new(address_of_ref(reference))
    }
}

impl<T> FromSpecImpl<&T> for MarkedNativePtr<T> {
    /// An address is no function of the referent's value, so the conversion
    /// has no specification function; its contract is on `from`.
    open spec fn obeys_from_spec() -> bool {
        false
    }

    open spec fn from_spec(reference: &T) -> Self {
        arbitrary()
    }
}

impl<T> From<&mut T> for MarkedNativePtr<T> {
    /// The marked pointer whose word is the address of the referent.
    fn from(reference: &mut T) -> (res: Self)
        ensures
            res@ != 0,
            res@ as int % (align_of::<T>() as int) == 0,
    {
        Self::new(address_of_mut(reference))
    }
}

impl<T> FromSpecImpl<&mut T> for MarkedNativePtr<T> {
    /// An address is no function of the referent's value, so the conversion
    /// has no specification function; its contract is on `from`.
    open spec fn obeys_from_spec() -> bool {
        false
    }

    open spec fn from_spec(reference: &mut T) -> Self {
        arbitrary()
    }
}

} // verus!
