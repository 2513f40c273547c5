//! The pointer with a tag of its own: two 64-bit words side by side.

use core::marker::PhantomData;
use vstd::prelude::*;
use vstd::std_specs::cmp::PartialEqSpecImpl;

verus! {

/// A 64-bit address and a 64-bit tag, laid out as one 128-bit value with the
/// address in the low half.
///
/// The tag has a whole word: nothing is packed into the address, and the
/// pointee's alignment does not matter.
#[derive(Debug, PartialOrd, Ord)]
pub struct MarkedPtr128<T> {
    /// The 64-bit address.
    pub ptr: u64,
    /// The 64-bit tag value.
    pub tag: u64,
    /// Stands for the pointee type; holds nothing.
    pub _marker: PhantomData<T>,
}

impl<T> Clone for MarkedPtr128<T> {
    fn clone(&self) -> (res: Self)
        ensures
            res == *self,
    {
        Self { ptr: self.ptr, tag: self.tag, _marker: PhantomData }
    }
}

impl<T> Copy for MarkedPtr128<T> {

}

/// The 128-bit value with `ptr` in its low half and `tag` in its high half.
pub open spec fn spec_pair_to_u128(ptr: u64, tag: u64) -> u128 {
    (ptr + tag * 0x1_0000_0000_0000_0000) as u128
}

impl<T> MarkedPtr128<T> {
    /// The pair as one 128-bit value: `ptr + tag * 2^64`.
    pub open spec fn spec_into_u128(self) -> u128 {
        spec_pair_to_u128(self.ptr, self.tag)
    }

    /// The pair that the 128-bit value `val` holds: the low half is the
    /// address, the high half the tag.
    pub open spec fn spec_from_u128(val: u128) -> Self {
        Self {
            ptr: (val % 0x1_0000_0000_0000_0000) as u64,
            tag: (val / 0x1_0000_0000_0000_0000) as u64,
            _marker: PhantomData,
        }
    }

    /// The pair of `ptr` and `tag`.
    pub open spec fn spec_compose(ptr: u64, tag: u64) -> Self {
        Self { ptr, tag, _marker: PhantomData }
    }

    /// The conversions to and from 128 bits undo each other: a pair comes
    /// back from its 128 bits, and 128 bits come back from their pair.
    pub proof fn lemma_u128_roundtrip(self, val: u128)
        ensures
            Self::spec_from_u128(self.spec_into_u128()) == self,
            Self::spec_from_u128(val).spec_into_u128() == val,
    {
    }

    /// Creates an unmarked `null` pointer: address and tag both zero.
    pub fn null() -> (res: Self)
        ensures
            res == Self::spec_compose(0, 0),
            res.ptr == 0,
            res.tag == 0,
    {
        Self { ptr: 0, tag: 0, _marker: PhantomData }
    }

    /// Creates a pointer to the address `ptr` with tag zero.
    pub fn new(ptr: u64) -> (res: Self)
        ensures
            res == Self::spec_compose(ptr, 0),
            res.ptr == ptr,
            res.tag == 0,
    {
        Self { ptr, tag: 0, _marker: PhantomData }
    }

    /// Composes the address `ptr` and `tag`.  Nothing is truncated.
    pub fn compose(ptr: u64, tag: u64) -> (res: Self)
        ensures
            res == Self::spec_compose(ptr, tag),
            res.ptr == ptr,
            res.tag == tag,
    {
        Self { ptr, tag, _marker: PhantomData }
    }

    /// Casts to a pointer of another pointee type; both words are kept.
    pub fn cast<U>(self) -> (res: MarkedPtr128<U>)
        ensures
            res.ptr == self.ptr,
            res.tag == self.tag,
    {
        MarkedPtr128 { ptr: self.ptr, tag: self.tag, _marker: PhantomData }
    }

    /// Returns the pair as one 128-bit value, the address in the low half.
    pub fn into_u128(self) -> (res: u128)
        ensures
            res == self.spec_into_u128(),
    {
        let ptr = self.ptr;
        let tag = self.tag;
        assert((ptr as u128) | ((tag as u128) << 64) == ptr + tag * 0x1_0000_0000_0000_0000)
            by (bit_vector);
        (ptr as u128) | ((tag as u128) << 64)
    }

    /// Returns the pair that a 128-bit value holds.
    pub fn from_u128(val: u128) -> (res: Self)
        ensures
            res == Self::spec_from_u128(val),
            res.spec_into_u128() == val,
    {
        assert(val & 0xFFFF_FFFF_FFFF_FFFF == val % 0x1_0000_0000_0000_0000 && val >> 64 == val
            / 0x1_0000_0000_0000_0000 && (val >> 64) <= 0xFFFF_FFFF_FFFF_FFFF) by (bit_vector);
        let ptr = (val & 0xFFFF_FFFF_FFFF_FFFF) as u64;
        let tag = (val >> 64) as u64;
        Self { ptr, tag, _marker: PhantomData }
    }

    /// Decomposes the pointer into its address and its tag.
    pub fn decompose(self) -> (res: (u64, u64))
        ensures
            res == (self.ptr, self.tag),
    {
        (self.ptr, self.tag)
    }

    /// Decomposes the pointer into only its address.
    pub fn decompose_ptr(self) -> (res: u64)
        ensures
            res == self.ptr,
    {
        self.ptr
    }

    /// Decomposes the pointer into only its tag.
    pub fn decompose_tag(self) -> (res: u64)
        ensures
            res == self.tag,
    {
        self.tag
    }
}

impl<T> PartialEq for MarkedPtr128<T> {
    /// Two pointers are equal when both their words are.
    fn eq(&self, other: &Self) -> (res: bool) {
        self.ptr == other.ptr && self.tag == other.tag
    }
}

impl<T> PartialEqSpecImpl for MarkedPtr128<T> {
    open spec fn obeys_eq_spec() -> bool {
        true
    }

    open spec fn eq_spec(&self, other: &Self) -> bool {
        self.ptr == other.ptr && self.tag == other.tag
    }
}

impl<T> Eq for MarkedPtr128<T> {

}

impl<T> Default for MarkedPtr128<T> {
    /// The unmarked `null` pointer.
    fn default() -> (res: Self)
        ensures
            res.ptr == 0,
            res.tag == 0,
    {
        Self::null()
    }
}

} // verus!
