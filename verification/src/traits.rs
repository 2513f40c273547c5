//! What the pointer types of this crate have in common.

use crate::non_null::MarkedNonNull;
use crate::ptr::address_of_ref;
use vstd::layout::align_of;
use vstd::prelude::*;

verus! {

/// A pointer or reference type that is never null.
pub trait NonNullable: Sized {
    /// The referenced or pointed-to type.
    type Item;

    /// Returns the address that `ptr` holds, which is not zero.
    fn as_const_ptr(ptr: &Self) -> (addr: usize)
        ensures
            addr != 0,
    ;

    /// Returns the address that `ptr` holds, which is not zero.
    fn as_mut_ptr(ptr: &Self) -> (addr: usize)
        ensures
            addr != 0,
    ;

    /// Returns the address that `ptr` holds, which is not zero.
    fn as_non_null(ptr: &Self) -> (addr: usize)
        ensures
            addr != 0,
    ;
}

impl<'a, T> NonNullable for &'a T {
    type Item = T;

    /// The address of the referent, which is a multiple of the alignment of `T`.
    fn as_const_ptr(ptr: &Self) -> (addr: usize)
        ensures
            addr as int % (align_of::<T>() as int) == 0,
    {
        address_of_ref(*ptr)
    }

    /// The address of the referent, which is a multiple of the alignment of `T`.
    fn as_mut_ptr(ptr: &Self) -> (addr: usize)
        ensures
            addr as int % (align_of::<T>() as int) == 0,
    {
        address_of_ref(*ptr)
    }

    /// The address of the referent, which is a multiple of the alignment of `T`.
    fn as_non_null(ptr: &Self) -> (addr: usize)
        ensures
            addr as int % (align_of::<T>() as int) == 0,
    {
        address_of_ref(*ptr)
    }
}

impl<'a, T> NonNullable for &'a mut T {
    type Item = T;

    /// The address of the referent, which is a multiple of the alignment of `T`.
    fn as_const_ptr(ptr: &Self) -> (addr: usize)
        ensures
            addr as int % (align_of::<T>() as int) == 0,
    {
        address_of_ref(&**ptr)
    }

    /// The address of the referent, which is a multiple of the alignment of `T`.
    fn as_mut_ptr(ptr: &Self) -> (addr: usize)
        ensures
            addr as int % (align_of::<T>() as int) == 0,
    {
        address_of_ref(&**ptr)
    }

    /// The address of the referent, which is a multiple of the alignment of `T`.
    fn as_non_null(ptr: &Self) -> (addr: usize)
        ensures
            addr as int % (align_of::<T>() as int) == 0,
    {
        address_of_ref(&**ptr)
    }
}

impl<T, const N: usize> NonNullable for MarkedNonNull<T, N> {
    type Item = T;

    /// The address component, without the tag.
    fn as_const_ptr(ptr: &Self) -> (addr: usize)
        ensures
            addr == ptr.spec_ptr(),
    {
        ptr.decompose_ptr()
    }

    /// The address component, without the tag.
    fn as_mut_ptr(ptr: &Self) -> (addr: usize)
        ensures
            addr == ptr.spec_ptr(),
    {
        ptr.decompose_ptr()
    }

    /// The address component, without the tag.
    fn as_non_null(ptr: &Self) -> (addr: usize)
        ensures
            addr == ptr.spec_ptr(),
    {
        ptr.decompose_non_null()
    }
}

} // verus!
