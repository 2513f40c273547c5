//! A value that is either a non-null pointer or a `null` pointer with its
//! tag.

use crate::codec::{
    lemma_compose_keeps_ptr, lemma_compose_truncates_tag, lemma_null_has_no_address,
    spec_compose, spec_decompose_tag, spec_has_sufficient_alignment,
};
use crate::non_null::{lemma_from_usize_has_the_word, MarkedNonNull};
use crate::ptr::MarkedPtr;
use crate::traits::NonNullable;
use vstd::prelude::*;
use vstd::std_specs::convert::FromSpecImpl;

verus! {

/// Moves `src` into `dest` and returns what `dest` held before.
fn replace_value<T>(dest: &mut T, src: T) -> (res: T)
    ensures
        *final(dest) == src,
        res == *old(dest),
{
    let mut value = src;
    core::mem::swap(dest, &mut value);
    value
}

/// Either a pointer that is not null, or `null` together with the tag that
/// the `null` pointer carried.  Like an `Option` whose empty case keeps the
/// tag.
#[derive(Clone, Copy, Debug, PartialEq, Eq)]
pub enum MaybeNull<P> {
    /// A pointer that is not null.
    NotNull(P),
    /// A `null` pointer with this tag.
    Null(usize),
}

impl<P: NonNullable> MaybeNull<P> {
    /// Returns `true` if `self` is a `Null`.
    pub fn is_null(&self) -> (res: bool)
        ensures
            res == (*self is Null),
    {
        match self {
            MaybeNull::NotNull(_) => false,
            MaybeNull::Null(_) => true,
        }
    }

    /// Returns `true` if `self` is a `NotNull`.
    pub fn is_not_null(&self) -> (res: bool)
        ensures
            res == (*self is NotNull),
    {
        match self {
            MaybeNull::NotNull(_) => true,
            MaybeNull::Null(_) => false,
        }
    }

    /// Converts from `&MaybeNull<P>` to `MaybeNull<&P>`.
    pub fn as_ref(&self) -> (res: MaybeNull<&P>)
        ensures
            res == self.spec_as_ref(),
    {
        match self {
            MaybeNull::NotNull(ptr) => MaybeNull::NotNull(ptr),
            MaybeNull::Null(tag) => MaybeNull::Null(*tag),
        }
    }

    /// Converts from `&mut MaybeNull<P>` to `MaybeNull<&mut P>`.  What is
    /// written through the reference to the pointer is written to `self`; a
    /// `Null` hands out its tag and stays as it is.
    pub fn as_mut(&mut self) -> (res: MaybeNull<&mut P>)
        ensures
            res matches MaybeNull::NotNull(ptr) ==> *old(self) == MaybeNull::NotNull(*ptr)
                && *final(self) == MaybeNull::NotNull(*final(ptr)),
            res matches MaybeNull::Null(tag) ==> *old(self) == MaybeNull::<P>::Null(tag)
                && *final(self) == *old(self),
    {
        match self {
            MaybeNull::NotNull(ptr) => MaybeNull::NotNull(ptr),
            MaybeNull::Null(tag) => MaybeNull::Null(*tag),
        }
    }

    /// Returns the contained pointer; `msg` says what the caller expected.
    pub fn expect(self, msg: &str) -> (res: P)
        requires
            self is NotNull,
        ensures
            self == MaybeNull::NotNull(res),
    {
        self.unwrap()
    }

    /// Moves the pointer out of a `NotNull`.
    pub fn unwrap(self) -> (res: P)
        requires
            self is NotNull,
        ensures
            self == MaybeNull::NotNull(res),
    {
        match self {
            MaybeNull::NotNull(ptr) => ptr,
            MaybeNull::Null(_) => vstd::pervasive::unreached(),
        }
    }

    /// Returns the contained pointer, or what `func` makes of the tag of a
    /// `Null`.
    pub fn unwrap_or_else<F: FnOnce(usize) -> P>(self, func: F) -> (res: P)
        requires
            self matches MaybeNull::Null(tag) ==> call_requires(func, (tag,)),
        ensures
            self matches MaybeNull::NotNull(ptr) ==> res == ptr,
            self matches MaybeNull::Null(tag) ==> call_ensures(func, (tag,), res),
    {
        match self {
            MaybeNull::NotNull(ptr) => ptr,
            MaybeNull::Null(tag) => func(tag),
        }
    }

    /// Extracts the tag out of a `Null`.
    pub fn unwrap_null(self) -> (res: usize)
        requires
            self is Null,
        ensures
            self == MaybeNull::<P>::Null(res),
    {
        match self {
            MaybeNull::Null(tag) => tag,
            MaybeNull::NotNull(_) => vstd::pervasive::unreached(),
        }
    }

    /// Applies `func` to the contained pointer; a `Null` keeps its tag.
    pub fn map<U: NonNullable, F: FnOnce(P) -> U>(self, func: F) -> (res: MaybeNull<U>)
        requires
            self matches MaybeNull::NotNull(ptr) ==> call_requires(func, (ptr,)),
        ensures
            self matches MaybeNull::NotNull(ptr) ==> res matches MaybeNull::NotNull(mapped)
                && call_ensures(func, (ptr,), mapped),
            self matches MaybeNull::Null(tag) ==> res == MaybeNull::<U>::Null(tag),
    {
        match self {
            MaybeNull::NotNull(ptr) => MaybeNull::NotNull(func(ptr)),
            MaybeNull::Null(tag) => MaybeNull::Null(tag),
        }
    }

    /// Applies `func` to the contained pointer, or returns `default` for a
    /// `Null`.
    pub fn map_or<U, F: FnOnce(P) -> U>(self, default: U, func: F) -> (res: U)
        requires
            self matches MaybeNull::NotNull(ptr) ==> call_requires(func, (ptr,)),
        ensures
            self matches MaybeNull::NotNull(ptr) ==> call_ensures(func, (ptr,), res),
            self is Null ==> res == default,
    {
        match self {
            MaybeNull::NotNull(ptr) => func(ptr),
            MaybeNull::Null(_) => default,
        }
    }

    /// Applies `func` to the contained pointer, or `default` to the tag of a
    /// `Null`.
    pub fn map_or_else<U: NonNullable, D: FnOnce(usize) -> U, F: FnOnce(P) -> U>(
        self,
        default: D,
        func: F,
    ) -> (res: U)
        requires
            self matches MaybeNull::NotNull(ptr) ==> call_requires(func, (ptr,)),
            self matches MaybeNull::Null(tag) ==> call_requires(default, (tag,)),
        ensures
            self matches MaybeNull::NotNull(ptr) ==> call_ensures(func, (ptr,), res),
            self matches MaybeNull::Null(tag) ==> call_ensures(default, (tag,), res),
    {
        match self {
            MaybeNull::NotNull(ptr) => func(ptr),
            MaybeNull::Null(tag) => default(tag),
        }
    }

    /// Converts `self` to an `Option`, which drops the tag of a `Null`.
    pub fn not_null(self) -> (res: Option<P>)
        ensures
            res == self.spec_not_null(),
    {
        match self {
            MaybeNull::NotNull(ptr) => Some(ptr),
            MaybeNull::Null(_) => None,
        }
    }

    /// Takes the value out, leaving a `Null` with tag zero in its place.
    pub fn take(&mut self) -> (res: Self)
        ensures
            res == *old(self),
            *final(self) == MaybeNull::<P>::Null(0),
    {
        replace_value(self, MaybeNull::Null(0))
    }

    /// Puts `value` in, returning the old value.
    pub fn replace(&mut self, value: P) -> (res: Self)
        ensures
            res == *old(self),
            *final(self) == MaybeNull::NotNull(value),
    {
        replace_value(self, MaybeNull::NotNull(value))
    }
}

impl<T, const N: usize> MaybeNull<MarkedNonNull<T, N>> {
    /// The word of the marked pointer that `self` stands for: that of the
    /// non-null pointer, or a `null` address with the tag of a `Null`,
    /// truncated to `N` bits.
    pub open spec fn spec_word(self) -> usize {
        match self {
            MaybeNull::NotNull(ptr) => ptr@,
            MaybeNull::Null(tag) => spec_compose(0, tag, N),
        }
    }

    /// The address that `self` stands for: zero for a `Null`.
    pub open spec fn spec_ptr(self) -> usize {
        match self {
            MaybeNull::NotNull(ptr) => ptr.spec_ptr(),
            MaybeNull::Null(_) => 0,
        }
    }

    /// The tag that `self` carries.  A `Null` holds its tag as given, not
    /// truncated.
    pub open spec fn spec_tag(self) -> usize {
        match self {
            MaybeNull::NotNull(ptr) => ptr.spec_tag(),
            MaybeNull::Null(tag) => tag,
        }
    }

    /// Converts to a nullable marked pointer without consuming `self`.
    pub fn as_marked_ptr(&self) -> (res: MarkedPtr<T, N>)
        requires
            *self is Null ==> spec_has_sufficient_alignment::<T>(N),
        ensures
            res@ == self.spec_word(),
            res.spec_is_null() == (*self is Null),
            res.spec_ptr() == self.spec_ptr(),
            res.spec_tag() == spec_decompose_tag(self.spec_tag(), N),
    {
        self.into_marked_ptr()
    }

    /// Converts to a nullable marked pointer.
    pub fn into_marked_ptr(self) -> (res: MarkedPtr<T, N>)
        requires
            self is Null ==> spec_has_sufficient_alignment::<T>(N),
        ensures
            res@ == self.spec_word(),
            res.spec_is_null() == (self is Null),
            res.spec_ptr() == self.spec_ptr(),
            res.spec_tag() == spec_decompose_tag(self.spec_tag(), N),
    {
        match self {
            MaybeNull::NotNull(ptr) => {
                proof {
                    lemma_compose_keeps_ptr(ptr@, 0, N);
                    lemma_tag_of_tag(ptr@, N);
                }
                ptr.into_marked_ptr()
            },
            MaybeNull::Null(tag) => {
                proof {
                    lemma_null_has_no_address(tag, N);
                }
                MarkedPtr::compose(0, tag)
            },
        }
    }

    /// Clears (zeroes) the tag; the pointer, if any, is kept.
    pub fn clear_tag(self) -> (res: Self)
        ensures
            res is Null == self is Null,
            res.spec_ptr() == self.spec_ptr(),
            res.spec_tag() == 0,
    {
        match self {
            MaybeNull::NotNull(ptr) => MaybeNull::NotNull(ptr.clear_tag()),
            MaybeNull::Null(_) => MaybeNull::Null(0),
        }
    }

    /// Splits the tag off and returns the unmarked value and the previous
    /// tag.
    pub fn split_tag(self) -> (res: (Self, usize))
        ensures
            res.0 is Null == self is Null,
            res.0.spec_ptr() == self.spec_ptr(),
            res.0.spec_tag() == 0,
            res.1 == self.spec_tag(),
    {
        match self {
            MaybeNull::NotNull(ptr) => {
                let (ptr, tag) = ptr.split_tag();
                (MaybeNull::NotNull(ptr), tag)
            },
            MaybeNull::Null(tag) => (MaybeNull::Null(0), tag),
        }
    }

    /// Sets the tag to `tag`; the pointer, if any, is kept.  A non-null
    /// pointer truncates the tag to `N` bits, a `Null` holds it as given.
    pub fn set_tag(self, tag: usize) -> (res: Self)
        requires
            self is NotNull ==> spec_has_sufficient_alignment::<T>(N),
        ensures
            res is Null == self is Null,
            res.spec_ptr() == self.spec_ptr(),
            res.spec_tag() == if self is Null {
                tag
            } else {
                spec_decompose_tag(tag, N)
            },
    {
        match self {
            MaybeNull::NotNull(ptr) => MaybeNull::NotNull(ptr.set_tag(tag)),
            MaybeNull::Null(_) => MaybeNull::Null(tag),
        }
    }

    /// Decomposes into the unmarked pointer, if there is one, and the tag.
    pub fn decompose(self) -> (res: (Option<MarkedNonNull<T, N>>, usize))
        ensures
            res.0 is None == self is Null,
            res.0 matches Some(ptr) ==> ptr@ == self.spec_ptr() && ptr.spec_ptr()
                == self.spec_ptr() && ptr.spec_tag() == 0,
            res.1 == self.spec_tag(),
    {
        match self {
            MaybeNull::NotNull(ptr) => {
                let (ptr, tag) = ptr.split_tag();
                (Some(ptr), tag)
            },
            MaybeNull::Null(tag) => (None, tag),
        }
    }

    /// Returns the address: zero for a `Null`.
    pub fn decompose_ptr(&self) -> (res: usize)
        ensures
            res == self.spec_ptr(),
            res == 0 <==> *self is Null,
    {
        match self {
            MaybeNull::NotNull(ptr) => ptr.decompose_ptr(),
            MaybeNull::Null(_) => 0,
        }
    }

    /// Returns the tag.
    pub fn decompose_tag(&self) -> (res: usize)
        ensures
            res == self.spec_tag(),
    {
        match self {
            MaybeNull::NotNull(ptr) => ptr.decompose_tag(),
            MaybeNull::Null(tag) => *tag,
        }
    }

    /// What the conversion from a marked pointer gives: `NotNull` with the
    /// same word if the address component is not zero, else `Null` with the
    /// tag.
    pub open spec fn spec_from_marked_ptr(marked_ptr: MarkedPtr<T, N>) -> Self {
        if marked_ptr.spec_ptr() != 0 {
            MaybeNull::NotNull(MarkedNonNull::spec_from_usize(marked_ptr@))
        } else {
            MaybeNull::Null(marked_ptr.spec_tag())
        }
    }
}

impl<T, const N: usize> MarkedNonNull<T, N> {
    /// Tells `marked_ptr` apart: `NotNull` with the same word if its address
    /// component is not zero, else `Null` with its tag.
    pub fn from_marked_ptr(marked_ptr: MarkedPtr<T, N>) -> (res: MaybeNull<Self>)
        ensures
            res == MaybeNull::<Self>::spec_from_marked_ptr(marked_ptr),
            res is Null == marked_ptr.spec_is_null(),
            res.spec_ptr() == marked_ptr.spec_ptr(),
            res.spec_tag() == marked_ptr.spec_tag(),
    {
        MaybeNull::from(marked_ptr)
    }
}

/// The tag of a word is its own tag.
proof fn lemma_tag_of_tag(word: usize, tag_bits: usize)
    ensures
        spec_decompose_tag(spec_decompose_tag(word, tag_bits), tag_bits) == spec_decompose_tag(
            word,
            tag_bits,
        ),
{
    lemma_compose_truncates_tag(0, word, tag_bits);
    lemma_compose_truncates_tag(0, spec_decompose_tag(word, tag_bits), tag_bits);
    let m = crate::codec::spec_mark_mask(tag_bits);
    assert((word & m) & m == word & m) by (bit_vector);
}

/// Telling a marked pointer apart into `NotNull` and `Null` loses nothing:
/// address and tag are those of the marked pointer, and the marked pointer
/// that the value stands for has the same word.
pub proof fn lemma_maybe_null_keeps_the_word<T, const N: usize>(marked_ptr: MarkedPtr<T, N>)
    ensures
        MaybeNull::<MarkedNonNull<T, N>>::spec_from_marked_ptr(marked_ptr).spec_word()
            == marked_ptr@,
        MaybeNull::<MarkedNonNull<T, N>>::spec_from_marked_ptr(marked_ptr).spec_ptr()
            == marked_ptr.spec_ptr(),
        MaybeNull::<MarkedNonNull<T, N>>::spec_from_marked_ptr(marked_ptr).spec_tag()
            == marked_ptr.spec_tag(),
        MaybeNull::<MarkedNonNull<T, N>>::spec_from_marked_ptr(marked_ptr) is Null
            == marked_ptr.spec_is_null(),
{
    let word = marked_ptr@;
    let m = crate::codec::spec_mark_mask(N);
    lemma_from_usize_has_the_word::<T, N>(word);
    assert(word & !m == 0 ==> (0usize & !m) | ((word & m) & m) == word) by (bit_vector);
}

impl<P: NonNullable> Default for MaybeNull<P> {
    /// A `Null` with tag zero.
    fn default() -> (res: Self)
        ensures
            res == MaybeNull::<P>::Null(0),
    {
        MaybeNull::Null(0)
    }
}

impl<T, const N: usize> From<MarkedPtr<T, N>> for MaybeNull<MarkedNonNull<T, N>> {
    /// Decides whether `marked_ptr` is null: `NotNull` if its address
    /// component is not zero, else `Null` with its tag.
    fn from(marked_ptr: MarkedPtr<T, N>) -> (res: Self)
        ensures
            res == Self::spec_from_marked_ptr(marked_ptr),
            res is Null == marked_ptr.spec_is_null(),
            res.spec_ptr() == marked_ptr.spec_ptr(),
            res.spec_tag() == marked_ptr.spec_tag(),
    {
        let (ptr, tag) = marked_ptr.decompose();
        if ptr != 0 {
            let non_null = MarkedNonNull::new_unchecked(marked_ptr);
            proof {
                non_null.lemma_view_is_injective(MarkedNonNull::spec_from_usize(marked_ptr@));
            }
            MaybeNull::NotNull(non_null)
        } else {
            MaybeNull::Null(tag)
        }
    }
}

impl<T, const N: usize> FromSpecImpl<MarkedPtr<T, N>> for MaybeNull<MarkedNonNull<T, N>> {
    open spec fn obeys_from_spec() -> bool {
        true
    }

    open spec fn from_spec(marked_ptr: MarkedPtr<T, N>) -> Self {
        Self::spec_from_marked_ptr(marked_ptr)
    }
}

impl<P: NonNullable> From<Option<P>> for MaybeNull<P> {
    /// `NotNull` for `Some`, and a `Null` with tag zero for `None`.
    fn from(opt: Option<P>) -> (res: Self)
        ensures
            res == Self::spec_from_option(opt),
    {
        match opt {
            Some(ptr) => MaybeNull::NotNull(ptr),
            None => MaybeNull::Null(0),
        }
    }
}

impl<P: NonNullable> FromSpecImpl<Option<P>> for MaybeNull<P> {
    open spec fn obeys_from_spec() -> bool {
        true
    }

    open spec fn from_spec(opt: Option<P>) -> Self {
        Self::spec_from_option(opt)
    }
}

impl<P: NonNullable> MaybeNull<P> {
    /// `NotNull` for `Some`, and a `Null` with tag zero for `None`.
    pub open spec fn spec_from_option(opt: Option<P>) -> Self {
        match opt {
            Some(ptr) => MaybeNull::NotNull(ptr),
            None => MaybeNull::Null(0),
        }
    }

    /// `Some` for `NotNull`, and `None` for a `Null`.
    pub open spec fn spec_not_null(self) -> Option<P> {
        match self {
            MaybeNull::NotNull(ptr) => Some(ptr),
            MaybeNull::Null(_) => None,
        }
    }

    /// The same value with the pointer borrowed.
    pub open spec fn spec_as_ref(&self) -> MaybeNull<&P> {
        match self {
            MaybeNull::NotNull(ptr) => MaybeNull::NotNull(ptr),
            MaybeNull::Null(tag) => MaybeNull::Null(*tag),
        }
    }
}

impl<P: NonNullable> From<MaybeNull<P>> for Option<P> {
    /// `Some` for `NotNull`, and `None` for a `Null`, whose tag is dropped.
    fn from(maybe: MaybeNull<P>) -> (res: Self)
        ensures
            res == maybe.spec_not_null(),
    {
        maybe.not_null()
    }
}

impl<P: NonNullable> FromSpecImpl<MaybeNull<P>> for Option<P> {
    open spec fn obeys_from_spec() -> bool {
        true
    }

    open spec fn from_spec(maybe: MaybeNull<P>) -> Self {
        maybe.spec_not_null()
    }
}

impl<'a, P: NonNullable> From<&'a MaybeNull<P>> for MaybeNull<&'a P> {
    /// Converts from `&MaybeNull<P>` to `MaybeNull<&P>`.
    fn from(reference: &'a MaybeNull<P>) -> (res: Self)
        ensures
            res == reference.spec_as_ref(),
    {
        reference.as_ref()
    }
}

impl<'a, P: NonNullable> FromSpecImpl<&'a MaybeNull<P>> for MaybeNull<&'a P> {
    open spec fn obeys_from_spec() -> bool {
        true
    }

    open spec fn from_spec(reference: &'a MaybeNull<P>) -> Self {
        reference.spec_as_ref()
    }
}

impl<'a, P: NonNullable> From<&'a mut MaybeNull<P>> for MaybeNull<&'a mut P> {
    /// Converts from `&mut MaybeNull<P>` to `MaybeNull<&mut P>`.  What is
    /// written through the reference to the pointer is written to the value
    /// borrowed; a `Null` hands out its tag and stays as it is.
    fn from(reference: &'a mut MaybeNull<P>) -> (res: Self)
        ensures
            res matches MaybeNull::NotNull(ptr) ==> *old(reference) == MaybeNull::NotNull(*ptr)
                && *final(reference) == MaybeNull::NotNull(*final(ptr)),
            res matches MaybeNull::Null(tag) ==> *old(reference) == MaybeNull::<P>::Null(tag)
                && *final(reference) == *old(reference),
    {
        reference.as_mut()
    }
}

impl<'a, P: NonNullable> FromSpecImpl<&'a mut MaybeNull<P>> for MaybeNull<&'a mut P> {
    /// The result borrows from the argument, so the conversion has no
    /// specification function; its contract is on `from`.
    open spec fn obeys_from_spec() -> bool {
        false
    }

    open spec fn from_spec(reference: &'a mut MaybeNull<P>) -> Self {
        arbitrary()
    }
}

} // verus!
