//! Composition and decomposition of a pointer and a tag in one machine word.
//!
//! A marked word keeps the tag in its low `tag_bits` bits and the pointer in
//! the bits above them.  Everything here works on addresses, so a pointer is
//! the `usize` it would cast to.

use vstd::arithmetic::logarithm::{lemma_log_pow, log};
use vstd::arithmetic::power::pow;
use vstd::arithmetic::power2::{
    is_pow2_equiv, lemma_pow2_adds, lemma_pow2_pos, lemma_pow2_strictly_increases, pow2,
};
use vstd::bits::{
    lemma_usize_low_bits_mask_is_mod, lemma_usize_pow2_no_overflow, lemma_usize_shl_is_mul,
    low_bits_mask,
};
use vstd::layout::{align_of, align_properties};
use vstd::prelude::*;
use vstd::std_specs::bits::{axiom_u64_trailing_zeros, u64_trailing_zeros};

verus! {

/// The mask that selects the low `tag_bits` bits of a word: `2^tag_bits - 1`,
/// and every bit where a word has no more than `tag_bits` bits.
pub open spec fn spec_mark_mask(tag_bits: usize) -> usize {
    if tag_bits < usize::BITS {
        low_bits_mask(tag_bits as nat) as usize
    } else {
        !0usize
    }
}

/// The word that carries `ptr` in its high bits and `tag` in its low
/// `tag_bits` bits.  Bits of `ptr` below `tag_bits` and bits of `tag` at or
/// above `tag_bits` are dropped.
pub open spec fn spec_compose(ptr: usize, tag: usize, tag_bits: usize) -> usize {
    (ptr & !spec_mark_mask(tag_bits)) | (tag & spec_mark_mask(tag_bits))
}

/// The pointer component of a marked word: the word with its low `tag_bits`
/// bits cleared.
pub open spec fn spec_decompose_ptr(word: usize, tag_bits: usize) -> usize {
    word & !spec_mark_mask(tag_bits)
}

/// The tag component of a marked word: its low `tag_bits` bits.
pub open spec fn spec_decompose_tag(word: usize, tag_bits: usize) -> usize {
    word & spec_mark_mask(tag_bits)
}

/// The number of low bits that are zero in every well-aligned address of a
/// `T`: the exponent `e` with `2^e == align_of::<T>()`.
pub open spec fn spec_lower_bits<T>() -> nat {
    log(2, align_of::<T>() as int) as nat
}

/// Whether the alignment of `T` leaves at least `tag_bits` low bits unused.
pub open spec fn spec_has_sufficient_alignment<T>(tag_bits: usize) -> bool {
    spec_lower_bits::<T>() >= tag_bits
}

/// `2^tag_bits` fits a word, and the mask is one less than it.
pub proof fn lemma_mark_mask_value(tag_bits: usize)
    requires
        tag_bits < usize::BITS,
    ensures
        spec_mark_mask(tag_bits) == pow2(tag_bits as nat) - 1,
        spec_mark_mask(tag_bits) == (1usize << tag_bits) - 1,
        1usize << tag_bits == pow2(tag_bits as nat),
        0 < pow2(tag_bits as nat) <= usize::MAX,
{
    lemma_usize_pow2_no_overflow(tag_bits as nat);
    lemma_usize_shl_is_mul(1, tag_bits);
}

/// A power of two whose exponent is at least the width of a word exceeds
/// every word.
pub proof fn lemma_pow2_exceeds_word(exponent: nat)
    requires
        exponent >= usize::BITS,
    ensures
        pow2(exponent) > usize::MAX,
{
    if exponent > usize::BITS {
        lemma_pow2_strictly_increases(usize::BITS as nat, exponent);
    }
    vstd::arithmetic::power2::lemma2_to64();
}

/// Returns the bit-mask for the lower bits containing the tag value.
pub fn mark_mask(tag_bits: usize) -> (mask: usize)
    ensures
        mask == spec_mark_mask(tag_bits),
{
    if tag_bits >= usize::BITS as usize {
        !0usize
    } else {
        proof {
            lemma_mark_mask_value(tag_bits);
        }
        (1usize << tag_bits) - 1
    }
}

/// Composes `ptr` with `tag` into one marked word.
///
/// The low `tag_bits` bits of `ptr` are expected to be zero; if they are not,
/// they are lost.  Excess bits of `tag` are silently truncated.
pub fn compose(ptr: usize, tag: usize, tag_bits: usize) -> (word: usize)
    ensures
        word == spec_compose(ptr, tag, tag_bits),
{
    let mask = mark_mask(tag_bits);
    (ptr & !mask) | (tag & mask)
}

/// Decomposes a marked word into its pointer and its tag.
pub fn decompose(word: usize, tag_bits: usize) -> (parts: (usize, usize))
    ensures
        parts.0 == spec_decompose_ptr(word, tag_bits),
        parts.1 == spec_decompose_tag(word, tag_bits),
{
    (decompose_ptr(word, tag_bits), decompose_tag(word, tag_bits))
}

/// Decomposes a marked word into only the pointer.
pub fn decompose_ptr(word: usize, tag_bits: usize) -> (ptr: usize)
    ensures
        ptr == spec_decompose_ptr(word, tag_bits),
{
    word & !mark_mask(tag_bits)
}

/// Decomposes a marked word into only the tag.
pub fn decompose_tag(word: usize, tag_bits: usize) -> (tag: usize)
    ensures
        tag == spec_decompose_tag(word, tag_bits),
{
    word & mark_mask(tag_bits)
}

/// A power of two that fits 64 bits has as many trailing zeros as its
/// exponent.
proof fn lemma_trailing_zeros_of_pow2(e: nat)
    requires
        e < 64,
    ensures
        pow2(e) <= u64::MAX,
        u64_trailing_zeros(pow2(e) as u64) == e,
{
    vstd::bits::lemma_u64_pow2_no_overflow(e);
    vstd::bits::lemma_u64_shl_is_mul(1, e as u64);
    let s = e as u64;
    let x = pow2(e) as u64;
    assert(x == 1u64 << s);
    axiom_u64_trailing_zeros(x);
    let tz = u64_trailing_zeros(x) as u64;
    assert(x != 0);
    if tz < s {
        assert(((1u64 << s) >> tz) & 1u64 == 0u64) by (bit_vector)
            requires
                tz < s,
                s < 64,
        ;
    } else if tz > s {
        assert(((1u64 << s) >> s) & 1u64 == 1u64) by (bit_vector)
            requires
                s < 64,
        ;
        assert((x >> s) & 1u64 == 0u64);
    }
}

/// The alignment of `T` is two to the power of its unused low bits, and that
/// exponent is smaller than the width of a word.
pub proof fn lemma_alignment_is_pow2<T>()
    ensures
        align_of::<T>() == pow2(spec_lower_bits::<T>()),
        align_of::<T>() <= usize::MAX ==> spec_lower_bits::<T>() < usize::BITS,
{
    broadcast use align_properties;

    let a = align_of::<T>() as int;
    is_pow2_equiv(a);
    let e = choose|e: nat| pow(2, e) == a;
    lemma_log_pow(2, e);
    assert(pow2(e) == a);
    if a <= usize::MAX && e >= usize::BITS {
        if e > usize::BITS {
            lemma_pow2_strictly_increases(usize::BITS as nat, e);
        }
        vstd::arithmetic::power2::lemma2_to64();
    }
}

/// Returns the number of unused lower bits in a well-aligned pointer to
/// type `T`.
pub fn lower_bits<T>() -> (bits: usize)
    ensures
        bits == spec_lower_bits::<T>(),
        bits < usize::BITS,
{
    let align: usize = core::mem::align_of::<T>();
    proof {
        lemma_alignment_is_pow2::<T>();
        lemma_trailing_zeros_of_pow2(spec_lower_bits::<T>());
    }
    let zeros: u32 = (align as u64).trailing_zeros();
    zeros as usize
}

/// Returns `true` if the alignment of `T` is large enough so a pointer to an
/// instance may store the given number of `tag_bits`.
pub fn has_sufficient_alignment<T>(tag_bits: usize) -> (ok: bool)
    ensures
        ok == spec_has_sufficient_alignment::<T>(tag_bits),
        ok ==> tag_bits < usize::BITS,
{
    lower_bits::<T>() >= tag_bits
}

/// Checks that the alignment of `T` is large enough so a pointer to an
/// instance may store `N` tag bits.
///
/// Verified callers prove the condition; for any other caller the check runs
/// and stops the program where it fails.
pub fn assert_alignment<T, const N: usize>()
    requires
        spec_has_sufficient_alignment::<T>(N),
    ensures
        N < usize::BITS,
{
    let ok = has_sufficient_alignment::<T>(N);
    vstd::pervasive::runtime_assert(ok);
}

/// The tag is the word modulo `2^tag_bits`, the pointer is the word rounded
/// down to a multiple of `2^tag_bits`, and the two add up to the word.
pub proof fn lemma_decompose_is_div_mod(word: usize, tag_bits: usize)
    ensures
        spec_decompose_tag(word, tag_bits) == (word as int) % (pow2(tag_bits as nat) as int),
        spec_decompose_ptr(word, tag_bits) == word - (word as int) % (pow2(tag_bits as nat) as int),
        spec_decompose_ptr(word, tag_bits) + spec_decompose_tag(word, tag_bits) == word,
        spec_decompose_tag(word, tag_bits) <= spec_mark_mask(tag_bits),
{
    let m = spec_mark_mask(tag_bits);
    assert(word & !m == word - (word & m)) by (bit_vector);
    assert(word & m <= m) by (bit_vector);
    if tag_bits < usize::BITS {
        lemma_mark_mask_value(tag_bits);
        lemma_usize_low_bits_mask_is_mod(word, tag_bits as nat);
    } else {
        lemma_pow2_exceeds_word(tag_bits as nat);
        assert(word & m == word) by (bit_vector)
            requires
                m == !0usize,
        ;
        vstd::arithmetic::div_mod::lemma_small_mod(word as nat, pow2(tag_bits as nat));
    }
}

/// Round-trip: a pointer whose low `tag_bits` bits are zero and a tag below
/// `2^tag_bits` come back unchanged from the word they were composed into.
pub proof fn lemma_compose_roundtrip(ptr: usize, tag: usize, tag_bits: usize)
    requires
        spec_decompose_tag(ptr, tag_bits) == 0,
        tag < pow2(tag_bits as nat),
    ensures
        spec_decompose_ptr(spec_compose(ptr, tag, tag_bits), tag_bits) == ptr,
        spec_decompose_tag(spec_compose(ptr, tag, tag_bits), tag_bits) == tag,
{
    let m = spec_mark_mask(tag_bits);
    assert(((ptr & !m) | (tag & m)) & !m == ptr) by (bit_vector)
        requires
            ptr & m == 0,
    ;
    lemma_compose_truncates_tag(ptr, tag, tag_bits);
    vstd::arithmetic::div_mod::lemma_small_mod(tag as nat, pow2(tag_bits as nat));
}

/// Truncation: whatever the pointer and the tag, the tag read back from a
/// composed word is the given tag modulo `2^tag_bits`.
pub proof fn lemma_compose_truncates_tag(ptr: usize, tag: usize, tag_bits: usize)
    ensures
        spec_decompose_tag(spec_compose(ptr, tag, tag_bits), tag_bits) == (tag as int) % (pow2(
            tag_bits as nat,
        ) as int),
        spec_decompose_tag(spec_compose(ptr, tag, tag_bits), tag_bits) == spec_decompose_tag(
            tag,
            tag_bits,
        ),
{
    lemma_decompose_is_div_mod(tag, tag_bits);
    let m = spec_mark_mask(tag_bits);
    assert(((ptr & !m) | (tag & m)) & m == tag & m) by (bit_vector);
}

/// The pointer read back from a composed word is the given pointer with its
/// low `tag_bits` bits cleared, whatever the tag.
pub proof fn lemma_compose_keeps_ptr(ptr: usize, tag: usize, tag_bits: usize)
    ensures
        spec_decompose_ptr(spec_compose(ptr, tag, tag_bits), tag_bits) == spec_decompose_ptr(
            ptr,
            tag_bits,
        ),
        spec_decompose_ptr(spec_decompose_ptr(ptr, tag_bits), tag_bits) == spec_decompose_ptr(
            ptr,
            tag_bits,
        ),
        spec_decompose_tag(spec_decompose_ptr(ptr, tag_bits), tag_bits) == 0,
{
    let m = spec_mark_mask(tag_bits);
    assert(((ptr & !m) | (tag & m)) & !m == ptr & !m) by (bit_vector);
    assert((ptr & !m) & !m == ptr & !m) by (bit_vector);
    assert((ptr & !m) & m == 0) by (bit_vector);
}

/// An address that is a multiple of the alignment of `T` has its low
/// `tag_bits` bits clear whenever that alignment suffices for `tag_bits`.
pub proof fn lemma_aligned_address_has_no_tag<T>(addr: usize, tag_bits: usize)
    requires
        spec_has_sufficient_alignment::<T>(tag_bits),
        addr as int % (align_of::<T>() as int) == 0,
    ensures
        spec_decompose_tag(addr, tag_bits) == 0,
        spec_decompose_ptr(addr, tag_bits) == addr,
{
    lemma_alignment_is_pow2::<T>();
    let n = tag_bits as nat;
    let l = spec_lower_bits::<T>();
    let a = align_of::<T>() as int;
    let p = pow2(n) as int;
    let q = pow2((l - n) as nat) as int;
    lemma_pow2_adds(n, (l - n) as nat);
    lemma_pow2_pos(n);
    lemma_pow2_pos((l - n) as nat);
    assert(a == p * q);
    let k = addr as int / a;
    assert(addr as int == a * k) by {
        vstd::arithmetic::div_mod::lemma_fundamental_div_mod(addr as int, a);
    }
    assert(addr as int == p * (q * k)) by (nonlinear_arith)
        requires
            addr as int == a * k,
            a == p * q,
    ;
    assert(addr as int % p == 0) by {
        vstd::arithmetic::div_mod::lemma_mod_multiples_basic(q * k, p);
        vstd::arithmetic::mul::lemma_mul_is_commutative(p, q * k);
    }
    lemma_decompose_is_div_mod(addr, tag_bits);
}

/// A word that is at most a tag mask lies wholly within the mask's bits.
pub proof fn lemma_below_mask_is_tag(word: usize, tag_bits: usize)
    requires
        word <= spec_mark_mask(tag_bits),
    ensures
        spec_decompose_tag(word, tag_bits) == word,
        spec_decompose_ptr(word, tag_bits) == 0,
{
    let m = spec_mark_mask(tag_bits);
    if tag_bits < usize::BITS {
        lemma_mark_mask_value(tag_bits);
        let s = 1usize << tag_bits;
        assert(word & m == word && word & !m == 0) by (bit_vector)
            requires
                m == s - 1,
                s == 1usize << tag_bits,
                tag_bits < usize::BITS,
                word <= m,
        ;
    } else {
        assert(word & m == word && word & !m == 0) by (bit_vector)
            requires
                m == !0usize,
        ;
    }
}

/// Adding to a marked word a value that the tag has room for changes the
/// tag by that value and leaves the pointer as it was.
pub proof fn lemma_add_within_tag(word: usize, value: usize, tag_bits: usize)
    requires
        spec_decompose_tag(word, tag_bits) + value <= spec_mark_mask(tag_bits),
    ensures
        word + value <= usize::MAX,
        spec_decompose_ptr((word + value) as usize, tag_bits) == spec_decompose_ptr(
            word,
            tag_bits,
        ),
        spec_decompose_tag((word + value) as usize, tag_bits) == spec_decompose_tag(
            word,
            tag_bits,
        ) + value,
{
    let m = spec_mark_mask(tag_bits);
    let p = spec_decompose_ptr(word, tag_bits);
    let t = (spec_decompose_tag(word, tag_bits) + value) as usize;
    lemma_decompose_is_div_mod(word, tag_bits);
    lemma_compose_keeps_ptr(word, 0, tag_bits);
    lemma_below_mask_is_tag(t, tag_bits);
    assert(p + t == (p | t) && (p | t) & m == t && (p | t) & !m == p) by (bit_vector)
        requires
            p & m == 0,
            t & m == t,
    ;
}

/// Subtracting from a marked word a value that the tag holds changes the tag
/// by that value and leaves the pointer as it was.
pub proof fn lemma_sub_within_tag(word: usize, value: usize, tag_bits: usize)
    requires
        value <= spec_decompose_tag(word, tag_bits),
    ensures
        value <= word,
        spec_decompose_ptr((word - value) as usize, tag_bits) == spec_decompose_ptr(
            word,
            tag_bits,
        ),
        spec_decompose_tag((word - value) as usize, tag_bits) == spec_decompose_tag(
            word,
            tag_bits,
        ) - value,
{
    let m = spec_mark_mask(tag_bits);
    let p = spec_decompose_ptr(word, tag_bits);
    let t = (spec_decompose_tag(word, tag_bits) - value) as usize;
    lemma_decompose_is_div_mod(word, tag_bits);
    lemma_compose_keeps_ptr(word, 0, tag_bits);
    lemma_below_mask_is_tag(t, tag_bits);
    assert(p + t == (p | t) && (p | t) & m == t && (p | t) & !m == p) by (bit_vector)
        requires
            p & m == 0,
            t & m == t,
    ;
}

/// Null classification: a word composed from the zero address has a zero
/// address component, whatever its tag.
pub proof fn lemma_null_has_no_address(tag: usize, tag_bits: usize)
    ensures
        spec_decompose_ptr(spec_compose(0, tag, tag_bits), tag_bits) == 0,
        spec_decompose_ptr(0, tag_bits) == 0,
        spec_decompose_tag(0, tag_bits) == 0,
{
    let m = spec_mark_mask(tag_bits);
    assert(((0usize & !m) | (tag & m)) & !m == 0) by (bit_vector);
    assert(0usize & !m == 0) by (bit_vector);
    assert(0usize & m == 0) by (bit_vector);
}

} // verus!
