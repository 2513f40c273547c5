use conquer_pointer::codec::{
    compose, decompose, decompose_ptr, decompose_tag, lower_bits, mark_mask,
};
use conquer_pointer::{assert_alignment, has_sufficient_alignment};

#[test]
fn mark_mask_values() {
    assert_eq!(mark_mask(0), 0);
    assert_eq!(mark_mask(1), 0b1);
    assert_eq!(mark_mask(2), 0b11);
    assert_eq!(mark_mask(3), 0b111);
    assert_eq!(mark_mask(16), 0xFFFF);
}

#[test]
fn mark_mask_of_a_whole_word() {
    assert_eq!(mark_mask(usize::BITS as usize - 1), usize::MAX >> 1);
    assert_eq!(mark_mask(usize::BITS as usize), usize::MAX);
    assert_eq!(mark_mask(usize::BITS as usize + 7), usize::MAX);
}

#[test]
fn compose_then_decompose() {
    let word = compose(0x1000, 0b11, 2);
    assert_eq!(word, 0x1003);
    assert_eq!(decompose(word, 2), (0x1000, 0b11));
    assert_eq!(decompose_ptr(word, 2), 0x1000);
    assert_eq!(decompose_tag(word, 2), 0b11);
}

#[test]
fn compose_truncates_excess_tag_bits() {
    assert_eq!(compose(0x1000, 0b111, 2), 0x1003);
    assert_eq!(decompose_tag(compose(0x1000, 0b111, 2), 2), 0b111 % 4);
    assert_eq!(decompose_tag(compose(0x1000, 0b101, 2), 2), 0b01);
    assert_eq!(decompose_tag(compose(0x1000, usize::MAX, 3), 3), 0b111);
}

#[test]
fn compose_drops_low_bits_of_the_pointer() {
    assert_eq!(compose(0x1001, 0b10, 2), 0x1002);
    assert_eq!(decompose_ptr(compose(0x1003, 0, 2), 2), 0x1000);
}

#[test]
fn compose_with_no_tag_bits() {
    assert_eq!(compose(0x1001, 0b11, 0), 0x1001);
    assert_eq!(decompose(0x1001, 0), (0x1001, 0));
}

#[test]
fn decompose_is_div_and_mod() {
    let word: usize = 0xDEAD_BEEF;
    for bits in 0..16usize {
        let unit = 1usize << bits;
        assert_eq!(decompose_tag(word, bits), word % unit);
        assert_eq!(decompose_ptr(word, bits), word - word % unit);
        assert_eq!(decompose_ptr(word, bits) + decompose_tag(word, bits), word);
    }
}

#[test]
fn roundtrip_of_aligned_pointer_and_small_tag() {
    for tag in 0..8usize {
        let word = compose(0xABC0, tag, 3);
        assert_eq!(decompose(word, 3), (0xABC0, tag));
    }
}

#[test]
fn lower_bits_of_primitive_types() {
    assert_eq!(lower_bits::<u8>(), 0);
    assert_eq!(lower_bits::<u16>(), 1);
    assert_eq!(lower_bits::<u32>(), 2);
    assert_eq!(lower_bits::<u64>(), core::mem::align_of::<u64>().trailing_zeros() as usize);
    assert_eq!(lower_bits::<()>(), 0);
}

#[test]
fn sufficient_alignment() {
    assert!(has_sufficient_alignment::<u32>(0));
    assert!(has_sufficient_alignment::<u32>(1));
    assert!(has_sufficient_alignment::<u32>(2));
    assert!(!has_sufficient_alignment::<u32>(3));
    assert!(has_sufficient_alignment::<u8>(0));
    assert!(!has_sufficient_alignment::<u8>(1));
    assert!(!has_sufficient_alignment::<u16>(usize::MAX));
}

#[test]
fn assert_alignment_accepts_a_fitting_width() {
    assert_alignment::<u32, 2>();
    assert_alignment::<u16, 1>();
    assert_alignment::<u8, 0>();
}
