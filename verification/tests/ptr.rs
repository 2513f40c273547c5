use conquer_pointer::MarkedPtr as Marked;

type MarkedPtr = Marked<i32, 2>;

fn address_of(reference: &i32) -> usize {
    core::ptr::from_ref(reference).addr()
}

#[test]
fn ptr_from_usize() {
    let reference = &1;
    let ptr = MarkedPtr::from_usize(address_of(reference) | 0b1);
    assert_eq!(ptr.decompose(), (address_of(reference), 0b1));
}

#[test]
fn raw_from_usize() {
    let reference = address_of(&1);
    let ptr = MarkedPtr::from_usize(reference | 0b1);
    assert_eq!(ptr.into_usize(), reference | 0b1);
    assert_eq!(ptr.decompose(), (reference, 0b1));
}

#[test]
fn from() {
    let mut val = 1;

    let from_ref = MarkedPtr::from(&val);
    let from_mut = MarkedPtr::from(&mut val);
    let from_const_ptr = MarkedPtr::new(core::ptr::from_ref(&val).addr());
    let from_mut_ptr = MarkedPtr::new(core::ptr::from_mut(&mut val).addr());

    assert_eq!(from_ref, from_mut);
    assert_eq!(from_mut, from_const_ptr);
    assert_eq!(from_const_ptr, from_mut_ptr);
}

#[test]
fn from_reference_is_the_address() {
    let val = 7;
    let ptr = MarkedPtr::from(&val);
    assert_eq!(ptr.into_usize(), address_of(&val));
    assert_ne!(ptr.into_usize(), 0);
    assert_eq!(ptr.into_usize() % core::mem::align_of::<i32>(), 0);
    assert_eq!(ptr.decompose(), (address_of(&val), 0));
}

#[test]
fn null_is_zero() {
    let ptr = MarkedPtr::null();
    assert_eq!(ptr.decompose(), (0, 0));
    assert_eq!(ptr.into_usize(), 0);
    assert!(ptr.is_null());
    assert_eq!(MarkedPtr::default(), MarkedPtr::null());
}

#[test]
fn new_keeps_the_word() {
    let ptr = MarkedPtr::new(0x1000);
    assert_eq!(ptr.decompose(), (0x1000, 0));
    assert_eq!(ptr.into_raw(), 0x1000);
    assert_eq!(ptr.into_ptr(), 0x1000);
    assert_eq!(ptr.into_usize(), 0x1000);
    assert_eq!(MarkedPtr::from_usize(0b11).decompose(), (0, 0b11));
    assert_eq!(MarkedPtr::from_usize(0b11).into_raw(), 0b11);
}

#[test]
fn concrete_scenario() {
    assert_eq!(MarkedPtr::compose(0x1000, 0b11).decompose(), (0x1000, 0b11));
    assert_eq!(MarkedPtr::compose(0x1000, 0b111).decompose_tag(), 0b11);
    assert_eq!(MarkedPtr::compose(0x1000, 0b101).decompose(), (0x1000, 0b01));
}

#[test]
fn tagged_null_is_null() {
    let ptr = MarkedPtr::compose(0, 0b11);
    assert!(ptr.is_null());
    assert_eq!(ptr.decompose(), (0, 0b11));
    assert!(!MarkedPtr::compose(0x1000, 0).is_null());
    assert!(MarkedPtr::from_usize(0b01).is_null());
    assert!(!MarkedPtr::from_usize(0b100).is_null());
}

#[test]
fn clear_and_split_tag() {
    let ptr = MarkedPtr::compose(0x1000, 0b11);
    assert_eq!(ptr.clear_tag().decompose(), (0x1000, 0));
    assert_eq!(ptr.split_tag(), (MarkedPtr::new(0x1000), 0b11));
}

#[test]
fn set_tag_leaves_the_pointer() {
    let ptr = MarkedPtr::compose(0x1000, 0b11);
    assert_eq!(ptr.set_tag(0b01).decompose(), (0x1000, 0b01));
    assert_eq!(ptr.with_tag(0b10).decompose(), (0x1000, 0b10));
    assert_eq!(ptr.set_tag(0b110).decompose(), (0x1000, 0b10));
    for tag in 0..16usize {
        assert_eq!(ptr.set_tag(tag).decompose_ptr(), ptr.decompose_ptr());
        assert_eq!(ptr.set_tag(tag).decompose_tag(), tag % 4);
    }
}

#[test]
fn update_tag_applies_the_function() {
    let ptr = MarkedPtr::compose(0x1000, 0b11);
    assert_eq!(ptr.update_tag(|tag| tag - 1).decompose(), (0x1000, 0b10));
    assert_eq!(ptr.update_tag(|tag| tag + 1).decompose(), (0x1000, 0b00));
}

#[test]
fn add_and_sub_tag() {
    let ptr = MarkedPtr::compose(0x1000, 0b10);
    assert_eq!(ptr.add_tag(1).decompose(), (0x1000, 0b11));
    assert_eq!(ptr.sub_tag(1).decompose(), (0x1000, 0b01));
}

#[test]
fn add_and_sub_tag_do_not_mask() {
    let ptr = MarkedPtr::compose(0x1000, 0b11);
    assert_eq!(ptr.add_tag(1).decompose(), (0x1004, 0));
    let ptr = MarkedPtr::compose(0x1000, 0);
    assert_eq!(ptr.sub_tag(1).decompose(), (0x0FFC, 0b11));
    assert_eq!(MarkedPtr::from_usize(usize::MAX).add_tag(1).into_usize(), 0);
    assert_eq!(MarkedPtr::null().sub_tag(1).into_usize(), usize::MAX);
}

#[test]
fn cast_keeps_the_word() {
    let ptr = MarkedPtr::compose(0x1000, 0b11);
    let cast: Marked<u64, 2> = ptr.cast();
    assert_eq!(cast.into_usize(), 0x1003);
}

#[test]
fn equality_is_by_word() {
    assert_eq!(MarkedPtr::compose(0x1000, 1), MarkedPtr::from_usize(0x1001));
    assert_ne!(MarkedPtr::compose(0x1000, 1), MarkedPtr::compose(0x1000, 2));
    let ptr = MarkedPtr::compose(0x1000, 1);
    let copy = ptr;
    assert_eq!(ptr, copy);
    assert_eq!(ptr.clone(), copy);
}

#[test]
#[should_panic]
fn illegal_type() {
    type InvalidPtr = Marked<i32, 3>;
    let _ptr = InvalidPtr::compose(0, 0b100);
}

#[test]
fn carries_out_of_the_tag() {
    let ptr = MarkedPtr::compose(0x1000, 0b10);
    assert!(!ptr.add_carries_into_address(0));
    assert!(!ptr.add_carries_into_address(1));
    assert!(ptr.add_carries_into_address(2));
    assert!(ptr.add_carries_into_address(usize::MAX));
    assert!(!ptr.sub_borrows_from_address(0));
    assert!(!ptr.sub_borrows_from_address(2));
    assert!(ptr.sub_borrows_from_address(3));
    assert!(ptr.sub_borrows_from_address(usize::MAX));
    for tag in 0..4usize {
        for value in 0..8usize {
            let ptr = MarkedPtr::compose(0x1000, tag);
            assert_eq!(ptr.add_carries_into_address(value), tag + value > 0b11);
            assert_eq!(
                ptr.add_carries_into_address(value),
                ptr.add_tag(value).decompose_ptr() != 0x1000
            );
            assert_eq!(ptr.sub_borrows_from_address(value), value > tag);
            assert_eq!(
                ptr.sub_borrows_from_address(value),
                ptr.sub_tag(value).decompose_ptr() != 0x1000
            );
        }
    }
}
