use conquer_pointer::MaybeNull::{self, NotNull, Null};
use conquer_pointer::{MarkedNonNull as NonNull, MarkedPtr as Marked, NonNullable};

type MarkedPtr = Marked<i32, 2>;
type MarkedNonNull = NonNull<i32, 2>;

fn value() -> MaybeNull<MarkedNonNull> {
    NotNull(MarkedNonNull::compose(0x1000, 0b11))
}

fn null(tag: usize) -> MaybeNull<MarkedNonNull> {
    Null(tag)
}

#[test]
fn from_marked_ptr_decides_nullity() {
    assert_eq!(MaybeNull::from(MarkedPtr::compose(0x1000, 0b11)), value());
    assert_eq!(MaybeNull::from(MarkedPtr::compose(0, 0b11)), null(0b11));
    assert_eq!(MaybeNull::from(MarkedPtr::null()), null(0));
    assert_eq!(MaybeNull::from(MarkedPtr::from_usize(0b100)).decompose_ptr(), 0b100);
}

#[test]
fn is_null_and_is_not_null() {
    assert!(!value().is_null());
    assert!(value().is_not_null());
    assert!(null(1).is_null());
    assert!(!null(1).is_not_null());
    assert_eq!(MaybeNull::<MarkedNonNull>::default(), null(0));
}

#[test]
fn unwrap_and_expect() {
    assert_eq!(value().unwrap(), MarkedNonNull::compose(0x1000, 0b11));
    assert_eq!(value().expect("a pointer"), MarkedNonNull::compose(0x1000, 0b11));
    assert_eq!(null(0b10).unwrap_null(), 0b10);
    assert_eq!(value().not_null(), Some(MarkedNonNull::compose(0x1000, 0b11)));
    assert_eq!(null(0b10).not_null(), None);
}

#[test]
fn unwrap_or_else_hands_the_tag_on() {
    let fallback = |tag: usize| MarkedNonNull::compose(0x2000, tag);
    assert_eq!(value().unwrap_or_else(fallback), MarkedNonNull::compose(0x1000, 0b11));
    assert_eq!(null(0b01).unwrap_or_else(fallback), MarkedNonNull::compose(0x2000, 0b01));
}

#[test]
fn map_keeps_the_tag_of_a_null() {
    assert_eq!(value().map(|ptr| ptr.clear_tag()), NotNull(MarkedNonNull::compose(0x1000, 0)));
    assert_eq!(null(0b10).map(|ptr| ptr.clear_tag()), null(0b10));
    assert_eq!(value().map_or(7, |ptr| ptr.decompose_tag()), 0b11);
    assert_eq!(null(0b10).map_or(7, |ptr| ptr.decompose_tag()), 7);
    let default = |tag: usize| MarkedNonNull::compose(0x2000, tag);
    assert_eq!(
        value().map_or_else(default, |ptr| ptr.clear_tag()),
        MarkedNonNull::compose(0x1000, 0)
    );
    assert_eq!(
        null(0b10).map_or_else(default, |ptr| ptr.clear_tag()),
        MarkedNonNull::compose(0x2000, 0b10)
    );
}

#[test]
fn as_ref_borrows() {
    let maybe = value();
    assert_eq!(maybe.as_ref(), NotNull(&MarkedNonNull::compose(0x1000, 0b11)));
    let maybe = null(3);
    assert_eq!(maybe.as_ref(), Null(3));
}

#[test]
fn take_and_replace() {
    let mut maybe = value();
    assert_eq!(maybe.take(), value());
    assert_eq!(maybe, null(0));
    assert_eq!(maybe.take(), null(0));

    let mut maybe = null(0b11);
    assert_eq!(maybe.replace(MarkedNonNull::compose(0x1000, 0)), null(0b11));
    assert_eq!(maybe, NotNull(MarkedNonNull::compose(0x1000, 0)));
    assert_eq!(maybe.replace(MarkedNonNull::compose(0x2000, 1)), NotNull(MarkedNonNull::compose(0x1000, 0)));
    assert_eq!(maybe, NotNull(MarkedNonNull::compose(0x2000, 1)));
}

#[test]
fn marked_ptr_of_maybe_null() {
    assert_eq!(value().as_marked_ptr(), MarkedPtr::compose(0x1000, 0b11));
    assert_eq!(value().into_marked_ptr(), MarkedPtr::compose(0x1000, 0b11));
    assert_eq!(null(0b10).as_marked_ptr(), MarkedPtr::compose(0, 0b10));
    assert_eq!(null(0b110).into_marked_ptr(), MarkedPtr::compose(0, 0b10));
    assert!(null(0b10).into_marked_ptr().is_null());
}

#[test]
fn tag_helpers_of_maybe_null() {
    assert_eq!(value().clear_tag(), NotNull(MarkedNonNull::compose(0x1000, 0)));
    assert_eq!(null(0b10).clear_tag(), null(0));
    assert_eq!(value().split_tag(), (NotNull(MarkedNonNull::compose(0x1000, 0)), 0b11));
    assert_eq!(null(0b10).split_tag(), (null(0), 0b10));
    assert_eq!(value().set_tag(0b01), NotNull(MarkedNonNull::compose(0x1000, 0b01)));
    assert_eq!(null(0b10).set_tag(0b01), null(0b01));
    assert_eq!(null(0b10).set_tag(0b111), null(0b111));
}

#[test]
fn decompose_maybe_null() {
    assert_eq!(value().decompose(), (Some(MarkedNonNull::compose(0x1000, 0)), 0b11));
    assert_eq!(null(0b10).decompose(), (None, 0b10));
    assert_eq!(value().decompose_ptr(), 0x1000);
    assert_eq!(null(0b10).decompose_ptr(), 0);
    assert_eq!(value().decompose_tag(), 0b11);
    assert_eq!(null(0b10).decompose_tag(), 0b10);
}

#[test]
fn from_option() {
    assert_eq!(MaybeNull::from(Some(MarkedNonNull::compose(0x1000, 0b11))), value());
    assert_eq!(MaybeNull::<MarkedNonNull>::from(None), null(0));
}

#[test]
fn non_nullable_addresses() {
    let val = 5i32;
    let reference = &val;
    assert_eq!(NonNullable::as_const_ptr(&reference), core::ptr::from_ref(&val).addr());
    assert_eq!(NonNullable::as_mut_ptr(&reference), core::ptr::from_ref(&val).addr());
    assert_eq!(NonNullable::as_non_null(&reference), core::ptr::from_ref(&val).addr());
    let ptr = MarkedNonNull::compose(0x1000, 0b11);
    assert_eq!(NonNullable::as_const_ptr(&ptr), 0x1000);
    assert_eq!(NonNullable::as_mut_ptr(&ptr), 0x1000);
    assert_eq!(NonNullable::as_non_null(&ptr), 0x1000);
    let mut other = 6i32;
    let expected = core::ptr::from_mut(&mut other).addr();
    let exclusive = &mut other;
    assert_eq!(NonNullable::as_const_ptr(&exclusive), expected);
    assert_eq!(NonNullable::as_non_null(&exclusive), expected);
}

#[test]
fn as_mut_writes_through() {
    let mut maybe = value();
    match maybe.as_mut() {
        NotNull(ptr) => *ptr = MarkedNonNull::compose(0x2000, 0b01),
        Null(_) => unreachable!(),
    }
    assert_eq!(maybe, NotNull(MarkedNonNull::compose(0x2000, 0b01)));

    let mut maybe = null(0b10);
    assert!(matches!(maybe.as_mut(), Null(0b10)));
    assert_eq!(maybe, null(0b10));
}

#[test]
fn into_option_drops_the_tag() {
    assert_eq!(Option::from(value()), Some(MarkedNonNull::compose(0x1000, 0b11)));
    assert_eq!(Option::<MarkedNonNull>::from(null(0b11)), None);
    let maybe = value();
    let borrowed: MaybeNull<&MarkedNonNull> = MaybeNull::from(&maybe);
    assert_eq!(borrowed, NotNull(&MarkedNonNull::compose(0x1000, 0b11)));
    let maybe = null(0b01);
    let borrowed: MaybeNull<&MarkedNonNull> = MaybeNull::from(&maybe);
    assert_eq!(borrowed, Null(0b01));
}

#[test]
fn marked_ptr_comes_back_from_maybe_null() {
    for word in [0usize, 0b01, 0b11, 0x1000, 0x1003, usize::MAX] {
        let ptr = MarkedPtr::from_usize(word);
        assert_eq!(MaybeNull::from(ptr).into_marked_ptr(), ptr);
    }
}

#[test]
fn non_null_from_marked_ptr_tells_apart() {
    assert_eq!(MarkedNonNull::from_marked_ptr(MarkedPtr::compose(0x1000, 0b11)), value());
    assert_eq!(MarkedNonNull::from_marked_ptr(MarkedPtr::compose(0, 0b11)), null(0b11));
}

#[test]
fn from_mutable_reference_writes_through() {
    let mut maybe = value();
    match MaybeNull::<&mut MarkedNonNull>::from(&mut maybe) {
        NotNull(ptr) => *ptr = MarkedNonNull::compose(0x3000, 0b10),
        Null(_) => unreachable!(),
    }
    assert_eq!(maybe, NotNull(MarkedNonNull::compose(0x3000, 0b10)));

    let mut maybe = null(0b01);
    assert!(matches!(MaybeNull::<&mut MarkedNonNull>::from(&mut maybe), Null(0b01)));
    assert_eq!(maybe, null(0b01));
}
