use cyclonedds::cdr_bounds::{CdrBounds, CdrSize};

#[test]
fn test_cdr_size_bounds_comparisons() {
    let min_bounded = CdrSize::Bounded(usize::MIN);
    let max_bounded = CdrSize::Bounded(usize::MAX);
    let unbounded = CdrSize::Unbounded;

    assert!(min_bounded < max_bounded);
    assert!(min_bounded < unbounded);

    assert!(max_bounded > min_bounded);
    assert!(max_bounded < unbounded);

    assert!(unbounded > min_bounded);
    assert!(unbounded > max_bounded);
}

#[test]
fn test_size_comparison_methods() {
    assert!(CdrSize::Bounded(3).lt(&CdrSize::Bounded(4)));
    assert!(!CdrSize::Bounded(4).lt(&CdrSize::Bounded(4)));
    assert!(CdrSize::Bounded(4).le(&CdrSize::Bounded(4)));
    assert!(CdrSize::Bounded(usize::MAX).lt(&CdrSize::Unbounded));
    assert!(!CdrSize::Unbounded.lt(&CdrSize::Bounded(0)));
    assert!(!CdrSize::Unbounded.lt(&CdrSize::Unbounded));
    assert!(CdrSize::Unbounded.le(&CdrSize::Unbounded));
}

#[test]
fn test_padding_rounds_up() {
    assert_eq!(CdrSize::Bounded(0).with_padding(4), CdrSize::Bounded(0));
    assert_eq!(CdrSize::Bounded(1).with_padding(4), CdrSize::Bounded(4));
    assert_eq!(CdrSize::Bounded(4).with_padding(4), CdrSize::Bounded(4));
    assert_eq!(CdrSize::Bounded(5).with_padding(8), CdrSize::Bounded(8));
    assert_eq!(CdrSize::Bounded(7).with_padding(0), CdrSize::Bounded(7));
    assert_eq!(CdrSize::Unbounded.with_padding(8), CdrSize::Unbounded);
}

#[test]
fn test_padding_idempotent() {
    for n in 0..64usize {
        for a in 1..9usize {
            let once = CdrSize::Bounded(n).with_padding(a);
            assert_eq!(once.with_padding(a), once);
        }
    }
}

#[test]
fn test_primitive_bounds() {
    assert_eq!(<() as CdrBounds>::max_serialized_cdr_size(), CdrSize::Bounded(0));
    assert_eq!(<() as CdrBounds>::alignment(), 0);
    assert_eq!(<bool as CdrBounds>::max_serialized_cdr_size(), CdrSize::Bounded(1));
    assert_eq!(<u8 as CdrBounds>::max_serialized_cdr_size(), CdrSize::Bounded(1));
    assert_eq!(<u16 as CdrBounds>::max_serialized_cdr_size(), CdrSize::Bounded(2));
    assert_eq!(<u16 as CdrBounds>::alignment(), 2);
    assert_eq!(<u32 as CdrBounds>::max_serialized_cdr_size(), CdrSize::Bounded(4));
    assert_eq!(<u64 as CdrBounds>::max_serialized_cdr_size(), CdrSize::Bounded(8));
    assert_eq!(<u64 as CdrBounds>::alignment(), 8);
    assert_eq!(<i8 as CdrBounds>::max_serialized_cdr_size(), CdrSize::Bounded(1));
    assert_eq!(<i16 as CdrBounds>::max_serialized_cdr_size(), CdrSize::Bounded(2));
    assert_eq!(<i32 as CdrBounds>::max_serialized_cdr_size(), CdrSize::Bounded(4));
    assert_eq!(<i64 as CdrBounds>::max_serialized_cdr_size(), CdrSize::Bounded(8));
    assert_eq!(<char as CdrBounds>::max_serialized_cdr_size(), CdrSize::Bounded(1));
}

#[test]
fn test_array_bounds_multiply_padded_element() {
    assert_eq!(<[u32; 5] as CdrBounds>::max_serialized_cdr_size(), CdrSize::Bounded(20));
    assert_eq!(<[u32; 5] as CdrBounds>::alignment(), 4);
    assert_eq!(<[u64; 3] as CdrBounds>::max_serialized_cdr_size(), CdrSize::Bounded(24));
    assert_eq!(<[u8; 7] as CdrBounds>::max_serialized_cdr_size(), CdrSize::Bounded(7));
    assert_eq!(<[u16; 0] as CdrBounds>::max_serialized_cdr_size(), CdrSize::Bounded(0));
    assert_eq!(
        <[Vec<u8>; 2] as CdrBounds>::max_serialized_cdr_size(),
        CdrSize::Unbounded
    );
}

#[test]
fn test_tuple_bounds_sum_padded_fields() {
    assert_eq!(<(u32, i32) as CdrBounds>::max_serialized_cdr_size(), CdrSize::Bounded(8));
    assert_eq!(<(u32, i32) as CdrBounds>::alignment(), 4);
    assert_eq!(<(u8,) as CdrBounds>::max_serialized_cdr_size(), CdrSize::Bounded(1));
    assert_eq!(
        <(u8, u16, u32, u64) as CdrBounds>::max_serialized_cdr_size(),
        CdrSize::Bounded(15)
    );
    assert_eq!(<(u8, u16, u32, u64) as CdrBounds>::alignment(), 8);
    assert_eq!(
        <(u32, String) as CdrBounds>::max_serialized_cdr_size(),
        CdrSize::Unbounded
    );
}

#[test]
fn test_growable_bounds_are_unbounded() {
    assert_eq!(<Vec<u64> as CdrBounds>::max_serialized_cdr_size(), CdrSize::Unbounded);
    assert_eq!(<Vec<u64> as CdrBounds>::alignment(), 8);
    assert_eq!(<Vec<u8> as CdrBounds>::alignment(), 4);
    assert_eq!(<String as CdrBounds>::max_serialized_cdr_size(), CdrSize::Unbounded);
    assert_eq!(<String as CdrBounds>::alignment(), 4);
}

#[test]
fn test_size_arithmetic() {
    assert_eq!(CdrSize::Bounded(3).plus(CdrSize::Bounded(4)), CdrSize::Bounded(7));
    assert_eq!(CdrSize::Bounded(3).plus(CdrSize::Unbounded), CdrSize::Unbounded);
    assert_eq!(CdrSize::Unbounded.plus(CdrSize::Bounded(4)), CdrSize::Unbounded);
    assert_eq!(CdrSize::Bounded(3).times(4), CdrSize::Bounded(12));
    assert_eq!(CdrSize::Unbounded.times(4), CdrSize::Unbounded);
    assert_eq!(CdrSize::Bounded(9).minus(CdrSize::Bounded(4)), CdrSize::Bounded(5));
    assert_eq!(CdrSize::Unbounded.minus(CdrSize::Bounded(4)), CdrSize::Unbounded);
    assert_eq!(CdrSize::Bounded(9).divided_by(CdrSize::Bounded(2)), CdrSize::Bounded(4));
    assert_eq!(CdrSize::Bounded(9).divided_by(CdrSize::Unbounded), CdrSize::Unbounded);
}
