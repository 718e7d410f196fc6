//! The multiplicity containers and their wire shapes: emptiness, first
//! elements, shape preservation, and the decode rules.

use ivms101::wire::decode_one_to_n;
use ivms101::wire::decode_zero_to_n;
use ivms101::wire::encode_one_to_n;
use ivms101::wire::encode_zero_to_n;
use ivms101::NonEmptyVec;
use ivms101::OneToN;
use ivms101::WireShape;
use ivms101::ZeroToN;

#[test]
fn test_non_empty_vec() {
    let single = NonEmptyVec::singleton(1_u8);
    assert_eq!(*single.first(), 1);
    assert_eq!(single.len(), 1);
    assert!(NonEmptyVec::<u8>::try_from_vec(vec![]).is_err());
    let several = NonEmptyVec::try_from_vec(vec![1_u8, 2, 3]).unwrap();
    assert_eq!(*several.first(), 1);
    assert_eq!(several.len(), 3);
    assert_eq!(*several.get(2), 3);
    assert_eq!(several.into_vec(), vec![1, 2, 3]);
}

#[test]
fn one_to_n_test_serialization() {
    // A bare value decodes to the bare shape.
    let bare = decode_one_to_n(WireShape::Bare(1_u8)).unwrap();
    assert_eq!(bare, OneToN::One(1));
    assert_eq!(*bare.first(), 1);
    // A one-element list decodes to the list shape, with the same first
    // element.
    let listed = decode_one_to_n(WireShape::Sequence(vec![1_u8])).unwrap();
    assert_eq!(*listed.first(), 1);
    assert!(matches!(listed, OneToN::N(_)));
    // The two decoded containers keep their distinct shapes on encode.
    assert_eq!(encode_one_to_n(bare), WireShape::Bare(1));
    assert_eq!(encode_one_to_n(listed), WireShape::Sequence(vec![1]));
    // An empty list never decodes.
    assert!(decode_one_to_n(WireShape::Sequence(Vec::<u8>::new())).is_err());
}

#[test]
fn zero_to_n_test_serialization() {
    // An omitted field decodes to the absent state and is omitted again.
    let absent = decode_zero_to_n(None::<WireShape<u8>>);
    assert_eq!(absent, ZeroToN::Absent);
    assert!(absent.is_empty());
    assert_eq!(encode_zero_to_n(absent), None);
    // A bare value and a list keep their shapes through a round trip.
    let bare = decode_zero_to_n(Some(WireShape::Bare(1_u8)));
    assert_eq!(bare, ZeroToN::One(1));
    assert_eq!(encode_zero_to_n(bare.clone()), Some(WireShape::Bare(1)));
    let listed = decode_zero_to_n(Some(WireShape::Sequence(vec![1_u8])));
    assert_eq!(listed, ZeroToN::N(vec![1]));
    assert_eq!(
        encode_zero_to_n(listed),
        Some(WireShape::Sequence(vec![1]))
    );
    // An empty list decodes to the empty list state, which is then
    // omitted on encode.
    let empty = decode_zero_to_n(Some(WireShape::Sequence(Vec::<u8>::new())));
    assert_eq!(empty, ZeroToN::N(vec![]));
    assert!(empty.is_empty());
    assert_eq!(encode_zero_to_n(empty), None);
}

#[test]
fn test_zero_to_n_is_empty() {
    assert!(!ZeroToN::from(Some(8)).is_empty());
    assert!(ZeroToN::<u8>::from(None).is_empty());
    assert!(ZeroToN::<u8>::N(vec![]).is_empty());
    assert!(!ZeroToN::N(vec![8]).is_empty());
}

#[test]
fn test_zero_to_n_first() {
    assert_eq!(ZeroToN::from(Some(8)).first(), Some(&8));
    assert_eq!(ZeroToN::<u8>::from(None).first(), None);
    assert_eq!(ZeroToN::<u8>::N(vec![]).first(), None);
    assert_eq!(ZeroToN::N(vec![7, 8]).first(), Some(&7));
}

#[test]
fn test_one_to_n_first_and_get() {
    let bare: OneToN<u8> = 5.into();
    assert_eq!(*bare.first(), 5);
    assert_eq!(bare.len(), 1);
    let listed = OneToN::try_from_vec(vec![4_u8, 5, 6]).unwrap();
    assert_eq!(*listed.first(), 4);
    assert_eq!(listed.len(), 3);
    assert_eq!(*listed.get(1), 5);
    assert!(OneToN::<u8>::try_from_vec(vec![]).is_err());
}
