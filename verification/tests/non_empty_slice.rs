use std::convert::TryInto;

use bounded_types::NonEmptySlice;

#[test]
fn empty_slice_is_refused() {
    let empty: &[u32] = &[];
    let res: Result<NonEmptySlice<u32>, _> = empty.try_into();
    assert!(res.is_err());
}

#[test]
fn nonempty_slice_views_source_whole() {
    let data = [3u32, 1, 4];
    let view: NonEmptySlice<u32> = data.as_slice().try_into().unwrap();
    assert_eq!(view.as_slice(), &[3, 1, 4]);
    assert_eq!(view.len(), 3);
    assert!(view.has_len(3));
    assert!(!view.has_len(0));
    assert_eq!(*view.first(), 3);
    assert_eq!(*view.last(), 4);
}

#[test]
fn single_reference_views_one_element() {
    let value = 42u8;
    let view: NonEmptySlice<u8> = NonEmptySlice::from_single(&value);
    assert_eq!(view.len(), 1);
    assert_eq!(*view.first(), 42);
    assert_eq!(*view.last(), 42);
    assert_eq!(view.as_slice(), &[42]);
}
