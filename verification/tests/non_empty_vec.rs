use std::convert::TryInto;

use bounded_types::NonEmptyVec;

#[test]
fn test_pop_push() {
    let mut vec: NonEmptyVec<usize> = vec![1, 2].try_into().unwrap();
    assert_eq!(vec.pop(), Some(2));
    assert_eq!(vec.pop(), None);
    assert_eq!(vec.as_slice()[0], 1);
    vec.as_mut_slice()[0] = 0;
    assert_eq!(*vec.first(), 0);
    let first: &mut usize = vec.first_mut();
    *first = 4;
    assert_eq!(vec.as_slice()[0], 4);
}

#[test]
fn empty_vec_is_refused() {
    let empty: Vec<u32> = Vec::new();
    let res: Result<NonEmptyVec<u32>, _> = empty.try_into();
    assert!(res.is_err());
}

#[test]
fn nonempty_vec_round_trips() {
    let source = vec![7u32, 8, 9];
    let vec: NonEmptyVec<u32> = source.clone().try_into().unwrap();
    assert_eq!(vec.as_slice(), source.as_slice());
    assert_eq!(vec.len(), 3);
    assert!(vec.has_len(3));
    assert!(!vec.has_len(2));
}

#[test]
fn from_single_holds_one_element() {
    let vec: NonEmptyVec<&str> = NonEmptyVec::from_single("only");
    assert_eq!(vec.len(), 1);
    assert_eq!(*vec.first(), "only");
    assert_eq!(*vec.last(), "only");
}

#[test]
fn pop_on_single_leaves_length_one() {
    let mut vec: NonEmptyVec<u8> = vec![5u8].try_into().unwrap();
    assert_eq!(vec.pop(), None);
    assert_eq!(vec.len(), 1);
    assert_eq!(*vec.first(), 5);
}

#[test]
fn remove_on_single_fails_and_keeps_element() {
    let mut vec: NonEmptyVec<u8> = vec![9u8].try_into().unwrap();
    assert!(vec.remove(0).is_err());
    assert_eq!(vec.len(), 1);
    assert_eq!(*vec.first(), 9);
    assert!(vec.swap_remove(0).is_err());
    assert_eq!(vec.len(), 1);
    assert_eq!(*vec.first(), 9);
}

#[test]
fn remove_shifts_the_rest() {
    let mut vec: NonEmptyVec<u32> = vec![1u32, 2, 3, 4].try_into().unwrap();
    assert_eq!(vec.remove(1).unwrap(), 2);
    assert_eq!(vec.as_slice(), &[1, 3, 4]);
}

#[test]
fn swap_remove_moves_last_into_hole() {
    let mut vec: NonEmptyVec<u32> = vec![1u32, 2, 3, 4].try_into().unwrap();
    assert_eq!(vec.swap_remove(1).unwrap(), 2);
    assert_eq!(vec.as_slice(), &[1, 4, 3]);
}

#[test]
fn push_and_insert_grow_in_place() {
    let mut vec: NonEmptyVec<u32> = NonEmptyVec::from_single(2);
    vec.push(4);
    vec.insert(0, 1);
    vec.insert(2, 3);
    assert_eq!(vec.as_slice(), &[1, 2, 3, 4]);
    assert_eq!(*vec.last(), 4);
    let last: &mut u32 = vec.last_mut();
    *last = 40;
    assert_eq!(vec.as_slice(), &[1, 2, 3, 40]);
}

#[test]
fn take_yields_first_and_discards_rest() {
    let vec: NonEmptyVec<u32> = vec![11u32, 22, 33].try_into().unwrap();
    assert_eq!(vec.take(), 11);
}

#[test]
fn pop_scenario_on_two_elements() {
    let mut vec: NonEmptyVec<u32> = vec![1u32, 2].try_into().unwrap();
    assert_eq!(vec.pop(), Some(2));
    assert_eq!(vec.len(), 1);
    assert_eq!(vec.pop(), None);
    assert_eq!(vec.len(), 1);
    assert_eq!(vec.as_slice()[0], 1);
}
