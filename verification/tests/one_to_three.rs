use std::convert::TryInto;
use std::hash::Hash;
use std::hash::Hasher;

use bounded_types::EmptySourceError;
use bounded_types::OneToThree;

#[test]
fn test_sort() {
    assert_eq!(OneToThree::one(1).sorted(), OneToThree::one(1));

    assert_eq!(OneToThree::two(5, 2).sorted(), OneToThree::two(2, 5));
    assert_eq!(OneToThree::two(1, 2).sorted(), OneToThree::two(1, 2));

    assert_eq!(
        OneToThree::three(1, 2, 1).sorted(),
        OneToThree::three(1, 1, 2)
    );
    assert_eq!(
        OneToThree::three(3, 2, 1).sorted(),
        OneToThree::three(1, 2, 3)
    );
    assert_eq!(
        OneToThree::three(3, 2, 4).sorted(),
        OneToThree::three(2, 3, 4)
    );
    assert_eq!(
        OneToThree::three(1, 2, 3).sorted(),
        OneToThree::three(1, 2, 3)
    );
    assert_eq!(
        OneToThree::three(1, 3, 2).sorted(),
        OneToThree::three(1, 2, 3)
    );
    assert_eq!(
        OneToThree::three(2, 1, 3).sorted(),
        OneToThree::three(1, 2, 3)
    );
    assert_eq!(
        OneToThree::three(3, 1, 2).sorted(),
        OneToThree::three(1, 2, 3)
    );
}

#[test]
fn test_map() {
    assert_eq!(
        OneToThree::three(1, 2, 3).map(|x| x.to_string()),
        OneToThree::three("1".to_string(), "2".to_string(), "3".to_string()),
    );
}

#[test]
fn test_try_map() {
    assert_eq!(
        OneToThree::three("1", "-2", "3")
            .try_map(|x| x.parse())
            .unwrap(),
        OneToThree::three(1, -2, 3),
    );
    assert!(OneToThree::three("1", "-2", "3")
        .try_map::<usize, _, _>(|x| x.parse())
        .is_err());
}

#[test]
fn map_keeps_arity_of_each_shape() {
    assert_eq!(OneToThree::one(2).map(|x| x * 10), OneToThree::one(20));
    assert_eq!(
        OneToThree::two(2, 3).map(|x| x * 10),
        OneToThree::two(20, 30)
    );
}

#[test]
fn try_map_keeps_error_of_first_failure() {
    let r = OneToThree::three(1i32, -2, -3).try_map(|x| if x < 0 { Err(x) } else { Ok(x) });
    assert_eq!(r, Err(-2));
}

#[test]
fn three_element_vec_converts_in_order() {
    let v = vec![1u32, 2, 3];
    let t: OneToThree<u32> = v.try_into().unwrap();
    assert_eq!(t, OneToThree::three(1, 2, 3));
}

#[test]
fn one_and_two_element_vecs_convert_in_order() {
    let one: OneToThree<u32> = vec![5u32].try_into().unwrap();
    assert_eq!(one, OneToThree::one(5));
    let two: OneToThree<u32> = vec![5u32, 6].try_into().unwrap();
    assert_eq!(two, OneToThree::two(5, 6));
}

#[test]
fn empty_vec_conversion_fails() {
    let empty: Vec<u32> = Vec::new();
    let res: Result<OneToThree<u32>, EmptySourceError> = empty.try_into();
    assert_eq!(res, Err(EmptySourceError));
}

#[test]
fn long_vec_conversion_keeps_last_three() {
    let t: OneToThree<u32> = vec![1u32, 2, 3, 4, 5].try_into().unwrap();
    assert_eq!(t, OneToThree::three(3, 4, 5));
}

#[test]
fn tuples_and_single_values_convert() {
    assert_eq!(OneToThree::from(7u32), OneToThree::one(7));
    assert_eq!(OneToThree::from((7u32, 8)), OneToThree::two(7, 8));
    assert_eq!(OneToThree::from((7u32, 8, 9)), OneToThree::three(7, 8, 9));
}

#[test]
fn get_reads_only_populated_slots() {
    let t = OneToThree::two(10u32, 20);
    assert_eq!(t.get(0), Some(&10));
    assert_eq!(t.get(1), Some(&20));
    assert_eq!(t.get(2), None);
    assert_eq!(t.len(), 2);
    assert_eq!(*t.first(), 10);
}

#[test]
fn get_mut_writes_only_populated_slots() {
    let mut t = OneToThree::three(1u32, 2, 3);
    *t.get_mut(1).unwrap() = 20;
    assert!(t.get_mut(3).is_none());
    assert_eq!(t, OneToThree::three(1, 20, 3));
    *t.first_mut() = 100;
    assert_eq!(t, OneToThree::three(100, 20, 3));
}

#[test]
fn iteration_visits_slots_in_order_and_restarts() {
    let t = OneToThree::three(1u32, 2, 3);
    let mut it = t.iter();
    assert_eq!(it.next(), Some(&1));
    assert_eq!(it.next(), Some(&2));
    assert_eq!(it.next(), Some(&3));
    assert_eq!(it.next(), None);
    assert_eq!(it.next(), None);
    let mut again = t.iter();
    assert_eq!(again.next(), Some(&1));
}

#[test]
fn to_vec_lists_slots_in_order() {
    assert_eq!(OneToThree::three(1u32, 2, 3).to_vec(), vec![1, 2, 3]);
    assert_eq!(OneToThree::one(9u32).to_vec(), vec![9]);
    let t = OneToThree::two(4u32, 5);
    assert_eq!(t.to_ref_vec(), vec![&4, &5]);
}

#[test]
fn equality_is_pairwise_and_arity_aware() {
    assert_eq!(OneToThree::two(1u32, 2), OneToThree::two(1, 2));
    assert_ne!(OneToThree::two(1u32, 2), OneToThree::two(2, 1));
    assert_ne!(OneToThree::one(1u32), OneToThree::two(1, 1));
    assert_ne!(OneToThree::two(1u32, 1), OneToThree::three(1, 1, 1));
}

#[test]
fn equal_collections_hash_identically() {
    let a = OneToThree::three(1u64, 2, 3);
    let b = OneToThree::three(1u64, 2, 3);
    let mut ha = std::collections::hash_map::DefaultHasher::new();
    let mut hb = std::collections::hash_map::DefaultHasher::new();
    a.hash(&mut ha);
    b.hash(&mut hb);
    assert_eq!(ha.finish(), hb.finish());
}
