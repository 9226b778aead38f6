use algebra::{Monoid, Semigroup};
use std::collections::HashSet;

#[test]
fn test_monoid_default() {
    assert_eq!(0, u32::empty());
    assert_eq!(Vec::<u32>::new(), Vec::<_>::empty());
    assert_eq!(String::new(), String::empty());
    assert_eq!(None, Option::<u32>::empty());
}

#[test]
fn empty_is_identity() {
    assert_eq!(Vec::<u32>::empty(), Vec::<u32>::new());
    assert_eq!(Vec::<u32>::empty().combine(vec![1, 2]), vec![1, 2]);
    assert_eq!(vec![1_u32, 2].combine(Vec::empty()), vec![1, 2]);
    assert_eq!(String::empty().combine("ab".to_string()), "ab");
    assert_eq!(Option::<i8>::empty().combine(Some(3)), Some(3));
    assert_eq!(Some(3_i8).combine(Option::empty()), Some(3));
    assert_eq!(i64::empty().combine(-9), -9);
    let set: HashSet<u8> = [1, 2].into_iter().collect();
    assert_eq!(HashSet::<u8>::empty().combine(set.clone()), set);
    assert_eq!(<()>::empty().combine(()), ());
}
