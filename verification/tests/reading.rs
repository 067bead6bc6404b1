use at_collection::{
    AtCollection, AtLeast, AtLeastFour, AtLeastOne, AtLeastThree, AtLeastTwo, BoundError,
};
use std::collections::HashSet;

#[test]
fn iter_twice_yields_the_same_references() {
    let made = AtLeastThree::new_and(3, 1, 2, vec![5, 4]);
    let first: Vec<&i32> = made.iter().collect();
    let second: Vec<&i32> = made.iter().collect();
    assert_eq!(first, vec![&3, &1, &2, &5, &4]);
    assert_eq!(first, second);
}

#[test]
fn as_slice_leaves_the_sequence_as_it_is() {
    let made = AtLeastTwo::new_and(1, 2, vec![3]);
    let before = made.clone();
    assert_eq!(made.as_slice(), &[1, 2, 3]);
    assert_eq!(made.as_slice(), &[1, 2, 3]);
    assert_eq!(made, before);
}

#[test]
fn into_iter_yields_each_element_once_in_order() {
    let made = AtLeastFour::new_and(4, 4, 1, 9, vec![4, 2]);
    let mut items = made.into_iter();
    assert_eq!(items.next(), Some(4));
    assert_eq!(items.next(), Some(4));
    assert_eq!(items.next(), Some(1));
    assert_eq!(items.next(), Some(9));
    assert_eq!(items.next(), Some(4));
    assert_eq!(items.next(), Some(2));
    assert_eq!(items.next(), None);
    assert_eq!(items.next(), None);
}

#[test]
fn into_iter_moves_the_elements_out() {
    let made = AtLeastTwo::new(String::from("left"), String::from("right"));
    let owned: Vec<String> = made.into_iter().collect();
    assert_eq!(owned, vec![String::from("left"), String::from("right")]);
}

#[test]
fn as_vec_gives_the_elements_in_order() {
    assert_eq!(AtLeastThree::new(7, 8, 9).as_vec(), vec![7, 8, 9]);
}

#[test]
fn one_of_a_single_element() {
    assert_eq!(AtLeastOne::new(1).one(), Ok(&1));
    assert_eq!(AtLeastOne::try_from(vec![1]).unwrap().one(), Ok(&1));
}

#[test]
fn one_of_several_elements_is_refused() {
    assert_eq!(
        AtLeastOne::try_from(vec![1, 2]).unwrap().one(),
        Err(BoundError::Narrowing)
    );
    assert_eq!(
        AtLeastOne::new_and(1, vec![2, 3]).one(),
        Err(BoundError::Narrowing)
    );
}

#[test]
fn to_one_gives_the_single_element() {
    let made = AtLeastOne::new(String::from("only"));
    assert_eq!(made.to_one(), "only");
    assert_eq!(made.to_one(), made.one().unwrap());
}

#[test]
fn slice_methods_read_the_sequence() {
    let made = AtLeastThree::new_and(5, 6, 7, vec![8]);
    assert_eq!(made.len(), 4);
    assert_eq!(made.first(), Some(&5));
    assert_eq!(made.last(), Some(&8));
    assert_eq!(made[2], 7);
    assert!(made.contains(&6));
    assert!(!made.is_empty());
}

#[test]
fn clone_holds_equal_elements() {
    let made = AtLeastTwo::new_and(String::from("a"), String::from("b"), vec![String::from("c")]);
    let copy = made.clone();
    assert_eq!(copy.as_slice(), made.as_slice());
    assert_eq!(copy, made);
}

#[test]
fn sequences_compare_by_their_elements() {
    assert!(AtLeastTwo::new(1, 2) < AtLeastTwo::new(1, 3));
    assert!(AtLeastTwo::new(1, 2) < AtLeastTwo::new_and(1, 2, vec![0]));
    assert_ne!(AtLeastOne::new(1), AtLeastOne::new(2));
    let mut seen = HashSet::new();
    assert!(seen.insert(AtLeastOne::new(1)));
    assert!(!seen.insert(AtLeastOne::new_and(1, vec![])));
    assert_eq!(format!("{:?}", AtLeastOne::new(1)), "AtLeastOne { raw: [1] }");
}

#[test]
fn class_minimum() {
    assert_eq!(AtLeast::One.minimum(), 1);
    assert_eq!(AtLeast::Two.minimum(), 2);
    assert_eq!(AtLeast::Three.minimum(), 3);
    assert_eq!(AtLeast::Four.minimum(), 4);
}

#[test]
fn class_check_at_the_boundary() {
    assert_eq!(AtLeast::Three.check(3), Ok(()));
    assert_eq!(AtLeast::Three.check(4), Ok(()));
    assert_eq!(AtLeast::Three.check(usize::MAX), Ok(()));
    assert_eq!(AtLeast::Three.check(2), Err(BoundError::Validation(AtLeast::Three)));
    assert_eq!(AtLeast::Three.check(0), Err(BoundError::Validation(AtLeast::Three)));
    assert_eq!(AtLeast::One.check(0), Err(BoundError::Validation(AtLeast::One)));
    assert_eq!(AtLeast::One.check(1), Ok(()));
}

#[test]
fn messages_name_the_class_and_its_minimum() {
    assert_eq!(
        BoundError::Validation(AtLeast::One).message(),
        "AtLeastOne requires at least 1 values"
    );
    assert_eq!(
        BoundError::Validation(AtLeast::Two).message(),
        "AtLeastTwo requires at least 2 values"
    );
    assert_eq!(
        BoundError::Validation(AtLeast::Three).message(),
        "AtLeastThree requires at least 3 values"
    );
    assert_eq!(
        BoundError::Validation(AtLeast::Four).message(),
        "AtLeastFour requires at least 4 values"
    );
}

#[test]
fn message_of_a_refused_narrowing() {
    assert_eq!(
        BoundError::Narrowing.message(),
        "AtLeastOne has more than one element"
    );
    let refused = AtLeastOne::new_and(1, vec![2]).one().unwrap_err();
    assert_eq!(refused.message(), "AtLeastOne has more than one element");
}
