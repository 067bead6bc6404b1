use at_collection::{
    atl1, atl2, atl3, atl4, AtCollection, AtLeast, AtLeastFour, AtLeastOne, AtLeastThree,
    AtLeastTwo, BoundError,
};

#[test]
fn one_accepts_one_and_more() {
    let exact = AtLeastOne::try_from(vec![7]).unwrap();
    assert_eq!(exact.as_slice(), &[7]);
    let longer = AtLeastOne::try_from(vec![7, 8, 9]).unwrap();
    assert_eq!(longer.as_slice(), &[7, 8, 9]);
}

#[test]
fn two_accepts_two_and_more() {
    let exact = AtLeastTwo::try_from(vec![7, 8]).unwrap();
    assert_eq!(exact.as_slice(), &[7, 8]);
    let longer = AtLeastTwo::try_from(vec![7, 8, 9, 10]).unwrap();
    assert_eq!(longer.as_slice(), &[7, 8, 9, 10]);
}

#[test]
fn three_accepts_three_and_more() {
    let exact = AtLeastThree::try_from(vec![3, 1, 2]).unwrap();
    assert_eq!(exact.as_slice(), &[3, 1, 2]);
    let longer = AtLeastThree::try_from(vec![3, 1, 2, 3, 1]).unwrap();
    assert_eq!(longer.as_slice(), &[3, 1, 2, 3, 1]);
}

#[test]
fn four_accepts_four_and_more() {
    let exact = AtLeastFour::try_from(vec!["a", "b", "c", "d"]).unwrap();
    assert_eq!(exact.as_slice(), &["a", "b", "c", "d"]);
    let longer = AtLeastFour::try_from(vec!["a", "b", "c", "d", "e"]).unwrap();
    assert_eq!(longer.as_slice(), &["a", "b", "c", "d", "e"]);
}

#[test]
fn one_rejects_the_empty_vector() {
    let refused = AtLeastOne::<u8>::try_from(Vec::new());
    assert_eq!(refused, Err(BoundError::Validation(AtLeast::One)));
}

#[test]
fn two_rejects_shorter_vectors() {
    assert_eq!(
        AtLeastTwo::<u8>::try_from(vec![]),
        Err(BoundError::Validation(AtLeast::Two))
    );
    assert_eq!(
        AtLeastTwo::try_from(vec![1]),
        Err(BoundError::Validation(AtLeast::Two))
    );
}

#[test]
fn three_rejects_shorter_vectors() {
    assert_eq!(
        AtLeastThree::<u8>::try_from(vec![]),
        Err(BoundError::Validation(AtLeast::Three))
    );
    assert_eq!(
        AtLeastThree::try_from(vec![1, 2]),
        Err(BoundError::Validation(AtLeast::Three))
    );
}

#[test]
fn four_rejects_shorter_vectors() {
    assert_eq!(
        AtLeastFour::<u8>::try_from(vec![]),
        Err(BoundError::Validation(AtLeast::Four))
    );
    assert_eq!(
        AtLeastFour::try_from(vec![1, 2, 3]),
        Err(BoundError::Validation(AtLeast::Four))
    );
}

#[test]
fn three_from_three_has_length_three() {
    let made = AtLeastThree::try_from(vec![1, 2, 3]);
    assert!(made.is_ok());
    assert_eq!(made.unwrap().len(), 3);
    assert!(AtLeastThree::try_from(vec![1, 2]).is_err());
}

#[test]
fn conversion_keeps_the_order_given() {
    let made = AtLeastTwo::try_from(vec![9, 1, 5, 1]).unwrap();
    assert_eq!(made.as_vec(), vec![9, 1, 5, 1]);
}

#[test]
fn try_into_converts_as_try_from_does() {
    let made: Result<AtLeastTwo<i32>, BoundError> = vec![4, 5].try_into();
    assert_eq!(made.unwrap().as_slice(), &[4, 5]);
    let refused: Result<AtLeastTwo<i32>, BoundError> = vec![4].try_into();
    assert_eq!(refused, Err(BoundError::Validation(AtLeast::Two)));
}

#[test]
fn short_names_convert_as_try_from_does() {
    assert_eq!(atl1(vec![1]), AtLeastOne::try_from(vec![1]));
    assert_eq!(atl2(vec![1, 2]), AtLeastTwo::try_from(vec![1, 2]));
    assert_eq!(atl3(vec![1, 2, 3]), AtLeastThree::try_from(vec![1, 2, 3]));
    assert_eq!(atl4(vec![1, 2, 3, 4]), AtLeastFour::try_from(vec![1, 2, 3, 4]));
    assert_eq!(atl3(vec![1, 2, 3, 4]).unwrap().as_slice(), &[1, 2, 3, 4]);
    assert_eq!(atl4(vec![1, 2, 3, 4, 5]).unwrap().as_slice(), &[1, 2, 3, 4, 5]);
}

#[test]
fn short_names_refuse_short_vectors() {
    assert_eq!(atl1::<u8>(vec![]), Err(BoundError::Validation(AtLeast::One)));
    assert_eq!(atl2(vec![1]), Err(BoundError::Validation(AtLeast::Two)));
    assert_eq!(atl3(vec![1, 2]), Err(BoundError::Validation(AtLeast::Three)));
    assert_eq!(atl4(vec![1, 2, 3]), Err(BoundError::Validation(AtLeast::Four)));
}
