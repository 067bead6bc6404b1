//! Short names for building an at-least sequence from a vector written out
//! at the call site, as in `atl2(vec![x, y])`.

use vstd::prelude::*;
use vstd::std_specs::convert::TryFromSpec;
use crate::at_least_four::AtLeastFour;
use crate::at_least_one::AtLeastOne;
use crate::at_least_three::AtLeastThree;
use crate::at_least_two::AtLeastTwo;
use crate::class::AtLeast;
use crate::error::BoundError;

verus! {

/// `AtLeastOne::try_from(items)`.
pub fn atl1<T>(items: Vec<T>) -> (converted: Result<AtLeastOne<T>, BoundError>)
    ensures
        converted == AtLeastOne::<T>::try_from_spec(items),
        items@.len() >= 1 ==> converted is Ok && converted->Ok_0@ == items@,
        items@.len() < 1 ==> converted == Err::<AtLeastOne<T>, BoundError>(
            BoundError::Validation(AtLeast::One),
        ),
{
    AtLeastOne::try_from(items)
}

/// `AtLeastTwo::try_from(items)`.
pub fn atl2<T>(items: Vec<T>) -> (converted: Result<AtLeastTwo<T>, BoundError>)
    ensures
        converted == AtLeastTwo::<T>::try_from_spec(items),
        items@.len() >= 2 ==> converted is Ok && converted->Ok_0@ == items@,
        items@.len() < 2 ==> converted == Err::<AtLeastTwo<T>, BoundError>(
            BoundError::Validation(AtLeast::Two),
        ),
{
    AtLeastTwo::try_from(items)
}

/// `AtLeastThree::try_from(items)`.
pub fn atl3<T>(items: Vec<T>) -> (converted: Result<AtLeastThree<T>, BoundError>)
    ensures
        converted == AtLeastThree::<T>::try_from_spec(items),
        items@.len() >= 3 ==> converted is Ok && converted->Ok_0@ == items@,
        items@.len() < 3 ==> converted == Err::<AtLeastThree<T>, BoundError>(
            BoundError::Validation(AtLeast::Three),
        ),
{
    AtLeastThree::try_from(items)
}

/// `AtLeastFour::try_from(items)`.
pub fn atl4<T>(items: Vec<T>) -> (converted: Result<AtLeastFour<T>, BoundError>)
    ensures
        converted == AtLeastFour::<T>::try_from_spec(items),
        items@.len() >= 4 ==> converted is Ok && converted->Ok_0@ == items@,
        items@.len() < 4 ==> converted == Err::<AtLeastFour<T>, BoundError>(
            BoundError::Validation(AtLeast::Four),
        ),
{
    AtLeastFour::try_from(items)
}

} // verus!
