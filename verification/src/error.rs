//! The two ways in which an operation of this library fails.

use vstd::prelude::*;
use crate::class::AtLeast;

verus! {

/// Why a conversion or a narrowing was refused.
#[derive(Clone, Copy, Debug, PartialEq, Eq, Structural)]
pub enum BoundError {
    /// A sequence was offered to an at-least class and holds fewer elements
    /// than the class requires. The class is the one that refused it.
    Validation(AtLeast),
    /// The only element was asked of a sequence that holds more than one.
    Narrowing,
}

impl BoundError {
    /// The text of `message`.
    pub open spec fn spec_message(self) -> Seq<char> {
        match self {
            BoundError::Validation(AtLeast::One) => "AtLeastOne requires at least 1 values"@,
            BoundError::Validation(AtLeast::Two) => "AtLeastTwo requires at least 2 values"@,
            BoundError::Validation(AtLeast::Three) => "AtLeastThree requires at least 3 values"@,
            BoundError::Validation(AtLeast::Four) => "AtLeastFour requires at least 4 values"@,
            BoundError::Narrowing => "AtLeastOne has more than one element"@,
        }
    }

    /// A sentence for the reader of a log: a validation error names the class
    /// that refused the sequence and the number of elements it requires.
    pub fn message(&self) -> (text: String)
        ensures
            text@ == self.spec_message(),
    {
        match self {
            BoundError::Validation(AtLeast::One) => "AtLeastOne requires at least 1 values".to_owned(),
            BoundError::Validation(AtLeast::Two) => "AtLeastTwo requires at least 2 values".to_owned(),
            BoundError::Validation(AtLeast::Three) => "AtLeastThree requires at least 3 values".to_owned(),
            BoundError::Validation(AtLeast::Four) => "AtLeastFour requires at least 4 values".to_owned(),
            BoundError::Narrowing => "AtLeastOne has more than one element".to_owned(),
        }
    }
}

} // verus!
