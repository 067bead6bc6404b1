//! The size classes of the at-least family, as data.
//!
//! Each at-least wrapper type stands for one class. The class knows the least
//! length it admits and judges a length against it; the wrappers' fallible
//! conversions all go through that one judgement.

use vstd::prelude::*;
use crate::error::BoundError;

verus! {

/// One of the four at-least size classes.
#[derive(Clone, Copy, Debug, PartialEq, Eq, Structural)]
pub enum AtLeast {
    One,
    Two,
    Three,
    Four,
}

impl AtLeast {
    /// The least number of elements that a sequence of this class holds.
    pub open spec fn spec_minimum(self) -> nat {
        match self {
            AtLeast::One => 1,
            AtLeast::Two => 2,
            AtLeast::Three => 3,
            AtLeast::Four => 4,
        }
    }

    /// Whether a sequence of `len` elements belongs to this class.
    pub open spec fn admits(self, len: nat) -> bool {
        len >= self.spec_minimum()
    }

    /// What `check` answers for a sequence of `len` elements.
    pub open spec fn spec_check(self, len: nat) -> Result<(), BoundError> {
        if self.admits(len) {
            Ok(())
        } else {
            Err(BoundError::Validation(self))
        }
    }

    /// The least number of elements that a sequence of this class holds.
    pub fn minimum(self) -> (least: usize)
        ensures
            least == self.spec_minimum(),
    {
        match self {
            AtLeast::One => 1,
            AtLeast::Two => 2,
            AtLeast::Three => 3,
            AtLeast::Four => 4,
        }
    }

    /// Judges a length against this class: `Ok` for a length the class
    /// admits, and otherwise the validation error that names the class.
    pub fn check(self, len: usize) -> (verdict: Result<(), BoundError>)
        ensures
            verdict == self.spec_check(len as nat),
    {
        if len < self.minimum() {
            Err(BoundError::Validation(self))
        } else {
            Ok(())
        }
    }
}

} // verus!
