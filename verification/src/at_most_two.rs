//! A sequence of at most two elements.

use vstd::prelude::*;
use crate::collection::AtCollection;

verus! {

/// A sequence that holds at most two elements.
///
/// The only way to build one takes a single element, and nothing adds
/// another: every value holds exactly one element, which is within the bound.
pub struct AtMostTwo<T> {
    raw: Vec<T>,
}

impl<T> View for AtMostTwo<T> {
    type V = Seq<T>;

    /// The elements, first to last.
    closed spec fn view(&self) -> Seq<T> {
        self.raw@
    }
}

impl<T> AtMostTwo<T> {
    /// Every value holds one element.
    #[verifier::type_invariant]
    spec fn single(self) -> bool {
        self.raw@.len() == 1
    }

    /// The sequence of the one element given.
    pub fn new(a: T) -> (made: Self)
        ensures
            made@ == seq![a],
    {
        let raw = vec![a];
        AtMostTwo { raw }
    }
}

impl<T> AtCollection<T> for AtMostTwo<T> {
    /// The elements are the sequence's view.
    open spec fn elements(&self) -> Seq<T> {
        self@
    }

    fn as_slice(&self) -> (slice: &[T])
        ensures
            slice@.len() == 1,
    {
        proof {
            use_type_invariant(self);
        }
        self.raw.as_slice()
    }

    fn as_vec(self) -> (vec: Vec<T>)
        ensures
            vec@.len() == 1,
    {
        proof {
            use_type_invariant(&self);
        }
        self.raw
    }
}

} // verus!
