//! A sequence of at least two elements.

use vstd::prelude::*;
use vstd::std_specs::convert::TryFromSpec;
use std::ops::Deref;
use crate::class::AtLeast;
use crate::collection::AtCollection;
use crate::error::BoundError;

verus! {

/// A sequence that holds at least two elements, in the order given.
///
/// A value is built once and read afterwards: nothing adds or removes an
/// element, so the length never falls below two.
#[derive(Debug, Hash, Eq, Ord, PartialEq, PartialOrd)]
pub struct AtLeastTwo<T> {
    raw: Vec<T>,
}

impl<T> View for AtLeastTwo<T> {
    type V = Seq<T>;

    /// The elements, first to last.
    closed spec fn view(&self) -> Seq<T> {
        self.raw@
    }
}

impl<T> AtLeastTwo<T> {
    /// Every value holds as many elements as its class requires.
    #[verifier::type_invariant]
    spec fn long_enough(self) -> bool {
        AtLeast::Two.admits(self.raw@.len())
    }

    /// The elements of `new(a, b)`.
    pub open spec fn spec_new(a: T, b: T) -> Seq<T> {
        seq![a, b]
    }

    /// The elements of `new_and(a, b, extra)`.
    pub open spec fn spec_new_and(a: T, b: T, extra: Seq<T>) -> Seq<T> {
        seq![a, b] + extra
    }

    /// The sequence of the two elements given.
    pub fn new(a: T, b: T) -> (made: Self)
        ensures
            made@ == Self::spec_new(a, b),
    {
        AtLeastTwo::new_and(a, b, Vec::new())
    }

    /// The sequence of the two elements given, followed by those of `extra` in
    /// their order.
    pub fn new_and(a: T, b: T, extra: Vec<T>) -> (made: Self)
        ensures
            made@ == Self::spec_new_and(a, b, extra@),
    {
        let mut extra = extra;
        let mut raw = vec![a, b];
        raw.append(&mut extra);
        AtLeastTwo { raw }
    }

    /// `new_and` holds first what `new` holds, and after it the extra
    /// elements, each in its place.
    pub proof fn law_new_and_is_new_then_extra(a: T, b: T, extra: Seq<T>)
        ensures
            Self::spec_new_and(a, b, extra).len() == 2 + extra.len(),
            Self::spec_new_and(a, b, extra).take(2) == Self::spec_new(a, b),
            Self::spec_new_and(a, b, extra).skip(2) == extra,
    {
    }

    /// With nothing extra, `new_and` holds exactly what `new` holds.
    pub proof fn law_new_and_nothing_is_new(a: T, b: T)
        ensures
            Self::spec_new_and(a, b, Seq::empty()) == Self::spec_new(a, b),
    {
    }

    /// A vector of two elements or more is accepted, and the sequence then
    /// holds the vector's elements unchanged.
    pub proof fn law_try_from_accepts(value: Vec<T>)
        requires
            value@.len() >= 2,
        ensures
            Self::try_from_spec(value) is Ok,
            Self::try_from_spec(value)->Ok_0.elements() == value@,
    {
    }

    /// A vector of fewer than two elements is refused, and the error names this
    /// class.
    pub proof fn law_try_from_rejects(value: Vec<T>)
        requires
            value@.len() < 2,
        ensures
            Self::try_from_spec(value) == Err::<Self, BoundError>(
                BoundError::Validation(AtLeast::Two),
            ),
    {
    }
}

impl<T> AtCollection<T> for AtLeastTwo<T> {
    /// The elements are the sequence's view.
    open spec fn elements(&self) -> Seq<T> {
        self@
    }

    fn as_slice(&self) -> (slice: &[T])
        ensures
            slice@.len() >= 2,
    {
        proof {
            use_type_invariant(self);
        }
        self.raw.as_slice()
    }

    fn as_vec(self) -> (vec: Vec<T>)
        ensures
            vec@.len() >= 2,
    {
        proof {
            use_type_invariant(&self);
        }
        self.raw
    }
}

impl<T> Deref for AtLeastTwo<T> {
    type Target = [T];

    /// The elements as a slice, so that the methods of slices read the
    /// sequence.
    fn deref(&self) -> (slice: &[T])
        ensures
            slice@ == self@,
            slice@.len() >= 2,
    {
        self.as_slice()
    }
}

impl<T: Clone> Clone for AtLeastTwo<T> {
    /// A sequence of the same length whose elements are clones of this one's,
    /// place by place.
    fn clone(&self) -> (copy: Self)
        ensures
            copy@.len() == self@.len(),
            forall|i: int| 0 <= i < self@.len() ==> cloned::<T>(#[trigger] self@[i], copy@[i]),
    {
        proof {
            use_type_invariant(self);
        }
        AtLeastTwo { raw: self.raw.clone() }
    }
}

impl<T> TryFrom<Vec<T>> for AtLeastTwo<T> {
    type Error = BoundError;

    /// Takes the vector as it is where it holds two elements or more, and
    /// refuses it otherwise.
    fn try_from(value: Vec<T>) -> (converted: Result<Self, BoundError>)
        ensures
            value@.len() >= 2 ==> converted is Ok && converted->Ok_0@ == value@,
            value@.len() < 2 ==> converted == Err::<Self, BoundError>(
                BoundError::Validation(AtLeast::Two),
            ),
    {
        match AtLeast::Two.check(value.len()) {
            Ok(()) => Ok(AtLeastTwo { raw: value }),
            Err(refusal) => Err(refusal),
        }
    }
}

impl<T> vstd::std_specs::convert::TryFromSpecImpl<Vec<T>> for AtLeastTwo<T> {
    /// `try_from` returns what `try_from_spec` says.
    open spec fn obeys_try_from_spec() -> bool {
        true
    }

    /// The sequence that holds the vector, where the class admits the
    /// vector's length, and the class's refusal where it does not.
    closed spec fn try_from_spec(value: Vec<T>) -> Result<Self, BoundError> {
        match AtLeast::Two.spec_check(value@.len()) {
            Ok(()) => Ok(AtLeastTwo { raw: value }),
            Err(refusal) => Err(refusal),
        }
    }
}

} // verus!
