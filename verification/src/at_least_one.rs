//! A sequence of at least one element.

use vstd::prelude::*;
use vstd::std_specs::convert::TryFromSpec;
use std::ops::Deref;
use crate::class::AtLeast;
use crate::collection::AtCollection;
use crate::error::BoundError;

verus! {

/// A sequence that holds at least one element, in the order given.
///
/// A value is built once and read afterwards: nothing adds or removes an
/// element, so the length never falls below one.
#[derive(Debug, Hash, Eq, Ord, PartialEq, PartialOrd)]
pub struct AtLeastOne<T> {
    raw: Vec<T>,
}

impl<T> View for AtLeastOne<T> {
    type V = Seq<T>;

    /// The elements, first to last.
    closed spec fn view(&self) -> Seq<T> {
        self.raw@
    }
}

impl<T> AtLeastOne<T> {
    /// Every value holds as many elements as its class requires.
    #[verifier::type_invariant]
    spec fn long_enough(self) -> bool {
        AtLeast::One.admits(self.raw@.len())
    }

    /// The elements of `new(a)`.
    pub open spec fn spec_new(a: T) -> Seq<T> {
        seq![a]
    }

    /// The elements of `new_and(a, extra)`.
    pub open spec fn spec_new_and(a: T, extra: Seq<T>) -> Seq<T> {
        seq![a] + extra
    }

    /// The sequence of the one element given.
    pub fn new(a: T) -> (made: Self)
        ensures
            made@ == Self::spec_new(a),
    {
        AtLeastOne::new_and(a, Vec::new())
    }

    /// The sequence of the one element given, followed by those of `extra` in
    /// their order.
    pub fn new_and(a: T, extra: Vec<T>) -> (made: Self)
        ensures
            made@ == Self::spec_new_and(a, extra@),
    {
        let mut extra = extra;
        let mut raw = vec![a];
        raw.append(&mut extra);
        AtLeastOne { raw }
    }

    /// The only element, where the sequence holds exactly one. A sequence of
    /// two or more is refused: it has no only element.
    pub fn one(&self) -> (only: Result<&T, BoundError>)
        ensures
            self@.len() >= 1,
            self@.len() == 1 ==> only == Ok::<&T, BoundError>(&self@[0]),
            self@.len() > 1 ==> only == Err::<&T, BoundError>(BoundError::Narrowing),
    {
        proof {
            use_type_invariant(self);
        }
        if self.raw.len() == 1 {
            Ok(&self.raw[0])
        } else {
            Err(BoundError::Narrowing)
        }
    }

    /// The only element of a sequence that holds exactly one.
    ///
    /// This is `one` for callers that know the sequence to be single. Called
    /// from unverified code on a longer sequence, it panics.
    pub fn to_one(&self) -> (only: &T)
        requires
            self@.len() == 1,
        ensures
            *only == self@[0],
    {
        match self.one() {
            Ok(only) => only,
            Err(_) => unreached(),
        }
    }

    /// `new_and` holds first what `new` holds, and after it the extra
    /// elements, each in its place.
    pub proof fn law_new_and_is_new_then_extra(a: T, extra: Seq<T>)
        ensures
            Self::spec_new_and(a, extra).len() == 1 + extra.len(),
            Self::spec_new_and(a, extra).take(1) == Self::spec_new(a),
            Self::spec_new_and(a, extra).skip(1) == extra,
    {
    }

    /// With nothing extra, `new_and` holds exactly what `new` holds.
    pub proof fn law_new_and_nothing_is_new(a: T)
        ensures
            Self::spec_new_and(a, Seq::empty()) == Self::spec_new(a),
    {
    }

    /// A vector of one element or more is accepted, and the sequence then
    /// holds the vector's elements unchanged.
    pub proof fn law_try_from_accepts(value: Vec<T>)
        requires
            value@.len() >= 1,
        ensures
            Self::try_from_spec(value) is Ok,
            Self::try_from_spec(value)->Ok_0.elements() == value@,
    {
    }

    /// The empty vector is refused, and the error names this
    /// class.
    pub proof fn law_try_from_rejects(value: Vec<T>)
        requires
            value@.len() < 1,
        ensures
            Self::try_from_spec(value) == Err::<Self, BoundError>(
                BoundError::Validation(AtLeast::One),
            ),
    {
    }
}

impl<T> AtCollection<T> for AtLeastOne<T> {
    /// The elements are the sequence's view.
    open spec fn elements(&self) -> Seq<T> {
        self@
    }

    fn as_slice(&self) -> (slice: &[T])
        ensures
            slice@.len() >= 1,
    {
        proof {
            use_type_invariant(self);
        }
        self.raw.as_slice()
    }

    fn as_vec(self) -> (vec: Vec<T>)
        ensures
            vec@.len() >= 1,
    {
        proof {
            use_type_invariant(&self);
        }
        self.raw
    }
}

impl<T> Deref for AtLeastOne<T> {
    type Target = [T];

    /// The elements as a slice, so that the methods of slices read the
    /// sequence.
    fn deref(&self) -> (slice: &[T])
        ensures
            slice@ == self@,
            slice@.len() >= 1,
    {
        self.as_slice()
    }
}

impl<T: Clone> Clone for AtLeastOne<T> {
    /// A sequence of the same length whose elements are clones of this one's,
    /// place by place.
    fn clone(&self) -> (copy: Self)
        ensures
            copy@.len() == self@.len(),
            forall|i: int| 0 <= i < self@.len() ==> cloned::<T>(#[trigger] self@[i], copy@[i]),
    {
        proof {
            use_type_invariant(self);
        }
        AtLeastOne { raw: self.raw.clone() }
    }
}

impl<T> TryFrom<Vec<T>> for AtLeastOne<T> {
    type Error = BoundError;

    /// Takes the vector as it is where it holds one element or more, and
    /// refuses it otherwise.
    fn try_from(value: Vec<T>) -> (converted: Result<Self, BoundError>)
        ensures
            value@.len() >= 1 ==> converted is Ok && converted->Ok_0@ == value@,
            value@.len() < 1 ==> converted == Err::<Self, BoundError>(
                BoundError::Validation(AtLeast::One),
            ),
    {
        match AtLeast::One.check(value.len()) {
            Ok(()) => Ok(AtLeastOne { raw: value }),
            Err(refusal) => Err(refusal),
        }
    }
}

impl<T> vstd::std_specs::convert::TryFromSpecImpl<Vec<T>> for AtLeastOne<T> {
    /// `try_from` returns what `try_from_spec` says.
    open spec fn obeys_try_from_spec() -> bool {
        true
    }

    /// The sequence that holds the vector, where the class admits the
    /// vector's length, and the class's refusal where it does not.
    closed spec fn try_from_spec(value: Vec<T>) -> Result<Self, BoundError> {
        match AtLeast::One.spec_check(value@.len()) {
            Ok(()) => Ok(AtLeastOne { raw: value }),
            Err(refusal) => Err(refusal),
        }
    }
}

} // verus!
