//! A sequence of at least three elements.

use vstd::prelude::*;
use vstd::std_specs::convert::TryFromSpec;
use std::ops::Deref;
use crate::class::AtLeast;
use crate::collection::AtCollection;
use crate::error::BoundError;

verus! {

/// A sequence that holds at least three elements, in the order given.
///
/// A value is built once and read afterwards: nothing adds or removes an
/// element, so the length never falls below three.
#[derive(Debug, Hash, Eq, Ord, PartialEq, PartialOrd)]
pub struct AtLeastThree<T> {
    raw: Vec<T>,
}

impl<T> View for AtLeastThree<T> {
    type V = Seq<T>;

    /// The elements, first to last.
    closed spec fn view(&self) -> Seq<T> {
        self.raw@
    }
}

impl<T> AtLeastThree<T> {
    /// Every value holds as many elements as its class requires.
    #[verifier::type_invariant]
    spec fn long_enough(self) -> bool {
        AtLeast::Three.admits(self.raw@.len())
    }

    /// The elements of `new(a, b, c)`.
    pub open spec fn spec_new(a: T, b: T, c: T) -> Seq<T> {
        seq![a, b, c]
    }

    /// The elements of `new_and(a, b, c, extra)`.
    pub open spec fn spec_new_and(a: T, b: T, c: T, extra: Seq<T>) -> Seq<T> {
        seq![a, b, c] + extra
    }

    /// The sequence of the three elements given.
    pub fn new(a: T, b: T, c: T) -> (made: Self)
        ensures
            made@ == Self::spec_new(a, b, c),
    {
        AtLeastThree::new_and(a, b, c, Vec::new())
    }

    /// The sequence of the three elements given, followed by those of `extra` in
    /// their order.
    pub fn new_and(a: T, b: T, c: T, extra: Vec<T>) -> (made: Self)
        ensures
            made@ == Self::spec_new_and(a, b, c, extra@),
    {
        let mut extra = extra;
        let mut raw = vec![a, b, c];
        raw.append(&mut extra);
        AtLeastThree { raw }
    }

    /// `new_and` holds first what `new` holds, and after it the extra
    /// elements, each in its place.
    pub proof fn law_new_and_is_new_then_extra(a: T, b: T, c: T, extra: Seq<T>)
        ensures
            Self::spec_new_and(a, b, c, extra).len() == 3 + extra.len(),
            Self::spec_new_and(a, b, c, extra).take(3) == Self::spec_new(a, b, c),
            Self::spec_new_and(a, b, c, extra).skip(3) == extra,
    {
    }

    /// With nothing extra, `new_and` holds exactly what `new` holds.
    pub proof fn law_new_and_nothing_is_new(a: T, b: T, c: T)
        ensures
            Self::spec_new_and(a, b, c, Seq::empty()) == Self::spec_new(a, b, c),
    {
    }

    /// A vector of three elements or more is accepted, and the sequence then
    /// holds the vector's elements unchanged.
    pub proof fn law_try_from_accepts(value: Vec<T>)
        requires
            value@.len() >= 3,
        ensures
            Self::try_from_spec(value) is Ok,
            Self::try_from_spec(value)->Ok_0.elements() == value@,
    {
    }

    /// A vector of fewer than three elements is refused, and the error names this
    /// class.
    pub proof fn law_try_from_rejects(value: Vec<T>)
        requires
            value@.len() < 3,
        ensures
            Self::try_from_spec(value) == Err::<Self, BoundError>(
                BoundError::Validation(AtLeast::Three),
            ),
    {
    }
}

impl<T> AtCollection<T> for AtLeastThree<T> {
    /// The elements are the sequence's view.
    open spec fn elements(&self) -> Seq<T> {
        self@
    }

    fn as_slice(&self) -> (slice: &[T])
        ensures
            slice@.len() >= 3,
    {
        proof {
            use_type_invariant(self);
        }
        self.raw.as_slice()
    }

    fn as_vec(self) -> (vec: Vec<T>)
        ensures
            vec@.len() >= 3,
    {
        proof {
            use_type_invariant(&self);
        }
        self.raw
    }
}

impl<T> Deref for AtLeastThree<T> {
    type Target = [T];

    /// The elements as a slice, so that the methods of slices read the
    /// sequence.
    fn deref(&self) -> (slice: &[T])
        ensures
            slice@ == self@,
            slice@.len() >= 3,
    {
        self.as_slice()
    }
}

impl<T: Clone> Clone for AtLeastThree<T> {
    /// A sequence of the same length whose elements are clones of this one's,
    /// place by place.
    fn clone(&self) -> (copy: Self)
        ensures
            copy@.len() == self@.len(),
            forall|i: int| 0 <= i < self@.len() ==> cloned::<T>(#[trigger] self@[i], copy@[i]),
    {
        proof {
            use_type_invariant(self);
        }
        AtLeastThree { raw: self.raw.clone() }
    }
}

impl<T> TryFrom<Vec<T>> for AtLeastThree<T> {
    type Error = BoundError;

    /// Takes the vector as it is where it holds three elements or more, and
    /// refuses it otherwise.
    fn try_from(value: Vec<T>) -> (converted: Result<Self, BoundError>)
        ensures
            value@.len() >= 3 ==> converted is Ok && converted->Ok_0@ == value@,
            value@.len() < 3 ==> converted == Err::<Self, BoundError>(
                BoundError::Validation(AtLeast::Three),
            ),
    {
        match AtLeast::Three.check(value.len()) {
            Ok(()) => Ok(AtLeastThree { raw: value }),
            Err(refusal) => Err(refusal),
        }
    }
}

impl<T> vstd::std_specs::convert::TryFromSpecImpl<Vec<T>> for AtLeastThree<T> {
    /// `try_from` returns what `try_from_spec` says.
    open spec fn obeys_try_from_spec() -> bool {
        true
    }

    /// The sequence that holds the vector, where the class admits the
    /// vector's length, and the class's refusal where it does not.
    closed spec fn try_from_spec(value: Vec<T>) -> Result<Self, BoundError> {
        match AtLeast::Three.spec_check(value@.len()) {
            Ok(()) => Ok(AtLeastThree { raw: value }),
            Err(refusal) => Err(refusal),
        }
    }
}

} // verus!
