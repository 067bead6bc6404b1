//! What every bounded sequence offers: its elements, borrowed or owned.

use vstd::prelude::*;
use vstd::std_specs::iter::IteratorSpec;

verus! {

/// Read-only access to a bounded sequence.
///
/// A type gives two things: its elements as a borrowed slice and as an owned
/// vector. Iteration, borrowed and owned, is derived from these two.
pub trait AtCollection<T>: Sized {
    /// The elements, in the order in which they were given.
    spec fn elements(&self) -> Seq<T>;

    /// The elements as a slice.
    fn as_slice(&self) -> (slice: &[T])
        ensures
            slice@ == self.elements(),
    ;

    /// Gives up the wrapper for the vector of its elements.
    fn as_vec(self) -> (vec: Vec<T>)
        ensures
            vec@ == self.elements(),
    ;

    /// Gives up the wrapper for an iterator that yields each element once,
    /// first to last, and then ends.
    fn into_iter(self) -> (items: std::vec::IntoIter<T>)
        ensures
            IteratorSpec::remaining(&items) == self.elements(),
            IteratorSpec::decrease(&items) is Some,
            IteratorSpec::initial_value_relation(&items, &items),
    {
        self.as_vec().into_iter()
    }

    /// An iterator over references to the elements, first to last. The
    /// wrapper stays as it is, so every call yields the same references.
    fn iter(&self) -> (items: std::slice::Iter<'_, T>)
        ensures
            IteratorSpec::remaining(&items) == self.elements().as_ref(),
            IteratorSpec::decrease(&items) is Some,
            IteratorSpec::initial_value_relation(&items, &items),
    {
        self.as_slice().iter()
    }
}

/// Reading leaves a collection as it is: two calls of `as_slice` on one
/// collection give the same elements, which are the collection's.
pub proof fn law_as_slice_repeats<'a, T, C: AtCollection<T>>(
    c: &'a C,
    first: &'a [T],
    second: &'a [T],
)
    requires
        call_ensures(C::as_slice, (c,), first),
        call_ensures(C::as_slice, (c,), second),
    ensures
        first@ == second@,
        first@ == c.elements(),
{
}

/// Two calls of `iter` on one collection yield the same references in the
/// same order, and they are references to the collection's elements.
pub proof fn law_iter_repeats<'a, T, C: AtCollection<T>>(
    c: &'a C,
    first: std::slice::Iter<'a, T>,
    second: std::slice::Iter<'a, T>,
)
    requires
        call_ensures(C::iter, (c,), first),
        call_ensures(C::iter, (c,), second),
    ensures
        IteratorSpec::remaining(&first) == IteratorSpec::remaining(&second),
        IteratorSpec::remaining(&first).unref() == c.elements(),
{
    assert(c.elements().as_ref().unref() =~= c.elements());
}

} // verus!
