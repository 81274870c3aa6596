//! The custom predicate of a filter.

use std::marker::PhantomData;
use vstd::prelude::*;

verus! {

/// A test that a filter applies to an item after its declarative
/// constraints have passed.
///
/// A predicate is a relation rather than a function: a closure may answer
/// differently on two calls, and the contracts speak of the answers that it
/// may give.
pub trait ItemPredicate<Arg> {
    /// Whether `verdict` is an answer that the predicate may give on `item`.
    spec fn may_answer(&self, item: &Arg, verdict: bool) -> bool;

    /// Asks the predicate about `item`.
    fn test(&self, item: &Arg) -> (verdict: bool)
        ensures
            self.may_answer(item, verdict),
    ;
}

/// The predicate of a filter that has no custom predicate: it accepts every
/// item.
#[derive(Clone, Copy, Debug)]
pub struct AcceptAll;

impl<Arg> ItemPredicate<Arg> for AcceptAll {
    open spec fn may_answer(&self, item: &Arg, verdict: bool) -> bool {
        verdict
    }

    fn test(&self, item: &Arg) -> (verdict: bool) {
        true
    }
}

/// A custom predicate: a function from a borrowed item to a verdict that
/// can be asked about every item.
pub struct FilterFn<Arg, F: Fn(&Arg) -> bool> {
    function: F,
    item: PhantomData<Arg>,
}

impl<Arg, F: Fn(&Arg) -> bool> FilterFn<Arg, F> {
    /// The function can be called with every item.
    #[verifier::type_invariant]
    spec fn total(&self) -> bool {
        forall|item: &Arg| call_requires(self.function, (item,))
    }

    /// The function.
    pub closed spec fn function(&self) -> F {
        self.function
    }

    /// The predicate that asks `function`.
    pub fn new(function: F) -> (predicate: Self)
        requires
            forall|item: &Arg| call_requires(function, (item,)),
        ensures
            predicate.function() == function,
    {
        FilterFn { function, item: PhantomData }
    }
}

impl<Arg, F: Fn(&Arg) -> bool> ItemPredicate<Arg> for FilterFn<Arg, F> {
    open spec fn may_answer(&self, item: &Arg, verdict: bool) -> bool {
        call_ensures(self.function(), (item,), verdict)
    }

    fn test(&self, item: &Arg) -> (verdict: bool) {
        proof {
            use_type_invariant(self);
        }
        (self.function)(item)
    }
}

} // verus!
