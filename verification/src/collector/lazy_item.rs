//! Items that are borrowed while a filter looks at them and copied into a
//! shared, owned handle only when a filter keeps them.

use std::sync::Arc;
use vstd::prelude::*;
use crate::collector::ReactionAction;
use crate::model::channel::reaction::Reaction;

verus! {

/// A borrowed item that can be promoted to a shared owned handle.
///
/// The handle is made at the first call of [`LazyItem::as_arc`] and kept:
/// every later call returns the same handle and changes nothing.
pub trait LazyItem<Item>: Sized {
    /// The owned copy, once it exists.
    spec fn promoted(&self) -> Option<Item>;

    /// Whether `owned` may be the copy that promotion makes of the borrowed
    /// value.
    spec fn is_copy(&self, owned: Item) -> bool;

    /// What promotion leaves untouched: the borrowed source.
    spec fn same_source(&self, other: &Self) -> bool;

    /// The shared owned handle, made now if this is the first call.
    fn as_arc(&mut self) -> (arc: &Arc<Item>)
        ensures
            final(self).promoted() == Some(**arc),
            final(self).same_source(old(self)),
            old(self).promoted() is Some ==> *final(self) == *old(self),
            old(self).promoted() matches Some(owned) ==> **arc == owned,
            old(self).is_copy(**arc),
    ;
}

/// Wraps a `&T` and clones the value into an [`Arc<T>`] when first asked to.
#[derive(Debug)]
pub struct LazyArc<'a, T: Clone> {
    value: &'a T,
    arc: Option<Arc<T>>,
}

impl<'a, T: Clone> LazyArc<'a, T> {
    /// The owned copy, where there is one, is a clone of the borrowed value.
    #[verifier::type_invariant]
    spec fn copy_is_faithful(&self) -> bool {
        self.arc matches Some(arc) ==> cloned(*self.value, *arc)
    }
}

impl<'a, T: Clone> LazyArc<'a, T> {
    /// The borrowed value.
    pub closed spec fn value(&self) -> T {
        *self.value
    }

    /// The owned copy, once it exists.
    pub closed spec fn owned(&self) -> Option<T> {
        match self.arc {
            Some(arc) => Some(*arc),
            None => None,
        }
    }

    /// The borrowed value.
    pub fn get(&self) -> (value: &'a T)
        ensures
            *value == self.value(),
    {
        self.value
    }
}

impl<'a, T: Clone> LazyArc<'a, T> {
    /// Borrows `value`; nothing is copied yet.
    pub fn new(value: &'a T) -> (lazy: Self)
        ensures
            lazy.value() == *value,
            lazy.owned() is None,
    {
        LazyArc { value, arc: None }
    }
}

impl<'a, T: Clone> LazyItem<T> for LazyArc<'a, T> {
    open spec fn promoted(&self) -> Option<T> {
        self.owned()
    }

    open spec fn is_copy(&self, owned: T) -> bool {
        cloned(self.value(), owned)
    }

    open spec fn same_source(&self, other: &Self) -> bool {
        self.value() == other.value()
    }

    fn as_arc(&mut self) -> (arc: &Arc<T>) {
        proof {
            use_type_invariant(&*self);
        }
        if self.arc.is_none() {
            let owned = self.value.clone();
            self.arc = Some(Arc::new(owned));
        }
        self.arc.as_ref().unwrap()
    }
}

/// A borrowed reaction with the direction of its change, promoted to a
/// shared [`ReactionAction`] when first asked to.
#[derive(Debug)]
pub struct LazyReactionAction<'a> {
    reaction: &'a Reaction,
    arc: Option<Arc<ReactionAction>>,
    added: bool,
}

impl<'a> LazyReactionAction<'a> {
    /// The owned action, where there is one, is the borrowed reaction under
    /// the variant that the flag names.
    #[verifier::type_invariant]
    spec fn copy_is_faithful(&self) -> bool {
        self.arc matches Some(arc) ==> *arc == self.action()
    }

    /// The borrowed reaction.
    pub closed spec fn reaction(&self) -> Reaction {
        *self.reaction
    }

    /// Whether the reaction was added (else it was removed).
    pub closed spec fn added(&self) -> bool {
        self.added
    }

    /// The owned action, once it exists.
    pub closed spec fn owned(&self) -> Option<ReactionAction> {
        match self.arc {
            Some(arc) => Some(*arc),
            None => None,
        }
    }

    /// The action that promotion makes: the reaction under the variant that
    /// says which way it changed.
    pub open spec fn action(&self) -> ReactionAction {
        if self.added() {
            ReactionAction::Added(Arc::new(self.reaction()))
        } else {
            ReactionAction::Removed(Arc::new(self.reaction()))
        }
    }

    /// Borrows `reaction`; nothing is copied yet.
    #[must_use]
    pub fn new(reaction: &'a Reaction, added: bool) -> (lazy: Self)
        ensures
            lazy.reaction() == *reaction,
            lazy.added() == added,
            lazy.owned() is None,
    {
        LazyReactionAction { reaction, added, arc: None }
    }

    /// The borrowed reaction.
    pub fn get(&self) -> (reaction: &'a Reaction)
        ensures
            *reaction == self.reaction(),
    {
        self.reaction
    }

    /// Whether the reaction was added (else it was removed).
    pub fn is_added(&self) -> (added: bool)
        ensures
            added == self.added(),
    {
        self.added
    }
}

impl LazyItem<ReactionAction> for LazyReactionAction<'_> {
    open spec fn promoted(&self) -> Option<ReactionAction> {
        self.owned()
    }

    open spec fn is_copy(&self, owned: ReactionAction) -> bool {
        owned == self.action()
    }

    open spec fn same_source(&self, other: &Self) -> bool {
        self.reaction() == other.reaction() && self.added() == other.added()
    }

    fn as_arc(&mut self) -> (arc: &Arc<ReactionAction>) {
        proof {
            use_type_invariant(&*self);
        }
        if self.arc.is_none() {
            let inner = Arc::new(self.reaction.clone());
            let action = if self.added {
                ReactionAction::Added(inner)
            } else {
                ReactionAction::Removed(inner)
            };
            self.arc = Some(Arc::new(action));
        }
        self.arc.as_ref().unwrap()
    }
}

} // verus!
