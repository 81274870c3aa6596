//! Collectors of messages, under the names by which they are best known.

use vstd::prelude::*;
use crate::collector::collector::Collector;
use crate::collector::filter::{keeps, message_constraints, Filter, FilterTrait, Outcome};
use crate::collector::lazy_item::LazyArc;
use crate::collector::predicate::ItemPredicate;
use crate::model::channel::message::Message;

verus! {

/// The filter of a message collector.
pub type MessageFilter<P> = Filter<Message, P>;

/// The consumer's handle of a message collector.
pub type MessageCollector = Collector<Message>;

impl<P: ItemPredicate<Message>> Filter<Message, P> {
    /// Whether `outcome` can be what happens to `message` at this filter.
    pub open spec fn may_end_message(&self, message: &Message, outcome: Outcome) -> bool {
        &&& if message_constraints(self.options(), *message) {
            self.predicate().may_answer(message, outcome.passed)
        } else {
            !outcome.passed
        }
        &&& outcome.delivered ==> outcome.passed
    }

    /// Sends `message` to the collector if it meets the constraints. The
    /// result says whether the filter is to stay registered.
    pub fn send_message(&mut self, message: &Message) -> (keep: bool)
        ensures
            final(self).same_subscription(old(self)),
            exists|outcome: Outcome| #[trigger]
                old(self).may_end_message(message, outcome) && final(self).counters() == old(
                    self,
                ).counters().after(outcome) && keep == keeps(
                    old(self).limits(),
                    old(self).counters(),
                    outcome,
                ),
    {
        let lazy = LazyArc::new(message);
        let ghost shown = lazy;
        let keep = self.process_item(lazy);
        proof {
            let outcome = choose|outcome: Outcome| #[trigger]
                old(self).may_end(&shown, outcome) && self.counters() == old(
                    self,
                ).counters().after(outcome) && keep == keeps(
                    old(self).limits(),
                    old(self).counters(),
                    outcome,
                );
            assert(old(self).may_end_message(message, outcome));
        }
        keep
    }
}

} // verus!
