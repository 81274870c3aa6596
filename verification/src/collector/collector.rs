//! The consumer's end of a subscription, and the callback that feeds it.

use std::sync::Arc;
use tokio::sync::mpsc::UnboundedReceiver;
use vstd::prelude::*;
use crate::collector::channel::{try_receive, Reception};
use crate::collector::collectable::Collectable;
use crate::collector::filter::{keeps, run_from, Filter, FilterTrait, Outcome};
use crate::collector::lazy_item::LazyItem;
use crate::model::event::Event;

verus! {

/// What one poll of a collector gives.
#[derive(Debug)]
pub enum Polled<T> {
    /// The next accepted item.
    Item(T),
    /// No item is waiting; the sequence may go on.
    Pending,
    /// The sequence has ended: the deadline has passed or the producer is
    /// gone.
    Ended,
}

/// Whether a deadline, if there is one, has been reached at time `now`.
pub open spec fn expired(deadline: Option<u64>, now: u64) -> bool {
    deadline matches Some(at) && now >= at
}

/// The consumer's handle of a subscription: the receiving half of the
/// filter's channel, and an optional deadline on a millisecond clock that
/// the caller reads.
#[verifier::reject_recursive_types(Item)]
pub struct Collector<Item> {
    receiver: UnboundedReceiver<Arc<Item>>,
    deadline: Option<u64>,
}

impl<Item> Collector<Item> {
    /// The deadline, if there is one.
    pub closed spec fn deadline(&self) -> Option<u64> {
        self.deadline
    }

    /// The receiving half of the channel.
    pub closed spec fn receiver(&self) -> UnboundedReceiver<Arc<Item>> {
        self.receiver
    }

    /// A collector on `receiver` that ends at `deadline`.
    pub fn new(receiver: UnboundedReceiver<Arc<Item>>, deadline: Option<u64>) -> (collector: Self)
        ensures
            collector.deadline() == deadline,
            collector.receiver() == receiver,
    {
        Collector { receiver, deadline }
    }

    /// The deadline, if there is one.
    pub fn get_deadline(&self) -> (deadline: Option<u64>)
        ensures
            deadline == self.deadline(),
    {
        self.deadline
    }

    /// Whether the deadline has been reached at time `now`.
    pub fn is_expired(&self, now: u64) -> (over: bool)
        ensures
            over == expired(self.deadline(), now),
    {
        match self.deadline {
            Some(at) => now >= at,
            None => false,
        }
    }

    /// What a poll gives when the deadline test said `over` and the channel
    /// held `reception`: the deadline is decided first, and a poll after it
    /// ends the sequence whatever waits in the channel; before it, a waiting
    /// item is handed out, a closed channel ends the sequence, and an empty
    /// one leaves the consumer waiting.
    pub fn resolve(over: bool, reception: Reception<Arc<Item>>) -> (polled: Polled<Arc<Item>>)
        ensures
            over ==> polled is Ended,
            !over ==> polled == match reception {
                Reception::Item(item) => Polled::Item(item),
                Reception::Empty => Polled::<Arc<Item>>::Pending,
                Reception::Closed => Polled::<Arc<Item>>::Ended,
            },
    {
        if over {
            return Polled::Ended;
        }
        match reception {
            Reception::Item(item) => Polled::Item(item),
            Reception::Empty => Polled::Pending,
            Reception::Closed => Polled::Ended,
        }
    }

    /// Polls the collector at time `now` without waiting. After the deadline
    /// the sequence has ended and the channel is not looked into; before it
    /// the result is what [`Collector::resolve`] makes of what the channel
    /// holds.
    pub fn poll_at(&mut self, now: u64) -> (polled: Polled<Arc<Item>>)
        ensures
            final(self).deadline() == old(self).deadline(),
            expired(old(self).deadline(), now) ==> polled is Ended && *final(self) == *old(self),
    {
        if self.is_expired(now) {
            return Polled::Ended;
        }
        let reception = try_receive(&mut self.receiver);
        Self::resolve(false, reception)
    }

    /// Ends the subscription: closes the receiving half, so that the filter's
    /// next send fails and the filter deregisters. What was already queued is
    /// not handed out.
    pub fn stop(self) {
        let mut receiver = self.receiver;
        receiver.close();
    }

    /// Takes the collector apart, for a caller that waits on the channel by
    /// its own means.
    pub fn into_parts(self) -> (parts: (UnboundedReceiver<Arc<Item>>, Option<u64>))
        ensures
            parts.0 == self.receiver(),
            parts.1 == self.deadline(),
    {
        (self.receiver, self.deadline)
    }
}

/// The callback that a collector registers at its shard's dispatch point.
/// The dispatch point calls it with every inbound event, in the order of
/// receipt, and deregisters it as soon as it answers `false`.
#[verifier::reject_recursive_types(Item)]
pub struct CollectorCallback<Item: Collectable, P>(pub Filter<Item, P>);

impl<Item: Collectable, P> CollectorCallback<Item, P> where Filter<Item, P>: FilterTrait<Item> {
    /// Shows `event` to the filter if it carries an item of the filter's
    /// kind. An event that carries none leaves the filter as it is and
    /// registered.
    pub fn call(&mut self, event: &Event) -> (keep: bool)
        ensures
            final(self).0.same_subscription(&old(self).0),
            !Item::carried_by(event) ==> keep && final(self).0.counters() == old(self).0.counters(),
            Item::carried_by(event) ==> exists|item: Item::Lazy<'_>, outcome: Outcome|
                Item::borrows(&item, event) && item.promoted() is None && #[trigger] old(
                    self,
                ).0.may_end(&item, outcome) && final(self).0.counters() == old(
                    self,
                ).0.counters().after(outcome) && keep == keeps(
                    old(self).0.limits(),
                    old(self).0.counters(),
                    outcome,
                ),
    {
        match Item::extract(event) {
            Some(item) => {
                let ghost shown = item;
                let keep = self.0.process_item(item);
                proof {
                    let outcome = choose|outcome: Outcome| #[trigger]
                        old(self).0.may_end(&shown, outcome) && self.0.counters() == old(
                            self,
                        ).0.counters().after(outcome) && keep == keeps(
                            old(self).0.limits(),
                            old(self).0.counters(),
                            outcome,
                        );
                    assert(old(self).0.may_end(&shown, outcome));
                }
                keep
            },
            None => true,
        }
    }

    /// Whether showing the first `shown` of `events` to a filter that stood
    /// at `before` can have left it at `after` and `registered`: every event
    /// is shown if the callback is still registered, and at least one was
    /// shown if it is not; there is one of `outcomes` for each shown event
    /// that carries an item of the filter's kind, and the run of the filter
    /// over these outcomes ends at `after` and `registered`.
    pub open spec fn dispatched(
        before: &Filter<Item, P>,
        events: Seq<Event>,
        shown: int,
        outcomes: Seq<Outcome>,
        after: &Filter<Item, P>,
        registered: bool,
    ) -> bool {
        &&& 0 <= shown <= events.len()
        &&& registered ==> shown == events.len()
        &&& !registered ==> shown > 0 && Item::carried_by(&events[shown - 1])
        &&& outcomes.len() == carrying::<Item>(events.take(shown))
        &&& run_from(before.limits(), before.counters(), outcomes).counters == after.counters()
        &&& run_from(before.limits(), before.counters(), outcomes).registered == registered
    }

    /// Shows the events of a shard to the filter, one after another in the
    /// order of receipt, for as long as the callback stays registered: after
    /// the first answer `false` no further event is shown. The result says
    /// whether the callback is still registered at the end.
    ///
    /// What comes of it is a run of the filter: there are as many outcomes
    /// as events were shown that carry an item of the filter's kind, and the
    /// counters stand where the run over these outcomes ends.
    pub fn dispatch_all(&mut self, events: &Vec<Event>) -> (registered: bool)
        ensures
            final(self).0.same_subscription(&old(self).0),
            exists|shown: int, outcomes: Seq<Outcome>| #[trigger]
                Self::dispatched(
                    &old(self).0,
                    events@,
                    shown,
                    outcomes,
                    &final(self).0,
                    registered,
                ),
    {
        let ghost mut outcomes: Seq<Outcome> = Seq::empty();
        let ghost limits = self.0.limits();
        let ghost start = self.0.counters();
        let mut i: usize = 0;
        proof {
            assert(events@.take(0).len() == 0);
        }
        while i < events.len()
            invariant
                i <= events@.len(),
                self.0.same_subscription(&old(self).0),
                limits == old(self).0.limits(),
                start == old(self).0.counters(),
                outcomes.len() == carrying::<Item>(events@.take(i as int)),
                run_from(limits, start, outcomes).counters == self.0.counters(),
                run_from(limits, start, outcomes).registered,
            decreases events@.len() - i,
        {
            let ghost before = self.0.counters();
            let keep = self.call(&events[i]);
            proof {
                lemma_carrying_step::<Item>(events@, i as int);
                if Item::carried_by(&events@[i as int]) {
                    let outcome = choose|outcome: Outcome|
                        self.0.counters() == before.after(outcome) && keep == keeps(
                            limits,
                            before,
                            outcome,
                        );
                    let longer = outcomes.push(outcome);
                    assert(longer.drop_last() == outcomes);
                    assert(longer.last() == outcome);
                    outcomes = longer;
                }
            }
            if !keep {
                proof {
                    assert(Self::dispatched(
                        &old(self).0,
                        events@,
                        i + 1,
                        outcomes,
                        &self.0,
                        false,
                    ));
                }
                return false;
            }
            i = i + 1;
        }
        proof {
            assert(Self::dispatched(
                &old(self).0,
                events@,
                events@.len() as int,
                outcomes,
                &self.0,
                true,
            ));
        }
        true
    }
}

/// How many of `events` carry an item of the kind `Item`.
pub open spec fn carrying<Item: Collectable>(events: Seq<Event>) -> nat
    decreases events.len(),
{
    if events.len() == 0 {
        0
    } else {
        carrying::<Item>(events.drop_last()) + if Item::carried_by(&events.last()) {
            1nat
        } else {
            0nat
        }
    }
}

/// What one more event adds to the number of events that carry an item.
pub proof fn lemma_carrying_step<Item: Collectable>(events: Seq<Event>, i: int)
    requires
        0 <= i < events.len(),
    ensures
        carrying::<Item>(events.take(i + 1)) == carrying::<Item>(events.take(i)) + if Item::carried_by(
            &events[i],
        ) {
            1nat
        } else {
            0nat
        },
{
    assert(events.take(i + 1).drop_last() == events.take(i));
    assert(events.take(i + 1).last() == events[i]);
}

} // verus!
