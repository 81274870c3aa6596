//! The cache of what the client has seen.

use vstd::prelude::*;
use crate::model::channel::Channel;
use crate::model::id::ChannelId;

verus! {

/// The channels that the client has seen, each under its identifier.
#[derive(Debug)]
pub struct Cache {
    channels: Vec<Channel>,
}

impl Cache {
    /// The channels held, in the order in which they were first seen.
    pub closed spec fn channels(&self) -> Seq<Channel> {
        self.channels@
    }

    /// No channel is held twice.
    pub open spec fn wf(&self) -> bool {
        forall|i: int, j: int|
            0 <= i < j < self.channels().len() ==> self.channels()[i].spec_id()
                != self.channels()[j].spec_id()
    }

    /// Whether a channel is held under `id`.
    pub open spec fn holds(&self, id: ChannelId) -> bool {
        exists|i: int| 0 <= i < self.channels().len() && #[trigger] self.channels()[i].spec_id() == id
    }

    /// An empty cache.
    pub fn new() -> (cache: Self)
        ensures
            cache.wf(),
            cache.channels().len() == 0,
    {
        Cache { channels: Vec::new() }
    }

    /// The place of the channel held under `id`.
    fn position(&self, id: ChannelId) -> (at: Option<usize>)
        ensures
            match at {
                Some(i) => i < self.channels().len() && self.channels()[i as int].spec_id() == id,
                None => !self.holds(id),
            },
    {
        let mut i: usize = 0;
        while i < self.channels.len()
            invariant
                i <= self.channels@.len(),
                forall|j: int| 0 <= j < i ==> self.channels@[j].spec_id() != id,
            decreases self.channels@.len() - i,
        {
            if self.channels[i].id() == id {
                return Some(i);
            }
            i = i + 1;
        }
        None
    }

    /// The channel held under `id`, if there is one.
    pub fn channel(&self, id: ChannelId) -> (found: Option<&Channel>)
        ensures
            match found {
                Some(channel) => channel.spec_id() == id && self.channels().contains(*channel),
                None => !self.holds(id),
            },
    {
        match self.position(id) {
            Some(i) => {
                assert(self.channels()[i as int] == self.channels@[i as int]);
                Some(&self.channels[i])
            },
            None => None,
        }
    }

    /// Holds `channel` under its identifier, in the place of the channel
    /// that was held under it, if there was one.
    pub fn insert(&mut self, channel: Channel)
        requires
            old(self).wf(),
        ensures
            final(self).wf(),
            final(self).holds(channel.spec_id()),
            final(self).channels().contains(channel),
            forall|id: ChannelId| id != channel.spec_id() ==> final(self).holds(id) == old(self).holds(id),
    {
        let id = channel.id();
        let ghost before = self.channels@;
        match self.position(id) {
            Some(i) => {
                self.channels.set(i, channel);
                proof {
                    assert(self.channels@[i as int] == channel);
                    assert forall|other: ChannelId| other != channel.spec_id() implies self.holds(
                        other,
                    ) == old(self).holds(other) by {
                        if old(self).holds(other) {
                            let k = choose|k: int|
                                0 <= k < old(self).channels().len() && #[trigger] old(self).channels()[k].spec_id()
                                    == other;
                            assert(self.channels()[k].spec_id() == other);
                        }
                        if self.holds(other) {
                            let k = choose|k: int|
                                0 <= k < self.channels().len() && #[trigger] self.channels()[k].spec_id()
                                    == other;
                            assert(old(self).channels()[k].spec_id() == other);
                        }
                    }
                }
            },
            None => {
                self.channels.push(channel);
                proof {
                    let last = before.len() as int;
                    assert(self.channels@[last] == channel);
                    assert(self.channels()[last].spec_id() == id);
                    assert forall|i: int, j: int| 0 <= i < j < self.channels().len() implies self.channels()[i].spec_id()
                        != self.channels()[j].spec_id() by {
                        if j == last {
                            assert(old(self).channels()[i].spec_id() != id);
                        } else {
                            assert(old(self).channels()[i].spec_id() != old(
                                self,
                            ).channels()[j].spec_id());
                        }
                    }
                    assert forall|other: ChannelId| other != channel.spec_id() implies self.holds(
                        other,
                    ) == old(self).holds(other) by {
                        if old(self).holds(other) {
                            let k = choose|k: int|
                                0 <= k < old(self).channels().len() && #[trigger] old(self).channels()[k].spec_id()
                                    == other;
                            assert(self.channels()[k].spec_id() == other);
                        }
                        if self.holds(other) {
                            let k = choose|k: int|
                                0 <= k < self.channels().len() && #[trigger] self.channels()[k].spec_id()
                                    == other;
                            assert(old(self).channels()[k].spec_id() == other);
                        }
                    }
                }
            },
        }
    }
}

} // verus!
