//! The queue of shards that wait to be started.
//!
//! The platform lets `max_concurrency` shards identify at a time, and tells
//! them apart by start bucket: the bucket of a shard is its identifier modulo
//! `max_concurrency`. The queue hands out one bucket at a time.

use vstd::prelude::*;
use crate::gateway::ShardId;

verus! {

/// The start bucket of shard `shard_id` under a maximum concurrency of
/// `max_concurrency`.
pub open spec fn bucket_of(shard_id: int, max_concurrency: int) -> int {
    shard_id % max_concurrency
}

/// Shards whose identifiers differ by `max_concurrency` share a bucket, and
/// two neighbouring identifiers below `max_concurrency` lie in different
/// buckets.
pub proof fn lemma_bucket_assignment(k: int, max_concurrency: int)
    requires
        k >= 0,
        max_concurrency > 0,
    ensures
        bucket_of(k, max_concurrency) == bucket_of(k + max_concurrency, max_concurrency),
        0 <= bucket_of(k, max_concurrency) < max_concurrency,
        k + 1 < max_concurrency ==> bucket_of(k, max_concurrency) != bucket_of(
            k + 1,
            max_concurrency,
        ),
        k < max_concurrency ==> bucket_of(k, max_concurrency) == k,
{
    vstd::arithmetic::div_mod::lemma_mod_add_multiples_vanish(k, max_concurrency);
    vstd::arithmetic::div_mod::lemma_mod_pos_bound(k, max_concurrency);
    if k < max_concurrency {
        vstd::arithmetic::div_mod::lemma_small_mod(k as nat, max_concurrency as nat);
    }
    if k + 1 < max_concurrency {
        vstd::arithmetic::div_mod::lemma_small_mod((k + 1) as nat, max_concurrency as nat);
    }
}

/// The test for every shard but `shard_id`.
pub open spec fn other_than(shard_id: ShardId) -> spec_fn(ShardId) -> bool {
    |s: ShardId| s != shard_id
}

/// The test for the shards of bucket `bucket`.
pub open spec fn of_bucket(max_concurrency: u16, bucket: int) -> spec_fn(ShardId) -> bool {
    |s: ShardId| bucket_of(s.0 as int, max_concurrency as int) == bucket
}

/// The test for the shards of every bucket but `bucket`.
pub open spec fn not_of_bucket(max_concurrency: u16, bucket: int) -> spec_fn(ShardId) -> bool {
    |s: ShardId| bucket_of(s.0 as int, max_concurrency as int) != bucket
}

/// Shards that wait to be started, in the order in which they are to be
/// looked at. No shard waits twice.
#[derive(Debug)]
pub struct ShardQueue {
    max_concurrency: u16,
    pending: Vec<ShardId>,
}

/// The identifiers of a list of shards.
pub open spec fn shard_numbers(shards: Seq<ShardId>) -> Seq<u16> {
    shards.map_values(|shard: ShardId| shard.0)
}

impl ShardQueue {
    /// The maximum concurrency by which buckets are told apart.
    pub closed spec fn max_concurrency(&self) -> u16 {
        self.max_concurrency
    }

    /// The waiting shards, first the one that is looked at first.
    pub closed spec fn pending(&self) -> Seq<ShardId> {
        self.pending@
    }

    /// The maximum concurrency is positive and no shard waits twice.
    pub open spec fn wf(&self) -> bool {
        &&& self.max_concurrency() > 0
        &&& self.pending().no_duplicates()
    }

    /// An empty queue.
    pub fn new(max_concurrency: u16) -> (queue: Self)
        requires
            max_concurrency > 0,
        ensures
            queue.wf(),
            queue.max_concurrency() == max_concurrency,
            queue.pending() == Seq::<ShardId>::empty(),
    {
        ShardQueue { max_concurrency, pending: Vec::new() }
    }

    /// The start bucket of `shard_id`.
    pub fn calculate_bucket(&self, shard_id: ShardId) -> (bucket: u16)
        requires
            self.wf(),
        ensures
            bucket == bucket_of(shard_id.0 as int, self.max_concurrency() as int),
    {
        shard_id.0 % self.max_concurrency
    }

    /// The maximum concurrency by which buckets are told apart.
    pub fn calculate_bucket_divisor(&self) -> (max_concurrency: u16)
        ensures
            max_concurrency == self.max_concurrency(),
    {
        self.max_concurrency
    }

    /// Whether no shard waits.
    pub fn is_empty(&self) -> (empty: bool)
        ensures
            empty == (self.pending().len() == 0),
    {
        self.pending.len() == 0
    }

    /// How many shards wait.
    pub fn len(&self) -> (count: usize)
        ensures
            count == self.pending().len(),
    {
        self.pending.len()
    }

    /// Whether `shard_id` waits.
    pub fn contains(&self, shard_id: ShardId) -> (found: bool)
        ensures
            found == self.pending().contains(shard_id),
    {
        let mut i: usize = 0;
        while i < self.pending.len()
            invariant
                i <= self.pending@.len(),
                forall|j: int| 0 <= j < i ==> self.pending@[j] != shard_id,
            decreases self.pending@.len() - i,
        {
            if self.pending[i].0 == shard_id.0 {
                assert(self.pending@[i as int] == shard_id);
                return true;
            }
            i = i + 1;
        }
        false
    }

    /// Lets `shard_id` wait behind the others, unless it waits already.
    pub fn push_back(&mut self, shard_id: ShardId)
        requires
            old(self).wf(),
        ensures
            final(self).wf(),
            final(self).max_concurrency() == old(self).max_concurrency(),
            final(self).pending() == if old(self).pending().contains(shard_id) {
                old(self).pending()
            } else {
                old(self).pending().push(shard_id)
            },
    {
        if !self.contains(shard_id) {
            self.pending.push(shard_id);
        }
    }

    /// Lets `shard_id` wait before the others, unless it waits already.
    pub fn push_front(&mut self, shard_id: ShardId)
        requires
            old(self).wf(),
        ensures
            final(self).wf(),
            final(self).max_concurrency() == old(self).max_concurrency(),
            final(self).pending() == if old(self).pending().contains(shard_id) {
                old(self).pending()
            } else {
                seq![shard_id] + old(self).pending()
            },
    {
        if !self.contains(shard_id) {
            self.pending.insert(0, shard_id);
            assert(self.pending@ =~= seq![shard_id] + old(self).pending());
        }
    }

    /// Takes `shard_id` out of the queue, if it waits.
    pub fn remove(&mut self, shard_id: ShardId)
        requires
            old(self).wf(),
        ensures
            final(self).wf(),
            final(self).max_concurrency() == old(self).max_concurrency(),
            final(self).pending() == old(self).pending().filter(other_than(shard_id)),
    {
        let ghost keep = other_than(shard_id);
        let mut kept: Vec<ShardId> = Vec::new();
        let mut i: usize = 0;
        proof {
            assert(self.pending@.take(0).filter(keep) =~= Seq::<ShardId>::empty());
        }
        while i < self.pending.len()
            invariant
                i <= self.pending@.len(),
                keep == other_than(shard_id),
                kept@ == self.pending@.take(i as int).filter(keep),
            decreases self.pending@.len() - i,
        {
            let shard = self.pending[i];
            proof {
                lemma_filter_step(self.pending@, i as int, keep);
            }
            if shard.0 != shard_id.0 {
                kept.push(shard);
            }
            i = i + 1;
        }
        proof {
            assert(self.pending@.take(i as int) == self.pending@);
            lemma_filter_keeps_distinct(self.pending@, keep);
        }
        self.pending = kept;
    }

    /// Takes the shards of the next bucket out of the queue: the bucket of
    /// the shard that waits first, with every other waiting shard of the same
    /// bucket, in their order. The shards of other buckets go on waiting.
    pub fn pop_batch(&mut self) -> (batch: Vec<ShardId>)
        requires
            old(self).wf(),
        ensures
            final(self).wf(),
            final(self).max_concurrency() == old(self).max_concurrency(),
            old(self).pending().len() == 0 ==> batch@.len() == 0 && final(self).pending().len()
                == 0,
            old(self).pending().len() > 0 ==> {
                let bucket = bucket_of(
                    old(self).pending()[0].0 as int,
                    old(self).max_concurrency() as int,
                );
                &&& batch@ == old(self).pending().filter(
                    of_bucket(old(self).max_concurrency(), bucket),
                )
                &&& final(self).pending() == old(self).pending().filter(
                    not_of_bucket(old(self).max_concurrency(), bucket),
                )
                &&& batch@.len() > 0
                &&& batch@[0] == old(self).pending()[0]
            },
    {
        let mut batch: Vec<ShardId> = Vec::new();
        if self.pending.len() == 0 {
            return batch;
        }
        let bucket = self.calculate_bucket(self.pending[0]);
        let max_concurrency = self.max_concurrency;
        let ghost taken = of_bucket(max_concurrency, bucket as int);
        let ghost left = not_of_bucket(max_concurrency, bucket as int);
        let mut rest: Vec<ShardId> = Vec::new();
        let mut i: usize = 0;
        proof {
            assert(self.pending@.take(0).filter(taken) =~= Seq::<ShardId>::empty());
            assert(self.pending@.take(0).filter(left) =~= Seq::<ShardId>::empty());
        }
        while i < self.pending.len()
            invariant
                i <= self.pending@.len(),
                self.pending@.len() > 0,
                max_concurrency > 0,
                taken == of_bucket(max_concurrency, bucket as int),
                left == not_of_bucket(max_concurrency, bucket as int),
                taken(self.pending@[0]),
                batch@ == self.pending@.take(i as int).filter(taken),
                rest@ == self.pending@.take(i as int).filter(left),
                i > 0 ==> batch@.len() > 0 && batch@[0] == self.pending@[0],
            decreases self.pending@.len() - i,
        {
            let shard = self.pending[i];
            proof {
                lemma_filter_step(self.pending@, i as int, taken);
                lemma_filter_step(self.pending@, i as int, left);
            }
            if shard.0 % max_concurrency == bucket {
                batch.push(shard);
            } else {
                rest.push(shard);
            }
            i = i + 1;
        }
        proof {
            assert(self.pending@.take(i as int) == self.pending@);
            lemma_filter_keeps_distinct(self.pending@, left);
        }
        self.pending = rest;
        batch
    }
}

/// What one more element adds to a filtered prefix.
pub proof fn lemma_filter_step<A>(s: Seq<A>, i: int, keep: spec_fn(A) -> bool)
    requires
        0 <= i < s.len(),
    ensures
        s.take(i + 1).filter(keep) == if keep(s[i]) {
            s.take(i).filter(keep).push(s[i])
        } else {
            s.take(i).filter(keep)
        },
{
    reveal(Seq::filter);
    assert(s.take(i + 1).drop_last() == s.take(i));
    assert(s.take(i + 1).last() == s[i]);
}

/// What is left of a list without duplicates has none either, and holds
/// exactly the elements that were kept.
pub proof fn lemma_filter_keeps_distinct<A>(s: Seq<A>, keep: spec_fn(A) -> bool)
    requires
        s.no_duplicates(),
    ensures
        s.filter(keep).no_duplicates(),
        forall|a: A| #[trigger] s.filter(keep).contains(a) <==> s.contains(a) && keep(a),
    decreases s.len(),
{
    reveal(Seq::filter);
    if s.len() > 0 {
        let shorter = s.drop_last();
        assert forall|i: int, j: int|
            0 <= i < shorter.len() && 0 <= j < shorter.len() && i != j implies shorter[i]
            != shorter[j] by {
            assert(shorter[i] == s[i] && shorter[j] == s[j]);
        }
        lemma_filter_keeps_distinct(shorter, keep);
        let last = s.last();
        assert(!shorter.contains(last)) by {
            if shorter.contains(last) {
                let i = choose|i: int| 0 <= i < shorter.len() && shorter[i] == last;
                assert(s[i] == s[s.len() - 1]);
            }
        }
        let kept = shorter.filter(keep);
        assert forall|a: A| #[trigger] s.filter(keep).contains(a) <==> s.contains(a) && keep(
            a,
        ) by {
            if s.contains(a) {
                let i = choose|i: int| 0 <= i < s.len() && s[i] == a;
                if i < shorter.len() {
                    assert(shorter[i] == a);
                    assert(shorter.contains(a));
                }
            }
            if shorter.contains(a) {
                let i = choose|i: int| 0 <= i < shorter.len() && shorter[i] == a;
                assert(s[i] == a);
            }
            if keep(last) {
                assert(s.filter(keep) == kept.push(last));
                if kept.push(last).contains(a) {
                    let i = choose|i: int| 0 <= i < kept.push(last).len() && kept.push(last)[i] == a;
                    if i < kept.len() {
                        assert(kept[i] == a);
                        assert(kept.contains(a));
                    }
                }
                if kept.contains(a) {
                    let i = choose|i: int| 0 <= i < kept.len() && kept[i] == a;
                    assert(kept.push(last)[i] == a);
                }
                if a == last {
                    assert(kept.push(last)[kept.len() as int] == a);
                    assert(s[s.len() - 1] == a);
                }
            }
        }
        if keep(last) {
            assert(!kept.contains(last));
            assert forall|i: int, j: int|
                0 <= i < kept.push(last).len() && 0 <= j < kept.push(last).len() && i
                != j implies kept.push(last)[i] != kept.push(last)[j] by {
                if i < kept.len() && j < kept.len() {
                } else if i < kept.len() {
                    assert(kept.contains(kept[i]));
                } else if j < kept.len() {
                    assert(kept.contains(kept[j]));
                }
            }
        }
    }
}

} // verus!
