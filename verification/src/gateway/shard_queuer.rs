//! The queuer: it owns the queue of shards that wait to be started and the
//! registry of the shards that run, and decides what is to happen at each
//! command of the manager and at each report of a worker.
//!
//! The queuer performs no waiting and starts no task itself. Its caller runs
//! the loop: it hands over each command and report, carries out the actions
//! that come back, and asks at each turn which shards are to be started now.

use futures::channel::oneshot;
use vstd::prelude::*;
use crate::gateway::channel::fulfil;
use crate::gateway::shard_queue::{
    bucket_of,
    lemma_filter_keeps_distinct,
    lemma_filter_step,
    not_of_bucket,
    of_bucket,
    other_than,
    ShardQueue,
};
use crate::gateway::ShardId;

verus! {

/// The milliseconds that must pass between the starts of two buckets.
pub const WAIT_BETWEEN_BOOTS_MS: u64 = 5000;

/// The close code with which the workers are stopped when every shard is
/// shut down.
pub const NORMAL_CLOSE_CODE: u16 = 1000;

/// How far a registered shard has come.
#[derive(Clone, Copy, Debug, PartialEq, Eq, Structural)]
pub enum ShardStage {
    /// A worker was started for the shard and is shaking hands.
    Starting,
    /// The worker has reported a successful handshake.
    Connected,
    /// The worker was told to stop and has not yet reported that it did.
    ShuttingDown,
}

/// Where a shard stands in its life cycle, as the queuer sees it.
#[derive(Clone, Copy, Debug, PartialEq, Eq, Structural)]
pub enum ShardPhase {
    /// The queuer holds nothing of the shard: it was never started, or it
    /// has stopped.
    Unstarted,
    /// The shard waits in the queue.
    Queued,
    /// A worker was started for the shard.
    Starting,
    /// The worker is connected.
    Connected,
    /// The worker was told to stop.
    ShuttingDown,
}

/// The record of a registered shard.
#[derive(Clone, Copy, Debug, PartialEq, Eq, Structural)]
pub struct ShardRunnerInfo {
    /// How far the shard has come.
    pub stage: ShardStage,
    /// The latency that the worker last observed, in milliseconds.
    pub latency: Option<u64>,
}

/// A command to the queuer, without the channel on which the answer goes.
#[derive(Clone, Copy, Debug, PartialEq, Eq, Structural)]
pub enum Command {
    /// Start a shard. A concurrent start waits behind the others; one that
    /// is not concurrent goes first.
    Start { shard_id: ShardId, concurrent: bool },
    /// Shut one shard down with a close code.
    ShutdownShard { shard_id: ShardId, code: u16 },
    /// Shut every shard down and end.
    Shutdown,
    /// Set the number of shards that new workers announce.
    SetShardTotal(u16),
    /// Ask whether a shard is registered.
    ContainsShard { shard_id: ShardId },
    /// Ask for the records of all registered shards.
    LatencyInfo,
}

/// A command to the queuer. A command that is answered carries the channel
/// for its one answer.
pub enum ShardQueuerMessage {
    Start { shard_id: ShardId, concurrent: bool },
    ShutdownShard { shard_id: ShardId, code: u16, resp: Option<oneshot::Sender<()>> },
    Shutdown,
    SetShardTotal(u16),
    ContainsShard { shard_id: ShardId, resp: oneshot::Sender<bool> },
    LatencyInfo(oneshot::Sender<Vec<(ShardId, ShardRunnerInfo)>>),
}

impl ShardQueuerMessage {
    /// The command of the message.
    pub open spec fn command(&self) -> Command {
        match self {
            ShardQueuerMessage::Start { shard_id, concurrent } => Command::Start {
                shard_id: *shard_id,
                concurrent: *concurrent,
            },
            ShardQueuerMessage::ShutdownShard { shard_id, code, .. } => Command::ShutdownShard {
                shard_id: *shard_id,
                code: *code,
            },
            ShardQueuerMessage::Shutdown => Command::Shutdown,
            ShardQueuerMessage::SetShardTotal(total) => Command::SetShardTotal(*total),
            ShardQueuerMessage::ContainsShard { shard_id, .. } => Command::ContainsShard {
                shard_id: *shard_id,
            },
            ShardQueuerMessage::LatencyInfo(_) => Command::LatencyInfo,
        }
    }

    /// Whether `command` asks for no answer, so that a message carries it
    /// without a channel.
    pub open spec fn carries_alone(command: Command) -> bool {
        command is Start || command is Shutdown || command is SetShardTotal
    }

    /// The message that carries `command`, for a command that asks for no
    /// answer. A command that asks for one has no message without the
    /// channel for the answer.
    pub fn for_command(command: Command) -> (message: Option<Self>)
        ensures
            match command {
                Command::Start { .. } | Command::Shutdown | Command::SetShardTotal(_) => {
                    message matches Some(made) && made.command() == command
                },
                Command::ShutdownShard { .. }
                | Command::ContainsShard { .. }
                | Command::LatencyInfo => message is None,
            },
    {
        match command {
            Command::Start { shard_id, concurrent } => Some(
                ShardQueuerMessage::Start { shard_id, concurrent },
            ),
            Command::Shutdown => Some(ShardQueuerMessage::Shutdown),
            Command::SetShardTotal(total) => Some(ShardQueuerMessage::SetShardTotal(total)),
            Command::ShutdownShard { .. } => None,
            Command::ContainsShard { .. } => None,
            Command::LatencyInfo => None,
        }
    }

    /// The question whether a shard is registered, with the receiving half
    /// of a new channel whose sending half the message carries for the one
    /// answer.
    pub fn contains_shard(shard_id: ShardId) -> (asked: (Self, oneshot::Receiver<bool>))
        ensures
            asked.0.command() == (Command::ContainsShard { shard_id }),
    {
        let (resp, answer) = oneshot::channel();
        (ShardQueuerMessage::ContainsShard { shard_id, resp }, answer)
    }

    /// The question for the records of all registered shards, with the
    /// receiving half of a new channel whose sending half the message carries
    /// for the one answer.
    pub fn latency_info() -> (asked: (Self, oneshot::Receiver<Vec<(ShardId, ShardRunnerInfo)>>))
        ensures
            asked.0.command() == Command::LatencyInfo,
    {
        let (resp, answer) = oneshot::channel();
        (ShardQueuerMessage::LatencyInfo(resp), answer)
    }

    /// The message that carries `command` with a new channel for its
    /// acknowledgement, and the receiving half of that channel, for the
    /// command to shut one shard down; no other command is acknowledged.
    pub fn acknowledged(command: Command) -> (asked: Option<(Self, oneshot::Receiver<()>)>)
        ensures
            match command {
                Command::ShutdownShard { .. } => {
                    &&& asked matches Some(made)
                    &&& made.0.command() == command
                    &&& made.0 matches ShardQueuerMessage::ShutdownShard { resp, .. }
                    &&& resp is Some
                },
                _ => asked is None,
            },
    {
        match command {
            Command::ShutdownShard { shard_id, code } => Some(Self::shutdown_shard(shard_id, code)),
            _ => None,
        }
    }

    /// The command to shut a shard down with a close code, with the
    /// receiving half of a new channel whose sending half the message carries
    /// for the acknowledgement.
    pub fn shutdown_shard(shard_id: ShardId, code: u16) -> (asked: (Self, oneshot::Receiver<()>))
        ensures
            asked.0.command() == (Command::ShutdownShard { shard_id, code }),
            asked.0 matches ShardQueuerMessage::ShutdownShard { resp, .. } && resp is Some,
    {
        let (resp, ack) = oneshot::channel();
        (ShardQueuerMessage::ShutdownShard { shard_id, code, resp: Some(resp) }, ack)
    }
}

/// What the caller of the queuer is to do.
#[derive(Clone, Copy, Debug, PartialEq, Eq, Structural)]
pub enum QueuerAction {
    /// Tell the worker of the shard to close its connection with the code
    /// and to stop.
    StopWorker { shard_id: ShardId, code: u16 },
    /// End the loop: no further command will be taken.
    Exit,
}

/// What the queuer decides when it is asked whether to start shards.
#[derive(Debug)]
pub enum StartDecision {
    /// No shard waits.
    Idle,
    /// Shards wait, but the last bucket was started too recently: ask again
    /// at the given time.
    WaitUntil(u64),
    /// Start a worker for each of these shards now; they share a bucket.
    Start(Vec<ShardId>),
}

/// The state of the queuer.
pub struct QueuerState {
    /// The maximum concurrency by which buckets are told apart.
    pub max_concurrency: u16,
    /// The shards that wait, first the one that is looked at first.
    pub pending: Seq<ShardId>,
    /// The registry: the records of the shards that run, by their number.
    pub runners: Map<u16, ShardRunnerInfo>,
    /// The number of shards that new workers announce.
    pub shard_total: u16,
    /// When the last bucket was started.
    pub last_start: Option<u64>,
}

/// The record of a shard for which a worker was just started.
pub open spec fn fresh_runner() -> ShardRunnerInfo {
    ShardRunnerInfo { stage: ShardStage::Starting, latency: None }
}

/// The earliest time at which the next bucket may be started.
pub open spec fn ready_at(last_start: Option<u64>) -> u64 {
    match last_start {
        Some(at) => if at + WAIT_BETWEEN_BOOTS_MS > u64::MAX {
            u64::MAX
        } else {
            (at + WAIT_BETWEEN_BOOTS_MS) as u64
        },
        None => 0,
    }
}

impl QueuerState {
    /// The maximum concurrency is positive and no shard waits twice.
    pub open spec fn wf(self) -> bool {
        self.max_concurrency > 0 && self.pending.no_duplicates()
    }

    /// Whether the shard is registered: a worker was started for it and has
    /// not reported that it stopped. A shard that only waits in the queue is
    /// not registered.
    pub open spec fn has(self, shard_id: ShardId) -> bool {
        self.runners.dom().contains(shard_id.0)
    }

    /// Where the shard stands.
    pub open spec fn phase(self, shard_id: ShardId) -> ShardPhase {
        if self.has(shard_id) {
            match self.runners[shard_id.0].stage {
                ShardStage::Starting => ShardPhase::Starting,
                ShardStage::Connected => ShardPhase::Connected,
                ShardStage::ShuttingDown => ShardPhase::ShuttingDown,
            }
        } else if self.pending.contains(shard_id) {
            ShardPhase::Queued
        } else {
            ShardPhase::Unstarted
        }
    }

    /// The state after a start command: the shard waits, behind the others
    /// if the start is concurrent and before them if it is not. A shard that
    /// waits already keeps its place.
    pub open spec fn start(self, shard_id: ShardId, concurrent: bool) -> QueuerState {
        QueuerState {
            pending: if self.pending.contains(shard_id) {
                self.pending
            } else if concurrent {
                self.pending.push(shard_id)
            } else {
                seq![shard_id] + self.pending
            },
            ..self
        }
    }

    /// The state after the command to shut one shard down: a registered
    /// shard is shutting down, and a start that waited is called off.
    pub open spec fn shutdown_shard(self, shard_id: ShardId) -> QueuerState {
        QueuerState {
            pending: self.pending.filter(other_than(shard_id)),
            runners: if self.has(shard_id) {
                self.runners.insert(
                    shard_id.0,
                    ShardRunnerInfo {
                        stage: ShardStage::ShuttingDown,
                        latency: self.runners[shard_id.0].latency,
                    },
                )
            } else {
                self.runners
            },
            ..self
        }
    }

    /// The state after the command to shut every shard down: every
    /// registered shard is shutting down, and no shard waits.
    pub open spec fn shutdown_all(self) -> QueuerState {
        QueuerState {
            pending: Seq::empty(),
            runners: self.runners.map_values(
                |info: ShardRunnerInfo|
                    ShardRunnerInfo { stage: ShardStage::ShuttingDown, latency: info.latency },
            ),
            ..self
        }
    }

    /// The state after a command.
    pub open spec fn after(self, command: Command) -> QueuerState {
        match command {
            Command::Start { shard_id, concurrent } => self.start(shard_id, concurrent),
            Command::ShutdownShard { shard_id, .. } => self.shutdown_shard(shard_id),
            Command::Shutdown => self.shutdown_all(),
            Command::SetShardTotal(total) => QueuerState { shard_total: total, ..self },
            Command::ContainsShard { .. } => self,
            Command::LatencyInfo => self,
        }
    }

    /// The registered shards, in the order of their numbers.
    pub open spec fn registered(self) -> Seq<ShardId> {
        Seq::new(0x1_0000, |i: int| ShardId(i as u16)).filter(|s: ShardId| self.has(s))
    }

    /// What the caller is to do at a command: stop the worker of a
    /// registered shard that is shut down; at the command to shut every shard
    /// down, stop the workers of all registered shards, one after another in
    /// the order of their numbers, and end.
    pub open spec fn actions(self, command: Command) -> Seq<QueuerAction> {
        match command {
            Command::ShutdownShard { shard_id, code } => if self.has(shard_id) {
                seq![QueuerAction::StopWorker { shard_id, code }]
            } else {
                Seq::empty()
            },
            Command::Shutdown => self.registered().map_values(
                |shard_id: ShardId| QueuerAction::StopWorker { shard_id, code: NORMAL_CLOSE_CODE },
            ).push(QueuerAction::Exit),
            _ => Seq::empty(),
        }
    }

    /// Whether a bucket may be started at time `now`: a shard waits, and the
    /// delay since the last start has passed.
    pub open spec fn may_launch(self, now: u64) -> bool {
        self.pending.len() > 0 && now >= ready_at(self.last_start)
    }

    /// The shards that are started next: those of the bucket of the shard
    /// that waits first.
    pub open spec fn next_batch(self) -> Seq<ShardId> {
        self.pending.filter(
            of_bucket(
                self.max_concurrency,
                bucket_of(self.pending[0].0 as int, self.max_concurrency as int),
            ),
        )
    }

    /// The state after the next bucket was launched at time `now`: its
    /// shards are registered as starting and wait no longer.
    pub open spec fn launch(self, now: u64) -> QueuerState {
        let batch = self.next_batch();
        QueuerState {
            pending: self.pending.filter(
                not_of_bucket(
                    self.max_concurrency,
                    bucket_of(self.pending[0].0 as int, self.max_concurrency as int),
                ),
            ),
            runners: Map::new(
                |k: u16| self.runners.dom().contains(k) || batch.contains(ShardId(k)),
                |k: u16|
                    if batch.contains(ShardId(k)) {
                        fresh_runner()
                    } else {
                        self.runners[k]
                    },
            ),
            last_start: Some(now),
            ..self
        }
    }

    /// The state after a worker reported a successful handshake: a shard
    /// that was starting is connected.
    pub open spec fn connected(self, shard_id: ShardId) -> QueuerState {
        if self.phase(shard_id) == ShardPhase::Starting {
            QueuerState {
                runners: self.runners.insert(
                    shard_id.0,
                    ShardRunnerInfo {
                        stage: ShardStage::Connected,
                        latency: self.runners[shard_id.0].latency,
                    },
                ),
                ..self
            }
        } else {
            self
        }
    }

    /// The state after a worker reported that its handshake failed: a shard
    /// that was starting waits again, behind the others.
    pub open spec fn failed(self, shard_id: ShardId) -> QueuerState {
        if self.phase(shard_id) == ShardPhase::Starting {
            QueuerState {
                runners: self.runners.remove(shard_id.0),
                pending: if self.pending.contains(shard_id) {
                    self.pending
                } else {
                    self.pending.push(shard_id)
                },
                ..self
            }
        } else {
            self
        }
    }

    /// The state after a worker reported that it stopped: its record is
    /// gone.
    pub open spec fn stopped(self, shard_id: ShardId) -> QueuerState {
        QueuerState { runners: self.runners.remove(shard_id.0), ..self }
    }

    /// The state after a worker reported its latency.
    pub open spec fn with_latency(self, shard_id: ShardId, latency: u64) -> QueuerState {
        if self.has(shard_id) {
            QueuerState {
                runners: self.runners.insert(
                    shard_id.0,
                    ShardRunnerInfo {
                        stage: self.runners[shard_id.0].stage,
                        latency: Some(latency),
                    },
                ),
                ..self
            }
        } else {
            self
        }
    }
}

/// An acknowledgement that is owed once the worker of a shard has stopped.
pub struct PendingAck {
    /// The shard whose shutdown is to be acknowledged.
    pub shard_id: ShardId,
    /// The channel on which the acknowledgement goes out.
    pub resp: oneshot::Sender<()>,
}

/// The test for the acknowledgements that are owed for other shards than
/// `shard_id`.
pub open spec fn owed_for_others(shard_id: ShardId) -> spec_fn(PendingAck) -> bool {
    |ack: PendingAck| ack.shard_id != shard_id
}

/// The acknowledgements that are owed after a message was taken by a queuer
/// that owed `owed`: the shutdown of a registered shard that carries a
/// channel adds one, behind the others; every other message adds none. The
/// shutdown of a shard that is not registered is acknowledged at once, so
/// that nothing is owed for it.
pub open spec fn owed_after(
    owed: Seq<PendingAck>,
    registered: bool,
    message: ShardQueuerMessage,
) -> Seq<PendingAck> {
    match message {
        ShardQueuerMessage::ShutdownShard { shard_id, resp: Some(resp), .. } => if registered {
            owed.push(PendingAck { shard_id, resp })
        } else {
            owed
        },
        _ => owed,
    }
}

/// Owns the queue and the registry.
pub struct ShardQueuer {
    queue: ShardQueue,
    /// The record of shard `k` stands at index `k`; a shard beyond the end
    /// has none.
    runners: Vec<Option<ShardRunnerInfo>>,
    acks: Vec<PendingAck>,
    shard_total: u16,
    last_start: Option<u64>,
}

/// All shard numbers in their order.
pub open spec fn all_shards() -> Seq<ShardId> {
    Seq::new(0x1_0000, |i: int| ShardId(i as u16))
}

impl View for ShardQueuer {
    type V = QueuerState;

    closed spec fn view(&self) -> QueuerState {
        QueuerState {
            max_concurrency: self.queue.max_concurrency(),
            pending: self.queue.pending(),
            runners: Map::new(
                |k: u16| k < self.runners@.len() && self.runners@[k as int] is Some,
                |k: u16| self.runners@[k as int].unwrap(),
            ),
            shard_total: self.shard_total,
            last_start: self.last_start,
        }
    }
}

impl ShardQueuer {
    /// The state is well formed and the registry is no longer than there are
    /// shard numbers.
    pub closed spec fn wf(&self) -> bool {
        self.queue.wf() && self.runners@.len() <= 0x1_0000
    }

    /// The acknowledgements that are owed, the oldest first: one for each
    /// shutdown of a registered shard that came with a channel and whose
    /// worker has not yet reported that it stopped.
    pub closed spec fn owed(&self) -> Seq<PendingAck> {
        self.acks@
    }

    /// A well-formed queuer has a well-formed state.
    pub proof fn lemma_wf_state(&self)
        requires
            self.wf(),
        ensures
            self@.wf(),
    {
    }

    /// A queuer in which no shard waits and none is registered.
    pub fn new(max_concurrency: u16, shard_total: u16) -> (queuer: Self)
        requires
            max_concurrency > 0,
        ensures
            queuer.wf(),
            queuer@ == (QueuerState {
                max_concurrency,
                pending: Seq::empty(),
                runners: Map::empty(),
                shard_total,
                last_start: None,
            }),
            queuer.owed().len() == 0,
    {
        let queuer = ShardQueuer {
            queue: ShardQueue::new(max_concurrency),
            runners: Vec::new(),
            acks: Vec::new(),
            shard_total,
            last_start: None,
        };
        assert(queuer@.runners =~= Map::<u16, ShardRunnerInfo>::empty());
        queuer
    }

    /// The number of shards that new workers announce.
    pub fn shard_total(&self) -> (total: u16)
        ensures
            total == self@.shard_total,
    {
        self.shard_total
    }

    /// The record of a shard, if it is registered.
    pub fn runner(&self, shard_id: ShardId) -> (info: Option<ShardRunnerInfo>)
        ensures
            info == if self@.has(shard_id) {
                Some(self@.runners[shard_id.0])
            } else {
                None
            },
    {
        let k = shard_id.0 as usize;
        if k < self.runners.len() {
            self.runners[k]
        } else {
            None
        }
    }

    /// Whether the shard is registered. A shard that only waits in the queue
    /// is not.
    pub fn has(&self, shard_id: ShardId) -> (registered: bool)
        ensures
            registered == self@.has(shard_id),
    {
        self.runner(shard_id).is_some()
    }

    /// Where the shard stands.
    pub fn phase(&self, shard_id: ShardId) -> (phase: ShardPhase)
        ensures
            phase == self@.phase(shard_id),
    {
        match self.runner(shard_id) {
            Some(info) => match info.stage {
                ShardStage::Starting => ShardPhase::Starting,
                ShardStage::Connected => ShardPhase::Connected,
                ShardStage::ShuttingDown => ShardPhase::ShuttingDown,
            },
            None => if self.queue.contains(shard_id) {
                ShardPhase::Queued
            } else {
                ShardPhase::Unstarted
            },
        }
    }

    /// Puts `info` in the place of the record of shard `k`, or takes the
    /// record away.
    fn set_runner(&mut self, k: u16, info: Option<ShardRunnerInfo>)
        requires
            old(self).wf(),
        ensures
            final(self).wf(),
            final(self)@ == (QueuerState {
                runners: match info {
                    Some(info) => old(self)@.runners.insert(k, info),
                    None => old(self)@.runners.remove(k),
                },
                ..old(self)@
            }),
            final(self).owed() == old(self).owed(),
    {
        while self.runners.len() <= k as usize
            invariant
                self.wf(),
                self.owed() == old(self).owed(),
                self@ == old(self)@,
            decreases 0x1_0000 - self.runners@.len(),
        {
            let ghost before = self@;
            self.runners.push(None);
            assert(self@.runners =~= before.runners);
        }
        let ghost before = self@;
        self.runners.set(k as usize, info);
        proof {
            match info {
                Some(i) => assert(self@.runners =~= before.runners.insert(k, i)),
                None => assert(self@.runners =~= before.runners.remove(k)),
            }
        }
    }

    /// The registered shards with their records, in the order of their
    /// numbers.
    pub fn latency_info(&self) -> (infos: Vec<(ShardId, ShardRunnerInfo)>)
        requires
            self.wf(),
        ensures
            infos@ == self@.registered().map_values(|s: ShardId| (s, self@.runners[s.0])),
    {
        let ghost has = |s: ShardId| self@.has(s);
        let ghost pair = |s: ShardId| (s, self@.runners[s.0]);
        let mut infos: Vec<(ShardId, ShardRunnerInfo)> = Vec::new();
        let mut i: u32 = 0;
        proof {
            assert(all_shards().take(0).filter(has) =~= Seq::<ShardId>::empty());
        }
        while i < 0x1_0000
            invariant
                i <= 0x1_0000,
                has == |s: ShardId| self@.has(s),
                pair == |s: ShardId| (s, self@.runners[s.0]),
                infos@ == all_shards().take(i as int).filter(has).map_values(pair),
            decreases 0x1_0000 - i,
        {
            let shard = ShardId(i as u16);
            proof {
                lemma_filter_step(all_shards(), i as int, has);
                assert(all_shards()[i as int] == shard);
            }
            if let Some(info) = self.runner(shard) {
                infos.push((shard, info));
                assert(infos@ =~= all_shards().take(i + 1).filter(has).map_values(pair));
            }
            i = i + 1;
        }
        proof {
            assert(all_shards().take(0x1_0000) == all_shards());
        }
        infos
    }

    /// Marks every registered shard as shutting down and lists the workers
    /// to stop.
    fn stop_all(&mut self) -> (actions: Vec<QueuerAction>)
        requires
            old(self).wf(),
        ensures
            final(self).wf(),
            final(self)@ == (QueuerState {
                runners: old(self)@.shutdown_all().runners,
                ..old(self)@
            }),
            actions@ == old(self)@.registered().map_values(
                |shard_id: ShardId| QueuerAction::StopWorker { shard_id, code: NORMAL_CLOSE_CODE },
            ),
            final(self).owed() == old(self).owed(),
    {
        let ghost has = |s: ShardId| old(self)@.has(s);
        let ghost stop = |shard_id: ShardId|
            QueuerAction::StopWorker { shard_id, code: NORMAL_CLOSE_CODE };
        let mut actions: Vec<QueuerAction> = Vec::new();
        let mut i: u32 = 0;
        proof {
            assert(all_shards().take(0).filter(has) =~= Seq::<ShardId>::empty());
        }
        while i < 0x1_0000
            invariant
                i <= 0x1_0000,
                self.wf(),
                self.owed() == old(self).owed(),
                has == |s: ShardId| old(self)@.has(s),
                stop == |shard_id: ShardId|
                    (QueuerAction::StopWorker { shard_id, code: NORMAL_CLOSE_CODE }),
                actions@ == all_shards().take(i as int).filter(has).map_values(stop),
                self@.max_concurrency == old(self)@.max_concurrency,
                self@.pending == old(self)@.pending,
                self@.shard_total == old(self)@.shard_total,
                self@.last_start == old(self)@.last_start,
                self@.runners.dom() == old(self)@.runners.dom(),
                forall|k: u16|
                    #![trigger self@.runners[k]]
                    old(self)@.runners.dom().contains(k) ==> self@.runners[k] == if k < i {
                        (ShardRunnerInfo {
                            stage: ShardStage::ShuttingDown,
                            latency: old(self)@.runners[k].latency,
                        })
                    } else {
                        old(self)@.runners[k]
                    },
            decreases 0x1_0000 - i,
        {
            let shard = ShardId(i as u16);
            proof {
                lemma_filter_step(all_shards(), i as int, has);
                assert(all_shards()[i as int] == shard);
            }
            if let Some(info) = self.runner(shard) {
                let ghost before = self@;
                self.set_runner(
                    shard.0,
                    Some(ShardRunnerInfo { stage: ShardStage::ShuttingDown, latency: info.latency }),
                );
                actions.push(QueuerAction::StopWorker { shard_id: shard, code: NORMAL_CLOSE_CODE });
                proof {
                    assert(self@.runners.dom() =~= before.runners.dom());
                    assert(actions@ =~= all_shards().take(i + 1).filter(has).map_values(stop));
                }
            }
            i = i + 1;
        }
        proof {
            assert(all_shards().take(0x1_0000) == all_shards());
            assert(self@.runners =~= old(self)@.shutdown_all().runners);
        }
        actions
    }

    /// Takes a command of the manager, answers it where it asks for an
    /// answer, and says what the caller is to do. The acknowledgement of the
    /// shutdown of a registered shard is owed until its worker reports that
    /// it stopped; that of a shard that is not registered is given at once.
    pub fn handle(&mut self, message: ShardQueuerMessage) -> (actions: Vec<QueuerAction>)
        requires
            old(self).wf(),
        ensures
            final(self).wf(),
            final(self)@ == old(self)@.after(message.command()),
            actions@ == old(self)@.actions(message.command()),
            final(self).owed() == owed_after(
                old(self).owed(),
                old(self)@.has(message->ShutdownShard_shard_id),
                message,
            ),
    {
        match message {
            ShardQueuerMessage::Start { shard_id, concurrent } => {
                if concurrent {
                    self.queue.push_back(shard_id);
                } else {
                    self.queue.push_front(shard_id);
                }
                assert(self@ == old(self)@.start(shard_id, concurrent));
                Vec::new()
            },
            ShardQueuerMessage::ShutdownShard { shard_id, code, resp } => {
                self.queue.remove(shard_id);
                let mut actions: Vec<QueuerAction> = Vec::new();
                match self.runner(shard_id) {
                    Some(info) => {
                        self.set_runner(
                            shard_id.0,
                            Some(
                                ShardRunnerInfo {
                                    stage: ShardStage::ShuttingDown,
                                    latency: info.latency,
                                },
                            ),
                        );
                        if let Some(resp) = resp {
                            self.acks.push(PendingAck { shard_id, resp });
                        }
                        actions.push(QueuerAction::StopWorker { shard_id, code });
                    },
                    None => {
                        if let Some(resp) = resp {
                            fulfil(resp, ());
                        }
                    },
                }
                assert(self@ == old(self)@.shutdown_shard(shard_id));
                actions
            },
            ShardQueuerMessage::Shutdown => {
                let mut actions = self.stop_all();
                self.queue = ShardQueue::new(self.queue_max_concurrency());
                actions.push(QueuerAction::Exit);
                assert(self@.pending =~= Seq::<ShardId>::empty());
                assert(self@ == old(self)@.shutdown_all());
                actions
            },
            ShardQueuerMessage::SetShardTotal(total) => {
                self.shard_total = total;
                Vec::new()
            },
            ShardQueuerMessage::ContainsShard { shard_id, resp } => {
                let registered = self.has(shard_id);
                fulfil(resp, registered);
                Vec::new()
            },
            ShardQueuerMessage::LatencyInfo(resp) => {
                let infos = self.latency_info();
                fulfil(resp, infos);
                Vec::new()
            },
        }
    }

    /// The maximum concurrency by which buckets are told apart.
    fn queue_max_concurrency(&self) -> (max_concurrency: u16)
        requires
            self.wf(),
        ensures
            max_concurrency == self@.max_concurrency,
            max_concurrency > 0,
    {
        self.queue.calculate_bucket_divisor()
    }
}

impl ShardQueuer {
    /// Decides whether shards are to be started at time `now`. If a shard
    /// waits and the delay since the last start has passed, the shards of the
    /// next bucket are registered as starting and handed out; the caller
    /// starts a worker for each and reports how each fared.
    pub fn next_start(&mut self, now: u64) -> (decision: StartDecision)
        requires
            old(self).wf(),
        ensures
            final(self).wf(),
            match decision {
                StartDecision::Idle => old(self)@.pending.len() == 0 && final(self)@ == old(
                    self,
                )@,
                StartDecision::WaitUntil(at) => old(self)@.pending.len() > 0 && now < at && at
                    == ready_at(old(self)@.last_start) && final(self)@ == old(self)@,
                StartDecision::Start(batch) => old(self)@.may_launch(now) && batch@ == old(
                    self,
                )@.next_batch() && final(self)@ == old(self)@.launch(now),
            },
            final(self).owed() == old(self).owed(),
    {
        if self.queue.is_empty() {
            return StartDecision::Idle;
        }
        let ready = match self.last_start {
            Some(at) => at.saturating_add(WAIT_BETWEEN_BOOTS_MS),
            None => 0,
        };
        if now < ready {
            return StartDecision::WaitUntil(ready);
        }
        let batch = self.queue.pop_batch();
        let ghost popped = self@;
        let mut i: usize = 0;
        while i < batch.len()
            invariant
                i <= batch@.len(),
                self.wf(),
                self.owed() == old(self).owed(),
                self@.max_concurrency == popped.max_concurrency,
                self@.pending == popped.pending,
                self@.shard_total == popped.shard_total,
                self@.last_start == popped.last_start,
                self@.runners == Map::new(
                    |k: u16|
                        popped.runners.dom().contains(k) || batch@.take(i as int).contains(
                            ShardId(k),
                        ),
                    |k: u16|
                        if batch@.take(i as int).contains(ShardId(k)) {
                            fresh_runner()
                        } else {
                            popped.runners[k]
                        },
                ),
            decreases batch@.len() - i,
        {
            let shard = batch[i];
            self.set_runner(
                shard.0,
                Some(ShardRunnerInfo { stage: ShardStage::Starting, latency: None }),
            );
            proof {
                let before = batch@.take(i as int);
                let now_taken = batch@.take(i + 1);
                assert(now_taken == before.push(shard));
                assert forall|s: ShardId| now_taken.contains(s) <==> before.contains(s) || s
                    == shard by {
                    if before.contains(s) {
                        let j = choose|j: int| 0 <= j < before.len() && before[j] == s;
                        assert(now_taken[j] == s);
                    }
                    if s == shard {
                        assert(now_taken[i as int] == s);
                    }
                }
                assert(self@.runners =~= Map::new(
                    |k: u16| popped.runners.dom().contains(k) || now_taken.contains(ShardId(k)),
                    |k: u16|
                        if now_taken.contains(ShardId(k)) {
                            fresh_runner()
                        } else {
                            popped.runners[k]
                        },
                ));
            }
            i = i + 1;
        }
        self.last_start = Some(now);
        proof {
            assert(batch@.take(i as int) == batch@);
            assert(self@.runners =~= old(self)@.launch(now).runners);
        }
        StartDecision::Start(batch)
    }

    /// Takes the report that the worker of a shard has completed its
    /// handshake: a shard that was starting is connected. The report leaves
    /// a shard in any other phase as it is.
    pub fn worker_connected(&mut self, shard_id: ShardId)
        requires
            old(self).wf(),
        ensures
            final(self).wf(),
            final(self)@ == old(self)@.connected(shard_id),
            final(self).owed() == old(self).owed(),
    {
        if let Some(info) = self.runner(shard_id) {
            if info.stage == ShardStage::Starting {
                self.set_runner(
                    shard_id.0,
                    Some(ShardRunnerInfo { stage: ShardStage::Connected, latency: info.latency }),
                );
            }
        }
    }

    /// Takes the report that the handshake of the worker of a shard has
    /// failed: a shard that was starting waits again, behind the others, and
    /// will be started with a later bucket.
    pub fn worker_failed(&mut self, shard_id: ShardId)
        requires
            old(self).wf(),
        ensures
            final(self).wf(),
            final(self)@ == old(self)@.failed(shard_id),
            final(self).owed() == old(self).owed(),
    {
        if let Some(info) = self.runner(shard_id) {
            if info.stage == ShardStage::Starting {
                self.set_runner(shard_id.0, None);
                self.queue.push_back(shard_id);
            }
        }
    }

    /// Takes the report that the worker of a shard has stopped: the record
    /// of the shard is removed, and every acknowledgement that is owed for
    /// its shutdown is given, each on its own channel and each once, so that
    /// none is owed for the shard any more. What is owed for other shards
    /// stays owed, in its order.
    pub fn worker_stopped(&mut self, shard_id: ShardId)
        requires
            old(self).wf(),
        ensures
            final(self).wf(),
            final(self)@ == old(self)@.stopped(shard_id),
            final(self).owed() == old(self).owed().filter(owed_for_others(shard_id)),
    {
        self.set_runner(shard_id.0, None);
        let ghost before = self.acks@;
        let ghost others = owed_for_others(shard_id);
        let ghost mut seen: int = 0;
        let mut i: usize = 0;
        proof {
            assert(before.take(0).filter(others) =~= Seq::<PendingAck>::empty());
            assert(self.acks@.take(0) =~= Seq::<PendingAck>::empty());
            assert(self.acks@.skip(0) =~= before.skip(0));
        }
        while i < self.acks.len()
            invariant
                self.wf(),
                self@ == old(self)@.stopped(shard_id),
                before == old(self).owed(),
                others == owed_for_others(shard_id),
                0 <= seen <= before.len(),
                i <= self.acks@.len(),
                self.acks@.len() - i == before.len() - seen,
                self.acks@.take(i as int) == before.take(seen).filter(others),
                self.acks@.skip(i as int) == before.skip(seen),
            decreases self.acks@.len() - i,
        {
            let ghost held = self.acks@;
            proof {
                lemma_filter_step(before, seen, others);
                assert(held[i as int] == held.skip(i as int)[0]);
                assert(before[seen] == before.skip(seen)[0]);
            }
            if self.acks[i].shard_id.0 == shard_id.0 {
                let ack = self.acks.remove(i);
                fulfil(ack.resp, ());
                proof {
                    assert(self.acks@.take(i as int) =~= held.take(i as int));
                    assert(self.acks@.skip(i as int) =~= held.skip(i as int).skip(1));
                    assert(before.skip(seen + 1) =~= before.skip(seen).skip(1));
                }
            } else {
                proof {
                    assert(held.take(i + 1) =~= held.take(i as int).push(held[i as int]));
                    assert(held.skip(i + 1) =~= held.skip(i as int).skip(1));
                    assert(before.skip(seen + 1) =~= before.skip(seen).skip(1));
                }
                i = i + 1;
            }
            proof {
                seen = seen + 1;
            }
        }
        proof {
            assert(self.acks@.take(i as int) =~= self.acks@);
            assert(before.take(seen) =~= before);
        }
    }

    /// Takes the latency that the worker of a shard has observed.
    pub fn update_latency(&mut self, shard_id: ShardId, latency: u64)
        requires
            old(self).wf(),
        ensures
            final(self).wf(),
            final(self)@ == old(self)@.with_latency(shard_id, latency),
            final(self).owed() == old(self).owed(),
    {
        if let Some(info) = self.runner(shard_id) {
            self.set_runner(
                shard_id.0,
                Some(ShardRunnerInfo { stage: info.stage, latency: Some(latency) }),
            );
        }
    }
}

/// The state after start commands for the `count` shards from `first` on,
/// in their order.
pub open spec fn start_range(state: QueuerState, first: int, count: nat) -> QueuerState
    decreases count,
{
    if count == 0 {
        state
    } else {
        start_range(state, first, (count - 1) as nat).start(
            ShardId((first + count - 1) as u16),
            true,
        )
    }
}

/// Starting a range of shards leaves each of them queued, unless it is
/// registered already; no shard becomes registered by it, and none leaves
/// the queue.
pub proof fn lemma_start_range_queues(state: QueuerState, first: int, count: nat)
    requires
        state.wf(),
        0 <= first,
        first + count <= 0x1_0000,
    ensures
        start_range(state, first, count).wf(),
        start_range(state, first, count).runners == state.runners,
        start_range(state, first, count).shard_total == state.shard_total,
        start_range(state, first, count).last_start == state.last_start,
        start_range(state, first, count).max_concurrency == state.max_concurrency,
        forall|id: int|
            first <= id < first + count ==> #[trigger] start_range(state, first, count).phase(
                ShardId(id as u16),
            ) == if state.has(ShardId(id as u16)) {
                state.phase(ShardId(id as u16))
            } else {
                ShardPhase::Queued
            },
        forall|s: ShardId|
            state.pending.contains(s) ==> #[trigger] start_range(
                state,
                first,
                count,
            ).pending.contains(s),
    decreases count,
{
    if count > 0 {
        let before = start_range(state, first, (count - 1) as nat);
        let last = ShardId((first + count - 1) as u16);
        let after = before.start(last, true);
        lemma_start_range_queues(state, first, (count - 1) as nat);
        lemma_start_queues(before, last, true);
        assert forall|id: int| first <= id < first + count implies #[trigger] after.phase(
            ShardId(id as u16),
        ) == if state.has(ShardId(id as u16)) {
            state.phase(ShardId(id as u16))
        } else {
            ShardPhase::Queued
        } by {
            let s = ShardId(id as u16);
            if id < first + count - 1 {
                assert(before.phase(s) == if state.has(s) {
                    state.phase(s)
                } else {
                    ShardPhase::Queued
                });
            }
        }
    }
}

/// A start command lets the shard wait and moves no other shard: whoever
/// waited goes on waiting, and the registry is untouched.
pub proof fn lemma_start_queues(state: QueuerState, shard_id: ShardId, concurrent: bool)
    requires
        state.wf(),
    ensures
        state.start(shard_id, concurrent).wf(),
        state.start(shard_id, concurrent).runners == state.runners,
        state.start(shard_id, concurrent).pending.contains(shard_id),
        forall|s: ShardId|
            #[trigger] state.start(shard_id, concurrent).pending.contains(s) <==> s == shard_id
                || state.pending.contains(s),
        !state.has(shard_id) ==> state.start(shard_id, concurrent).phase(shard_id)
            == ShardPhase::Queued,
{
    let after = state.start(shard_id, concurrent);
    if state.pending.contains(shard_id) {
    } else if concurrent {
        assert(after.pending[state.pending.len() as int] == shard_id);
        assert forall|s: ShardId| #[trigger] after.pending.contains(s) <==> s == shard_id
            || state.pending.contains(s) by {
            if state.pending.contains(s) {
                let j = choose|j: int| 0 <= j < state.pending.len() && state.pending[j] == s;
                assert(after.pending[j] == s);
            }
            if after.pending.contains(s) {
                let j = choose|j: int| 0 <= j < after.pending.len() && after.pending[j] == s;
                if j < state.pending.len() {
                    assert(state.pending[j] == s);
                }
            }
        }
        assert(after.pending.no_duplicates()) by {
            assert forall|i: int, j: int|
                0 <= i < after.pending.len() && 0 <= j < after.pending.len() && i
                != j implies after.pending[i] != after.pending[j] by {
                if i < state.pending.len() && j < state.pending.len() {
                } else if i < state.pending.len() {
                    assert(state.pending.contains(state.pending[i]));
                } else if j < state.pending.len() {
                    assert(state.pending.contains(state.pending[j]));
                }
            }
        }
    } else {
        assert(after.pending[0] == shard_id);
        assert forall|s: ShardId| #[trigger] after.pending.contains(s) <==> s == shard_id
            || state.pending.contains(s) by {
            if state.pending.contains(s) {
                let j = choose|j: int| 0 <= j < state.pending.len() && state.pending[j] == s;
                assert(after.pending[j + 1] == s);
            }
            if after.pending.contains(s) {
                let j = choose|j: int| 0 <= j < after.pending.len() && after.pending[j] == s;
                if j > 0 {
                    assert(state.pending[j - 1] == s);
                }
            }
        }
        assert(after.pending.no_duplicates()) by {
            assert forall|i: int, j: int|
                0 <= i < after.pending.len() && 0 <= j < after.pending.len() && i
                != j implies after.pending[i] != after.pending[j] by {
                if i > 0 && j > 0 {
                    assert(after.pending[i] == state.pending[i - 1]);
                    assert(after.pending[j] == state.pending[j - 1]);
                } else if i > 0 {
                    assert(state.pending.contains(state.pending[i - 1]));
                } else if j > 0 {
                    assert(state.pending.contains(state.pending[j - 1]));
                }
            }
        }
    }
}

/// The life cycle of a shard, step by step: a launch moves the shards of
/// the next bucket, and only those, from the queue into the registry as
/// starting; a handshake report connects a starting shard; a shutdown
/// command marks a registered shard as shutting down and calls off a start
/// that waits; the report that the worker stopped removes the record; and a
/// failed handshake lets a starting shard wait again.
pub proof fn lemma_life_cycle(state: QueuerState, shard_id: ShardId, now: u64)
    requires
        state.wf(),
    ensures
        state.phase(shard_id) == ShardPhase::Queued ==> !state.has(shard_id),
        state.may_launch(now) && state.next_batch().contains(shard_id) ==> state.launch(now).phase(
            shard_id,
        ) == ShardPhase::Starting,
        state.may_launch(now) && !state.next_batch().contains(shard_id) ==> state.launch(
            now,
        ).phase(shard_id) == state.phase(shard_id),
        state.may_launch(now) ==> state.launch(now).wf() && state.next_batch().contains(
            state.pending[0],
        ),
        state.phase(shard_id) == ShardPhase::Starting ==> state.connected(shard_id).phase(shard_id)
            == ShardPhase::Connected,
        state.has(shard_id) ==> state.shutdown_shard(shard_id).phase(shard_id)
            == ShardPhase::ShuttingDown,
        !state.has(shard_id) ==> state.shutdown_shard(shard_id).phase(shard_id)
            == ShardPhase::Unstarted,
        state.shutdown_shard(shard_id).wf(),
        !state.stopped(shard_id).has(shard_id),
        state.phase(shard_id) == ShardPhase::Starting ==> state.failed(shard_id).phase(shard_id)
            == ShardPhase::Queued,
        state.failed(shard_id).wf(),
{
    lemma_filter_keeps_distinct(state.pending, other_than(shard_id));
    if state.pending.len() > 0 {
        let bucket = bucket_of(state.pending[0].0 as int, state.max_concurrency as int);
        lemma_filter_keeps_distinct(state.pending, of_bucket(state.max_concurrency, bucket));
        lemma_filter_keeps_distinct(state.pending, not_of_bucket(state.max_concurrency, bucket));
        assert(state.pending.contains(state.pending[0]));
        if state.may_launch(now) {
            let after = state.launch(now);
            if !state.next_batch().contains(shard_id) {
                assert(after.has(shard_id) == state.has(shard_id));
                if !state.has(shard_id) {
                    assert(after.pending.contains(shard_id) == state.pending.contains(shard_id));
                }
            }
        }
    }
    if state.phase(shard_id) == ShardPhase::Starting {
        lemma_start_queues(
            QueuerState { runners: state.runners.remove(shard_id.0), ..state },
            shard_id,
            true,
        );
    }
}

/// The shards that are started together are those that share the bucket of
/// the shard that waits first: whoever waits in that bucket is in the batch,
/// and nobody else is.
pub proof fn lemma_batch_is_bucket(state: QueuerState, shard_id: ShardId)
    requires
        state.wf(),
        state.pending.len() > 0,
    ensures
        state.next_batch().contains(shard_id) <==> state.pending.contains(shard_id) && bucket_of(
            shard_id.0 as int,
            state.max_concurrency as int,
        ) == bucket_of(state.pending[0].0 as int, state.max_concurrency as int),
        state.next_batch().no_duplicates(),
{
    let bucket = bucket_of(state.pending[0].0 as int, state.max_concurrency as int);
    lemma_filter_keeps_distinct(state.pending, of_bucket(state.max_concurrency, bucket));
}

/// After the command to shut every shard down, every registered shard is
/// shutting down and nothing waits.
pub proof fn lemma_shutdown_all(state: QueuerState, shard_id: ShardId)
    requires
        state.wf(),
    ensures
        state.shutdown_all().wf(),
        state.shutdown_all().has(shard_id) == state.has(shard_id),
        state.has(shard_id) ==> state.shutdown_all().phase(shard_id) == ShardPhase::ShuttingDown,
        !state.has(shard_id) ==> state.shutdown_all().phase(shard_id) == ShardPhase::Unstarted,
{
}

} // verus!
