//! The manager: the facade through which an application starts, restarts
//! and stops shards. It relays commands to the queuer over a channel and
//! signals once, on a channel of its own, that everything was shut down.
//!
//! Whatever waits for an answer or for time to pass is left to the caller;
//! the manager makes the requests and says what each answer means.

use futures::channel::mpsc::{Receiver, Sender, UnboundedReceiver, UnboundedSender};
use futures::channel::oneshot;
use vstd::prelude::*;
use crate::builder::set_activity::PresenceBuilder;
use crate::gateway::channel::{offer, relay};
use crate::gateway::shard_queue::{lemma_filter_keeps_distinct, other_than};
use crate::gateway::shard_queuer::{
    lemma_start_queues,
    lemma_start_range_queues,
    start_range,
    Command,
    QueuerAction,
    QueuerState,
    ShardPhase,
    ShardQueuer,
    ShardQueuerMessage,
    ShardRunnerInfo,
};
use crate::gateway::ShardId;
use crate::model::gateway::GatewayIntents;

verus! {

/// The close code of a shutdown that is followed by a new start.
pub const RESTART_CLOSE_CODE: u16 = 4000;

/// The seconds that a caller waits for the acknowledgement of a shutdown
/// before it goes on without it.
pub const SHUTDOWN_TIMEOUT_SECS: u64 = 5;

/// Why the gateway connection of a shard ended for good.
#[derive(Clone, Copy, Debug, PartialEq, Eq, Structural)]
pub enum GatewayError {
    /// The token was refused.
    InvalidAuthentication,
    /// The shard data of the handshake was refused.
    InvalidShardData,
    /// More shards are needed than were announced.
    OverloadedShard,
    /// An intent was asked for that the application may not have.
    DisallowedGatewayIntents,
}

/// What a manager is made from.
#[derive(Debug)]
pub struct ShardManagerOptions {
    /// The address of the gateway.
    pub ws_url: String,
    /// The number of shards that workers announce.
    pub shard_total: u16,
    /// The intents of every session.
    pub intents: GatewayIntents,
    /// The presence that every session announces.
    pub presence: Option<PresenceBuilder>,
    /// How many shards may identify at a time; positive.
    pub max_concurrency: u16,
}

/// What every worker needs besides the number of its shard.
#[derive(Debug)]
pub struct WorkerOptions {
    pub ws_url: String,
    pub intents: GatewayIntents,
    pub presence: Option<PresenceBuilder>,
}

/// A new manager with everything that belongs to it.
pub struct ManagerParts {
    /// The manager.
    pub manager: ShardManager,
    /// The queuer that the manager commands; its caller runs its loop.
    pub queuer: ShardQueuer,
    /// The channel on which the commands of the manager arrive.
    pub commands: UnboundedReceiver<ShardQueuerMessage>,
    /// The channel on which the manager signals that all is shut down.
    pub monitor: Receiver<Result<(), GatewayError>>,
    /// What the workers are started with.
    pub worker: WorkerOptions,
}

/// Starts, restarts and stops shards by commands to the queuer.
pub struct ShardManager {
    shard_queuer: UnboundedSender<ShardQueuerMessage>,
    gateway_intents: GatewayIntents,
    completion: Sender<Result<(), GatewayError>>,
    completed: bool,
}

/// What became of an attempt to signal completion.
#[derive(Clone, Copy, Debug, PartialEq, Eq, Structural)]
pub enum CompletionSignal {
    /// The signal was put on the channel.
    Sent,
    /// This was the first attempt, but the channel did not take the signal.
    Refused,
    /// Completion was signalled before: nothing was sent.
    AlreadySignalled,
}

/// How the wait for the acknowledgement of a shutdown ended.
#[derive(Clone, Copy, Debug, PartialEq, Eq, Structural)]
pub enum ShutdownOutcome {
    /// The command did not reach the queuer, so nothing was waited for.
    NotRelayed,
    /// The worker stopped in time.
    Acknowledged,
    /// The wait ended without an acknowledgement. The shutdown goes on; this
    /// is worth a warning, not an error.
    TimedOut,
}

/// The commands by which the `count` shards from `first` on are started
/// under a new shard total: the total is set, then each shard is started, in
/// the order of the numbers.
pub open spec fn startup_plan(first: u16, count: u16, shard_total: u16) -> Seq<Command> {
    seq![Command::SetShardTotal(shard_total)] + Seq::new(
        count as nat,
        |i: int| Command::Start { shard_id: ShardId((first + i) as u16), concurrent: true },
    )
}

/// The commands of the restart of a shard: its shutdown with the close code
/// of a restart, then its start, which is not concurrent.
pub open spec fn restart_plan(shard_id: ShardId) -> Seq<Command> {
    seq![
        Command::ShutdownShard { shard_id, code: RESTART_CLOSE_CODE },
        Command::Start { shard_id, concurrent: false },
    ]
}

/// Once the queuer has taken the two commands of a restart, the shard waits
/// before all others. If it was registered its worker is told to stop with
/// the close code of a restart and the shard is shutting down until the
/// worker reports that it stopped; if it was not, it is queued.
pub proof fn lemma_restart_queues_first(state: QueuerState, shard_id: ShardId)
    requires
        state.wf(),
    ensures
        after_all(state, restart_plan(shard_id)).wf(),
        after_all(state, restart_plan(shard_id)).pending.len() > 0,
        after_all(state, restart_plan(shard_id)).pending[0] == shard_id,
        after_all(state, restart_plan(shard_id)).phase(shard_id) == if state.has(shard_id) {
            ShardPhase::ShuttingDown
        } else {
            ShardPhase::Queued
        },
        state.actions(restart_plan(shard_id)[0]) == if state.has(shard_id) {
            seq![QueuerAction::StopWorker { shard_id, code: RESTART_CLOSE_CODE }]
        } else {
            Seq::<QueuerAction>::empty()
        },
        state.has(shard_id) ==> after_all(state, restart_plan(shard_id)).stopped(shard_id).phase(
            shard_id,
        ) == ShardPhase::Queued,
{
    let plan = restart_plan(shard_id);
    let down = state.shutdown_shard(shard_id);
    assert(plan.drop_last() =~= seq![plan[0]]);
    assert(plan.drop_last().drop_last().len() == 0);
    assert(after_all(state, plan.drop_last().drop_last()) == state);
    assert(after_all(state, plan.drop_last()) == down);
    assert(after_all(state, plan) == down.start(shard_id, false));
    lemma_filter_keeps_distinct(state.pending, other_than(shard_id));
    assert(!down.pending.contains(shard_id));
    lemma_start_queues(down, shard_id, false);
    assert(down.start(shard_id, false).pending[0] == shard_id);
}

/// The state of the queuer after a sequence of commands.
pub open spec fn after_all(state: QueuerState, commands: Seq<Command>) -> QueuerState
    decreases commands.len(),
{
    if commands.len() == 0 {
        state
    } else {
        after_all(state, commands.drop_last()).after(commands.last())
    }
}

/// Once the queuer has taken the commands of an initialization, the new
/// shard total is set and every shard of the range waits in the queue,
/// unless it was registered before. No shard is registered by it: a shard
/// that only waits is not one that the manager has.
pub proof fn lemma_initialize_queues(state: QueuerState, first: u16, count: u16, shard_total: u16)
    requires
        state.wf(),
        first + count <= u16::MAX,
    ensures
        after_all(state, startup_plan(first, count, shard_total)).wf(),
        after_all(state, startup_plan(first, count, shard_total)).shard_total == shard_total,
        after_all(state, startup_plan(first, count, shard_total)).runners == state.runners,
        forall|id: int|
            first <= id < first + count && !state.has(ShardId(id as u16)) ==> #[trigger] after_all(
                state,
                startup_plan(first, count, shard_total),
            ).phase(ShardId(id as u16)) == ShardPhase::Queued,
{
    let with_total = QueuerState { shard_total, ..state };
    lemma_plan_is_range(state, first, count, shard_total, count as nat);
    assert(startup_plan(first, count, shard_total).take(count + 1) == startup_plan(
        first,
        count,
        shard_total,
    ));
    lemma_start_range_queues(with_total, first as int, count as nat);
    assert forall|id: int|
        first <= id < first + count && !state.has(ShardId(id as u16)) implies #[trigger] after_all(
        state,
        startup_plan(first, count, shard_total),
    ).phase(ShardId(id as u16)) == ShardPhase::Queued by {
        assert(!with_total.has(ShardId(id as u16)));
        assert(start_range(with_total, first as int, count as nat).phase(ShardId(id as u16))
            == ShardPhase::Queued);
    }
}

/// The first commands of an initialization start the first shards of its
/// range.
proof fn lemma_plan_is_range(state: QueuerState, first: u16, count: u16, shard_total: u16, k: nat)
    requires
        k <= count,
        first + count <= u16::MAX,
    ensures
        after_all(state, startup_plan(first, count, shard_total).take(k as int + 1)) == start_range(
            QueuerState { shard_total, ..state },
            first as int,
            k,
        ),
    decreases k,
{
    let plan = startup_plan(first, count, shard_total);
    let prefix = plan.take(k as int + 1);
    if k == 0 {
        assert(prefix.drop_last().len() == 0);
        assert(prefix.last() == Command::SetShardTotal(shard_total));
        assert(after_all(state, prefix.drop_last()) == state);
    } else {
        lemma_plan_is_range(state, first, count, shard_total, (k - 1) as nat);
        assert(prefix.drop_last() == plan.take(k as int));
        assert(prefix.last() == Command::Start {
            shard_id: ShardId((first + k - 1) as u16),
            concurrent: true,
        });
    }
}

impl ShardManager {
    /// The intents of the sessions.
    pub closed spec fn spec_intents(&self) -> GatewayIntents {
        self.gateway_intents
    }

    /// Whether completion was signalled.
    pub closed spec fn completed(&self) -> bool {
        self.completed
    }

    /// The channel to the queuer.
    pub closed spec fn commands(&self) -> UnboundedSender<ShardQueuerMessage> {
        self.shard_queuer
    }

    /// A manager with its queuer and the receiving halves of its two
    /// channels. Nothing runs yet: the caller starts the loop of the queuer.
    #[must_use]
    pub fn new(opt: ShardManagerOptions) -> (parts: ManagerParts)
        requires
            opt.max_concurrency > 0,
        ensures
            parts.manager.spec_intents() == opt.intents,
            !parts.manager.completed(),
            parts.queuer.wf(),
            parts.queuer@ == (QueuerState {
                max_concurrency: opt.max_concurrency,
                pending: Seq::empty(),
                runners: Map::empty(),
                shard_total: opt.shard_total,
                last_start: None,
            }),
            parts.worker.ws_url == opt.ws_url,
            parts.worker.intents == opt.intents,
            parts.worker.presence == opt.presence,
    {
        let (return_value_tx, return_value_rx) = futures::channel::mpsc::channel(1);
        let (shard_queue_tx, shard_queue_rx) = futures::channel::mpsc::unbounded();
        let manager = ShardManager {
            shard_queuer: shard_queue_tx,
            gateway_intents: opt.intents,
            completion: return_value_tx,
            completed: false,
        };
        let queuer = ShardQueuer::new(opt.max_concurrency, opt.shard_total);
        ManagerParts {
            manager,
            queuer,
            commands: shard_queue_rx,
            monitor: return_value_rx,
            worker: WorkerOptions {
                ws_url: opt.ws_url,
                intents: opt.intents,
                presence: opt.presence,
            },
        }
    }

    /// The intents of the sessions.
    #[must_use]
    pub fn intents(&self) -> (intents: GatewayIntents)
        ensures
            intents == self.spec_intents(),
    {
        self.gateway_intents
    }

    /// The commands of an initialization, in their order.
    pub fn startup_commands(shard_index: u16, shard_init: u16, shard_total: u16) -> (commands:
        Vec<Command>)
        requires
            shard_index + shard_init <= u16::MAX,
        ensures
            commands@ == startup_plan(shard_index, shard_init, shard_total),
    {
        let mut commands: Vec<Command> = Vec::new();
        commands.push(Command::SetShardTotal(shard_total));
        let mut i: u16 = 0;
        while i < shard_init
            invariant
                i <= shard_init,
                shard_index + shard_init <= u16::MAX,
                commands@ == startup_plan(shard_index, shard_init, shard_total).take(i + 1),
            decreases shard_init - i,
        {
            commands.push(Command::Start { shard_id: ShardId(shard_index + i), concurrent: true });
            i = i + 1;
        }
        proof {
            assert(startup_plan(shard_index, shard_init, shard_total).take(shard_init + 1)
                == startup_plan(shard_index, shard_init, shard_total));
        }
        commands
    }

    /// Initializes the shards that the manager is responsible for: relays
    /// the new shard total and then a concurrent start for each of the
    /// `shard_init` shards from `shard_index` on. The result says how many
    /// of these commands the channel took.
    pub fn initialize(&self, shard_index: u16, shard_init: u16, shard_total: u16) -> (relayed:
        usize)
        requires
            shard_index + shard_init <= u16::MAX,
        ensures
            relayed <= shard_init + 1,
    {
        let commands = Self::startup_commands(shard_index, shard_init, shard_total);
        let mut relayed: usize = 0;
        let mut i: usize = 0;
        while i < commands.len()
            invariant
                i <= commands@.len(),
                relayed <= i,
                commands@.len() == shard_init + 1,
            decreases commands@.len() - i,
        {
            let sent = self.relay_command(commands[i]);
            if sent {
                relayed = relayed + 1;
            }
            i = i + 1;
        }
        relayed
    }

    /// Relays a new shard total. The result says whether the channel took
    /// the command.
    pub fn set_shard_total(&self, shard_total: u16) -> (relayed: bool) {
        self.relay_command(Command::SetShardTotal(shard_total))
    }

    /// Relays the start of a shard. The result says whether the channel took
    /// the command.
    pub fn boot(&self, shard_id: ShardId, concurrent: bool) -> (relayed: bool) {
        self.relay_command(Command::Start { shard_id, concurrent })
    }

    /// Asks the queuer whether it has the shard. The result is the channel
    /// on which the answer comes, or nothing if the question did not reach
    /// the queuer.
    pub fn ask_has(&self, shard_id: ShardId) -> (answer: Option<oneshot::Receiver<bool>>) {
        let (message, answer) = ShardQueuerMessage::contains_shard(shard_id);
        let relayed = relay(&self.shard_queuer, message);
        Self::answer_on(relayed, answer)
    }

    /// What the manager says of a shard once the wait for the answer is
    /// over: that it has the shard only if the question was relayed and the
    /// answer came and was yes. A question that was not relayed, a queuer
    /// that went away before it answered, and the answer no all come to the
    /// same: the manager does not have the shard. A shard that only waits in
    /// the queue is answered with no.
    pub fn has_from(relayed: bool, answer: Option<bool>) -> (has: bool)
        ensures
            has == (relayed && answer == Some(true)),
    {
        relayed && match answer {
            Some(yes) => yes,
            None => false,
        }
    }

    /// Asks the queuer for the records of all registered shards. The result
    /// is the channel on which the answer comes, or nothing if the question
    /// did not reach the queuer.
    pub fn ask_latency_info(&self) -> (answer: Option<
        oneshot::Receiver<Vec<(ShardId, ShardRunnerInfo)>>,
    >) {
        let (message, answer) = ShardQueuerMessage::latency_info();
        let relayed = relay(&self.shard_queuer, message);
        Self::answer_on(relayed, answer)
    }

    /// The records that the manager reports once the wait for the answer
    /// is over: those of the answer, or none if no answer came. No answer
    /// comes where the question was not relayed and where the queuer went
    /// away before it answered; the records of an answer are handed on as
    /// they are, in the order of the numbers of the shards.
    pub fn latency_info_from(answer: Option<Vec<(ShardId, ShardRunnerInfo)>>) -> (infos: Vec<
        (ShardId, ShardRunnerInfo),
    >)
        ensures
            answer matches Some(given) ==> infos == given,
            answer is None ==> infos@.len() == 0,
    {
        match answer {
            Some(given) => given,
            None => Vec::new(),
        }
    }

    /// Relays the shutdown of a shard with a close code. The result is the
    /// channel on which the acknowledgement comes once the worker has
    /// stopped, or nothing if the command did not reach the queuer.
    pub fn request_shutdown(&self, shard_id: ShardId, code: u16) -> (ack: Option<
        oneshot::Receiver<()>,
    >) {
        self.relay_acknowledged(Command::ShutdownShard { shard_id, code })
    }

    /// How a shutdown ended for its caller, who goes on in every case: a
    /// command that was not relayed is not waited for; one that was relayed
    /// is acknowledged if the worker stopped within the timeout, and timed
    /// out otherwise. A shutdown that timed out is not a failure: the worker
    /// may still stop later.
    pub fn shutdown_outcome(relayed: bool, acknowledged: bool) -> (outcome: ShutdownOutcome)
        ensures
            outcome == if !relayed {
                ShutdownOutcome::NotRelayed
            } else if acknowledged {
                ShutdownOutcome::Acknowledged
            } else {
                ShutdownOutcome::TimedOut
            },
    {
        if !relayed {
            ShutdownOutcome::NotRelayed
        } else if acknowledged {
            ShutdownOutcome::Acknowledged
        } else {
            ShutdownOutcome::TimedOut
        }
    }

    /// Relays the shutdown that begins the restart of a shard. When the wait
    /// for its acknowledgement is over, however it ended, the caller ends the
    /// restart with [`ShardManager::restart_boot`].
    pub fn restart_shutdown(&self, shard_id: ShardId) -> (ack: Option<oneshot::Receiver<()>>) {
        let (shutdown, _) = Self::restart_commands(shard_id);
        self.relay_acknowledged(shutdown)
    }

    /// Relays the start that ends the restart of a shard: the shard goes
    /// before those that wait.
    pub fn restart_boot(&self, shard_id: ShardId) -> (relayed: bool) {
        let (_, start) = Self::restart_commands(shard_id);
        self.relay_command(start)
    }

    /// Relays the command to shut every shard down and to end. The result
    /// says whether the channel took the command.
    pub fn shutdown_all(&self) -> (relayed: bool) {
        self.relay_command(Command::Shutdown)
    }

    /// Signals that everything was shut down. Only the first call sends;
    /// every later call does nothing and says so.
    pub fn signal_completion(&mut self) -> (signal: CompletionSignal)
        ensures
            final(self).completed(),
            final(self).spec_intents() == old(self).spec_intents(),
            final(self).commands() == old(self).commands(),
            signal == CompletionSignal::AlreadySignalled <==> old(self).completed(),
            old(self).completed() ==> *final(self) == *old(self),
    {
        if self.completed {
            return CompletionSignal::AlreadySignalled;
        }
        self.completed = true;
        if offer(&mut self.completion, Ok(())) {
            CompletionSignal::Sent
        } else {
            CompletionSignal::Refused
        }
    }

    /// The steps by which every shard is shut down, for the shards that are
    /// registered at this moment.
    pub fn begin_shutdown(&self, registered: Vec<ShardId>) -> (sequence: ShutdownSequence)
        ensures
            sequence.shards() == registered@,
            sequence.position() == 0,
    {
        ShutdownSequence { shards: registered, next: 0, closing: 0 }
    }

    /// The two commands of a restart, in their order: the shard is shut
    /// down with the close code of a restart, and then started again, before
    /// the shards that wait.
    pub fn restart_commands(shard_id: ShardId) -> (plan: (Command, Command))
        ensures
            plan.0 == (Command::ShutdownShard { shard_id, code: RESTART_CLOSE_CODE }),
            plan.1 == (Command::Start { shard_id, concurrent: false }),
            seq![plan.0, plan.1] == restart_plan(shard_id),
    {
        let plan = (
            Command::ShutdownShard { shard_id, code: RESTART_CLOSE_CODE },
            Command::Start { shard_id, concurrent: false },
        );
        assert(seq![plan.0, plan.1] =~= restart_plan(shard_id));
        plan
    }

    /// Relays the message of a command that asks for no answer. The result
    /// says whether the channel took it; a command that asks for an answer is
    /// not relayed.
    pub fn relay_command(&self, command: Command) -> (relayed: bool)
        ensures
            relayed ==> ShardQueuerMessage::carries_alone(command),
    {
        match ShardQueuerMessage::for_command(command) {
            Some(message) => relay(&self.shard_queuer, message),
            None => false,
        }
    }

    /// Relays the message of a command to shut one shard down, with a new
    /// channel for its acknowledgement. The result is the receiving half of
    /// that channel, or nothing if the channel to the queuer did not take
    /// the message; no other command is relayed.
    pub fn relay_acknowledged(&self, command: Command) -> (ack: Option<oneshot::Receiver<()>>)
        ensures
            ack is Some ==> command is ShutdownShard,
    {
        match ShardQueuerMessage::acknowledged(command) {
            Some((message, ack)) => {
                let relayed = relay(&self.shard_queuer, message);
                Self::answer_on(relayed, ack)
            },
            None => None,
        }
    }

    /// What a request hands to its caller once the channel to the queuer
    /// has or has not taken the message: the channel on which the answer
    /// comes if the message was relayed, and nothing if it was not, for then
    /// no answer can come.
    pub fn answer_on<T>(relayed: bool, answer: oneshot::Receiver<T>) -> (waiting: Option<
        oneshot::Receiver<T>,
    >)
        ensures
            waiting == if relayed {
                Some(answer)
            } else {
                None
            },
    {
        if relayed {
            Some(answer)
        } else {
            None
        }
    }
}

/// One step of the shutdown of everything.
#[derive(Clone, Copy, Debug, PartialEq, Eq, Structural)]
pub enum ShutdownStep {
    /// Shut this shard down and wait for its acknowledgement, but no longer
    /// than the timeout.
    ShutdownShard(ShardId),
    /// Relay the command to shut every shard down to the queuer.
    NotifyQueuer,
    /// Signal completion.
    SignalCompletion,
    /// Nothing is left to do.
    Done,
}

/// The shutdown of everything, as a sequence of steps that the caller takes
/// one at a time: first the registered shards, one after another, then the
/// queuer, then the completion signal.
#[derive(Debug)]
pub struct ShutdownSequence {
    shards: Vec<ShardId>,
    /// How many shards were handed out.
    next: usize,
    /// How many of the two closing steps were handed out.
    closing: u8,
}

/// The step at `position` of the shutdown of `shards`.
pub open spec fn step_at(shards: Seq<ShardId>, position: int) -> ShutdownStep {
    if position < shards.len() {
        ShutdownStep::ShutdownShard(shards[position])
    } else if position == shards.len() {
        ShutdownStep::NotifyQueuer
    } else if position == shards.len() + 1 {
        ShutdownStep::SignalCompletion
    } else {
        ShutdownStep::Done
    }
}

impl ShutdownSequence {
    /// The closing steps come after the shards, and there are two of them.
    #[verifier::type_invariant]
    spec fn in_order(&self) -> bool {
        &&& self.next <= self.shards@.len()
        &&& self.closing <= 2
        &&& self.closing > 0 ==> self.next == self.shards@.len()
    }

    /// The shards to shut down.
    pub closed spec fn shards(&self) -> Seq<ShardId> {
        self.shards@
    }

    /// How many steps were taken, counted no further than to the end.
    pub closed spec fn position(&self) -> int {
        self.next + self.closing
    }

    /// The next step. After the completion signal every step is `Done`.
    pub fn next_step(&mut self) -> (step: ShutdownStep)
        ensures
            step == step_at(old(self).shards(), old(self).position()),
            final(self).shards() == old(self).shards(),
            final(self).position() == if step == ShutdownStep::Done {
                old(self).position()
            } else {
                old(self).position() + 1
            },
            0 <= old(self).position() <= old(self).shards().len() + 2,
    {
        proof {
            use_type_invariant(&*self);
        }
        if self.next < self.shards.len() {
            let shard = self.shards[self.next];
            self.next = self.next + 1;
            ShutdownStep::ShutdownShard(shard)
        } else if self.closing == 0 {
            self.closing = 1;
            ShutdownStep::NotifyQueuer
        } else if self.closing == 1 {
            self.closing = 2;
            ShutdownStep::SignalCompletion
        } else {
            ShutdownStep::Done
        }
    }
}

} // verus!
