use futures::channel::oneshot;
use serenity::gateway::shard_manager::{
    CompletionSignal,
    ShardManager,
    ShardManagerOptions,
    ShutdownOutcome,
    ShutdownStep,
    RESTART_CLOSE_CODE,
    SHUTDOWN_TIMEOUT_SECS,
};
use serenity::gateway::shard_queue::ShardQueue;
use serenity::gateway::shard_queuer::{
    Command,
    QueuerAction,
    ShardPhase,
    ShardQueuer,
    ShardQueuerMessage,
    ShardRunnerInfo,
    ShardStage,
    StartDecision,
    NORMAL_CLOSE_CODE,
    WAIT_BETWEEN_BOOTS_MS,
};
use serenity::gateway::ShardId;
use serenity::model::gateway::GatewayIntents;

fn options(max_concurrency: u16, shard_total: u16) -> ShardManagerOptions {
    ShardManagerOptions {
        ws_url: "wss://gateway.example".to_string(),
        shard_total,
        intents: GatewayIntents { bits: 0b1100 },
        presence: None,
        max_concurrency,
    }
}

fn start(queuer: &mut ShardQueuer, id: u16, concurrent: bool) {
    let actions = queuer.handle(ShardQueuerMessage::Start { shard_id: ShardId(id), concurrent });
    assert!(actions.is_empty());
}

fn batch_of(decision: StartDecision) -> Vec<u16> {
    match decision {
        StartDecision::Start(batch) => batch.iter().map(|s| s.0).collect(),
        other => panic!("expected a start, got {:?}", other),
    }
}

#[test]
fn shard_ids_are_bucketed_by_max_concurrency() {
    let queue = ShardQueue::new(4);
    for k in 0..100u16 {
        assert_eq!(queue.calculate_bucket(ShardId(k)), queue.calculate_bucket(ShardId(k + 4)));
        assert_eq!(queue.calculate_bucket(ShardId(k)), k % 4);
    }
    for k in 0..3u16 {
        assert_ne!(queue.calculate_bucket(ShardId(k)), queue.calculate_bucket(ShardId(k + 1)));
    }
    let single = ShardQueue::new(1);
    assert_eq!(single.calculate_bucket(ShardId(0)), single.calculate_bucket(ShardId(9)));
    assert_eq!(ShardQueue::new(16).calculate_bucket(ShardId(65535)), 15);
}

#[test]
fn queue_hands_out_one_bucket_at_a_time() {
    let mut queue = ShardQueue::new(3);
    assert!(queue.is_empty());
    assert!(queue.pop_batch().is_empty());
    for id in [4u16, 0, 1, 7, 3, 2, 4] {
        queue.push_back(ShardId(id));
    }
    // 4 was pushed twice and waits once
    assert_eq!(queue.len(), 6);
    assert!(queue.contains(ShardId(7)));
    assert!(!queue.contains(ShardId(8)));
    // the bucket of the first shard, 4 % 3 == 1, goes first, in order
    assert_eq!(queue.pop_batch(), vec![ShardId(4), ShardId(1), ShardId(7)]);
    assert_eq!(queue.pop_batch(), vec![ShardId(0), ShardId(3)]);
    queue.push_front(ShardId(9));
    queue.remove(ShardId(2));
    assert_eq!(queue.pop_batch(), vec![ShardId(9)]);
    assert!(queue.is_empty());
}

#[test]
fn shard_walks_through_its_life_cycle() {
    let mut queuer = ShardQueuer::new(2, 10);
    let shard = ShardId(3);
    assert_eq!(queuer.phase(shard), ShardPhase::Unstarted);
    start(&mut queuer, 3, true);
    assert_eq!(queuer.phase(shard), ShardPhase::Queued);
    // a shard that only waits is not one that the manager has
    assert!(!queuer.has(shard));
    assert_eq!(batch_of(queuer.next_start(100)), vec![3]);
    assert_eq!(queuer.phase(shard), ShardPhase::Starting);
    assert!(queuer.has(shard));
    queuer.worker_connected(shard);
    assert_eq!(queuer.phase(shard), ShardPhase::Connected);
    queuer.update_latency(shard, 42);
    assert_eq!(
        queuer.runner(shard),
        Some(ShardRunnerInfo { stage: ShardStage::Connected, latency: Some(42) })
    );
    let (tx, mut rx) = oneshot::channel();
    let actions = queuer.handle(ShardQueuerMessage::ShutdownShard {
        shard_id: shard,
        code: 4000,
        resp: Some(tx),
    });
    assert_eq!(actions, vec![QueuerAction::StopWorker { shard_id: shard, code: 4000 }]);
    assert_eq!(queuer.phase(shard), ShardPhase::ShuttingDown);
    // the acknowledgement is owed until the worker reports that it stopped
    assert_eq!(rx.try_recv(), Ok(None));
    queuer.worker_stopped(shard);
    assert_eq!(rx.try_recv(), Ok(Some(())));
    assert_eq!(queuer.phase(shard), ShardPhase::Unstarted);
    assert!(!queuer.has(shard));
}

#[test]
fn buckets_are_started_with_a_delay_between_them() {
    let mut queuer = ShardQueuer::new(2, 4);
    assert!(matches!(queuer.next_start(0), StartDecision::Idle));
    for id in 0..4 {
        start(&mut queuer, id, true);
    }
    // shards 0 and 2 share bucket 0 and start together
    assert_eq!(batch_of(queuer.next_start(1_000)), vec![0, 2]);
    assert_eq!(queuer.phase(ShardId(1)), ShardPhase::Queued);
    // the next bucket has to wait
    match queuer.next_start(1_000 + WAIT_BETWEEN_BOOTS_MS - 1) {
        StartDecision::WaitUntil(at) => assert_eq!(at, 6_000),
        other => panic!("expected a wait, got {:?}", other),
    }
    assert_eq!(queuer.phase(ShardId(1)), ShardPhase::Queued);
    assert_eq!(batch_of(queuer.next_start(6_000)), vec![1, 3]);
    assert!(matches!(queuer.next_start(6_000), StartDecision::Idle));
    assert_eq!(WAIT_BETWEEN_BOOTS_MS, 5_000);
}

#[test]
fn a_start_that_is_not_concurrent_goes_first() {
    let mut queuer = ShardQueuer::new(4, 8);
    start(&mut queuer, 1, true);
    start(&mut queuer, 2, true);
    start(&mut queuer, 7, false);
    assert_eq!(batch_of(queuer.next_start(0)), vec![7]);
    assert_eq!(batch_of(queuer.next_start(5_000)), vec![1]);
}

#[test]
fn failed_handshake_queues_the_shard_again() {
    let mut queuer = ShardQueuer::new(1, 2);
    start(&mut queuer, 0, true);
    assert_eq!(batch_of(queuer.next_start(0)), vec![0]);
    start(&mut queuer, 1, true);
    queuer.worker_failed(ShardId(0));
    assert_eq!(queuer.phase(ShardId(0)), ShardPhase::Queued);
    assert!(!queuer.has(ShardId(0)));
    // the retry keeps to the delay, behind the shard that waited already
    assert!(matches!(queuer.next_start(4_999), StartDecision::WaitUntil(5_000)));
    assert_eq!(batch_of(queuer.next_start(5_000)), vec![1, 0]);
    // a report for a shard that is not starting changes nothing
    queuer.worker_connected(ShardId(0));
    queuer.worker_failed(ShardId(0));
    assert_eq!(queuer.phase(ShardId(0)), ShardPhase::Connected);
    queuer.worker_connected(ShardId(5));
    assert_eq!(queuer.phase(ShardId(5)), ShardPhase::Unstarted);
}

#[test]
fn shutdown_of_a_waiting_shard_calls_the_start_off() {
    let mut queuer = ShardQueuer::new(1, 2);
    start(&mut queuer, 0, true);
    let (tx, mut rx) = oneshot::channel();
    let actions = queuer.handle(ShardQueuerMessage::ShutdownShard {
        shard_id: ShardId(0),
        code: 1000,
        resp: Some(tx),
    });
    assert!(actions.is_empty());
    // nothing runs, so the acknowledgement is given at once
    assert_eq!(rx.try_recv(), Ok(Some(())));
    assert_eq!(queuer.phase(ShardId(0)), ShardPhase::Unstarted);
    assert!(matches!(queuer.next_start(0), StartDecision::Idle));
}

#[test]
fn queuer_answers_questions() {
    let mut queuer = ShardQueuer::new(1, 3);
    start(&mut queuer, 2, true);
    start(&mut queuer, 0, true);
    let (tx, mut rx) = oneshot::channel();
    queuer.handle(ShardQueuerMessage::ContainsShard { shard_id: ShardId(2), resp: tx });
    assert_eq!(rx.try_recv(), Ok(Some(false)));
    assert_eq!(batch_of(queuer.next_start(0)), vec![2, 0]);
    queuer.worker_connected(ShardId(0));
    let (tx, mut rx) = oneshot::channel();
    queuer.handle(ShardQueuerMessage::ContainsShard { shard_id: ShardId(2), resp: tx });
    assert_eq!(rx.try_recv(), Ok(Some(true)));
    let (tx, mut rx) = oneshot::channel();
    queuer.handle(ShardQueuerMessage::LatencyInfo(tx));
    assert_eq!(
        rx.try_recv(),
        Ok(Some(vec![
            (ShardId(0), ShardRunnerInfo { stage: ShardStage::Connected, latency: None }),
            (ShardId(2), ShardRunnerInfo { stage: ShardStage::Starting, latency: None }),
        ]))
    );
    assert_eq!(queuer.shard_total(), 3);
    queuer.handle(ShardQueuerMessage::SetShardTotal(9));
    assert_eq!(queuer.shard_total(), 9);
    assert_eq!(queuer.phase(ShardId(0)), ShardPhase::Connected);
}

#[test]
fn shutdown_stops_every_registered_shard_in_order() {
    let mut queuer = ShardQueuer::new(1, 8);
    for id in [5u16, 1, 3] {
        start(&mut queuer, id, true);
    }
    assert_eq!(batch_of(queuer.next_start(0)), vec![5, 1, 3]);
    start(&mut queuer, 6, true);
    let actions = queuer.handle(ShardQueuerMessage::Shutdown);
    assert_eq!(
        actions,
        vec![
            QueuerAction::StopWorker { shard_id: ShardId(1), code: NORMAL_CLOSE_CODE },
            QueuerAction::StopWorker { shard_id: ShardId(3), code: NORMAL_CLOSE_CODE },
            QueuerAction::StopWorker { shard_id: ShardId(5), code: NORMAL_CLOSE_CODE },
            QueuerAction::Exit,
        ]
    );
    for id in [1u16, 3, 5] {
        assert_eq!(queuer.phase(ShardId(id)), ShardPhase::ShuttingDown);
    }
    assert_eq!(queuer.phase(ShardId(6)), ShardPhase::Unstarted);
    assert!(matches!(queuer.next_start(10_000), StartDecision::Idle));
}

#[test]
fn manager_relays_the_commands_of_an_initialization() {
    let parts = ShardManager::new(options(2, 1));
    let manager = parts.manager;
    let mut queuer = parts.queuer;
    let mut commands = parts.commands;
    assert_eq!(manager.intents(), GatewayIntents { bits: 0b1100 });
    assert_eq!(parts.worker.ws_url, "wss://gateway.example");
    assert_eq!(manager.initialize(2, 3, 5), 4);
    assert_eq!(
        ShardManager::startup_commands(2, 3, 5),
        vec![
            Command::SetShardTotal(5),
            Command::Start { shard_id: ShardId(2), concurrent: true },
            Command::Start { shard_id: ShardId(3), concurrent: true },
            Command::Start { shard_id: ShardId(4), concurrent: true },
        ]
    );
    let mut taken = 0;
    while let Ok(Some(message)) = commands.try_next() {
        assert!(queuer.handle(message).is_empty());
        taken += 1;
    }
    assert_eq!(taken, 4);
    assert_eq!(queuer.shard_total(), 5);
    for id in 2..5u16 {
        assert_eq!(queuer.phase(ShardId(id)), ShardPhase::Queued);
        assert!(!queuer.has(ShardId(id)));
    }
    assert_eq!(queuer.phase(ShardId(1)), ShardPhase::Unstarted);
    assert_eq!(queuer.phase(ShardId(5)), ShardPhase::Unstarted);
}

#[test]
fn manager_asks_and_the_queuer_answers() {
    let parts = ShardManager::new(options(1, 1));
    let manager = parts.manager;
    let mut queuer = parts.queuer;
    let mut commands = parts.commands;
    assert!(manager.boot(ShardId(0), true));
    let mut answer = manager.ask_has(ShardId(0)).unwrap();
    let mut ack = manager.restart_shutdown(ShardId(0)).unwrap();
    assert!(manager.restart_boot(ShardId(0)));
    let mut infos = manager.ask_latency_info().unwrap();

    let start = commands.try_next().unwrap().unwrap();
    queuer.handle(start);
    assert_eq!(batch_of(queuer.next_start(0)), vec![0]);
    let contains = commands.try_next().unwrap().unwrap();
    queuer.handle(contains);
    assert!(ShardManager::has_from(true, answer.try_recv().unwrap()));

    let shutdown = commands.try_next().unwrap().unwrap();
    let actions = queuer.handle(shutdown);
    assert_eq!(
        actions,
        vec![QueuerAction::StopWorker { shard_id: ShardId(0), code: RESTART_CLOSE_CODE }]
    );
    queuer.worker_stopped(ShardId(0));
    assert_eq!(ack.try_recv(), Ok(Some(())));
    let boot = commands.try_next().unwrap().unwrap();
    queuer.handle(boot);
    assert_eq!(queuer.phase(ShardId(0)), ShardPhase::Queued);
    let latency = commands.try_next().unwrap().unwrap();
    queuer.handle(latency);
    assert!(ShardManager::latency_info_from(infos.try_recv().unwrap()).is_empty());

    // once the queuer is gone, nothing is relayed any more
    drop(commands);
    assert!(!manager.shutdown_all());
    assert!(manager.ask_has(ShardId(0)).is_none());
    assert!(manager.request_shutdown(ShardId(0), 1000).is_none());
    assert_eq!(manager.initialize(0, 3, 3), 0);
}

#[test]
fn answers_have_their_defaults() {
    assert!(ShardManager::has_from(true, Some(true)));
    assert!(!ShardManager::has_from(true, Some(false)));
    assert!(!ShardManager::has_from(true, None));
    assert!(!ShardManager::has_from(false, Some(true)));
    assert!(ShardManager::latency_info_from(None).is_empty());
    let given = vec![(ShardId(1), ShardRunnerInfo { stage: ShardStage::Starting, latency: None })];
    assert_eq!(ShardManager::latency_info_from(Some(given.clone())), given);
    assert_eq!(ShardManager::shutdown_outcome(false, false), ShutdownOutcome::NotRelayed);
    assert_eq!(ShardManager::shutdown_outcome(false, true), ShutdownOutcome::NotRelayed);
    assert_eq!(ShardManager::shutdown_outcome(true, true), ShutdownOutcome::Acknowledged);
    assert_eq!(ShardManager::shutdown_outcome(true, false), ShutdownOutcome::TimedOut);
    assert_eq!(RESTART_CLOSE_CODE, 4000);
    assert_eq!(SHUTDOWN_TIMEOUT_SECS, 5);
}

#[test]
fn completion_is_signalled_exactly_once() {
    let parts = ShardManager::new(options(1, 1));
    let mut manager = parts.manager;
    let mut monitor = parts.monitor;
    assert_eq!(manager.signal_completion(), CompletionSignal::Sent);
    assert_eq!(manager.signal_completion(), CompletionSignal::AlreadySignalled);
    assert_eq!(manager.signal_completion(), CompletionSignal::AlreadySignalled);
    assert_eq!(monitor.try_next().unwrap(), Some(Ok(())));
    // nothing else waits on the channel
    assert!(monitor.try_next().is_err());

    let parts = ShardManager::new(options(1, 1));
    let mut manager = parts.manager;
    drop(parts.monitor);
    assert_eq!(manager.signal_completion(), CompletionSignal::Refused);
    assert_eq!(manager.signal_completion(), CompletionSignal::AlreadySignalled);
}

#[test]
fn shutdown_of_everything_goes_step_by_step() {
    let parts = ShardManager::new(options(1, 1));
    let mut sequence = parts.manager.begin_shutdown(vec![ShardId(4), ShardId(2)]);
    assert_eq!(sequence.next_step(), ShutdownStep::ShutdownShard(ShardId(4)));
    assert_eq!(sequence.next_step(), ShutdownStep::ShutdownShard(ShardId(2)));
    assert_eq!(sequence.next_step(), ShutdownStep::NotifyQueuer);
    assert_eq!(sequence.next_step(), ShutdownStep::SignalCompletion);
    assert_eq!(sequence.next_step(), ShutdownStep::Done);
    assert_eq!(sequence.next_step(), ShutdownStep::Done);
    let mut empty = parts.manager.begin_shutdown(vec![]);
    assert_eq!(empty.next_step(), ShutdownStep::NotifyQueuer);
    assert_eq!(empty.next_step(), ShutdownStep::SignalCompletion);
    assert_eq!(empty.next_step(), ShutdownStep::Done);
}

#[test]
fn messages_carry_their_commands() {
    let start = Command::Start { shard_id: ShardId(3), concurrent: false };
    assert!(matches!(
        ShardQueuerMessage::for_command(start),
        Some(ShardQueuerMessage::Start { shard_id: ShardId(3), concurrent: false })
    ));
    assert!(matches!(
        ShardQueuerMessage::for_command(Command::SetShardTotal(9)),
        Some(ShardQueuerMessage::SetShardTotal(9))
    ));
    assert!(matches!(
        ShardQueuerMessage::for_command(Command::Shutdown),
        Some(ShardQueuerMessage::Shutdown)
    ));
    // a command that asks for an answer has no message without its channel
    let asking = [
        Command::ShutdownShard { shard_id: ShardId(1), code: 1000 },
        Command::ContainsShard { shard_id: ShardId(1) },
        Command::LatencyInfo,
    ];
    for command in asking {
        assert!(ShardQueuerMessage::for_command(command).is_none());
    }

    let mut queuer = ShardQueuer::new(1, 1);
    let (message, mut answer) = ShardQueuerMessage::contains_shard(ShardId(4));
    assert!(matches!(message, ShardQueuerMessage::ContainsShard { shard_id: ShardId(4), .. }));
    assert_eq!(answer.try_recv(), Ok(None));
    queuer.handle(message);
    assert_eq!(answer.try_recv(), Ok(Some(false)));

    let (message, mut answer) = ShardQueuerMessage::latency_info();
    assert!(matches!(message, ShardQueuerMessage::LatencyInfo(_)));
    queuer.handle(message);
    assert_eq!(answer.try_recv(), Ok(Some(vec![])));

    let (message, mut ack) = ShardQueuerMessage::shutdown_shard(ShardId(4), 4000);
    assert!(matches!(
        message,
        ShardQueuerMessage::ShutdownShard { shard_id: ShardId(4), code: 4000, resp: Some(_) }
    ));
    queuer.handle(message);
    assert_eq!(ack.try_recv(), Ok(Some(())));
}

#[test]
fn an_answer_is_awaited_only_for_what_was_relayed() {
    let (tx, rx) = oneshot::channel::<bool>();
    let mut waiting = ShardManager::answer_on(true, rx).unwrap();
    tx.send(true).unwrap();
    assert_eq!(waiting.try_recv(), Ok(Some(true)));
    let (tx, rx) = oneshot::channel::<bool>();
    assert!(ShardManager::answer_on(false, rx).is_none());
    // the receiving half is gone, so the answer has nowhere to go
    assert_eq!(tx.send(true), Err(true));
}

#[test]
fn restart_shuts_down_with_its_code_and_then_starts_first() {
    assert_eq!(
        ShardManager::restart_commands(ShardId(7)),
        (
            Command::ShutdownShard { shard_id: ShardId(7), code: 4000 },
            Command::Start { shard_id: ShardId(7), concurrent: false },
        )
    );
    let parts = ShardManager::new(options(4, 8));
    let manager = parts.manager;
    let mut queuer = parts.queuer;
    let mut commands = parts.commands;
    for id in [1u16, 7] {
        assert!(manager.boot(ShardId(id), true));
    }
    while let Ok(Some(message)) = commands.try_next() {
        queuer.handle(message);
    }
    assert_eq!(batch_of(queuer.next_start(0)), vec![1]);
    assert_eq!(batch_of(queuer.next_start(5_000)), vec![7]);
    queuer.worker_connected(ShardId(7));
    assert!(manager.boot(ShardId(2), true));

    let mut ack = manager.restart_shutdown(ShardId(7)).unwrap();
    assert!(manager.restart_boot(ShardId(7)));
    let boot = commands.try_next().unwrap().unwrap();
    assert!(matches!(boot, ShardQueuerMessage::Start { shard_id: ShardId(2), concurrent: true }));
    queuer.handle(boot);
    let shutdown = commands.try_next().unwrap().unwrap();
    assert!(matches!(
        shutdown,
        ShardQueuerMessage::ShutdownShard { shard_id: ShardId(7), code: 4000, resp: Some(_) }
    ));
    assert_eq!(
        queuer.handle(shutdown),
        vec![QueuerAction::StopWorker { shard_id: ShardId(7), code: 4000 }]
    );
    let start = commands.try_next().unwrap().unwrap();
    assert!(matches!(start, ShardQueuerMessage::Start { shard_id: ShardId(7), concurrent: false }));
    queuer.handle(start);
    assert_eq!(queuer.phase(ShardId(7)), ShardPhase::ShuttingDown);
    queuer.worker_stopped(ShardId(7));
    assert_eq!(ack.try_recv(), Ok(Some(())));
    assert_eq!(queuer.phase(ShardId(7)), ShardPhase::Queued);
    // the restarted shard goes before the shard that waited already
    assert_eq!(batch_of(queuer.next_start(10_000)), vec![7]);
    assert_eq!(batch_of(queuer.next_start(15_000)), vec![2]);
}

#[test]
fn only_commands_without_an_answer_are_relayed_alone() {
    let parts = ShardManager::new(options(1, 1));
    let manager = parts.manager;
    let mut commands = parts.commands;
    assert!(manager.relay_command(Command::SetShardTotal(3)));
    assert!(manager.relay_command(Command::Shutdown));
    assert!(!manager.relay_command(Command::LatencyInfo));
    assert!(!manager.relay_command(Command::ContainsShard { shard_id: ShardId(0) }));
    assert!(!manager.relay_command(Command::ShutdownShard { shard_id: ShardId(0), code: 1 }));
    assert!(manager.relay_acknowledged(Command::Shutdown).is_none());
    assert!(manager.relay_acknowledged(Command::Start { shard_id: ShardId(0), concurrent: true })
        .is_none());
    assert!(manager
        .relay_acknowledged(Command::ShutdownShard { shard_id: ShardId(0), code: 9 })
        .is_some());
    assert!(matches!(commands.try_next(), Ok(Some(ShardQueuerMessage::SetShardTotal(3)))));
    assert!(matches!(commands.try_next(), Ok(Some(ShardQueuerMessage::Shutdown))));
    assert!(matches!(
        commands.try_next(),
        Ok(Some(ShardQueuerMessage::ShutdownShard { shard_id: ShardId(0), code: 9, resp: Some(_) }))
    ));
    assert!(commands.try_next().is_err());
    assert!(ShardQueuerMessage::acknowledged(Command::LatencyInfo).is_none());
    assert!(matches!(
        ShardQueuerMessage::acknowledged(Command::ShutdownShard { shard_id: ShardId(3), code: 5 }),
        Some((ShardQueuerMessage::ShutdownShard { shard_id: ShardId(3), code: 5, resp: Some(_) }, _))
    ));
}

#[test]
fn acknowledgements_are_owed_until_the_worker_stops() {
    let mut queuer = ShardQueuer::new(1, 4);
    for id in [0u16, 1] {
        start(&mut queuer, id, true);
    }
    assert_eq!(batch_of(queuer.next_start(0)), vec![0, 1]);
    let (first, mut first_ack) = ShardQueuerMessage::shutdown_shard(ShardId(0), 1000);
    let (other, mut other_ack) = ShardQueuerMessage::shutdown_shard(ShardId(1), 1000);
    let (second, mut second_ack) = ShardQueuerMessage::shutdown_shard(ShardId(0), 1001);
    queuer.handle(first);
    queuer.handle(other);
    queuer.handle(second);
    // reports that leave the shard running give no acknowledgement
    queuer.worker_connected(ShardId(0));
    queuer.update_latency(ShardId(0), 5);
    assert!(matches!(queuer.next_start(9_999), StartDecision::Idle));
    assert_eq!(first_ack.try_recv(), Ok(None));
    assert_eq!(second_ack.try_recv(), Ok(None));
    queuer.worker_stopped(ShardId(0));
    // every acknowledgement for the shard is given, and none for the other
    assert_eq!(first_ack.try_recv(), Ok(Some(())));
    assert_eq!(second_ack.try_recv(), Ok(Some(())));
    assert_eq!(other_ack.try_recv(), Ok(None));
    queuer.worker_stopped(ShardId(0));
    assert_eq!(other_ack.try_recv(), Ok(None));
    queuer.worker_stopped(ShardId(1));
    assert_eq!(other_ack.try_recv(), Ok(Some(())));
}
