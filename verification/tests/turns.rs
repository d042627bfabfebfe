use std::collections::VecDeque;
use std::sync::Arc;
use std::task::Context;

use block_production::miner::{ReadinessState, TransactionMiner};
use block_production::task::{Awaiting, BlockProductionTask, Effect, Event};
use block_production::types::{ExecutionStats, MiningFailure, MiningOutcome, TransactionHandle};
use futures::channel::mpsc::{channel, Sender};
use futures::task::noop_waker;

type Outcome = Result<MiningOutcome, MiningFailure>;

/// A pool and a block producer that do as scripted, and a record of what the
/// task did with them.
struct World {
    /// Outcomes that the completion stream has at hand.
    stream: VecDeque<Outcome>,
    /// Outcomes that complete as soon as a batch is enqueued.
    completes_on_enqueue: Vec<Outcome>,
    /// Transactions ready in the pool.
    pool: Vec<u64>,
    pool_queries: usize,
    stream_polls: usize,
    enqueued: Vec<Vec<u64>>,
    mined: Vec<u64>,
    failures: Vec<String>,
}

fn world() -> World {
    World {
        stream: VecDeque::new(),
        completes_on_enqueue: Vec::new(),
        pool: Vec::new(),
        pool_queries: 0,
        stream_polls: 0,
        enqueued: Vec::new(),
        mined: Vec::new(),
        failures: Vec::new(),
    }
}

fn carry_out(world: &mut World, effect: Effect<u64>) {
    match effect {
        Effect::Nothing => {}
        Effect::Mined(outcome) => world.mined.push(outcome.block_number),
        Effect::Failed(failure) => world.failures.push(failure.error),
        Effect::Enqueue(batch) => {
            assert!(!batch.is_empty());
            world.enqueued.push(batch);
            let completed: Vec<Outcome> = world.completes_on_enqueue.drain(..).collect();
            world.stream.extend(completed);
        }
    }
}

/// One scheduling turn: wakes the task and serves it until it yields.
fn turn(task: &mut BlockProductionTask<(), ()>, world: &mut World) {
    let waker = noop_waker();
    let mut cx = Context::from_waker(&waker);
    let woken = task.step::<u64>(Event::Woken);
    carry_out(world, woken);
    for _ in 0..10_000 {
        match task.awaiting() {
            Awaiting::Wake => return,
            Awaiting::Completion => {
                world.stream_polls += 1;
                let answer = world.stream.pop_front();
                let effect = task.step::<u64>(Event::Completion(answer));
                carry_out(world, effect);
            }
            Awaiting::Notification => {
                let _ = task.listen(&mut cx);
            }
            Awaiting::Batch => {
                world.pool_queries += 1;
                let batch: Vec<u64> = world.pool.drain(..).collect();
                let effect = task.step(Event::Batch(batch));
                carry_out(world, effect);
            }
        }
    }
    panic!("the task did not yield");
}

fn handle(n: u8) -> TransactionHandle {
    let mut bytes = [0u8; 32];
    bytes[31] = n;
    TransactionHandle { bytes }
}

fn task_with_sender() -> (BlockProductionTask<(), ()>, Sender<TransactionHandle>) {
    let (tx, rx) = channel::<TransactionHandle>(64);
    (BlockProductionTask::new((), TransactionMiner::new(rx), Arc::new(())), tx)
}

fn mined(block_number: u64, l1_gas_used: u64, cairo_steps_used: u64) -> Outcome {
    Ok(MiningOutcome { block_number, stats: ExecutionStats { l1_gas_used, cairo_steps_used } })
}

fn failed(error: &str) -> Outcome {
    Err(MiningFailure { error: String::from(error) })
}

#[test]
fn first_turn_mines_what_was_in_the_pool_at_startup() {
    let (mut task, _tx) = task_with_sender();
    let mut world = world();
    world.pool = vec![1, 2, 3];
    world.completes_on_enqueue = vec![mined(1, 500, 1000)];

    turn(&mut task, &mut world);

    assert_eq!(world.pool_queries, 1);
    assert_eq!(world.enqueued, vec![vec![1, 2, 3]]);
    assert_eq!(world.mined, vec![1]);
    assert!(world.stream.is_empty());
    assert_eq!(task.metrics().l1_gas_processed_total(), 500);
    assert_eq!(task.metrics().cairo_steps_processed_total(), 1000);
    assert_eq!(task.readiness(), ReadinessState::Empty);
    assert_eq!(task.awaiting(), Awaiting::Wake);
}

#[test]
fn pool_is_not_asked_again_until_notified() {
    let (mut task, mut tx) = task_with_sender();
    let mut world = world();
    world.pool = vec![1, 2];
    turn(&mut task, &mut world);
    assert_eq!(world.pool_queries, 1);
    assert_eq!(world.enqueued, vec![vec![1, 2]]);

    // New transactions without a notification are not looked for.
    world.pool = vec![3];
    for _ in 0..4 {
        turn(&mut task, &mut world);
    }
    assert_eq!(world.pool_queries, 1);
    assert_eq!(world.enqueued, vec![vec![1, 2]]);

    tx.try_send(handle(3)).unwrap();
    turn(&mut task, &mut world);
    assert_eq!(world.pool_queries, 2);
    assert_eq!(world.enqueued, vec![vec![1, 2], vec![3]]);

    turn(&mut task, &mut world);
    assert_eq!(world.pool_queries, 2);
}

#[test]
fn burst_of_notifications_asks_the_pool_once() {
    let (mut task, mut tx) = task_with_sender();
    let mut world = world();
    world.pool = vec![10, 20, 30, 40];
    for n in 0..4u8 {
        tx.try_send(handle(n)).unwrap();
    }
    turn(&mut task, &mut world);
    assert_eq!(world.pool_queries, 1);
    assert_eq!(world.enqueued, vec![vec![10, 20, 30, 40]]);
    turn(&mut task, &mut world);
    assert_eq!(world.pool_queries, 1);
}

#[test]
fn stale_notification_asks_the_pool_turn_after_turn() {
    let (mut task, mut tx) = task_with_sender();
    let mut world = world();
    tx.try_send(handle(1)).unwrap();

    turn(&mut task, &mut world);
    assert_eq!(world.pool_queries, 1);
    assert_eq!(task.readiness(), ReadinessState::Pending);
    turn(&mut task, &mut world);
    assert_eq!(world.pool_queries, 2);
    turn(&mut task, &mut world);
    assert_eq!(world.pool_queries, 3);
    assert_eq!(task.readiness(), ReadinessState::Pending);
    assert!(world.enqueued.is_empty());

    // Until the pool has something again.
    world.pool = vec![5];
    turn(&mut task, &mut world);
    assert_eq!(world.pool_queries, 4);
    assert_eq!(world.enqueued, vec![vec![5]]);
    turn(&mut task, &mut world);
    assert_eq!(world.pool_queries, 4);
}

#[test]
fn enqueued_is_what_the_pool_gave_across_turns() {
    let (mut task, mut tx) = task_with_sender();
    let mut world = world();
    let gave = vec![vec![4u64, 4, 1], vec![9], vec![2, 7]];
    for (n, batch) in gave.iter().enumerate() {
        world.pool = batch.clone();
        tx.try_send(handle(n as u8)).unwrap();
        turn(&mut task, &mut world);
        assert!(world.pool.is_empty());
    }
    assert_eq!(world.enqueued, gave);
    assert_eq!(world.pool_queries, 3);
}

#[test]
fn buffered_outcomes_are_all_drained_before_yielding() {
    let (mut task, _tx) = task_with_sender();
    let mut world = world();
    world.stream = VecDeque::from(vec![mined(1, 1, 10), mined(2, 2, 20), mined(3, 3, 30)]);
    world.pool = vec![1];
    world.completes_on_enqueue = vec![mined(4, 4, 40), mined(5, 5, 50)];

    turn(&mut task, &mut world);

    assert!(world.stream.is_empty());
    assert_eq!(world.mined, vec![1, 2, 3, 4, 5]);
    assert_eq!(task.metrics().l1_gas_processed_total(), 15);
    assert_eq!(task.metrics().cairo_steps_processed_total(), 150);
    // Three buffered, one empty answer, two more after the batch, one empty answer.
    assert_eq!(world.stream_polls, 7);
}

#[test]
fn outcomes_are_drained_before_the_miner_is_asked() {
    let (mut task, _tx) = task_with_sender();
    let mut world = world();
    world.stream = VecDeque::from(vec![mined(1, 7, 70)]);

    let waker = noop_waker();
    let mut cx = Context::from_waker(&waker);
    assert_eq!(task.step::<u64>(Event::Woken), Effect::Nothing);
    assert_eq!(task.awaiting(), Awaiting::Completion);
    let answer = world.stream.pop_front();
    let _ = task.step::<u64>(Event::Completion(answer));
    assert_eq!(task.awaiting(), Awaiting::Completion);
    let answer = world.stream.pop_front();
    assert_eq!(answer, None);
    let _ = task.step::<u64>(Event::Completion(answer));
    assert_eq!(task.awaiting(), Awaiting::Notification);
    assert_eq!(task.listen(&mut cx), None);
    assert_eq!(task.awaiting(), Awaiting::Batch);
}

#[test]
fn failed_blocks_add_nothing_to_the_counters() {
    let (mut task, _tx) = task_with_sender();
    let mut world = world();
    world.stream = VecDeque::from(vec![
        mined(1, 100, 1_000),
        failed("out of steps"),
        mined(2, 20, 200),
        failed("invalid nonce"),
        mined(3, 3, 30),
    ]);

    turn(&mut task, &mut world);

    assert_eq!(world.mined, vec![1, 2, 3]);
    assert_eq!(world.failures, vec![String::from("out of steps"), String::from("invalid nonce")]);
    assert_eq!(task.metrics().l1_gas_processed_total(), 123);
    assert_eq!(task.metrics().cairo_steps_processed_total(), 1_230);
}

#[test]
fn failure_then_success_loses_no_transaction() {
    let (mut task, _tx) = task_with_sender();
    let mut world = world();
    world.pool = vec![1, 2, 3];
    world.completes_on_enqueue = vec![failed("block assembly failed"), mined(9, 11, 22)];

    turn(&mut task, &mut world);

    assert_eq!(world.failures, vec![String::from("block assembly failed")]);
    assert_eq!(world.mined, vec![9]);
    assert_eq!(world.enqueued, vec![vec![1, 2, 3]]);
    assert_eq!(world.pool_queries, 1);
    assert_eq!(task.metrics().l1_gas_processed_total(), 11);
    assert_eq!(task.metrics().cairo_steps_processed_total(), 22);

    turn(&mut task, &mut world);
    assert_eq!(world.enqueued, vec![vec![1, 2, 3]]);
    assert_eq!(world.pool_queries, 1);
}

#[test]
fn counters_carry_over_from_turn_to_turn() {
    let (mut task, _tx) = task_with_sender();
    let mut world = world();
    world.stream = VecDeque::from(vec![mined(1, 5, 50)]);
    turn(&mut task, &mut world);
    assert_eq!(task.metrics().l1_gas_processed_total(), 5);
    world.stream = VecDeque::from(vec![mined(2, 6, 60), mined(3, 7, 70)]);
    turn(&mut task, &mut world);
    assert_eq!(task.metrics().l1_gas_processed_total(), 18);
    assert_eq!(task.metrics().cairo_steps_processed_total(), 180);
    turn(&mut task, &mut world);
    assert_eq!(task.metrics().l1_gas_processed_total(), 18);
    assert_eq!(task.metrics().cairo_steps_processed_total(), 180);
}

#[test]
fn idle_turn_polls_each_side_once() {
    let (mut task, _tx) = task_with_sender();
    let mut world = world();
    turn(&mut task, &mut world);
    assert_eq!(world.stream_polls, 1);
    assert_eq!(world.pool_queries, 1);
    assert_eq!(task.readiness(), ReadinessState::Unknown);
    assert!(world.enqueued.is_empty());
    assert!(world.mined.is_empty());
}
