use precise_rate_limiter::tokens::{refill, take, TokenOp};
use precise_rate_limiter::worker::{
    FifoWorker, GuardedNext, GuardedWorker, Next, Stage, RETRY_MILLIS,
};

#[test]
fn take_all_or_nothing() {
    assert_eq!(take(10, 10), Some(0));
    assert_eq!(take(10, 3), Some(7));
    assert_eq!(take(10, 11), None);
    assert_eq!(take(0, 0), Some(0));
    assert_eq!(take(0, 1), None);
    assert_eq!(take(usize::MAX, usize::MAX), Some(0));
}

#[test]
fn refill_adds_up_to_capacity() {
    assert_eq!(refill(0, 10, 1), Some(1));
    assert_eq!(refill(7, 10, 3), Some(10));
    assert_eq!(refill(8, 10, 3), Some(10));
    assert_eq!(refill(10, 10, 3), None);
    assert_eq!(refill(11, 10, 3), None);
    assert_eq!(refill(5, 10, 0), None);
    assert_eq!(refill(0, 0, 5), None);
}

#[test]
fn refill_amount_past_capacity_is_clamped() {
    assert_eq!(refill(0, 100, 1000), Some(100));
    assert_eq!(refill(1, usize::MAX, usize::MAX), Some(usize::MAX));
}

#[test]
fn operations_apply_to_the_counter() {
    assert_eq!(TokenOp::Take(4).apply(9), Some(5));
    assert_eq!(TokenOp::Take(4).apply(3), None);
    let op = TokenOp::Refill { capacity: 10, refill_amount: 4 };
    assert_eq!(op.apply(3), Some(7));
    assert_eq!(op.apply(8), Some(10));
    assert_eq!(op.apply(10), None);
}

#[test]
fn repeated_refills_fill_up_and_stop() {
    let op = TokenOp::Refill { capacity: 10, refill_amount: 4 };
    let mut tokens = 1;
    let mut seen = vec![];
    while let Some(next) = op.apply(tokens) {
        tokens = next;
        seen.push(tokens);
    }
    assert_eq!(seen, vec![5, 9, 10]);
}

#[test]
fn fifo_worker_retries_until_it_took() {
    let mut worker = FifoWorker::new();
    assert_eq!(worker.next(), Next::Receive);
    worker.received(Some(3));
    assert_eq!(worker.stage, Stage::Ready(3));
    assert_eq!(worker.next(), Next::Attempt);
    worker.attempted(false);
    assert_eq!(worker.stage, Stage::Waiting(3));
    assert_eq!(worker.next(), Next::Wait { millis: 10 });
    worker.woken();
    assert_eq!(worker.next(), Next::Attempt);
    worker.attempted(true);
    assert_eq!(worker.stage, Stage::Idle);
    assert_eq!(worker.next(), Next::Receive);
}

#[test]
fn guarded_worker_locks_before_its_first_attempt() {
    let mut worker = GuardedWorker::new();
    assert_eq!(worker.next(), GuardedNext::Receive);
    worker.received(Some(3));
    assert_eq!(worker.next(), GuardedNext::Lock);
    worker.lock_acquired();
    assert_eq!(worker.next(), GuardedNext::Attempt);
    worker.attempted(false, false);
    assert_eq!(worker.next(), GuardedNext::Wait { millis: RETRY_MILLIS });
    assert!(worker.locked);
    worker.woken();
    assert_eq!(worker.next(), GuardedNext::Attempt);
}

#[test]
fn guarded_worker_keeps_the_lock_until_the_queue_is_empty() {
    let mut worker = GuardedWorker::new();
    worker.received(Some(1));
    worker.lock_acquired();
    worker.attempted(true, false);
    assert!(worker.locked);
    assert_eq!(worker.next(), GuardedNext::Receive);
    worker.received(Some(2));
    assert_eq!(worker.next(), GuardedNext::Attempt);
    worker.attempted(true, true);
    assert!(!worker.locked);
    worker.received(Some(4));
    assert_eq!(worker.next(), GuardedNext::Lock);
}

#[test]
fn workers_stop_at_a_closed_queue() {
    let mut worker = FifoWorker::new();
    worker.received(None);
    assert_eq!(worker.stage, Stage::Stopped);
    assert_eq!(worker.next(), Next::Stop);
    let mut worker = GuardedWorker { stage: Stage::Idle, locked: true };
    worker.received(None);
    assert_eq!(worker.next(), GuardedNext::Stop);
    assert!(!worker.locked);
}
