use precise_rate_limiter::primitives::Caller;
use precise_rate_limiter::quota::{Acquisition, FastPath, PendingAcquire, QUEUE_LIMIT};
use precise_rate_limiter::refill::{Refill, RefillTask};
use precise_rate_limiter::serve::{AcquireTask, Attempt, FastAcquireTask, GuardedAttempt};
use precise_rate_limiter::worker::{GuardedNext, Next};
use precise_rate_limiter::{FastQuota, Quota};
use std::sync::Arc;
use std::time::Duration;
use tokio::sync::mpsc::error::TrySendError;
use tokio::sync::{oneshot, RwLock};

fn fair(max_buffer: usize, refill_amount: usize) -> (Arc<Quota>, RefillTask, AcquireTask) {
    Quota::new(max_buffer, refill_amount, Duration::from_millis(100))
}

/// Sends a request for `n` tokens to the queue.
fn submit(quota: &Quota, n: usize) -> oneshot::Receiver<()> {
    assert!(quota.admits(n));
    let PendingAcquire { request, granted } = quota.acquire(n);
    assert_eq!(request.required, n);
    assert!(quota.sender().try_send(request).is_ok());
    granted
}

/// Attempts the request at hand, and tells whether it was granted and what the counter held.
fn attempt(task: &mut AcquireTask) -> (bool, usize) {
    assert_eq!(task.next(), Next::Attempt);
    match task.attempt() {
        Attempt::Granted { update, .. } => {
            assert!(update.stored());
            (true, update.before())
        }
        Attempt::Short { update } => {
            assert!(!update.stored());
            (false, update.before())
        }
    }
}

fn receive(task: &mut AcquireTask) {
    assert_eq!(task.next(), Next::Receive);
    let request = task.receiver().try_recv().unwrap();
    task.received(Some(request));
}

#[test]
fn bucket_is_full_at_first() {
    let (quota, _refill, mut task) = fair(10, 1);
    let _granted = submit(&quota, 10);
    receive(&mut task);
    assert_eq!(attempt(&mut task), (true, 10));
}

#[test]
fn grant_reaches_the_requester() {
    let (quota, _refill, mut task) = fair(10, 1);
    let mut granted = submit(&quota, 4);
    assert!(granted.try_recv().is_err());
    receive(&mut task);
    match task.attempt() {
        Attempt::Granted { delivery, .. } => assert!(delivery.heard()),
        Attempt::Short { .. } => panic!("ten tokens are enough"),
    }
    assert_eq!(granted.try_recv(), Ok(()));
}

#[test]
fn tokens_of_a_requester_that_left_are_taken_all_the_same() {
    let (quota, _refill, mut task) = fair(10, 1);
    drop(submit(&quota, 4));
    receive(&mut task);
    match task.attempt() {
        Attempt::Granted { update, delivery } => {
            assert_eq!(update.before(), 10);
            assert!(!delivery.heard());
        }
        Attempt::Short { .. } => panic!("ten tokens are enough"),
    }
    let _granted = submit(&quota, 1);
    receive(&mut task);
    assert_eq!(attempt(&mut task), (true, 6));
}

#[test]
fn requests_past_the_capacity_are_not_admitted() {
    let (quota, _refill, _task) = fair(10, 1);
    assert!(quota.admits(0));
    assert!(quota.admits(10));
    assert!(!quota.admits(11));
    assert_eq!(quota.max_tokens(), 10);
    let (other, _refill, _task, _lock) = fast(10, 1);
    assert!(other.admits(10));
    assert!(!other.admits(11));
    assert_eq!(other.max_tokens(), 10);
}

#[test]
fn first_tick_adds_nothing() {
    let (quota, mut refill, mut task) = fair(10, 3);
    assert_eq!(refill.refill_interval(), Duration::from_millis(100));
    let _granted = submit(&quota, 10);
    receive(&mut task);
    assert_eq!(attempt(&mut task), (true, 10));
    assert!(matches!(refill.tick(), Refill::Started));
    match refill.tick() {
        Refill::Added { update } => assert_eq!(update.before(), 0),
        _ => panic!("the bucket was empty"),
    }
    match refill.tick() {
        Refill::Added { update } => assert_eq!(update.before(), 3),
        _ => panic!("the bucket was not full"),
    }
}

#[test]
fn refills_stop_at_the_capacity() {
    let (quota, mut refill, mut task) = fair(10, 4);
    let _granted = submit(&quota, 10);
    receive(&mut task);
    assert_eq!(attempt(&mut task), (true, 10));
    refill.tick();
    for before in [0, 4, 8] {
        match refill.tick() {
            Refill::Added { update } => assert_eq!(update.before(), before),
            _ => panic!("the bucket was not full"),
        }
    }
    match refill.tick() {
        Refill::Unchanged { update } => assert_eq!(update.before(), 10),
        _ => panic!("the bucket was full"),
    }
}

#[test]
fn a_refill_of_nothing_changes_nothing() {
    let (quota, mut refill, mut task) = fair(10, 0);
    let _granted = submit(&quota, 7);
    receive(&mut task);
    assert_eq!(attempt(&mut task), (true, 10));
    refill.tick();
    assert!(matches!(refill.tick(), Refill::Unchanged { .. }));
}

#[test]
fn a_refill_wakes_a_waiting_task() {
    let (quota, mut refill, mut task) = fair(1, 1);
    let _first = submit(&quota, 1);
    receive(&mut task);
    assert_eq!(attempt(&mut task), (true, 1));
    let _second = submit(&quota, 1);
    receive(&mut task);
    assert_eq!(attempt(&mut task), (false, 0));
    assert_eq!(task.next(), Next::Wait { millis: 10 });
    refill.tick();
    refill.tick();
    let runtime = tokio::runtime::Builder::new_current_thread().build().unwrap();
    runtime.block_on(task.tokens_available().notified());
    task.woken();
    assert_eq!(attempt(&mut task), (true, 1));
}

#[test]
fn requests_are_granted_in_order() {
    let (quota, mut refill, mut task) = fair(5, 1);
    let mut first = submit(&quota, 5);
    let mut large = submit(&quota, 4);
    let mut small = submit(&quota, 1);
    receive(&mut task);
    assert_eq!(attempt(&mut task), (true, 5));
    assert_eq!(first.try_recv(), Ok(()));
    receive(&mut task);
    refill.tick();
    for tokens in 0..4 {
        // The small request behind the large one is not served before it.
        assert_eq!(attempt(&mut task), (false, tokens));
        assert!(matches!(task.next(), Next::Wait { .. }));
        assert!(large.try_recv().is_err());
        assert!(small.try_recv().is_err());
        refill.tick();
        task.woken();
    }
    assert_eq!(attempt(&mut task), (true, 4));
    assert_eq!(large.try_recv(), Ok(()));
    receive(&mut task);
    assert_eq!(attempt(&mut task), (false, 0));
    refill.tick();
    task.woken();
    assert_eq!(attempt(&mut task), (true, 1));
    assert_eq!(small.try_recv(), Ok(()));
}

#[test]
fn zero_tokens_are_always_to_be_had() {
    let (quota, _refill, mut task) = fair(0, 1);
    let mut granted = submit(&quota, 0);
    receive(&mut task);
    assert_eq!(attempt(&mut task), (true, 0));
    assert_eq!(granted.try_recv(), Ok(()));
}

#[test]
fn rate_is_bounded_and_tokens_are_conserved() {
    let (quota, mut refill, mut task) = fair(10, 3);
    let mut granted = 0;
    let mut left = 10;
    for _ in 0..51 {
        refill.tick();
        let _pending = submit(&quota, 2);
        if task.next() == Next::Receive {
            receive(&mut task);
        } else {
            task.woken();
        }
        let (took, before) = attempt(&mut task);
        assert!(before <= 10);
        if took {
            granted += 2;
            left = before - 2;
        } else {
            left = before;
        }
    }
    // One refill for each tick but the first; some of them were cut at the capacity.
    assert!(granted + left <= 10 + 50 * 3);
    assert_eq!(granted, 102);
}

#[test]
fn queue_holds_its_limit_and_no_more() {
    let (quota, _refill, mut task) = fair(10, 1);
    assert_eq!(QUEUE_LIMIT, 500);
    assert_eq!(quota.sender().max_capacity(), 500);
    let mut waiting = vec![];
    for _ in 0..500 {
        waiting.push(submit(&quota, 1));
    }
    let PendingAcquire { request, granted: _granted } = quota.acquire(1);
    assert!(matches!(quota.sender().try_send(request), Err(TrySendError::Full(_))));
    receive(&mut task);
    let _granted = submit(&quota, 1);
}

#[test]
fn queue_closes_with_the_last_handle() {
    let (quota, _refill, mut task) = fair(10, 1);
    let other = quota.clone();
    drop(quota);
    assert!(!task.receiver().is_closed());
    let _granted = submit(&other, 1);
    drop(other);
    assert!(task.receiver().try_recv().is_ok());
    assert!(task.receiver().try_recv().is_err());
    assert!(task.receiver().is_closed());
}

fn fast(
    max_buffer: usize,
    refill_amount: usize,
) -> (Arc<FastQuota>, RefillTask, FastAcquireTask<'static>, Arc<RwLock<()>>) {
    let (quota, refill, task, lock) =
        FastQuota::new(max_buffer, refill_amount, Duration::from_millis(100));
    (Arc::new(quota), refill, task, lock)
}

/// Tries to take `n` tokens past the queue.
fn try_fast(quota: &Arc<FastQuota>, n: usize) -> FastPath {
    quota.fast_path_acquire(n, &mut Caller::new(quota))
}

/// Asks for `n` tokens.
fn ask(quota: &Arc<FastQuota>, n: usize) -> Acquisition {
    quota.acquire(n, &mut Caller::new(quota))
}

/// Takes `n` tokens past the queue, and tells what the counter held.
fn taken(quota: &Arc<FastQuota>, n: usize) -> usize {
    match try_fast(quota, n) {
        FastPath::Taken { update } => update.before(),
        _ => panic!("the tokens were there"),
    }
}

/// Sends a request for `n` tokens that could not be had at once to the queue.
fn submit_fast(quota: &Arc<FastQuota>, n: usize) -> oneshot::Receiver<()> {
    match ask(quota, n) {
        Acquisition::Queued { pending, .. } => {
            assert_eq!(pending.request.required, n);
            assert!(quota.sender().try_send(pending.request).is_ok());
            pending.granted
        }
        Acquisition::Immediate { .. } => panic!("the tokens were not there"),
    }
}

fn receive_fast(task: &mut FastAcquireTask<'_>) {
    assert_eq!(task.next(), GuardedNext::Receive);
    let request = task.receiver().try_recv().unwrap();
    task.received(Some(request));
}

#[test]
fn fast_path_takes_at_once() {
    let (quota, mut refill, _task, _lock) = fast(10, 2);
    assert_eq!(taken(&quota, 6), 10);
    assert_eq!(taken(&quota, 3), 4);
    match try_fast(&quota, 2) {
        FastPath::Short { update } => assert_eq!(update.before(), 1),
        _ => panic!("one token was left"),
    }
    refill.tick();
    refill.tick();
    assert_eq!(taken(&quota, 2), 3);
    match ask(&quota, 1) {
        Acquisition::Immediate { update } => assert_eq!(update.before(), 1),
        Acquisition::Queued { .. } => panic!("one token was left"),
    }
}

#[test]
fn fast_path_lets_go_of_the_lock() {
    let (quota, _refill, _task, lock) = fast(10, 1);
    assert_eq!(taken(&quota, 1), 10);
    assert!(lock.try_write().is_ok());
}

#[test]
fn slow_path_prepares_a_request() {
    let (quota, _refill, _task, _lock) = fast(10, 1);
    let PendingAcquire { request, mut granted } = quota.slow_path_acquire(7);
    assert_eq!(request.required, 7);
    assert!(request.notify.send(()).is_ok());
    assert_eq!(granted.try_recv(), Ok(()));
}

#[test]
fn fast_path_is_closed_while_the_lock_is_held() {
    let (quota, _refill, _task, lock) = fast(10, 1);
    let guard = lock.try_write().unwrap();
    assert!(matches!(try_fast(&quota, 1), FastPath::Busy { .. }));
    match ask(&quota, 1) {
        Acquisition::Queued { fast_path, pending } => {
            assert!(matches!(fast_path, FastPath::Busy { .. }));
            assert_eq!(pending.request.required, 1);
        }
        Acquisition::Immediate { .. } => panic!("the lock was held"),
    }
    drop(guard);
    assert_eq!(taken(&quota, 1), 10);
}

#[test]
fn nobody_passes_the_queue_under_the_lock() {
    let (quota, mut refill, task, lock) = fast(4, 1);
    let mut task = task;
    assert_eq!(taken(&quota, 4), 4);
    refill.tick();
    let mut first = submit_fast(&quota, 3);
    let mut second = submit_fast(&quota, 1);
    receive_fast(&mut task);
    assert_eq!(task.next(), GuardedNext::Lock);
    task.lock_acquired(lock.try_write().unwrap());
    for tokens in 0..3 {
        match task.attempt() {
            GuardedAttempt::Short { update } => assert_eq!(update.before(), tokens),
            GuardedAttempt::Granted { .. } => panic!("there were too few"),
        }
        refill.tick();
        // There is a token now, but it is for the request at hand.
        assert!(matches!(try_fast(&quota, 1), FastPath::Busy { .. }));
        assert_eq!(task.next(), GuardedNext::Wait { millis: 10 });
        task.woken();
    }
    match task.attempt() {
        GuardedAttempt::Granted { update, delivery, check } => {
            assert_eq!(update.before(), 3);
            assert!(delivery.heard());
            assert!(!check.empty());
        }
        GuardedAttempt::Short { .. } => panic!("three tokens were there"),
    }
    assert_eq!(first.try_recv(), Ok(()));
    assert!(second.try_recv().is_err());
    // Another request is in the queue, so the lock is kept.
    refill.tick();
    assert!(matches!(try_fast(&quota, 1), FastPath::Busy { .. }));
    receive_fast(&mut task);
    assert_eq!(task.next(), GuardedNext::Attempt);
    match task.attempt() {
        GuardedAttempt::Granted { update, check, .. } => {
            assert_eq!(update.before(), 1);
            assert!(check.empty());
        }
        GuardedAttempt::Short { .. } => panic!("one token was there"),
    }
    assert_eq!(second.try_recv(), Ok(()));
    // The queue is empty, so the lock is free again.
    refill.tick();
    assert_eq!(taken(&quota, 1), 1);
}

#[test]
fn a_request_that_is_only_queued_can_be_passed() {
    let (quota, mut refill, task, lock) = fast(4, 2);
    let mut task = task;
    assert_eq!(taken(&quota, 4), 4);
    let _first = submit_fast(&quota, 2);
    refill.tick();
    refill.tick();
    assert_eq!(taken(&quota, 1), 2);
    receive_fast(&mut task);
    task.lock_acquired(lock.try_write().unwrap());
    assert!(matches!(task.attempt(), GuardedAttempt::Short { .. }));
}

#[test]
fn fast_quota_queue_closes_with_the_last_handle() {
    let (quota, _refill, mut task, _lock) = fast(4, 2);
    assert_eq!(quota.sender().max_capacity(), 500);
    assert!(!task.receiver().is_closed());
    drop(quota);
    assert!(task.receiver().is_closed());
}

#[test]
fn limiters_and_tasks_can_be_sent_between_threads() {
    fn shared<T: Send + Sync>() {}
    fn sent<T: Send>() {}
    shared::<Arc<Quota>>();
    shared::<Arc<FastQuota>>();
    sent::<RefillTask>();
    sent::<AcquireTask>();
    sent::<FastAcquireTask<'static>>();
}

#[test]
fn nothing_is_taken_where_the_lock_is_held() {
    let (quota, _refill, _task, lock) = fast(10, 1);
    let guard = lock.try_write().unwrap();
    let mut caller = Caller::new(&quota);
    assert!(matches!(quota.fast_path_acquire(4, &mut caller), FastPath::Busy { .. }));
    assert!(matches!(quota.acquire(4, &mut caller), Acquisition::Queued { .. }));
    drop(guard);
    assert_eq!(taken(&quota, 1), 10);
}

#[test]
fn refills_from_three_of_ten() {
    let (quota, mut refill, mut task) = fair(10, 5);
    let _granted = submit(&quota, 7);
    receive(&mut task);
    assert_eq!(attempt(&mut task), (true, 10));
    assert!(matches!(refill.tick(), Refill::Started));
    let runtime = tokio::runtime::Builder::new_current_thread().enable_time().build().unwrap();
    let woken = |task: &AcquireTask| {
        runtime.block_on(async {
            let limit = Duration::from_millis(1);
            tokio::time::timeout(limit, task.tokens_available().notified()).await.is_ok()
        })
    };
    assert!(!woken(&task));
    match refill.tick() {
        Refill::Added { update } => assert_eq!(update.before(), 3),
        _ => panic!("three of ten were there"),
    }
    assert!(woken(&task));
    match refill.tick() {
        Refill::Added { update } => assert_eq!(update.before(), 8),
        _ => panic!("eight of ten were there"),
    }
    assert!(woken(&task));
    match refill.tick() {
        Refill::Unchanged { update } => assert_eq!(update.before(), 10),
        _ => panic!("the bucket was full"),
    }
    assert!(!woken(&task));
}

#[test]
fn a_caller_leaves_the_lock_free_after_every_call() {
    let (quota, _refill, _task, lock) = fast(3, 1);
    let mut caller = Caller::new(&quota);
    assert!(matches!(quota.fast_path_acquire(2, &mut caller), FastPath::Taken { .. }));
    assert!(lock.try_write().is_ok());
    assert!(matches!(quota.fast_path_acquire(2, &mut caller), FastPath::Short { .. }));
    assert!(lock.try_write().is_ok());
    assert!(matches!(quota.acquire(1, &mut caller), Acquisition::Immediate { .. }));
    assert!(lock.try_write().is_ok());
    assert!(matches!(quota.acquire(1, &mut caller), Acquisition::Queued { .. }));
    assert!(lock.try_write().is_ok());
}

/// A task that has taken the lock for the first of two requests, one token each, and granted it.
fn one_of_two_granted<'a>(
    quota: &Arc<FastQuota>,
    mut refill: RefillTask,
    mut task: FastAcquireTask<'a>,
    lock: &'a RwLock<()>,
) -> FastAcquireTask<'a> {
    taken(quota, 2);
    let _first = submit_fast(quota, 1);
    let _second = submit_fast(quota, 1);
    for _ in 0..3 {
        refill.tick();
    }
    receive_fast(&mut task);
    task.lock_acquired(lock.try_write().unwrap());
    assert!(matches!(task.attempt(), GuardedAttempt::Granted { .. }));
    assert!(lock.try_read().is_err());
    task
}

#[test]
fn lock_is_free_after_the_last_grant() {
    let (quota, refill, task, lock) = fast(2, 1);
    let mut task = one_of_two_granted(&quota, refill, task, &lock);
    receive_fast(&mut task);
    assert!(lock.try_read().is_err());
    assert!(matches!(task.attempt(), GuardedAttempt::Granted { .. }));
    assert!(lock.try_write().is_ok());
    assert_eq!(task.next(), GuardedNext::Receive);
}

#[test]
fn lock_is_free_where_the_task_stops() {
    let (quota, refill, task, lock) = fast(2, 1);
    let mut task = one_of_two_granted(&quota, refill, task, &lock);
    assert_eq!(task.next(), GuardedNext::Receive);
    task.received(None);
    assert!(lock.try_write().is_ok());
    assert_eq!(task.next(), GuardedNext::Stop);
}

#[test]
fn both_limiters_serve_a_queue_alike() {
    let (fair_quota, mut fair_refill, mut fair_task) = fair(3, 1);
    let (fast_quota, mut fast_refill, fast_task, lock) = fast(3, 1);
    let mut fast_task = fast_task;
    let mut fair_granted = vec![];
    let mut fast_granted = vec![];
    for n in [2, 3, 0, 1] {
        fair_granted.push(submit(&fair_quota, n));
        let PendingAcquire { request, granted } = fast_quota.slow_path_acquire(n);
        assert!(fast_quota.sender().try_send(request).is_ok());
        fast_granted.push(granted);
    }
    let mut met = vec![];
    while let Ok(request) = fair_task.receiver().try_recv() {
        fair_task.received(Some(request));
        receive_fast(&mut fast_task);
        if fast_task.next() == GuardedNext::Lock {
            fast_task.lock_acquired(lock.try_write().unwrap());
        }
        loop {
            let (took, before) = attempt(&mut fair_task);
            assert_eq!(fast_task.next(), GuardedNext::Attempt);
            match fast_task.attempt() {
                GuardedAttempt::Granted { update, .. } => {
                    assert_eq!((took, before), (true, update.before()))
                }
                GuardedAttempt::Short { update } => {
                    assert_eq!((took, before), (false, update.before()))
                }
            }
            for (one, other) in fair_granted.iter_mut().zip(fast_granted.iter_mut()) {
                assert_eq!(one.try_recv().is_ok(), other.try_recv().is_ok());
            }
            met.push(before);
            if took {
                break;
            }
            fair_refill.tick();
            fast_refill.tick();
            fair_task.woken();
            fast_task.woken();
        }
    }
    // Two of three; three after two refills, of which the first tick is none; nothing; one more.
    assert_eq!(met, vec![3, 1, 1, 2, 3, 0, 0, 1]);
    assert!(lock.try_write().is_ok());
}
