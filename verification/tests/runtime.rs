use precise_rate_limiter::primitives::Caller;
use precise_rate_limiter::quota::{self, Acquisition, PendingAcquire};
use precise_rate_limiter::refill::RefillTask;
use precise_rate_limiter::request::AcquireRequest;
use precise_rate_limiter::serve::{AcquireTask, FastAcquireTask};
use precise_rate_limiter::worker::{GuardedNext, Next};
use std::future::Future;
use std::sync::atomic::{AtomicU64, Ordering as AtomicOrdering};
use std::sync::{Arc, Mutex};
use std::time::Duration;
use tokio::sync::{mpsc, RwLock};
use tokio::time::{interval, timeout, Instant, MissedTickBehavior};

/// Runs on a clock that stands still while there is work, and otherwise moves to the next timer.
fn run<F: Future<Output = ()>>(test: F) {
    let runtime = tokio::runtime::Builder::new_current_thread()
        .enable_time()
        .start_paused(true)
        .build()
        .unwrap();
    runtime.block_on(test);
}

fn run_on_real_clock<F: Future<Output = ()>>(test: F) {
    let runtime = tokio::runtime::Builder::new_current_thread().enable_time().build().unwrap();
    runtime.block_on(test);
}

async fn drive_refill(mut task: RefillTask) {
    let mut timer = interval(task.refill_interval());
    timer.set_missed_tick_behavior(MissedTickBehavior::Burst);
    loop {
        timer.tick().await;
        task.tick();
    }
}

async fn drive_acquire(mut task: AcquireTask) {
    loop {
        match task.next() {
            Next::Receive => {
                let request = task.receiver().recv().await;
                task.received(request);
            }
            Next::Attempt => {
                task.attempt();
            }
            Next::Wait { millis } => {
                let limit = Duration::from_millis(millis);
                let _ = timeout(limit, task.tokens_available().notified()).await;
                task.woken();
            }
            Next::Stop => return,
        }
    }
}

async fn drive_fast_acquire(task: FastAcquireTask<'static>, lock: Arc<RwLock<()>>) {
    let mut task: FastAcquireTask<'_> = task;
    loop {
        match task.next() {
            GuardedNext::Receive => {
                let request = task.receiver().recv().await;
                task.received(request);
            }
            GuardedNext::Lock => task.lock_acquired(lock.write().await),
            GuardedNext::Attempt => {
                task.attempt();
            }
            GuardedNext::Wait { millis } => {
                let limit = Duration::from_millis(millis);
                let _ = timeout(limit, task.tokens_available().notified()).await;
                task.woken();
            }
            GuardedNext::Stop => return,
        }
    }
}

async fn enqueue(sender: &mpsc::Sender<AcquireRequest>, pending: PendingAcquire) {
    sender.send(pending.request).await.expect("acquire channel closed");
    pending.granted.await.unwrap();
}

#[derive(Clone)]
struct Quota {
    limiter: Arc<quota::Quota>,
}

impl Quota {
    fn new(max_buffer: usize, refill_amount: usize, refill_interval: Duration) -> Quota {
        let (limiter, refill, acquire) =
            quota::Quota::new(max_buffer, refill_amount, refill_interval);
        tokio::spawn(drive_refill(refill));
        tokio::spawn(drive_acquire(acquire));
        Quota { limiter }
    }

    async fn acquire(&self, n: usize) {
        assert!(self.limiter.admits(n));
        enqueue(self.limiter.sender(), self.limiter.acquire(n)).await;
    }
}

#[derive(Clone)]
struct FastQuota {
    limiter: Arc<quota::FastQuota>,
}

impl FastQuota {
    fn new(max_buffer: usize, refill_amount: usize, refill_interval: Duration) -> FastQuota {
        let (limiter, refill, acquire, lock) =
            quota::FastQuota::new(max_buffer, refill_amount, refill_interval);
        tokio::spawn(drive_refill(refill));
        tokio::spawn(drive_fast_acquire(acquire, lock));
        FastQuota { limiter: Arc::new(limiter) }
    }

    async fn acquire(&self, n: usize) {
        assert!(self.limiter.admits(n));
        match self.limiter.acquire(n, &mut Caller::new(&self.limiter)) {
            Acquisition::Immediate { .. } => {}
            Acquisition::Queued { pending, .. } => enqueue(self.limiter.sender(), pending).await,
        }
    }
}

#[test]
fn test_basic_acquire() {
    run(async {
        let quota = Quota::new(10, 1, Duration::from_millis(1));

        // Should acquire immediately since we start with capacity
        let start = Instant::now();
        quota.acquire(10).await;
        let elapsed = start.elapsed();

        // Should be very fast (no waiting)
        assert!(elapsed < Duration::from_millis(50));
    });
}

#[test]
fn test_basic_acquire_unfair() {
    run(async {
        let quota = FastQuota::new(10, 1, Duration::from_millis(1));

        // Should acquire immediately since we start with capacity
        let start = Instant::now();
        quota.acquire(10).await;
        let elapsed = start.elapsed();

        // Should be very fast (no waiting)
        assert!(elapsed < Duration::from_millis(50));
    });
}

#[test]
fn test_capacity_limit_unfair() {
    run(async {
        let quota = FastQuota::new(10, 1, Duration::from_millis(1000));

        // Acquire all tokens
        let start = Instant::now();
        quota.acquire(10).await;

        let elapsed = start.elapsed();
        assert!(elapsed <= Duration::from_millis(20)); // acquire should be very fast
        // Next acquire should wait
        let start = Instant::now();
        let handle = tokio::spawn({
            let quota = quota.clone();
            async move {
                quota.acquire(1).await;
            }
        });

        // Wait a bit to ensure it's waiting
        tokio::time::sleep(Duration::from_millis(50)).await;
        assert!(!handle.is_finished());

        // Wait for refill
        handle.await.unwrap();
        let elapsed = start.elapsed();

        // Should have waited for refill
        assert!(elapsed >= Duration::from_millis(900));
        assert!(elapsed <= Duration::from_millis(1020));
    });
}

#[test]
fn test_capacity_limit() {
    run(async {
        let quota = Quota::new(10, 1, Duration::from_millis(1000));

        // Acquire all tokens
        let start = Instant::now();
        quota.acquire(10).await;

        let elapsed = start.elapsed();
        assert!(elapsed <= Duration::from_millis(20)); // acquire should be very fast
        // Next acquire should wait
        let start = Instant::now();
        let handle = tokio::spawn({
            let quota = quota.clone();
            async move {
                quota.acquire(1).await;
            }
        });

        // Wait a bit to ensure it's waiting
        tokio::time::sleep(Duration::from_millis(50)).await;
        assert!(!handle.is_finished());

        // Wait for refill
        handle.await.unwrap();
        let elapsed = start.elapsed();

        // Should have waited for refill
        assert!(elapsed >= Duration::from_millis(900));
        assert!(elapsed <= Duration::from_millis(1020));
    });
}

#[test]
fn test_one_per_ms_100_acquirers_unfair() {
    run(async {
        let quota = FastQuota::new(
            1,                        // capacity: 1 token
            1,                        // refill amount: 1 token
            Duration::from_millis(1), // refill interval: 1 millisecond
        );

        let start = Instant::now();
        let acquired_count = Arc::new(AtomicU64::new(0));
        let acquired_times = Arc::new(Mutex::new(Vec::new()));

        // Spawn 100 acquirer tasks
        let mut handles = vec![];
        for i in 0..100 {
            let quota = quota.clone();
            let count = acquired_count.clone();
            let times = acquired_times.clone();
            handles.push(tokio::spawn(async move {
                let acquire_start = Instant::now();
                quota.acquire(1).await;
                let elapsed = acquire_start.elapsed();
                let total_elapsed = start.elapsed();

                count.fetch_add(1, AtomicOrdering::Relaxed);
                times.lock().unwrap().push((i, total_elapsed, elapsed));
            }));
        }

        // Wait for all to complete
        for handle in handles {
            handle.await.unwrap();
        }

        let total_time = start.elapsed();
        let times = acquired_times.lock().unwrap();

        // Verify all 100 acquired
        assert_eq!(acquired_count.load(AtomicOrdering::Relaxed), 100);

        assert!(total_time >= Duration::from_secs(0));
        assert!(total_time <= Duration::from_millis(120));

        // Verify tokens were acquired roughly 1 per millisecond
        let mut prev_time = Duration::ZERO;
        for (i, time, _) in times.iter().take(10) {
            if i > &0 {
                let interval = *time - prev_time;
                assert!(interval >= Duration::from_millis(0));
                assert!(interval <= Duration::from_millis(20));
            }
            prev_time = *time;
        }
    });
}

#[test]
fn test_multiple_concurrent_acquires() {
    run(async {
        let quota = Quota::new(10, 1, Duration::from_millis(50));
        let acquired_count = Arc::new(AtomicU64::new(0));

        // Spawn 20 tasks trying to acquire 1 token each
        let mut handles = vec![];
        for i in 0..20 {
            let quota = quota.clone();
            let count = acquired_count.clone();
            handles.push(tokio::spawn(async move {
                quota.acquire(1).await;
                count.fetch_add(1, AtomicOrdering::Relaxed);
                i
            }));
        }

        // Wait for all to complete
        for handle in handles {
            handle.await.unwrap();
        }

        // All 20 should eventually acquire
        assert_eq!(acquired_count.load(AtomicOrdering::Relaxed), 20);
    });
}

#[test]
fn test_multiple_concurrent_acquires_unfair() {
    run(async {
        let quota = FastQuota::new(10, 1, Duration::from_millis(50));
        let acquired_count = Arc::new(AtomicU64::new(0));

        // Spawn 20 tasks trying to acquire 1 token each
        let mut handles = vec![];
        for i in 0..20 {
            let quota = quota.clone();
            let count = acquired_count.clone();
            handles.push(tokio::spawn(async move {
                quota.acquire(1).await;
                count.fetch_add(1, AtomicOrdering::Relaxed);
                i
            }));
        }

        // Wait for all to complete
        for handle in handles {
            handle.await.unwrap();
        }

        // All 20 should eventually acquire
        assert_eq!(acquired_count.load(AtomicOrdering::Relaxed), 20);
    });
}

#[test]
fn test_one_per_ms_100_acquirers() {
    run(async {
        let quota = Quota::new(
            1,                        // capacity: 1 token
            1,                        // refill amount: 1 token
            Duration::from_millis(1), // refill interval: 1 millisecond
        );

        let start = Instant::now();
        let acquired_count = Arc::new(AtomicU64::new(0));
        let acquired_times = Arc::new(Mutex::new(Vec::new()));

        // Spawn 100 acquirer tasks
        let mut handles = vec![];
        for i in 0..100 {
            let quota = quota.clone();
            let count = acquired_count.clone();
            let times = acquired_times.clone();
            handles.push(tokio::spawn(async move {
                let acquire_start = Instant::now();
                quota.acquire(1).await;
                let elapsed = acquire_start.elapsed();
                let total_elapsed = start.elapsed();

                count.fetch_add(1, AtomicOrdering::Relaxed);
                times.lock().unwrap().push((i, total_elapsed, elapsed));
            }));
        }

        // Wait for all to complete
        for handle in handles {
            handle.await.unwrap();
        }

        let total_time = start.elapsed();
        let times = acquired_times.lock().unwrap();

        // Verify all 100 acquired
        assert_eq!(acquired_count.load(AtomicOrdering::Relaxed), 100);

        assert!(total_time >= Duration::from_secs(0));
        assert!(total_time <= Duration::from_millis(120));

        // Verify tokens were acquired roughly 1 per millisecond
        let mut prev_time = Duration::ZERO;
        for (i, time, _) in times.iter().take(10) {
            if i > &0 {
                let interval = *time - prev_time;
                assert!(interval >= Duration::from_millis(0));
                assert!(interval <= Duration::from_millis(20));
            }
            prev_time = *time;
        }
    });
}

#[test]
fn test_rate_limiting_unfair() {
    run(async {
        let quota = FastQuota::new(5, 1, Duration::from_millis(100));
        let start = Instant::now();
        let acquired_times = Arc::new(Mutex::new(Vec::new()));

        // Acquire all initial tokens
        quota.acquire(5).await;

        // Try to acquire 10 more (should be rate limited)
        let mut handles = vec![];
        for i in 0..10 {
            let quota = quota.clone();
            let times = acquired_times.clone();
            handles.push(tokio::spawn(async move {
                quota.acquire(1).await;
                let elapsed = start.elapsed();
                times.lock().unwrap().push((i, elapsed));
            }));
        }

        for handle in handles {
            handle.await.unwrap();
        }

        let times = acquired_times.lock().unwrap();
        // Should have taken at least 1 second (10 tokens / 1 per 100ms)
        let total_time = times.iter().map(|(_, t)| *t).max().unwrap();
        assert!(total_time >= Duration::from_millis(900));
    });
}

#[test]
fn test_rate_limiting() {
    run(async {
        let quota = Quota::new(5, 1, Duration::from_millis(100));
        let start = Instant::now();
        let acquired_times = Arc::new(Mutex::new(Vec::new()));

        // Acquire all initial tokens
        quota.acquire(5).await;

        // Try to acquire 10 more (should be rate limited)
        let mut handles = vec![];
        for i in 0..10 {
            let quota = quota.clone();
            let times = acquired_times.clone();
            handles.push(tokio::spawn(async move {
                quota.acquire(1).await;
                let elapsed = start.elapsed();
                times.lock().unwrap().push((i, elapsed));
            }));
        }

        for handle in handles {
            handle.await.unwrap();
        }

        let times = acquired_times.lock().unwrap();
        // Should have taken at least 1 second (10 tokens / 1 per 100ms)
        let total_time = times.iter().map(|(_, t)| *t).max().unwrap();
        assert!(total_time >= Duration::from_millis(900));
        // Tokens are granted in the order of the requests
        for (place, (i, _)) in times.iter().enumerate() {
            assert_eq!(place, *i);
        }
    });
}

#[test]
fn test_large_acquire_request_unfair() {
    run(async {
        let quota = FastQuota::new(2000, 1, Duration::from_millis(1));
        quota.acquire(2000).await;
        // Try to acquire more than there is
        let start = Instant::now();
        let result = tokio::time::timeout(Duration::from_millis(1000), quota.acquire(1500)).await;
        assert!(result.is_err());
        let elapsed = start.elapsed();

        // Should wait until enough tokens accumulate
        assert!(elapsed >= Duration::from_millis(900));
    });
}

#[test]
fn test_large_acquire_request() {
    run(async {
        let quota = Quota::new(2000, 1, Duration::from_millis(1));
        quota.acquire(2000).await;
        // Try to acquire more than there is
        let start = Instant::now();
        let result = tokio::time::timeout(Duration::from_millis(1000), quota.acquire(1500)).await;
        assert!(result.is_err());
        let elapsed = start.elapsed();

        // Should wait until enough tokens accumulate
        assert!(elapsed >= Duration::from_millis(900));
    });
}

#[test]
fn large_request_is_granted_when_enough_has_accumulated() {
    run(async {
        let quota = Quota::new(2000, 1, Duration::from_millis(1));
        quota.acquire(2000).await;
        let start = Instant::now();
        quota.acquire(1500).await;
        let elapsed = start.elapsed();
        assert!(elapsed >= Duration::from_millis(1490));
        assert!(elapsed <= Duration::from_millis(1520));
    });
}

#[test]
fn buffered_tokens_are_granted_at_once() {
    run(async {
        let quota = Quota::new(100, 100, Duration::from_secs(1));
        quota.acquire(100).await;
        tokio::time::sleep(Duration::from_secs(10)).await;
        let start = Instant::now();
        quota.acquire(100).await;
        assert!(start.elapsed() < Duration::from_millis(50));
        // Ten intervals later there were no more than the capacity
        quota.acquire(100).await;
        assert!(start.elapsed() >= Duration::from_millis(900));
    });
}

#[test]
fn test_throughput_100m_per_100ms() {
    // Refill: 100 million tokens per 100ms
    // Max buffer: 10 billion tokens
    run_on_real_clock(async {
        let quota = Quota::new(
            10_000_000_000,             // max_buffer: 10 billion
            100_000_000,                // refill_amount: 100 million
            Duration::from_millis(100), // refill_interval: 100ms
        );

        let start = Instant::now();
        let acquired_count = Arc::new(AtomicU64::new(0));

        let threads = 5;

        // Spawn the tasks, each acquiring 1 token in a loop
        let mut handles = vec![];
        for _ in 0..threads {
            let quota = quota.clone();
            let count = acquired_count.clone();
            handles.push(tokio::spawn(async move {
                let mut local_count = 0u64;
                while start.elapsed() < Duration::from_secs(10) {
                    quota.acquire(1).await;
                    local_count += 1;
                }
                count.fetch_add(local_count, AtomicOrdering::Relaxed);
                local_count
            }));
        }

        // Wait for all tasks to complete
        for handle in handles {
            handle.await.unwrap();
        }

        let total_acquired = acquired_count.load(AtomicOrdering::Relaxed);
        println!("Total tokens acquired by all {} threads: {}", threads, total_acquired);
        assert!(total_acquired > 0);
    });
}

#[test]
fn test_throughput_100m_per_100ms_unfair() {
    // Refill: 100 million tokens per 100ms
    // Max buffer: 10 billion tokens
    run_on_real_clock(async {
        let quota = FastQuota::new(
            10_000_000_000,             // max_buffer: 10 billion
            100_000_000,                // refill_amount: 100 million
            Duration::from_millis(100), // refill_interval: 100ms
        );

        let start = Instant::now();
        let acquired_count = Arc::new(AtomicU64::new(0));

        let threads = 5;

        // Spawn the tasks, each acquiring 1 token in a loop
        let mut handles = vec![];
        for _ in 0..threads {
            let quota = quota.clone();
            let count = acquired_count.clone();
            handles.push(tokio::spawn(async move {
                let mut local_count = 0u64;
                while start.elapsed() < Duration::from_secs(10) {
                    quota.acquire(1).await;
                    local_count += 1;
                }
                count.fetch_add(local_count, AtomicOrdering::Relaxed);
                local_count
            }));
        }

        // Wait for all tasks to complete
        for handle in handles {
            handle.await.unwrap();
        }

        let total_acquired = acquired_count.load(AtomicOrdering::Relaxed);
        println!("Total tokens acquired by all {} threads: {}", threads, total_acquired);
        assert!(total_acquired > 0);
    });
}

#[test]
fn one_caller_is_granted_the_same_by_both() {
    // What a caller waits for each of its calls, in milliseconds.
    async fn waits_fair(quota: &Quota, calls: &[usize]) -> Vec<u128> {
        let mut waits = vec![];
        for n in calls {
            let start = Instant::now();
            quota.acquire(*n).await;
            waits.push(start.elapsed().as_millis());
        }
        waits
    }
    async fn waits_fast(quota: &FastQuota, calls: &[usize]) -> Vec<u128> {
        let mut waits = vec![];
        for n in calls {
            let start = Instant::now();
            quota.acquire(*n).await;
            waits.push(start.elapsed().as_millis());
        }
        waits
    }
    let calls = [4, 6, 3, 0, 10, 1, 5];
    let fair = Arc::new(Mutex::new(vec![]));
    let fast = Arc::new(Mutex::new(vec![]));
    run(async {
        let quota = Quota::new(10, 2, Duration::from_millis(100));
        *fair.lock().unwrap() = waits_fair(&quota, &calls).await;
    });
    run(async {
        let quota = FastQuota::new(10, 2, Duration::from_millis(100));
        *fast.lock().unwrap() = waits_fast(&quota, &calls).await;
    });
    // 3 tokens take two refills of 2 and leave 1; 10 take five more, the last of them cut at the
    // capacity, and leave none; 1 takes one and leaves 1; 5 take two.
    assert_eq!(*fair.lock().unwrap(), vec![0, 0, 200, 0, 500, 100, 200]);
    assert_eq!(*fair.lock().unwrap(), *fast.lock().unwrap());
}

#[test]
fn serving_ends_with_the_last_handle_and_drops_no_request() {
    run(async {
        let (limiter, refill, task) = quota::Quota::new(5, 5, Duration::from_millis(100));
        tokio::spawn(drive_refill(refill));
        let serving = tokio::spawn(drive_acquire(task));
        let first = limiter.acquire(5);
        let second = limiter.acquire(4);
        assert!(limiter.sender().send(first.request).await.is_ok());
        assert!(limiter.sender().send(second.request).await.is_ok());
        drop(limiter);
        serving.await.unwrap();
        assert!(first.granted.await.is_ok());
        assert!(second.granted.await.is_ok());
    });
}

#[test]
fn fast_serving_ends_with_the_last_handle_and_frees_the_lock() {
    run(async {
        let (limiter, refill, task, lock) =
            quota::FastQuota::new(5, 5, Duration::from_millis(100));
        tokio::spawn(drive_refill(refill));
        let serving = tokio::spawn(drive_fast_acquire(task, lock.clone()));
        let first = limiter.slow_path_acquire(5);
        let second = limiter.slow_path_acquire(4);
        assert!(limiter.sender().send(first.request).await.is_ok());
        assert!(limiter.sender().send(second.request).await.is_ok());
        drop(limiter);
        serving.await.unwrap();
        assert!(first.granted.await.is_ok());
        assert!(second.granted.await.is_ok());
        assert!(lock.try_write().is_ok());
    });
}
