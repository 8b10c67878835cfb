# precise_rate_limiter

A token bucket rate limiter, verified with Verus.

A bucket starts full, with `max_buffer` tokens, and gains `refill_amount` tokens per interval, never
past `max_buffer`. There are two limiters:

- `Quota` serves every request through one queue, in strict order.
- `FastQuota` serves a request at once where tokens are there and nobody is being served from the
  queue, and through the queue otherwise.

## Layout

- `src/` is the verified library. It decides everything and waits for nothing.
  - `tokens` is the arithmetic of the counter, `worker` the decisions of the task that serves the
    queue.
  - `cell`, `lock` and `primitives` hold what is trusted of the atomics, locks, queues and wake-ups.
    Whoever acts on a counter, takes or gives back the lock, or wakes a task does so through a handle
    with a log, so that contracts say all that was done.
  - `quota`, `refill`, `serve` and `request` are the limiters and their tasks.
  - `laws` states and proves what holds of the limiters as a whole: order, bounded rate, conservation
    of tokens, no starvation, when serving ends, no passing of the queue under the lock, and that the
    two limiters grant the same where nobody passes the queue, and to one caller at a time.
- `app/` runs the limiters on tokio: timers, waiting and background tasks.
- `tests/` runs the library, on its own and on a tokio runtime.

## Laws and code

The laws speak of models: `FairState` and `FastState` are a limiter with its counter, queue and tasks,
and events that can follow each other in any order. `laws/steps.rs` joins the models to the code: it
proves from the contract of each executable function that it takes the step of the model, and for
whom. `laws/counter.rs` needs no model: its laws hold of the steps that the handles' logs show. What is
assumed is what is the doing of several tasks at once and no contract of one function can say: that an
atomic step meets the value that the one before it left, that the queue hands out its first request
and tells when it is empty, and that a reader has the lock only while the writer does not.
