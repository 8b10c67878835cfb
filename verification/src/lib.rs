//! A token bucket rate limiter.
//!
//! A bucket starts with `max_buffer` tokens. A refill task adds `refill_amount` tokens at every
//! interval, never past `max_buffer`. Callers acquire tokens, and a caller that cannot be served
//! at once stands in a queue whose head alone is served.
//!
//! The crate holds every decision of the limiter. It is driven from outside: a runtime awaits the
//! timer, the queue, the lock and the wake-ups, and hands what came back to the types here.

pub mod cell;
pub mod laws;
pub mod lock;
pub mod primitives;
pub mod quota;
pub mod refill;
pub mod request;
pub mod serve;
pub mod step;
pub mod tokens;
pub mod worker;

pub use quota::{FastQuota, Quota};
