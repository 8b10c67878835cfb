//! What holds of the limiters as a whole.
//!
//! `operations` says of each operation what it does, in terms of what goes in and what comes out.
//! `counter` speaks of the token counter, under whatever tasks share it. `fair` and `fast` model a
//! limiter with its counter, its queue and its tasks, and speak of every order in which their steps
//! can follow each other; `queue` compares the two where nobody passes the queue, and `solo` under
//! one caller. `steps` shows that the executable types take the steps of the models. `trace` and
//! `ticket` hold what the models share.

pub mod counter;
pub mod fair;
pub mod fast;
pub mod operations;
pub mod queue;
pub mod solo;
pub mod steps;
pub mod ticket;
pub mod trace;
