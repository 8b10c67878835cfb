//! Requests for tokens, as they travel through the queue.

use tokio::sync::oneshot;
use vstd::prelude::*;

verus! {

/// A request for tokens: how many, and the channel on which the requester waits to be told.
pub struct AcquireRequest {
    /// The number of tokens asked for.
    pub required: usize,
    /// Where the grant is reported.
    pub notify: oneshot::Sender<()>,
}

} // verus!
