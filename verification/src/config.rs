//! What the user of a reconnecting connection decides.

use vstd::prelude::*;

verus! {

/// The options that the reconnect decisions depend on.
pub struct ReconnectOptions<F> {
    /// Makes the delays before the successive attempts to reconnect. Each outage calls
    /// it anew.
    pub retries_to_attempt_fn: F,
    /// Whether connecting for the first time is given up after one failure.
    pub exit_if_first_connect_fails: bool,
}

} // verus!
