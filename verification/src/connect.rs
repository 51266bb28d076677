//! Connecting for the first time.

use vstd::prelude::*;

use crate::events::Callback;

verus! {

/// Where the result of an attempt to connect leads.
#[derive(Debug, PartialEq, Eq)]
pub enum ConnectStep<K, W, E> {
    /// The connection is there.
    Connected(K),
    /// The attempt has failed, but that does not settle it.
    Retry(W),
    /// There will be no connection.
    Failed(E),
}

/// What the result of an attempt to connect means.
pub enum Verdict<S, E> {
    Connected(S),
    Retry,
    Failed(E),
}

impl<S, E> Verdict<S, E> {
    /// The callback that goes with this verdict.
    pub open spec fn callback(self) -> Callback {
        if self is Connected {
            Callback::OnConnect
        } else {
            Callback::OnConnectFail
        }
    }
}

/// What the result of an attempt to connect means, where `may_retry` says whether a
/// failure may be followed by another attempt.
pub open spec fn verdict<S, E>(may_retry: bool, result: Result<S, E>) -> Verdict<S, E> {
    match result {
        Ok(stream) => Verdict::Connected(stream),
        Err(err) => if may_retry {
            Verdict::Retry
        } else {
            Verdict::Failed(err)
        },
    }
}

impl<K, W, E> ConnectStep<K, W, E> {
    /// What the result of the attempt meant.
    pub open spec fn verdict(self) -> Verdict<K, E> {
        match self {
            ConnectStep::Connected(connection) => Verdict::Connected(connection),
            ConnectStep::Retry(_) => Verdict::Retry,
            ConnectStep::Failed(err) => Verdict::Failed(err),
        }
    }

    /// The callback to run before anything else is done.
    pub fn callback(&self) -> (callback: Callback)
        ensures
            callback == self.verdict().callback(),
    {
        match self {
            ConnectStep::Connected(_) => Callback::OnConnect,
            _ => Callback::OnConnectFail,
        }
    }
}

} // verus!
