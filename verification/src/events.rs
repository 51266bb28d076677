//! What the decisions of this crate take and give: observations and instructions.

use vstd::prelude::*;

use crate::delay::Delay;

verus! {

/// The result of polling something that may not be ready yet.
#[derive(Debug, PartialEq, Eq)]
pub enum Poll<P> {
    Ready(P),
    Pending,
}

/// A callback that the user has registered.
#[derive(Clone, Copy, Debug, PartialEq, Eq, Structural)]
pub enum Callback {
    /// A connection has been established.
    OnConnect,
    /// An attempt to connect has failed.
    OnConnectFail,
    /// An established connection has been lost.
    OnDisconnect,
}

/// What has to be polled to answer a poll.
#[derive(Clone, Copy, Debug, PartialEq, Eq, Structural)]
pub enum Target {
    /// The underlying stream.
    Stream,
    /// The pending attempt to reconnect.
    Attempt,
    /// Nothing: the answer does not depend on any observation.
    Nothing,
}

/// What polling the [`Target`] gave.
#[derive(Debug)]
pub enum Input<P, S, E> {
    Stream(Poll<P>),
    Attempt(Poll<Result<S, E>>),
    Nothing,
}

/// What is to be done besides answering a poll.
#[derive(Debug, PartialEq, Eq)]
pub enum Effect<S> {
    Nothing,
    /// The connection was lost, or the attempt to reconnect failed: run the callback,
    /// then call `on_disconnect`, follow its plan and wake the task.
    Disconnect(Callback),
    /// The attempt to reconnect succeeded: wake the task and run the callback. The stream
    /// that has been superseded may be dropped.
    Reconnect { superseded: S },
}

impl<S> Effect<S> {
    /// The callback that goes with this effect, if there is one.
    pub open spec fn reported_by(self) -> Option<Callback> {
        match self {
            Effect::Nothing => None,
            Effect::Disconnect(callback) => Some(callback),
            Effect::Reconnect { .. } => Some(Callback::OnConnect),
        }
    }

    /// The callback to run, if there is one.
    pub fn callback(&self) -> (callback: Option<Callback>)
        ensures
            callback == self.reported_by(),
    {
        match self {
            Effect::Nothing => None,
            Effect::Disconnect(callback) => Some(*callback),
            Effect::Reconnect { .. } => Some(Callback::OnConnect),
        }
    }
}

/// The answer to a poll.
#[derive(Debug, PartialEq, Eq)]
pub struct Step<P, S> {
    /// What the caller is told.
    pub poll: Poll<P>,
    /// What is to be done.
    pub effect: Effect<S>,
}

/// How to go on after a disconnect.
#[derive(Debug, PartialEq, Eq)]
pub enum Plan<C> {
    /// Wait for `delay`, then establish a connection with `ctor_arg`. It is the attempt
    /// number `attempt_num` of this outage.
    Attempt { attempt_num: usize, delay: Delay, ctor_arg: C },
    /// No delay is left: do not attempt to reconnect any more.
    GiveUp,
}

impl<C> Plan<C> {
    /// The delay before the planned attempt, if there is one.
    pub open spec fn delay(self) -> Option<Delay> {
        match self {
            Plan::Attempt { delay, .. } => Some(delay),
            Plan::GiveUp => None,
        }
    }
}

} // verus!
