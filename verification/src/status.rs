//! The state of a connection and its transitions.

use vstd::prelude::*;
use vstd::std_specs::iter::IteratorSpec;

use crate::config::ReconnectOptions;
use crate::delay::Delay;
use crate::events::{Callback, Effect, Input, Plan, Poll, Step, Target};

verus! {

/// The attempts to reconnect of one outage.
pub struct AttemptsTracker<R> {
    /// How many attempts have been scheduled.
    pub attempt_num: usize,
    /// The delays before the attempts to come.
    pub retries_remaining: R,
}

/// The state of an outage.
pub struct ReconnectStatus<R> {
    pub attempts_tracker: AttemptsTracker<R>,
}

/// The state of a connection.
pub enum Status<R> {
    Connected,
    Disconnected(ReconnectStatus<R>),
    FailedAndExhausted,
}

/// The state of a connection, with the delays to come left out.
pub enum Phase {
    Connected,
    /// Disconnected, with so many attempts scheduled since the connection was lost.
    Disconnected(nat),
    FailedAndExhausted,
}

/// The phase after a disconnect, where `next` is the next delay of the outage, if one
/// is left.
pub open spec fn lose(phase: Phase, next: Option<Delay>) -> Phase {
    match (phase, next) {
        (Phase::Connected, Some(_)) => Phase::Disconnected(1),
        (Phase::Disconnected(attempts), Some(_)) => Phase::Disconnected(attempts + 1),
        _ => Phase::FailedAndExhausted,
    }
}

/// The callback that goes with a disconnect in `phase`.
pub open spec fn callback_of(phase: Phase) -> Callback {
    if phase is Connected {
        Callback::OnDisconnect
    } else {
        Callback::OnConnectFail
    }
}

/// The first of the delays to come.
pub open spec fn first_delay(delays: Seq<Delay>) -> Option<Delay> {
    if delays.len() > 0 {
        Some(delays[0])
    } else {
        None
    }
}

impl<R> ReconnectStatus<R> {
    /// The state of an outage that has just begun, with fresh delays.
    pub fn new<F: Fn() -> R>(options: &ReconnectOptions<F>) -> (status: Self)
        requires
            call_requires(options.retries_to_attempt_fn, ()),
        ensures
            status.attempts_tracker.attempt_num == 0,
            call_ensures(
                options.retries_to_attempt_fn,
                (),
                status.attempts_tracker.retries_remaining,
            ),
    {
        ReconnectStatus {
            attempts_tracker: AttemptsTracker {
                attempt_num: 0,
                retries_remaining: (options.retries_to_attempt_fn)(),
            },
        }
    }
}

impl<R> Status<R> {
    /// This state, with the delays to come left out.
    pub open spec fn phase(self) -> Phase {
        match self {
            Status::Connected => Phase::Connected,
            Status::Disconnected(status) => Phase::Disconnected(
                status.attempts_tracker.attempt_num as nat,
            ),
            Status::FailedAndExhausted => Phase::FailedAndExhausted,
        }
    }

    /// The delays to come, in an outage.
    pub open spec fn retries(self) -> R
        recommends
            self is Disconnected,
    {
        self->Disconnected_0.attempts_tracker.retries_remaining
    }

    /// Whether a disconnect in this state takes its delay from `retries`: from those of
    /// the outage, or from fresh ones where the outage begins.
    pub open spec fn takes_from<F: Fn() -> R>(
        self,
        options: ReconnectOptions<F>,
        retries: R,
    ) -> bool {
        match self {
            Status::Connected => call_ensures(options.retries_to_attempt_fn, (), retries),
            Status::Disconnected(_) => retries == self.retries(),
            Status::FailedAndExhausted => false,
        }
    }

    /// Whether a disconnect can be recorded: the connection has not been given up, and
    /// one more attempt can be counted.
    pub open spec fn can_disconnect(self) -> bool {
        match self.phase() {
            Phase::Connected => true,
            Phase::Disconnected(attempts) => attempts < usize::MAX,
            Phase::FailedAndExhausted => false,
        }
    }

    /// What has to be polled to answer a read, or a write that is not a close.
    pub fn target(&self) -> (target: Target)
        ensures
            target == poll_target(*self),
    {
        match self {
            Status::Connected => Target::Stream,
            Status::Disconnected(_) => Target::Attempt,
            Status::FailedAndExhausted => Target::Nothing,
        }
    }

    /// What has to be polled to answer a close.
    pub fn close_target(&self) -> (target: Target)
        ensures
            target == close_target(*self),
    {
        match self {
            Status::Connected => Target::Stream,
            _ => Target::Nothing,
        }
    }
}

/// What has to be polled to answer a read, or a write that is not a close.
pub open spec fn poll_target<R>(status: Status<R>) -> Target {
    match status {
        Status::Connected => Target::Stream,
        Status::Disconnected(_) => Target::Attempt,
        Status::FailedAndExhausted => Target::Nothing,
    }
}

/// What has to be polled to answer a close. A close does not drive the attempt to
/// reconnect.
pub open spec fn close_target<R>(status: Status<R>) -> Target {
    if status is Connected {
        Target::Stream
    } else {
        Target::Nothing
    }
}

impl<P, S, E> Input<P, S, E> {
    /// What has been polled.
    pub open spec fn target(self) -> Target {
        match self {
            Input::Stream(_) => Target::Stream,
            Input::Attempt(_) => Target::Attempt,
            Input::Nothing => Target::Nothing,
        }
    }
}

/// What follows from polling the pending attempt to reconnect, while `stream` is the
/// stream that was lost.
pub open spec fn attempt_effect<S, E>(stream: S, attempt: Poll<Result<S, E>>) -> Effect<S> {
    match attempt {
        Poll::Ready(Ok(_)) => Effect::Reconnect { superseded: stream },
        Poll::Ready(Err(_)) => Effect::Disconnect(Callback::OnConnectFail),
        Poll::Pending => Effect::Nothing,
    }
}

impl<P, S> Step<P, S> {
    /// The answer is `poll`, and nothing is to be done.
    pub open spec fn settles(self, poll: Poll<P>) -> bool {
        self == Step::<P, S> { poll, effect: Effect::Nothing }
    }

    /// The answer is what the underlying stream gave, unless that shows that the
    /// connection is lost.
    pub open spec fn delivers(self, polled: Poll<P>, lost: bool) -> bool {
        if lost {
            self == Step::<P, S> {
                poll: Poll::Pending,
                effect: Effect::Disconnect(Callback::OnDisconnect),
            }
        } else {
            self.settles(polled)
        }
    }

    /// There is no answer yet: the connection, whose stream is `stream`, is being
    /// restored.
    pub open spec fn restores<E>(self, stream: S, attempt: Poll<Result<S, E>>) -> bool {
        self == Step::<P, S> { poll: Poll::Pending, effect: attempt_effect(stream, attempt) }
    }

    /// The answer is what closing the underlying stream gave. Once that is there, good
    /// or bad, the connection is gone.
    pub open spec fn closes(self, polled: Poll<P>) -> bool {
        self == Step::<P, S> {
            poll: polled,
            effect: if polled is Ready {
                Effect::Disconnect(Callback::OnDisconnect)
            } else {
                Effect::Nothing
            },
        }
    }
}

/// The state after a poll: an attempt that has succeeded restores the connection.
pub open spec fn status_after<P, S, E, R>(
    status: Status<R>,
    input: Input<P, S, E>,
) -> Status<R> {
    match input {
        Input::Attempt(Poll::Ready(Ok(_))) => Status::Connected,
        _ => status,
    }
}

/// The underlying stream after a poll: the one that an attempt has established, if one
/// has.
pub open spec fn stream_after<P, S, E>(stream: S, input: Input<P, S, E>) -> S {
    match input {
        Input::Attempt(Poll::Ready(Ok(established))) => established,
        _ => stream,
    }
}

/// Answers a poll of the underlying stream, given whether the connection is lost.
pub fn deliver<P, S>(polled: Poll<P>, lost: bool) -> (step: Step<P, S>)
    ensures
        step.delivers(polled, lost),
{
    if lost {
        Step { poll: Poll::Pending, effect: Effect::Disconnect(Callback::OnDisconnect) }
    } else {
        Step { poll: polled, effect: Effect::Nothing }
    }
}

impl<R> Status<R> {
    /// Takes in what polling the pending attempt to reconnect gave.
    pub fn poll_disconnect<S, E>(
        &mut self,
        stream: &mut S,
        attempt: Poll<Result<S, E>>,
    ) -> (effect: Effect<S>)
        requires
            *old(self) is Disconnected,
        ensures
            effect == attempt_effect(*old(stream), attempt),
            *final(self) == status_after(*old(self), Input::<(), S, E>::Attempt(attempt)),
            *final(stream) == stream_after(*old(stream), Input::<(), S, E>::Attempt(attempt)),
    {
        match attempt {
            Poll::Ready(Ok(established)) => {
                *self = Status::Connected;
                let mut superseded = established;
                core::mem::swap(stream, &mut superseded);
                Effect::Reconnect { superseded }
            },
            Poll::Ready(Err(_)) => Effect::Disconnect(Callback::OnConnectFail),
            Poll::Pending => Effect::Nothing,
        }
    }

    /// Plans the next attempt of an outage, where `next` is its delay and `ctor_arg` its
    /// argument, or gives up where no delay is left.
    pub fn schedule<C>(&mut self, next: Option<Delay>, ctor_arg: C) -> (plan: Plan<C>)
        requires
            *old(self) is Disconnected,
            old(self).can_disconnect(),
        ensures
            final(self).phase() == lose(old(self).phase(), next),
            match next {
                Some(delay) => {
                    &&& final(self).retries() == old(self).retries()
                    &&& plan is Attempt
                    &&& final(self).phase() == Phase::Disconnected(plan->attempt_num as nat)
                    &&& plan->delay == delay
                    &&& plan->ctor_arg == ctor_arg
                },
                None => plan is GiveUp,
            },
    {
        if let Some(delay) = next {
            if let Status::Disconnected(status) = self {
                let attempt_num: usize = status.attempts_tracker.attempt_num + 1;
                status.attempts_tracker.attempt_num = attempt_num;
                return Plan::Attempt { attempt_num, delay, ctor_arg };
            }
        }
        *self = Status::FailedAndExhausted;
        Plan::GiveUp
    }
}

impl<R: Iterator<Item = Delay>> Status<R> {
    /// Records that the connection is lost, or that the pending attempt to reconnect has
    /// failed, and plans the next attempt.
    ///
    /// The delay is the next one of the outage. An outage begins with fresh delays.
    pub fn on_disconnect<C: Clone, F: Fn() -> R>(
        &mut self,
        options: &ReconnectOptions<F>,
        ctor_arg: &C,
    ) -> (plan: Plan<C>)
        requires
            old(self).can_disconnect(),
            *old(self) is Connected ==> call_requires(options.retries_to_attempt_fn, ()),
        ensures
            final(self).phase() == lose(old(self).phase(), plan.delay()),
            plan matches Plan::Attempt { attempt_num, ctor_arg: arg, .. } ==> {
                &&& final(self).phase() == Phase::Disconnected(attempt_num as nat)
                &&& cloned(*ctor_arg, arg)
            },
            exists|retries: R, it: &mut R|
                {
                    &&& #[trigger] old(self).takes_from(*options, retries)
                    &&& *it == retries
                    &&& #[trigger] call_ensures(R::next, (it,), plan.delay())
                    &&& plan is Attempt ==> final(self).retries() == *final(it)
                    &&& retries.obeys_prophetic_iter_laws() ==> {
                        &&& plan.delay() == first_delay(retries.remaining())
                        &&& plan is Attempt ==> {
                            &&& final(self).retries().obeys_prophetic_iter_laws()
                            &&& final(self).retries().remaining()
                                == retries.remaining().drop_first()
                        }
                    }
                },
    {
        if let Status::Connected = self {
            *self = Status::Disconnected(ReconnectStatus::new(options));
        }
        let ghost begun = *self;
        assert(old(self).takes_from(*options, begun.retries()));
        let arg = ctor_arg.clone();
        let mut next: Option<Delay> = None;
        if let Status::Disconnected(status) = self {
            next = status.attempts_tracker.retries_remaining.next();
        }
        self.schedule(next, arg)
    }
}

} // verus!
