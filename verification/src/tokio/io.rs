//! An IO item that reconnects.

use core::future::Future;
use core::marker::PhantomData;
use vstd::prelude::*;
use vstd::std_specs::iter::IteratorSpec;

use crate::config::ReconnectOptions;
use crate::connect::{verdict, ConnectStep, Verdict};
use crate::delay::Delay;
use crate::events::{Callback, Effect, Input, Plan, Poll, Step, Target};
use crate::status::{
    close_target, deliver, first_delay, lose, poll_target, status_after, stream_after, Phase, Status,
};

verus! {

/// What an IO item has to offer to be wrapped in a [`StubbornIo`].
pub trait UnderlyingIo<C, E>: Sized where C: Clone + Send {
    /// The future that establishes a connection.
    type Connecting: Future<Output = Result<Self, E>>;

    /// Establishes a connection: the first one, and every one that replaces a lost one.
    fn establish(ctor_arg: C) -> Self::Connecting;

    /// Whether an error means that the connection is lost. An error does not have to
    /// mean that: the operation may merely have been refused for the moment.
    fn is_disconnect_error(&self, err: &E) -> bool;

    /// The error that is reported once no attempt to reconnect is left.
    fn exhaust_err() -> E;
}

/// A wrapper over an IO item that reconnects when the connection is lost.
pub struct StubbornIo<T, C, E, F, R> {
    pub status: Status<R>,
    pub underlying_io: T,
    pub options: ReconnectOptions<F>,
    pub ctor_arg: C,
    pub marker: PhantomData<E>,
}

/// Whether `lost` is a possible verdict on what writing to `io` gave: it failed, and the
/// item takes the error for a disconnect.
pub open spec fn write_detects<T, C, E, X>(io: T, polled: Poll<Result<X, E>>, lost: bool) -> bool where
    T: UnderlyingIo<C, E>,
    C: Clone + Send,
 {
    match polled {
        Poll::Ready(Err(err)) => call_ensures(T::is_disconnect_error, (&io, &err), lost),
        _ => !lost,
    }
}

/// Whether `step` answers a read: with what the item gave, unless it has ended; with
/// nothing yet while the connection is being restored; with the end of the stream once
/// that has been given up.
pub open spec fn read_answer<T, I, E>(
    io: T,
    input: Input<Option<I>, T, E>,
    step: Step<Option<I>, T>,
) -> bool {
    match input {
        Input::Stream(polled) => step.delivers(polled, polled == Poll::Ready(None::<I>)),
        Input::Attempt(attempt) => step.restores(io, attempt),
        Input::Nothing => step.settles(Poll::Ready(None)),
    }
}

/// Whether `step` answers a write that is not a close: with what the item gave, unless
/// that shows that the connection is lost; with nothing yet while the connection is being
/// restored; with the error of `T` for this case once that has been given up.
pub open spec fn write_answer<T, C, E>(
    io: T,
    input: Input<Result<(), E>, T, E>,
    step: Step<Result<(), E>, T>,
) -> bool where T: UnderlyingIo<C, E>, C: Clone + Send {
    match input {
        Input::Stream(polled) => exists|lost: bool| #[trigger]
            write_detects::<T, C, E, ()>(io, polled, lost) && step.delivers(polled, lost),
        Input::Attempt(attempt) => step.restores(io, attempt),
        Input::Nothing => exists|err: E| #[trigger]
            call_ensures(T::exhaust_err, (), err) && step.settles(Poll::Ready(Err(err))),
    }
}

/// Whether `step` answers a close: with what closing the item gave; with nothing yet
/// during an outage; with the error of `T` for this case once the connection has been
/// given up.
pub open spec fn close_answer<T, C, E, R>(
    status: Status<R>,
    input: Input<Result<(), E>, T, E>,
    step: Step<Result<(), E>, T>,
) -> bool where T: UnderlyingIo<C, E>, C: Clone + Send {
    match input {
        Input::Stream(polled) => step.closes(polled),
        _ => if status is FailedAndExhausted {
            exists|err: E| #[trigger]
                call_ensures(T::exhaust_err, (), err) && step.settles(Poll::Ready(Err(err)))
        } else {
            step.settles(Poll::Pending)
        },
    }
}

impl<T, C, E, F, R> StubbornIo<T, C, E, F, R> {
    /// The underlying IO item.
    pub fn deref(&self) -> (io: &T)
        ensures
            *io == self.underlying_io,
    {
        &self.underlying_io
    }

    /// The underlying IO item, to be used in place.
    pub fn deref_mut(&mut self) -> (io: &mut T)
        ensures
            *io == old(self).underlying_io,
            *final(self) == (StubbornIo::<T, C, E, F, R> {
                underlying_io: *final(io),
                ..*old(self)
            }),
    {
        &mut self.underlying_io
    }

    /// What has to be polled before [`Self::poll_next`], [`Self::poll_ready`] or
    /// [`Self::poll_flush`].
    pub fn target(&self) -> (target: Target)
        ensures
            target == poll_target(self.status),
    {
        self.status.target()
    }

    /// What has to be polled before [`Self::poll_close`].
    pub fn close_target(&self) -> (target: Target)
        ensures
            target == close_target(self.status),
    {
        self.status.close_target()
    }

    /// Answers a read.
    ///
    /// A lost connection does not show: the read stays pending until the connection is
    /// restored. The stream ends only once no attempt to reconnect is left.
    pub fn poll_next<I>(&mut self, input: Input<Option<I>, T, E>) -> (step: Step<Option<I>, T>)
        requires
            input.target() == poll_target(old(self).status),
        ensures
            read_answer(old(self).underlying_io, input, step),
            *final(self) == (StubbornIo::<T, C, E, F, R> {
                status: status_after(old(self).status, input),
                underlying_io: stream_after(old(self).underlying_io, input),
                ..*old(self)
            }),
    {
        match input {
            Input::Stream(polled) => {
                let lost = match &polled {
                    Poll::Ready(None) => true,
                    _ => false,
                };
                deliver(polled, lost)
            },
            Input::Attempt(attempt) => Step {
                poll: Poll::Pending,
                effect: self.status.poll_disconnect(&mut self.underlying_io, attempt),
            },
            Input::Nothing => Step { poll: Poll::Ready(None), effect: Effect::Nothing },
        }
    }
}

impl<T, C, E, F, R> StubbornIo<T, C, E, F, R> where
    T: UnderlyingIo<C, E>,
    C: Clone + Send,
 {
    /// Whether what writing to the item gave shows that the connection is lost.
    pub fn is_write_disconnect_detected<X>(&self, poll_result: &Poll<Result<X, E>>) -> (lost: bool)
        ensures
            write_detects::<T, C, E, X>(self.underlying_io, *poll_result, lost),
    {
        match poll_result {
            Poll::Ready(Err(err)) => self.underlying_io.is_disconnect_error(err),
            _ => false,
        }
    }

    /// Answers a write that is not a close.
    fn poll_write(&mut self, input: Input<Result<(), E>, T, E>) -> (step: Step<Result<(), E>, T>)
        requires
            input.target() == poll_target(old(self).status),
        ensures
            write_answer::<T, C, E>(old(self).underlying_io, input, step),
            *final(self) == (StubbornIo::<T, C, E, F, R> {
                status: status_after(old(self).status, input),
                underlying_io: stream_after(old(self).underlying_io, input),
                ..*old(self)
            }),
    {
        match input {
            Input::Stream(polled) => {
                let lost = self.is_write_disconnect_detected(&polled);
                deliver(polled, lost)
            },
            Input::Attempt(attempt) => Step {
                poll: Poll::Pending,
                effect: self.status.poll_disconnect(&mut self.underlying_io, attempt),
            },
            Input::Nothing => Step {
                poll: Poll::Ready(Err(T::exhaust_err())),
                effect: Effect::Nothing,
            },
        }
    }

    /// Answers a poll for readiness to send.
    pub fn poll_ready(&mut self, input: Input<Result<(), E>, T, E>) -> (step: Step<
        Result<(), E>,
        T,
    >)
        requires
            input.target() == poll_target(old(self).status),
        ensures
            write_answer::<T, C, E>(old(self).underlying_io, input, step),
            *final(self) == (StubbornIo::<T, C, E, F, R> {
                status: status_after(old(self).status, input),
                underlying_io: stream_after(old(self).underlying_io, input),
                ..*old(self)
            }),
    {
        self.poll_write(input)
    }

    /// Answers a flush.
    pub fn poll_flush(&mut self, input: Input<Result<(), E>, T, E>) -> (step: Step<
        Result<(), E>,
        T,
    >)
        requires
            input.target() == poll_target(old(self).status),
        ensures
            write_answer::<T, C, E>(old(self).underlying_io, input, step),
            *final(self) == (StubbornIo::<T, C, E, F, R> {
                status: status_after(old(self).status, input),
                underlying_io: stream_after(old(self).underlying_io, input),
                ..*old(self)
            }),
    {
        self.poll_write(input)
    }

    /// Answers a close. It changes nothing by itself: where the connection is gone
    /// afterwards, the effect says so.
    pub fn poll_close(&self, input: Input<Result<(), E>, T, E>) -> (step: Step<Result<(), E>, T>)
        requires
            input.target() == close_target(self.status),
        ensures
            close_answer::<T, C, E, R>(self.status, input, step),
    {
        match input {
            Input::Stream(polled) => {
                let effect = match &polled {
                    Poll::Ready(_) => Effect::Disconnect(Callback::OnDisconnect),
                    Poll::Pending => Effect::Nothing,
                };
                Step { poll: polled, effect }
            },
            _ => {
                let poll = match &self.status {
                    Status::FailedAndExhausted => Poll::Ready(Err(T::exhaust_err())),
                    _ => Poll::Pending,
                };
                Step { poll, effect: Effect::Nothing }
            },
        }
    }
}

impl<T, C, E, F, R> StubbornIo<T, C, E, F, R> where
    T: UnderlyingIo<C, E>,
    C: Clone + Send,
    F: Fn() -> R,
    R: Iterator<Item = Delay>,
 {
    /// Records that the connection is lost, or that the pending attempt to reconnect has
    /// failed, and plans the next attempt.
    ///
    /// The delay is the next one of the outage. An outage begins with fresh delays.
    pub fn on_disconnect(&mut self) -> (plan: Plan<C>)
        requires
            old(self).status.can_disconnect(),
            old(self).status is Connected ==> call_requires(
                old(self).options.retries_to_attempt_fn,
                (),
            ),
        ensures
            *final(self) == (StubbornIo::<T, C, E, F, R> {
                status: final(self).status,
                ..*old(self)
            }),
            final(self).status.phase() == lose(old(self).status.phase(), plan.delay()),
            plan matches Plan::Attempt { attempt_num, ctor_arg, .. } ==> {
                &&& final(self).status.phase() == Phase::Disconnected(attempt_num as nat)
                &&& cloned(old(self).ctor_arg, ctor_arg)
            },
            exists|retries: R, it: &mut R|
                {
                    &&& #[trigger] old(self).status.takes_from(old(self).options, retries)
                    &&& *it == retries
                    &&& #[trigger] call_ensures(R::next, (it,), plan.delay())
                    &&& plan is Attempt ==> final(self).status.retries() == *final(it)
                    &&& retries.obeys_prophetic_iter_laws() ==> {
                        &&& plan.delay() == first_delay(retries.remaining())
                        &&& plan is Attempt ==> {
                            &&& final(self).status.retries().obeys_prophetic_iter_laws()
                            &&& final(self).status.retries().remaining()
                                == retries.remaining().drop_first()
                        }
                    }
                },
    {
        self.status.on_disconnect(&self.options, &self.ctor_arg)
    }

    /// Begins to connect. The second part of the result is the argument for the first
    /// attempt; its result goes to [`Self::on_established`].
    pub fn connect_with_options(ctor_arg: C, options: ReconnectOptions<F>) -> (begun: (
        IoConnecting<C, F, R>,
        C,
    ))
        ensures
            begun.0 == (IoConnecting::<C, F, R> { ctor_arg, options, retries: None }),
            cloned(ctor_arg, begun.1),
    {
        let arg = ctor_arg.clone();
        (IoConnecting { ctor_arg, options, retries: None }, arg)
    }

    /// Takes in the result of an attempt to connect.
    ///
    /// With `exit_if_first_connect_fails` a failure of the first attempt settles it.
    /// Any other failure goes to [`IoConnecting::next_try`].
    pub fn on_established(connecting: IoConnecting<C, F, R>, result: Result<T, E>) -> (step:
        ConnectStep<Self, (IoConnecting<C, F, R>, E), E>)
        ensures
            match verdict(connecting.may_retry(), result) {
                Verdict::Connected(io) => {
                    &&& step is Connected
                    &&& step->Connected_0.status is Connected
                    &&& step->Connected_0.underlying_io == io
                    &&& step->Connected_0.options == connecting.options
                    &&& step->Connected_0.ctor_arg == connecting.ctor_arg
                },
                Verdict::Retry => step == ConnectStep::<Self, _, E>::Retry((connecting, result->Err_0)),
                Verdict::Failed(err) => step == ConnectStep::<
                    Self,
                    (IoConnecting<C, F, R>, E),
                    E,
                >::Failed(err),
            },
    {
        match result {
            Ok(io) => ConnectStep::Connected(
                StubbornIo {
                    status: Status::Connected,
                    underlying_io: io,
                    options: connecting.options,
                    ctor_arg: connecting.ctor_arg,
                    marker: PhantomData,
                },
            ),
            Err(err) => {
                if connecting.retries.is_none() && connecting.options.exit_if_first_connect_fails {
                    ConnectStep::Failed(err)
                } else {
                    ConnectStep::Retry((connecting, err))
                }
            },
        }
    }
}

/// Whether a failure leaves it open whether another attempt follows, where `first` says
/// whether it was the first attempt that failed.
pub open spec fn may_retry(exit_if_first_connect_fails: bool, first: bool) -> bool {
    !exit_if_first_connect_fails || !first
}

/// A connection of a [`StubbornIo`] in the making.
pub struct IoConnecting<C, F, R> {
    pub ctor_arg: C,
    pub options: ReconnectOptions<F>,
    /// The delays to come. There are none before the first attempt has failed.
    pub retries: Option<R>,
}

impl<C, F: Fn() -> R, R> IoConnecting<C, F, R> {
    /// Whether a failure of the attempt that is under way leaves it open whether another
    /// one follows.
    pub open spec fn may_retry(self) -> bool {
        may_retry(self.options.exit_if_first_connect_fails, self.retries is None)
    }

    /// Whether the delay before another attempt is taken from `retries`: from those that
    /// are left, or from fresh ones after the first attempt.
    pub open spec fn takes_from(self, retries: R) -> bool {
        match self.retries {
            Some(left) => retries == left,
            None => call_ensures(self.options.retries_to_attempt_fn, (), retries),
        }
    }
}

impl<C, F, R> IoConnecting<C, F, R> {
    /// How to go on after an attempt has failed with `err`, where `next` is the next delay
    /// and `retries` has the ones after it.
    pub open spec fn resumed<E>(self, next: Option<Delay>, retries: R, err: E) -> Result<
        (Self, Delay),
        E,
    > {
        match next {
            Some(delay) => Ok((IoConnecting { retries: Some(retries), ..self }, delay)),
            None => Err(err),
        }
    }

    /// Goes on after an attempt has failed with `err`, where `next` is the next delay and
    /// `retries` has the ones after it: gives the delay before another attempt, or the
    /// error back where no delay is left.
    pub fn resume<E>(self, next: Option<Delay>, retries: R, err: E) -> (resumed: Result<
        (Self, Delay),
        E,
    >)
        ensures
            resumed == self.resumed(next, retries, err),
    {
        match next {
            Some(delay) => Ok((IoConnecting { retries: Some(retries), ..self }, delay)),
            None => Err(err),
        }
    }
}

impl<C: Clone, F: Fn() -> R, R: Iterator<Item = Delay>> IoConnecting<C, F, R> {
    /// Goes on after an attempt has failed with `err`: gives the delay before another
    /// attempt, or the error back where no delay is left.
    pub fn next_try<E>(self, err: E) -> (next: Result<(Self, Delay), E>)
        requires
            self.retries is None ==> call_requires(self.options.retries_to_attempt_fn, ()),
        ensures
            exists|retries: R, it: &mut R, delay: Option<Delay>|
                {
                    &&& #[trigger] self.takes_from(retries)
                    &&& *it == retries
                    &&& #[trigger] call_ensures(R::next, (it,), delay)
                    &&& next == self.resumed(delay, *final(it), err)
                    &&& retries.obeys_prophetic_iter_laws() ==> {
                        &&& delay == first_delay(retries.remaining())
                        &&& next matches Ok((connecting, _)) ==> {
                            &&& connecting.retries->0.obeys_prophetic_iter_laws()
                            &&& connecting.retries->0.remaining()
                                == retries.remaining().drop_first()
                        }
                    }
                },
    {
        let mut connecting = self;
        let mut retries = match connecting.retries.take() {
            Some(left) => left,
            None => (connecting.options.retries_to_attempt_fn)(),
        };
        assert(self.takes_from(retries));
        let next = retries.next();
        connecting.resume(next, retries, err)
    }

    /// The argument for the next attempt.
    pub fn establish_arg(&self) -> (arg: C)
        ensures
            cloned(self.ctor_arg, arg),
    {
        self.ctor_arg.clone()
    }
}

} // verus!
