//! A stream that reconnects.

use core::future::Future;
use core::marker::PhantomData;
use vstd::prelude::*;
use vstd::std_specs::iter::IteratorSpec;

use crate::config::ReconnectOptions;
use crate::connect::{verdict, ConnectStep, Verdict};
use crate::delay::Delay;
use crate::events::{Callback, Effect, Input, Plan, Poll, Step, Target};
use crate::status::{
    close_target, deliver, first_delay, lose, poll_target, status_after, stream_after, Phase, Status,
};

verus! {

/// What a stream or sink has to offer to be wrapped in a [`ReconnectStream`].
pub trait UnderlyingStream<C, I, E> where C: Clone + Send {
    type Stream: Sized;

    /// The future that establishes a connection.
    type Connecting: Future<Output = Result<Self::Stream, E>>;

    /// Establishes a connection: the first one, and every one that replaces a lost one.
    fn establish(ctor_arg: C) -> Self::Connecting;

    /// Whether an error of the sink means that the connection is lost. An error does not
    /// have to mean that: the operation may merely have been refused for the moment.
    fn is_write_disconnect_error(err: &E) -> bool;

    /// Whether an item of the stream means that the connection is lost, where the stream
    /// reports its errors as items. No item does unless this is overridden.
    fn is_read_disconnect_error(item: &I) -> (lost: bool)
        default_ensures
            !lost,
    {
        false
    }

    /// The error that is reported once no attempt to reconnect is left.
    fn exhaust_err() -> E;
}

/// A wrapper over a stream or sink that reconnects when the connection is lost.
pub struct ReconnectStream<T, C, I, E, F, R> where
    T: UnderlyingStream<C, I, E>,
    C: Clone + Send,
 {
    pub status: Status<R>,
    pub stream: T::Stream,
    pub options: ReconnectOptions<F>,
    pub ctor_arg: C,
    pub marker: PhantomData<(I, E)>,
}

/// Whether `lost` is a possible verdict on what reading from the stream gave: the
/// stream has ended, or `T` takes its item for a disconnect.
pub open spec fn read_detects<T, C, I, E>(polled: Poll<Option<I>>, lost: bool) -> bool where
    T: UnderlyingStream<C, I, E>,
    C: Clone + Send,
 {
    match polled {
        Poll::Ready(Some(item)) => call_ensures(T::is_read_disconnect_error, (&item,), lost),
        Poll::Ready(None) => lost,
        Poll::Pending => !lost,
    }
}

/// Whether `lost` is a possible verdict on what writing to the sink gave: it failed, and
/// `T` takes the error for a disconnect.
pub open spec fn write_detects<T, C, I, E, X>(polled: Poll<Result<X, E>>, lost: bool) -> bool where
    T: UnderlyingStream<C, I, E>,
    C: Clone + Send,
 {
    match polled {
        Poll::Ready(Err(err)) => call_ensures(T::is_write_disconnect_error, (&err,), lost),
        _ => !lost,
    }
}

/// Whether `step` answers a read: with what the stream gave, unless that shows that the
/// connection is lost; with nothing yet while the connection is being restored; with the
/// end of the stream once that has been given up.
pub open spec fn read_answer<T, C, I, E>(
    stream: T::Stream,
    input: Input<Option<I>, T::Stream, E>,
    step: Step<Option<I>, T::Stream>,
) -> bool where T: UnderlyingStream<C, I, E>, C: Clone + Send {
    match input {
        Input::Stream(polled) => exists|lost: bool| #[trigger]
            read_detects::<T, C, I, E>(polled, lost) && step.delivers(polled, lost),
        Input::Attempt(attempt) => step.restores(stream, attempt),
        Input::Nothing => step.settles(Poll::Ready(None)),
    }
}

/// Whether `step` answers a write that is not a close: with what the sink gave, unless
/// that shows that the connection is lost; with nothing yet while the connection is being
/// restored; with the error of `T` for this case once that has been given up.
pub open spec fn write_answer<T, C, I, E>(
    stream: T::Stream,
    input: Input<Result<(), E>, T::Stream, E>,
    step: Step<Result<(), E>, T::Stream>,
) -> bool where T: UnderlyingStream<C, I, E>, C: Clone + Send {
    match input {
        Input::Stream(polled) => exists|lost: bool| #[trigger]
            write_detects::<T, C, I, E, ()>(polled, lost) && step.delivers(polled, lost),
        Input::Attempt(attempt) => step.restores(stream, attempt),
        Input::Nothing => exists|err: E| #[trigger]
            call_ensures(T::exhaust_err, (), err) && step.settles(Poll::Ready(Err(err))),
    }
}

/// Whether `step` answers a close: with what closing the sink gave; with nothing yet
/// during an outage; with the error of `T` for this case once the connection has been
/// given up.
pub open spec fn close_answer<T, C, I, E, R>(
    status: Status<R>,
    input: Input<Result<(), E>, T::Stream, E>,
    step: Step<Result<(), E>, T::Stream>,
) -> bool where T: UnderlyingStream<C, I, E>, C: Clone + Send {
    match input {
        Input::Stream(polled) => step.closes(polled),
        _ => if status is FailedAndExhausted {
            exists|err: E| #[trigger]
                call_ensures(T::exhaust_err, (), err) && step.settles(Poll::Ready(Err(err)))
        } else {
            step.settles(Poll::Pending)
        },
    }
}

impl<T, C, I, E, F, R> ReconnectStream<T, C, I, E, F, R> where
    T: UnderlyingStream<C, I, E>,
    C: Clone + Send,
 {
    /// The underlying stream.
    pub fn deref(&self) -> (stream: &T::Stream)
        ensures
            *stream == self.stream,
    {
        &self.stream
    }

    /// The underlying stream, to be used in place.
    pub fn deref_mut(&mut self) -> (stream: &mut T::Stream)
        ensures
            *stream == old(self).stream,
            *final(self) == (ReconnectStream::<T, C, I, E, F, R> {
                stream: *final(stream),
                ..*old(self)
            }),
    {
        &mut self.stream
    }

    /// What has to be polled before [`Self::poll_next`], [`Self::poll_ready`] or
    /// [`Self::poll_flush`].
    pub fn target(&self) -> (target: Target)
        ensures
            target == poll_target(self.status),
    {
        self.status.target()
    }

    /// What has to be polled before [`Self::poll_close`].
    pub fn close_target(&self) -> (target: Target)
        ensures
            target == close_target(self.status),
    {
        self.status.close_target()
    }

    /// Whether what writing to the sink gave shows that the connection is lost.
    pub fn is_write_disconnect_detected<X>(&self, poll_result: &Poll<Result<X, E>>) -> (lost: bool)
        ensures
            write_detects::<T, C, I, E, X>(*poll_result, lost),
    {
        match poll_result {
            Poll::Ready(Err(err)) => T::is_write_disconnect_error(err),
            _ => false,
        }
    }

    /// Whether what reading from the stream gave shows that the connection is lost.
    pub fn is_read_disconnect_detected(&self, poll_result: &Poll<Option<I>>) -> (lost: bool)
        ensures
            read_detects::<T, C, I, E>(*poll_result, lost),
    {
        match poll_result {
            Poll::Ready(Some(item)) => T::is_read_disconnect_error(item),
            Poll::Ready(None) => true,
            Poll::Pending => false,
        }
    }

    /// Answers a read.
    ///
    /// A lost connection does not show: the read stays pending until the connection is
    /// restored. The stream ends only once no attempt to reconnect is left.
    pub fn poll_next(&mut self, input: Input<Option<I>, T::Stream, E>) -> (step: Step<
        Option<I>,
        T::Stream,
    >)
        requires
            input.target() == poll_target(old(self).status),
        ensures
            read_answer::<T, C, I, E>(old(self).stream, input, step),
            *final(self) == (ReconnectStream::<T, C, I, E, F, R> {
                status: status_after(old(self).status, input),
                stream: stream_after(old(self).stream, input),
                ..*old(self)
            }),
    {
        match input {
            Input::Stream(polled) => {
                let lost = self.is_read_disconnect_detected(&polled);
                deliver(polled, lost)
            },
            Input::Attempt(attempt) => Step {
                poll: Poll::Pending,
                effect: self.status.poll_disconnect(&mut self.stream, attempt),
            },
            Input::Nothing => Step { poll: Poll::Ready(None), effect: Effect::Nothing },
        }
    }

    /// Answers a write that is not a close.
    fn poll_write(&mut self, input: Input<Result<(), E>, T::Stream, E>) -> (step: Step<
        Result<(), E>,
        T::Stream,
    >)
        requires
            input.target() == poll_target(old(self).status),
        ensures
            write_answer::<T, C, I, E>(old(self).stream, input, step),
            *final(self) == (ReconnectStream::<T, C, I, E, F, R> {
                status: status_after(old(self).status, input),
                stream: stream_after(old(self).stream, input),
                ..*old(self)
            }),
    {
        match input {
            Input::Stream(polled) => {
                let lost = self.is_write_disconnect_detected(&polled);
                deliver(polled, lost)
            },
            Input::Attempt(attempt) => Step {
                poll: Poll::Pending,
                effect: self.status.poll_disconnect(&mut self.stream, attempt),
            },
            Input::Nothing => Step {
                poll: Poll::Ready(Err(T::exhaust_err())),
                effect: Effect::Nothing,
            },
        }
    }

    /// Answers a poll for readiness to send.
    pub fn poll_ready(&mut self, input: Input<Result<(), E>, T::Stream, E>) -> (step: Step<
        Result<(), E>,
        T::Stream,
    >)
        requires
            input.target() == poll_target(old(self).status),
        ensures
            write_answer::<T, C, I, E>(old(self).stream, input, step),
            *final(self) == (ReconnectStream::<T, C, I, E, F, R> {
                status: status_after(old(self).status, input),
                stream: stream_after(old(self).stream, input),
                ..*old(self)
            }),
    {
        self.poll_write(input)
    }

    /// Answers a flush.
    pub fn poll_flush(&mut self, input: Input<Result<(), E>, T::Stream, E>) -> (step: Step<
        Result<(), E>,
        T::Stream,
    >)
        requires
            input.target() == poll_target(old(self).status),
        ensures
            write_answer::<T, C, I, E>(old(self).stream, input, step),
            *final(self) == (ReconnectStream::<T, C, I, E, F, R> {
                status: status_after(old(self).status, input),
                stream: stream_after(old(self).stream, input),
                ..*old(self)
            }),
    {
        self.poll_write(input)
    }

    /// Answers a close. It changes nothing by itself: where the connection is gone
    /// afterwards, the effect says so.
    pub fn poll_close(&self, input: Input<Result<(), E>, T::Stream, E>) -> (step: Step<
        Result<(), E>,
        T::Stream,
    >)
        requires
            input.target() == close_target(self.status),
        ensures
            close_answer::<T, C, I, E, R>(self.status, input, step),
    {
        match input {
            Input::Stream(polled) => {
                let effect = match &polled {
                    Poll::Ready(_) => Effect::Disconnect(Callback::OnDisconnect),
                    Poll::Pending => Effect::Nothing,
                };
                Step { poll: polled, effect }
            },
            _ => {
                let poll = match &self.status {
                    Status::FailedAndExhausted => Poll::Ready(Err(T::exhaust_err())),
                    _ => Poll::Pending,
                };
                Step { poll, effect: Effect::Nothing }
            },
        }
    }
}

impl<T, C, I, E, F, R> ReconnectStream<T, C, I, E, F, R> where
    T: UnderlyingStream<C, I, E>,
    C: Clone + Send,
    F: Fn() -> R,
    R: Iterator<Item = Delay>,
 {
    /// Records that the connection is lost, or that the pending attempt to reconnect has
    /// failed, and plans the next attempt.
    ///
    /// The delay is the next one of the outage. An outage begins with fresh delays.
    pub fn on_disconnect(&mut self) -> (plan: Plan<C>)
        requires
            old(self).status.can_disconnect(),
            old(self).status is Connected ==> call_requires(
                old(self).options.retries_to_attempt_fn,
                (),
            ),
        ensures
            *final(self) == (ReconnectStream::<T, C, I, E, F, R> {
                status: final(self).status,
                ..*old(self)
            }),
            final(self).status.phase() == lose(old(self).status.phase(), plan.delay()),
            plan matches Plan::Attempt { attempt_num, ctor_arg, .. } ==> {
                &&& final(self).status.phase() == Phase::Disconnected(attempt_num as nat)
                &&& cloned(old(self).ctor_arg, ctor_arg)
            },
            exists|retries: R, it: &mut R|
                {
                    &&& #[trigger] old(self).status.takes_from(old(self).options, retries)
                    &&& *it == retries
                    &&& #[trigger] call_ensures(R::next, (it,), plan.delay())
                    &&& plan is Attempt ==> final(self).status.retries() == *final(it)
                    &&& retries.obeys_prophetic_iter_laws() ==> {
                        &&& plan.delay() == first_delay(retries.remaining())
                        &&& plan is Attempt ==> {
                            &&& final(self).status.retries().obeys_prophetic_iter_laws()
                            &&& final(self).status.retries().remaining()
                                == retries.remaining().drop_first()
                        }
                    }
                },
    {
        self.status.on_disconnect(&self.options, &self.ctor_arg)
    }

    /// Begins to connect. The second part of the result is the argument for the first
    /// attempt; its result goes to [`Self::on_established`].
    pub fn connect_with_options(ctor_arg: C, options: ReconnectOptions<F>) -> (begun: (
        StreamConnecting<C, F, R>,
        C,
    ))
        requires
            call_requires(options.retries_to_attempt_fn, ()),
        ensures
            begun.0.ctor_arg == ctor_arg,
            begun.0.options == options,
            cloned(ctor_arg, begun.1),
            exists|tries: R, it: &mut R|
                {
                    &&& #[trigger] call_ensures(options.retries_to_attempt_fn, (), tries)
                    &&& *it == tries
                    &&& #[trigger] call_ensures(R::next, (it,), begun.0.maybe_delay)
                    &&& begun.0.tries == *final(it)
                    &&& tries.obeys_prophetic_iter_laws() ==> {
                        &&& begun.0.maybe_delay == first_delay(tries.remaining())
                        &&& begun.0.maybe_delay is Some ==> {
                            &&& begun.0.tries.obeys_prophetic_iter_laws()
                            &&& begun.0.tries.remaining() == tries.remaining().drop_first()
                        }
                    }
                },
    {
        let mut tries = (options.retries_to_attempt_fn)();
        let maybe_delay = tries.next();
        let arg = ctor_arg.clone();
        (StreamConnecting { ctor_arg, options, tries, maybe_delay }, arg)
    }

    /// Takes in the result of an attempt to connect.
    ///
    /// The attempt after the last delay is the last one. Its error is the one that is
    /// reported. With `exit_if_first_connect_fails` the first attempt is the last one.
    pub fn on_established(
        connecting: StreamConnecting<C, F, R>,
        result: Result<T::Stream, E>,
    ) -> (step: ConnectStep<Self, (StreamConnecting<C, F, R>, Delay), E>)
        ensures
            match verdict(connecting.may_retry(), result) {
                Verdict::Connected(stream) => {
                    &&& step is Connected
                    &&& step->Connected_0.status is Connected
                    &&& step->Connected_0.stream == stream
                    &&& step->Connected_0.options == connecting.options
                    &&& step->Connected_0.ctor_arg == connecting.ctor_arg
                },
                Verdict::Retry => step == ConnectStep::<Self, _, E>::Retry((connecting, connecting.maybe_delay->0)),
                Verdict::Failed(err) => step == ConnectStep::<
                    Self,
                    (StreamConnecting<C, F, R>, Delay),
                    E,
                >::Failed(err),
            },
    {
        match result {
            Ok(stream) => ConnectStep::Connected(
                ReconnectStream {
                    status: Status::Connected,
                    stream,
                    options: connecting.options,
                    ctor_arg: connecting.ctor_arg,
                    marker: PhantomData,
                },
            ),
            Err(err) => {
                if connecting.options.exit_if_first_connect_fails {
                    return ConnectStep::Failed(err);
                }
                match connecting.maybe_delay {
                    Some(delay) => ConnectStep::Retry((connecting, delay)),
                    None => ConnectStep::Failed(err),
                }
            },
        }
    }
}

/// Whether another attempt follows one that fails, where `delay` is the delay before it.
pub open spec fn may_retry(exit_if_first_connect_fails: bool, delay: Option<Delay>) -> bool {
    !exit_if_first_connect_fails && delay is Some
}

/// A connection of a [`ReconnectStream`] in the making.
pub struct StreamConnecting<C, F, R> {
    pub ctor_arg: C,
    pub options: ReconnectOptions<F>,
    /// The delays after the next one.
    pub tries: R,
    /// The delay before another attempt, should the one that is under way fail.
    pub maybe_delay: Option<Delay>,
}

impl<C, F, R> StreamConnecting<C, F, R> {
    /// Whether another attempt follows the one that is under way, should it fail.
    pub open spec fn may_retry(self) -> bool {
        may_retry(self.options.exit_if_first_connect_fails, self.maybe_delay)
    }
}

impl<C: Clone, F, R: Iterator<Item = Delay>> StreamConnecting<C, F, R> {
    /// Begins another attempt, after the delay. The second part of the result is its
    /// argument.
    pub fn next_try(self) -> (begun: (Self, C))
        ensures
            begun.0.ctor_arg == self.ctor_arg,
            begun.0.options == self.options,
            cloned(self.ctor_arg, begun.1),
            exists|it: &mut R|
                {
                    &&& *it == self.tries
                    &&& #[trigger] call_ensures(R::next, (it,), begun.0.maybe_delay)
                    &&& begun.0.tries == *final(it)
                },
            self.tries.obeys_prophetic_iter_laws() ==> {
                &&& begun.0.maybe_delay == first_delay(self.tries.remaining())
                &&& begun.0.maybe_delay is Some ==> {
                    &&& begun.0.tries.obeys_prophetic_iter_laws()
                    &&& begun.0.tries.remaining() == self.tries.remaining().drop_first()
                }
            },
    {
        let mut connecting = self;
        connecting.maybe_delay = connecting.tries.next();
        let arg = connecting.ctor_arg.clone();
        (connecting, arg)
    }
}

} // verus!
