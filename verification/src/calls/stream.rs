//! What each call on a reconnecting stream does, told by what goes in and what comes out.

use vstd::prelude::*;
use vstd::std_specs::iter::IteratorSpec;

use crate::config::ReconnectOptions;
use crate::connect::ConnectStep;
use crate::delay::Delay;
use crate::events::{Callback, Effect, Input, Plan, Poll, Step, Target};
use crate::status::Status;
use crate::stream::{ReconnectStream, StreamConnecting, UnderlyingStream};

verus! {

/// A read gives an item just if the underlying stream gives it and it is no disconnect. It
/// tells of the end just if the connection has been given up. In all other cases it waits.
pub proof fn read_answers<T, C, I, E, F, R>(
    before: ReconnectStream<T, C, I, E, F, R>,
    input: Input<Option<I>, T::Stream, E>,
    step: Step<Option<I>, T::Stream>,
    after: ReconnectStream<T, C, I, E, F, R>,
) where T: UnderlyingStream<C, I, E>, C: Clone + Send
    requires
        before.status is Connected <==> input is Stream,
        before.status is Disconnected <==> input is Attempt,
        exists|stream: &mut ReconnectStream<T, C, I, E, F, R>|
            *stream == before && *final(stream) == after && #[trigger] call_ensures(
                ReconnectStream::<T, C, I, E, F, R>::poll_next,
                (stream, input),
                step,
            ),
    ensures
        step.poll matches Poll::Ready(Some(item)) ==> {
            &&& input == Input::<Option<I>, T::Stream, E>::Stream(Poll::Ready(Some(item)))
            &&& call_ensures(T::is_read_disconnect_error, (&item,), false)
        },
        input matches Input::Stream(Poll::Ready(Some(item))) ==> {
            ||| step.poll == Poll::Ready(Some(item))
            ||| step.effect is Disconnect && call_ensures(
                T::is_read_disconnect_error,
                (&item,),
                true,
            )
        },
        step.poll == Poll::Ready(None::<I>) <==> before.status is FailedAndExhausted,
        !(step.effect is Nothing) ==> step.poll is Pending,
{
}

/// A read declares a disconnect just if the underlying stream has ended or gives an item
/// that is a disconnect, or the attempt to reconnect has failed. It declares the connection
/// restored just if the attempt has succeeded, and then hands out the stream that was lost.
pub proof fn read_effects<T, C, I, E, F, R>(
    before: ReconnectStream<T, C, I, E, F, R>,
    input: Input<Option<I>, T::Stream, E>,
    step: Step<Option<I>, T::Stream>,
    after: ReconnectStream<T, C, I, E, F, R>,
) where T: UnderlyingStream<C, I, E>, C: Clone + Send
    requires
        before.status is Connected <==> input is Stream,
        before.status is Disconnected <==> input is Attempt,
        exists|stream: &mut ReconnectStream<T, C, I, E, F, R>|
            *stream == before && *final(stream) == after && #[trigger] call_ensures(
                ReconnectStream::<T, C, I, E, F, R>::poll_next,
                (stream, input),
                step,
            ),
    ensures
        step.effect is Disconnect ==> {
            ||| input == Input::<Option<I>, T::Stream, E>::Stream(Poll::Ready(None))
            ||| input matches Input::Attempt(Poll::Ready(Err(_)))
            ||| {
                &&& input matches Input::Stream(Poll::Ready(Some(item)))
                &&& call_ensures(T::is_read_disconnect_error, (&item,), true)
            }
        },
        input == Input::<Option<I>, T::Stream, E>::Stream(Poll::Ready(None))
            ==> step.effect is Disconnect,
        (input matches Input::Attempt(Poll::Ready(Err(_)))) ==> step.effect is Disconnect,
        step.effect matches Effect::Disconnect(callback) ==> callback == (
        if before.status is Connected {
            Callback::OnDisconnect
        } else {
            Callback::OnConnectFail
        }),
        step.effect is Reconnect <==> (input matches Input::Attempt(Poll::Ready(Ok(_)))),
        step.effect matches Effect::Reconnect { superseded } ==> superseded == before.stream,
{
}

/// A read changes nothing, unless the attempt to reconnect has succeeded: then the stream
/// that it has established takes over, and nothing else changes.
pub proof fn read_changes<T, C, I, E, F, R>(
    before: ReconnectStream<T, C, I, E, F, R>,
    input: Input<Option<I>, T::Stream, E>,
    step: Step<Option<I>, T::Stream>,
    after: ReconnectStream<T, C, I, E, F, R>,
) where T: UnderlyingStream<C, I, E>, C: Clone + Send
    requires
        before.status is Connected <==> input is Stream,
        before.status is Disconnected <==> input is Attempt,
        exists|stream: &mut ReconnectStream<T, C, I, E, F, R>|
            *stream == before && *final(stream) == after && #[trigger] call_ensures(
                ReconnectStream::<T, C, I, E, F, R>::poll_next,
                (stream, input),
                step,
            ),
    ensures
        after.options == before.options,
        after.ctor_arg == before.ctor_arg,
        input matches Input::Attempt(Poll::Ready(Ok(established))) ==> after.status is Connected
            && after.stream == established,
        !(input matches Input::Attempt(Poll::Ready(Ok(_)))) ==> after == before,
{
}

/// A write that is not a close succeeds just if the underlying stream does. It fails just
/// if the stream gives an error that is no disconnect, which is then passed on, or if the
/// connection has been given up. In all other cases it waits.
pub proof fn write_answers<T, C, I, E, F, R>(
    before: ReconnectStream<T, C, I, E, F, R>,
    input: Input<Result<(), E>, T::Stream, E>,
    step: Step<Result<(), E>, T::Stream>,
    after: ReconnectStream<T, C, I, E, F, R>,
) where T: UnderlyingStream<C, I, E>, C: Clone + Send
    requires
        before.status is Connected <==> input is Stream,
        before.status is Disconnected <==> input is Attempt,
        ({
            ||| exists|stream: &mut ReconnectStream<T, C, I, E, F, R>|
                *stream == before && *final(stream) == after && #[trigger] call_ensures(
                    ReconnectStream::<T, C, I, E, F, R>::poll_ready,
                    (stream, input),
                    step,
                )
            ||| exists|stream: &mut ReconnectStream<T, C, I, E, F, R>|
                *stream == before && *final(stream) == after && #[trigger] call_ensures(
                    ReconnectStream::<T, C, I, E, F, R>::poll_flush,
                    (stream, input),
                    step,
                )
        }),
    ensures
        step.poll == Poll::Ready(Ok::<(), E>(())) <==> input == Input::<
            Result<(), E>,
            T::Stream,
            E,
        >::Stream(Poll::Ready(Ok(()))),
        step.poll matches Poll::Ready(Err(err)) ==> {
            ||| before.status is FailedAndExhausted && call_ensures(T::exhaust_err, (), err)
            ||| input == Input::<Result<(), E>, T::Stream, E>::Stream(Poll::Ready(Err(err)))
                && call_ensures(T::is_write_disconnect_error, (&err,), false)
        },
        before.status is FailedAndExhausted ==> (step.poll matches Poll::Ready(Err(_))),
        input matches Input::Stream(Poll::Ready(Err(err))) ==> {
            ||| step.poll == Poll::Ready(Err::<(), E>(err))
            ||| step.effect is Disconnect && call_ensures(
                T::is_write_disconnect_error,
                (&err,),
                true,
            )
        },
        !(step.effect is Nothing) ==> step.poll is Pending,
{
}

/// A write that is not a close declares a disconnect just if the underlying stream gives an
/// error that is one, or the attempt to reconnect has failed: never while either is merely
/// pending, nor when the stream succeeds. It declares the connection restored just if the
/// attempt has succeeded, and then hands out the stream that was lost.
pub proof fn write_effects<T, C, I, E, F, R>(
    before: ReconnectStream<T, C, I, E, F, R>,
    input: Input<Result<(), E>, T::Stream, E>,
    step: Step<Result<(), E>, T::Stream>,
    after: ReconnectStream<T, C, I, E, F, R>,
) where T: UnderlyingStream<C, I, E>, C: Clone + Send
    requires
        before.status is Connected <==> input is Stream,
        before.status is Disconnected <==> input is Attempt,
        ({
            ||| exists|stream: &mut ReconnectStream<T, C, I, E, F, R>|
                *stream == before && *final(stream) == after && #[trigger] call_ensures(
                    ReconnectStream::<T, C, I, E, F, R>::poll_ready,
                    (stream, input),
                    step,
                )
            ||| exists|stream: &mut ReconnectStream<T, C, I, E, F, R>|
                *stream == before && *final(stream) == after && #[trigger] call_ensures(
                    ReconnectStream::<T, C, I, E, F, R>::poll_flush,
                    (stream, input),
                    step,
                )
        }),
    ensures
        step.effect is Disconnect && before.status is Connected ==> {
            &&& input matches Input::Stream(Poll::Ready(Err(err)))
            &&& call_ensures(T::is_write_disconnect_error, (&err,), true)
        },
        before.status is Disconnected ==> (step.effect is Disconnect <==> (
        input matches Input::Attempt(Poll::Ready(Err(_))))),
        before.status is FailedAndExhausted ==> step.effect is Nothing,
        step.effect matches Effect::Disconnect(callback) ==> callback == (
        if before.status is Connected {
            Callback::OnDisconnect
        } else {
            Callback::OnConnectFail
        }),
        step.effect is Reconnect <==> (input matches Input::Attempt(Poll::Ready(Ok(_)))),
        step.effect matches Effect::Reconnect { superseded } ==> superseded == before.stream,
{
}

/// A write that is not a close changes nothing, unless the attempt to reconnect has
/// succeeded: then the stream that it has established takes over, and nothing else changes.
pub proof fn write_changes<T, C, I, E, F, R>(
    before: ReconnectStream<T, C, I, E, F, R>,
    input: Input<Result<(), E>, T::Stream, E>,
    step: Step<Result<(), E>, T::Stream>,
    after: ReconnectStream<T, C, I, E, F, R>,
) where T: UnderlyingStream<C, I, E>, C: Clone + Send
    requires
        before.status is Connected <==> input is Stream,
        before.status is Disconnected <==> input is Attempt,
        ({
            ||| exists|stream: &mut ReconnectStream<T, C, I, E, F, R>|
                *stream == before && *final(stream) == after && #[trigger] call_ensures(
                    ReconnectStream::<T, C, I, E, F, R>::poll_ready,
                    (stream, input),
                    step,
                )
            ||| exists|stream: &mut ReconnectStream<T, C, I, E, F, R>|
                *stream == before && *final(stream) == after && #[trigger] call_ensures(
                    ReconnectStream::<T, C, I, E, F, R>::poll_flush,
                    (stream, input),
                    step,
                )
        }),
    ensures
        after.options == before.options,
        after.ctor_arg == before.ctor_arg,
        input matches Input::Attempt(Poll::Ready(Ok(established))) ==> after.status is Connected
            && after.stream == established,
        !(input matches Input::Attempt(Poll::Ready(Ok(_)))) ==> after == before,
{
}

/// A close is answered with just what closing the underlying stream gives, and ends the
/// connection just if that is there. It waits in an outage, and fails for lack of retries
/// just if the connection has been given up.
pub proof fn close_answers<T, C, I, E, F, R>(
    stream: ReconnectStream<T, C, I, E, F, R>,
    input: Input<Result<(), E>, T::Stream, E>,
    step: Step<Result<(), E>, T::Stream>,
) where T: UnderlyingStream<C, I, E>, C: Clone + Send
    requires
        stream.status is Connected <==> input is Stream,
        !(input is Attempt),
        call_ensures(ReconnectStream::<T, C, I, E, F, R>::poll_close, (&stream, input), step),
    ensures
        input matches Input::Stream(polled) ==> step.poll == polled,
        step.effect == Effect::<T::Stream>::Disconnect(Callback::OnDisconnect) <==> (
        input matches Input::Stream(Poll::Ready(_))),
        step.effect is Nothing <==> !(input matches Input::Stream(Poll::Ready(_))),
        stream.status is Disconnected ==> step.poll is Pending,
        stream.status is FailedAndExhausted ==> {
            &&& step.poll matches Poll::Ready(Err(err))
            &&& call_ensures(T::exhaust_err, (), err)
        },
{
}

/// What has to be polled is the underlying stream while connected, the attempt to reconnect
/// in an outage, and nothing once the connection has been given up. A close polls nothing
/// but the stream, while connected.
pub proof fn targets<T, C, I, E, F, R>(
    stream: ReconnectStream<T, C, I, E, F, R>,
    target: Target,
    close_target: Target,
) where T: UnderlyingStream<C, I, E>, C: Clone + Send
    requires
        call_ensures(ReconnectStream::<T, C, I, E, F, R>::target, (&stream,), target),
        call_ensures(ReconnectStream::<T, C, I, E, F, R>::close_target, (&stream,), close_target),
    ensures
        target is Stream <==> stream.status is Connected,
        target is Attempt <==> stream.status is Disconnected,
        target is Nothing <==> stream.status is FailedAndExhausted,
        close_target is Stream <==> stream.status is Connected,
        close_target is Nothing <==> !(stream.status is Connected),
{
}

/// The underlying stream is what is handed out, to look at and to use in place; using it
/// changes nothing else.
pub proof fn underlying_is_handed_out<T, C, I, E, F, R>(
    before: ReconnectStream<T, C, I, E, F, R>,
    seen: T::Stream,
    used: T::Stream,
    left: T::Stream,
    after: ReconnectStream<T, C, I, E, F, R>,
) where T: UnderlyingStream<C, I, E>, C: Clone + Send
    requires
        call_ensures(ReconnectStream::<T, C, I, E, F, R>::deref, (&before,), &seen),
        exists|stream: &mut ReconnectStream<T, C, I, E, F, R>, lent: &mut T::Stream|
            *stream == before && *final(stream) == after && *lent == used && *final(lent) == left
                && #[trigger] call_ensures(
                ReconnectStream::<T, C, I, E, F, R>::deref_mut,
                (stream,),
                lent,
            ),
    ensures
        seen == before.stream,
        used == before.stream,
        after.stream == left,
        after.status == before.status,
        after.options == before.options,
        after.ctor_arg == before.ctor_arg,
{
}

/// Only an error can show in a write that the connection is lost, and just if the type says
/// so.
pub proof fn write_verdict<T, C, I, E, F, R, X>(
    stream: ReconnectStream<T, C, I, E, F, R>,
    polled: Poll<Result<X, E>>,
    lost: bool,
) where T: UnderlyingStream<C, I, E>, C: Clone + Send
    requires
        call_ensures(
            ReconnectStream::<T, C, I, E, F, R>::is_write_disconnect_detected::<X>,
            (&stream, &polled),
            lost,
        ),
    ensures
        lost ==> (polled matches Poll::Ready(Err(_))),
        polled matches Poll::Ready(Err(err)) ==> call_ensures(
            T::is_write_disconnect_error,
            (&err,),
            lost,
        ),
{
}

/// A disconnect that is recorded leaves an outage with a planned attempt just if a delay is
/// left, and otherwise gives the connection up. The attempts of an outage are counted from
/// one. The next delay is asked for once: of the delays of the outage, or of fresh ones
/// where it begins. Nothing but the state changes.
pub proof fn disconnect_plans<T, C, I, E, F, R>(
    before: ReconnectStream<T, C, I, E, F, R>,
    plan: Plan<C>,
    after: ReconnectStream<T, C, I, E, F, R>,
) where
    T: UnderlyingStream<C, I, E>,
    C: Clone + Send,
    F: Fn() -> R,
    R: Iterator<Item = Delay>,

    requires
        !(before.status is FailedAndExhausted),
        exists|stream: &mut ReconnectStream<T, C, I, E, F, R>|
            *stream == before && *final(stream) == after && #[trigger] call_ensures(
                ReconnectStream::<T, C, I, E, F, R>::on_disconnect,
                (stream,),
                plan,
            ),
    ensures
        after.stream == before.stream,
        after.options == before.options,
        after.ctor_arg == before.ctor_arg,
        plan is Attempt <==> after.status is Disconnected,
        plan is GiveUp <==> after.status is FailedAndExhausted,
        plan matches Plan::Attempt { attempt_num, ctor_arg, .. } ==> {
            &&& cloned(before.ctor_arg, ctor_arg)
            &&& after.status->Disconnected_0.attempts_tracker.attempt_num == attempt_num
            &&& before.status is Connected ==> attempt_num == 1
            &&& before.status is Disconnected ==> attempt_num
                == before.status->Disconnected_0.attempts_tracker.attempt_num + 1
        },
        exists|it: &mut R, next: Option<Delay>|
            {
                &&& before.status is Connected ==> call_ensures(
                    before.options.retries_to_attempt_fn,
                    (),
                    *it,
                )
                &&& before.status is Disconnected ==> *it
                    == before.status->Disconnected_0.attempts_tracker.retries_remaining
                &&& #[trigger] call_ensures(R::next, (it,), next)
                &&& next is None <==> plan is GiveUp
                &&& plan matches Plan::Attempt { delay, .. } ==> {
                    &&& next == Some(delay)
                    &&& *final(it)
                        == after.status->Disconnected_0.attempts_tracker.retries_remaining
                }
            },
{
    assert(exists|retries: R, it: &mut R|
        {
            &&& #[trigger] before.status.takes_from(before.options, retries)
            &&& *it == retries
            &&& #[trigger] call_ensures(R::next, (it,), plan.delay())
            &&& plan is Attempt ==> after.status.retries() == *final(it)
        });
}

/// Where the delays are those of a sequence, the planned delay is the first one that is
/// left of it, and the ones after it are left for the rest of the outage.
pub proof fn disconnect_takes_delays_in_order<T, C, I, E, F, R>(
    before: ReconnectStream<T, C, I, E, F, R>,
    delays: Seq<Delay>,
    plan: Plan<C>,
    after: ReconnectStream<T, C, I, E, F, R>,
) where
    T: UnderlyingStream<C, I, E>,
    C: Clone + Send,
    F: Fn() -> R,
    R: Iterator<Item = Delay>,

    requires
        before.status matches Status::Disconnected(_) ==> {
            let left = before.status->Disconnected_0.attempts_tracker.retries_remaining;
            left.obeys_prophetic_iter_laws() && left.remaining() == delays
        },
        before.status is Connected ==> forall|fresh: R| #[trigger]
            call_ensures(before.options.retries_to_attempt_fn, (), fresh)
                ==> fresh.obeys_prophetic_iter_laws() && fresh.remaining() == delays,
        !(before.status is FailedAndExhausted),
        exists|stream: &mut ReconnectStream<T, C, I, E, F, R>|
            *stream == before && *final(stream) == after && #[trigger] call_ensures(
                ReconnectStream::<T, C, I, E, F, R>::on_disconnect,
                (stream,),
                plan,
            ),
    ensures
        plan is GiveUp <==> delays.len() == 0,
        plan matches Plan::Attempt { delay, .. } ==> {
            let left = after.status->Disconnected_0.attempts_tracker.retries_remaining;
            &&& delay == delays[0]
            &&& left.obeys_prophetic_iter_laws()
            &&& left.remaining() == delays.drop_first()
        },
{
}

/// The end of the stream shows in a read that the connection is lost, an item does just if
/// the type says so, and nothing else does.
pub proof fn read_verdict<T, C, I, E, F, R>(
    stream: ReconnectStream<T, C, I, E, F, R>,
    polled: Poll<Option<I>>,
    lost: bool,
) where T: UnderlyingStream<C, I, E>, C: Clone + Send
    requires
        call_ensures(
            ReconnectStream::<T, C, I, E, F, R>::is_read_disconnect_detected,
            (&stream, &polled),
            lost,
        ),
    ensures
        polled == Poll::Ready(None::<I>) ==> lost,
        polled is Pending ==> !lost,
        polled matches Poll::Ready(Some(item)) ==> call_ensures(
            T::is_read_disconnect_error,
            (&item,),
            lost,
        ),
{
}

/// Connecting begins with an attempt whose argument is a clone of the one that is kept, and
/// with the first of fresh delays at hand.
pub proof fn connect_begins<T, C, I, E, F, R>(
    ctor_arg: C,
    options: ReconnectOptions<F>,
    begun: (StreamConnecting<C, F, R>, C),
) where
    T: UnderlyingStream<C, I, E>,
    C: Clone + Send,
    F: Fn() -> R,
    R: Iterator<Item = Delay>,

    requires
        call_ensures(
            ReconnectStream::<T, C, I, E, F, R>::connect_with_options,
            (ctor_arg, options),
            begun,
        ),
    ensures
        begun.0.ctor_arg == ctor_arg,
        begun.0.options == options,
        cloned(ctor_arg, begun.1),
        exists|tries: R, it: &mut R|
            {
                &&& #[trigger] call_ensures(options.retries_to_attempt_fn, (), tries)
                &&& *it == tries
                &&& #[trigger] call_ensures(R::next, (it,), begun.0.maybe_delay)
                &&& begun.0.tries == *final(it)
            },
{
}

/// Where the delays are those of a sequence, connecting begins with the first one of it at
/// hand, and the ones after it are left.
pub proof fn connect_takes_delays_in_order<T, C, I, E, F, R>(
    ctor_arg: C,
    options: ReconnectOptions<F>,
    delays: Seq<Delay>,
    begun: (StreamConnecting<C, F, R>, C),
) where
    T: UnderlyingStream<C, I, E>,
    C: Clone + Send,
    F: Fn() -> R,
    R: Iterator<Item = Delay>,

    requires
        forall|tries: R| #[trigger]
            call_ensures(options.retries_to_attempt_fn, (), tries)
                ==> tries.obeys_prophetic_iter_laws() && tries.remaining() == delays,
        call_ensures(
            ReconnectStream::<T, C, I, E, F, R>::connect_with_options,
            (ctor_arg, options),
            begun,
        ),
    ensures
        begun.0.maybe_delay is Some <==> delays.len() > 0,
        begun.0.maybe_delay matches Some(delay) ==> {
            &&& delay == delays[0]
            &&& begun.0.tries.obeys_prophetic_iter_laws()
            &&& begun.0.tries.remaining() == delays.drop_first()
        },
{
}

/// An attempt that succeeds connects. One that fails is followed by another one just if a
/// delay is at hand and the first failure need not settle it; otherwise its error is
/// reported.
pub proof fn attempt_settles<T, C, I, E, F, R>(
    connecting: StreamConnecting<C, F, R>,
    result: Result<T::Stream, E>,
    step: ConnectStep<ReconnectStream<T, C, I, E, F, R>, (StreamConnecting<C, F, R>, Delay), E>,
) where
    T: UnderlyingStream<C, I, E>,
    C: Clone + Send,
    F: Fn() -> R,
    R: Iterator<Item = Delay>,

    requires
        call_ensures(
            ReconnectStream::<T, C, I, E, F, R>::on_established,
            (connecting, result),
            step,
        ),
    ensures
        step is Connected <==> result is Ok,
        step matches ConnectStep::Connected(connected) ==> {
            &&& connected.stream == result->Ok_0
            &&& connected.status is Connected
            &&& connected.options == connecting.options
            &&& connected.ctor_arg == connecting.ctor_arg
        },
        step is Retry <==> result is Err && connecting.maybe_delay is Some
            && !connecting.options.exit_if_first_connect_fails,
        step matches ConnectStep::Retry((waiting, delay)) ==> waiting == connecting
            && connecting.maybe_delay == Some(delay),
        step matches ConnectStep::Failed(err) ==> result->Err_0 == err,
{
}

/// Another attempt has a clone of the argument that is kept, and the next delay at hand,
/// which is asked for once.
pub proof fn next_try_begins<C: Clone, F, R: Iterator<Item = Delay>>(
    connecting: StreamConnecting<C, F, R>,
    begun: (StreamConnecting<C, F, R>, C),
)
    requires
        call_ensures(StreamConnecting::<C, F, R>::next_try, (connecting,), begun),
    ensures
        begun.0.ctor_arg == connecting.ctor_arg,
        begun.0.options == connecting.options,
        cloned(connecting.ctor_arg, begun.1),
        exists|it: &mut R|
            {
                &&& *it == connecting.tries
                &&& #[trigger] call_ensures(R::next, (it,), begun.0.maybe_delay)
                &&& begun.0.tries == *final(it)
            },
        connecting.tries.obeys_prophetic_iter_laws() ==> {
            &&& begun.0.maybe_delay is Some <==> connecting.tries.remaining().len() > 0
            &&& begun.0.maybe_delay matches Some(delay) ==> {
                &&& delay == connecting.tries.remaining()[0]
                &&& begun.0.tries.obeys_prophetic_iter_laws()
                &&& begun.0.tries.remaining() == connecting.tries.remaining().drop_first()
            }
        },
{
}

} // verus!
