//! What each call on reconnecting IO does, told by what goes in and what comes out.

use vstd::prelude::*;
use vstd::std_specs::iter::IteratorSpec;

use crate::config::ReconnectOptions;
use crate::connect::ConnectStep;
use crate::delay::Delay;
use crate::events::{Callback, Effect, Input, Plan, Poll, Step, Target};
use crate::status::Status;
use crate::tokio::io::{IoConnecting, StubbornIo, UnderlyingIo};

verus! {

/// A read gives an item just if the underlying IO gives it. It tells of the end just if the
/// connection has been given up. In all other cases it waits.
pub proof fn read_answers<T, C, I, E, F, R>(
    before: StubbornIo<T, C, E, F, R>,
    input: Input<Option<I>, T, E>,
    step: Step<Option<I>, T>,
    after: StubbornIo<T, C, E, F, R>,
) where T: UnderlyingIo<C, E>, C: Clone + Send
    requires
        before.status is Connected <==> input is Stream,
        before.status is Disconnected <==> input is Attempt,
        exists|io: &mut StubbornIo<T, C, E, F, R>|
            *io == before && *final(io) == after && #[trigger] call_ensures(
                StubbornIo::<T, C, E, F, R>::poll_next::<I>,
                (io, input),
                step,
            ),
    ensures
        step.poll matches Poll::Ready(Some(item)) ==> input == Input::<Option<I>, T, E>::Stream(
            Poll::Ready(Some(item)),
        ),
        input matches Input::Stream(Poll::Ready(Some(item))) ==> step.poll == Poll::Ready(
            Some(item),
        ),
        step.poll == Poll::Ready(None::<I>) <==> before.status is FailedAndExhausted,
        !(step.effect is Nothing) ==> step.poll is Pending,
{
}

/// A read declares a disconnect just if the underlying IO has ended, or the attempt to
/// reconnect has failed. It declares the connection restored just if the attempt has
/// succeeded, and then hands out the IO that was lost.
pub proof fn read_effects<T, C, I, E, F, R>(
    before: StubbornIo<T, C, E, F, R>,
    input: Input<Option<I>, T, E>,
    step: Step<Option<I>, T>,
    after: StubbornIo<T, C, E, F, R>,
) where T: UnderlyingIo<C, E>, C: Clone + Send
    requires
        before.status is Connected <==> input is Stream,
        before.status is Disconnected <==> input is Attempt,
        exists|io: &mut StubbornIo<T, C, E, F, R>|
            *io == before && *final(io) == after && #[trigger] call_ensures(
                StubbornIo::<T, C, E, F, R>::poll_next::<I>,
                (io, input),
                step,
            ),
    ensures
        step.effect is Disconnect ==> {
            ||| input == Input::<Option<I>, T, E>::Stream(Poll::Ready(None))
            ||| input matches Input::Attempt(Poll::Ready(Err(_)))
        },
        input == Input::<Option<I>, T, E>::Stream(Poll::Ready(None)) ==> step.effect is Disconnect,
        (input matches Input::Attempt(Poll::Ready(Err(_)))) ==> step.effect is Disconnect,
        step.effect matches Effect::Disconnect(callback) ==> callback == (
        if before.status is Connected {
            Callback::OnDisconnect
        } else {
            Callback::OnConnectFail
        }),
        step.effect is Reconnect <==> (input matches Input::Attempt(Poll::Ready(Ok(_)))),
        step.effect matches Effect::Reconnect { superseded } ==> superseded == before.underlying_io,
{
}

/// A read changes nothing, unless the attempt to reconnect has succeeded: then the IO that
/// it has established takes over, and nothing else changes.
pub proof fn read_changes<T, C, I, E, F, R>(
    before: StubbornIo<T, C, E, F, R>,
    input: Input<Option<I>, T, E>,
    step: Step<Option<I>, T>,
    after: StubbornIo<T, C, E, F, R>,
) where T: UnderlyingIo<C, E>, C: Clone + Send
    requires
        before.status is Connected <==> input is Stream,
        before.status is Disconnected <==> input is Attempt,
        exists|io: &mut StubbornIo<T, C, E, F, R>|
            *io == before && *final(io) == after && #[trigger] call_ensures(
                StubbornIo::<T, C, E, F, R>::poll_next::<I>,
                (io, input),
                step,
            ),
    ensures
        after.options == before.options,
        after.ctor_arg == before.ctor_arg,
        input matches Input::Attempt(Poll::Ready(Ok(established))) ==> after.status is Connected
            && after.underlying_io == established,
        !(input matches Input::Attempt(Poll::Ready(Ok(_)))) ==> after == before,
{
}

/// A write that is not a close succeeds just if the underlying IO does. It fails just if
/// the IO gives an error that is no disconnect, which is then passed on, or if the
/// connection has been given up. In all other cases it waits.
pub proof fn write_answers<T, C, E, F, R>(
    before: StubbornIo<T, C, E, F, R>,
    input: Input<Result<(), E>, T, E>,
    step: Step<Result<(), E>, T>,
    after: StubbornIo<T, C, E, F, R>,
) where T: UnderlyingIo<C, E>, C: Clone + Send
    requires
        before.status is Connected <==> input is Stream,
        before.status is Disconnected <==> input is Attempt,
        ({
            ||| exists|io: &mut StubbornIo<T, C, E, F, R>|
                *io == before && *final(io) == after && #[trigger] call_ensures(
                    StubbornIo::<T, C, E, F, R>::poll_ready,
                    (io, input),
                    step,
                )
            ||| exists|io: &mut StubbornIo<T, C, E, F, R>|
                *io == before && *final(io) == after && #[trigger] call_ensures(
                    StubbornIo::<T, C, E, F, R>::poll_flush,
                    (io, input),
                    step,
                )
        }),
    ensures
        step.poll == Poll::Ready(Ok::<(), E>(())) <==> input == Input::<
            Result<(), E>,
            T,
            E,
        >::Stream(Poll::Ready(Ok(()))),
        step.poll matches Poll::Ready(Err(err)) ==> {
            ||| before.status is FailedAndExhausted && call_ensures(T::exhaust_err, (), err)
            ||| input == Input::<Result<(), E>, T, E>::Stream(Poll::Ready(Err(err)))
                && call_ensures(T::is_disconnect_error, (&before.underlying_io, &err), false)
        },
        before.status is FailedAndExhausted ==> (step.poll matches Poll::Ready(Err(_))),
        input matches Input::Stream(Poll::Ready(Err(err))) ==> {
            ||| step.poll == Poll::Ready(Err::<(), E>(err))
            ||| step.effect is Disconnect && call_ensures(
                T::is_disconnect_error,
                (&before.underlying_io, &err),
                true,
            )
        },
        !(step.effect is Nothing) ==> step.poll is Pending,
{
}

/// A write that is not a close declares a disconnect just if the underlying IO gives an
/// error that is one, or the attempt to reconnect has failed: never while either is merely
/// pending, nor when the IO succeeds. It declares the connection restored just if the
/// attempt has succeeded, and then hands out the IO that was lost.
pub proof fn write_effects<T, C, E, F, R>(
    before: StubbornIo<T, C, E, F, R>,
    input: Input<Result<(), E>, T, E>,
    step: Step<Result<(), E>, T>,
    after: StubbornIo<T, C, E, F, R>,
) where T: UnderlyingIo<C, E>, C: Clone + Send
    requires
        before.status is Connected <==> input is Stream,
        before.status is Disconnected <==> input is Attempt,
        ({
            ||| exists|io: &mut StubbornIo<T, C, E, F, R>|
                *io == before && *final(io) == after && #[trigger] call_ensures(
                    StubbornIo::<T, C, E, F, R>::poll_ready,
                    (io, input),
                    step,
                )
            ||| exists|io: &mut StubbornIo<T, C, E, F, R>|
                *io == before && *final(io) == after && #[trigger] call_ensures(
                    StubbornIo::<T, C, E, F, R>::poll_flush,
                    (io, input),
                    step,
                )
        }),
    ensures
        step.effect is Disconnect && before.status is Connected ==> {
            &&& input matches Input::Stream(Poll::Ready(Err(err)))
            &&& call_ensures(T::is_disconnect_error, (&before.underlying_io, &err), true)
        },
        before.status is Disconnected ==> (step.effect is Disconnect <==> (
        input matches Input::Attempt(Poll::Ready(Err(_))))),
        before.status is FailedAndExhausted ==> step.effect is Nothing,
        step.effect matches Effect::Disconnect(callback) ==> callback == (
        if before.status is Connected {
            Callback::OnDisconnect
        } else {
            Callback::OnConnectFail
        }),
        step.effect is Reconnect <==> (input matches Input::Attempt(Poll::Ready(Ok(_)))),
        step.effect matches Effect::Reconnect { superseded } ==> superseded == before.underlying_io,
{
}

/// A write that is not a close changes nothing, unless the attempt to reconnect has
/// succeeded: then the IO that it has established takes over, and nothing else changes.
pub proof fn write_changes<T, C, E, F, R>(
    before: StubbornIo<T, C, E, F, R>,
    input: Input<Result<(), E>, T, E>,
    step: Step<Result<(), E>, T>,
    after: StubbornIo<T, C, E, F, R>,
) where T: UnderlyingIo<C, E>, C: Clone + Send
    requires
        before.status is Connected <==> input is Stream,
        before.status is Disconnected <==> input is Attempt,
        ({
            ||| exists|io: &mut StubbornIo<T, C, E, F, R>|
                *io == before && *final(io) == after && #[trigger] call_ensures(
                    StubbornIo::<T, C, E, F, R>::poll_ready,
                    (io, input),
                    step,
                )
            ||| exists|io: &mut StubbornIo<T, C, E, F, R>|
                *io == before && *final(io) == after && #[trigger] call_ensures(
                    StubbornIo::<T, C, E, F, R>::poll_flush,
                    (io, input),
                    step,
                )
        }),
    ensures
        after.options == before.options,
        after.ctor_arg == before.ctor_arg,
        input matches Input::Attempt(Poll::Ready(Ok(established))) ==> after.status is Connected
            && after.underlying_io == established,
        !(input matches Input::Attempt(Poll::Ready(Ok(_)))) ==> after == before,
{
}

/// A close is answered with just what closing the underlying IO gives, and ends the
/// connection just if that is there. It waits in an outage, and fails for lack of retries
/// just if the connection has been given up.
pub proof fn close_answers<T, C, E, F, R>(
    io: StubbornIo<T, C, E, F, R>,
    input: Input<Result<(), E>, T, E>,
    step: Step<Result<(), E>, T>,
) where T: UnderlyingIo<C, E>, C: Clone + Send
    requires
        io.status is Connected <==> input is Stream,
        !(input is Attempt),
        call_ensures(StubbornIo::<T, C, E, F, R>::poll_close, (&io, input), step),
    ensures
        input matches Input::Stream(polled) ==> step.poll == polled,
        step.effect == Effect::<T>::Disconnect(Callback::OnDisconnect) <==> (
        input matches Input::Stream(Poll::Ready(_))),
        step.effect is Nothing <==> !(input matches Input::Stream(Poll::Ready(_))),
        io.status is Disconnected ==> step.poll is Pending,
        io.status is FailedAndExhausted ==> {
            &&& step.poll matches Poll::Ready(Err(err))
            &&& call_ensures(T::exhaust_err, (), err)
        },
{
}

/// What has to be polled is the underlying IO while connected, the attempt to reconnect in
/// an outage, and nothing once the connection has been given up. A close polls nothing but
/// the IO, while connected.
pub proof fn targets<T, C, E, F, R>(
    io: StubbornIo<T, C, E, F, R>,
    target: Target,
    close_target: Target,
) where T: UnderlyingIo<C, E>, C: Clone + Send
    requires
        call_ensures(StubbornIo::<T, C, E, F, R>::target, (&io,), target),
        call_ensures(StubbornIo::<T, C, E, F, R>::close_target, (&io,), close_target),
    ensures
        target is Stream <==> io.status is Connected,
        target is Attempt <==> io.status is Disconnected,
        target is Nothing <==> io.status is FailedAndExhausted,
        close_target is Stream <==> io.status is Connected,
        close_target is Nothing <==> !(io.status is Connected),
{
}

/// The underlying IO is what is handed out, to look at and to use in place; using it
/// changes nothing else.
pub proof fn underlying_is_handed_out<T, C, E, F, R>(
    before: StubbornIo<T, C, E, F, R>,
    seen: T,
    used: T,
    left: T,
    after: StubbornIo<T, C, E, F, R>,
) where T: UnderlyingIo<C, E>, C: Clone + Send
    requires
        call_ensures(StubbornIo::<T, C, E, F, R>::deref, (&before,), &seen),
        exists|io: &mut StubbornIo<T, C, E, F, R>, lent: &mut T|
            *io == before && *final(io) == after && *lent == used && *final(lent) == left
                && #[trigger] call_ensures(StubbornIo::<T, C, E, F, R>::deref_mut, (io,), lent),
    ensures
        seen == before.underlying_io,
        used == before.underlying_io,
        after.underlying_io == left,
        after.status == before.status,
        after.options == before.options,
        after.ctor_arg == before.ctor_arg,
{
}

/// Only an error can show in a write that the connection is lost, and just if the IO says
/// so.
pub proof fn write_verdict<T, C, E, F, R, X>(
    io: StubbornIo<T, C, E, F, R>,
    polled: Poll<Result<X, E>>,
    lost: bool,
) where T: UnderlyingIo<C, E>, C: Clone + Send
    requires
        call_ensures(
            StubbornIo::<T, C, E, F, R>::is_write_disconnect_detected::<X>,
            (&io, &polled),
            lost,
        ),
    ensures
        lost ==> (polled matches Poll::Ready(Err(_))),
        polled matches Poll::Ready(Err(err)) ==> call_ensures(
            T::is_disconnect_error,
            (&io.underlying_io, &err),
            lost,
        ),
{
}

/// A disconnect that is recorded leaves an outage with a planned attempt just if a delay is
/// left, and otherwise gives the connection up. The attempts of an outage are counted from
/// one. The next delay is asked for once: of the delays of the outage, or of fresh ones
/// where it begins. Nothing but the state changes.
pub proof fn disconnect_plans<T, C, E, F, R>(
    before: StubbornIo<T, C, E, F, R>,
    plan: Plan<C>,
    after: StubbornIo<T, C, E, F, R>,
) where
    T: UnderlyingIo<C, E>,
    C: Clone + Send,
    F: Fn() -> R,
    R: Iterator<Item = Delay>,

    requires
        !(before.status is FailedAndExhausted),
        exists|io: &mut StubbornIo<T, C, E, F, R>|
            *io == before && *final(io) == after && #[trigger] call_ensures(
                StubbornIo::<T, C, E, F, R>::on_disconnect,
                (io,),
                plan,
            ),
    ensures
        after.underlying_io == before.underlying_io,
        after.options == before.options,
        after.ctor_arg == before.ctor_arg,
        plan is Attempt <==> after.status is Disconnected,
        plan is GiveUp <==> after.status is FailedAndExhausted,
        plan matches Plan::Attempt { attempt_num, ctor_arg, .. } ==> {
            &&& cloned(before.ctor_arg, ctor_arg)
            &&& after.status->Disconnected_0.attempts_tracker.attempt_num == attempt_num
            &&& before.status is Connected ==> attempt_num == 1
            &&& before.status is Disconnected ==> attempt_num
                == before.status->Disconnected_0.attempts_tracker.attempt_num + 1
        },
        exists|it: &mut R, next: Option<Delay>|
            {
                &&& before.status is Connected ==> call_ensures(
                    before.options.retries_to_attempt_fn,
                    (),
                    *it,
                )
                &&& before.status is Disconnected ==> *it
                    == before.status->Disconnected_0.attempts_tracker.retries_remaining
                &&& #[trigger] call_ensures(R::next, (it,), next)
                &&& next is None <==> plan is GiveUp
                &&& plan matches Plan::Attempt { delay, .. } ==> {
                    &&& next == Some(delay)
                    &&& *final(it)
                        == after.status->Disconnected_0.attempts_tracker.retries_remaining
                }
            },
{
    assert(exists|retries: R, it: &mut R|
        {
            &&& #[trigger] before.status.takes_from(before.options, retries)
            &&& *it == retries
            &&& #[trigger] call_ensures(R::next, (it,), plan.delay())
            &&& plan is Attempt ==> after.status.retries() == *final(it)
        });
}

/// Where the delays are those of a sequence, the planned delay is the first one that is
/// left of it, and the ones after it are left for the rest of the outage.
pub proof fn disconnect_takes_delays_in_order<T, C, E, F, R>(
    before: StubbornIo<T, C, E, F, R>,
    delays: Seq<Delay>,
    plan: Plan<C>,
    after: StubbornIo<T, C, E, F, R>,
) where
    T: UnderlyingIo<C, E>,
    C: Clone + Send,
    F: Fn() -> R,
    R: Iterator<Item = Delay>,

    requires
        before.status matches Status::Disconnected(_) ==> {
            let left = before.status->Disconnected_0.attempts_tracker.retries_remaining;
            left.obeys_prophetic_iter_laws() && left.remaining() == delays
        },
        before.status is Connected ==> forall|fresh: R| #[trigger]
            call_ensures(before.options.retries_to_attempt_fn, (), fresh)
                ==> fresh.obeys_prophetic_iter_laws() && fresh.remaining() == delays,
        !(before.status is FailedAndExhausted),
        exists|io: &mut StubbornIo<T, C, E, F, R>|
            *io == before && *final(io) == after && #[trigger] call_ensures(
                StubbornIo::<T, C, E, F, R>::on_disconnect,
                (io,),
                plan,
            ),
    ensures
        plan is GiveUp <==> delays.len() == 0,
        plan matches Plan::Attempt { delay, .. } ==> {
            let left = after.status->Disconnected_0.attempts_tracker.retries_remaining;
            &&& delay == delays[0]
            &&& left.obeys_prophetic_iter_laws()
            &&& left.remaining() == delays.drop_first()
        },
{
}

/// Connecting begins with an attempt whose argument is a clone of the one that is kept, and
/// with no delay asked for.
pub proof fn connect_begins<T, C, E, F, R>(
    ctor_arg: C,
    options: ReconnectOptions<F>,
    begun: (IoConnecting<C, F, R>, C),
) where T: UnderlyingIo<C, E>, C: Clone + Send, F: Fn() -> R, R: Iterator<Item = Delay>
    requires
        call_ensures(
            StubbornIo::<T, C, E, F, R>::connect_with_options,
            (ctor_arg, options),
            begun,
        ),
    ensures
        begun.0.ctor_arg == ctor_arg,
        begun.0.options == options,
        begun.0.retries is None,
        cloned(ctor_arg, begun.1),
{
}

/// An attempt that succeeds connects. A failure settles it just if it is that of the first
/// attempt, which has no delay before it, and the options say so; its error is reported
/// then.
pub proof fn attempt_settles<T, C, E, F, R>(
    connecting: IoConnecting<C, F, R>,
    result: Result<T, E>,
    step: ConnectStep<StubbornIo<T, C, E, F, R>, (IoConnecting<C, F, R>, E), E>,
) where T: UnderlyingIo<C, E>, C: Clone + Send, F: Fn() -> R, R: Iterator<Item = Delay>
    requires
        call_ensures(StubbornIo::<T, C, E, F, R>::on_established, (connecting, result), step),
    ensures
        step is Connected <==> result is Ok,
        step matches ConnectStep::Connected(connected) ==> {
            &&& connected.underlying_io == result->Ok_0
            &&& connected.status is Connected
            &&& connected.options == connecting.options
            &&& connected.ctor_arg == connecting.ctor_arg
        },
        step is Failed <==> result is Err && connecting.retries is None
            && connecting.options.exit_if_first_connect_fails,
        step matches ConnectStep::Retry((failing, err)) ==> failing == connecting && err
            == result->Err_0,
        step matches ConnectStep::Failed(err) ==> err == result->Err_0,
{
}

/// After a failure there is another attempt just if a delay is left, and otherwise the
/// error is given back. The delay is asked for once: of the delays that are left, or of
/// fresh ones after the first attempt.
pub proof fn next_try_begins<C: Clone, F: Fn() -> R, R: Iterator<Item = Delay>, E>(
    connecting: IoConnecting<C, F, R>,
    err: E,
    next: Result<(IoConnecting<C, F, R>, Delay), E>,
)
    requires
        call_ensures(IoConnecting::<C, F, R>::next_try::<E>, (connecting, err), next),
    ensures
        next matches Err(given) ==> given == err,
        next matches Ok((waiting, _)) ==> {
            &&& waiting.ctor_arg == connecting.ctor_arg
            &&& waiting.options == connecting.options
            &&& waiting.retries is Some
        },
        exists|it: &mut R, delay: Option<Delay>|
            {
                &&& connecting.retries is None ==> call_ensures(
                    connecting.options.retries_to_attempt_fn,
                    (),
                    *it,
                )
                &&& connecting.retries is Some ==> connecting.retries == Some(*it)
                &&& #[trigger] call_ensures(R::next, (it,), delay)
                &&& delay is None <==> next is Err
                &&& next matches Ok((waiting, wait)) ==> delay == Some(wait) && waiting.retries
                    == Some(*final(it))
            },
{
    assert(exists|retries: R, it: &mut R, delay: Option<Delay>|
        {
            &&& #[trigger] connecting.takes_from(retries)
            &&& *it == retries
            &&& #[trigger] call_ensures(R::next, (it,), delay)
            &&& next == connecting.resumed(delay, *final(it), err)
        });
}

/// Where the delays are those of a sequence, the next attempt waits for the first one that
/// is left of it, and the ones after it are left.
pub proof fn next_try_takes_delays_in_order<C: Clone, F: Fn() -> R, R: Iterator<Item = Delay>, E>(
    connecting: IoConnecting<C, F, R>,
    err: E,
    delays: Seq<Delay>,
    next: Result<(IoConnecting<C, F, R>, Delay), E>,
)
    requires
        connecting.retries matches Some(left) ==> left.obeys_prophetic_iter_laws()
            && left.remaining() == delays,
        connecting.retries is None ==> forall|fresh: R| #[trigger]
            call_ensures(connecting.options.retries_to_attempt_fn, (), fresh)
                ==> fresh.obeys_prophetic_iter_laws() && fresh.remaining() == delays,
        call_ensures(IoConnecting::<C, F, R>::next_try::<E>, (connecting, err), next),
    ensures
        next is Err <==> delays.len() == 0,
        next matches Ok((waiting, delay)) ==> {
            &&& delay == delays[0]
            &&& waiting.retries->0.obeys_prophetic_iter_laws()
            &&& waiting.retries->0.remaining() == delays.drop_first()
        },
{
}

/// With a given delay there is another attempt after it, with the given delays left; with
/// none the error is given back.
pub proof fn resume_goes_on<C, F, R, E>(
    connecting: IoConnecting<C, F, R>,
    next: Option<Delay>,
    retries: R,
    err: E,
    resumed: Result<(IoConnecting<C, F, R>, Delay), E>,
)
    requires
        call_ensures(
            IoConnecting::<C, F, R>::resume::<E>,
            (connecting, next, retries, err),
            resumed,
        ),
    ensures
        resumed is Ok <==> next is Some,
        resumed matches Err(given) ==> given == err,
        resumed matches Ok((waiting, delay)) ==> {
            &&& next == Some(delay)
            &&& waiting.retries == Some(retries)
            &&& waiting.ctor_arg == connecting.ctor_arg
            &&& waiting.options == connecting.options
        },
{
}

/// Every attempt has a clone of the argument that is kept.
pub proof fn argument_is_cloned<C: Clone, F: Fn() -> R, R: Iterator<Item = Delay>>(
    connecting: IoConnecting<C, F, R>,
    arg: C,
)
    requires
        call_ensures(IoConnecting::<C, F, R>::establish_arg, (&connecting,), arg),
    ensures
        cloned(connecting.ctor_arg, arg),
{
}

} // verus!
