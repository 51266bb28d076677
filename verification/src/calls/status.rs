//! What each call on the state of a connection does, told by what goes in and what comes out.

use vstd::prelude::*;
use vstd::std_specs::iter::IteratorSpec;

use crate::config::ReconnectOptions;
use crate::connect::ConnectStep;
use crate::delay::Delay;
use crate::events::{Callback, Effect, Plan, Poll, Step, Target};
use crate::status::{deliver, ReconnectStatus, Status};

verus! {

/// A disconnect and a restored connection are reported, each by its own callback, and nothing
/// else is.
pub proof fn effects_are_reported<S>(effect: Effect<S>, callback: Option<Callback>)
    requires
        call_ensures(Effect::<S>::callback, (&effect,), callback),
    ensures
        callback is None <==> effect is Nothing,
        effect matches Effect::Disconnect(given) ==> callback == Some(given),
        effect is Reconnect ==> callback == Some(Callback::OnConnect),
{
}

/// Every attempt to connect is reported: as a success just if it connects, and otherwise as a
/// failure.
pub proof fn attempts_are_reported<K, W, E>(step: ConnectStep<K, W, E>, callback: Callback)
    requires
        call_ensures(ConnectStep::<K, W, E>::callback, (&step,), callback),
    ensures
        callback == Callback::OnConnect <==> step is Connected,
        callback == Callback::OnConnectFail <==> step is Retry || step is Failed,
{
}

/// What has to be polled depends on the state alone. A close polls nothing but the underlying
/// stream, while connected.
pub proof fn targets<R>(status: Status<R>, target: Target, close_target: Target)
    requires
        call_ensures(Status::<R>::target, (&status,), target),
        call_ensures(Status::<R>::close_target, (&status,), close_target),
    ensures
        target is Stream <==> status is Connected,
        target is Attempt <==> status is Disconnected,
        target is Nothing <==> status is FailedAndExhausted,
        close_target is Stream <==> status is Connected,
        close_target is Nothing <==> !(status is Connected),
{
}

/// What is polled is passed on, with nothing to be done, just if the connection is not lost.
/// If it is, the poll waits and the loss is declared.
pub proof fn lost_connection_is_hidden<P, S>(polled: Poll<P>, lost: bool, step: Step<P, S>)
    requires
        call_ensures(deliver::<P, S>, (polled, lost), step),
    ensures
        step.effect is Nothing <==> !lost,
        !lost ==> step.poll == polled,
        lost ==> step.poll is Pending,
        lost ==> step.effect == Effect::<S>::Disconnect(Callback::OnDisconnect),
{
}

/// An outage begins with no attempt counted and with fresh delays.
pub proof fn outage_begins_afresh<F: Fn() -> R, R>(
    options: ReconnectOptions<F>,
    status: ReconnectStatus<R>,
)
    requires
        call_ensures(ReconnectStatus::<R>::new::<F>, (&options,), status),
    ensures
        status.attempts_tracker.attempt_num == 0,
        call_ensures(
            options.retries_to_attempt_fn,
            (),
            status.attempts_tracker.retries_remaining,
        ),
{
}

/// An attempt that is pending changes nothing and asks for nothing. One that has failed
/// changes nothing, and declares a disconnect. One that has succeeded ends the outage: the
/// stream that it has established takes the place of the lost one, which is handed out.
pub proof fn attempt_is_taken_in<R, S, E>(
    before: Status<R>,
    lost: S,
    attempt: Poll<Result<S, E>>,
    effect: Effect<S>,
    after: Status<R>,
    stream: S,
)
    requires
        before is Disconnected,
        exists|status: &mut Status<R>, held: &mut S|
            *status == before && *final(status) == after && *held == lost && *final(held) == stream
                && #[trigger] call_ensures(
                Status::<R>::poll_disconnect::<S, E>,
                (status, held, attempt),
                effect,
            ),
    ensures
        effect is Nothing <==> attempt is Pending,
        effect is Disconnect <==> (attempt matches Poll::Ready(Err(_))),
        effect is Reconnect <==> (attempt matches Poll::Ready(Ok(_))),
        effect is Disconnect ==> effect == Effect::<S>::Disconnect(Callback::OnConnectFail),
        effect matches Effect::Reconnect { superseded } ==> superseded == lost,
        attempt matches Poll::Ready(Ok(established)) ==> after is Connected && stream
            == established,
        !(attempt matches Poll::Ready(Ok(_))) ==> after == before && stream == lost,
{
}

/// With a delay the next attempt is planned after it and counted, and the delays to come
/// stay; with none the connection is given up.
pub proof fn attempt_is_scheduled<R, C>(
    before: Status<R>,
    next: Option<Delay>,
    arg: C,
    plan: Plan<C>,
    after: Status<R>,
)
    requires
        before is Disconnected,
        exists|status: &mut Status<R>|
            *status == before && *final(status) == after && #[trigger] call_ensures(
                Status::<R>::schedule::<C>,
                (status, next, arg),
                plan,
            ),
    ensures
        plan is GiveUp <==> next is None,
        after is FailedAndExhausted <==> next is None,
        after is Disconnected <==> next is Some,
        plan matches Plan::Attempt { attempt_num, delay, ctor_arg } ==> {
            &&& next == Some(delay)
            &&& ctor_arg == arg
            &&& attempt_num == before->Disconnected_0.attempts_tracker.attempt_num + 1
            &&& after->Disconnected_0.attempts_tracker.attempt_num == attempt_num
            &&& after->Disconnected_0.attempts_tracker.retries_remaining
                == before->Disconnected_0.attempts_tracker.retries_remaining
        },
{
}

/// A disconnect that is recorded leaves an outage with a planned attempt just if a delay is
/// left, and otherwise gives the connection up. The attempts of an outage are counted from
/// one. The next delay is asked for once: of the delays of the outage, or of fresh ones where
/// it begins.
pub proof fn disconnect_plans<R: Iterator<Item = Delay>, C: Clone, F: Fn() -> R>(
    before: Status<R>,
    options: ReconnectOptions<F>,
    arg: C,
    plan: Plan<C>,
    after: Status<R>,
)
    requires
        !(before is FailedAndExhausted),
        exists|status: &mut Status<R>|
            *status == before && *final(status) == after && #[trigger] call_ensures(
                Status::<R>::on_disconnect::<C, F>,
                (status, &options, &arg),
                plan,
            ),
    ensures
        plan is Attempt <==> after is Disconnected,
        plan is GiveUp <==> after is FailedAndExhausted,
        plan matches Plan::Attempt { attempt_num, ctor_arg, .. } ==> {
            &&& cloned(arg, ctor_arg)
            &&& after->Disconnected_0.attempts_tracker.attempt_num == attempt_num
            &&& before is Connected ==> attempt_num == 1
            &&& before is Disconnected ==> attempt_num
                == before->Disconnected_0.attempts_tracker.attempt_num + 1
        },
        exists|it: &mut R, next: Option<Delay>|
            {
                &&& before is Connected ==> call_ensures(options.retries_to_attempt_fn, (), *it)
                &&& before is Disconnected ==> *it
                    == before->Disconnected_0.attempts_tracker.retries_remaining
                &&& #[trigger] call_ensures(R::next, (it,), next)
                &&& next is None <==> plan is GiveUp
                &&& plan matches Plan::Attempt { delay, .. } ==> {
                    &&& next == Some(delay)
                    &&& *final(it) == after->Disconnected_0.attempts_tracker.retries_remaining
                }
            },
{
    assert(exists|retries: R, it: &mut R|
        {
            &&& #[trigger] before.takes_from(options, retries)
            &&& *it == retries
            &&& #[trigger] call_ensures(R::next, (it,), plan.delay())
            &&& plan is Attempt ==> after.retries() == *final(it)
        });
}

/// Where the delays are those of a sequence, the planned delay is the first one that is left
/// of it, and the ones after it are left for the rest of the outage.
pub proof fn disconnect_takes_delays_in_order<R: Iterator<Item = Delay>, C: Clone, F: Fn() -> R>(
    before: Status<R>,
    options: ReconnectOptions<F>,
    arg: C,
    delays: Seq<Delay>,
    plan: Plan<C>,
    after: Status<R>,
)
    requires
        before is Disconnected ==> {
            let left = before->Disconnected_0.attempts_tracker.retries_remaining;
            left.obeys_prophetic_iter_laws() && left.remaining() == delays
        },
        before is Connected ==> forall|fresh: R| #[trigger]
            call_ensures(options.retries_to_attempt_fn, (), fresh)
                ==> fresh.obeys_prophetic_iter_laws() && fresh.remaining() == delays,
        !(before is FailedAndExhausted),
        exists|status: &mut Status<R>|
            *status == before && *final(status) == after && #[trigger] call_ensures(
                Status::<R>::on_disconnect::<C, F>,
                (status, &options, &arg),
                plan,
            ),
    ensures
        plan is GiveUp <==> delays.len() == 0,
        plan matches Plan::Attempt { delay, .. } ==> {
            let left = after->Disconnected_0.attempts_tracker.retries_remaining;
            &&& delay == delays[0]
            &&& left.obeys_prophetic_iter_laws()
            &&& left.remaining() == delays.drop_first()
        },
{
}

} // verus!
