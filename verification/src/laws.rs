//! What holds of the decisions of this crate taken together.

use rand::rngs::StdRng;
use vstd::prelude::*;

use crate::connect::{verdict, Verdict};
use crate::delay::{Delay, MAX_NANOS, NANOS_PER_SEC};
use crate::events::{Callback, Effect, Input, Poll, Step};
use crate::status::{
    callback_of, close_target, first_delay, lose, poll_target, status_after, Phase, Status,
};
use crate::strategies::{
    capped, std_rng_of_seed, ExpBackoffIter, ExpBackoffStrategy, JitterRng, RngCoreClone,
};
use crate::stream::UnderlyingStream;
use crate::tokio::UnderlyingIo;

verus! {

/// The delays after the first one.
pub open spec fn later_delays(delays: Seq<Delay>) -> Seq<Delay> {
    if delays.len() > 0 {
        delays.drop_first()
    } else {
        delays
    }
}

/// The state of a connection and the delays that are left, after `count` disconnects in a
/// row with no connection restored in between.
pub open spec fn outage(phase: Phase, delays: Seq<Delay>, count: nat) -> (Phase, Seq<Delay>)
    decreases count,
{
    if count == 0 {
        (phase, delays)
    } else {
        let (before, left) = outage(phase, delays, (count - 1) as nat);
        (lose(before, first_delay(left)), later_delays(left))
    }
}

/// In an outage, as many attempts are made as there are delays, one after each of them and
/// in their order. When one fails, the next one is planned; when the last one has failed,
/// the connection is given up.
pub proof fn outage_uses_every_delay_in_order(delays: Seq<Delay>, count: nat)
    requires
        1 <= count <= delays.len() + 1,
    ensures
        ({
            let before = outage(Phase::Connected, delays, (count - 1) as nat);
            let after = outage(Phase::Connected, delays, count);
            if count <= delays.len() {
                &&& first_delay(before.1) == Some(delays[count - 1])
                &&& after.0 == Phase::Disconnected(count)
                &&& after.1 == delays.skip(count as int)
            } else {
                &&& first_delay(before.1) is None
                &&& after.0 is FailedAndExhausted
            }
        }),
    decreases count,
{
    reveal_with_fuel(outage, 2);
    if count > 1 {
        outage_uses_every_delay_in_order(delays, (count - 1) as nat);
    }
    if count <= delays.len() {
        assert(later_delays(delays.skip(count - 1)) =~= delays.skip(count as int));
    }
    assert(delays.skip(0) =~= delays);
}

/// Whatever the delays: the loss of a connection is reported once, at the beginning of the
/// outage, and every further disconnect reports a failed attempt.
pub proof fn outage_is_reported_once(delays: Seq<Delay>, count: nat)
    ensures
        callback_of(outage(Phase::Connected, delays, count).0) == if count == 0 {
            Callback::OnDisconnect
        } else {
            Callback::OnConnectFail
        },
{
}

/// How reading from a connection goes on.
#[verifier::ext_equal]
pub struct Reading<I, S> {
    /// The delays that are planned, in order. Each is followed by an attempt to reconnect.
    pub waits: Seq<Delay>,
    /// The callbacks that are run, in order.
    pub callbacks: Seq<Callback>,
    /// The answers that the reads get, in order.
    pub answers: Seq<Poll<Option<I>>>,
    /// The phase in the end.
    pub phase: Phase,
    /// The underlying stream in the end.
    pub stream: S,
}

impl<I, S> Reading<I, S> {
    /// The course in which nothing is read.
    pub open spec fn idle(phase: Phase, stream: S) -> Self {
        Reading { waits: seq![], callbacks: seq![], answers: seq![], phase, stream }
    }

    /// This course, after a read with the given answer that was reported by `callback` and
    /// led to another attempt after `delay`, if it was and did.
    pub open spec fn after(
        self,
        answer: Poll<Option<I>>,
        callback: Option<Callback>,
        delay: Option<Delay>,
    ) -> Self {
        Reading {
            waits: match delay {
                Some(delay) => seq![delay] + self.waits,
                None => self.waits,
            },
            callbacks: match callback {
                Some(callback) => seq![callback] + self.callbacks,
                None => self.callbacks,
            },
            answers: seq![answer] + self.answers,
            phase: self.phase,
            stream: self.stream,
        }
    }
}

/// How reading goes on in an outage, which begins by the end of the underlying stream unless
/// it has begun already. `delays` are the delays to come, and `attempts` is what polling the
/// attempts to reconnect gives, one poll after the other. It goes on until the connection is
/// restored, until a read tells that it has been given up, or until no poll is left.
pub open spec fn reads_through<I, S, E>(
    phase: Phase,
    stream: S,
    delays: Seq<Delay>,
    attempts: Seq<Poll<Result<S, E>>>,
) -> Reading<I, S>
    decreases
            attempts.len(),
            if phase is Connected {
                1int
            } else {
                0int
            },
{
    let next = first_delay(delays);
    let callback = Some(callback_of(phase));
    match phase {
        Phase::Connected => reads_through(
            lose(phase, next),
            stream,
            later_delays(delays),
            attempts,
        ).after(Poll::Pending, callback, next),
        Phase::Disconnected(_) => if attempts.len() == 0 {
            Reading::idle(phase, stream)
        } else {
            match attempts[0] {
                Poll::Pending => reads_through(
                    phase,
                    stream,
                    delays,
                    attempts.drop_first(),
                ).after(Poll::Pending, None, None),
                Poll::Ready(Err(_)) => reads_through(
                    lose(phase, next),
                    stream,
                    later_delays(delays),
                    attempts.drop_first(),
                ).after(Poll::Pending, callback, next),
                Poll::Ready(Ok(established)) => Reading::idle(
                    Phase::Connected,
                    established,
                ).after(Poll::Pending, Some(Callback::OnConnect), None),
            }
        },
        Phase::FailedAndExhausted => Reading::idle(phase, stream).after(
            Poll::Ready(None),
            None,
            None,
        ),
    }
}

/// How many of the attempts fail.
pub open spec fn failed<S, E>(attempts: Seq<Poll<Result<S, E>>>) -> nat
    decreases attempts.len(),
{
    if attempts.len() == 0 {
        0
    } else {
        let later = failed(attempts.drop_first());
        if attempts[0] matches Poll::Ready(Err(_)) {
            later + 1
        } else {
            later
        }
    }
}

/// Whether an attempt has succeeded.
pub open spec fn succeeds<S, E>(attempt: Poll<Result<S, E>>) -> bool {
    attempt matches Poll::Ready(Ok(_))
}

/// Whether none of the attempts succeeds.
pub open spec fn none_succeeds<S, E>(attempts: Seq<Poll<Result<S, E>>>) -> bool {
    forall|i: int| 0 <= i < attempts.len() ==> !succeeds(#[trigger] attempts[i])
}

/// So many reads are told to wait.
pub open spec fn pendings<I>(count: nat) -> Seq<Poll<Option<I>>> {
    Seq::new(count, |i: int| Poll::Pending)
}

/// One more read that is told to wait, and one more failure, make as many and one more.
proof fn one_more<I>(reads: nat, errors: nat)
    ensures
        pendings::<I>(0) == Seq::<Poll<Option<I>>>::empty(),
        failures(0) == Seq::<Callback>::empty(),
        seq![Poll::Pending] + pendings::<I>(reads) == pendings::<I>(reads + 1),
        seq![Poll::Pending] + pendings::<I>(reads).push(Poll::Ready(None)) == pendings::<I>(
            reads + 1,
        ).push(Poll::Ready(None)),
        seq![Callback::OnConnectFail] + failures(errors) == failures(errors + 1),
{
    assert(seq![Poll::Pending] + pendings::<I>(reads) =~= pendings::<I>(reads + 1));
    assert(seq![Poll::Pending] + pendings::<I>(reads).push(Poll::Ready(None)) =~= pendings::<I>(
        reads + 1,
    ).push(Poll::Ready(None)));
    assert(seq![Callback::OnConnectFail] + failures(errors) =~= failures(errors + 1));
}

/// The rest of an outage in which no attempt succeeds.
proof fn outage_runs_on<I, S, E>(
    counted: nat,
    stream: S,
    delays: Seq<Delay>,
    attempts: Seq<Poll<Result<S, E>>>,
)
    requires
        none_succeeds(attempts),
    ensures
        ({
            let run = reads_through::<I, S, E>(
                Phase::Disconnected(counted),
                stream,
                delays,
                attempts,
            );
            let errors = failed(attempts);
            &&& run.stream == stream
            &&& if errors <= delays.len() {
                &&& run.phase == Phase::Disconnected(counted + errors)
                &&& run.waits == delays.take(errors as int)
                &&& run.callbacks == failures(errors)
                &&& run.answers == pendings::<I>(attempts.len())
            } else {
                &&& run.phase is FailedAndExhausted
                &&& run.waits == delays
                &&& run.callbacks == failures(delays.len() + 1)
                &&& run.answers.len() > delays.len() + 1
                &&& run.answers == pendings::<I>((run.answers.len() - 1) as nat).push(
                    Poll::Ready(None),
                )
            }
        }),
    decreases attempts.len(),
{
    let errors = failed(attempts);
    if attempts.len() == 0 {
        one_more::<I>(0, 0);
        assert(delays.take(0) =~= seq![]);
    } else {
        let later = attempts.drop_first();
        assert(none_succeeds(later)) by {
            assert forall|i: int| 0 <= i < later.len() implies !succeeds(#[trigger] later[i]) by {
                assert(later[i] == attempts[i + 1]);
            }
        }
        assert(!succeeds(attempts[0]));
        let next = lose(Phase::Disconnected(counted), first_delay(delays));
        let left = later_delays(delays);
        if attempts[0] is Pending {
            outage_runs_on::<I, S, E>(counted, stream, delays, later);
            let rest = reads_through::<I, S, E>(
                Phase::Disconnected(counted),
                stream,
                delays,
                later,
            );
            let reads = if errors <= delays.len() {
                rest.answers.len()
            } else {
                (rest.answers.len() - 1) as nat
            };
            one_more::<I>(reads, 0);
        } else if delays.len() > 0 {
            outage_runs_on::<I, S, E>(counted + 1, stream, left, later);
            let rest = reads_through::<I, S, E>(next, stream, left, later);
            let reads = if errors <= delays.len() {
                rest.answers.len()
            } else {
                (rest.answers.len() - 1) as nat
            };
            one_more::<I>(reads, rest.callbacks.len());
            assert(seq![delays[0]] + left =~= delays);
            if errors <= delays.len() {
                assert(seq![delays[0]] + left.take(errors - 1) =~= delays.take(errors as int));
            }
        } else {
            let rest = reads_through::<I, S, E>(next, stream, left, later);
            assert(delays =~= seq![]);
            one_more::<I>(0, 0);
            assert(rest.answers =~= pendings::<I>(0).push(Poll::Ready(None)));
            assert(seq![Callback::OnConnectFail] + rest.callbacks =~= failures(1));
        }
    }
}

/// An outage in which no attempt to reconnect succeeds, from the end of the underlying
/// stream on. While there are delays left, each failure is followed by the next one, in
/// order, and an attempt after it. The loss is reported first and once, and then each
/// failure. When the attempt after the last delay has failed, the connection is given up:
/// then every delay has been waited for, and all reads have been told to wait, up to the last
/// one, which is told that the stream has ended.
pub proof fn outage_runs_its_course<I, S, E>(
    stream: S,
    delays: Seq<Delay>,
    attempts: Seq<Poll<Result<S, E>>>,
)
    requires
        none_succeeds(attempts),
    ensures
        ({
            let run = reads_through::<I, S, E>(Phase::Connected, stream, delays, attempts);
            let errors = failed(attempts);
            &&& run.stream == stream
            &&& run.phase == outage(Phase::Connected, delays, run.callbacks.len()).0
            &&& if errors < delays.len() {
                &&& run.phase == Phase::Disconnected(errors + 1)
                &&& run.waits == delays.take((errors + 1) as int)
                &&& run.callbacks == seq![Callback::OnDisconnect] + failures(errors)
                &&& run.answers == pendings::<I>(attempts.len() + 1)
            } else {
                &&& run.phase is FailedAndExhausted
                &&& run.waits == delays
                &&& run.callbacks == seq![Callback::OnDisconnect] + failures(delays.len())
                &&& run.answers.len() > delays.len() + 1
                &&& run.answers == pendings::<I>((run.answers.len() - 1) as nat).push(
                    Poll::Ready(None),
                )
            }
        }),
{
    let run = reads_through::<I, S, E>(Phase::Connected, stream, delays, attempts);
    let errors = failed(attempts);
    let next = lose(Phase::Connected, first_delay(delays));
    let left = later_delays(delays);
    let rest = reads_through::<I, S, E>(next, stream, left, attempts);
    if delays.len() > 0 {
        outage_runs_on::<I, S, E>(1, stream, left, attempts);
        assert(seq![delays[0]] + left =~= delays);
        if errors < delays.len() {
            one_more::<I>(rest.answers.len(), 0);
            assert(seq![delays[0]] + left.take(errors as int) =~= delays.take((errors + 1) as int));
        } else {
            one_more::<I>((rest.answers.len() - 1) as nat, 0);
        }
    } else {
        one_more::<I>(0, 0);
        assert(delays =~= seq![]);
        assert(rest.answers =~= pendings::<I>(0).push(Poll::Ready(None)));
        assert(rest.callbacks =~= failures(0));
    }
    outage_uses_every_delay_in_order(delays, run.callbacks.len());
}

/// The rest of an outage that ends with a success, the first one among the attempts.
proof fn outage_ends_well<I, S, E>(
    counted: nat,
    stream: S,
    delays: Seq<Delay>,
    attempts: Seq<Poll<Result<S, E>>>,
    success: nat,
)
    requires
        success < attempts.len(),
        succeeds(attempts[success as int]),
        none_succeeds(attempts.take(success as int)),
        failed(attempts.take(success as int)) <= delays.len(),
    ensures
        ({
            let errors = failed(attempts.take(success as int));
            reads_through::<I, S, E>(Phase::Disconnected(counted), stream, delays, attempts) == (
            Reading::<I, S> {
                waits: delays.take(errors as int),
                callbacks: failures(errors).push(Callback::OnConnect),
                answers: pendings(success + 1),
                phase: Phase::Connected,
                stream: attempts[success as int]->Ready_0->Ok_0,
            })
        }),
    decreases attempts.len(),
{
    let run = reads_through::<I, S, E>(Phase::Disconnected(counted), stream, delays, attempts);
    let before = attempts.take(success as int);
    let errors = failed(before);
    if success == 0 {
        one_more::<I>(0, 0);
        assert(run.waits =~= delays.take(0));
        assert(run.callbacks =~= failures(0).push(Callback::OnConnect));
        assert(run.answers =~= pendings::<I>(1));
    } else {
        let later = attempts.drop_first();
        assert(before.drop_first() =~= later.take(success - 1));
        assert(!succeeds(before[0]));
        assert(none_succeeds(later.take(success - 1))) by {
            assert forall|i: int| 0 <= i < success - 1 implies !succeeds(
                #[trigger] later.take(success - 1)[i],
            ) by {
                assert(later.take(success - 1)[i] == before[i + 1]);
            }
        }
        one_more::<I>(success, 0);
        if attempts[0] is Pending {
            outage_ends_well::<I, S, E>(counted, stream, delays, later, (success - 1) as nat);
        } else {
            let left = delays.drop_first();
            outage_ends_well::<I, S, E>(counted + 1, stream, left, later, (success - 1) as nat);
            assert(seq![delays[0]] + left.take(errors - 1) =~= delays.take(errors as int));
            assert(seq![Callback::OnConnectFail] + failures((errors - 1) as nat).push(
                Callback::OnConnect,
            ) =~= failures(errors).push(Callback::OnConnect));
        }
    }
}

/// An outage ends with the first attempt that succeeds, if fewer attempts than there are
/// delays fail before it: the connection that it has established takes over. Until then
/// each failure is followed by the next delay, the loss, each failure and the success have
/// been reported, and all reads have been told to wait.
pub proof fn outage_ends_with_the_first_success<I, S, E>(
    stream: S,
    delays: Seq<Delay>,
    attempts: Seq<Poll<Result<S, E>>>,
    success: nat,
)
    requires
        success < attempts.len(),
        succeeds(attempts[success as int]),
        none_succeeds(attempts.take(success as int)),
        failed(attempts.take(success as int)) < delays.len(),
    ensures
        ({
            let errors = failed(attempts.take(success as int));
            reads_through::<I, S, E>(Phase::Connected, stream, delays, attempts) == (Reading::<
                I,
                S,
            > {
                waits: delays.take((errors + 1) as int),
                callbacks: seq![Callback::OnDisconnect] + failures(errors).push(
                    Callback::OnConnect,
                ),
                answers: pendings(success + 2),
                phase: Phase::Connected,
                stream: attempts[success as int]->Ready_0->Ok_0,
            })
        }),
{
    let errors = failed(attempts.take(success as int));
    let left = delays.drop_first();
    outage_ends_well::<I, S, E>(1, stream, left, attempts, success);
    one_more::<I>(success + 1, 0);
    assert(seq![delays[0]] + left.take(errors as int) =~= delays.take((errors + 1) as int));
}

/// A restored connection starts over: the next outage counts its attempts from one again,
/// whatever came before.
pub proof fn restored_connection_starts_over<P, S, E, R>(
    status: Status<R>,
    established: S,
    next: Delay,
)
    ensures
        ({
            let input = Input::<P, S, E>::Attempt(Poll::Ready(Ok(established)));
            let restored = status_after(status, input);
            &&& restored is Connected
            &&& lose(restored.phase(), Some(next)) == Phase::Disconnected(1)
        }),
{
}

/// A connection that has been given up stays so, whatever is polled.
pub proof fn exhausted_stays_exhausted<P, S, E, R>(status: Status<R>, input: Input<P, S, E>)
    requires
        status is FailedAndExhausted,
        input.target() == poll_target(status) || input.target() == close_target(status),
    ensures
        status_after(status, input) == status,
{
}

/// An effect of a poll that an operation of [`crate::stream::ReconnectStream`] or
/// [`crate::tokio::StubbornIo`] can have in `status`: a disconnect is reported by the
/// callback for the phase, and never once the connection has been given up; a connection
/// is restored in an outage only.
pub open spec fn effect_fits<S, R>(status: Status<R>, effect: Effect<S>) -> bool {
    match effect {
        Effect::Nothing => true,
        Effect::Disconnect(callback) => {
            &&& callback == callback_of(status.phase())
            &&& !(status is FailedAndExhausted)
        },
        Effect::Reconnect { .. } => status is Disconnected,
    }
}

/// Whether the task that polled is going to be woken: the effect does it, or what has been
/// polled is pending and does it.
pub open spec fn will_be_woken<P, S, E>(input: Input<P, S, E>, step: Step<P, S>) -> bool {
    ||| !(step.effect is Nothing)
    ||| input == Input::<P, S, E>::Stream(Poll::Pending)
    ||| input == Input::<P, S, E>::Attempt(Poll::Pending)
}

/// A read of a reconnecting stream: it does not end before the connection has been given
/// up; an item that it gives is one that the stream gave; an item of the stream that it
/// does not give is a disconnect; all that shows of a disconnect is that there is nothing to
/// read yet; and a task that is told to wait is going to be woken.
pub proof fn stream_read_hides_outages<T, C, I, E, R>(
    status: Status<R>,
    stream: T::Stream,
    input: Input<Option<I>, T::Stream, E>,
    step: Step<Option<I>, T::Stream>,
) where T: UnderlyingStream<C, I, E>, C: Clone + Send
    requires
        input.target() == poll_target(status),
        crate::stream::read_answer::<T, C, I, E>(stream, input, step),
    ensures
        step.poll == Poll::Ready(None::<I>) <==> status is FailedAndExhausted,
        step.poll matches Poll::Ready(Some(item)) ==> input == Input::<
            Option<I>,
            T::Stream,
            E,
        >::Stream(Poll::Ready(Some(item))),
        input matches Input::Stream(Poll::Ready(Some(item))) ==> {
            ||| step.poll == Poll::Ready(Some(item))
            ||| call_ensures(T::is_read_disconnect_error, (&item,), true)
        },
        !(step.effect is Nothing) ==> step.poll is Pending,
        step.poll is Pending ==> will_be_woken(input, step),
        effect_fits(status, step.effect),
{
}

/// A write to a reconnecting stream: it fails only with an error of the sink that is no
/// disconnect, or after the connection has been given up; it succeeds only if the sink
/// does; all that shows of a disconnect is that the sink is not ready yet; and a task that is
/// told to wait is going to be woken.
pub proof fn stream_write_hides_outages<T, C, I, E, R>(
    status: Status<R>,
    stream: T::Stream,
    input: Input<Result<(), E>, T::Stream, E>,
    step: Step<Result<(), E>, T::Stream>,
) where T: UnderlyingStream<C, I, E>, C: Clone + Send
    requires
        input.target() == poll_target(status),
        crate::stream::write_answer::<T, C, I, E>(stream, input, step),
    ensures
        step.poll matches Poll::Ready(Err(err)) ==> {
            ||| status is FailedAndExhausted && call_ensures(T::exhaust_err, (), err)
            ||| input == Input::<Result<(), E>, T::Stream, E>::Stream(step.poll) && call_ensures(
                T::is_write_disconnect_error,
                (&err,),
                false,
            )
        },
        step.poll matches Poll::Ready(Ok(_)) ==> input == Input::<
            Result<(), E>,
            T::Stream,
            E,
        >::Stream(step.poll),
        !(step.effect is Nothing) ==> step.poll is Pending,
        step.poll is Pending ==> will_be_woken(input, step),
        effect_fits(status, step.effect),
{
}

/// A close of a reconnecting stream that is not in an outage: a task that is told to wait
/// is going to be woken, and a close that is done, well or badly, ends the connection.
pub proof fn stream_close_ends_the_connection<T, C, I, E, R>(
    status: Status<R>,
    input: Input<Result<(), E>, T::Stream, E>,
    step: Step<Result<(), E>, T::Stream>,
) where T: UnderlyingStream<C, I, E>, C: Clone + Send
    requires
        input.target() == close_target(status),
        crate::stream::close_answer::<T, C, I, E, R>(status, input, step),
        !(status is Disconnected),
    ensures
        step.poll is Pending ==> will_be_woken(input, step),
        status is Connected ==> (step.poll is Ready <==> step.effect is Disconnect),
        effect_fits(status, step.effect),
{
}

/// A read of reconnecting IO: it does not end before the connection has been given up; it
/// gives the items that the underlying IO gives, and no others; all that shows of a
/// disconnect is that there is nothing to read yet; and a task that is told to wait is going
/// to be woken.
pub proof fn io_read_hides_outages<T, I, E, R>(
    status: Status<R>,
    io: T,
    input: Input<Option<I>, T, E>,
    step: Step<Option<I>, T>,
)
    requires
        input.target() == poll_target(status),
        crate::tokio::io::read_answer(io, input, step),
    ensures
        step.poll == Poll::Ready(None::<I>) <==> status is FailedAndExhausted,
        step.poll matches Poll::Ready(Some(item)) ==> input == Input::<Option<I>, T, E>::Stream(
            Poll::Ready(Some(item)),
        ),
        input matches Input::Stream(Poll::Ready(Some(item))) ==> step.poll == Poll::Ready(
            Some(item),
        ),
        !(step.effect is Nothing) ==> step.poll is Pending,
        step.poll is Pending ==> will_be_woken(input, step),
        effect_fits(status, step.effect),
{
}

/// A write to reconnecting IO: it fails only with an error of the item that is no
/// disconnect, or after the connection has been given up; it succeeds only if the item
/// does; all that shows of a disconnect is that the item is not ready yet; and a task that is
/// told to wait is going to be woken.
pub proof fn io_write_hides_outages<T, C, E, R>(
    status: Status<R>,
    io: T,
    input: Input<Result<(), E>, T, E>,
    step: Step<Result<(), E>, T>,
) where T: UnderlyingIo<C, E>, C: Clone + Send
    requires
        input.target() == poll_target(status),
        crate::tokio::io::write_answer::<T, C, E>(io, input, step),
    ensures
        step.poll matches Poll::Ready(Err(err)) ==> {
            ||| status is FailedAndExhausted && call_ensures(T::exhaust_err, (), err)
            ||| input == Input::<Result<(), E>, T, E>::Stream(step.poll) && call_ensures(
                T::is_disconnect_error,
                (&io, &err),
                false,
            )
        },
        step.poll matches Poll::Ready(Ok(_)) ==> input == Input::<Result<(), E>, T, E>::Stream(
            step.poll,
        ),
        !(step.effect is Nothing) ==> step.poll is Pending,
        step.poll is Pending ==> will_be_woken(input, step),
        effect_fits(status, step.effect),
{
}

/// A close of reconnecting IO that is not in an outage: a task that is told to wait is
/// going to be woken, and a close that is done, well or badly, ends the connection.
pub proof fn io_close_ends_the_connection<T, C, E, R>(
    status: Status<R>,
    input: Input<Result<(), E>, T, E>,
    step: Step<Result<(), E>, T>,
) where T: UnderlyingIo<C, E>, C: Clone + Send
    requires
        input.target() == close_target(status),
        crate::tokio::io::close_answer::<T, C, E, R>(status, input, step),
        !(status is Disconnected),
    ensures
        step.poll is Pending ==> will_be_woken(input, step),
        status is Connected ==> (step.poll is Ready <==> step.effect is Disconnect),
        effect_fits(status, step.effect),
{
}

/// How connecting for the first time goes.
#[verifier::ext_equal]
pub struct Connecting<S, E> {
    /// The delays that are waited for, in order.
    pub waits: Seq<Delay>,
    /// How many attempts are made.
    pub attempts: nat,
    /// The callbacks that are run, in order.
    pub callbacks: Seq<Callback>,
    /// The connection, or the error that is reported.
    pub outcome: Result<S, E>,
}

impl<S, E> Connecting<S, E> {
    /// One attempt, which settles it.
    pub open spec fn settled(verdict: Verdict<S, E>, outcome: Result<S, E>) -> Self {
        Connecting { waits: seq![], attempts: 1, callbacks: seq![verdict.callback()], outcome }
    }

    /// This course, after an attempt with the given verdict and a delay.
    pub open spec fn after(self, verdict: Verdict<S, E>, delay: Delay) -> Self {
        Connecting {
            waits: seq![delay] + self.waits,
            attempts: self.attempts + 1,
            callbacks: seq![verdict.callback()] + self.callbacks,
            outcome: self.outcome,
        }
    }
}

/// How a [`crate::stream::ReconnectStream`] connects, where `results` are the results that
/// successive attempts have, and `delays` the delays to come.
pub open spec fn stream_connects<S, E>(
    exit_if_first_connect_fails: bool,
    delays: Seq<Delay>,
    results: Seq<Result<S, E>>,
) -> Connecting<S, E>
    decreases delays.len(),
{
    let may_retry = crate::stream::may_retry(exit_if_first_connect_fails, first_delay(delays));
    let verdict = verdict(may_retry, results[0]);
    match verdict {
        Verdict::Retry => stream_connects(
            exit_if_first_connect_fails,
            delays.drop_first(),
            results.drop_first(),
        ).after(verdict, delays[0]),
        _ => Connecting::settled(verdict, results[0]),
    }
}

/// How a [`crate::tokio::StubbornIo`] connects, where `results` are the results that
/// successive attempts have, `delays` the delays to come, and `first` says whether no
/// attempt has been made yet.
pub open spec fn io_connects<S, E>(
    first: bool,
    exit_if_first_connect_fails: bool,
    delays: Seq<Delay>,
    results: Seq<Result<S, E>>,
) -> Connecting<S, E>
    decreases delays.len(),
{
    let may_retry = crate::tokio::io::may_retry(exit_if_first_connect_fails, first);
    let verdict = verdict(may_retry, results[0]);
    if verdict is Retry && delays.len() > 0 {
        io_connects(
            false,
            exit_if_first_connect_fails,
            delays.drop_first(),
            results.drop_first(),
        ).after(verdict, delays[0])
    } else {
        Connecting::settled(verdict, results[0])
    }
}

/// So many failed attempts are reported.
pub open spec fn failures(count: nat) -> Seq<Callback> {
    Seq::new(count, |i: int| Callback::OnConnectFail)
}

/// The two kinds of connections connect alike.
pub proof fn stream_and_io_connect_alike<S, E>(
    exit_if_first_connect_fails: bool,
    delays: Seq<Delay>,
    results: Seq<Result<S, E>>,
)
    ensures
        stream_connects(exit_if_first_connect_fails, delays, results) == io_connects(
            true,
            exit_if_first_connect_fails,
            delays,
            results,
        ),
    decreases delays.len(),
{
    if delays.len() > 0 && !exit_if_first_connect_fails {
        first_attempt_is_like_any(delays.drop_first(), results.drop_first());
        stream_and_io_connect_alike(false, delays.drop_first(), results.drop_first());
    }
}

/// Unless a failure of it settles the matter, the first attempt is treated like any other.
proof fn first_attempt_is_like_any<S, E>(delays: Seq<Delay>, results: Seq<Result<S, E>>)
    ensures
        io_connects(true, false, delays, results) == io_connects(false, false, delays, results),
{
}

/// Connecting succeeds with the first attempt that does, if that is among as many attempts
/// as there are delays and one more; each delay before it has then been waited for, and each
/// failure and the success have been reported.
pub proof fn connects_with_the_first_success<S, E>(
    delays: Seq<Delay>,
    results: Seq<Result<S, E>>,
    success: nat,
)
    requires
        success <= delays.len(),
        success < results.len(),
        results[success as int] is Ok,
        forall|i: int| 0 <= i < success ==> results[i] is Err,
    ensures
        stream_connects(false, delays, results) == (Connecting {
            waits: delays.take(success as int),
            attempts: success + 1,
            callbacks: failures(success).push(Callback::OnConnect),
            outcome: results[success as int],
        }),
    decreases success,
{
    if success == 0 {
        assert(delays.take(0) =~= seq![]);
        assert(failures(0).push(Callback::OnConnect) =~= seq![Callback::OnConnect]);
    } else {
        let later = results.drop_first();
        assert forall|i: int| 0 <= i < success - 1 implies later[i] is Err by {
            assert(results[i + 1] is Err);
        }
        assert(results[0] is Err);
        connects_with_the_first_success(delays.drop_first(), later, (success - 1) as nat);
        assert(seq![delays[0]] + delays.drop_first().take(success - 1) =~= delays.take(
            success as int,
        ));
        assert(seq![Callback::OnConnectFail] + failures((success - 1) as nat).push(
            Callback::OnConnect,
        ) =~= failures(success).push(Callback::OnConnect));
    }
}

/// If as many attempts fail as there are delays and one more, connecting fails with the
/// error of the last one, after every delay has been waited for and every failure reported.
pub proof fn fails_with_the_last_error<S, E>(delays: Seq<Delay>, results: Seq<Result<S, E>>)
    requires
        delays.len() < results.len(),
        forall|i: int| 0 <= i <= delays.len() ==> results[i] is Err,
    ensures
        stream_connects(false, delays, results) == (Connecting {
            waits: delays,
            attempts: delays.len() + 1,
            callbacks: failures(delays.len() + 1),
            outcome: results[delays.len() as int],
        }),
    decreases delays.len(),
{
    assert(results[0] is Err);
    if delays.len() == 0 {
        assert(delays =~= seq![]);
        assert(failures(1) =~= seq![Callback::OnConnectFail]);
    } else {
        let later = results.drop_first();
        assert forall|i: int| 0 <= i <= delays.len() - 1 implies later[i] is Err by {
            assert(results[i + 1] is Err);
        }
        fails_with_the_last_error(delays.drop_first(), later);
        assert(seq![delays[0]] + delays.drop_first() =~= delays);
        assert(seq![Callback::OnConnectFail] + failures(delays.len()) =~= failures(
            delays.len() + 1,
        ));
    }
}

/// If no more attempts fail than there are delays, it takes more of them.
pub proof fn failures_take_more_attempts<S, E>(delays: Seq<Delay>, results: Seq<Result<S, E>>)
    requires
        results.len() <= delays.len(),
        forall|i: int| 0 <= i < results.len() ==> results[i] is Err,
    ensures
        stream_connects(false, delays, results).attempts > results.len(),
    decreases delays.len(),
{
    if results.len() > 0 {
        let later = results.drop_first();
        assert forall|i: int| 0 <= i < later.len() implies later[i] is Err by {
            assert(results[i + 1] is Err);
        }
        assert(results[0] is Err);
        failures_take_more_attempts(delays.drop_first(), later);
    }
}

/// With `exit_if_first_connect_fails`, connecting is settled by one attempt, whatever its
/// result.
pub proof fn first_failure_may_settle_it<S, E>(delays: Seq<Delay>, results: Seq<Result<S, E>>)
    requires
        results.len() > 0,
    ensures
        stream_connects(true, delays, results) == (Connecting {
            waits: seq![],
            attempts: 1,
            callbacks: if results[0] is Ok {
                seq![Callback::OnConnect]
            } else {
                failures(1)
            },
            outcome: results[0],
        }),
{
    assert(failures(1) =~= seq![Callback::OnConnectFail]);
}

/// A delay never exceeds the maximum of its strategy, and falls short of it only if the
/// power and the jitter give less.
pub proof fn delay_is_capped(max: Delay, current: Option<Delay>)
    ensures
        capped(Some(max), current) <= max@,
        capped(Some(max), current) < max@ ==> current is Some && capped(Some(max), current)
            == current->0@,
{
}

/// Whether the wait `longer` is no shorter than `shorter`, both as they are before the cap.
/// A wait that is longer than any delay is not one.
pub open spec fn no_shorter(longer: Option<Delay>, shorter: Option<Delay>) -> bool {
    match (longer, shorter) {
        (Some(longer), Some(shorter)) => shorter@ <= longer@,
        (Some(_), None) => false,
        (None, _) => true,
    }
}

/// The length of the longest delay that a strategy with this maximum, if any, can give.
pub open spec fn longest_delay(max: Option<Delay>) -> nat {
    match max {
        Some(max) => max@,
        None => MAX_NANOS as nat,
    }
}

/// If the waits before the cap never shrink, the delays never do, with or without a maximum;
/// and once a delay is as long as the maximum, or as long as any delay can be where there is
/// none, all later ones are.
pub proof fn cap_keeps_order(max: Option<Delay>, waits: Seq<Option<Delay>>, i: int, j: int)
    requires
        max is Some ==> max->0@ <= MAX_NANOS,
        forall|a: int| 0 <= a < waits.len() && waits[a] is Some ==> waits[a]->0@ <= MAX_NANOS,
        forall|a: int, b: int|
            0 <= a <= b < waits.len() ==> no_shorter(#[trigger] waits[b], #[trigger] waits[a]),
        0 <= i <= j < waits.len(),
    ensures
        capped(max, waits[i]) <= capped(max, waits[j]),
        capped(max, waits[i]) == longest_delay(max) ==> capped(max, waits[j]) == longest_delay(
            max,
        ),
{
    assert(no_shorter(waits[j], waits[i]));
}

/// With a maximum, every delay is the smaller one of the maximum and of the delay that the
/// same strategy gives without a maximum.
pub proof fn delay_is_the_smaller_of_maximum_and_uncapped(max: Delay, current: Option<Delay>)
    requires
        max@ <= MAX_NANOS,
    ensures
        capped(Some(max), current) == if max@ <= capped(None, current) {
            max@
        } else {
            capped(None, current)
        },
{
}

/// Two sequences of delays that begin with the same parameters and the same seed are the
/// same: the same strategy, the same power and a generator in the same state.
pub proof fn same_seed_same_sequence<N, G: RngCoreClone>(
    strategy: ExpBackoffStrategy<N, G>,
    seed: u64,
    first_fresh: StdRng,
    first: ExpBackoffIter<N, G>,
    second_fresh: StdRng,
    second: ExpBackoffIter<N, G>,
)
    requires
        strategy.rng == Some(JitterRng::<G>::Std(std_rng_of_seed(seed))),
        strategy.begins(first_fresh, first),
        strategy.begins(second_fresh, second),
    ensures
        first == second,
        first.rng == JitterRng::<G>::Std(std_rng_of_seed(seed)),
{
}

/// The whole seconds and the nanoseconds that are left make up a delay.
pub proof fn delay_is_its_parts(delay: Delay)
    ensures
        (delay@ / NANOS_PER_SEC as nat) * NANOS_PER_SEC + delay@ % NANOS_PER_SEC as nat == delay@,
{
}

} // verus!
