//! What each rehearsal tells, told by what goes in and what comes out.

use vstd::prelude::*;
use vstd::std_specs::iter::IteratorSpec;

use crate::config::ReconnectOptions;
use crate::delay::Delay;
use crate::events::{Callback, Poll};
use crate::history::{io_operates, passes_through, stream_operates, Held, Operation};
use crate::laws::{
    connects_with_the_first_success, failed, failures, failures_take_more_attempts,
    fails_with_the_last_error, first_failure_may_settle_it, none_succeeds,
    outage_ends_with_the_first_success, outage_runs_its_course, stream_and_io_connect_alike,
    succeeds,
};
use crate::rehearsal::connect::io_course_fits;
use crate::rehearsal::{
    rehearse_io_connect, rehearse_io_operations, rehearse_io_outage, rehearse_stream_connect,
    rehearse_stream_operations, rehearse_stream_outage, Answer, Course, Observation, Outage,
};
use crate::stream::{ReconnectStream, UnderlyingStream};
use crate::tokio::io::{StubbornIo, UnderlyingIo};

verus! {

/// A [`ReconnectStream`] connects with the first attempt that succeeds, if there are enough
/// delays before it: they are waited for in order, and each failure and the success are
/// reported.
pub proof fn stream_connects_with_the_first_success<T, C, I, E, F, R>(
    ctor_arg: C,
    options: ReconnectOptions<F>,
    delays: Seq<Delay>,
    results: Vec<Result<T::Stream, E>>,
    success: nat,
    course: Option<Course<T::Stream, E>>,
) where
    T: UnderlyingStream<C, I, E>,
    C: Clone + Send,
    F: Fn() -> R,
    R: Iterator<Item = Delay>,

    requires
        forall|fresh: R| #[trigger]
            call_ensures(options.retries_to_attempt_fn, (), fresh)
                ==> fresh.obeys_prophetic_iter_laws() && fresh.remaining() == delays,
        success <= delays.len(),
        success < results@.len(),
        results@[success as int] is Ok,
        forall|i: int| 0 <= i < success ==> results@[i] is Err,
        success == 0 || !options.exit_if_first_connect_fails,
        call_ensures(
            rehearse_stream_connect::<T, C, I, E, F, R>,
            (ctor_arg, options, results),
            course,
        ),
    ensures
        course matches Some(told) && {
            &&& told.outcome == results@[success as int]
            &&& told.waits@ == delays.take(success as int)
            &&& told.callbacks@.len() == success + 1
            &&& told.callbacks@[success as int] == Callback::OnConnect
            &&& forall|i: int|
                0 <= i < success ==> #[trigger] told.callbacks@[i] == Callback::OnConnectFail
        },
{
    let exit = options.exit_if_first_connect_fails;
    if exit {
        first_failure_may_settle_it(delays, results@);
        assert(delays.take(0) =~= seq![]);
    } else {
        connects_with_the_first_success(delays, results@, success);
    }
}

/// A [`ReconnectStream`] whose attempts all fail reports the error of the one after the
/// last delay, when every delay has been waited for and every failure reported. With fewer
/// results than that it is not settled.
pub proof fn stream_fails_with_the_last_error<T, C, I, E, F, R>(
    ctor_arg: C,
    options: ReconnectOptions<F>,
    delays: Seq<Delay>,
    results: Vec<Result<T::Stream, E>>,
    course: Option<Course<T::Stream, E>>,
) where
    T: UnderlyingStream<C, I, E>,
    C: Clone + Send,
    F: Fn() -> R,
    R: Iterator<Item = Delay>,

    requires
        forall|fresh: R| #[trigger]
            call_ensures(options.retries_to_attempt_fn, (), fresh)
                ==> fresh.obeys_prophetic_iter_laws() && fresh.remaining() == delays,
        forall|i: int| 0 <= i < results@.len() && i <= delays.len() ==> results@[i] is Err,
        !options.exit_if_first_connect_fails,
        call_ensures(
            rehearse_stream_connect::<T, C, I, E, F, R>,
            (ctor_arg, options, results),
            course,
        ),
    ensures
        course is Some <==> delays.len() < results@.len(),
        course matches Some(told) ==> {
            &&& told.outcome == results@[delays.len() as int]
            &&& told.waits@ == delays
            &&& told.callbacks@.len() == delays.len() + 1
            &&& forall|i: int|
                0 <= i < told.callbacks@.len() ==> #[trigger] told.callbacks@[i]
                    == Callback::OnConnectFail
        },
{
    if delays.len() < results@.len() {
        fails_with_the_last_error(delays, results@);
    } else {
        failures_take_more_attempts(delays, results@);
    }
}

/// If the first failure of a [`ReconnectStream`] settles it, there is one attempt and no
/// wait.
pub proof fn stream_may_be_settled_by_the_first_failure<T, C, I, E, F, R>(
    ctor_arg: C,
    options: ReconnectOptions<F>,
    delays: Seq<Delay>,
    results: Vec<Result<T::Stream, E>>,
    course: Option<Course<T::Stream, E>>,
) where
    T: UnderlyingStream<C, I, E>,
    C: Clone + Send,
    F: Fn() -> R,
    R: Iterator<Item = Delay>,

    requires
        forall|fresh: R| #[trigger]
            call_ensures(options.retries_to_attempt_fn, (), fresh)
                ==> fresh.obeys_prophetic_iter_laws() && fresh.remaining() == delays,
        results@.len() > 0,
        results@[0] is Err,
        options.exit_if_first_connect_fails,
        call_ensures(
            rehearse_stream_connect::<T, C, I, E, F, R>,
            (ctor_arg, options, results),
            course,
        ),
    ensures
        course matches Some(told) && {
            &&& told.outcome == results@[0]
            &&& told.waits@.len() == 0
            &&& told.callbacks@ == seq![Callback::OnConnectFail]
        },
{
    first_failure_may_settle_it(delays, results@);
    assert(failures(1) =~= seq![Callback::OnConnectFail]);
}

/// In an outage of a [`ReconnectStream`] in which no attempt succeeds, every delay is
/// waited for, in order, the loss is reported once and each failure after it, and reads
/// wait. When the attempt after the last delay has failed, the connection is given up, and
/// a read tells so.
pub proof fn stream_outage_runs_its_course<T, C, I, E, F, R>(
    before: ReconnectStream<T, C, I, E, F, R>,
    delays: Seq<Delay>,
    attempts: Vec<Poll<Result<T::Stream, E>>>,
    outage: Outage<I>,
    after: ReconnectStream<T, C, I, E, F, R>,
) where
    T: UnderlyingStream<C, I, E>,
    C: Clone + Send,
    F: Fn() -> R,
    R: Iterator<Item = Delay>,

    requires
        before.status is Connected,
        forall|fresh: R| #[trigger]
            call_ensures(before.options.retries_to_attempt_fn, (), fresh)
                ==> fresh.obeys_prophetic_iter_laws() && fresh.remaining() == delays,
        none_succeeds(attempts@),
        exists|stream: &mut ReconnectStream<T, C, I, E, F, R>|
            *stream == before && *final(stream) == after && #[trigger] call_ensures(
                rehearse_stream_outage::<T, C, I, E, F, R>,
                (stream, attempts),
                outage,
            ),
    ensures
        after.stream == before.stream,
        after.options == before.options,
        after.ctor_arg == before.ctor_arg,
        outage.callbacks@[0] == Callback::OnDisconnect,
        forall|i: int|
            0 < i < outage.callbacks@.len() ==> #[trigger] outage.callbacks@[i]
                == Callback::OnConnectFail,
        after.status is FailedAndExhausted <==> failed(attempts@) >= delays.len(),
        after.status is FailedAndExhausted ==> {
            &&& outage.waits@ == delays
            &&& outage.callbacks@.len() == delays.len() + 1
            &&& outage.answers@.last() == Poll::Ready(None::<I>)
            &&& forall|i: int|
                0 <= i < outage.answers@.len() - 1 ==> #[trigger] outage.answers@[i] is Pending
        },
        !(after.status is FailedAndExhausted) ==> {
            &&& after.status is Disconnected
            &&& after.status->Disconnected_0.attempts_tracker.attempt_num == outage.waits@.len()
            &&& outage.waits@ == delays.take((failed(attempts@) + 1) as int)
            &&& outage.callbacks@.len() == failed(attempts@) + 1
            &&& outage.answers@.len() == attempts@.len() + 1
            &&& forall|i: int|
                0 <= i < outage.answers@.len() ==> #[trigger] outage.answers@[i] is Pending
        },
{
    outage_runs_its_course::<I, T::Stream, E>(before.stream, delays, attempts@);
    assert(before.status.phase() is Connected);
}

/// An outage of a [`ReconnectStream`] ends with the first attempt that succeeds, if fewer
/// attempts than there are delays have failed before it: the connection is the one that it
/// has established.
pub proof fn stream_outage_ends_with_the_first_success<T, C, I, E, F, R>(
    before: ReconnectStream<T, C, I, E, F, R>,
    delays: Seq<Delay>,
    attempts: Vec<Poll<Result<T::Stream, E>>>,
    success: nat,
    outage: Outage<I>,
    after: ReconnectStream<T, C, I, E, F, R>,
) where
    T: UnderlyingStream<C, I, E>,
    C: Clone + Send,
    F: Fn() -> R,
    R: Iterator<Item = Delay>,

    requires
        before.status is Connected,
        forall|fresh: R| #[trigger]
            call_ensures(before.options.retries_to_attempt_fn, (), fresh)
                ==> fresh.obeys_prophetic_iter_laws() && fresh.remaining() == delays,
        success < attempts@.len(),
        succeeds(attempts@[success as int]),
        none_succeeds(attempts@.take(success as int)),
        failed(attempts@.take(success as int)) < delays.len(),
        exists|stream: &mut ReconnectStream<T, C, I, E, F, R>|
            *stream == before && *final(stream) == after && #[trigger] call_ensures(
                rehearse_stream_outage::<T, C, I, E, F, R>,
                (stream, attempts),
                outage,
            ),
    ensures
        after.status is Connected,
        attempts@[success as int] == Poll::Ready(Ok::<T::Stream, E>(after.stream)),
        after.options == before.options,
        after.ctor_arg == before.ctor_arg,
        outage.waits@ == delays.take(failed(attempts@.take(success as int)) + 1int),
        outage.callbacks@.len() == outage.waits@.len() + 1,
        outage.callbacks@[0] == Callback::OnDisconnect,
        outage.callbacks@.last() == Callback::OnConnect,
        forall|i: int|
            0 < i < outage.callbacks@.len() - 1 ==> #[trigger] outage.callbacks@[i]
                == Callback::OnConnectFail,
        outage.answers@.len() == success + 2,
        forall|i: int|
            0 <= i < outage.answers@.len() ==> #[trigger] outage.answers@[i] is Pending,
{
    outage_ends_with_the_first_success::<I, T::Stream, E>(
        before.stream,
        delays,
        attempts@,
        success,
    );
    assert(before.status.phase() is Connected);
}

/// Whatever operations follow each other on a [`ReconnectStream`]: each is answered as what
/// it is; an item is given only if it was read, and a success told only if there was one;
/// the connection is declared restored only if an attempt has succeeded, and lost only if
/// something has come of a poll. The first operation meets a connection: it waits if the
/// underlying stream does, and a success of that is one of the operation.
pub proof fn stream_operations_are_answered<T, C, I, E, F, R>(
    before: ReconnectStream<T, C, I, E, F, R>,
    observations: Vec<Observation<I, T::Stream, E>>,
    answers: Vec<Answer<I, T::Stream, E>>,
    after: ReconnectStream<T, C, I, E, F, R>,
    i: int,
) where
    T: UnderlyingStream<C, I, E>,
    C: Clone + Send,
    F: Fn() -> R,
    R: Iterator<Item = Delay>,

    requires
        before.status is Connected,
        0 <= i < observations@.len(),
        exists|stream: &mut ReconnectStream<T, C, I, E, F, R>|
            *stream == before && *final(stream) == after && #[trigger] call_ensures(
                rehearse_stream_operations::<T, C, I, E, F, R>,
                (stream, observations),
                answers,
            ),
    ensures
        after.options == before.options,
        after.ctor_arg == before.ctor_arg,
        answers@.len() == observations@.len(),
        match observations@[i] {
            Observation::Read { read, attempt } => {
                &&& answers@[i] matches Answer::Read(step)
                &&& step.poll matches Poll::Ready(Some(item)) ==> read == Poll::Ready(Some(item))
                &&& step.effect is Reconnect ==> (attempt matches Poll::Ready(Ok(_)))
                &&& step.effect is Disconnect ==> read is Ready || (attempt matches Poll::Ready(
                    Err(_),
                ))
                &&& i == 0 && read is Pending ==> step.poll is Pending && step.effect is Nothing
                &&& i == 0 && read == Poll::Ready(None::<I>) ==> step.effect is Disconnect
            },
            Observation::Ready { ready, attempt } => {
                &&& answers@[i] matches Answer::Ready(step)
                &&& step.poll matches Poll::Ready(Ok(_)) ==> ready == step.poll
                &&& step.effect is Reconnect ==> (attempt matches Poll::Ready(Ok(_)))
                &&& step.effect is Disconnect ==> (ready matches Poll::Ready(Err(_))) || (
                attempt matches Poll::Ready(Err(_)))
                &&& i == 0 && ready is Pending ==> step.poll is Pending && step.effect is Nothing
                &&& i == 0 && (ready matches Poll::Ready(Ok(_))) ==> step.poll == ready
            },
            Observation::Flush { flushed, attempt } => {
                &&& answers@[i] matches Answer::Flush(step)
                &&& step.poll matches Poll::Ready(Ok(_)) ==> flushed == step.poll
                &&& step.effect is Reconnect ==> (attempt matches Poll::Ready(Ok(_)))
                &&& step.effect is Disconnect ==> (flushed matches Poll::Ready(Err(_))) || (
                attempt matches Poll::Ready(Err(_)))
                &&& i == 0 && flushed is Pending ==> step.poll is Pending && step.effect is Nothing
                &&& i == 0 && (flushed matches Poll::Ready(Ok(_))) ==> step.poll == flushed
            },
            Observation::Close { closed } => {
                &&& answers@[i] matches Answer::Close(step)
                &&& step.poll matches Poll::Ready(Ok(_)) ==> closed == step.poll
                &&& !(step.effect is Reconnect)
                &&& step.effect is Disconnect ==> closed is Ready && step.poll == closed
                &&& i == 0 ==> step.poll == closed
            },
        },
{
    let (held, operations) = choose|
        held: Seq<Held<T::Stream, R>>,
        operations: Seq<Operation<I, T::Stream, E>>,
    |
        {
            &&& #[trigger] passes_through(held, operations)
            &&& operations.len() == observations@.len()
            &&& forall|i: int|
                0 <= i < operations.len() ==> {
                    &&& stream_operates::<T, C, I, E, R>(
                        held[i].status,
                        held[i].stream,
                        #[trigger] operations[i],
                    )
                    &&& observations@[i].becomes(held[i].status, operations[i], answers@[i])
                }
        };
    assert(stream_operates::<T, C, I, E, R>(held[i].status, held[i].stream, operations[i]));
}

/// A [`StubbornIo`] connects with the first attempt that succeeds, if there are enough
/// delays before it: they are waited for in order, and each failure and the success are
/// reported.
pub proof fn io_connects_with_the_first_success<T, C, E, F, R>(
    ctor_arg: C,
    options: ReconnectOptions<F>,
    delays: Seq<Delay>,
    results: Vec<Result<T, E>>,
    success: nat,
    course: Option<Course<T, E>>,
) where
    T: UnderlyingIo<C, E>,
    C: Clone + Send,
    F: Fn() -> R,
    R: Iterator<Item = Delay>,

    requires
        forall|fresh: R| #[trigger]
            call_ensures(options.retries_to_attempt_fn, (), fresh)
                ==> fresh.obeys_prophetic_iter_laws() && fresh.remaining() == delays,
        success <= delays.len(),
        success < results@.len(),
        results@[success as int] is Ok,
        forall|i: int| 0 <= i < success ==> results@[i] is Err,
        success == 0 || !options.exit_if_first_connect_fails,
        call_ensures(
            rehearse_io_connect::<T, C, E, F, R>,
            (ctor_arg, options, results),
            course,
        ),
    ensures
        course matches Some(told) && {
            &&& told.outcome == results@[success as int]
            &&& told.waits@ == delays.take(success as int)
            &&& told.callbacks@.len() == success + 1
            &&& told.callbacks@[success as int] == Callback::OnConnect
            &&& forall|i: int|
                0 <= i < success ==> #[trigger] told.callbacks@[i] == Callback::OnConnectFail
        },
{
    let exit = options.exit_if_first_connect_fails;
    if exit {
        first_failure_may_settle_it(delays, results@);
        assert(delays.take(0) =~= seq![]);
    } else {
        connects_with_the_first_success(delays, results@, success);
    }
    stream_and_io_connect_alike(options.exit_if_first_connect_fails, delays, results@);
    assert(io_course_fits(
        true,
        options.exit_if_first_connect_fails,
        delays,
        results@,
        course,
    ));
}

/// A [`StubbornIo`] whose attempts all fail reports the error of the one after the last
/// delay, when every delay has been waited for and every failure reported. With fewer
/// results than that it is not settled.
pub proof fn io_fails_with_the_last_error<T, C, E, F, R>(
    ctor_arg: C,
    options: ReconnectOptions<F>,
    delays: Seq<Delay>,
    results: Vec<Result<T, E>>,
    course: Option<Course<T, E>>,
) where
    T: UnderlyingIo<C, E>,
    C: Clone + Send,
    F: Fn() -> R,
    R: Iterator<Item = Delay>,

    requires
        forall|fresh: R| #[trigger]
            call_ensures(options.retries_to_attempt_fn, (), fresh)
                ==> fresh.obeys_prophetic_iter_laws() && fresh.remaining() == delays,
        forall|i: int| 0 <= i < results@.len() && i <= delays.len() ==> results@[i] is Err,
        !options.exit_if_first_connect_fails,
        call_ensures(
            rehearse_io_connect::<T, C, E, F, R>,
            (ctor_arg, options, results),
            course,
        ),
    ensures
        course is Some <==> delays.len() < results@.len(),
        course matches Some(told) ==> {
            &&& told.outcome == results@[delays.len() as int]
            &&& told.waits@ == delays
            &&& told.callbacks@.len() == delays.len() + 1
            &&& forall|i: int|
                0 <= i < told.callbacks@.len() ==> #[trigger] told.callbacks@[i]
                    == Callback::OnConnectFail
        },
{
    if delays.len() < results@.len() {
        fails_with_the_last_error(delays, results@);
    } else {
        failures_take_more_attempts(delays, results@);
    }
    stream_and_io_connect_alike(options.exit_if_first_connect_fails, delays, results@);
    assert(io_course_fits(
        true,
        options.exit_if_first_connect_fails,
        delays,
        results@,
        course,
    ));
}

/// If the first failure of a [`StubbornIo`] settles it, there is one attempt and no wait.
pub proof fn io_may_be_settled_by_the_first_failure<T, C, E, F, R>(
    ctor_arg: C,
    options: ReconnectOptions<F>,
    delays: Seq<Delay>,
    results: Vec<Result<T, E>>,
    course: Option<Course<T, E>>,
) where
    T: UnderlyingIo<C, E>,
    C: Clone + Send,
    F: Fn() -> R,
    R: Iterator<Item = Delay>,

    requires
        forall|fresh: R| #[trigger]
            call_ensures(options.retries_to_attempt_fn, (), fresh)
                ==> fresh.obeys_prophetic_iter_laws() && fresh.remaining() == delays,
        results@.len() > 0,
        results@[0] is Err,
        options.exit_if_first_connect_fails,
        call_ensures(
            rehearse_io_connect::<T, C, E, F, R>,
            (ctor_arg, options, results),
            course,
        ),
    ensures
        course matches Some(told) && {
            &&& told.outcome == results@[0]
            &&& told.waits@.len() == 0
            &&& told.callbacks@ == seq![Callback::OnConnectFail]
        },
{
    first_failure_may_settle_it(delays, results@);
    assert(failures(1) =~= seq![Callback::OnConnectFail]);
    stream_and_io_connect_alike(options.exit_if_first_connect_fails, delays, results@);
    assert(io_course_fits(
        true,
        options.exit_if_first_connect_fails,
        delays,
        results@,
        course,
    ));
}

/// In an outage of a [`StubbornIo`] in which no attempt succeeds, every delay is waited
/// for, in order, the loss is reported once and each failure after it, and reads wait. When
/// the attempt after the last delay has failed, the connection is given up, and a read
/// tells so.
pub proof fn io_outage_runs_its_course<T, C, I, E, F, R>(
    before: StubbornIo<T, C, E, F, R>,
    delays: Seq<Delay>,
    attempts: Vec<Poll<Result<T, E>>>,
    outage: Outage<I>,
    after: StubbornIo<T, C, E, F, R>,
) where
    T: UnderlyingIo<C, E>,
    C: Clone + Send,
    F: Fn() -> R,
    R: Iterator<Item = Delay>,

    requires
        before.status is Connected,
        forall|fresh: R| #[trigger]
            call_ensures(before.options.retries_to_attempt_fn, (), fresh)
                ==> fresh.obeys_prophetic_iter_laws() && fresh.remaining() == delays,
        none_succeeds(attempts@),
        exists|io: &mut StubbornIo<T, C, E, F, R>|
            *io == before && *final(io) == after && #[trigger] call_ensures(
                rehearse_io_outage::<T, C, I, E, F, R>,
                (io, attempts),
                outage,
            ),
    ensures
        after.underlying_io == before.underlying_io,
        after.options == before.options,
        after.ctor_arg == before.ctor_arg,
        outage.callbacks@[0] == Callback::OnDisconnect,
        forall|i: int|
            0 < i < outage.callbacks@.len() ==> #[trigger] outage.callbacks@[i]
                == Callback::OnConnectFail,
        after.status is FailedAndExhausted <==> failed(attempts@) >= delays.len(),
        after.status is FailedAndExhausted ==> {
            &&& outage.waits@ == delays
            &&& outage.callbacks@.len() == delays.len() + 1
            &&& outage.answers@.last() == Poll::Ready(None::<I>)
            &&& forall|i: int|
                0 <= i < outage.answers@.len() - 1 ==> #[trigger] outage.answers@[i] is Pending
        },
        !(after.status is FailedAndExhausted) ==> {
            &&& after.status is Disconnected
            &&& after.status->Disconnected_0.attempts_tracker.attempt_num == outage.waits@.len()
            &&& outage.waits@ == delays.take((failed(attempts@) + 1) as int)
            &&& outage.callbacks@.len() == failed(attempts@) + 1
            &&& outage.answers@.len() == attempts@.len() + 1
            &&& forall|i: int|
                0 <= i < outage.answers@.len() ==> #[trigger] outage.answers@[i] is Pending
        },
{
    outage_runs_its_course::<I, T, E>(before.underlying_io, delays, attempts@);
    assert(before.status.phase() is Connected);
}

/// An outage of a [`StubbornIo`] ends with the first attempt that succeeds, if fewer
/// attempts than there are delays have failed before it: the connection is the one that it
/// has established.
pub proof fn io_outage_ends_with_the_first_success<T, C, I, E, F, R>(
    before: StubbornIo<T, C, E, F, R>,
    delays: Seq<Delay>,
    attempts: Vec<Poll<Result<T, E>>>,
    success: nat,
    outage: Outage<I>,
    after: StubbornIo<T, C, E, F, R>,
) where
    T: UnderlyingIo<C, E>,
    C: Clone + Send,
    F: Fn() -> R,
    R: Iterator<Item = Delay>,

    requires
        before.status is Connected,
        forall|fresh: R| #[trigger]
            call_ensures(before.options.retries_to_attempt_fn, (), fresh)
                ==> fresh.obeys_prophetic_iter_laws() && fresh.remaining() == delays,
        success < attempts@.len(),
        succeeds(attempts@[success as int]),
        none_succeeds(attempts@.take(success as int)),
        failed(attempts@.take(success as int)) < delays.len(),
        exists|io: &mut StubbornIo<T, C, E, F, R>|
            *io == before && *final(io) == after && #[trigger] call_ensures(
                rehearse_io_outage::<T, C, I, E, F, R>,
                (io, attempts),
                outage,
            ),
    ensures
        after.status is Connected,
        attempts@[success as int] == Poll::Ready(Ok::<T, E>(after.underlying_io)),
        after.options == before.options,
        after.ctor_arg == before.ctor_arg,
        outage.waits@ == delays.take(failed(attempts@.take(success as int)) + 1int),
        outage.callbacks@.len() == outage.waits@.len() + 1,
        outage.callbacks@[0] == Callback::OnDisconnect,
        outage.callbacks@.last() == Callback::OnConnect,
        forall|i: int|
            0 < i < outage.callbacks@.len() - 1 ==> #[trigger] outage.callbacks@[i]
                == Callback::OnConnectFail,
        outage.answers@.len() == success + 2,
        forall|i: int|
            0 <= i < outage.answers@.len() ==> #[trigger] outage.answers@[i] is Pending,
{
    outage_ends_with_the_first_success::<I, T, E>(before.underlying_io, delays, attempts@, success);
    assert(before.status.phase() is Connected);
}

/// Whatever operations follow each other on a [`StubbornIo`]: each is answered as what it
/// is; an item is given only if it was read, and a success told only if there was one; the
/// connection is declared restored only if an attempt has succeeded, and lost only if
/// something has come of a poll. The first operation meets a connection: it waits if the
/// underlying stream does, and a success of that is one of the operation.
pub proof fn io_operations_are_answered<T, C, I, E, F, R>(
    before: StubbornIo<T, C, E, F, R>,
    observations: Vec<Observation<I, T, E>>,
    answers: Vec<Answer<I, T, E>>,
    after: StubbornIo<T, C, E, F, R>,
    i: int,
) where
    T: UnderlyingIo<C, E>,
    C: Clone + Send,
    F: Fn() -> R,
    R: Iterator<Item = Delay>,

    requires
        before.status is Connected,
        0 <= i < observations@.len(),
        exists|io: &mut StubbornIo<T, C, E, F, R>|
            *io == before && *final(io) == after && #[trigger] call_ensures(
                rehearse_io_operations::<T, C, I, E, F, R>,
                (io, observations),
                answers,
            ),
    ensures
        after.options == before.options,
        after.ctor_arg == before.ctor_arg,
        answers@.len() == observations@.len(),
        match observations@[i] {
            Observation::Read { read, attempt } => {
                &&& answers@[i] matches Answer::Read(step)
                &&& step.poll matches Poll::Ready(Some(item)) ==> read == Poll::Ready(Some(item))
                &&& step.effect is Reconnect ==> (attempt matches Poll::Ready(Ok(_)))
                &&& step.effect is Disconnect ==> read is Ready || (attempt matches Poll::Ready(
                    Err(_),
                ))
                &&& i == 0 && read is Pending ==> step.poll is Pending && step.effect is Nothing
                &&& i == 0 && read == Poll::Ready(None::<I>) ==> step.effect is Disconnect
            },
            Observation::Ready { ready, attempt } => {
                &&& answers@[i] matches Answer::Ready(step)
                &&& step.poll matches Poll::Ready(Ok(_)) ==> ready == step.poll
                &&& step.effect is Reconnect ==> (attempt matches Poll::Ready(Ok(_)))
                &&& step.effect is Disconnect ==> (ready matches Poll::Ready(Err(_))) || (
                attempt matches Poll::Ready(Err(_)))
                &&& i == 0 && ready is Pending ==> step.poll is Pending && step.effect is Nothing
                &&& i == 0 && (ready matches Poll::Ready(Ok(_))) ==> step.poll == ready
            },
            Observation::Flush { flushed, attempt } => {
                &&& answers@[i] matches Answer::Flush(step)
                &&& step.poll matches Poll::Ready(Ok(_)) ==> flushed == step.poll
                &&& step.effect is Reconnect ==> (attempt matches Poll::Ready(Ok(_)))
                &&& step.effect is Disconnect ==> (flushed matches Poll::Ready(Err(_))) || (
                attempt matches Poll::Ready(Err(_)))
                &&& i == 0 && flushed is Pending ==> step.poll is Pending && step.effect is Nothing
                &&& i == 0 && (flushed matches Poll::Ready(Ok(_))) ==> step.poll == flushed
            },
            Observation::Close { closed } => {
                &&& answers@[i] matches Answer::Close(step)
                &&& step.poll matches Poll::Ready(Ok(_)) ==> closed == step.poll
                &&& !(step.effect is Reconnect)
                &&& step.effect is Disconnect ==> closed is Ready && step.poll == closed
                &&& i == 0 ==> step.poll == closed
            },
        },
{
    let (held, operations) = choose|
        held: Seq<Held<T, R>>,
        operations: Seq<Operation<I, T, E>>,
    |
        {
            &&& #[trigger] passes_through(held, operations)
            &&& operations.len() == observations@.len()
            &&& forall|i: int|
                0 <= i < operations.len() ==> {
                    &&& io_operates::<T, C, I, E, R>(
                        held[i].status,
                        held[i].stream,
                        #[trigger] operations[i],
                    )
                    &&& observations@[i].becomes(held[i].status, operations[i], answers@[i])
                }
        };
    assert(io_operates::<T, C, I, E, R>(held[i].status, held[i].stream, operations[i]));
}

} // verus!
