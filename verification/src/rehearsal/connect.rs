//! Connecting for the first time, played through.

use vstd::prelude::*;
use vstd::std_specs::iter::IteratorSpec;

use crate::config::ReconnectOptions;
use crate::connect::ConnectStep;
use crate::delay::Delay;
use crate::events::Callback;
use crate::laws::{io_connects, stream_connects, Connecting};
use crate::status::first_delay;
use crate::stream::{ReconnectStream, StreamConnecting, UnderlyingStream};
use crate::tokio::io::{IoConnecting, StubbornIo, UnderlyingIo};

verus! {

/// How connecting for the first time went.
pub struct Course<S, E> {
    /// The delays that were waited for, in order.
    pub waits: Vec<Delay>,
    /// The callbacks that were run, in order: one for each attempt.
    pub callbacks: Vec<Callback>,
    /// The connection, or the error that was reported.
    pub outcome: Result<S, E>,
}

impl<S, E> View for Course<S, E> {
    type V = Connecting<S, E>;

    open spec fn view(&self) -> Connecting<S, E> {
        Connecting {
            waits: self.waits@,
            attempts: self.callbacks@.len(),
            callbacks: self.callbacks@,
            outcome: self.outcome,
        }
    }
}

/// Whether `course` is `whole`, or nothing where `whole` takes more attempts than there are
/// results.
pub open spec fn tells<S, E>(
    course: Option<Course<S, E>>,
    whole: Connecting<S, E>,
    results: nat,
) -> bool {
    match course {
        Some(course) => course@ == whole && whole.attempts <= results,
        None => whole.attempts > results,
    }
}

/// The delays to come, where `next` is the next one and `rest` has the ones after it.
pub open spec fn joined(next: Option<Delay>, rest: Seq<Delay>) -> Seq<Delay> {
    match next {
        Some(delay) => seq![delay] + rest,
        None => seq![],
    }
}

/// Whether `course` is how a [`ReconnectStream`] connects, as far as there are results.
pub open spec fn stream_course_fits<S, E>(
    exit_if_first_connect_fails: bool,
    delays: Seq<Delay>,
    results: Seq<Result<S, E>>,
    course: Option<Course<S, E>>,
) -> bool {
    tells(course, stream_connects(exit_if_first_connect_fails, delays, results), results.len())
}

/// Whether `course` is how a [`StubbornIo`] connects, as far as there are results.
pub open spec fn io_course_fits<S, E>(
    first: bool,
    exit_if_first_connect_fails: bool,
    delays: Seq<Delay>,
    results: Seq<Result<S, E>>,
    course: Option<Course<S, E>>,
) -> bool {
    tells(course, io_connects(first, exit_if_first_connect_fails, delays, results), results.len())
}

impl<S, E> Course<S, E> {
    /// The course of one attempt, which settles it.
    fn settled(callback: Callback, outcome: Result<S, E>) -> (course: Self)
        ensures
            course.waits@ == Seq::<Delay>::empty(),
            course.callbacks@ == seq![callback],
            course.outcome == outcome,
    {
        let mut callbacks: Vec<Callback> = Vec::new();
        callbacks.push(callback);
        Course { waits: Vec::new(), callbacks, outcome }
    }

    /// This course, after an attempt that was reported by `callback` and a delay.
    fn after(self, callback: Callback, delay: Delay) -> (course: Self)
        ensures
            course.waits@ == seq![delay] + self.waits@,
            course.callbacks@ == seq![callback] + self.callbacks@,
            course.outcome == self.outcome,
    {
        let mut course = self;
        course.waits.insert(0, delay);
        course.callbacks.insert(0, callback);
        assert(course.waits@ =~= seq![delay] + self.waits@);
        assert(course.callbacks@ =~= seq![callback] + self.callbacks@);
        course
    }
}

/// Plays through the rest of connecting a [`ReconnectStream`], on the results of the attempt
/// that is under way and of those that follow.
pub fn continue_stream_connect<T, C, I, E, F, R>(
    connecting: StreamConnecting<C, F, R>,
    results: Vec<Result<T::Stream, E>>,
) -> (course: Option<Course<T::Stream, E>>) where
    T: UnderlyingStream<C, I, E>,
    C: Clone + Send,
    F: Fn() -> R,
    R: Iterator<Item = Delay>,

    ensures
        exists|delays: Seq<Delay>|
            first_delay(delays) == connecting.maybe_delay && #[trigger] stream_course_fits(
                connecting.options.exit_if_first_connect_fails,
                delays,
                results@,
                course,
            ),
        (connecting.maybe_delay is Some ==> connecting.tries.obeys_prophetic_iter_laws())
            ==> stream_course_fits(
            connecting.options.exit_if_first_connect_fails,
            joined(connecting.maybe_delay, connecting.tries.remaining()),
            results@,
            course,
        ),
    decreases results@.len(),
{
    let ghost exit = connecting.options.exit_if_first_connect_fails;
    let ghost all = results@;
    let mut results = results;
    if results.len() == 0 {
        assert(stream_course_fits(exit, joined(connecting.maybe_delay, seq![]), all, None));
        return None;
    }
    let result = results.remove(0);
    assert(results@ =~= all.drop_first());
    let step = ReconnectStream::<T, C, I, E, F, R>::on_established(connecting, result);
    let callback = step.callback();
    match step {
        ConnectStep::Connected(connected) => {
            let course = Some(Course::settled(callback, Ok(connected.stream)));
            assert(stream_course_fits(exit, joined(connecting.maybe_delay, seq![]), all, course));
            course
        },
        ConnectStep::Failed(err) => {
            let course = Some(Course::settled(callback, Err(err)));
            assert(stream_course_fits(exit, joined(connecting.maybe_delay, seq![]), all, course));
            course
        },
        ConnectStep::Retry((waiting, delay)) => {
            let (next, _arg) = waiting.next_try();
            assert(connecting.tries.obeys_prophetic_iter_laws() ==> joined(
                next.maybe_delay,
                next.tries.remaining(),
            ) =~= connecting.tries.remaining());
            let rest = continue_stream_connect::<T, C, I, E, F, R>(next, results);
            let ghost later = rest;
            let course = match rest {
                Some(rest) => Some(rest.after(callback, delay)),
                None => None,
            };
            assert forall|delays: Seq<Delay>|
                #[trigger] stream_course_fits(exit, delays, all.drop_first(), later) implies
                stream_course_fits(exit, joined(Some(delay), delays), all, course) by {
                assert(joined(Some(delay), delays).drop_first() =~= delays);
            }
            course
        },
    }
}

/// Plays through connecting a [`ReconnectStream`], on the results of successive attempts.
/// Gives nothing where it takes more attempts than there are results.
pub fn rehearse_stream_connect<T, C, I, E, F, R>(
    ctor_arg: C,
    options: ReconnectOptions<F>,
    results: Vec<Result<T::Stream, E>>,
) -> (course: Option<Course<T::Stream, E>>) where
    T: UnderlyingStream<C, I, E>,
    C: Clone + Send,
    F: Fn() -> R,
    R: Iterator<Item = Delay>,

    requires
        call_requires(options.retries_to_attempt_fn, ()),
    ensures
        exists|delays: Seq<Delay>| #[trigger]
            stream_course_fits(
                options.exit_if_first_connect_fails,
                delays,
                results@,
                course,
            ),
        exists|tries: R| #[trigger]
            call_ensures(options.retries_to_attempt_fn, (), tries) && (
            tries.obeys_prophetic_iter_laws() ==> stream_course_fits(
                options.exit_if_first_connect_fails,
                tries.remaining(),
                results@,
                course,
            )),
{
    let (connecting, _arg) = ReconnectStream::<T, C, I, E, F, R>::connect_with_options(
        ctor_arg,
        options,
    );
    assert(forall|tries: R|
        tries.obeys_prophetic_iter_laws() && connecting.maybe_delay == first_delay(
            #[trigger] tries.remaining(),
        ) && (connecting.maybe_delay is Some ==> connecting.tries.remaining()
            == tries.remaining().drop_first()) ==> joined(
            connecting.maybe_delay,
            connecting.tries.remaining(),
        ) =~= tries.remaining());
    continue_stream_connect::<T, C, I, E, F, R>(connecting, results)
}

/// Plays through the rest of connecting a [`StubbornIo`], on the results of the attempt that
/// is under way and of those that follow.
pub fn continue_io_connect<T, C, E, F, R>(
    connecting: IoConnecting<C, F, R>,
    results: Vec<Result<T, E>>,
) -> (course: Option<Course<T, E>>) where
    T: UnderlyingIo<C, E>,
    C: Clone + Send,
    F: Fn() -> R,
    R: Iterator<Item = Delay>,

    requires
        connecting.retries is None ==> call_requires(connecting.options.retries_to_attempt_fn, ()),
    ensures
        exists|delays: Seq<Delay>| #[trigger]
            io_course_fits(
                connecting.retries is None,
                connecting.options.exit_if_first_connect_fails,
                delays,
                results@,
                course,
            ),
        ({
            ||| forall|delays: Seq<Delay>| #[trigger]
                io_course_fits(
                    connecting.retries is None,
                    connecting.options.exit_if_first_connect_fails,
                    delays,
                    results@,
                    course,
                )
            ||| exists|retries: R| #[trigger]
                connecting.takes_from(retries) && (retries.obeys_prophetic_iter_laws()
                    ==> io_course_fits(
                    connecting.retries is None,
                    connecting.options.exit_if_first_connect_fails,
                    retries.remaining(),
                    results@,
                    course,
                ))
        }),
    decreases results@.len(),
{
    let ghost first = connecting.retries is None;
    let ghost exit = connecting.options.exit_if_first_connect_fails;
    let ghost all = results@;
    let mut results = results;
    if results.len() == 0 {
        assert(io_course_fits(first, exit, seq![], all, None));
        return None;
    }
    let result = results.remove(0);
    assert(results@ =~= all.drop_first());
    let step = StubbornIo::<T, C, E, F, R>::on_established(connecting, result);
    let callback = step.callback();
    match step {
        ConnectStep::Connected(connected) => {
            let course = Some(Course::settled(callback, Ok(connected.underlying_io)));
            assert(io_course_fits(first, exit, seq![], all, course));
            course
        },
        ConnectStep::Failed(err) => {
            let course = Some(Course::settled(callback, Err(err)));
            assert(io_course_fits(first, exit, seq![], all, course));
            course
        },
        ConnectStep::Retry((waiting, err)) => match waiting.next_try(err) {
            Err(err) => {
                let course = Some(Course::settled(callback, Err(err)));
                assert(io_course_fits(first, exit, seq![], all, course));
                course
            },
            Ok((next, delay)) => {
                let rest = continue_io_connect::<T, C, E, F, R>(next, results);
                let ghost later = rest;
                let course = match rest {
                    Some(rest) => Some(rest.after(callback, delay)),
                    None => None,
                };
                assert forall|delays: Seq<Delay>|
                    #[trigger] io_course_fits(false, exit, delays, all.drop_first(), later) implies
                    io_course_fits(first, exit, joined(Some(delay), delays), all, course) by {
                    assert(joined(Some(delay), delays).drop_first() =~= delays);
                }
                assert forall|retries: R| #[trigger]
                    connecting.takes_from(retries) && first_delay(retries.remaining()) == Some(
                        delay,
                    ) && io_course_fits(
                        false,
                        exit,
                        retries.remaining().drop_first(),
                        all.drop_first(),
                        later,
                    ) implies io_course_fits(first, exit, retries.remaining(), all, course) by {
                    assert(joined(Some(delay), retries.remaining().drop_first())
                        =~= retries.remaining());
                }
                course
            },
        },
    }
}

/// Plays through connecting a [`StubbornIo`], on the results of successive attempts. Gives
/// nothing where it takes more attempts than there are results.
pub fn rehearse_io_connect<T, C, E, F, R>(
    ctor_arg: C,
    options: ReconnectOptions<F>,
    results: Vec<Result<T, E>>,
) -> (course: Option<Course<T, E>>) where
    T: UnderlyingIo<C, E>,
    C: Clone + Send,
    F: Fn() -> R,
    R: Iterator<Item = Delay>,

    requires
        call_requires(options.retries_to_attempt_fn, ()),
    ensures
        exists|delays: Seq<Delay>| #[trigger]
            io_course_fits(
                true,
                options.exit_if_first_connect_fails,
                delays,
                results@,
                course,
            ),
        ({
            ||| forall|delays: Seq<Delay>| #[trigger]
                io_course_fits(
                    true,
                    options.exit_if_first_connect_fails,
                    delays,
                    results@,
                    course,
                )
            ||| exists|retries: R| #[trigger]
                call_ensures(options.retries_to_attempt_fn, (), retries) && (
                retries.obeys_prophetic_iter_laws() ==> io_course_fits(
                    true,
                    options.exit_if_first_connect_fails,
                    retries.remaining(),
                    results@,
                    course,
                ))
        }),
{
    let (connecting, _arg) = StubbornIo::<T, C, E, F, R>::connect_with_options(ctor_arg, options);
    continue_io_connect::<T, C, E, F, R>(connecting, results)
}

} // verus!
