//! Outages, played through by reads.

use vstd::prelude::*;
use vstd::std_specs::iter::IteratorSpec;

use crate::delay::Delay;
use crate::events::{Callback, Effect, Input, Plan, Poll};
use crate::laws::{later_delays, reads_through, Reading};
use crate::rehearsal::connect::joined;
use crate::status::{first_delay, Phase, Status};
use crate::stream::{ReconnectStream, UnderlyingStream};
use crate::tokio::io::{StubbornIo, UnderlyingIo};

verus! {

/// What was done in an outage.
pub struct Outage<I> {
    /// The delays before the attempts to reconnect, in order.
    pub waits: Vec<Delay>,
    /// The callbacks that were run, in order.
    pub callbacks: Vec<Callback>,
    /// The answers that the reads got, in order.
    pub answers: Vec<Poll<Option<I>>>,
}

impl<I> Outage<I> {
    /// This outage as a course of reading, which led to the given phase and stream.
    pub open spec fn leading_to<S>(self, phase: Phase, stream: S) -> Reading<I, S> {
        Reading {
            waits: self.waits@,
            callbacks: self.callbacks@,
            answers: self.answers@,
            phase,
            stream,
        }
    }

    /// An outage in which nothing has happened.
    fn quiet() -> (outage: Self)
        ensures
            outage.waits@ == Seq::<Delay>::empty(),
            outage.callbacks@ == Seq::<Callback>::empty(),
            outage.answers@ == Seq::<Poll<Option<I>>>::empty(),
    {
        Outage { waits: Vec::new(), callbacks: Vec::new(), answers: Vec::new() }
    }

    /// This outage, after a read with the given answer that was reported by `callback` and
    /// led to another attempt after `delay`, if it was and did.
    fn after(
        self,
        answer: Poll<Option<I>>,
        callback: Option<Callback>,
        delay: Option<Delay>,
    ) -> (outage: Self)
        ensures
            outage.waits@ == match delay {
                Some(delay) => seq![delay] + self.waits@,
                None => self.waits@,
            },
            outage.callbacks@ == match callback {
                Some(callback) => seq![callback] + self.callbacks@,
                None => self.callbacks@,
            },
            outage.answers@ == seq![answer] + self.answers@,
    {
        let mut outage = self;
        outage.answers.insert(0, answer);
        assert(outage.answers@ =~= seq![answer] + self.answers@);
        if let Some(delay) = delay {
            outage.waits.insert(0, delay);
            assert(outage.waits@ =~= seq![delay] + self.waits@);
        }
        if let Some(callback) = callback {
            outage.callbacks.insert(0, callback);
            assert(outage.callbacks@ =~= seq![callback] + self.callbacks@);
        }
        outage
    }
}

/// Plays through an outage of a [`ReconnectStream`] by reads, where `attempts` is what polling
/// the attempts to reconnect gives, one poll after the other. The outage begins here, by the
/// end of the underlying stream, unless it has begun already. It goes on until the connection
/// is restored, until a read tells that it has been given up, or until no poll is left.
pub fn rehearse_stream_outage<T, C, I, E, F, R>(
    stream: &mut ReconnectStream<T, C, I, E, F, R>,
    attempts: Vec<Poll<Result<T::Stream, E>>>,
) -> (outage: Outage<I>) where
    T: UnderlyingStream<C, I, E>,
    C: Clone + Send,
    F: Fn() -> R,
    R: Iterator<Item = Delay>,

    requires
        old(stream).status is Connected ==> call_requires(
            old(stream).options.retries_to_attempt_fn,
            (),
        ),
        match old(stream).status.phase() {
            Phase::Connected => attempts@.len() < usize::MAX,
            Phase::Disconnected(counted) => counted + attempts@.len() <= usize::MAX,
            Phase::FailedAndExhausted => true,
        },
    ensures
        *final(stream) == (ReconnectStream::<T, C, I, E, F, R> {
            status: final(stream).status,
            stream: final(stream).stream,
            ..*old(stream)
        }),
        outage.leading_to(final(stream).status.phase(), final(stream).stream)
            == reads_through::<I, T::Stream, E>(
            old(stream).status.phase(),
            old(stream).stream,
            outage.waits@,
            attempts@,
        ),
        !(old(stream).status is FailedAndExhausted) ==> exists|retries: R| #[trigger]
            old(stream).status.takes_from(old(stream).options, retries) && (
            retries.obeys_prophetic_iter_laws() ==> outage.leading_to(
                final(stream).status.phase(),
                final(stream).stream,
            ) == reads_through::<I, T::Stream, E>(
                old(stream).status.phase(),
                old(stream).stream,
                retries.remaining(),
                attempts@,
            )),
    decreases
            attempts@.len(),
            if old(stream).status is Connected {
                1int
            } else {
                0int
            },
{
    let ghost before = *stream;
    let ghost from = stream.status.phase();
    let ghost all = attempts@;
    let mut attempts = attempts;
    let input = match &stream.status {
        Status::Connected => Input::Stream(Poll::Ready(None)),
        Status::Disconnected(_) => {
            assert(stream.status.takes_from(stream.options, stream.status.retries()));
            if attempts.len() == 0 {
                return Outage::quiet();
            }
            let attempt = attempts.remove(0);
            assert(attempts@ =~= all.drop_first());
            Input::Attempt(attempt)
        },
        Status::FailedAndExhausted => Input::Nothing,
    };
    let step = stream.poll_next(input);
    let callback = step.effect.callback();
    match step.effect {
        Effect::Disconnect(_) => {
            let delay = match stream.on_disconnect() {
                Plan::Attempt { delay, .. } => Some(delay),
                Plan::GiveUp => None,
            };
            let ghost next = stream.status.phase();
            let rest = rehearse_stream_outage(stream, attempts);
            let ghost told = rest.leading_to(stream.status.phase(), stream.stream);
            proof {
                assert(later_delays(joined(delay, rest.waits@)) =~= rest.waits@);
                if next is FailedAndExhausted {
                    assert(forall|delays: Seq<Delay>| #[trigger]
                        reads_through::<I, T::Stream, E>(
                            next,
                            before.stream,
                            delays,
                            attempts@,
                        ) == told);
                }
                assert(forall|retries: R| #[trigger]
                    before.status.takes_from(before.options, retries) && first_delay(
                        retries.remaining(),
                    ) == delay && told == reads_through::<I, T::Stream, E>(
                        next,
                        before.stream,
                        later_delays(retries.remaining()),
                        attempts@,
                    ) ==> told.after(Poll::Pending, callback, delay) == reads_through::<
                    I,
                    T::Stream,
                    E,
                >(from, before.stream, retries.remaining(), all));
            }
            rest.after(step.poll, callback, delay)
        },
        Effect::Reconnect { .. } => Outage::quiet().after(step.poll, callback, None),
        Effect::Nothing => {
            if let Status::FailedAndExhausted = &stream.status {
                return Outage::quiet().after(step.poll, callback, None);
            }
            let rest = rehearse_stream_outage(stream, attempts);
            rest.after(step.poll, callback, None)
        },
    }
}

/// Plays through an outage of a [`StubbornIo`] by reads, where `attempts` is what polling
/// the attempts to reconnect gives, one poll after the other. The outage begins here, by the
/// end of the underlying IO, unless it has begun already. It goes on until the connection
/// is restored, until a read tells that it has been given up, or until no poll is left.
pub fn rehearse_io_outage<T, C, I, E, F, R>(
    io: &mut StubbornIo<T, C, E, F, R>,
    attempts: Vec<Poll<Result<T, E>>>,
) -> (outage: Outage<I>) where
    T: UnderlyingIo<C, E>,
    C: Clone + Send,
    F: Fn() -> R,
    R: Iterator<Item = Delay>,

    requires
        old(io).status is Connected ==> call_requires(
            old(io).options.retries_to_attempt_fn,
            (),
        ),
        match old(io).status.phase() {
            Phase::Connected => attempts@.len() < usize::MAX,
            Phase::Disconnected(counted) => counted + attempts@.len() <= usize::MAX,
            Phase::FailedAndExhausted => true,
        },
    ensures
        *final(io) == (StubbornIo::<T, C, E, F, R> {
            status: final(io).status,
            underlying_io: final(io).underlying_io,
            ..*old(io)
        }),
        outage.leading_to(final(io).status.phase(), final(io).underlying_io)
            == reads_through::<I, T, E>(
            old(io).status.phase(),
            old(io).underlying_io,
            outage.waits@,
            attempts@,
        ),
        !(old(io).status is FailedAndExhausted) ==> exists|retries: R| #[trigger]
            old(io).status.takes_from(old(io).options, retries) && (
            retries.obeys_prophetic_iter_laws() ==> outage.leading_to(
                final(io).status.phase(),
                final(io).underlying_io,
            ) == reads_through::<I, T, E>(
                old(io).status.phase(),
                old(io).underlying_io,
                retries.remaining(),
                attempts@,
            )),
    decreases
            attempts@.len(),
            if old(io).status is Connected {
                1int
            } else {
                0int
            },
{
    let ghost before = *io;
    let ghost from = io.status.phase();
    let ghost all = attempts@;
    let mut attempts = attempts;
    let input = match &io.status {
        Status::Connected => Input::Stream(Poll::Ready(None)),
        Status::Disconnected(_) => {
            assert(io.status.takes_from(io.options, io.status.retries()));
            if attempts.len() == 0 {
                return Outage::quiet();
            }
            let attempt = attempts.remove(0);
            assert(attempts@ =~= all.drop_first());
            Input::Attempt(attempt)
        },
        Status::FailedAndExhausted => Input::Nothing,
    };
    let step = io.poll_next(input);
    let callback = step.effect.callback();
    match step.effect {
        Effect::Disconnect(_) => {
            let delay = match io.on_disconnect() {
                Plan::Attempt { delay, .. } => Some(delay),
                Plan::GiveUp => None,
            };
            let ghost next = io.status.phase();
            let rest = rehearse_io_outage(io, attempts);
            let ghost told = rest.leading_to(io.status.phase(), io.underlying_io);
            proof {
                assert(later_delays(joined(delay, rest.waits@)) =~= rest.waits@);
                if next is FailedAndExhausted {
                    assert(forall|delays: Seq<Delay>| #[trigger]
                        reads_through::<I, T, E>(
                            next,
                            before.underlying_io,
                            delays,
                            attempts@,
                        ) == told);
                }
                assert(forall|retries: R| #[trigger]
                    before.status.takes_from(before.options, retries) && first_delay(
                        retries.remaining(),
                    ) == delay && told == reads_through::<I, T, E>(
                        next,
                        before.underlying_io,
                        later_delays(retries.remaining()),
                        attempts@,
                    ) ==> told.after(Poll::Pending, callback, delay) == reads_through::<
                    I,
                    T,
                    E,
                >(from, before.underlying_io, retries.remaining(), all));
            }
            rest.after(step.poll, callback, delay)
        },
        Effect::Reconnect { .. } => Outage::quiet().after(step.poll, callback, None),
        Effect::Nothing => {
            if let Status::FailedAndExhausted = &io.status {
                return Outage::quiet().after(step.poll, callback, None);
            }
            let rest = rehearse_io_outage(io, attempts);
            rest.after(step.poll, callback, None)
        },
    }
}

} // verus!
