//! Any sequence of operations, played through.

use vstd::prelude::*;

use crate::delay::Delay;
use crate::events::{Effect, Input, Poll, Step, Target};
use crate::history::{
    io_effect_can_be_performed, io_is_sound_throughout, io_operates, passes_through, performed,
    stream_effect_can_be_performed, stream_is_sound_throughout, stream_operates, Held, Operation,
};
use crate::status::{close_target, poll_target, Status};
use crate::stream::{ReconnectStream, UnderlyingStream};
use crate::tokio::io::{StubbornIo, UnderlyingIo};

verus! {

/// An operation that is to be played through: what polling the underlying stream would give,
/// and what polling the attempt to reconnect would give. What is taken of it is what the
/// operation asks for.
pub enum Observation<I, S, E> {
    Read { read: Poll<Option<I>>, attempt: Poll<Result<S, E>> },
    Ready { ready: Poll<Result<(), E>>, attempt: Poll<Result<S, E>> },
    Flush { flushed: Poll<Result<(), E>>, attempt: Poll<Result<S, E>> },
    Close { closed: Poll<Result<(), E>> },
}

/// The answer to an operation.
#[derive(Debug, PartialEq, Eq)]
pub enum Answer<I, S, E> {
    Read(Step<Option<I>, S>),
    Ready(Step<Result<(), E>, S>),
    Flush(Step<Result<(), E>, S>),
    Close(Step<Result<(), E>, S>),
}

/// What is taken of what polling would give, where `target` has to be polled.
pub open spec fn observed<P, S, E>(
    target: Target,
    polled: Poll<P>,
    attempt: Poll<Result<S, E>>,
) -> Input<P, S, E> {
    match target {
        Target::Stream => Input::Stream(polled),
        Target::Attempt => Input::Attempt(attempt),
        Target::Nothing => Input::Nothing,
    }
}

/// Takes what is asked for of what polling would give.
fn observe<P, S, E>(target: Target, polled: Poll<P>, attempt: Poll<Result<S, E>>) -> (input: Input<
    P,
    S,
    E,
>)
    ensures
        input == observed(target, polled, attempt),
{
    match target {
        Target::Stream => Input::Stream(polled),
        Target::Attempt => Input::Attempt(attempt),
        Target::Nothing => Input::Nothing,
    }
}

impl<I, S, E> Observation<I, S, E> {
    /// Whether `operation` is the operation that this makes of a connection with the given
    /// status, and `answer` its answer.
    pub open spec fn becomes<R>(
        self,
        status: Status<R>,
        operation: Operation<I, S, E>,
        answer: Answer<I, S, E>,
    ) -> bool {
        match self {
            Observation::Read { read, attempt } => {
                let input = observed(poll_target(status), read, attempt);
                answer matches Answer::Read(step) && operation == Operation::<I, S, E>::Read(
                    input,
                    step,
                )
            },
            Observation::Ready { ready, attempt } => {
                let input = observed(poll_target(status), ready, attempt);
                answer matches Answer::Ready(step) && operation == Operation::<I, S, E>::Write(
                    input,
                    step,
                )
            },
            Observation::Flush { flushed, attempt } => {
                let input = observed(poll_target(status), flushed, attempt);
                answer matches Answer::Flush(step) && operation == Operation::<I, S, E>::Write(
                    input,
                    step,
                )
            },
            Observation::Close { closed } => {
                let input = observed(close_target(status), closed, Poll::Pending);
                answer matches Answer::Close(step) && operation == Operation::<I, S, E>::Close(
                    input,
                    step,
                )
            },
        }
    }
}

impl<S, R> Held<S, R> {
    /// A connection for which an attempt to reconnect is held just in an outage.
    pub open spec fn with_attempt(status: Status<R>, stream: S) -> Self {
        Held { status, stream, attempt: status is Disconnected }
    }
}

/// Plays through one operation on a [`ReconnectStream`], and performs its effect.
fn operate_stream<T, C, I, E, F, R>(
    stream: &mut ReconnectStream<T, C, I, E, F, R>,
    observation: Observation<I, T::Stream, E>,
) -> (answer: Answer<I, T::Stream, E>) where
    T: UnderlyingStream<C, I, E>,
    C: Clone + Send,
    F: Fn() -> R,
    R: Iterator<Item = Delay>,

    requires
        call_requires(old(stream).options.retries_to_attempt_fn, ()),
        old(stream).status.can_disconnect() || old(stream).status is FailedAndExhausted,
    ensures
        *final(stream) == (ReconnectStream::<T, C, I, E, F, R> {
            status: final(stream).status,
            stream: final(stream).stream,
            ..*old(stream)
        }),
        exists|operation: Operation<I, T::Stream, E>| #[trigger]
            observation.becomes(old(stream).status, operation, answer) && stream_operates::<
                T,
                C,
                I,
                E,
                R,
            >(old(stream).status, old(stream).stream, operation) && performed(
                Held::with_attempt(old(stream).status, old(stream).stream),
                operation,
                Held::with_attempt(final(stream).status, final(stream).stream),
            ),
{
    let ghost before = *stream;
    match observation {
        Observation::Read { read, attempt } => {
            let input = observe(stream.target(), read, attempt);
            let step = stream.poll_next(input);
            let ghost operation = Operation::<I, T::Stream, E>::Read(input, step);
            proof {
                stream_effect_can_be_performed::<T, C, I, E, R>(
                    before.status,
                    before.stream,
                    operation,
                );
            }
            if let Effect::Disconnect(_) = &step.effect {
                stream.on_disconnect();
            }
            assert(observation.becomes(before.status, operation, Answer::Read(step)));
            Answer::Read(step)
        },
        Observation::Ready { ready, attempt } => {
            let input = observe(stream.target(), ready, attempt);
            let step = stream.poll_ready(input);
            let ghost operation = Operation::<I, T::Stream, E>::Write(input, step);
            proof {
                stream_effect_can_be_performed::<T, C, I, E, R>(
                    before.status,
                    before.stream,
                    operation,
                );
            }
            if let Effect::Disconnect(_) = &step.effect {
                stream.on_disconnect();
            }
            assert(observation.becomes(before.status, operation, Answer::Ready(step)));
            Answer::Ready(step)
        },
        Observation::Flush { flushed, attempt } => {
            let input = observe(stream.target(), flushed, attempt);
            let step = stream.poll_flush(input);
            let ghost operation = Operation::<I, T::Stream, E>::Write(input, step);
            proof {
                stream_effect_can_be_performed::<T, C, I, E, R>(
                    before.status,
                    before.stream,
                    operation,
                );
            }
            if let Effect::Disconnect(_) = &step.effect {
                stream.on_disconnect();
            }
            assert(observation.becomes(before.status, operation, Answer::Flush(step)));
            Answer::Flush(step)
        },
        Observation::Close { closed } => {
            let input = observe(stream.close_target(), closed, Poll::Pending);
            let step = stream.poll_close(input);
            let ghost operation = Operation::<I, T::Stream, E>::Close(input, step);
            proof {
                stream_effect_can_be_performed::<T, C, I, E, R>(
                    before.status,
                    before.stream,
                    operation,
                );
            }
            if let Effect::Disconnect(_) = &step.effect {
                stream.on_disconnect();
            }
            assert(observation.becomes(before.status, operation, Answer::Close(step)));
            Answer::Close(step)
        },
    }
}

/// Plays through operations on a [`ReconnectStream`] that has just connected, one after the
/// other, and performs their effects. Any sequence of them will do.
pub fn rehearse_stream_operations<T, C, I, E, F, R>(
    stream: &mut ReconnectStream<T, C, I, E, F, R>,
    observations: Vec<Observation<I, T::Stream, E>>,
) -> (answers: Vec<Answer<I, T::Stream, E>>) where
    T: UnderlyingStream<C, I, E>,
    C: Clone + Send,
    F: Fn() -> R,
    R: Iterator<Item = Delay>,

    requires
        call_requires(old(stream).options.retries_to_attempt_fn, ()),
        old(stream).status is Connected,
    ensures
        *final(stream) == (ReconnectStream::<T, C, I, E, F, R> {
            status: final(stream).status,
            stream: final(stream).stream,
            ..*old(stream)
        }),
        answers@.len() == observations@.len(),
        exists|held: Seq<Held<T::Stream, R>>, operations: Seq<Operation<I, T::Stream, E>>|
            {
                &&& #[trigger] passes_through(held, operations)
                &&& operations.len() == observations@.len()
                &&& held.first() == Held::with_attempt(old(stream).status, old(stream).stream)
                &&& held.last() == Held::with_attempt(final(stream).status, final(stream).stream)
                &&& forall|i: int|
                    0 <= i < operations.len() ==> {
                        &&& stream_operates::<T, C, I, E, R>(
                            held[i].status,
                            held[i].stream,
                            #[trigger] operations[i],
                        )
                        &&& observations@[i].becomes(held[i].status, operations[i], answers@[i])
                    }
            },
{
    let ghost all = observations@;
    let mut observations = observations;
    let mut answers: Vec<Answer<I, T::Stream, E>> = Vec::new();
    let ghost mut held = seq![Held::with_attempt(stream.status, stream.stream)];
    let ghost mut operations = Seq::<Operation<I, T::Stream, E>>::empty();
    assert(all.skip(0) =~= all);
    assert(observations.len() <= usize::MAX);
    while observations.len() > 0
        invariant
            *stream == (ReconnectStream::<T, C, I, E, F, R> {
                status: stream.status,
                stream: stream.stream,
                ..*old(stream)
            }),
            call_requires(old(stream).options.retries_to_attempt_fn, ()),
            answers@.len() == operations.len() <= all.len() <= usize::MAX,
            observations@ == all.skip(operations.len() as int),
            passes_through(held, operations),
            held.first() == Held::with_attempt(old(stream).status, old(stream).stream),
            held.last() == Held::with_attempt(stream.status, stream.stream),
            forall|i: int|
                0 <= i < operations.len() ==> {
                    &&& stream_operates::<T, C, I, E, R>(
                        held[i].status,
                        held[i].stream,
                        #[trigger] operations[i],
                    )
                    &&& all[i].becomes(held[i].status, operations[i], answers@[i])
                },
        decreases observations@.len(),
    {
        let ghost before = *stream;
        let ghost given = answers@;
        proof {
            stream_is_sound_throughout::<T, C, I, E, R>(held, operations, operations.len());
        }
        let observation = observations.remove(0);
        assert(observation == all[operations.len() as int]);
        assert(observations@ =~= all.skip(operations.len() as int + 1));
        let answer = operate_stream(stream, observation);
        answers.push(answer);
        proof {
            let operation = choose|operation: Operation<I, T::Stream, E>| #[trigger]
                observation.becomes(before.status, operation, answer) && stream_operates::<
                    T,
                    C,
                    I,
                    E,
                    R,
                >(before.status, before.stream, operation) && performed(
                    Held::with_attempt(before.status, before.stream),
                    operation,
                    Held::with_attempt(stream.status, stream.stream),
                );
            let next = Held::with_attempt(stream.status, stream.stream);
            assert forall|i: int| 0 <= i < operations.len() + 1 implies performed(
                held.push(next)[i],
                #[trigger] operations.push(operation)[i],
                held.push(next)[i + 1],
            ) by {
                if i < operations.len() {
                    assert(operations.push(operation)[i] == operations[i]);
                }
            }
            assert forall|i: int| 0 <= i < operations.len() + 1 implies {
                &&& stream_operates::<T, C, I, E, R>(
                    held.push(next)[i].status,
                    held.push(next)[i].stream,
                    #[trigger] operations.push(operation)[i],
                )
                &&& all[i].becomes(
                    held.push(next)[i].status,
                    operations.push(operation)[i],
                    answers@[i],
                )
            } by {
                if i < operations.len() {
                    assert(operations.push(operation)[i] == operations[i]);
                    assert(answers@[i] == given[i]);
                }
            }
            held = held.push(next);
            operations = operations.push(operation);
        }
    }
    answers
}

/// Plays through one operation on a [`StubbornIo`], and performs its effect.
fn operate_io<T, C, I, E, F, R>(
    io: &mut StubbornIo<T, C, E, F, R>,
    observation: Observation<I, T, E>,
) -> (answer: Answer<I, T, E>) where
    T: UnderlyingIo<C, E>,
    C: Clone + Send,
    F: Fn() -> R,
    R: Iterator<Item = Delay>,

    requires
        call_requires(old(io).options.retries_to_attempt_fn, ()),
        old(io).status.can_disconnect() || old(io).status is FailedAndExhausted,
    ensures
        *final(io) == (StubbornIo::<T, C, E, F, R> {
            status: final(io).status,
            underlying_io: final(io).underlying_io,
            ..*old(io)
        }),
        exists|operation: Operation<I, T, E>| #[trigger]
            observation.becomes(old(io).status, operation, answer) && io_operates::<
                T,
                C,
                I,
                E,
                R,
            >(old(io).status, old(io).underlying_io, operation) && performed(
                Held::with_attempt(old(io).status, old(io).underlying_io),
                operation,
                Held::with_attempt(final(io).status, final(io).underlying_io),
            ),
{
    let ghost before = *io;
    match observation {
        Observation::Read { read, attempt } => {
            let input = observe(io.target(), read, attempt);
            let step = io.poll_next(input);
            let ghost operation = Operation::<I, T, E>::Read(input, step);
            proof {
                io_effect_can_be_performed::<T, C, I, E, R>(
                    before.status,
                    before.underlying_io,
                    operation,
                );
            }
            if let Effect::Disconnect(_) = &step.effect {
                io.on_disconnect();
            }
            assert(observation.becomes(before.status, operation, Answer::Read(step)));
            Answer::Read(step)
        },
        Observation::Ready { ready, attempt } => {
            let input = observe(io.target(), ready, attempt);
            let step = io.poll_ready(input);
            let ghost operation = Operation::<I, T, E>::Write(input, step);
            proof {
                io_effect_can_be_performed::<T, C, I, E, R>(
                    before.status,
                    before.underlying_io,
                    operation,
                );
            }
            if let Effect::Disconnect(_) = &step.effect {
                io.on_disconnect();
            }
            assert(observation.becomes(before.status, operation, Answer::Ready(step)));
            Answer::Ready(step)
        },
        Observation::Flush { flushed, attempt } => {
            let input = observe(io.target(), flushed, attempt);
            let step = io.poll_flush(input);
            let ghost operation = Operation::<I, T, E>::Write(input, step);
            proof {
                io_effect_can_be_performed::<T, C, I, E, R>(
                    before.status,
                    before.underlying_io,
                    operation,
                );
            }
            if let Effect::Disconnect(_) = &step.effect {
                io.on_disconnect();
            }
            assert(observation.becomes(before.status, operation, Answer::Flush(step)));
            Answer::Flush(step)
        },
        Observation::Close { closed } => {
            let input = observe(io.close_target(), closed, Poll::Pending);
            let step = io.poll_close(input);
            let ghost operation = Operation::<I, T, E>::Close(input, step);
            proof {
                io_effect_can_be_performed::<T, C, I, E, R>(
                    before.status,
                    before.underlying_io,
                    operation,
                );
            }
            if let Effect::Disconnect(_) = &step.effect {
                io.on_disconnect();
            }
            assert(observation.becomes(before.status, operation, Answer::Close(step)));
            Answer::Close(step)
        },
    }
}

/// Plays through operations on a [`StubbornIo`] that has just connected, one after the
/// other, and performs their effects. Any sequence of them will do.
pub fn rehearse_io_operations<T, C, I, E, F, R>(
    io: &mut StubbornIo<T, C, E, F, R>,
    observations: Vec<Observation<I, T, E>>,
) -> (answers: Vec<Answer<I, T, E>>) where
    T: UnderlyingIo<C, E>,
    C: Clone + Send,
    F: Fn() -> R,
    R: Iterator<Item = Delay>,

    requires
        call_requires(old(io).options.retries_to_attempt_fn, ()),
        old(io).status is Connected,
    ensures
        *final(io) == (StubbornIo::<T, C, E, F, R> {
            status: final(io).status,
            underlying_io: final(io).underlying_io,
            ..*old(io)
        }),
        answers@.len() == observations@.len(),
        exists|held: Seq<Held<T, R>>, operations: Seq<Operation<I, T, E>>|
            {
                &&& #[trigger] passes_through(held, operations)
                &&& operations.len() == observations@.len()
                &&& held.first() == Held::with_attempt(old(io).status, old(io).underlying_io)
                &&& held.last() == Held::with_attempt(final(io).status, final(io).underlying_io)
                &&& forall|i: int|
                    0 <= i < operations.len() ==> {
                        &&& io_operates::<T, C, I, E, R>(
                            held[i].status,
                            held[i].stream,
                            #[trigger] operations[i],
                        )
                        &&& observations@[i].becomes(held[i].status, operations[i], answers@[i])
                    }
            },
{
    let ghost all = observations@;
    let mut observations = observations;
    let mut answers: Vec<Answer<I, T, E>> = Vec::new();
    let ghost mut held = seq![Held::with_attempt(io.status, io.underlying_io)];
    let ghost mut operations = Seq::<Operation<I, T, E>>::empty();
    assert(all.skip(0) =~= all);
    assert(observations.len() <= usize::MAX);
    while observations.len() > 0
        invariant
            *io == (StubbornIo::<T, C, E, F, R> {
                status: io.status,
                underlying_io: io.underlying_io,
                ..*old(io)
            }),
            call_requires(old(io).options.retries_to_attempt_fn, ()),
            answers@.len() == operations.len() <= all.len() <= usize::MAX,
            observations@ == all.skip(operations.len() as int),
            passes_through(held, operations),
            held.first() == Held::with_attempt(old(io).status, old(io).underlying_io),
            held.last() == Held::with_attempt(io.status, io.underlying_io),
            forall|i: int|
                0 <= i < operations.len() ==> {
                    &&& io_operates::<T, C, I, E, R>(
                        held[i].status,
                        held[i].stream,
                        #[trigger] operations[i],
                    )
                    &&& all[i].becomes(held[i].status, operations[i], answers@[i])
                },
        decreases observations@.len(),
    {
        let ghost before = *io;
        let ghost given = answers@;
        proof {
            io_is_sound_throughout::<T, C, I, E, R>(held, operations, operations.len());
        }
        let observation = observations.remove(0);
        assert(observation == all[operations.len() as int]);
        assert(observations@ =~= all.skip(operations.len() as int + 1));
        let answer = operate_io(io, observation);
        answers.push(answer);
        proof {
            let operation = choose|operation: Operation<I, T, E>| #[trigger]
                observation.becomes(before.status, operation, answer) && io_operates::<
                    T,
                    C,
                    I,
                    E,
                    R,
                >(before.status, before.underlying_io, operation) && performed(
                    Held::with_attempt(before.status, before.underlying_io),
                    operation,
                    Held::with_attempt(io.status, io.underlying_io),
                );
            let next = Held::with_attempt(io.status, io.underlying_io);
            assert forall|i: int| 0 <= i < operations.len() + 1 implies performed(
                held.push(next)[i],
                #[trigger] operations.push(operation)[i],
                held.push(next)[i + 1],
            ) by {
                if i < operations.len() {
                    assert(operations.push(operation)[i] == operations[i]);
                }
            }
            assert forall|i: int| 0 <= i < operations.len() + 1 implies {
                &&& io_operates::<T, C, I, E, R>(
                    held.push(next)[i].status,
                    held.push(next)[i].stream,
                    #[trigger] operations.push(operation)[i],
                )
                &&& all[i].becomes(
                    held.push(next)[i].status,
                    operations.push(operation)[i],
                    answers@[i],
                )
            } by {
                if i < operations.len() {
                    assert(operations.push(operation)[i] == operations[i]);
                    assert(answers@[i] == given[i]);
                }
            }
            held = held.push(next);
            operations = operations.push(operation);
        }
    }
    answers
}

} // verus!
