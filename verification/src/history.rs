//! What holds of a connection over any sequence of operations on it.

use vstd::prelude::*;

use crate::delay::Delay;
use crate::events::{Effect, Input, Poll, Step};
use crate::status::{
    callback_of, close_target, lose, poll_target, status_after, stream_after, Phase, Status,
};
use crate::stream::UnderlyingStream;
use crate::tokio::UnderlyingIo;

verus! {

/// An operation on a connection: what was observed, and the answer.
pub enum Operation<I, S, E> {
    Read(Input<Option<I>, S, E>, Step<Option<I>, S>),
    /// A write that is not a close.
    Write(Input<Result<(), E>, S, E>, Step<Result<(), E>, S>),
    Close(Input<Result<(), E>, S, E>, Step<Result<(), E>, S>),
    /// The underlying stream is used in place, which leaves it like this.
    Use(S),
}

/// A connection, with what whoever performs the effects holds besides it.
pub struct Held<S, R> {
    pub status: Status<R>,
    pub stream: S,
    /// Whether there is an attempt to reconnect that has not finished.
    pub attempt: bool,
}

impl<P, S, E> Input<P, S, E> {
    /// Whether the attempt to reconnect was polled and has finished.
    pub open spec fn finishes(self) -> bool {
        self matches Input::Attempt(Poll::Ready(_))
    }
}

impl<I, S, E> Operation<I, S, E> {
    /// What is to be done besides answering.
    pub open spec fn effect(self) -> Effect<S> {
        match self {
            Operation::Read(_, step) => step.effect,
            Operation::Write(_, step) => step.effect,
            Operation::Close(_, step) => step.effect,
            Operation::Use(_) => Effect::Nothing,
        }
    }

    /// Whether the attempt to reconnect was polled.
    pub open spec fn polls_attempt(self) -> bool {
        match self {
            Operation::Read(input, _) => input is Attempt,
            Operation::Write(input, _) => input is Attempt,
            Operation::Close(input, _) => input is Attempt,
            Operation::Use(_) => false,
        }
    }

    /// Whether the attempt to reconnect was polled and has finished.
    pub open spec fn finishes_attempt(self) -> bool {
        match self {
            Operation::Read(input, _) => input.finishes(),
            Operation::Write(input, _) => input.finishes(),
            Operation::Close(input, _) => input.finishes(),
            Operation::Use(_) => false,
        }
    }

    /// The state after the operation, before its effect is performed.
    pub open spec fn status_after<R>(self, status: Status<R>) -> Status<R> {
        match self {
            Operation::Read(input, _) => status_after(status, input),
            Operation::Write(input, _) => status_after(status, input),
            Operation::Close(_, _) => status,
            Operation::Use(_) => status,
        }
    }

    /// The underlying stream after the operation.
    pub open spec fn stream_after(self, stream: S) -> S {
        match self {
            Operation::Read(input, _) => stream_after(stream, input),
            Operation::Write(input, _) => stream_after(stream, input),
            Operation::Close(_, _) => stream,
            Operation::Use(used) => used,
        }
    }
}

/// Whether `operation` is one of a [`crate::stream::ReconnectStream`] in this state.
pub open spec fn stream_operates<T, C, I, E, R>(
    status: Status<R>,
    stream: T::Stream,
    operation: Operation<I, T::Stream, E>,
) -> bool where T: UnderlyingStream<C, I, E>, C: Clone + Send {
    match operation {
        Operation::Read(input, step) => {
            &&& input.target() == poll_target(status)
            &&& crate::stream::read_answer::<T, C, I, E>(stream, input, step)
        },
        Operation::Write(input, step) => {
            &&& input.target() == poll_target(status)
            &&& crate::stream::write_answer::<T, C, I, E>(stream, input, step)
        },
        Operation::Close(input, step) => {
            &&& input.target() == close_target(status)
            &&& crate::stream::close_answer::<T, C, I, E, R>(status, input, step)
        },
        Operation::Use(_) => true,
    }
}

/// Whether `operation` is one of a [`crate::tokio::StubbornIo`] in this state.
pub open spec fn io_operates<T, C, I, E, R>(
    status: Status<R>,
    io: T,
    operation: Operation<I, T, E>,
) -> bool where T: UnderlyingIo<C, E>, C: Clone + Send {
    match operation {
        Operation::Read(input, step) => {
            &&& input.target() == poll_target(status)
            &&& crate::tokio::io::read_answer(io, input, step)
        },
        Operation::Write(input, step) => {
            &&& input.target() == poll_target(status)
            &&& crate::tokio::io::write_answer::<T, C, E>(io, input, step)
        },
        Operation::Close(input, step) => {
            &&& input.target() == close_target(status)
            &&& crate::tokio::io::close_answer::<T, C, E, R>(status, input, step)
        },
        Operation::Use(_) => true,
    }
}

/// Whether the effect of `operation` can be performed after it.
///
/// A disconnect: the state is still the one before the operation, and the disconnect can be
/// recorded in it, as long as another attempt can be counted. A restored connection: there
/// was an outage, which is over, and the stream that was lost is handed out. Nothing: the
/// state is still the one before the operation, and no attempt has finished.
pub open spec fn can_be_performed<I, S, E, R>(
    status: Status<R>,
    stream: S,
    operation: Operation<I, S, E>,
) -> bool {
    &&& operation.polls_attempt() ==> status is Disconnected
    &&& match operation.effect() {
        Effect::Nothing => {
            &&& operation.status_after(status) == status
            &&& !operation.finishes_attempt()
        },
        Effect::Disconnect(callback) => {
            &&& callback == callback_of(status.phase())
            &&& operation.status_after(status) == status
            &&& status.can_disconnect() || status.phase() == Phase::Disconnected(
                usize::MAX as nat,
            )
        },
        Effect::Reconnect { superseded } => {
            &&& status is Disconnected
            &&& superseded == stream
            &&& operation.status_after(status) is Connected
        },
    }
}

/// From any state, the effect of an operation of a [`crate::stream::ReconnectStream`] can be
/// performed.
pub proof fn stream_effect_can_be_performed<T, C, I, E, R>(
    status: Status<R>,
    stream: T::Stream,
    operation: Operation<I, T::Stream, E>,
) where T: UnderlyingStream<C, I, E>, C: Clone + Send
    requires
        stream_operates::<T, C, I, E, R>(status, stream, operation),
    ensures
        can_be_performed(status, stream, operation),
{
}

/// From any state, the effect of an operation of a [`crate::tokio::StubbornIo`] can be
/// performed.
pub proof fn io_effect_can_be_performed<T, C, I, E, R>(
    status: Status<R>,
    io: T,
    operation: Operation<I, T, E>,
) where T: UnderlyingIo<C, E>, C: Clone + Send
    requires
        io_operates::<T, C, I, E, R>(status, io, operation),
    ensures
        can_be_performed(status, io, operation),
{
}

/// Whether `next` is what is held after `operation` once its effect has been performed: a
/// disconnect is recorded, and leaves a fresh attempt if it plans one; an attempt that has
/// finished is held no more.
pub open spec fn performed<I, S, E, R>(
    held: Held<S, R>,
    operation: Operation<I, S, E>,
    next: Held<S, R>,
) -> bool {
    let status = operation.status_after(held.status);
    &&& next.stream == operation.stream_after(held.stream)
    &&& match operation.effect() {
        Effect::Disconnect(_) => exists|delay: Option<Delay>|
            {
                &&& next.status.phase() == #[trigger] lose(status.phase(), delay)
                &&& next.attempt == delay is Some
            },
        _ => {
            &&& next.status == status
            &&& next.attempt == (held.attempt && !operation.finishes_attempt())
        },
    }
}

/// Whether a connection went through the states `held`, one after the other, by performing
/// `operations` from the time that it was made.
pub open spec fn passes_through<I, S, E, R>(
    held: Seq<Held<S, R>>,
    operations: Seq<Operation<I, S, E>>,
) -> bool {
    &&& held.len() == operations.len() + 1
    &&& held[0].status is Connected
    &&& !held[0].attempt
    &&& forall|i: int|
        0 <= i < operations.len() ==> performed(
            held[i],
            #[trigger] operations[i],
            held[i + 1],
        )
}

impl<S, R> Held<S, R> {
    /// Whether there is an unfinished attempt to reconnect just in an outage, and at least
    /// one attempt, but no more than `most`, has then been counted.
    pub open spec fn is_sound(self, most: nat) -> bool {
        &&& self.attempt <==> self.status is Disconnected
        &&& self.status.phase() matches Phase::Disconnected(attempts) ==> 1 <= attempts <= most
    }
}

/// Whether an operation goes well after `count` others: an attempt to reconnect that it polls
/// is there and has not finished, and a disconnect that it ends in can be recorded, as long
/// as `count` attempts and one more can be counted.
pub open spec fn goes_well<I, S, E, R>(
    held: Held<S, R>,
    operation: Operation<I, S, E>,
    count: nat,
) -> bool {
    &&& operation.polls_attempt() ==> held.attempt
    &&& operation.effect() is Disconnect && count < usize::MAX ==> operation.status_after(
        held.status,
    ).can_disconnect()
    &&& operation.effect() is Reconnect ==> held.status is Disconnected
}

/// If every effect can be performed, what is held is always sound.
proof fn stays_sound<I, S, E, R>(
    held: Seq<Held<S, R>>,
    operations: Seq<Operation<I, S, E>>,
    count: nat,
)
    requires
        passes_through(held, operations),
        forall|i: int|
            0 <= i < operations.len() ==> can_be_performed(
                held[i].status,
                held[i].stream,
                #[trigger] operations[i],
            ),
        count <= operations.len(),
    ensures
        held[count as int].is_sound(count),
    decreases count,
{
    if count > 0 {
        stays_sound(held, operations, (count - 1) as nat);
        let operation = operations[count - 1];
        assert(performed(held[count - 1], operation, held[count as int]));
    }
}

/// Over any sequence of operations on a [`crate::stream::ReconnectStream`]: an attempt to
/// reconnect is polled only if there is one and it has not finished; it is one that has been
/// counted; and every disconnect can be recorded, as long as there are fewer operations than
/// attempts can be counted.
pub proof fn stream_is_sound_throughout<T, C, I, E, R>(
    held: Seq<Held<T::Stream, R>>,
    operations: Seq<Operation<I, T::Stream, E>>,
    count: nat,
) where T: UnderlyingStream<C, I, E>, C: Clone + Send
    requires
        passes_through(held, operations),
        forall|i: int|
            0 <= i < operations.len() ==> stream_operates::<T, C, I, E, R>(
                held[i].status,
                held[i].stream,
                #[trigger] operations[i],
            ),
        count <= operations.len(),
    ensures
        held[count as int].is_sound(count),
        count < operations.len() ==> goes_well(
            held[count as int],
            operations[count as int],
            count,
        ),
{
    assert forall|i: int| 0 <= i < operations.len() implies can_be_performed(
        held[i].status,
        held[i].stream,
        #[trigger] operations[i],
    ) by {
        stream_effect_can_be_performed::<T, C, I, E, R>(
            held[i].status,
            held[i].stream,
            operations[i],
        );
    }
    stays_sound(held, operations, count);
}

/// The same of a [`crate::tokio::StubbornIo`].
pub proof fn io_is_sound_throughout<T, C, I, E, R>(
    held: Seq<Held<T, R>>,
    operations: Seq<Operation<I, T, E>>,
    count: nat,
) where T: UnderlyingIo<C, E>, C: Clone + Send
    requires
        passes_through(held, operations),
        forall|i: int|
            0 <= i < operations.len() ==> io_operates::<T, C, I, E, R>(
                held[i].status,
                held[i].stream,
                #[trigger] operations[i],
            ),
        count <= operations.len(),
    ensures
        held[count as int].is_sound(count),
        count < operations.len() ==> goes_well(
            held[count as int],
            operations[count as int],
            count,
        ),
{
    assert forall|i: int| 0 <= i < operations.len() implies can_be_performed(
        held[i].status,
        held[i].stream,
        #[trigger] operations[i],
    ) by {
        io_effect_can_be_performed::<T, C, I, E, R>(held[i].status, held[i].stream, operations[i]);
    }
    stays_sound(held, operations, count);
}

} // verus!
