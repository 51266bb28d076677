//! A reconnecting stream, driven by hand.

use std::future::{ready, Ready};

use stream_reconnect::connect::ConnectStep;
use stream_reconnect::delay::Delay;
use stream_reconnect::events::{Callback, Effect, Input, Plan, Poll, Step, Target};
use stream_reconnect::status::{ReconnectStatus, Status};
use stream_reconnect::stream::{StreamConnecting, UnderlyingStream};
use stream_reconnect::{ReconnectOptions, ReconnectStream};

#[derive(Debug, PartialEq, Eq)]
enum Fault {
    Refused,
    Lost,
    Exhausted,
}

type Item = Result<u8, Fault>;
type Retries = std::vec::IntoIter<Delay>;
type Generator = Box<dyn Fn() -> Retries>;

/// A connection to an address, told apart by a number.
struct Line;

impl UnderlyingStream<String, Item, Fault> for Line {
    type Stream = u32;
    type Connecting = Ready<Result<u32, Fault>>;

    fn establish(ctor_arg: String) -> Self::Connecting {
        ready(ctor_arg.parse().map_err(|_| Fault::Refused))
    }

    fn is_write_disconnect_error(err: &Fault) -> bool {
        *err == Fault::Lost
    }

    fn is_read_disconnect_error(item: &Item) -> bool {
        matches!(item, Err(Fault::Lost))
    }

    fn exhaust_err() -> Fault {
        Fault::Exhausted
    }
}

/// A connection whose items never mean a disconnect.
struct PlainLine;

impl UnderlyingStream<String, Item, Fault> for PlainLine {
    type Stream = u32;
    type Connecting = Ready<Result<u32, Fault>>;

    fn establish(ctor_arg: String) -> Self::Connecting {
        Line::establish(ctor_arg)
    }

    fn is_write_disconnect_error(_err: &Fault) -> bool {
        true
    }

    fn exhaust_err() -> Fault {
        Fault::Exhausted
    }
}

type Stream<T> = ReconnectStream<T, String, Item, Fault, Generator, Retries>;
type ReadInput = Input<Option<Item>, u32, Fault>;
type WriteInput = Input<Result<(), Fault>, u32, Fault>;

fn secs(secs: u64) -> Delay {
    Delay::from_secs(secs)
}

fn options(delays: &[u64], exit_if_first_connect_fails: bool) -> ReconnectOptions<Generator> {
    let delays: Vec<Delay> = delays.iter().map(|s| secs(*s)).collect();
    ReconnectOptions {
        retries_to_attempt_fn: Box::new(move || delays.clone().into_iter()),
        exit_if_first_connect_fails,
    }
}

fn connected<T: UnderlyingStream<String, Item, Fault, Stream = u32>>(delays: &[u64]) -> Stream<T> {
    let (connecting, arg) =
        Stream::<T>::connect_with_options("10".to_string(), options(delays, false));
    assert_eq!(arg, "10");
    match Stream::<T>::on_established(connecting, Ok(10)) {
        ConnectStep::Connected(stream) => stream,
        _ => panic!("not connected"),
    }
}

fn attempt(attempt_num: usize, delay: u64) -> Plan<String> {
    Plan::Attempt { attempt_num, delay: secs(delay), ctor_arg: "10".to_string() }
}

fn lost<P>() -> Step<P, u32> {
    Step { poll: Poll::Pending, effect: Effect::Disconnect(Callback::OnDisconnect) }
}

fn failed_again<P>() -> Step<P, u32> {
    Step { poll: Poll::Pending, effect: Effect::Disconnect(Callback::OnConnectFail) }
}

fn settled<P>(poll: Poll<P>) -> Step<P, u32> {
    Step { poll, effect: Effect::Nothing }
}

/// Connects with the given results and returns the callbacks, the waits and the outcome.
fn connect(
    delays: &[u64],
    exit: bool,
    results: &[Result<u32, Fault>],
) -> (Vec<Callback>, Vec<Delay>, Result<u32, Fault>) {
    let copy = |result: &Result<u32, Fault>| match result {
        Ok(stream) => Ok(*stream),
        Err(Fault::Refused) => Err(Fault::Refused),
        Err(Fault::Lost) => Err(Fault::Lost),
        Err(Fault::Exhausted) => Err(Fault::Exhausted),
    };
    let mut callbacks = Vec::new();
    let mut waits = Vec::new();
    let begun = Stream::<Line>::connect_with_options("a".to_string(), options(delays, exit));
    let mut connecting: StreamConnecting<String, Generator, Retries> = begun.0;
    assert_eq!(begun.1, "a");
    for result in results {
        let step = Stream::<Line>::on_established(connecting, copy(result));
        callbacks.push(step.callback());
        match step {
            ConnectStep::Connected(stream) => return (callbacks, waits, Ok(stream.stream)),
            ConnectStep::Failed(err) => return (callbacks, waits, Err(err)),
            ConnectStep::Retry((waiting, delay)) => {
                waits.push(delay);
                let begun = waiting.next_try();
                assert_eq!(begun.1, "a");
                connecting = begun.0;
            }
        }
    }
    panic!("more attempts than results")
}

#[test]
fn first_success_connects() {
    let results = [Err(Fault::Refused), Err(Fault::Lost), Ok(3), Ok(4)];
    let (callbacks, waits, outcome) = connect(&[1, 2, 5], false, &results);
    assert_eq!(
        callbacks,
        [Callback::OnConnectFail, Callback::OnConnectFail, Callback::OnConnect]
    );
    assert_eq!(waits, [secs(1), secs(2)]);
    assert_eq!(outcome, Ok(3));
}

#[test]
fn last_attempt_follows_the_last_delay() {
    let results = [Err(Fault::Refused), Err(Fault::Refused), Ok(3)];
    let (_, waits, outcome) = connect(&[1, 2], false, &results);
    assert_eq!(waits, [secs(1), secs(2)]);
    assert_eq!(outcome, Ok(3));
}

#[test]
fn last_error_is_reported() {
    let results = [Err(Fault::Refused), Err(Fault::Lost), Err(Fault::Exhausted), Ok(1)];
    let (callbacks, waits, outcome) = connect(&[1, 2], false, &results);
    assert_eq!(callbacks, [Callback::OnConnectFail; 3]);
    assert_eq!(waits, [secs(1), secs(2)]);
    assert_eq!(outcome, Err(Fault::Exhausted));
}

#[test]
fn no_delay_means_one_attempt() {
    let (callbacks, waits, outcome) = connect(&[], false, &[Err(Fault::Refused), Ok(1)]);
    assert_eq!(callbacks, [Callback::OnConnectFail]);
    assert!(waits.is_empty());
    assert_eq!(outcome, Err(Fault::Refused));
}

#[test]
fn first_failure_settles_it_if_told_so() {
    let (callbacks, waits, outcome) = connect(&[1, 2], true, &[Err(Fault::Lost), Ok(1)]);
    assert_eq!(callbacks, [Callback::OnConnectFail]);
    assert!(waits.is_empty());
    assert_eq!(outcome, Err(Fault::Lost));
    let (callbacks, _, outcome) = connect(&[1, 2], true, &[Ok(1)]);
    assert_eq!(callbacks, [Callback::OnConnect]);
    assert_eq!(outcome, Ok(1));
}

#[test]
fn items_pass_while_connected() {
    let mut stream = connected::<Line>(&[1]);
    assert_eq!(stream.target(), Target::Stream);
    let step = stream.poll_next(ReadInput::Stream(Poll::Ready(Some(Ok(7)))));
    assert_eq!(step, settled(Poll::Ready(Some(Ok(7)))));
    let step = stream.poll_next(ReadInput::Stream(Poll::Ready(Some(Err(Fault::Refused)))));
    assert_eq!(step, settled(Poll::Ready(Some(Err(Fault::Refused)))));
    let step = stream.poll_next(ReadInput::Stream(Poll::Pending));
    assert_eq!(step, settled(Poll::Pending));
    assert!(matches!(stream.status, Status::Connected));
}

#[test]
fn end_of_stream_is_a_disconnect() {
    let mut stream = connected::<Line>(&[1]);
    assert_eq!(stream.poll_next(ReadInput::Stream(Poll::Ready(None))), lost());
    assert_eq!(stream.on_disconnect(), attempt(1, 1));
    assert_eq!(stream.target(), Target::Attempt);
}

#[test]
fn item_may_be_a_disconnect() {
    let mut stream = connected::<Line>(&[1]);
    let step = stream.poll_next(ReadInput::Stream(Poll::Ready(Some(Err(Fault::Lost)))));
    assert_eq!(step, lost());
}

#[test]
fn no_item_is_a_disconnect_by_default() {
    let mut stream = connected::<PlainLine>(&[1]);
    let step = stream.poll_next(ReadInput::Stream(Poll::Ready(Some(Err(Fault::Lost)))));
    assert_eq!(step, settled(Poll::Ready(Some(Err(Fault::Lost)))));
}

#[test]
fn write_errors_are_told_apart() {
    let mut stream = connected::<Line>(&[1]);
    let step = stream.poll_ready(WriteInput::Stream(Poll::Ready(Err(Fault::Refused))));
    assert_eq!(step, settled(Poll::Ready(Err(Fault::Refused))));
    let step = stream.poll_flush(WriteInput::Stream(Poll::Ready(Ok(()))));
    assert_eq!(step, settled(Poll::Ready(Ok(()))));
    let step = stream.poll_flush(WriteInput::Stream(Poll::Pending));
    assert_eq!(step, settled(Poll::Pending));
    assert_eq!(stream.poll_ready(WriteInput::Stream(Poll::Ready(Err(Fault::Lost)))), lost());
    assert_eq!(stream.poll_flush(WriteInput::Stream(Poll::Ready(Err(Fault::Lost)))), lost());
    assert!(!stream.is_write_disconnect_detected(&Poll::Ready(Ok::<u8, Fault>(1))));
    assert!(!stream.is_write_disconnect_detected::<u8>(&Poll::Pending));
    assert!(stream.is_write_disconnect_detected::<u8>(&Poll::Ready(Err(Fault::Lost))));
}

#[test]
fn outage_uses_every_delay_in_order() {
    let mut stream = connected::<Line>(&[3, 1, 4]);
    assert_eq!(stream.poll_next(ReadInput::Stream(Poll::Ready(None))), lost());
    assert_eq!(stream.on_disconnect(), attempt(1, 3));
    let step = stream.poll_next(ReadInput::Attempt(Poll::Pending));
    assert_eq!(step, settled(Poll::Pending));
    let step = stream.poll_next(ReadInput::Attempt(Poll::Ready(Err(Fault::Refused))));
    assert_eq!(step, failed_again());
    assert_eq!(stream.on_disconnect(), attempt(2, 1));
    let step = stream.poll_ready(WriteInput::Attempt(Poll::Ready(Err(Fault::Refused))));
    assert_eq!(step, failed_again());
    assert_eq!(stream.on_disconnect(), attempt(3, 4));
    let step = stream.poll_flush(WriteInput::Attempt(Poll::Ready(Err(Fault::Refused))));
    assert_eq!(step, failed_again());
    assert_eq!(stream.on_disconnect(), Plan::GiveUp);
    assert!(matches!(stream.status, Status::FailedAndExhausted));
    assert_eq!(stream.target(), Target::Nothing);
}

#[test]
fn exhausted_stream_ends_and_stays_so() {
    let mut stream = connected::<Line>(&[]);
    assert_eq!(stream.poll_next(ReadInput::Stream(Poll::Ready(None))), lost());
    assert_eq!(stream.on_disconnect(), Plan::GiveUp);
    for _ in 0..2 {
        assert_eq!(stream.poll_next(ReadInput::Nothing), settled(Poll::Ready(None)));
        let exhausted = || settled(Poll::Ready(Err(Fault::Exhausted)));
        assert_eq!(stream.poll_ready(WriteInput::Nothing), exhausted());
        assert_eq!(stream.poll_flush(WriteInput::Nothing), exhausted());
        assert_eq!(stream.poll_close(WriteInput::Nothing), exhausted());
        assert!(matches!(stream.status, Status::FailedAndExhausted));
    }
}

#[test]
fn restored_connection_starts_over() {
    let mut stream = connected::<Line>(&[1, 2]);
    assert_eq!(*stream.deref(), 10);
    for round in 11..14 {
        assert_eq!(stream.poll_next(ReadInput::Stream(Poll::Ready(None))), lost());
        assert_eq!(stream.on_disconnect(), attempt(1, 1));
        let step = stream.poll_next(ReadInput::Attempt(Poll::Ready(Err(Fault::Refused))));
        assert_eq!(step, failed_again());
        assert_eq!(stream.on_disconnect(), attempt(2, 2));
        let step = stream.poll_next(ReadInput::Attempt(Poll::Ready(Ok(round))));
        assert_eq!(step.poll, Poll::Pending);
        assert_eq!(step.effect, Effect::Reconnect { superseded: round - 1 });
        assert!(matches!(stream.status, Status::Connected));
        assert_eq!(*stream.deref(), round);
        let step = stream.poll_next(ReadInput::Stream(Poll::Ready(Some(Ok(1)))));
        assert_eq!(step, settled(Poll::Ready(Some(Ok(1)))));
    }
}

#[test]
fn close_ends_the_connection_well_or_badly() {
    let stream = connected::<Line>(&[1]);
    assert_eq!(stream.close_target(), Target::Stream);
    let step = stream.poll_close(WriteInput::Stream(Poll::Pending));
    assert_eq!(step, settled(Poll::Pending));
    for result in [Ok(()), Err(Fault::Refused), Err(Fault::Lost)] {
        let kept = format!("{:?}", result);
        let step = stream.poll_close(WriteInput::Stream(Poll::Ready(result)));
        assert_eq!(step.effect, Effect::Disconnect(Callback::OnDisconnect));
        match step.poll {
            Poll::Ready(result) => assert_eq!(format!("{:?}", result), kept),
            Poll::Pending => panic!("the result of the close is gone"),
        }
    }
}

#[test]
fn close_waits_during_an_outage() {
    let mut stream = connected::<Line>(&[1]);
    stream.on_disconnect();
    assert_eq!(stream.close_target(), Target::Nothing);
    assert_eq!(stream.poll_close(WriteInput::Nothing), settled(Poll::Pending));
    assert_eq!(stream.target(), Target::Attempt);
}

#[test]
fn underlying_stream_can_be_used_in_place() {
    let mut stream = connected::<Line>(&[1]);
    *stream.deref_mut() += 5;
    assert_eq!(*stream.deref(), 15);
    assert!(matches!(stream.status, Status::Connected));
}

#[test]
fn outage_begins_with_no_attempt() {
    let status = ReconnectStatus::new(&options(&[8], false));
    assert_eq!(status.attempts_tracker.attempt_num, 0);
    let delays: Vec<Delay> = status.attempts_tracker.retries_remaining.collect();
    assert_eq!(delays, [secs(8)]);
}

#[test]
fn endless_delays_never_give_up() {
    let options = ReconnectOptions {
        retries_to_attempt_fn: || std::iter::repeat(Delay::from_secs(2)),
        exit_if_first_connect_fails: false,
    };
    let mut status = Status::Connected;
    for attempt_num in 1..1000 {
        let plan = status.on_disconnect(&options, &'x');
        assert_eq!(plan, Plan::Attempt { attempt_num, delay: secs(2), ctor_arg: 'x' });
    }
}

#[test]
fn effects_are_reported_by_their_callbacks() {
    assert_eq!(Effect::<u8>::Nothing.callback(), None);
    for callback in [Callback::OnDisconnect, Callback::OnConnectFail] {
        assert_eq!(Effect::<u8>::Disconnect(callback).callback(), Some(callback));
    }
    let effect = Effect::Reconnect { superseded: 1u8 };
    assert_eq!(effect.callback(), Some(Callback::OnConnect));
}
