//! Reconnecting IO, driven by hand.

use std::future::{ready, Ready};

use stream_reconnect::connect::ConnectStep;
use stream_reconnect::delay::Delay;
use stream_reconnect::events::{Callback, Effect, Input, Plan, Poll, Step, Target};
use stream_reconnect::status::Status;
use stream_reconnect::tokio::io::IoConnecting;
use stream_reconnect::tokio::{StubbornIo, UnderlyingIo};
use stream_reconnect::ReconnectOptions;

type Retries = std::vec::IntoIter<Delay>;
type Generator = Box<dyn Fn() -> Retries>;

/// A socket that takes the errors from `fatal` on for disconnects.
#[derive(Debug, PartialEq, Eq)]
struct Socket {
    id: u32,
    fatal: i32,
}

impl UnderlyingIo<u16, i32> for Socket {
    type Connecting = Ready<Result<Socket, i32>>;

    fn establish(ctor_arg: u16) -> Self::Connecting {
        ready(Ok(socket(ctor_arg.into())))
    }

    fn is_disconnect_error(&self, err: &i32) -> bool {
        *err >= self.fatal
    }

    fn exhaust_err() -> i32 {
        -1
    }
}

fn socket(id: u32) -> Socket {
    Socket { id, fatal: 100 }
}

type Io = StubbornIo<Socket, u16, i32, Generator, Retries>;
type ReadInput = Input<Option<u8>, Socket, i32>;
type WriteInput = Input<Result<(), i32>, Socket, i32>;

fn secs(secs: u64) -> Delay {
    Delay::from_secs(secs)
}

fn options(delays: &[u64], exit_if_first_connect_fails: bool) -> ReconnectOptions<Generator> {
    let delays: Vec<Delay> = delays.iter().map(|s| secs(*s)).collect();
    ReconnectOptions {
        retries_to_attempt_fn: Box::new(move || delays.clone().into_iter()),
        exit_if_first_connect_fails,
    }
}

fn connected(delays: &[u64]) -> Io {
    let (connecting, arg) = Io::connect_with_options(9, options(delays, false));
    assert_eq!(arg, 9);
    match Io::on_established(connecting, Ok(socket(1))) {
        ConnectStep::Connected(io) => io,
        _ => panic!("not connected"),
    }
}

fn attempt(attempt_num: usize, delay: u64) -> Plan<u16> {
    Plan::Attempt { attempt_num, delay: secs(delay), ctor_arg: 9 }
}

fn lost<P>() -> Step<P, Socket> {
    Step { poll: Poll::Pending, effect: Effect::Disconnect(Callback::OnDisconnect) }
}

fn failed_again<P>() -> Step<P, Socket> {
    Step { poll: Poll::Pending, effect: Effect::Disconnect(Callback::OnConnectFail) }
}

fn settled<P>(poll: Poll<P>) -> Step<P, Socket> {
    Step { poll, effect: Effect::Nothing }
}

/// Connects with the given results and returns the callbacks, the waits and the outcome.
fn connect(
    delays: &[u64],
    exit: bool,
    results: &[Result<u32, i32>],
) -> (Vec<Callback>, Vec<Delay>, Result<u32, i32>) {
    let mut callbacks = Vec::new();
    let mut waits = Vec::new();
    let begun = Io::connect_with_options(9, options(delays, exit));
    let mut connecting: IoConnecting<u16, Generator, Retries> = begun.0;
    for result in results {
        let step = Io::on_established(connecting, result.map(socket));
        callbacks.push(step.callback());
        match step {
            ConnectStep::Connected(io) => return (callbacks, waits, Ok(io.underlying_io.id)),
            ConnectStep::Failed(err) => return (callbacks, waits, Err(err)),
            ConnectStep::Retry((failing, err)) => match failing.next_try(err) {
                Ok((waiting, delay)) => {
                    waits.push(delay);
                    assert_eq!(waiting.establish_arg(), 9);
                    connecting = waiting;
                }
                Err(err) => return (callbacks, waits, Err(err)),
            },
        }
    }
    panic!("more attempts than results")
}

#[test]
fn io_first_success_connects() {
    let (callbacks, waits, outcome) = connect(&[1, 2, 5], false, &[Err(4), Err(5), Ok(3), Ok(6)]);
    assert_eq!(
        callbacks,
        [Callback::OnConnectFail, Callback::OnConnectFail, Callback::OnConnect]
    );
    assert_eq!(waits, [secs(1), secs(2)]);
    assert_eq!(outcome, Ok(3));
}

#[test]
fn io_last_error_is_reported() {
    let (callbacks, waits, outcome) = connect(&[1, 2], false, &[Err(4), Err(5), Err(6), Ok(1)]);
    assert_eq!(callbacks, [Callback::OnConnectFail; 3]);
    assert_eq!(waits, [secs(1), secs(2)]);
    assert_eq!(outcome, Err(6));
}

#[test]
fn io_no_delay_means_one_attempt() {
    let (_, waits, outcome) = connect(&[], false, &[Err(4), Ok(1)]);
    assert!(waits.is_empty());
    assert_eq!(outcome, Err(4));
}

#[test]
fn io_first_failure_settles_it_if_told_so() {
    let (callbacks, waits, outcome) = connect(&[1, 2], true, &[Err(4), Ok(1)]);
    assert_eq!(callbacks, [Callback::OnConnectFail]);
    assert!(waits.is_empty());
    assert_eq!(outcome, Err(4));
}

#[test]
fn io_makes_delays_only_after_a_failure() {
    let options = ReconnectOptions {
        retries_to_attempt_fn: || -> Retries { panic!("no delay is needed") },
        exit_if_first_connect_fails: true,
    };
    let (connecting, _) = StubbornIo::<Socket, u16, i32, _, _>::connect_with_options(9, options);
    assert!(connecting.retries.is_none());
    let step = StubbornIo::<Socket, u16, i32, _, _>::on_established(connecting, Err(3));
    assert!(matches!(step, ConnectStep::Failed(3)));
}

#[test]
fn io_items_pass_and_the_end_is_a_disconnect() {
    let mut io = connected(&[1]);
    assert_eq!(io.target(), Target::Stream);
    let step = io.poll_next(ReadInput::Stream(Poll::Ready(Some(7))));
    assert_eq!(step, settled(Poll::Ready(Some(7))));
    let step = io.poll_next(ReadInput::Stream(Poll::Pending));
    assert_eq!(step, settled(Poll::Pending));
    assert_eq!(io.poll_next(ReadInput::Stream(Poll::Ready(None))), lost());
}

#[test]
fn io_decides_which_errors_are_disconnects() {
    let mut io = connected(&[1]);
    let step = io.poll_ready(WriteInput::Stream(Poll::Ready(Err(99))));
    assert_eq!(step, settled(Poll::Ready(Err(99))));
    assert_eq!(io.poll_ready(WriteInput::Stream(Poll::Ready(Err(100)))), lost());
    io.deref_mut().fatal = 50;
    assert_eq!(io.deref().fatal, 50);
    assert_eq!(io.poll_flush(WriteInput::Stream(Poll::Ready(Err(99)))), lost());
    let step = io.poll_flush(WriteInput::Stream(Poll::Ready(Ok(()))));
    assert_eq!(step, settled(Poll::Ready(Ok(()))));
    assert!(io.is_write_disconnect_detected::<()>(&Poll::Ready(Err(50))));
    assert!(!io.is_write_disconnect_detected::<()>(&Poll::Ready(Err(49))));
    assert!(!io.is_write_disconnect_detected::<()>(&Poll::Pending));
}

#[test]
fn io_outage_ends_with_a_new_connection_or_none() {
    let mut io = connected(&[3, 1]);
    assert_eq!(io.poll_next(ReadInput::Stream(Poll::Ready(None))), lost());
    assert_eq!(io.on_disconnect(), attempt(1, 3));
    assert_eq!(io.target(), Target::Attempt);
    let step = io.poll_next(ReadInput::Attempt(Poll::Ready(Err(4))));
    assert_eq!(step, failed_again());
    assert_eq!(io.on_disconnect(), attempt(2, 1));
    let step = io.poll_ready(WriteInput::Attempt(Poll::Ready(Ok(socket(2)))));
    assert_eq!(step.poll, Poll::Pending);
    assert_eq!(step.effect, Effect::Reconnect { superseded: socket(1) });
    assert_eq!(io.deref().id, 2);
    assert!(matches!(io.status, Status::Connected));

    assert_eq!(io.on_disconnect(), attempt(1, 3));
    assert_eq!(io.on_disconnect(), attempt(2, 1));
    let step = io.poll_flush(WriteInput::Attempt(Poll::Pending));
    assert_eq!(step, settled(Poll::Pending));
    assert_eq!(io.on_disconnect(), Plan::GiveUp);
    assert_eq!(io.target(), Target::Nothing);
    assert_eq!(io.poll_next(ReadInput::Nothing), settled(Poll::Ready(None)));
    assert_eq!(io.poll_ready(WriteInput::Nothing), settled(Poll::Ready(Err(-1))));
    assert_eq!(io.poll_flush(WriteInput::Nothing), settled(Poll::Ready(Err(-1))));
    assert_eq!(io.poll_close(WriteInput::Nothing), settled(Poll::Ready(Err(-1))));
}

#[test]
fn io_close_ends_the_connection() {
    let mut io = connected(&[1]);
    assert_eq!(io.close_target(), Target::Stream);
    let step = io.poll_close(WriteInput::Stream(Poll::Pending));
    assert_eq!(step, settled(Poll::Pending));
    let step = io.poll_close(WriteInput::Stream(Poll::Ready(Err(4))));
    assert_eq!(step.poll, Poll::Ready(Err(4)));
    assert_eq!(step.effect, Effect::Disconnect(Callback::OnDisconnect));
    io.on_disconnect();
    assert_eq!(io.close_target(), Target::Nothing);
    assert_eq!(io.poll_close(WriteInput::Nothing), settled(Poll::Pending));
}

#[test]
fn io_resumes_with_what_it_is_given() {
    let (connecting, _) = Io::connect_with_options(9, options(&[], false));
    let left = vec![secs(6)].into_iter();
    match connecting.resume(Some(secs(5)), left, "err") {
        Ok((resumed, delay)) => {
            assert_eq!(delay, secs(5));
            let left: Vec<Delay> = resumed.retries.into_iter().flatten().collect();
            assert_eq!(left, [secs(6)]);
        }
        Err(_) => panic!("there was a delay left"),
    }
    let (connecting, _) = Io::connect_with_options(9, options(&[], false));
    let resumed = connecting.resume(None, Vec::new().into_iter(), "err");
    assert!(matches!(resumed, Err("err")));
}
