//! Connecting and outages, played through.

use std::future::{ready, Ready};

use stream_reconnect::connect::ConnectStep;
use stream_reconnect::delay::Delay;
use stream_reconnect::events::{Callback, Effect, Poll, Step};
use stream_reconnect::rehearsal::{
    rehearse_io_connect, rehearse_io_operations, rehearse_io_outage, rehearse_stream_connect,
    rehearse_stream_operations, rehearse_stream_outage, Answer, Course, Observation,
};
use stream_reconnect::status::Status;
use stream_reconnect::tokio::{StubbornIo, UnderlyingIo};
use stream_reconnect::{ReconnectOptions, ReconnectStream, UnderlyingStream};

type Retries = std::vec::IntoIter<Delay>;
type Generator = Box<dyn Fn() -> Retries>;
type Stream = ReconnectStream<Line, u16, u8, i32, Generator, Retries>;
type Io = StubbornIo<Socket, u16, i32, Generator, Retries>;

/// A connection, told apart by a number.
#[derive(Clone, Debug, PartialEq, Eq)]
struct Socket(u32);

/// How a stream gets such connections.
struct Line;

impl UnderlyingStream<u16, u8, i32> for Line {
    type Stream = Socket;
    type Connecting = Ready<Result<Socket, i32>>;

    fn establish(ctor_arg: u16) -> Self::Connecting {
        ready(Ok(Socket(ctor_arg.into())))
    }

    fn is_write_disconnect_error(_err: &i32) -> bool {
        true
    }

    fn exhaust_err() -> i32 {
        -1
    }
}

impl UnderlyingIo<u16, i32> for Socket {
    type Connecting = Ready<Result<Socket, i32>>;

    fn establish(ctor_arg: u16) -> Self::Connecting {
        ready(Ok(Socket(ctor_arg.into())))
    }

    fn is_disconnect_error(&self, _err: &i32) -> bool {
        true
    }

    fn exhaust_err() -> i32 {
        -1
    }
}

fn secs(secs: &[u64]) -> Vec<Delay> {
    secs.iter().map(|s| Delay::from_secs(*s)).collect()
}

fn options(delays: &[u64], exit_if_first_connect_fails: bool) -> ReconnectOptions<Generator> {
    let delays = secs(delays);
    ReconnectOptions {
        retries_to_attempt_fn: Box::new(move || delays.clone().into_iter()),
        exit_if_first_connect_fails,
    }
}

/// Both kinds of connections, connecting on the same results.
fn connects(
    delays: &[u64],
    exit: bool,
    results: &[Result<Socket, i32>],
) -> [Option<Course<Socket, i32>>; 2] {
    [
        rehearse_stream_connect::<Line, u16, u8, i32, _, _>(
            9,
            options(delays, exit),
            results.to_vec(),
        ),
        rehearse_io_connect::<Socket, u16, i32, _, _>(9, options(delays, exit), results.to_vec()),
    ]
}

fn stream(delays: &[u64]) -> Stream {
    let (connecting, _) = Stream::connect_with_options(9, options(delays, false));
    match Stream::on_established(connecting, Ok(Socket(1))) {
        ConnectStep::Connected(stream) => stream,
        _ => panic!("not connected"),
    }
}

fn io(delays: &[u64]) -> Io {
    let (connecting, _) = Io::connect_with_options(9, options(delays, false));
    match Io::on_established(connecting, Ok(Socket(1))) {
        ConnectStep::Connected(io) => io,
        _ => panic!("not connected"),
    }
}

#[test]
fn rehearsal_connects_with_the_first_success() {
    for course in connects(&[1, 2, 5], false, &[Err(4), Err(5), Ok(Socket(3)), Ok(Socket(6))]) {
        let course = course.unwrap();
        assert_eq!(course.waits, secs(&[1, 2]));
        let expected = [Callback::OnConnectFail, Callback::OnConnectFail, Callback::OnConnect];
        assert_eq!(course.callbacks, expected);
        assert_eq!(course.outcome, Ok(Socket(3)));
    }
}

#[test]
fn rehearsal_fails_with_the_last_error() {
    for course in connects(&[1, 2], false, &[Err(4), Err(5), Err(6), Ok(Socket(1))]) {
        let course = course.unwrap();
        assert_eq!(course.waits, secs(&[1, 2]));
        assert_eq!(course.callbacks, [Callback::OnConnectFail; 3]);
        assert_eq!(course.outcome, Err(6));
    }
}

#[test]
fn rehearsal_is_settled_by_the_first_failure_if_told_so() {
    for course in connects(&[1, 2], true, &[Err(4), Ok(Socket(1))]) {
        let course = course.unwrap();
        assert!(course.waits.is_empty());
        assert_eq!(course.callbacks, [Callback::OnConnectFail]);
        assert_eq!(course.outcome, Err(4));
    }
}

#[test]
fn rehearsal_needs_enough_results() {
    for results in [vec![], vec![Err(4)], vec![Err(4), Err(5)]] {
        for course in connects(&[1, 2], false, &results) {
            assert!(course.is_none());
        }
    }
}

fn failing(errors: &[i32]) -> Vec<Poll<Result<Socket, i32>>> {
    errors.iter().map(|err| Poll::Ready(Err(*err))).collect()
}

const PENDING: Poll<Option<u8>> = Poll::Pending;
const ENDED: Poll<Option<u8>> = Poll::Ready(None);

#[test]
fn rehearsed_stream_outage_runs_its_course() {
    let mut stream = stream(&[3, 1]);
    let outage = rehearse_stream_outage(&mut stream, failing(&[4]));
    assert_eq!(outage.waits, secs(&[3, 1]));
    assert_eq!(outage.callbacks, [Callback::OnDisconnect, Callback::OnConnectFail]);
    assert_eq!(outage.answers, [PENDING, PENDING]);
    assert!(matches!(stream.status, Status::Disconnected(_)));

    let outage = rehearse_stream_outage(&mut stream, failing(&[5, 6]));
    assert!(outage.waits.is_empty());
    assert_eq!(outage.callbacks, [Callback::OnConnectFail]);
    assert_eq!(outage.answers, [PENDING, ENDED]);
    assert!(matches!(stream.status, Status::FailedAndExhausted));

    let outage = rehearse_stream_outage(&mut stream, failing(&[7]));
    assert!(outage.waits.is_empty());
    assert!(outage.callbacks.is_empty());
    assert_eq!(outage.answers, [ENDED]);
    assert_eq!(*stream.deref(), Socket(1));
}

#[test]
fn rehearsed_io_outage_runs_its_course() {
    let mut io = io(&[3, 1]);
    let mut attempts = failing(&[4, 5, 6, 7]);
    attempts.insert(1, Poll::Pending);
    attempts.insert(1, Poll::Pending);
    let outage = rehearse_io_outage(&mut io, attempts);
    assert_eq!(outage.waits, secs(&[3, 1]));
    let expected = [Callback::OnDisconnect, Callback::OnConnectFail, Callback::OnConnectFail];
    assert_eq!(outage.callbacks, expected);
    assert_eq!(outage.answers, [PENDING, PENDING, PENDING, PENDING, PENDING, ENDED]);
    assert!(matches!(io.status, Status::FailedAndExhausted));
    assert_eq!(*io.deref(), Socket(1));
}

#[test]
fn rehearsed_outage_without_delays_ends_at_once() {
    let mut stream = stream(&[]);
    let outage = rehearse_stream_outage(&mut stream, vec![]);
    assert!(outage.waits.is_empty());
    assert_eq!(outage.callbacks, [Callback::OnDisconnect]);
    assert_eq!(outage.answers, [PENDING, ENDED]);
}

#[test]
fn rehearsed_outage_ends_with_the_first_success() {
    let mut stream = stream(&[3, 1]);
    let mut io = io(&[3, 1]);
    for round in 2..5 {
        let attempts = || {
            let mut attempts = failing(&[4]);
            attempts.push(Poll::Pending);
            attempts.push(Poll::Ready(Ok(Socket(round))));
            attempts.push(Poll::Ready(Ok(Socket(100))));
            attempts
        };
        for outage in [
            rehearse_stream_outage(&mut stream, attempts()),
            rehearse_io_outage(&mut io, attempts()),
        ] {
            assert_eq!(outage.waits, secs(&[3, 1]));
            let expected = [Callback::OnDisconnect, Callback::OnConnectFail, Callback::OnConnect];
            assert_eq!(outage.callbacks, expected);
            assert_eq!(outage.answers, [PENDING, PENDING, PENDING, PENDING]);
        }
        assert!(matches!(stream.status, Status::Connected));
        assert!(matches!(io.status, Status::Connected));
        assert_eq!((stream.deref(), io.deref()), (&Socket(round), &Socket(round)));
    }
}

/// Operations of every kind through an outage, a restored connection, a close and the end.
fn operations() -> Vec<Observation<u8, Socket, i32>> {
    let refused = || Poll::Ready(Err(4));
    vec![
        Observation::Read { read: Poll::Ready(Some(7)), attempt: refused() },
        Observation::Ready { ready: Poll::Ready(Err(5)), attempt: refused() },
        Observation::Flush { flushed: Poll::Ready(Ok(())), attempt: Poll::Pending },
        Observation::Close { closed: Poll::Ready(Ok(())) },
        Observation::Flush { flushed: Poll::Pending, attempt: Poll::Ready(Ok(Socket(2))) },
        Observation::Close { closed: Poll::Ready(Err(6)) },
        Observation::Read { read: Poll::Pending, attempt: refused() },
        Observation::Ready { ready: Poll::Pending, attempt: Poll::Ready(Ok(Socket(3))) },
        Observation::Close { closed: Poll::Pending },
        Observation::Read { read: Poll::Ready(None), attempt: Poll::Pending },
        Observation::Read { read: Poll::Pending, attempt: refused() },
        Observation::Read { read: Poll::Pending, attempt: refused() },
        Observation::Ready { ready: Poll::Pending, attempt: refused() },
        Observation::Close { closed: Poll::Pending },
        Observation::Read { read: Poll::Pending, attempt: refused() },
    ]
}

fn answers() -> Vec<Answer<u8, Socket, i32>> {
    let lost = || Effect::Disconnect(Callback::OnDisconnect);
    let failed = || Effect::Disconnect(Callback::OnConnectFail);
    let restored = |superseded: u32| Effect::Reconnect { superseded: Socket(superseded) };
    let read = |poll, effect| Answer::Read(Step { poll, effect });
    let ready = |poll, effect| Answer::Ready(Step { poll, effect });
    let flush = |poll, effect| Answer::Flush(Step { poll, effect });
    let close = |poll, effect| Answer::Close(Step { poll, effect });
    vec![
        read(Poll::Ready(Some(7)), Effect::Nothing),
        ready(Poll::Pending, lost()),
        flush(Poll::Pending, Effect::Nothing),
        close(Poll::Pending, Effect::Nothing),
        flush(Poll::Pending, restored(1)),
        close(Poll::Ready(Err(6)), lost()),
        read(Poll::Pending, failed()),
        ready(Poll::Pending, restored(2)),
        close(Poll::Pending, Effect::Nothing),
        read(Poll::Pending, lost()),
        read(Poll::Pending, failed()),
        read(Poll::Pending, failed()),
        ready(Poll::Ready(Err(-1)), Effect::Nothing),
        close(Poll::Ready(Err(-1)), Effect::Nothing),
        read(Poll::Ready(None), Effect::Nothing),
    ]
}

#[test]
fn stream_goes_through_any_operations() {
    let mut stream = stream(&[3, 1]);
    assert_eq!(rehearse_stream_operations(&mut stream, operations()), answers());
    assert!(matches!(stream.status, Status::FailedAndExhausted));
    assert_eq!(*stream.deref(), Socket(3));
}

#[test]
fn io_goes_through_any_operations() {
    let mut io = io(&[3, 1]);
    assert_eq!(rehearse_io_operations(&mut io, operations()), answers());
    assert!(matches!(io.status, Status::FailedAndExhausted));
    assert_eq!(*io.deref(), Socket(3));
}
