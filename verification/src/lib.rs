//! The decision core of a reconnecting stream.
//!
//! A [`ReconnectStream`] (or, for byte-oriented IO, a [`tokio::StubbornIo`]) owns an
//! underlying connection and answers polls on its behalf. When the underlying
//! connection is lost it schedules reconnect attempts, spaced by the delays of a
//! retry strategy, until one of them succeeds or the strategy has no delay left.
//!
//! Nothing in this crate performs IO, sleeps or awaits. Every operation takes what
//! was observed (the result of polling the connection or the pending attempt) and
//! returns what is to be done next: the value to hand to the caller, the callback to
//! run, the attempt to start. Each decision carries a contract that Verus proves.

pub mod calls;
pub mod config;
pub mod connect;
pub mod delay;
pub mod events;
pub mod history;
pub mod laws;
pub mod rehearsal;
pub mod status;
pub mod strategies;
pub mod stream;
pub mod tokio;

pub use crate::config::ReconnectOptions;
pub use crate::stream::{ReconnectStream, UnderlyingStream};
