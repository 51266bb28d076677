//! Byte-oriented IO that reconnects: the [`UnderlyingIo`] trait and the [`StubbornIo`]
//! struct, for IO items whose connection is itself the stream and the sink.

pub mod io;

pub use self::io::{StubbornIo, UnderlyingIo};
