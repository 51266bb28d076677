//! What each call does, told by what goes in and what comes out alone.
//!
//! The laws here speak of the calls themselves: of every result that a call can have on every
//! input that it takes.

pub mod backoff;
pub mod delay;
pub mod io;
pub mod rehearsal;
pub mod status;
pub mod stream;
