//! Connecting and outages, played through on results that are given beforehand.
//!
//! A rehearsal makes the decisions of a connection one after the other, as if every delay had
//! been waited for and every attempt had had the result that was given for it. It shows what
//! a choice of options leads to.

pub mod connect;
pub mod operations;
pub mod outage;

pub use self::connect::{
    continue_io_connect, continue_stream_connect, rehearse_io_connect, rehearse_stream_connect,
    Course,
};
pub use self::operations::{
    rehearse_io_operations, rehearse_stream_operations, Answer, Observation,
};
pub use self::outage::{rehearse_io_outage, rehearse_stream_outage, Outage};
