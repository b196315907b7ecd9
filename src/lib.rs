//! Runs a command while echoing and capturing its output streams.
//!
//! The verified core is a pair of state machines: [`tap_stream::TapStream`]
//! forwards one byte stream through a half-duplex buffer, and
//! [`runner::Capture`] coordinates two such pumps with the wait for the
//! child's exit status. Performing the actual reads, writes and waits is left
//! to the caller, which feeds each outcome back as an event.

pub mod notify;
pub mod quote;
pub mod report;
pub mod runner;
pub mod tap_stream;
