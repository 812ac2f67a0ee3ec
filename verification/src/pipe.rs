//! The exchange over the named pipe by which the older capture library
//! learns the handle of the shared texture: it sends its process id and
//! receives the handle value, both little-endian.

use vstd::prelude::*;
use vstd::bytes::{spec_u32_to_le_bytes, spec_u64_from_le_bytes, u32_to_le_bytes, u64_from_le_bytes};

verus! {

/// What the capture library does after one attempt to connect to the pipe.
#[derive(Clone, Copy, PartialEq, Eq, Structural, Debug)]
pub enum ConnectOutcome {
    /// The pipe does not exist yet.
    NotFound,
    /// Another error.
    OtherError,
    /// Connected.
    Connected,
}

/// What follows an attempt to connect.
#[derive(Clone, Copy, PartialEq, Eq, Structural, Debug)]
pub enum ConnectDecision {
    /// Try again at once.
    Retry,
    /// Report the error, then try again.
    ReportAndRetry,
    /// Use the connection.
    Proceed,
}

/// The library keeps trying until it is connected; only errors other than a
/// missing pipe are reported.
pub fn connect_decision(outcome: ConnectOutcome) -> (r: ConnectDecision)
    ensures
        r == (match outcome {
            ConnectOutcome::NotFound => ConnectDecision::Retry,
            ConnectOutcome::OtherError => ConnectDecision::ReportAndRetry,
            ConnectOutcome::Connected => ConnectDecision::Proceed,
        }),
{
    match outcome {
        ConnectOutcome::NotFound => ConnectDecision::Retry,
        ConnectOutcome::OtherError => ConnectDecision::ReportAndRetry,
        ConnectOutcome::Connected => ConnectDecision::Proceed,
    }
}

/// The message that announces the library's process: its id, little-endian.
pub fn pid_message(pid: u32) -> (r: Vec<u8>)
    ensures
        r@ == spec_u32_to_le_bytes(pid),
        r@.len() == 4,
{
    u32_to_le_bytes(pid)
}

/// The shared handle's value, read from the eight-byte little-endian reply.
pub fn shared_handle_from_reply(reply: &[u8]) -> (r: u64)
    requires
        reply@.len() == 8,
    ensures
        r == spec_u64_from_le_bytes(reply@),
{
    u64_from_le_bytes(reply)
}

} // verus!
