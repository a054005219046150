//! What the parent makes of its single read from the channel.

use crate::message::{ByteOrder, ExitStatusMessage};
use vstd::prelude::*;

verus! {

/// The parent could not obtain the child's exit status.
#[derive(Clone, Copy, Debug, PartialEq, Eq)]
pub enum RelayError {
    /// The channel closed before a whole message had arrived.
    ChildDiedUnexpectedly,
    /// Opening the channel or reading from it failed.
    IoFailure,
}

/// How the parent's one blocking read ended.
#[derive(Clone, Debug, PartialEq, Eq)]
pub enum ReadOutcome {
    /// The read returned with these octets; the channel gave no more.
    Received(Vec<u8>),
    /// The channel could not be opened or read.
    Failed,
}

/// The exit status that a read yields: the code of the message if a whole
/// message arrived, and otherwise the reason why there is none. No code is
/// ever made up for a message that did not arrive.
pub open spec fn relayed_status(outcome: ReadOutcome, order: ByteOrder) -> Result<i32, RelayError> {
    match outcome {
        ReadOutcome::Received(octets) => match ExitStatusMessage::received(octets@) {
            Some(message) => Ok(message.code(order) as i32),
            None => Err(RelayError::ChildDiedUnexpectedly),
        },
        ReadOutcome::Failed => Err(RelayError::IoFailure),
    }
}

/// Resolves the parent's read into the child's exit status or an error.
pub fn status_from_read(outcome: &ReadOutcome, order: ByteOrder) -> (status: Result<
    i32,
    RelayError,
>)
    ensures
        status == relayed_status(*outcome, order),
{
    match outcome {
        ReadOutcome::Received(octets) => match ExitStatusMessage::from_received(octets.as_slice()) {
            Some(message) => Ok(message.decode(order)),
            None => Err(RelayError::ChildDiedUnexpectedly),
        },
        ReadOutcome::Failed => Err(RelayError::IoFailure),
    }
}

/// A read succeeds exactly when four octets arrived, and then with the code
/// that the sender encoded.
pub proof fn lemma_relay_delivers(code: i32, order: ByteOrder, octets: Vec<u8>)
    requires
        octets@ == ExitStatusMessage::of(code, order).octets@,
    ensures
        relayed_status(ReadOutcome::Received(octets), order) == Ok::<i32, RelayError>(code),
{
    let message = ExitStatusMessage::received(octets@).unwrap();
    assert(message.octets =~= ExitStatusMessage::of(code, order).octets);
}

/// A channel that closed before four octets had arrived never yields a
/// status, whatever the octets and the byte order.
pub proof fn lemma_early_close_fails(octets: Vec<u8>, order: ByteOrder)
    requires
        octets@.len() < 4,
    ensures
        relayed_status(ReadOutcome::Received(octets), order) == Err::<i32, RelayError>(
            RelayError::ChildDiedUnexpectedly,
        ),
{
}

} // verus!
