//! The errors that a device front end reports.
use vstd::prelude::*;

verus! {

/// What kind of input/output failure an `IoError` is.
#[derive(Clone, Copy, Debug, PartialEq, Eq, Structural)]
pub enum ErrorKind {
    /// A failure that no kind of the operating system's describes.
    Other,
}

/// An input/output failure that the protocol found, not the operating system.
#[derive(Clone, Copy, Debug, PartialEq, Eq)]
pub struct IoError {
    pub kind: ErrorKind,
    pub message: &'static str,
}

/// Why a front end could not do what it was asked.
#[derive(Clone, Copy, Debug, PartialEq, Eq)]
pub enum Error {
    /// The connection to the back end cannot be used.
    SocketConnect(IoError),
}

/// The failure of the connection that `message` describes.
pub open spec fn refusal(message: &'static str) -> Error {
    Error::SocketConnect(IoError { kind: ErrorKind::Other, message })
}

/// A refusal is a failure of the connection of no particular kind, and says what its message says:
/// no two messages give the same refusal.
pub proof fn law_refusal_keeps_its_message(message: &'static str, other: &'static str)
    ensures
        refusal(message) matches Error::SocketConnect(failure) && failure.message == message
            && failure.kind == ErrorKind::Other,
        refusal(message) == refusal(other) ==> message == other,
{
}

/// An input/output failure of no particular kind that is described by `message`.
pub fn str_as_error(message: &'static str) -> (error: IoError)
    ensures
        error == (IoError { kind: ErrorKind::Other, message }),
{
    IoError { kind: ErrorKind::Other, message }
}

/// The failure of the connection that `message` describes.
pub fn refused(message: &'static str) -> (error: Error)
    ensures
        error == refusal(message),
{
    Error::SocketConnect(str_as_error(message))
}

} // verus!
