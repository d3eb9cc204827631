//! Failures of the serial line, and what each of them means for a connection.
//!
//! The layer that opens and reads the port tells what went wrong by a kind.
//! Here each kind is sorted: on opening, into those that no later attempt
//! will mend and those that may pass; on reading, into those after which the
//! port is still there, those that tell that the device is gone, and the rest.

use vstd::prelude::*;

verus! {

/// What went wrong on the serial line.
#[derive(Clone, Copy, Debug, PartialEq, Eq, Structural)]
pub enum TransportError {
    /// The device is not there to be used: another program holds it, or it
    /// was taken away.
    NoDevice,
    /// A setting of the port was refused.
    InvalidInput,
    /// The cause could not be told.
    Unknown,
    /// The system does not let this program use the port.
    PermissionDenied,
    /// There is no port of that name.
    NotFound,
    /// Nothing happened within the time allowed.
    TimedOut,
    /// The call was cut short and may be made again.
    Interrupted,
    /// Nothing is there yet and the call would have had to wait.
    WouldBlock,
    /// The other end of the line has hung up.
    BrokenPipe,
    /// The line is not connected.
    NotConnected,
    /// The line was cut from this side of it.
    ConnectionAborted,
    /// The line was cut from the other side of it.
    ConnectionReset,
    /// The line came to its end where more was due.
    UnexpectedEof,
    /// Another failure of reading or writing.
    Other,
}

/// What a failure to open the port means for the connection.
#[derive(Clone, Copy, Debug, PartialEq, Eq, Structural)]
pub enum OpenFailure {
    /// No later attempt will do better: the port may not be used by this
    /// program, or was asked for with settings that it does not take.
    Refused,
    /// A later attempt may do better: the device may not be plugged in yet,
    /// or be held by another program for now.
    Transient,
}

/// What a failure to read from the port means for the connection.
#[derive(Clone, Copy, Debug, PartialEq, Eq, Structural)]
pub enum ReadFailure {
    /// Nothing was there to read; the port is as it was.
    Idle,
    /// The device is gone from the line.
    Unplugged,
    /// The port is there and cannot be read.
    Fault,
}

/// How a failure to open the port is sorted. Denied permission and refused
/// settings are final; everything else may pass.
pub open spec fn open_failure(error: TransportError) -> OpenFailure {
    match error {
        TransportError::PermissionDenied | TransportError::InvalidInput => OpenFailure::Refused,
        _ => OpenFailure::Transient,
    }
}

/// How a failure to read from the port is sorted. A read that ran out of
/// time, was cut short or found nothing leaves the port as it was; a read
/// that found the device or the line gone tells of an unplugged device; every
/// other failure is a fault.
pub open spec fn read_failure(error: TransportError) -> ReadFailure {
    match error {
        TransportError::TimedOut
        | TransportError::Interrupted
        | TransportError::WouldBlock => ReadFailure::Idle,
        TransportError::NoDevice
        | TransportError::NotFound
        | TransportError::BrokenPipe
        | TransportError::NotConnected
        | TransportError::ConnectionAborted
        | TransportError::ConnectionReset
        | TransportError::UnexpectedEof => ReadFailure::Unplugged,
        TransportError::InvalidInput
        | TransportError::Unknown
        | TransportError::PermissionDenied
        | TransportError::Other => ReadFailure::Fault,
    }
}

/// Sorts a failure to open the port.
pub fn classify_open_failure(error: TransportError) -> (failure: OpenFailure)
    ensures
        failure == open_failure(error),
{
    match error {
        TransportError::PermissionDenied | TransportError::InvalidInput => OpenFailure::Refused,
        _ => OpenFailure::Transient,
    }
}

/// Sorts a failure to read from the port.
pub fn classify_read_failure(error: TransportError) -> (failure: ReadFailure)
    ensures
        failure == read_failure(error),
{
    match error {
        TransportError::TimedOut
        | TransportError::Interrupted
        | TransportError::WouldBlock => ReadFailure::Idle,
        TransportError::NoDevice
        | TransportError::NotFound
        | TransportError::BrokenPipe
        | TransportError::NotConnected
        | TransportError::ConnectionAborted
        | TransportError::ConnectionReset
        | TransportError::UnexpectedEof => ReadFailure::Unplugged,
        TransportError::InvalidInput
        | TransportError::Unknown
        | TransportError::PermissionDenied
        | TransportError::Other => ReadFailure::Fault,
    }
}

} // verus!
