//! The errors that the protocol layer reports.

use vstd::prelude::*;

verus! {

/// Why the USB stack failed to carry out one control transfer or to open a
/// device.
#[derive(Clone, Copy, Debug, PartialEq, Eq, Structural)]
pub enum UsbFailure {
    /// Input or output error.
    Io,
    /// A parameter was not accepted.
    InvalidParam,
    /// Access denied.
    Access,
    /// The device is gone.
    NoDevice,
    /// Entity not found.
    NotFound,
    /// Resource busy.
    Busy,
    /// The transfer did not finish within the timeout.
    Timeout,
    /// The device sent more than was asked for.
    Overflow,
    /// The device stalled the request.
    Pipe,
    /// A system call was interrupted.
    Interrupted,
    /// Out of memory.
    NoMem,
    /// Not supported on this platform.
    NotSupported,
    /// The device sent a malformed descriptor.
    BadDescriptor,
    /// Anything else.
    Other,
}

/// What can go wrong in a protocol operation.
#[derive(Clone, Copy, Debug, PartialEq, Eq, Structural)]
pub enum ProtocolError {
    /// A single transfer of more than 64 bytes was asked for.
    SizeExceeded,
    /// A text command does not fit its buffer.
    CommandTooLong,
    /// No attached device has a known vendor and product ID.
    DeviceNotFound,
    /// The matching device could not be opened.
    DeviceOpenError(UsbFailure),
    /// A control transfer timed out, stalled or failed.
    TransferError(UsbFailure),
    /// A bootstrap image is no whole number of 64-byte blocks.
    AlignmentError,
}

impl ProtocolError {
    /// The text that describes each error.
    pub open spec fn spec_describe(self) -> Seq<char> {
        match self {
            ProtocolError::SizeExceeded => "Memory transfer size is 64 max"@,
            ProtocolError::CommandTooLong => "Command too long."@,
            ProtocolError::DeviceNotFound => "Cannot find Amlogic USB device"@,
            ProtocolError::DeviceOpenError(_) => "Error opening USB device"@,
            ProtocolError::TransferError(_) => "Control transfer failed"@,
            ProtocolError::AlignmentError => "Image size is no multiple of 64 bytes"@,
        }
    }

    /// A short description of the error for the user.
    pub fn describe(&self) -> (s: &'static str)
        ensures
            s@ == self.spec_describe(),
    {
        match self {
            ProtocolError::SizeExceeded => "Memory transfer size is 64 max",
            ProtocolError::CommandTooLong => "Command too long.",
            ProtocolError::DeviceNotFound => "Cannot find Amlogic USB device",
            ProtocolError::DeviceOpenError(_) => "Error opening USB device",
            ProtocolError::TransferError(_) => "Control transfer failed",
            ProtocolError::AlignmentError => "Image size is no multiple of 64 bytes",
        }
    }

    /// The failure of the USB stack behind this error, if there is one.
    pub fn cause(&self) -> (c: Option<UsbFailure>)
        ensures
            c == match *self {
                ProtocolError::DeviceOpenError(f) => Some(f),
                ProtocolError::TransferError(f) => Some(f),
                _ => None,
            },
    {
        match self {
            ProtocolError::DeviceOpenError(f) => Some(*f),
            ProtocolError::TransferError(f) => Some(*f),
            _ => None,
        }
    }
}

} // verus!
