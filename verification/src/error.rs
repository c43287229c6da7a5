//! The failures that this crate reports.

use vstd::prelude::*;

verus! {

/// What went wrong. An error number of the operating system is carried where
/// one was at hand when the failure was seen.
#[derive(Clone, Copy, Debug, PartialEq, Eq, Structural)]
pub enum Error {
    /// No event is queued. This is a signal, not a fault: the stream waits.
    WouldBlock,
    /// A descriptor flag could not be read or set while a socket was wrapped.
    Setup(Option<i32>),
    /// The receive primitive failed for another reason than an empty queue.
    Receive(Option<i32>),
    /// The channel has ended: the receive primitive gave nothing and named
    /// no error.
    Closed,
    /// The socket is registered with a readiness facility already.
    AlreadyRegistered,
    /// The readiness facility refused the socket or failed.
    Registration(Option<i32>),
    /// A name holds a NUL byte and cannot be handed to the native library.
    InvalidName,
    /// The native library refused a match rule.
    Filter,
    /// The native library refused to start receiving.
    Enable,
    /// The native library has no value for a property of a device.
    Absent,
    /// A property of a device is not valid UTF-8.
    Encoding,
}

/// Calls `std::io::Error::raw_os_error`, which gives the error number that an
/// error was made from, if any. Nothing is claimed of the value.
#[verifier::external_body]
pub(crate) fn raw_os_error(e: &std::io::Error) -> Option<i32> {
    e.raw_os_error()
}

impl Error {
    /// Whether the error ends a stream once it has been met. Only
    /// `WouldBlock` does not: it is absorbed by waiting.
    pub open spec fn is_fatal(self) -> bool {
        self != Error::WouldBlock
    }

    /// The failure of a flag query or update, made from the error that the
    /// operating system reported for it.
    pub fn setup(e: &std::io::Error) -> (r: Error)
        ensures
            r is Setup,
    {
        Error::Setup(raw_os_error(e))
    }
}

} // verus!
