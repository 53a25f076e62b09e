use vstd::prelude::*;

verus! {

/// The failures the capture system reports.
#[derive(Debug, Clone, Copy, PartialEq, Eq, Structural)]
pub enum CaptureError {
    /// A connection was used before a socket was attached to it.
    SocketNotInitialized,
    /// A socket kind that is neither a publisher nor a subscriber.
    UnsupportedSocketType,
    /// The transport reported a failure while receiving.
    ReceiveFailed,
    /// A device was stopped before it was started.
    DeviceNotStarted,
}

} // verus!
