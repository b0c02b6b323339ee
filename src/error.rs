use vstd::prelude::*;

verus! {

/// What can go wrong on a stream.
#[derive(Clone, Copy, Debug, PartialEq, Eq)]
pub enum TlsError {
    /// No result yet: one asynchronous step must run before the call is retried.
    NotReady,
    /// The completion I/O failed, with the operating system's error code.
    Transport(i32),
    /// The session refused what it received.
    InvalidData,
    /// The peer closed the connection before the handshake or a read completed.
    UnexpectedEof,
    /// The peer closed the session by an alert while it was still negotiating.
    HandshakeAlert,
    /// The session neither wants to read nor to write, yet is still negotiating.
    HandshakeStalled,
    /// Any other failure reported by the session.
    Other,
}

} // verus!
