//! The kinds of I/O failure that the socket logic tells apart.
use vstd::prelude::*;

verus! {

/// The kind of a failed socket operation, as far as the logic reads it.
#[derive(Clone, Copy, Debug, PartialEq, Eq, Structural)]
pub enum IoErrorKind {
    /// The peer refused the connection (`ECONNREFUSED`).
    ConnectionRefused,
    /// The connection was aborted (`ECONNABORTED`).
    ConnectionAborted,
    /// The peer reset the connection (`ECONNRESET`).
    ConnectionReset,
    /// The socket is not connected (`ENOTCONN`).
    NotConnected,
    /// Any other failure.
    Other,
}

/// A failure that ends only the connection at hand, not the listener.
pub open spec fn is_transient(kind: IoErrorKind) -> bool {
    ||| kind is ConnectionRefused
    ||| kind is ConnectionAborted
    ||| kind is ConnectionReset
}

/// Tells whether a failure of `accept` ends only the incoming connection, so
/// that the listener goes on accepting: refused, aborted or reset.
pub fn is_transient_accept_error(kind: IoErrorKind) -> (transient: bool)
    ensures
        transient == is_transient(kind),
{
    match kind {
        IoErrorKind::ConnectionRefused
        | IoErrorKind::ConnectionAborted
        | IoErrorKind::ConnectionReset => true,
        _ => false,
    }
}

} // verus!
