//! Whether a socket or a stream may initiate a connection.
use vstd::prelude::*;

use crate::addr::{check_connect, spec_check_connect, AddrError, AddrKind};

verus! {

/// Whether `connect` has already been called on a socket.
#[derive(Clone, Copy, Debug, PartialEq, Eq, Structural)]
pub enum ConnState {
    /// A socket on which no connection was initiated yet.
    Unconnected,
    /// A connected stream: `connect` has already been called.
    Connected,
}

/// Why a connection cannot be initiated.
#[derive(Clone, Copy, Debug, PartialEq, Eq, Structural)]
pub enum ConnectError {
    /// `connect` has already been called on this socket.
    AlreadyConnected,
    /// The address cannot be connected to.
    Addr(AddrError),
}

/// Whether a connection may be initiated from a socket in `state` to an
/// address of `kind`, and why not: the address is checked first.
pub open spec fn spec_check_connect_from(state: ConnState, kind: AddrKind) -> Result<(), ConnectError> {
    match spec_check_connect(kind) {
        Err(e) => Err(ConnectError::Addr(e)),
        Ok(()) => match state {
            ConnState::Connected => Err(ConnectError::AlreadyConnected),
            ConnState::Unconnected => Ok(()),
        },
    }
}

/// Checks that a connection may be initiated: an address other than an IPv4
/// or IPv6 one is refused as unsupported; to such an address a connection is
/// refused once `connect` has been called, and allowed before.
pub fn check_connect_from(state: ConnState, kind: AddrKind) -> (res: Result<(), ConnectError>)
    ensures
        res == spec_check_connect_from(state, kind),
{
    match check_connect(kind) {
        Err(e) => Err(ConnectError::Addr(e)),
        Ok(()) => match state {
            ConnState::Connected => Err(ConnectError::AlreadyConnected),
            ConnState::Unconnected => Ok(()),
        },
    }
}

impl ConnectError {
    /// The text that the error is reported with.
    pub fn message(&self) -> (text: &'static str)
        ensures
            *self is AlreadyConnected ==> text@ == "connect has already been called on this socket"@,
            (*self matches ConnectError::Addr(AddrError::Unsupported)) ==> text@
                == "unsupported address type"@,
            (*self matches ConnectError::Addr(AddrError::UnresolvedHost)) ==> text@
                == "The Host address type must be resolved before creating a socket"@,
    {
        match self {
            ConnectError::AlreadyConnected => "connect has already been called on this socket",
            ConnectError::Addr(e) => e.message(),
        }
    }
}

/// An address that cannot be connected to is refused as unsupported whatever
/// the socket's state; to an IPv4 or IPv6 address, `connect` succeeds before
/// it has been called and fails as already connected afterwards.
pub proof fn lemma_connect_only_once(state: ConnState, kind: AddrKind)
    ensures
        spec_check_connect(kind) is Err ==> spec_check_connect_from(state, kind)
            == Err::<(), ConnectError>(ConnectError::Addr(AddrError::Unsupported)),
        spec_check_connect(kind) is Ok ==> spec_check_connect_from(ConnState::Connected, kind)
            == Err::<(), ConnectError>(ConnectError::AlreadyConnected),
        spec_check_connect_from(ConnState::Unconnected, kind) is Ok
            <==> spec_check_connect(kind) is Ok,
        !(spec_check_connect_from(ConnState::Connected, kind) is Ok),
{
}

} // verus!
