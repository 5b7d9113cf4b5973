//! Which addresses a TCP socket can be created for, bound to and connected to.
use vstd::prelude::*;

verus! {

/// What the socket logic reads of an address: the kind of endpoint it names.
#[derive(Clone, Copy, Debug, PartialEq, Eq, Structural)]
pub enum AddrKind {
    /// An IPv4 socket address.
    Ipv4,
    /// An IPv6 socket address.
    Ipv6,
    /// A Unix domain socket address.
    Unix,
    /// A host name with a port, not resolved yet.
    Host,
}

/// The IP family of a TCP socket to be created.
#[derive(Clone, Copy, Debug, PartialEq, Eq, Structural)]
pub enum IpFamily {
    V4,
    V6,
}

/// Why an address cannot be used by a TCP socket.
#[derive(Clone, Copy, Debug, PartialEq, Eq, Structural)]
pub enum AddrError {
    /// The address is of a kind that TCP sockets do not support.
    Unsupported,
    /// The address is a host name, which must be resolved first.
    UnresolvedHost,
}

/// An IPv4 or IPv6 socket address.
pub open spec fn is_inet(kind: AddrKind) -> bool {
    kind is Ipv4 || kind is Ipv6
}

/// The family of the socket that is created for an address of `kind`.
pub open spec fn spec_socket_family(kind: AddrKind) -> Result<IpFamily, AddrError> {
    match kind {
        AddrKind::Ipv4 => Ok(IpFamily::V4),
        AddrKind::Ipv6 => Ok(IpFamily::V6),
        _ => Err(AddrError::Unsupported),
    }
}

/// Whether a socket may be bound to an address of `kind`, and why not.
pub open spec fn spec_check_bind(kind: AddrKind) -> Result<(), AddrError> {
    match kind {
        AddrKind::Ipv4 | AddrKind::Ipv6 => Ok(()),
        AddrKind::Host => Err(AddrError::UnresolvedHost),
        AddrKind::Unix => Err(AddrError::Unsupported),
    }
}

/// Whether a socket may connect to an address of `kind`.
pub open spec fn spec_check_connect(kind: AddrKind) -> Result<(), AddrError> {
    if is_inet(kind) {
        Ok(())
    } else {
        Err(AddrError::Unsupported)
    }
}

/// Chooses the family of the TCP socket to create for an address: IPv4 for an
/// IPv4 address, IPv6 for an IPv6 one, and no socket for any other address.
pub fn socket_family(kind: AddrKind) -> (family: Result<IpFamily, AddrError>)
    ensures
        family == spec_socket_family(kind),
{
    match kind {
        AddrKind::Ipv4 => Ok(IpFamily::V4),
        AddrKind::Ipv6 => Ok(IpFamily::V6),
        _ => Err(AddrError::Unsupported),
    }
}

/// Checks that a socket may be bound to an address: an IPv4 or IPv6 address
/// is accepted; a host name must be resolved first; any other address is not
/// supported.
pub fn check_bind(kind: AddrKind) -> (res: Result<(), AddrError>)
    ensures
        res == spec_check_bind(kind),
{
    match kind {
        AddrKind::Ipv4 | AddrKind::Ipv6 => Ok(()),
        AddrKind::Host => Err(AddrError::UnresolvedHost),
        AddrKind::Unix => Err(AddrError::Unsupported),
    }
}

/// Checks that a socket may connect to an address: only an IPv4 or IPv6
/// address is accepted.
pub fn check_connect(kind: AddrKind) -> (res: Result<(), AddrError>)
    ensures
        res == spec_check_connect(kind),
{
    match kind {
        AddrKind::Ipv4 | AddrKind::Ipv6 => Ok(()),
        _ => Err(AddrError::Unsupported),
    }
}

impl AddrError {
    /// The text that the error is reported with.
    pub fn message(&self) -> (text: &'static str)
        ensures
            *self is Unsupported ==> text@ == "unsupported address type"@,
            *self is UnresolvedHost ==> text@
                == "The Host address type must be resolved before creating a socket"@,
    {
        match self {
            AddrError::Unsupported => "unsupported address type",
            AddrError::UnresolvedHost => "The Host address type must be resolved before creating a socket",
        }
    }
}

/// A socket can be created for an address exactly when it can be bound to
/// that address and exactly when it can connect to it; these are the IPv4 and
/// IPv6 addresses, and the socket's family is the address's family.
pub proof fn lemma_supported_addresses_agree(kind: AddrKind)
    ensures
        spec_socket_family(kind) is Ok <==> is_inet(kind),
        spec_check_bind(kind) is Ok <==> is_inet(kind),
        spec_check_connect(kind) is Ok <==> is_inet(kind),
        kind is Ipv4 ==> spec_socket_family(kind) == Ok::<IpFamily, AddrError>(IpFamily::V4),
        kind is Ipv6 ==> spec_socket_family(kind) == Ok::<IpFamily, AddrError>(IpFamily::V6),
{
}

/// Binding refuses an address for the same reason as creating a socket for it,
/// except a host name, which is refused as unresolved.
pub proof fn lemma_bind_refusal_reason(kind: AddrKind)
    ensures
        kind is Host ==> spec_check_bind(kind) == Err::<(), AddrError>(AddrError::UnresolvedHost),
        !(kind is Host) ==> (spec_check_bind(kind) is Err <==> spec_socket_family(kind) is Err),
        kind is Unix ==> spec_check_bind(kind) == Err::<(), AddrError>(AddrError::Unsupported),
        spec_socket_family(kind) is Err ==> spec_socket_family(kind) == Err::<IpFamily, AddrError>(AddrError::Unsupported),
        spec_check_connect(kind) is Err ==> spec_check_connect(kind) == Err::<(), AddrError>(AddrError::Unsupported),
{
}

} // verus!
