use uni_socket::{check_connect, check_connect_from, AddrError, AddrKind, ConnState, ConnectError};

const ALL_KINDS: [AddrKind; 4] = [AddrKind::Ipv4, AddrKind::Ipv6, AddrKind::Unix, AddrKind::Host];

#[test]
fn connected_stream_refuses_to_connect_again() {
    assert_eq!(
        check_connect_from(ConnState::Connected, AddrKind::Ipv4),
        Err(ConnectError::AlreadyConnected)
    );
    assert_eq!(
        check_connect_from(ConnState::Connected, AddrKind::Ipv6),
        Err(ConnectError::AlreadyConnected)
    );
}

#[test]
fn connected_stream_refuses_other_addresses_as_unsupported() {
    assert_eq!(
        check_connect_from(ConnState::Connected, AddrKind::Host),
        Err(ConnectError::Addr(AddrError::Unsupported))
    );
    assert_eq!(
        check_connect_from(ConnState::Connected, AddrKind::Unix),
        Err(ConnectError::Addr(AddrError::Unsupported))
    );
    assert_eq!(
        ConnectError::Addr(AddrError::Unsupported).message(),
        "unsupported address type"
    );
}

#[test]
fn connected_stream_never_connects() {
    for kind in ALL_KINDS {
        assert!(check_connect_from(ConnState::Connected, kind).is_err());
    }
}

#[test]
fn unconnected_socket_connects_to_inet_addresses() {
    assert_eq!(check_connect_from(ConnState::Unconnected, AddrKind::Ipv4), Ok(()));
    assert_eq!(check_connect_from(ConnState::Unconnected, AddrKind::Ipv6), Ok(()));
}

#[test]
fn unconnected_socket_refuses_other_addresses() {
    assert_eq!(
        check_connect_from(ConnState::Unconnected, AddrKind::Unix),
        Err(ConnectError::Addr(AddrError::Unsupported))
    );
    assert_eq!(
        check_connect_from(ConnState::Unconnected, AddrKind::Host),
        Err(ConnectError::Addr(AddrError::Unsupported))
    );
}

#[test]
fn unconnected_socket_agrees_with_check_connect() {
    for kind in ALL_KINDS {
        assert_eq!(
            check_connect_from(ConnState::Unconnected, kind).is_ok(),
            check_connect(kind).is_ok()
        );
    }
}

#[test]
fn connect_error_messages() {
    assert_eq!(
        ConnectError::AlreadyConnected.message(),
        "connect has already been called on this socket"
    );
    assert_eq!(
        ConnectError::Addr(AddrError::Unsupported).message(),
        "unsupported address type"
    );
    assert_eq!(
        ConnectError::Addr(AddrError::UnresolvedHost).message(),
        "The Host address type must be resolved before creating a socket"
    );
}
