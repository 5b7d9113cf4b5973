//! Address, accept and shutdown decisions of a unified socket API over TCP.
//!
//! The sockets themselves live in the application layer, which performs the
//! system calls; this library decides, for each operation, what is to be done
//! with the address it is given and with the outcome the system reports.
pub mod accept;
pub mod addr;
pub mod connect;
pub mod io_error;
pub mod stream;

pub use accept::{
    accept_action, poll_accept_action, AcceptAction, AcceptOutcome, PollAcceptAction,
    PollAcceptOutcome,
};
pub use addr::{check_bind, check_connect, socket_family, AddrError, AddrKind, IpFamily};
pub use connect::{check_connect_from, ConnState, ConnectError};
pub use io_error::{is_transient_accept_error, IoErrorKind};
pub use stream::{shutdown_result, zero_fill};
