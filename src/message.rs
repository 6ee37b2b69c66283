//! The local control-plane messages exchanged between front ends and the
//! daemon: one request, then one response, per exchange.

use vstd::prelude::*;

verus! {

/// A front end's request to the daemon.
#[derive(Debug, PartialEq, Eq)]
pub enum Request {
    /// Start a session with the device at `address`:`port`.
    Connect { address: String, port: String },
    /// End the current session, if any.
    Disconnect,
    /// Report the connection status.
    Status,
}

impl Default for Request {
    fn default() -> (r: Request)
        ensures
            r is Status,
    {
        Request::Status
    }
}

/// The lifecycle state of the daemon's device session.
#[derive(Debug, PartialEq, Eq)]
pub enum ConnectionStatus {
    Disconnected,
    Connecting,
    Connected,
    /// An abnormal end, for the given reason. Part of the status vocabulary
    /// front ends understand; the session record itself returns to
    /// `Disconnected` on every failure.
    Error(String),
}

impl ConnectionStatus {
    /// An equal copy of this status.
    pub fn snapshot(&self) -> (r: ConnectionStatus)
        ensures
            r == *self,
    {
        match self {
            ConnectionStatus::Disconnected => ConnectionStatus::Disconnected,
            ConnectionStatus::Connecting => ConnectionStatus::Connecting,
            ConnectionStatus::Connected => ConnectionStatus::Connected,
            ConnectionStatus::Error(m) => ConnectionStatus::Error(m.clone()),
        }
    }
}

/// The daemon's reply to one request.
#[derive(Debug, PartialEq, Eq)]
pub enum Response {
    /// The request was carried out.
    Success,
    Error(String),
    Connection {
        status: ConnectionStatus,
        address: Option<String>,
        port: Option<String>,
        udp_port: u16,
    },
}

/// An equal copy of an optional string.
pub fn copy_opt_string(s: &Option<String>) -> (r: Option<String>)
    ensures
        r == *s,
{
    match s {
        Some(v) => Some(v.clone()),
        None => None,
    }
}

} // verus!
