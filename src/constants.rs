//! Fixed names and sizes shared by the daemon and its front ends.

use vstd::prelude::*;

verus! {

/// File name of the local control socket.
pub const UNIX_SOCKET_NAME: &'static str = "omic-socket";

/// Size of the control-plane receive buffer, and the cap on an encoded
/// request or response.
pub const MAX_MESSAGE_SIZE: usize = 1024;

/// Seconds allowed for the TCP connect to the device.
pub const CONNECT_TIMEOUT_SECS: u64 = 5;

/// Seconds between two keep-alive heartbeats of a live session.
pub const HEARTBEAT_INTERVAL_SECS: u64 = 3;

/// One-byte commands of the device's older single-byte control protocol.
#[derive(Clone, Copy, Debug, PartialEq, Eq, Structural)]
pub enum Message {
    Connect,
    Disconnect,
    Hello,
}

/// The byte that stands for a single-byte command.
pub open spec fn message_code(m: Message) -> u8 {
    match m {
        Message::Connect => 1,
        Message::Disconnect => 0,
        Message::Hello => 2,
    }
}

impl Message {
    pub fn code(&self) -> (r: u8)
        ensures
            r == message_code(*self),
    {
        match self {
            Message::Connect => 1,
            Message::Disconnect => 0,
            Message::Hello => 2,
        }
    }

    /// The command a byte stands for, if any.
    pub fn from_code(b: u8) -> (r: Option<Message>)
        ensures
            match r {
                Some(m) => message_code(m) == b,
                None => b > 2,
            },
    {
        if b == 0 {
            Some(Message::Disconnect)
        } else if b == 1 {
            Some(Message::Connect)
        } else if b == 2 {
            Some(Message::Hello)
        } else {
            None
        }
    }
}

} // verus!
