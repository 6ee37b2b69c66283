//! The local control-plane dispatch: one request in, one decision out. A
//! request that needs the device is answered with an action for the caller
//! to perform, whose outcome is then handed back.

use vstd::prelude::*;
use vstd::string::*;
use crate::device::{frame, platform_payload, codec_payload, RequestId};
use crate::message::{Request, Response};
use crate::session::ConnectionState;

verus! {

/// Reply to a `Connect` whose TCP connect to the device failed or timed out.
pub const FAILED_TO_CONNECT: &'static str = "Failed to connect.";

/// Reply to a `Connect` whose port is not a decimal number in `0..=65535`.
pub const INVALID_PORT: &'static str = "Invalid port.";

pub open spec fn is_digit(c: char) -> bool {
    '0' <= c && c <= '9'
}

pub open spec fn digit_value(c: char) -> nat {
    (c as int - '0' as int) as nat
}

/// The value of a string of decimal digits.
pub open spec fn decimal_value(s: Seq<char>) -> nat
    decreases s.len(),
{
    if s.len() == 0 {
        0
    } else {
        decimal_value(s.drop_last()) * 10 + digit_value(s.last())
    }
}

/// The port a string names: one or more decimal digits whose value is at
/// most 65535.
pub open spec fn port_value(s: Seq<char>) -> Option<u16> {
    if 0 < s.len() && (forall|i: int| 0 <= i < s.len() ==> is_digit(#[trigger] s[i]))
        && decimal_value(s) <= 65535 {
        Some(decimal_value(s) as u16)
    } else {
        None
    }
}

/// Parses a device port given as decimal text.
pub fn parse_port(s: &str) -> (r: Option<u16>)
    ensures
        r == port_value(s@),
{
    let n = s.unicode_len();
    if n == 0 {
        return None;
    }
    let mut value: u32 = 0;
    let mut over = false;
    let mut i: usize = 0;
    while i < n
        invariant
            n == s@.len(),
            i <= n,
            forall|k: int| 0 <= k < i ==> is_digit(#[trigger] s@[k]),
            !over ==> value as nat == decimal_value(s@.subrange(0, i as int)) && value <= 65535,
            over ==> decimal_value(s@.subrange(0, i as int)) > 65535,
        decreases n - i,
    {
        let c = s.get_char(i);
        if !('0' <= c && c <= '9') {
            return None;
        }
        let d = (c as u32) - ('0' as u32);
        assert(s@.subrange(0, i + 1).drop_last() =~= s@.subrange(0, i as int));
        if !over {
            let next = value * 10 + d;
            if next > 65535 {
                over = true;
            } else {
                value = next;
            }
        }
        i += 1;
    }
    assert(s@.subrange(0, n as int) =~= s@);
    if over {
        None
    } else {
        Some(value as u16)
    }
}

/// What the caller must do to finish a request.
pub enum Action<C> {
    /// Shut down `release`, if any, then send `response` and end the exchange.
    Reply { response: Response, release: Option<C> },
    /// Shut down `release`, if any, then open a TCP connection to the device
    /// at `address`:`device_port` within the connect timeout, and hand the
    /// outcome to `connect_outcome` with `address` and `port`.
    Open { address: String, port: String, device_port: u16, release: Option<C> },
}

/// What follows an attempt to open the control channel.
pub enum OpenStep {
    /// Write these requests, in order, to the new control channel, then hand
    /// the outcome to `configure_finished`.
    Configure(Vec<Vec<u8>>),
    /// Send this response and end the exchange.
    Reply(Response),
}

/// Whether `r` is a `Response::Error` carrying the text `msg`.
pub open spec fn is_error_with(r: Response, msg: Seq<char>) -> bool {
    match r {
        Response::Error(m) => m@ == msg,
        _ => false,
    }
}

/// Handles one decoded request, or a request that failed to decode (`Err`,
/// with the decoder's message). Requests are handled one at a time.
///
/// A malformed request is answered with that error and changes nothing.
/// `Status` reports the record and changes nothing. `Disconnect` ends the
/// session, if any, and always succeeds. `Connect` ends the current session,
/// if any; with a valid port it asks the caller to open a new channel, with
/// an invalid port it is answered with an error and the record stays
/// `Disconnected`.
pub fn dispatch<C>(state: &mut ConnectionState<C>, request: Result<Request, String>) -> (r: Action<C>)
    requires
        old(state).wf(),
    ensures
        old(state).steps_to(*final(state)),
        match request {
            Err(m) => {
                &&& *final(state) == *old(state)
                &&& r == (Action::<C>::Reply { response: Response::Error(m), release: None })
            },
            Ok(Request::Status) => {
                &&& *final(state) == *old(state)
                &&& r == (Action::<C>::Reply {
                    response: Response::Connection {
                        status: old(state).status(),
                        address: old(state).address(),
                        port: old(state).port(),
                        udp_port: old(state).udp_port(),
                    },
                    release: None,
                })
            },
            Ok(Request::Disconnect) => {
                &&& *final(state) == old(state).disconnected()
                &&& r == (Action::<C>::Reply {
                    response: Response::Success,
                    release: old(state).channel(),
                })
            },
            Ok(Request::Connect { address, port }) => match port_value(port@) {
                Some(p) => {
                    &&& *final(state) == old(state).disconnected()
                    &&& r == (Action::<C>::Open {
                        address,
                        port,
                        device_port: p,
                        release: old(state).channel(),
                    })
                },
                None => {
                    &&& *final(state) == old(state).disconnected()
                    &&& r matches Action::Reply { response, release }
                    &&& is_error_with(response, INVALID_PORT@)
                    &&& release == old(state).channel()
                },
            },
        },
{
    match request {
        Err(m) => Action::Reply { response: Response::Error(m), release: None },
        Ok(Request::Status) => Action::Reply { response: state.report(), release: None },
        Ok(Request::Disconnect) => {
            let release = state.disconnect();
            Action::Reply { response: Response::Success, release }
        },
        Ok(Request::Connect { address, port }) => {
            match parse_port(port.as_str()) {
                Some(device_port) => {
                    let release = state.disconnect();
                    Action::Open { address, port, device_port, release }
                },
                None => {
                    let release = state.disconnect();
                    Action::Reply { response: Response::Error(INVALID_PORT.to_owned()), release }
                },
            }
        },
    }
}

/// Handles the outcome of opening the control channel to `address`:`port`
/// (`None` if the connect failed or timed out). On success the session is
/// `Connecting` and the configuration requests are due; on failure the
/// record is left as it is and the reply is `Failed to connect.`.
pub fn connect_outcome<C>(
    state: &mut ConnectionState<C>,
    opened: Option<C>,
    address: String,
    port: String,
) -> (r: OpenStep)
    requires
        old(state).wf(),
        !old(state).is_live(),
    ensures
        old(state).steps_to(*final(state)),
        match opened {
            Some(c) => {
                &&& *final(state) == old(state).opened(c, address, port)
                &&& r matches OpenStep::Configure(frames)
                &&& frames@.len() == 3
                &&& frames@[0]@ == frame(RequestId::SetPlatform, platform_payload())
                &&& frames@[1]@ == frame(RequestId::SetCodec, codec_payload(old(state).udp_port()))
                &&& frames@[2]@ == frame(RequestId::Start, Seq::empty())
            },
            None => {
                &&& *final(state) == *old(state)
                &&& r matches OpenStep::Reply(response)
                &&& is_error_with(response, FAILED_TO_CONNECT@)
            },
        },
{
    match opened {
        Some(c) => OpenStep::Configure(state.channel_opened(c, address, port)),
        None => OpenStep::Reply(Response::Error(FAILED_TO_CONNECT.to_owned())),
    }
}

} // verus!
