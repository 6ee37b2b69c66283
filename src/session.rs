//! The connection state machine: the daemon's single session record, and the
//! transitions it goes through while a session is opened, configured, used
//! and closed. The control-channel handle `C` is owned here; the I/O on it is
//! done by the caller, which hands the outcomes back.

use vstd::prelude::*;
use crate::device::{configure_and_start, frame, platform_payload, codec_payload, poll_frame, RequestId};
use crate::message::{copy_opt_string, ConnectionStatus, Response};

verus! {

/// The daemon's session record.
pub struct ConnectionState<C> {
    status: ConnectionStatus,
    remote_address: Option<String>,
    remote_port: Option<String>,
    control_channel: Option<C>,
    local_udp_port: u16,
}

/// Whether a status is one in which a session holds the control channel.
pub open spec fn is_live_status(s: ConnectionStatus) -> bool {
    s is Connecting || s is Connected
}

/// The status changes a single transition may make: none, back to
/// `Disconnected`, from an idle status to `Connecting`, and from `Connecting`
/// to `Connected`.
pub open spec fn allowed_step(a: ConnectionStatus, b: ConnectionStatus) -> bool {
    ||| a == b
    ||| b is Disconnected
    ||| !is_live_status(a) && b is Connecting
    ||| a is Connecting && b is Connected
}

impl<C> ConnectionState<C> {
    pub closed spec fn status(&self) -> ConnectionStatus {
        self.status
    }

    pub closed spec fn address(&self) -> Option<String> {
        self.remote_address
    }

    pub closed spec fn port(&self) -> Option<String> {
        self.remote_port
    }

    pub closed spec fn channel(&self) -> Option<C> {
        self.control_channel
    }

    pub closed spec fn udp_port(&self) -> u16 {
        self.local_udp_port
    }

    pub open spec fn is_live(&self) -> bool {
        is_live_status(self.status())
    }

    /// The record's invariant: the control channel and the remote endpoint
    /// are present exactly while a session is `Connecting` or `Connected`.
    pub open spec fn wf(&self) -> bool {
        &&& (self.channel() is Some <==> self.is_live())
        &&& (self.address() is Some <==> self.is_live())
        &&& (self.port() is Some <==> self.is_live())
    }

    /// A permitted transition from `self` to `next`: the invariant holds
    /// after it, the status moves along an allowed path, and the UDP port is
    /// kept.
    pub open spec fn steps_to(&self, next: Self) -> bool {
        &&& next.wf()
        &&& allowed_step(self.status(), next.status())
        &&& next.udp_port() == self.udp_port()
    }

    /// The record once its session, if any, has ended.
    pub closed spec fn disconnected(self) -> Self {
        ConnectionState {
            status: ConnectionStatus::Disconnected,
            remote_address: None,
            remote_port: None,
            control_channel: None,
            local_udp_port: self.local_udp_port,
        }
    }

    /// The record once a control channel to `address`:`port` is open and
    /// being configured.
    pub closed spec fn opened(self, channel: C, address: String, port: String) -> Self {
        ConnectionState {
            status: ConnectionStatus::Connecting,
            remote_address: Some(address),
            remote_port: Some(port),
            control_channel: Some(channel),
            local_udp_port: self.local_udp_port,
        }
    }

    /// The record once configuration succeeded.
    pub closed spec fn established(self) -> Self {
        ConnectionState { status: ConnectionStatus::Connected, ..self }
    }

    /// What the accessors show of the derived records.
    pub proof fn lemma_records(self, channel: C, address: String, port: String)
        ensures
            self.disconnected().status() is Disconnected,
            self.disconnected().address() is None,
            self.disconnected().port() is None,
            self.disconnected().channel() is None,
            self.disconnected().udp_port() == self.udp_port(),
            self.opened(channel, address, port).status() is Connecting,
            self.opened(channel, address, port).address() == Some(address),
            self.opened(channel, address, port).port() == Some(port),
            self.opened(channel, address, port).channel() == Some(channel),
            self.opened(channel, address, port).udp_port() == self.udp_port(),
            self.established().status() is Connected,
            self.established().address() == self.address(),
            self.established().port() == self.port(),
            self.established().channel() == self.channel(),
            self.established().udp_port() == self.udp_port(),
    {
    }

    /// A fresh record: disconnected, with the ingest socket's port.
    pub fn new(local_udp_port: u16) -> (r: Self)
        ensures
            r.wf(),
            r.status() is Disconnected,
            r.address() is None,
            r.port() is None,
            r.channel() is None,
            r.udp_port() == local_udp_port,
    {
        ConnectionState {
            status: ConnectionStatus::Disconnected,
            remote_address: None,
            remote_port: None,
            control_channel: None,
            local_udp_port,
        }
    }

    pub fn local_udp_port(&self) -> (r: u16)
        ensures
            r == self.udp_port(),
    {
        self.local_udp_port
    }

    /// Whether a session holds the control channel (`Connecting` or
    /// `Connected`).
    pub fn has_session(&self) -> (r: bool)
        ensures
            r == self.is_live(),
    {
        match self.status {
            ConnectionStatus::Connecting => true,
            ConnectionStatus::Connected => true,
            _ => false,
        }
    }

    pub fn is_connecting(&self) -> (r: bool)
        ensures
            r == self.status() is Connecting,
    {
        match self.status {
            ConnectionStatus::Connecting => true,
            _ => false,
        }
    }

    /// The control channel, for the caller to write the session's requests.
    pub fn control_channel(&self) -> (r: Option<&C>)
        ensures
            r is Some <==> self.channel() is Some,
            r is Some ==> *r->0 == self.channel()->0,
    {
        match &self.control_channel {
            Some(c) => Some(c),
            None => None,
        }
    }

    /// The `Status` reply: status, remote endpoint and UDP port, read-only.
    pub fn report(&self) -> (r: Response)
        ensures
            r == (Response::Connection {
                status: self.status(),
                address: self.address(),
                port: self.port(),
                udp_port: self.udp_port(),
            }),
    {
        Response::Connection {
            status: self.status.snapshot(),
            address: copy_opt_string(&self.remote_address),
            port: copy_opt_string(&self.remote_port),
            udp_port: self.local_udp_port,
        }
    }

    /// Ends the session, if any; a no-op on a record without one. Returns the
    /// control channel for the caller to shut down.
    pub fn disconnect(&mut self) -> (released: Option<C>)
        ensures
            *final(self) == old(self).disconnected(),
            released == old(self).channel(),
            old(self).steps_to(*final(self)),
    {
        let released = self.control_channel.take();
        self.status = ConnectionStatus::Disconnected;
        self.remote_address = None;
        self.remote_port = None;
        released
    }

    /// Records a freshly opened control channel to `address`:`port` and
    /// returns the requests that configure and start the session, in the
    /// order in which they must be written.
    pub fn channel_opened(&mut self, channel: C, address: String, port: String) -> (frames: Vec<
        Vec<u8>,
    >)
        requires
            old(self).wf(),
            !old(self).is_live(),
        ensures
            *final(self) == old(self).opened(channel, address, port),
            old(self).steps_to(*final(self)),
            frames@.len() == 3,
            frames@[0]@ == frame(RequestId::SetPlatform, platform_payload()),
            frames@[1]@ == frame(RequestId::SetCodec, codec_payload(old(self).udp_port())),
            frames@[2]@ == frame(RequestId::Start, Seq::empty()),
    {
        self.status = ConnectionStatus::Connecting;
        self.remote_address = Some(address);
        self.remote_port = Some(port);
        self.control_channel = Some(channel);
        configure_and_start(self.local_udp_port)
    }

    /// Settles a session being configured: on success it is `Connected` and
    /// the reply is `Success`; on a write failure the session ends, the
    /// record returns to `Disconnected`, the reply is that error, and the
    /// control channel is handed back to be shut down.
    pub fn configure_finished(&mut self, outcome: Result<(), String>) -> (r: (Response, Option<C>))
        requires
            old(self).wf(),
            old(self).status() is Connecting,
        ensures
            old(self).steps_to(*final(self)),
            match outcome {
                Ok(()) => {
                    &&& *final(self) == old(self).established()
                    &&& r.0 is Success
                    &&& r.1 is None
                },
                Err(reason) => {
                    &&& *final(self) == old(self).disconnected()
                    &&& r.0 == Response::Error(reason)
                    &&& r.1 == old(self).channel()
                },
            },
    {
        match outcome {
            Ok(()) => {
                self.status = ConnectionStatus::Connected;
                (Response::Success, None)
            },
            Err(reason) => {
                let released = self.control_channel.take();
                self.status = ConnectionStatus::Disconnected;
                self.remote_address = None;
                self.remote_port = None;
                (Response::Error(reason), released)
            },
        }
    }

    /// Settles a heartbeat write. A failure is fatal to the session: the
    /// record returns to `Disconnected` and the control channel is handed
    /// back to be shut down. A success changes nothing.
    pub fn heartbeat_finished(&mut self, outcome: Result<(), String>) -> (released: Option<C>)
        requires
            old(self).wf(),
        ensures
            old(self).steps_to(*final(self)),
            match outcome {
                Ok(()) => *final(self) == *old(self) && released is None,
                Err(_) => *final(self) == old(self).disconnected() && released == old(self).channel(),
            },
    {
        match outcome {
            Ok(()) => None,
            Err(_) => self.disconnect(),
        }
    }

    /// The keep-alive request to write, which is due only while `Connected`.
    pub fn heartbeat(&self) -> (r: Option<Vec<u8>>)
        ensures
            r is Some <==> self.status() is Connected,
            r is Some ==> r->0@ == frame(RequestId::Poll, Seq::empty()),
    {
        match self.status {
            ConnectionStatus::Connected => Some(poll_frame()),
            _ => None,
        }
    }
}

/// Along any run of transitions that starts from a well-formed record, every
/// record is well-formed (the control channel is present exactly while
/// `Connecting` or `Connected`), every status change follows an allowed
/// path, and the local UDP port never changes.
pub proof fn lemma_run_keeps_invariant<C>(run: Seq<ConnectionState<C>>)
    requires
        run.len() > 0,
        run[0].wf(),
        forall|i: int| 0 <= i < run.len() - 1 ==> #[trigger] run[i].steps_to(run[i + 1]),
    ensures
        forall|i: int| 0 <= i < run.len() ==> #[trigger] run[i].wf(),
        forall|i: int| 0 <= i < run.len() ==> #[trigger] run[i].udp_port() == run[0].udp_port(),
        forall|i: int|
            0 <= i < run.len() - 1 ==> allowed_step(#[trigger] run[i].status(), run[i + 1].status()),
    decreases run.len(),
{
    if run.len() > 1 {
        let prefix = run.drop_last();
        assert forall|i: int| 0 <= i < prefix.len() - 1 implies #[trigger] prefix[i].steps_to(
            prefix[i + 1],
        ) by {
            assert(run[i].steps_to(run[i + 1]));
        }
        lemma_run_keeps_invariant(prefix);
        let last = run.len() - 1;
        let j = last - 1;
        assert(run[j].steps_to(run[j + 1]));
        assert forall|i: int| 0 <= i < run.len() implies #[trigger] run[i].wf() by {
            if i < last {
                assert(prefix[i].wf());
            }
        }
        assert forall|i: int| 0 <= i < run.len() implies #[trigger] run[i].udp_port()
            == run[0].udp_port() by {
            if i < last {
                assert(prefix[i].udp_port() == prefix[0].udp_port());
            } else {
                assert(prefix[last - 1].udp_port() == prefix[0].udp_port());
            }
        }
        assert forall|i: int| 0 <= i < run.len() - 1 implies allowed_step(
            #[trigger] run[i].status(),
            run[i + 1].status(),
        ) by {
            assert(run[i].steps_to(run[i + 1]));
        }
    }
}

/// Disconnecting twice in a row: the second disconnect leaves the record as
/// the first left it, and has no control channel to release.
pub proof fn lemma_disconnect_idempotent<C>(s: ConnectionState<C>)
    ensures
        s.disconnected().disconnected() == s.disconnected(),
        s.disconnected().channel() is None,
        s.disconnected().status() is Disconnected,
{
    s.lemma_records(arbitrary(), arbitrary(), arbitrary());
}

} // verus!
