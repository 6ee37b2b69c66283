//! Where the local control socket lives, and the request builder front ends
//! use to talk to the daemon.

use vstd::prelude::*;
use vstd::string::*;
use crate::constants::UNIX_SOCKET_NAME;
use crate::message::Request;

verus! {

/// Directory used when neither the runtime directory nor a home is known.
pub const FALLBACK_DIR: &'static str = "/tmp";

/// The socket path: `<runtime_dir>/omic-socket` when the runtime directory
/// is known, else `<home>/.omic-socket`, with `/tmp` standing in for an
/// unknown home.
pub open spec fn socket_path_of(runtime_dir: Option<Seq<char>>, home: Option<Seq<char>>) -> Seq<
    char,
> {
    match runtime_dir {
        Some(d) => d + seq!['/'] + UNIX_SOCKET_NAME@,
        None => match home {
            Some(h) => h + seq!['/', '.'] + UNIX_SOCKET_NAME@,
            None => FALLBACK_DIR@ + seq!['/', '.'] + UNIX_SOCKET_NAME@,
        },
    }
}

/// Computes the control socket's path from the runtime directory and the
/// home directory, either of which may be unset.
pub fn socket_path(runtime_dir: Option<&str>, home: Option<&str>) -> (r: String)
    ensures
        r@ == socket_path_of(
            match runtime_dir {
                Some(d) => Some(d@),
                None => None,
            },
            match home {
                Some(h) => Some(h@),
                None => None,
            },
        ),
{
    match runtime_dir {
        Some(d) => {
            let mut p = d.to_owned();
            p.append("/");
            p.append(UNIX_SOCKET_NAME);
            proof {
                reveal_strlit("/");
            }
            assert(p@ =~= d@ + seq!['/'] + UNIX_SOCKET_NAME@);
            p
        },
        None => {
            let mut p = match home {
                Some(h) => h.to_owned(),
                None => FALLBACK_DIR.to_owned(),
            };
            let ghost base = p@;
            p.append("/.");
            p.append(UNIX_SOCKET_NAME);
            proof {
                reveal_strlit("/.");
            }
            assert(p@ =~= base + seq!['/', '.'] + UNIX_SOCKET_NAME@);
            p
        },
    }
}

/// Entry point of the front ends' request builder.
pub struct Socket;

impl Socket {
    /// A builder with no request set yet.
    pub fn create_request() -> (r: SocketRequestBuilder)
        ensures
            r.pending() is None,
    {
        SocketRequestBuilder { request: None }
    }
}

/// Collects the request that one exchange with the daemon will carry.
pub struct SocketRequestBuilder {
    request: Option<Request>,
}

impl Default for SocketRequestBuilder {
    fn default() -> (r: SocketRequestBuilder)
        ensures
            r.pending() is None,
    {
        SocketRequestBuilder { request: None }
    }
}

impl SocketRequestBuilder {
    pub closed spec fn pending(&self) -> Option<Request> {
        self.request
    }

    /// Sets the request to send, replacing any set before.
    pub fn request(self, req: Request) -> (r: SocketRequestBuilder)
        ensures
            r.pending() == Some(req),
    {
        SocketRequestBuilder { request: Some(req) }
    }

    /// The request the exchange carries: the one set, or `Status` if none
    /// was.
    pub fn into_request(self) -> (r: Request)
        ensures
            match self.pending() {
                Some(q) => r == q,
                None => r is Status,
            },
    {
        match self.request {
            Some(q) => q,
            None => Request::Status,
        }
    }
}

} // verus!
