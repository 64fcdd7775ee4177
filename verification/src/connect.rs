//! Where a client connects to, and the errors of the client API.

use std::path::PathBuf;
use tonic::transport::Endpoint;
use vstd::prelude::*;
use vstd::string::*;

use crate::status::{spec_code_number, GrpcStatus};
use crate::text::{has_prefix, lemma_has_prefix_splits, strip_prefix};

verus! {

#[verifier::external_type_specification]
#[verifier::external_body]
pub struct ExPathBuf(PathBuf);

#[verifier::external_type_specification]
#[verifier::external_body]
pub struct ExTransportError(tonic::transport::Error);

/// `PathBuf::clone` may be called; nothing is claimed of its result.
pub assume_specification[ <PathBuf as Clone>::clone ](p: &PathBuf) -> PathBuf;

/// What `PathBuf::from` makes of a path given as text.
pub uninterp spec fn path_of(s: Seq<char>) -> PathBuf;

/// Calls `PathBuf::from(&str)`, whose result depends on the text alone.
#[verifier::external_body]
fn path_from(s: &str) -> (p: PathBuf)
    ensures
        p == path_of(s@),
{
    PathBuf::from(s)
}

/// Whether `tonic::transport::Endpoint::from_shared` accepts a URI.
pub uninterp spec fn endpoint_accepts(uri: Seq<char>) -> bool;

/// Calls `tonic::transport::Endpoint::from_shared` and keeps only whether it
/// accepted the URI, and its error when it did not. That outcome depends on
/// the URI alone; a URI that starts with `unix:` names a socket path and is
/// always accepted. Which other URIs the `http` crate's parser accepts is
/// left to the name `endpoint_accepts`.
#[verifier::external_body]
fn check_endpoint(uri: String) -> (r: Result<(), tonic::transport::Error>)
    ensures
        r is Ok == endpoint_accepts(uri@),
        has_prefix(uri@, "unix:"@) ==> r is Ok,
{
    match Endpoint::from_shared(uri) {
        Ok(_) => Ok(()),
        Err(e) => Err(e),
    }
}

/// The address of a gRPC server.
#[derive(Debug, Clone)]
pub enum ConnectAddr {
    /// `host:port` of a TCP listener.
    Tcp(String),
    /// Path of a Unix socket.
    Unix(PathBuf),
}

/// Errors of the client API.
#[derive(Debug)]
pub enum ClientError {
    /// The server address is not a valid endpoint.
    Transport(tonic::transport::Error),
    /// A call failed, or a local queue or stream is closed.
    Status(GrpcStatus),
    /// Events of this kind of object go to its callback, not to receives.
    CallbackDriven { kind: &'static str },
}

/// What `tonic::Status` displays for a status made by `tonic::Status::new`
/// from the code of the given number and the message.
pub uninterp spec fn status_text(code: i32, message: Seq<char>) -> Seq<char>;

/// Builds `tonic::Status::new(tonic::Code::from_i32(code), message)` and
/// displays it. The new status has empty details and metadata, so the text
/// depends on the code and the message alone.
#[verifier::external_body]
fn status_display(code: i32, message: &str) -> (r: String)
    ensures
        r@ == status_text(code, message@),
{
    tonic::Status::new(tonic::Code::from_i32(code), message).to_string()
}

/// The texts `tonic::transport::Error` displays, one for each kind of error.
pub open spec fn is_transport_error_text(t: Seq<char>) -> bool {
    ||| t == "transport error"@
    ||| t == "invalid URI"@
    ||| t == "user agent is not a valid header value"@
    ||| t == "cannot apply TLS config for unix domain socket"@
}

/// Displays a `tonic::transport::Error`: the text of its kind. Which kind an
/// error has is private to tonic, so only the set of possible texts is
/// claimed.
#[verifier::external_body]
fn transport_display(e: &tonic::transport::Error) -> (r: String)
    ensures
        is_transport_error_text(r@),
{
    e.to_string()
}

impl ClientError {
    /// The error's text: the transport error's or the status's own text, or
    /// "`kind` is callback-driven". A status is shown from its code and
    /// message, with no details or metadata.
    pub fn to_string(&self) -> (t: String)
        ensures
            self matches ClientError::CallbackDriven { kind } ==> t@ == kind@
                + " is callback-driven"@,
            self matches ClientError::Status(s) ==> t@ == status_text(
                spec_code_number(s.code),
                s.message@,
            ),
            self is Transport ==> is_transport_error_text(t@),
    {
        match self {
            ClientError::Transport(e) => transport_display(e),
            ClientError::Status(s) => status_display(s.code.number(), s.message.as_str()),
            ClientError::CallbackDriven { kind } => {
                let mut t = String::from_str(kind);
                t.append(" is callback-driven");
                t
            },
        }
    }
}

/// The URI through which the client reaches an address: `http://host:port`
/// for TCP, and a fixed placeholder authority for a Unix socket, whose path
/// the connector opens itself.
pub open spec fn connect_uri(addr: ConnectAddr) -> Seq<char> {
    match addr {
        ConnectAddr::Tcp(a) => "http://"@ + a@,
        ConnectAddr::Unix(_) => "http://[::]:50051"@,
    }
}

/// The URI of a TCP address.
pub fn tcp_uri(addr: &str) -> (r: String)
    ensures
        r@ == "http://"@ + addr@,
{
    let mut s = String::from_str("http://");
    s.append(addr);
    s
}

/// Checks that the client can build an endpoint for the address. A Unix
/// socket address is reached through a fixed placeholder URI and is always
/// accepted; a TCP address is accepted when `http://host:port` is a valid
/// endpoint URI.
pub fn validate_connect_addr(addr: &ConnectAddr) -> (r: Result<(), tonic::transport::Error>)
    ensures
        addr is Tcp ==> (r is Ok == endpoint_accepts(connect_uri(*addr))),
        addr is Unix ==> r is Ok,
{
    match addr {
        ConnectAddr::Tcp(a) => check_endpoint(tcp_uri(a.as_str())),
        ConnectAddr::Unix(_) => Ok(()),
    }
}

/// The message that rejects an endpoint of an unknown scheme.
pub open spec fn invalid_endpoint_message() -> Seq<char> {
    "invalid endpoint, expected tcp://host:port or unix:///path"@
}

/// The address an endpoint names: `tcp://` followed by `host:port`, or
/// `unix://` followed by a socket path.
pub open spec fn spec_parse_connect_addr(endpoint: Seq<char>) -> Option<Result<Seq<char>, PathBuf>> {
    if has_prefix(endpoint, "tcp://"@) {
        Some(Ok(endpoint.subrange(6, endpoint.len() as int)))
    } else if has_prefix(endpoint, "unix://"@) {
        Some(Err(path_of(endpoint.subrange(7, endpoint.len() as int))))
    } else {
        None
    }
}

/// The endpoint a client connects to when none is given.
pub const DEFAULT_ENDPOINT: &'static str = "unix:///tmp/zenoh-grpc.sock";

/// A client that is given no endpoint connects to the Unix socket that a
/// server listens on by default.
pub proof fn lemma_default_endpoint_is_default_socket()
    ensures
        spec_parse_connect_addr(DEFAULT_ENDPOINT@) == Some(
            Err::<Seq<char>, PathBuf>(path_of(crate::config::DEFAULT_UDS_PATH@)),
        ),
{
    reveal_strlit("unix:///tmp/zenoh-grpc.sock");
    reveal_strlit("/tmp/zenoh-grpc.sock");
    reveal_strlit("tcp://");
    reveal_strlit("unix://");
    assert(!has_prefix(DEFAULT_ENDPOINT@, "tcp://"@)) by {
        assert(DEFAULT_ENDPOINT@.subrange(0, 6)[0] != "tcp://"@[0]);
    }
    assert(DEFAULT_ENDPOINT@.subrange(0, 7) =~= "unix://"@);
    assert(DEFAULT_ENDPOINT@.subrange(7, DEFAULT_ENDPOINT@.len() as int)
        =~= crate::config::DEFAULT_UDS_PATH@);
}

/// Reads an endpoint such as `tcp://127.0.0.1:7335` or
/// `unix:///tmp/zenoh-grpc.sock`.
pub fn parse_connect_addr(endpoint: &str) -> (r: Result<ConnectAddr, String>)
    ensures
        match spec_parse_connect_addr(endpoint@) {
            Some(Ok(a)) => r matches Ok(ConnectAddr::Tcp(t)) && t@ == a,
            Some(Err(p)) => r matches Ok(ConnectAddr::Unix(q)) && q == p,
            None => r matches Err(msg) && msg@ == invalid_endpoint_message(),
        },
{
    proof {
        reveal_strlit("tcp://");
        reveal_strlit("unix://");
    }
    if let Some(addr) = strip_prefix(endpoint, "tcp://") {
        return Ok(ConnectAddr::Tcp(String::from_str(addr)));
    }
    if let Some(path) = strip_prefix(endpoint, "unix://") {
        return Ok(ConnectAddr::Unix(path_from(path)));
    }
    Err(String::from_str("invalid endpoint, expected tcp://host:port or unix:///path"))
}

/// An endpoint is read by its scheme: after `tcp://` comes the TCP address
/// as it is written, after `unix://` the socket path; text with neither
/// scheme is refused.
pub proof fn lemma_endpoint_schemes(rest: Seq<char>, other: Seq<char>)
    requires
        !has_prefix(other, "tcp://"@),
        !has_prefix(other, "unix://"@),
    ensures
        spec_parse_connect_addr("tcp://"@ + rest) == Some(Ok::<Seq<char>, PathBuf>(rest)),
        spec_parse_connect_addr("unix://"@ + rest) == Some(
            Err::<Seq<char>, PathBuf>(path_of(rest)),
        ),
        spec_parse_connect_addr(other) is None,
{
    reveal_strlit("tcp://");
    reveal_strlit("unix://");
    lemma_has_prefix_splits(rest, "tcp://"@);
    lemma_has_prefix_splits(rest, "unix://"@);
    let t = "tcp://"@ + rest;
    let u = "unix://"@ + rest;
    assert(t.subrange(6, t.len() as int) =~= rest);
    assert(u.subrange(7, u.len() as int) =~= rest);
    assert(!has_prefix(u, "tcp://"@)) by {
        assert(u[0] == 'u');
        assert(u.subrange(0, 6)[0] != "tcp://"@[0]);
    }
}

} // verus!
