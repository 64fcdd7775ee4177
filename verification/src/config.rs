//! Plugin configuration and the endpoints the gRPC server listens on.

use std::time::Duration;
use vstd::prelude::*;
use vstd::string::*;

use crate::text::{decimal, has_prefix, lemma_has_prefix_splits, push_decimal, strip_prefix};

verus! {

pub const DEFAULT_HOST: &'static str = "127.0.0.1";

pub const DEFAULT_PORT: u16 = 7335;

pub const DEFAULT_UDS_PATH: &'static str = "/tmp/zenoh-grpc.sock";

pub const DEFAULT_MAX_RECV_MESSAGE_SIZE: usize = 4194304;

pub const DEFAULT_MAX_SEND_MESSAGE_SIZE: usize = 4194304;

pub const DEFAULT_SHUTDOWN_GRACE_PERIOD_MS: u64 = 3000;

/// What `Duration::from_millis` returns for a number of milliseconds.
pub uninterp spec fn duration_of_millis(ms: u64) -> Duration;

/// Calls `std::time::Duration::from_millis`; the contract names its result,
/// which depends on the number of milliseconds alone.
#[verifier::external_body]
fn duration_from_millis(ms: u64) -> (d: Duration)
    ensures
        d == duration_of_millis(ms),
{
    Duration::from_millis(ms)
}

/// `Duration` is `Copy`: its `clone` returns the same value.
pub assume_specification[ <Duration as Clone>::clone ](d: &Duration) -> (r: Duration)
    ensures
        r == *d,
;

/// Configuration of the gRPC plugin, as read from the `plugins/grpc`
/// section of the Zenoh configuration.
#[derive(Debug, Clone)]
pub struct Config {
    pub listen: Option<String>,
    pub host: String,
    pub port: u16,
    pub uds_path: Option<String>,
    pub max_recv_message_size: usize,
    pub max_send_message_size: usize,
    pub shutdown_grace_period: Duration,
    pub __path__: Option<Vec<String>>,
    pub __required__: Option<bool>,
    pub __config__: Option<String>,
}

/// The gRPC plugin of Zenoh. Zenoh loads it under the name `grpc` and
/// hands it the `plugins/grpc` section of its configuration.
pub struct GrpcPlugin;

/// The name Zenoh loads the plugin under by default.
pub const PLUGIN_DEFAULT_NAME: &'static str = "grpc";

/// An address the gRPC server listens on.
#[derive(Debug, Clone, PartialEq, Eq)]
pub enum ListenEndpoint {
    Tcp(String),
    Unix(String),
}

/// The mathematical value of a [`ListenEndpoint`].
pub enum ListenEndpointView {
    Tcp(Seq<char>),
    Unix(Seq<char>),
}

impl View for ListenEndpoint {
    type V = ListenEndpointView;

    open spec fn view(&self) -> ListenEndpointView {
        match self {
            ListenEndpoint::Tcp(a) => ListenEndpointView::Tcp(a@),
            ListenEndpoint::Unix(p) => ListenEndpointView::Unix(p@),
        }
    }
}

/// The characters of an optional string.
pub open spec fn opt_chars(o: Option<String>) -> Option<Seq<char>> {
    match o {
        Some(s) => Some(s@),
        None => None,
    }
}

/// The values of a sequence of endpoints.
pub open spec fn endpoints_view(v: Seq<ListenEndpoint>) -> Seq<ListenEndpointView> {
    v.map_values(|e: ListenEndpoint| e@)
}

/// `host:port`, the TCP address made of a host and a port.
pub open spec fn host_port(host: Seq<char>, port: u16) -> Seq<char> {
    host + seq![':'] + decimal(port as nat)
}

/// The message that rejects an explicit listen endpoint of an unknown scheme.
pub open spec fn unsupported_listen_message(listen: Seq<char>) -> Seq<char> {
    "unsupported listen endpoint `"@ + listen + "`"@
}

/// The endpoints that a configuration asks for: the explicit `listen`
/// endpoint when there is one (`tcp://` or `unix://` followed by the address
/// or path), else TCP on `host:port` followed, when `uds_path` is set, by the
/// Unix socket at that path.
pub open spec fn spec_listeners(
    listen: Option<Seq<char>>,
    host: Seq<char>,
    port: u16,
    uds_path: Option<Seq<char>>,
) -> Result<Seq<ListenEndpointView>, Seq<char>> {
    match listen {
        Some(l) => {
            if has_prefix(l, "tcp://"@) {
                Ok(seq![ListenEndpointView::Tcp(l.subrange(6, l.len() as int))])
            } else if has_prefix(l, "unix://"@) {
                Ok(seq![ListenEndpointView::Unix(l.subrange(7, l.len() as int))])
            } else {
                Err(unsupported_listen_message(l))
            }
        },
        None => {
            let tcp = ListenEndpointView::Tcp(host_port(host, port));
            match uds_path {
                Some(p) => Ok(seq![tcp, ListenEndpointView::Unix(p)]),
                None => Ok(seq![tcp]),
            }
        },
    }
}

/// A configuration holds the default value of every field.
pub open spec fn is_default_config(c: Config) -> bool {
    &&& c.listen is None
    &&& c.host@ == DEFAULT_HOST@
    &&& c.port == DEFAULT_PORT
    &&& opt_chars(c.uds_path) == Some(DEFAULT_UDS_PATH@)
    &&& c.max_recv_message_size == DEFAULT_MAX_RECV_MESSAGE_SIZE
    &&& c.max_send_message_size == DEFAULT_MAX_SEND_MESSAGE_SIZE
    &&& c.shutdown_grace_period == duration_of_millis(DEFAULT_SHUTDOWN_GRACE_PERIOD_MS)
    &&& c.__path__ is None
    &&& c.__required__ is None
    &&& c.__config__ is None
}

pub fn default_host() -> (r: String)
    ensures
        r@ == DEFAULT_HOST@,
{
    String::from_str(DEFAULT_HOST)
}

pub fn default_port() -> (r: u16)
    ensures
        r == DEFAULT_PORT,
{
    DEFAULT_PORT
}

pub fn default_uds_path() -> (r: Option<String>)
    ensures
        opt_chars(r) == Some(DEFAULT_UDS_PATH@),
{
    Some(String::from_str(DEFAULT_UDS_PATH))
}

pub fn default_max_recv_message_size() -> (r: usize)
    ensures
        r == DEFAULT_MAX_RECV_MESSAGE_SIZE,
{
    DEFAULT_MAX_RECV_MESSAGE_SIZE
}

pub fn default_max_send_message_size() -> (r: usize)
    ensures
        r == DEFAULT_MAX_SEND_MESSAGE_SIZE,
{
    DEFAULT_MAX_SEND_MESSAGE_SIZE
}

pub fn default_shutdown_grace_period_ms() -> (r: u64)
    ensures
        r == DEFAULT_SHUTDOWN_GRACE_PERIOD_MS,
{
    DEFAULT_SHUTDOWN_GRACE_PERIOD_MS
}

pub fn default_shutdown_grace_period() -> (r: Duration)
    ensures
        r == duration_of_millis(DEFAULT_SHUTDOWN_GRACE_PERIOD_MS),
{
    duration_from_millis(DEFAULT_SHUTDOWN_GRACE_PERIOD_MS)
}

impl Default for Config {
    fn default() -> (c: Self)
        ensures
            is_default_config(c),
    {
        Config {
            listen: None,
            host: default_host(),
            port: default_port(),
            uds_path: default_uds_path(),
            max_recv_message_size: default_max_recv_message_size(),
            max_send_message_size: default_max_send_message_size(),
            shutdown_grace_period: duration_from_millis(default_shutdown_grace_period_ms()),
            __path__: None,
            __required__: None,
            __config__: None,
        }
    }
}

/// A default configuration listens on TCP `127.0.0.1:7335` and on the Unix
/// socket `/tmp/zenoh-grpc.sock`, in that order.
pub proof fn lemma_default_listeners(c: Config)
    requires
        is_default_config(c),
    ensures
        spec_listeners(opt_chars(c.listen), c.host@, c.port, opt_chars(c.uds_path)) == Ok::<
            Seq<ListenEndpointView>,
            Seq<char>,
        >(
            seq![
                ListenEndpointView::Tcp("127.0.0.1:7335"@),
                ListenEndpointView::Unix("/tmp/zenoh-grpc.sock"@),
            ],
        ),
{
    reveal_strlit("127.0.0.1");
    reveal_strlit("127.0.0.1:7335");
    reveal_strlit("/tmp/zenoh-grpc.sock");
    reveal_with_fuel(decimal, 5);
    assert(decimal(7335) =~= seq!['7', '3', '3', '5']);
    assert(host_port(c.host@, c.port) =~= "127.0.0.1:7335"@);
}

/// Renders `host:port`.
pub fn format_host_port(host: &str, port: u16) -> (r: String)
    ensures
        r@ == host_port(host@, port),
{
    let mut s = String::from_str(host);
    proof {
        reveal_strlit(":");
    }
    s.append(":");
    push_decimal(&mut s, port as u64);
    s
}

impl Config {
    /// The configuration with the bridge's command-line overrides applied:
    /// each given host, port or Unix socket path replaces the configured one.
    pub fn with_bridge_overrides(
        self,
        host: Option<String>,
        port: Option<u16>,
        uds_path: Option<String>,
    ) -> (c: Config)
        ensures
            c.host@ == (match host {
                Some(h) => h@,
                None => self.host@,
            }),
            c.port == (match port {
                Some(p) => p,
                None => self.port,
            }),
            opt_chars(c.uds_path) == (match uds_path {
                Some(u) => Some(u@),
                None => opt_chars(self.uds_path),
            }),
            opt_chars(c.listen) == opt_chars(self.listen),
            c.max_recv_message_size == self.max_recv_message_size,
            c.max_send_message_size == self.max_send_message_size,
            c.shutdown_grace_period == self.shutdown_grace_period,
            c.__path__ == self.__path__,
            c.__required__ == self.__required__,
            c.__config__ == self.__config__,
    {
        let mut c = self;
        match host {
            Some(h) => {
                c.host = h;
            },
            None => {},
        }
        match port {
            Some(p) => {
                c.port = p;
            },
            None => {},
        }
        match uds_path {
            Some(u) => {
                c.uds_path = Some(u);
            },
            None => {},
        }
        c
    }

    /// The endpoints the server listens on, or the message that rejects an
    /// explicit `listen` entry whose scheme is neither `tcp://` nor `unix://`.
    pub fn listeners(&self) -> (r: Result<Vec<ListenEndpoint>, String>)
        ensures
            match r {
                Ok(v) => spec_listeners(
                    opt_chars(self.listen),
                    self.host@,
                    self.port,
                    opt_chars(self.uds_path),
                ) == Ok::<Seq<ListenEndpointView>, Seq<char>>(endpoints_view(v@)),
                Err(msg) => spec_listeners(
                    opt_chars(self.listen),
                    self.host@,
                    self.port,
                    opt_chars(self.uds_path),
                ) == Err::<Seq<ListenEndpointView>, Seq<char>>(msg@),
            },
    {
        proof {
            reveal_strlit("tcp://");
            reveal_strlit("unix://");
        }
        let mut listeners: Vec<ListenEndpoint> = Vec::new();
        match &self.listen {
            Some(listen) => {
                let l = listen.as_str();
                match strip_prefix(l, "tcp://") {
                    Some(addr) => {
                        listeners.push(ListenEndpoint::Tcp(String::from_str(addr)));
                    },
                    None => match strip_prefix(l, "unix://") {
                        Some(path) => {
                            listeners.push(ListenEndpoint::Unix(String::from_str(path)));
                        },
                        None => {
                            let mut msg = String::from_str("unsupported listen endpoint `");
                            msg.append(l);
                            msg.append("`");
                            return Err(msg);
                        },
                    },
                }
            },
            None => {
                listeners.push(ListenEndpoint::Tcp(format_host_port(self.host.as_str(), self.port)));
                match &self.uds_path {
                    Some(path) => {
                        listeners.push(ListenEndpoint::Unix(path.clone()));
                    },
                    None => {},
                }
            },
        }
        assert(endpoints_view(listeners@) =~= match spec_listeners(
            opt_chars(self.listen),
            self.host@,
            self.port,
            opt_chars(self.uds_path),
        ) {
            Ok(v) => v,
            Err(_) => Seq::empty(),
        });
        Ok(listeners)
    }
}

/// Where the server listens: an explicit `tcp://` or `unix://` entry gives
/// that one endpoint, its address or path as written; without one, TCP on
/// `host:port` (the port in decimal) and, when a socket path is set, that
/// Unix socket after it; an explicit entry of another scheme is refused with
/// a message naming it.
pub proof fn lemma_listen_endpoints(
    rest: Seq<char>,
    other: Seq<char>,
    host: Seq<char>,
    port: u16,
    uds: Option<Seq<char>>,
    path: Seq<char>,
)
    requires
        !has_prefix(other, "tcp://"@),
        !has_prefix(other, "unix://"@),
    ensures
        spec_listeners(Some("tcp://"@ + rest), host, port, uds) == Ok::<
            Seq<ListenEndpointView>,
            Seq<char>,
        >(seq![ListenEndpointView::Tcp(rest)]),
        spec_listeners(Some("unix://"@ + rest), host, port, uds) == Ok::<
            Seq<ListenEndpointView>,
            Seq<char>,
        >(seq![ListenEndpointView::Unix(rest)]),
        spec_listeners(Some(other), host, port, uds) == Err::<Seq<ListenEndpointView>, Seq<char>>(
            "unsupported listen endpoint `"@ + other + "`"@,
        ),
        spec_listeners(None, host, port, None) == Ok::<Seq<ListenEndpointView>, Seq<char>>(
            seq![ListenEndpointView::Tcp(host + seq![':'] + decimal(port as nat))],
        ),
        spec_listeners(None, host, port, Some(path)) == Ok::<Seq<ListenEndpointView>, Seq<char>>(
            seq![
                ListenEndpointView::Tcp(host + seq![':'] + decimal(port as nat)),
                ListenEndpointView::Unix(path),
            ],
        ),
{
    reveal_strlit("tcp://");
    reveal_strlit("unix://");
    lemma_has_prefix_splits(rest, "tcp://"@);
    lemma_has_prefix_splits(rest, "unix://"@);
    let t = "tcp://"@ + rest;
    let u = "unix://"@ + rest;
    assert(t.subrange(6, t.len() as int) =~= rest);
    assert(u.subrange(7, u.len() as int) =~= rest);
    assert(!has_prefix(u, "tcp://"@)) by {
        assert(u[0] == 'u');
        assert(u.subrange(0, 6)[0] != "tcp://"@[0]);
    }
}

} // verus!
