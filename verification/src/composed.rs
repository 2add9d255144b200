//! The dispatcher: from a parsed URL to the connector that reaches it and
//! the target that is dialled.

use vstd::prelude::*;
use crate::tcp_connector::TcpConnector;
use crate::text::{opt_view, owned};
use crate::tor_connector::{TorConnector, DEFAULT_TOR_SOCKET};
use crate::transport_url::{default_port, parse_spec, TransportUrl, TransportUrlView};
use crate::types::{ErrorView, Transport, TransportChain, TransportError};
use crate::unix_connector::{default_socket, socket_in_dir, UnixConnector};

verus! {

/// What the dispatcher is configured with.
#[derive(Debug, Clone)]
pub struct ComposedConfig {
    /// The directory in which a host has its socket unless the URL names one.
    pub socket_dir: Option<String>,
    /// The path of the anonymizing daemon's socket.
    pub tor_socket: Option<String>,
}

/// The mathematical value of a [`ComposedConfig`].
pub ghost struct ConfigView {
    pub socket_dir: Option<Seq<char>>,
    pub tor_socket: Option<Seq<char>>,
}

impl View for ComposedConfig {
    type V = ConfigView;

    open spec fn view(&self) -> ConfigView {
        ConfigView { socket_dir: opt_view(self.socket_dir), tor_socket: opt_view(self.tor_socket) }
    }
}

/// The configuration that a dispatcher has unless it is given another: the
/// default socket directory, and the daemon at its default path.
pub open spec fn default_config() -> ConfigView {
    ConfigView {
        socket_dir: Some("/tmp/servo-sockets"@),
        tor_socket: Some(DEFAULT_TOR_SOCKET@),
    }
}

impl Default for ComposedConfig {
    fn default() -> (r: Self)
        ensures
            r@ == default_config(),
    {
        ComposedConfig {
            socket_dir: Some(owned("/tmp/servo-sockets")),
            tor_socket: Some(owned(DEFAULT_TOR_SOCKET)),
        }
    }
}

/// A connector, of the kind that its transport asks for.
#[derive(Debug, Clone)]
pub enum ConnectorType {
    /// Dials a Unix domain socket.
    Unix(UnixConnector),
    /// Dials a host over TCP.
    Tcp(TcpConnector),
    /// Dials a host through the anonymizing daemon.
    Tor(TorConnector),
}

/// The mathematical value of a [`ConnectorType`]: its kind, and the path
/// that it is bound to.
pub ghost enum ConnectorView {
    Unix(Seq<char>),
    Tcp,
    Tor(Seq<char>),
}

impl View for ConnectorType {
    type V = ConnectorView;

    open spec fn view(&self) -> ConnectorView {
        match self {
            ConnectorType::Unix(c) => ConnectorView::Unix(c.path()),
            ConnectorType::Tcp(_) => ConnectorView::Tcp,
            ConnectorType::Tor(c) => ConnectorView::Tor(c.path()),
        }
    }
}

/// What is dialled for a URL.
#[derive(Debug, Clone, PartialEq, Eq)]
pub enum DialPlan {
    /// The socket at this path; host and port play no part.
    Unix { socket_path: String },
    /// This host and port, directly.
    Tcp { host: String, port: u16 },
    /// This host and port, through the daemon at this path.
    Tor { daemon: String, host: String, port: u16 },
}

/// The mathematical value of a [`DialPlan`].
pub ghost enum PlanView {
    Unix { socket_path: Seq<char> },
    Tcp { host: Seq<char>, port: u16 },
    Tor { daemon: Seq<char>, host: Seq<char>, port: u16 },
}

impl View for DialPlan {
    type V = PlanView;

    open spec fn view(&self) -> PlanView {
        match self {
            DialPlan::Unix { socket_path } => PlanView::Unix { socket_path: socket_path@ },
            DialPlan::Tcp { host, port } => PlanView::Tcp { host: host@, port: *port },
            DialPlan::Tor { daemon, host, port } => PlanView::Tor {
                daemon: daemon@,
                host: host@,
                port: *port,
            },
        }
    }
}

/// The connector for a URL under a configuration.
///
/// * Unix: bound to the socket path of the URL, else to `<host>.sock` in
///   the configured directory; with neither, no socket path is found.
/// * Tcp: always there.
/// * Tor: bound to the configured daemon path; without one, Tor is not
///   available.
/// * Named pipes, SSH and QUIC are not available.
pub open spec fn connector_spec(config: ConfigView, url: TransportUrlView) -> Result<
    ConnectorView,
    ErrorView,
> {
    match url.transport {
        Transport::Unix => match url.unix_socket_path {
            Some(p) => Ok(ConnectorView::Unix(p)),
            None => match (config.socket_dir, url.url.host) {
                (Some(d), Some(h)) => Ok(ConnectorView::Unix(socket_in_dir(d, h))),
                _ => Err(ErrorView::SocketPathNotFound),
            },
        },
        Transport::Tcp => Ok(ConnectorView::Tcp),
        Transport::Tor => match config.tor_socket {
            Some(p) => Ok(ConnectorView::Tor(p)),
            None => Err(ErrorView::TorNotAvailable),
        },
        Transport::NamedPipe => Err(ErrorView::NotAvailable("Named pipes not yet implemented"@)),
        Transport::Ssh => Err(ErrorView::NotAvailable("SSH tunnels not yet implemented"@)),
        Transport::Quic => Err(ErrorView::NotAvailable("QUIC not yet implemented"@)),
    }
}

/// The port that is dialled for a URL.
pub open spec fn dial_port(url: TransportUrlView) -> u16 {
    match url.url.port {
        Some(p) => p,
        None => default_port(url.url.scheme),
    }
}

/// What is dialled for a URL under a configuration: the connector's path
/// for Unix; host and port for Tcp and Tor, which need a host.
pub open spec fn plan_spec(config: ConfigView, url: TransportUrlView) -> Result<
    PlanView,
    ErrorView,
> {
    match connector_spec(config, url) {
        Err(e) => Err(e),
        Ok(ConnectorView::Unix(p)) => Ok(PlanView::Unix { socket_path: p }),
        Ok(ConnectorView::Tcp) => match url.url.host {
            Some(h) => Ok(PlanView::Tcp { host: h, port: dial_port(url) }),
            None => Err(ErrorView::InvalidUrl("No host"@)),
        },
        Ok(ConnectorView::Tor(d)) => match url.url.host {
            Some(h) => Ok(PlanView::Tor { daemon: d, host: h, port: dial_port(url) }),
            None => Err(ErrorView::InvalidUrl("No host"@)),
        },
    }
}

/// What is dialled for a text of the dialect under a configuration.
pub open spec fn plan_text_spec(config: ConfigView, text: Seq<char>) -> Result<PlanView, ErrorView> {
    match parse_spec(text) {
        Ok(u) => plan_spec(config, u),
        Err(e) => Err(e),
    }
}

/// `r`, seen through the views of its value and its error.
pub open spec fn plan_outcome(r: Result<DialPlan, TransportError>) -> Result<PlanView, ErrorView> {
    match r {
        Ok(p) => Ok(p@),
        Err(e) => Err(e@),
    }
}

/// `r`, seen through the views of its value and its error.
pub open spec fn connector_outcome(r: Result<ConnectorType, TransportError>) -> Result<
    ConnectorView,
    ErrorView,
> {
    match r {
        Ok(c) => Ok(c@),
        Err(e) => Err(e@),
    }
}

/// The dispatcher: it picks the connector that a URL's transport asks for.
#[derive(Debug, Clone)]
pub struct ComposedConnector {
    config: ComposedConfig,
}

impl ComposedConnector {
    /// The configuration of the dispatcher.
    pub closed spec fn settings(&self) -> ConfigView {
        self.config@
    }

    /// A dispatcher with the default configuration.
    pub fn new() -> (r: Self)
        ensures
            r.settings() == default_config(),
    {
        ComposedConnector { config: ComposedConfig::default() }
    }

    /// A dispatcher with the given configuration.
    pub fn with_config(config: ComposedConfig) -> (r: Self)
        ensures
            r.settings() == config@,
    {
        ComposedConnector { config }
    }

    /// A dispatcher for Unix sockets only, with `socket_path` as its
    /// directory.
    pub fn unix(socket_path: &str) -> (r: Self)
        ensures
            r.settings() == (ConfigView { socket_dir: Some(socket_path@), tor_socket: None }),
    {
        ComposedConnector {
            config: ComposedConfig { socket_dir: Some(owned(socket_path)), tor_socket: None },
        }
    }

    /// A dispatcher for Tor only, with the default daemon path.
    pub fn tor() -> (r: Self)
        ensures
            r.settings() == (ConfigView {
                socket_dir: None,
                tor_socket: Some(DEFAULT_TOR_SOCKET@),
            }),
    {
        ComposedConnector {
            config: ComposedConfig {
                socket_dir: None,
                tor_socket: Some(owned(DEFAULT_TOR_SOCKET)),
            },
        }
    }

    /// The configuration of the dispatcher.
    pub fn config(&self) -> (r: &ComposedConfig)
        ensures
            r@ == self.settings(),
    {
        &self.config
    }

    /// The connector that reaches a URL.
    pub fn connector_for_url(&self, url: &TransportUrl) -> (r: Result<
        ConnectorType,
        TransportError,
    >)
        ensures
            connector_outcome(r) == connector_spec(self.settings(), url@),
    {
        match url.transport() {
            Transport::Unix => {
                match url.unix_socket_path() {
                    Some(p) => Ok(ConnectorType::Unix(UnixConnector::new(p))),
                    None => match &self.config.socket_dir {
                        Some(dir) => match url.host_str() {
                            Some(h) => {
                                let path = default_socket(dir.as_str(), h);
                                Ok(ConnectorType::Unix(UnixConnector::new(path.as_str())))
                            },
                            None => Err(TransportError::SocketPathNotFound),
                        },
                        None => Err(TransportError::SocketPathNotFound),
                    },
                }
            },
            Transport::Tcp => Ok(ConnectorType::Tcp(TcpConnector::new())),
            Transport::Tor => match &self.config.tor_socket {
                Some(p) => Ok(ConnectorType::Tor(TorConnector::with_socket(p.as_str()))),
                None => Err(TransportError::TorNotAvailable),
            },
            Transport::NamedPipe => Err(
                TransportError::NotAvailable(owned("Named pipes not yet implemented")),
            ),
            Transport::Ssh => Err(
                TransportError::NotAvailable(owned("SSH tunnels not yet implemented")),
            ),
            Transport::Quic => Err(TransportError::NotAvailable(owned("QUIC not yet implemented"))),
        }
    }

    /// What is dialled for a parsed URL: the connector is picked, and for
    /// Tcp and Tor the host and the port, named or default, are added.
    pub fn plan_url(&self, url: &TransportUrl) -> (r: Result<DialPlan, TransportError>)
        ensures
            plan_outcome(r) == plan_spec(self.settings(), url@),
    {
        match self.connector_for_url(url) {
            Err(e) => Err(e),
            Ok(ConnectorType::Unix(c)) => Ok(
                DialPlan::Unix { socket_path: owned(c.socket_path()) },
            ),
            Ok(ConnectorType::Tcp(_)) => match url.host_str() {
                Some(h) => Ok(DialPlan::Tcp { host: owned(h), port: url.port_or_default() }),
                None => Err(TransportError::InvalidUrl(owned("No host"))),
            },
            Ok(ConnectorType::Tor(c)) => match url.host_str() {
                Some(h) => Ok(
                    DialPlan::Tor {
                        daemon: owned(c.socket_path()),
                        host: owned(h),
                        port: url.port_or_default(),
                    },
                ),
                None => Err(TransportError::InvalidUrl(owned("No host"))),
            },
        }
    }

    /// What is dialled for a text of the dialect.
    pub fn plan(&self, url_str: &str) -> (r: Result<DialPlan, TransportError>)
        ensures
            plan_outcome(r) == plan_text_spec(self.settings(), url_str@),
    {
        match TransportUrl::parse(url_str) {
            Ok(url) => self.plan_url(&url),
            Err(e) => Err(e),
        }
    }
}

impl Default for ComposedConnector {
    fn default() -> (r: Self)
        ensures
            r.settings() == default_config(),
    {
        ComposedConnector::new()
    }
}

/// Builds a chain of transports together with the configuration to dial
/// it with.
#[derive(Debug, Clone)]
pub struct TransportChainBuilder {
    transports: Vec<Transport>,
    config: ComposedConfig,
}

impl TransportChainBuilder {
    /// The transports added so far, outermost first.
    pub closed spec fn chain(&self) -> Seq<Transport> {
        self.transports@
    }

    /// The configuration set so far.
    pub closed spec fn settings(&self) -> ConfigView {
        self.config@
    }

    /// A builder with no transport and the default configuration.
    pub fn new() -> (r: Self)
        ensures
            r.chain() == Seq::<Transport>::empty(),
            r.settings() == default_config(),
    {
        TransportChainBuilder { transports: Vec::new(), config: ComposedConfig::default() }
    }

    /// Adds a transport at the inner end of the chain.
    pub fn add(self, transport: Transport) -> (r: Self)
        ensures
            r.chain() == self.chain().push(transport),
            r.settings() == self.settings(),
    {
        let mut r = self;
        r.transports.push(transport);
        r
    }

    /// Adds TCP.
    pub fn tcp(self) -> (r: Self)
        ensures
            r.chain() == self.chain().push(Transport::Tcp),
            r.settings() == self.settings(),
    {
        self.add(Transport::Tcp)
    }

    /// Adds a Unix socket.
    pub fn unix(self) -> (r: Self)
        ensures
            r.chain() == self.chain().push(Transport::Unix),
            r.settings() == self.settings(),
    {
        self.add(Transport::Unix)
    }

    /// Adds Tor.
    pub fn tor(self) -> (r: Self)
        ensures
            r.chain() == self.chain().push(Transport::Tor),
            r.settings() == self.settings(),
    {
        self.add(Transport::Tor)
    }

    /// Sets the socket directory.
    pub fn socket_dir(self, dir: &str) -> (r: Self)
        ensures
            r.chain() == self.chain(),
            r.settings() == (ConfigView { socket_dir: Some(dir@), ..self.settings() }),
    {
        let mut r = self;
        r.config.socket_dir = Some(owned(dir));
        r
    }

    /// Sets the path of the daemon's socket.
    pub fn tor_socket(self, path: &str) -> (r: Self)
        ensures
            r.chain() == self.chain(),
            r.settings() == (ConfigView { tor_socket: Some(path@), ..self.settings() }),
    {
        let mut r = self;
        r.config.tor_socket = Some(owned(path));
        r
    }

    /// The chain and the configuration.
    pub fn build(self) -> (r: (TransportChain, ComposedConfig))
        ensures
            r.0@ == self.chain(),
            r.1@ == self.settings(),
    {
        (TransportChain::new(self.transports), self.config)
    }
}

impl Default for TransportChainBuilder {
    fn default() -> (r: Self)
        ensures
            r.chain() == Seq::<Transport>::empty(),
            r.settings() == default_config(),
    {
        TransportChainBuilder::new()
    }
}

/// Without a daemon path, no URL that is reached over Tor can be dialled.
pub proof fn lemma_tor_needs_daemon(config: ConfigView, url: TransportUrlView)
    requires
        config.tor_socket is None,
        url.transport == Transport::Tor,
    ensures
        connector_spec(config, url) == Err::<ConnectorView, ErrorView>(ErrorView::TorNotAvailable),
        plan_spec(config, url) == Err::<PlanView, ErrorView>(ErrorView::TorNotAvailable),
{
}

/// What is dialled for a Unix URL does not depend on its host or port
/// where the URL names its socket.
pub proof fn lemma_unix_ignores_target(config: ConfigView, a: TransportUrlView, b: TransportUrlView)
    requires
        a.transport == Transport::Unix,
        b.transport == Transport::Unix,
        a.unix_socket_path is Some,
        a.unix_socket_path == b.unix_socket_path,
    ensures
        plan_spec(config, a) == plan_spec(config, b),
{
}

} // verus!
