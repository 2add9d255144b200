use rigging::composed::{
    ComposedConfig, ComposedConnector, ConnectorType, DialPlan, TransportChainBuilder,
};
use rigging::transport_url::TransportUrl;
use rigging::types::{Transport, TransportError};

#[test]
fn test_composed_connector_default() {
    let connector = ComposedConnector::new();
    assert!(connector.config().socket_dir.is_some());
}

#[test]
fn test_transport_chain_builder() {
    let (chain, _config) =
        TransportChainBuilder::new().tor().unix().socket_dir("/tmp/sockets").build();

    assert_eq!(chain.len(), 2);
    assert_eq!(chain.first(), Some(&Transport::Tor));
    assert_eq!(chain.last(), Some(&Transport::Unix));
}

#[test]
fn tor_without_daemon_path_is_not_available() {
    let connector = ComposedConnector::with_config(ComposedConfig {
        socket_dir: Some("/tmp/servo-sockets".to_string()),
        tor_socket: None,
    });
    assert!(matches!(
        connector.plan("http::tor//example.onion/"),
        Err(TransportError::TorNotAvailable)
    ));
    assert!(matches!(
        connector.plan("http://example.onion/"),
        Err(TransportError::TorNotAvailable)
    ));
    let url = TransportUrl::parse("http::tor//example.com/").unwrap();
    assert!(matches!(connector.connector_for_url(&url), Err(TransportError::TorNotAvailable)));
    assert!(matches!(
        ComposedConnector::unix("/tmp/s").plan("http::tor//example.com/"),
        Err(TransportError::TorNotAvailable)
    ));
}

#[test]
fn default_configuration() {
    let config = ComposedConfig::default();
    assert_eq!(config.socket_dir.as_deref(), Some("/tmp/servo-sockets"));
    assert_eq!(config.tor_socket.as_deref(), Some("/tmp/servo-sockets/corsair.sock"));
    let tor = ComposedConnector::tor();
    assert_eq!(tor.config().socket_dir, None);
    assert_eq!(tor.config().tor_socket.as_deref(), Some("/tmp/servo-sockets/corsair.sock"));
    let unix = ComposedConnector::unix("/run/socks");
    assert_eq!(unix.config().socket_dir.as_deref(), Some("/run/socks"));
    assert_eq!(unix.config().tor_socket, None);
    assert_eq!(
        ComposedConnector::default().config().socket_dir,
        ComposedConnector::new().config().socket_dir
    );
}

#[test]
fn connectors_follow_the_transport() {
    let connector = ComposedConnector::new();
    let url = TransportUrl::parse("http::unix///tmp/app.sock/api").unwrap();
    match connector.connector_for_url(&url) {
        Ok(ConnectorType::Unix(c)) => assert_eq!(c.socket_path(), "/tmp/app.sock"),
        other => panic!("unexpected: {:?}", other),
    }
    let url = TransportUrl::parse("https://example.com/").unwrap();
    assert!(matches!(connector.connector_for_url(&url), Ok(ConnectorType::Tcp(_))));
    let url = TransportUrl::parse("http::tor//example.com/").unwrap();
    match connector.connector_for_url(&url) {
        Ok(ConnectorType::Tor(c)) => assert_eq!(c.socket_path(), "/tmp/servo-sockets/corsair.sock"),
        other => panic!("unexpected: {:?}", other),
    }
}

#[test]
fn unimplemented_transports_are_not_available() {
    let connector = ComposedConnector::new();
    match connector.plan("http::pipe//myapp/") {
        Err(TransportError::NotAvailable(what)) => {
            assert_eq!(what, "Named pipes not yet implemented")
        }
        other => panic!("unexpected: {:?}", other),
    }
    match connector.plan("http::ssh//example.com/") {
        Err(TransportError::NotAvailable(what)) => {
            assert_eq!(what, "SSH tunnels not yet implemented")
        }
        other => panic!("unexpected: {:?}", other),
    }
    match connector.plan("http::quic//example.com/") {
        Err(TransportError::NotAvailable(what)) => assert_eq!(what, "QUIC not yet implemented"),
        other => panic!("unexpected: {:?}", other),
    }
}

#[test]
fn plans_name_what_is_dialled() {
    let connector = ComposedConnector::new();
    assert_eq!(
        connector.plan("http::unix///tmp/app.sock/api").unwrap(),
        DialPlan::Unix { socket_path: "/tmp/app.sock".to_string() }
    );
    assert_eq!(
        connector.plan("https://example.com/x").unwrap(),
        DialPlan::Tcp { host: "example.com".to_string(), port: 443 }
    );
    assert_eq!(
        connector.plan("http::tcp//localhost:8080/").unwrap(),
        DialPlan::Tcp { host: "localhost".to_string(), port: 8080 }
    );
    assert_eq!(
        connector.plan("http::tor//example.onion/").unwrap(),
        DialPlan::Tor {
            daemon: "/tmp/servo-sockets/corsair.sock".to_string(),
            host: "example.onion".to_string(),
            port: 80
        }
    );
}

#[test]
fn plans_pass_parse_errors_on() {
    let connector = ComposedConnector::new();
    assert!(matches!(connector.plan(""), Err(TransportError::InvalidUrl(_))));
    match connector.plan("http::warp//example.com/") {
        Err(TransportError::InvalidTransport(t)) => assert_eq!(t, "warp"),
        other => panic!("unexpected: {:?}", other),
    }
}

#[test]
fn plans_without_host_are_invalid() {
    let connector = ComposedConnector::new();
    match connector.plan("data:text/plain,hello") {
        Err(TransportError::InvalidUrl(detail)) => assert_eq!(detail, "No host"),
        other => panic!("unexpected: {:?}", other),
    }
}

#[test]
fn builder_collects_chain_and_configuration() {
    let (chain, config) = TransportChainBuilder::new()
        .tcp()
        .add(Transport::Ssh)
        .tor_socket("/run/daemon.sock")
        .socket_dir("/run/socks")
        .build();
    assert_eq!(chain.transports(), &[Transport::Tcp, Transport::Ssh]);
    assert_eq!(config.socket_dir.as_deref(), Some("/run/socks"));
    assert_eq!(config.tor_socket.as_deref(), Some("/run/daemon.sock"));
    let (chain, config) = TransportChainBuilder::default().build();
    assert!(chain.is_empty());
    assert_eq!(config.socket_dir.as_deref(), Some("/tmp/servo-sockets"));
}

#[test]
fn the_crate_root_names_the_main_types() {
    let url = rigging::TransportUrl::parse("http::unix///tmp/app.sock/api").unwrap();
    assert_eq!(url.transport(), rigging::Transport::Unix);
    assert_eq!(url.unix_socket_path(), Some("/tmp/app.sock"));
    assert_eq!(rigging::UnixConnector::new("/tmp/app.sock").socket_path(), "/tmp/app.sock");
    assert!(rigging::TransportChain::parse("tcp").is_ok());
    assert!(matches!(
        rigging::TransportChain::parse("x"),
        Err(rigging::TransportError::InvalidTransport(_))
    ));
}
