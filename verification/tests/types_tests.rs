use rigging::types::{Transport, TransportChain, TransportError};

#[test]
fn test_transport_parse() {
    assert_eq!(Transport::from_str("tcp"), Some(Transport::Tcp));
    assert_eq!(Transport::from_str("unix"), Some(Transport::Unix));
    assert_eq!(Transport::from_str("UDS"), Some(Transport::Unix));
    assert_eq!(Transport::from_str("tor"), Some(Transport::Tor));
    assert_eq!(Transport::from_str("invalid"), None);
}

#[test]
fn test_transport_chain_parse() {
    let chain = TransportChain::parse("tor+unix").unwrap();
    assert_eq!(chain.len(), 2);
    assert_eq!(chain.first(), Some(&Transport::Tor));
    assert_eq!(chain.last(), Some(&Transport::Unix));
}

#[test]
fn test_transport_chain_display() {
    let chain = TransportChain::new(vec![Transport::Tor, Transport::Unix]);
    assert_eq!(chain.to_string(), "tor+unix");
}

#[test]
fn test_transport_is_local() {
    assert!(Transport::Unix.is_local());
    assert!(Transport::NamedPipe.is_local());
    assert!(!Transport::Tcp.is_local());
    assert!(!Transport::Tor.is_local());
}

#[test]
fn every_alias_resolves() {
    assert_eq!(Transport::from_str("tcp"), Some(Transport::Tcp));
    assert_eq!(Transport::from_str("unix"), Some(Transport::Unix));
    assert_eq!(Transport::from_str("uds"), Some(Transport::Unix));
    assert_eq!(Transport::from_str("pipe"), Some(Transport::NamedPipe));
    assert_eq!(Transport::from_str("namedpipe"), Some(Transport::NamedPipe));
    assert_eq!(Transport::from_str("tor"), Some(Transport::Tor));
    assert_eq!(Transport::from_str("onion"), Some(Transport::Tor));
    assert_eq!(Transport::from_str("ssh"), Some(Transport::Ssh));
    assert_eq!(Transport::from_str("quic"), Some(Transport::Quic));
    assert_eq!(Transport::from_str("http3"), Some(Transport::Quic));
}

#[test]
fn aliases_ignore_case() {
    assert_eq!(Transport::from_str("TCP"), Some(Transport::Tcp));
    assert_eq!(Transport::from_str("NamedPipe"), Some(Transport::NamedPipe));
    assert_eq!(Transport::from_str("oNiOn"), Some(Transport::Tor));
    assert_eq!(Transport::from_str("HTTP3"), Some(Transport::Quic));
}

#[test]
fn unknown_tokens_resolve_to_nothing() {
    assert_eq!(Transport::from_str(""), None);
    assert_eq!(Transport::from_str(" tcp"), None);
    assert_eq!(Transport::from_str("tcp "), None);
    assert_eq!(Transport::from_str("tcpx"), None);
    assert_eq!(Transport::from_str("tc"), None);
    assert_eq!(Transport::from_str("unix+tcp"), None);
}

#[test]
fn canonical_names_resolve_to_themselves() {
    let all = [
        Transport::Tcp,
        Transport::Unix,
        Transport::NamedPipe,
        Transport::Tor,
        Transport::Ssh,
        Transport::Quic,
    ];
    for t in all {
        assert_eq!(Transport::from_str(t.as_str()), Some(t));
        assert_eq!(t.to_string(), t.as_str());
    }
}

#[test]
fn names_and_flags() {
    assert_eq!(Transport::Tcp.as_str(), "tcp");
    assert_eq!(Transport::Unix.as_str(), "unix");
    assert_eq!(Transport::NamedPipe.as_str(), "pipe");
    assert_eq!(Transport::Tor.as_str(), "tor");
    assert_eq!(Transport::Ssh.as_str(), "ssh");
    assert_eq!(Transport::Quic.as_str(), "quic");
    assert_eq!(Transport::Tcp.display_name(), "TCP/IP");
    assert_eq!(Transport::Unix.display_name(), "Unix Socket");
    assert_eq!(Transport::NamedPipe.display_name(), "Named Pipe");
    assert_eq!(Transport::Tor.display_name(), "Tor Network");
    assert_eq!(Transport::Ssh.display_name(), "SSH Tunnel");
    assert_eq!(Transport::Quic.display_name(), "QUIC/HTTP3");
    assert!(Transport::Tor.is_anonymous());
    assert!(!Transport::Tcp.is_anonymous());
    assert!(!Transport::Unix.is_anonymous());
    assert!(!Transport::Ssh.is_local());
    assert!(!Transport::Quic.is_local());
    assert_eq!(Transport::default(), Transport::Tcp);
}

#[test]
fn chain_of_tor_then_unix() {
    let chain = TransportChain::parse("tor+unix").unwrap();
    assert_eq!(chain.len(), 2);
    assert_eq!(chain.first(), Some(&Transport::Tor));
    assert_eq!(chain.last(), Some(&Transport::Unix));
    assert_eq!(chain.to_string(), "tor+unix");
    assert_eq!(chain.transports(), &[Transport::Tor, Transport::Unix]);
}

#[test]
fn chain_segments_are_trimmed_and_folded() {
    let chain = TransportChain::parse(" SSH + tcp\t+uds ").unwrap();
    assert_eq!(chain.transports(), &[Transport::Ssh, Transport::Tcp, Transport::Unix]);
    assert_eq!(chain.to_string(), "ssh+tcp+unix");
}

#[test]
fn chain_fails_on_first_unknown_segment() {
    match TransportChain::parse("tor+ bogus +alsobad") {
        Err(TransportError::InvalidTransport(seg)) => assert_eq!(seg, " bogus "),
        other => panic!("unexpected: {:?}", other),
    }
    match TransportChain::parse("") {
        Err(TransportError::InvalidTransport(seg)) => assert_eq!(seg, ""),
        other => panic!("unexpected: {:?}", other),
    }
    match TransportChain::parse("tcp+") {
        Err(TransportError::InvalidTransport(seg)) => assert_eq!(seg, ""),
        other => panic!("unexpected: {:?}", other),
    }
}

#[test]
fn chain_constructors() {
    let empty = TransportChain::new(vec![]);
    assert!(empty.is_empty());
    assert_eq!(empty.len(), 0);
    assert_eq!(empty.first(), None);
    assert_eq!(empty.last(), None);
    assert_eq!(empty.to_string(), "");
    let one = TransportChain::single(Transport::Quic);
    assert!(!one.is_empty());
    assert_eq!(one.len(), 1);
    assert_eq!(one.first(), Some(&Transport::Quic));
    assert_eq!(one.last(), Some(&Transport::Quic));
    assert_eq!(one.to_string(), "quic");
    assert_eq!(TransportChain::default(), TransportChain::single(Transport::Tcp));
}

#[test]
fn chain_names_read_back() {
    let chains = [
        vec![Transport::Tcp],
        vec![Transport::Tor, Transport::Unix],
        vec![Transport::Ssh, Transport::NamedPipe, Transport::Quic, Transport::Tcp],
        vec![Transport::Unix, Transport::Unix],
    ];
    for transports in chains {
        let chain = TransportChain::new(transports.clone());
        let back = TransportChain::parse(&chain.to_string()).unwrap();
        assert_eq!(back.transports(), transports.as_slice());
        assert_eq!(back, chain);
    }
}
