use rigging::transport_url::{scheme_default_port, StandardUrl, TransportUrl};
use rigging::types::{Transport, TransportError};

#[test]
fn test_standard_url() {
    let url = TransportUrl::parse("https://example.com/path").unwrap();
    assert_eq!(url.transport(), Transport::Tcp);
    assert!(!url.is_explicit_transport());
    assert_eq!(url.host_str(), Some("example.com"));
}

#[test]
fn test_unix_socket_absolute() {
    let url = TransportUrl::parse("http::unix///tmp/app.sock/api/data").unwrap();
    assert_eq!(url.transport(), Transport::Unix);
    assert!(url.is_explicit_transport());
    assert_eq!(url.unix_socket_path(), Some("/tmp/app.sock"));
    assert_eq!(url.path(), "/api/data");
}

#[test]
fn test_unix_socket_relative() {
    let url = TransportUrl::parse("http::unix//var/run/app.sock").unwrap();
    assert_eq!(url.transport(), Transport::Unix);
    assert_eq!(url.unix_socket_path(), Some("var/run/app.sock"));
}

#[test]
fn test_https_downgrade_for_unix() {
    let url = TransportUrl::parse("https::unix///tmp/app.sock").unwrap();
    assert_eq!(url.scheme(), "http");
    assert_eq!(url.original_scheme(), "https");
}

#[test]
fn test_onion_auto_tor() {
    let url = TransportUrl::parse("http://example.onion/").unwrap();
    assert_eq!(url.transport(), Transport::Tor);
    assert!(!url.is_explicit_transport());
}

#[test]
fn test_explicit_tor() {
    let url = TransportUrl::parse("http::tor//example.com/").unwrap();
    assert_eq!(url.transport(), Transport::Tor);
    assert!(url.is_explicit_transport());
}

#[test]
fn test_explicit_tcp() {
    let url = TransportUrl::parse("http::tcp//localhost:8080/").unwrap();
    assert_eq!(url.transport(), Transport::Tcp);
    assert!(url.is_explicit_transport());
}

#[test]
fn test_is_local() {
    let unix = TransportUrl::parse("http::unix///tmp/app.sock").unwrap();
    assert!(unix.is_local());

    let tcp = TransportUrl::parse("http://example.com/").unwrap();
    assert!(!tcp.is_local());
}

#[test]
fn test_requires_tor() {
    let onion = TransportUrl::parse("http://example.onion/").unwrap();
    assert!(onion.requires_tor());

    let explicit_tor = TransportUrl::parse("http::tor//example.com/").unwrap();
    assert!(explicit_tor.requires_tor());

    let normal = TransportUrl::parse("http://example.com/").unwrap();
    assert!(!normal.requires_tor());
}

#[test]
fn parsing_twice_gives_the_same_fields() {
    for text in [
        "http::unix///tmp/app.sock/api/data",
        "https://example.com:8443/x?y=1",
        "http::tor//example.onion/",
        "ws::pipe//myapp/chat",
    ] {
        let a = TransportUrl::parse(text).unwrap();
        let b = TransportUrl::parse(text).unwrap();
        assert_eq!(a.transport(), b.transport());
        assert_eq!(a.host_str(), b.host_str());
        assert_eq!(a.path(), b.path());
        assert_eq!(a.unix_socket_path(), b.unix_socket_path());
        assert_eq!(a.named_pipe_path(), b.named_pipe_path());
        assert_eq!(a.url(), b.url());
        assert_eq!(a.to_string(), b.to_string());
    }
}

#[test]
fn marker_tokens_follow_the_alias_table() {
    let cases = [
        ("http::tcp//h/", Transport::Tcp),
        ("http::UNIX///a.sock", Transport::Unix),
        ("http::uds///a.sock", Transport::Unix),
        ("http::Pipe//name", Transport::NamedPipe),
        ("http::namedpipe//name", Transport::NamedPipe),
        ("http::TOR//h/", Transport::Tor),
        ("http::onion//h/", Transport::Tor),
        ("http::ssh//h/", Transport::Ssh),
        ("http::quic//h/", Transport::Quic),
        ("http::Http3//h/", Transport::Quic),
    ];
    for (text, transport) in cases {
        let url = TransportUrl::parse(text).unwrap();
        assert!(url.is_explicit_transport(), "{}", text);
        assert_eq!(url.transport(), transport, "{}", text);
    }
}

#[test]
fn unknown_marker_token_is_invalid_transport() {
    match TransportUrl::parse("http::carrier//example.com/") {
        Err(TransportError::InvalidTransport(t)) => assert_eq!(t, "carrier"),
        other => panic!("unexpected: {:?}", other),
    }
    match TransportUrl::parse("http:://example.com/") {
        Err(TransportError::InvalidTransport(t)) => assert_eq!(t, ""),
        other => panic!("unexpected: {:?}", other),
    }
}

#[test]
fn empty_or_unparseable_input_is_invalid_url() {
    assert!(matches!(TransportUrl::parse(""), Err(TransportError::InvalidUrl(_))));
    assert!(matches!(TransportUrl::parse("not a url"), Err(TransportError::InvalidUrl(_))));
    assert!(matches!(TransportUrl::parse("http::tcp//"), Err(TransportError::InvalidUrl(_))));
    assert!(matches!(TransportUrl::parse("http::tor//"), Err(TransportError::InvalidUrl(_))));
    match TransportUrl::parse("") {
        Err(TransportError::InvalidUrl(detail)) => {
            assert_eq!(detail, "relative URL without a base")
        }
        other => panic!("unexpected: {:?}", other),
    }
}

#[test]
fn plain_urls_are_tcp_unless_onion() {
    let url = TransportUrl::parse("https://example.com/a/b").unwrap();
    assert_eq!(url.transport(), Transport::Tcp);
    assert_eq!(url.scheme(), "https");
    assert_eq!(url.original_scheme(), "https");
    assert_eq!(url.path(), "/a/b");
    assert_eq!(url.as_str(), "https://example.com/a/b");
    assert_eq!(url.unix_socket_path(), None);
    assert_eq!(url.named_pipe_path(), None);
    assert_eq!(url.to_string(), "https://example.com/a/b");

    let onion = TransportUrl::parse("https://abc.onion:8443/").unwrap();
    assert_eq!(onion.transport(), Transport::Tor);
    assert!(!onion.is_explicit_transport());
    assert_eq!(onion.port(), Some(8443));

    let near = TransportUrl::parse("http://onion/").unwrap();
    assert_eq!(near.transport(), Transport::Tcp);
}

#[test]
fn unix_remainder_is_cut_behind_the_first_marker() {
    let url = TransportUrl::parse("http::unix///tmp/app.socket/api").unwrap();
    assert_eq!(url.unix_socket_path(), Some("/tmp/app.socket"));
    assert_eq!(url.host_str(), Some("localhost"));
    assert_eq!(url.path(), "/api");

    let url = TransportUrl::parse("http::unix///run/a.socket").unwrap();
    assert_eq!(url.unix_socket_path(), Some("/run/a.socket"));
    assert_eq!(url.path(), "/");

    let url = TransportUrl::parse("http::unix///run/a.sockets/x").unwrap();
    assert_eq!(url.unix_socket_path(), Some("/run/a.socket"));
    assert_eq!(url.host_str(), Some("localhosts"));
    assert_eq!(url.path(), "/x");

    let url = TransportUrl::parse("http::unix///run/a.sock/x").unwrap();
    assert_eq!(url.unix_socket_path(), Some("/run/a.sock"));
    assert_eq!(url.path(), "/x");

    let url = TransportUrl::parse("http::unix///run/a.sk/x/y").unwrap();
    assert_eq!(url.unix_socket_path(), Some("/run/a.sk"));
    assert_eq!(url.path(), "/x/y");

    let url = TransportUrl::parse("http::unix///run/a.sk/b.sock/z").unwrap();
    assert_eq!(url.unix_socket_path(), Some("/run/a.sk"));
    assert_eq!(url.path(), "/b.sock/z");

    let url = TransportUrl::parse("http::unix///run/a.sock/b.sk/z").unwrap();
    assert_eq!(url.unix_socket_path(), Some("/run/a.sock"));
    assert_eq!(url.path(), "/b.sk/z");

    let url = TransportUrl::parse("http::unix///run/plain").unwrap();
    assert_eq!(url.unix_socket_path(), Some("/run/plain"));
    assert_eq!(url.path(), "/");

    let url = TransportUrl::parse("http::unix///").unwrap();
    assert_eq!(url.unix_socket_path(), Some("/"));
    assert_eq!(url.path(), "/");
    assert_eq!(url.host_str(), Some("localhost"));
}

#[test]
fn empty_remainder_is_invalid_url() {
    for text in ["http::unix//", "http::pipe//", "http::tcp//", "http::tor//", "foo::ssh//"] {
        match TransportUrl::parse(text) {
            Err(TransportError::InvalidUrl(detail)) => assert_eq!(detail, "empty remainder"),
            other => panic!("unexpected for {}: {:?}", text, other),
        }
    }
    assert!(matches!(
        TransportUrl::parse_unix_url("http", ""),
        Err(TransportError::InvalidUrl(_))
    ));
    assert!(matches!(
        TransportUrl::parse_named_pipe_url("http", ""),
        Err(TransportError::InvalidUrl(_))
    ));
    assert!(matches!(TransportUrl::parse_tor_url("http", ""), Err(TransportError::InvalidUrl(_))));
    assert!(matches!(
        TransportUrl::parse_with_transport("http", Transport::Quic, ""),
        Err(TransportError::InvalidUrl(_))
    ));
    assert!(matches!(
        TransportUrl::parse("http::tcp//exa mple.com/"),
        Err(TransportError::InvalidUrl(_))
    ));
}

#[test]
fn extract_socket_path_loses_nothing() {
    for rest in ["/tmp/app.sock/api/data", "var/run/app.sock", "/a.socket", "/x.sk?q", "/none", ""] {
        let (socket, path) = TransportUrl::extract_socket_path(rest);
        let joined = format!("{}{}", socket, path);
        assert!(joined == rest || (socket == rest && path == "/"), "{}", rest);
    }
    assert_eq!(
        TransportUrl::extract_socket_path("/tmp/app.sock/api/data"),
        ("/tmp/app.sock".to_string(), "/api/data".to_string())
    );
    assert_eq!(
        TransportUrl::extract_socket_path("/tmp/app.sock"),
        ("/tmp/app.sock".to_string(), "/".to_string())
    );
    assert_eq!(
        TransportUrl::extract_socket_path("/tmp/app.socket/api"),
        ("/tmp/app.socket".to_string(), "/api".to_string())
    );
    assert_eq!(
        TransportUrl::extract_socket_path("/tmp/app.socke/api"),
        ("/tmp/app.sock".to_string(), "e/api".to_string())
    );
    assert_eq!(
        TransportUrl::extract_socket_path("a.sk.sock"),
        ("a.sk".to_string(), ".sock".to_string())
    );
    assert_eq!(
        TransportUrl::extract_socket_path(".s.so.soc"),
        (".s.so.soc".to_string(), "/".to_string())
    );
}

#[test]
fn schemes_are_downgraded_only_for_local_transports() {
    let url = TransportUrl::parse("wss::unix///tmp/app.sock/chat").unwrap();
    assert_eq!(url.scheme(), "ws");
    assert_eq!(url.original_scheme(), "wss");

    let url = TransportUrl::parse("https::pipe//myapp/x").unwrap();
    assert_eq!(url.scheme(), "http");
    assert_eq!(url.original_scheme(), "https");

    let url = TransportUrl::parse("http::unix///tmp/app.sock").unwrap();
    assert_eq!(url.scheme(), "http");
    assert_eq!(url.original_scheme(), "http");

    for text in ["https::tcp//example.com/", "https::tor//example.onion/", "wss::ssh//h/"] {
        let url = TransportUrl::parse(text).unwrap();
        assert_eq!(url.scheme(), url.original_scheme(), "{}", text);
    }
}

#[test]
fn default_ports() {
    assert_eq!(TransportUrl::parse("https://example.com/").unwrap().port_or_default(), 443);
    assert_eq!(TransportUrl::parse("wss://example.com/").unwrap().port_or_default(), 443);
    assert_eq!(TransportUrl::parse("http://example.com/").unwrap().port_or_default(), 80);
    assert_eq!(TransportUrl::parse("ws://example.com/").unwrap().port_or_default(), 80);
    assert_eq!(TransportUrl::parse("ftp://example.com/").unwrap().port_or_default(), 80);
    assert_eq!(TransportUrl::parse("gopher::tcp//example.com/").unwrap().port_or_default(), 80);
    assert_eq!(TransportUrl::parse("http://example.com:8080/").unwrap().port_or_default(), 8080);
    assert_eq!(TransportUrl::parse("http::tcp//localhost:8080/").unwrap().port(), Some(8080));
    assert_eq!(TransportUrl::parse("https://example.com/").unwrap().port(), None);
    assert_eq!(scheme_default_port("https"), 443);
    assert_eq!(scheme_default_port("wss"), 443);
    assert_eq!(scheme_default_port("http"), 80);
    assert_eq!(scheme_default_port("HTTPS"), 80);
    assert_eq!(scheme_default_port(""), 80);
}

#[test]
fn named_pipe_remainders() {
    let url = TransportUrl::parse("http::pipe//myapp/api/v1").unwrap();
    assert_eq!(url.transport(), Transport::NamedPipe);
    assert_eq!(url.named_pipe_path(), Some("\\\\.\\pipe\\myapp"));
    assert_eq!(url.path(), "/api/v1");
    assert!(url.is_local());

    let url = TransportUrl::parse("http::pipe//myapp").unwrap();
    assert_eq!(url.named_pipe_path(), Some("\\\\.\\pipe\\myapp"));
    assert_eq!(url.path(), "/");

    let url = TransportUrl::parse("http::pipe//\\\\.\\pipe\\svc").unwrap();
    assert_eq!(url.named_pipe_path(), Some("\\\\.\\pipe\\svc"));
    assert_eq!(url.path(), "/");
}

#[test]
fn rendering_rebuilds_the_dialect() {
    for text in [
        "http::unix///tmp/app.sock/api/data",
        "http::tcp//localhost:8080/",
        "http::tor//example.onion/",
        "https://example.com/path",
    ] {
        assert_eq!(TransportUrl::parse(text).unwrap().to_string(), text);
    }
    let url = TransportUrl::parse("https::unix//var/run/app.sock").unwrap();
    assert_eq!(url.to_string(), "https::unix//var/run/app.sock/");
    let url = TransportUrl::parse("http::uds///tmp/app.sock/x").unwrap();
    assert_eq!(url.to_string(), "http::unix///tmp/app.sock/x");
}

#[test]
fn only_the_first_double_slash_and_marker_count() {
    let url = TransportUrl::parse("http::tcp//example.com/a//b::c").unwrap();
    assert_eq!(url.transport(), Transport::Tcp);
    assert_eq!(url.path(), "/a//b::c");

    let url = TransportUrl::parse("http://example.com/a::unix//b").unwrap();
    assert!(!url.is_explicit_transport());
    assert_eq!(url.transport(), Transport::Tcp);
}

fn standard(scheme: &str, host: Option<&str>, port: Option<u16>, path: &str) -> StandardUrl {
    let authority = match (host, port) {
        (Some(h), Some(p)) => format!("{}:{}", h, p),
        (Some(h), None) => h.to_string(),
        (None, _) => String::new(),
    };
    StandardUrl {
        scheme: scheme.to_string(),
        host: host.map(|h| h.to_string()),
        port,
        path: path.to_string(),
        text: format!("{}://{}{}", scheme, authority, path),
    }
}

#[test]
fn plain_urls_from_their_parts() {
    let url = TransportUrl::from_plain(Ok(standard("http", Some("abc.onion"), None, "/"))).unwrap();
    assert_eq!(url.transport(), Transport::Tor);
    assert!(!url.is_explicit_transport());
    assert!(url.requires_tor());
    assert_eq!(url.original_scheme(), "http");
    assert_eq!(url.unix_socket_path(), None);
    assert_eq!(url.named_pipe_path(), None);
    assert_eq!(url.to_string(), "http://abc.onion/");

    let url = TransportUrl::from_plain(Ok(standard("wss", Some("onion"), Some(9), "/x"))).unwrap();
    assert_eq!(url.transport(), Transport::Tcp);
    assert!(!url.requires_tor());
    assert_eq!(url.port_or_default(), 9);
    assert_eq!(url.url(), &standard("wss", Some("onion"), Some(9), "/x"));

    let url = TransportUrl::from_plain(Ok(standard("data", None, None, "x"))).unwrap();
    assert_eq!(url.transport(), Transport::Tcp);
    assert_eq!(url.host_str(), None);

    match TransportUrl::from_plain(Err("empty host".to_string())) {
        Err(TransportError::InvalidUrl(detail)) => assert_eq!(detail, "empty host"),
        other => panic!("unexpected: {:?}", other),
    }
}

#[test]
fn marked_urls_from_their_parts() {
    let url = TransportUrl::from_marked(
        Ok(standard("http", Some("localhost"), None, "/api")),
        "https",
        Transport::Unix,
        Some("/tmp/app.sock".to_string()),
        None,
    )
    .unwrap();
    assert_eq!(url.transport(), Transport::Unix);
    assert!(url.is_explicit_transport());
    assert!(url.is_local());
    assert_eq!(url.scheme(), "http");
    assert_eq!(url.original_scheme(), "https");
    assert_eq!(url.unix_socket_path(), Some("/tmp/app.sock"));
    assert_eq!(url.to_string(), "https::unix///tmp/app.sock/api");

    let url = TransportUrl::from_marked(
        Ok(standard("http", Some("x.onion"), None, "/")),
        "http",
        Transport::Tcp,
        None,
        None,
    )
    .unwrap();
    assert_eq!(url.transport(), Transport::Tcp);
    assert!(url.requires_tor());
    assert_eq!(url.to_string(), "http::tcp//x.onion/");

    let url = TransportUrl::from_marked(
        Ok(standard("http", Some("localhost"), None, "/")),
        "http",
        Transport::NamedPipe,
        None,
        Some("\\\\.\\pipe\\svc".to_string()),
    )
    .unwrap();
    assert_eq!(url.to_string(), "http::pipe//\\\\.\\pipe\\svc/");

    match TransportUrl::from_marked(Err("bad".to_string()), "http", Transport::Quic, None, None) {
        Err(TransportError::InvalidUrl(detail)) => assert_eq!(detail, "bad"),
        other => panic!("unexpected: {:?}", other),
    }
}

#[test]
fn plain_logical_paths_are_kept_as_written() {
    for (scheme, resolved) in [("http", "http"), ("https", "http"), ("ws", "ws"), ("wss", "ws")] {
        for (rest, socket, path) in [
            ("/tmp/app.sock/api/data", "/tmp/app.sock", "/api/data"),
            ("var/run/app.socket/A-b_9//c/", "var/run/app.socket", "/A-b_9//c/"),
            ("x.sk/", "x.sk", "/"),
            ("/tmp/app.sock", "/tmp/app.sock", "/"),
            ("/tmp/none", "/tmp/none", "/"),
        ] {
            let text = format!("{}::unix//{}", scheme, rest);
            let url = TransportUrl::parse(&text).unwrap();
            assert_eq!(url.unix_socket_path(), Some(socket), "{}", text);
            assert_eq!(url.path(), path, "{}", text);
            assert_eq!(url.host_str(), Some("localhost"), "{}", text);
            assert_eq!(url.port(), None, "{}", text);
            assert_eq!(url.scheme(), resolved, "{}", text);
            assert_eq!(url.original_scheme(), scheme, "{}", text);
            assert_eq!(url.as_str(), format!("{}://localhost{}", resolved, path), "{}", text);
            let joined = format!("{}{}", socket, path);
            assert!(joined == rest || (socket == rest && path == "/"), "{}", text);
        }
    }
}

#[test]
fn resolved_schemes_are_lower_case() {
    for (text, scheme, original) in [
        ("HTTP::tcp//example.com/", "http", "HTTP"),
        ("HTTPS::tcp//example.com/", "https", "HTTPS"),
        ("https::tcp//example.com/", "https", "https"),
        ("https::tor//example.onion/", "https", "https"),
        ("foo+bar::ssh//h/", "foo+bar", "foo+bar"),
        ("HTTPS://example.com/", "https", "https"),
        ("wss://example.com/", "wss", "wss"),
    ] {
        let url = TransportUrl::parse(text).unwrap();
        assert_eq!(url.scheme(), scheme, "{}", text);
        assert_eq!(url.original_scheme(), original, "{}", text);
    }
}
