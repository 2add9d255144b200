//! The URL dialect: `<scheme>::<transport>//<remainder>`, or a plain
//! absolute URL.

use vstd::prelude::*;
use crate::text::{
    ascii_lowercase, chars_of, concat2, concat3, ends_with, find, find_chars, has_prefix,
    has_suffix, lemma_find, lemma_find_char, matches_at, occurs_at, opt_view, owned, same_text,
    slice_string, starts_with, sub_chars,
};
use crate::types::{resolve, resolve_alias, ErrorView, Transport, TransportError};

verus! {

/// What this crate reads of a standard absolute URL.
#[derive(Debug, Clone, PartialEq, Eq)]
pub struct StandardUrl {
    /// The scheme, in lower case.
    pub scheme: String,
    /// The host, if the URL has one.
    pub host: Option<String>,
    /// The port, if the URL names one that is not its scheme's default.
    pub port: Option<u16>,
    /// The path.
    pub path: String,
    /// The whole URL, serialized.
    pub text: String,
}

/// The mathematical value of a [`StandardUrl`].
pub ghost struct StandardUrlView {
    pub scheme: Seq<char>,
    pub host: Option<Seq<char>>,
    pub port: Option<u16>,
    pub path: Seq<char>,
    pub text: Seq<char>,
}

impl View for StandardUrl {
    type V = StandardUrlView;

    open spec fn view(&self) -> StandardUrlView {
        StandardUrlView {
            scheme: self.scheme@,
            host: match self.host {
                Some(h) => Some(h@),
                None => None,
            },
            port: self.port,
            path: self.path@,
            text: self.text@,
        }
    }
}

/// What the `url` crate's parser makes of a text: the parts of the URL, or
/// the message of its error.
pub uninterp spec fn standard_url(text: Seq<char>) -> Result<StandardUrlView, Seq<char>>;

/// A character that may stand in a scheme: an ASCII letter or digit, `+`,
/// `-` or `.`.
pub open spec fn is_scheme_char(c: char) -> bool {
    ('a' <= c && c <= 'z') || ('A' <= c && c <= 'Z') || ('0' <= c && c <= '9') || c == '+' || c
        == '-' || c == '.'
}

/// A text that is not empty and holds scheme characters only.
pub open spec fn is_scheme_text(s: Seq<char>) -> bool {
    s.len() > 0 && forall|j: int| 0 <= j < s.len() ==> is_scheme_char(#[trigger] s[j])
}

/// `scheme` is the scheme of a URL parsed from `text`: where scheme
/// characters alone stand before the first `:` of the text, the scheme is
/// that part in lower case.
pub open spec fn scheme_follows(text: Seq<char>, scheme: Seq<char>) -> bool {
    match find(text, ":"@) {
        Some(i) => is_scheme_text(text.subrange(0, i)) ==> scheme == ascii_lowercase(
            text.subrange(0, i),
        ),
        None => true,
    }
}

/// A character of a plain path: an ASCII letter or digit, `/`, `-` or `_`.
pub open spec fn is_plain_path_char(c: char) -> bool {
    ('a' <= c && c <= 'z') || ('A' <= c && c <= 'Z') || ('0' <= c && c <= '9') || c == '/' || c
        == '-' || c == '_'
}

/// A path that begins with `/` and holds plain characters only: nothing
/// in it is escaped, resolved or cut off when a URL is parsed.
pub open spec fn is_plain_path(p: Seq<char>) -> bool {
    p.len() > 0 && p[0] == '/' && forall|j: int|
        0 <= j < p.len() ==> is_plain_path_char(#[trigger] p[j])
}

/// The text of a URL on the local host: `<scheme>://localhost<path>`.
pub open spec fn local_endpoint(scheme: Seq<char>, path: Seq<char>) -> Seq<char> {
    scheme + "://localhost"@ + path
}

/// The parts of the URL `<scheme>://localhost<path>` as they are written.
pub open spec fn local_url(scheme: Seq<char>, path: Seq<char>) -> StandardUrlView {
    StandardUrlView {
        scheme,
        host: Some("localhost"@),
        port: None,
        path,
        text: local_endpoint(scheme, path),
    }
}

/// `parsed` is what the parser makes of `text` where `text` is a URL on
/// the local host with the scheme `http` or `ws` and a plain path: the
/// URL is accepted, and its parts are as they are written.
pub open spec fn local_endpoint_follows(
    text: Seq<char>,
    parsed: Result<StandardUrlView, Seq<char>>,
) -> bool {
    forall|scheme: Seq<char>, path: Seq<char>|
        text == #[trigger] local_endpoint(scheme, path) && (scheme == "http"@ || scheme == "ws"@)
            && is_plain_path(path) ==> parsed == Ok::<StandardUrlView, Seq<char>>(
            local_url(scheme, path),
        )
}

/// Calls `url::Url::parse` and copies out the scheme, host, port, path and
/// serialization of the URL, or the text of the parser's error. The
/// contract gives the outcome its name, [`standard_url`], and says two
/// things of what the parser does:
///
/// * the scheme characters that stand before the first `:` are the
///   scheme, in lower case;
/// * `http://localhost<path>` and `ws://localhost<path>` with a plain
///   path are accepted and kept as they are written: the host is
///   `localhost`, no port is named, and the path is the path.
#[verifier::external_body]
fn parse_standard(text: &str) -> (r: Result<StandardUrl, String>)
    ensures
        match r {
            Ok(u) => standard_url(text@) == Ok::<StandardUrlView, Seq<char>>(u@),
            Err(e) => standard_url(text@) == Err::<StandardUrlView, Seq<char>>(e@),
        },
        r is Ok ==> scheme_follows(text@, r->Ok_0.scheme@),
        local_endpoint_follows(text@, parsed_view(r)),
{
    match url::Url::parse(text) {
        Ok(u) => Ok(
            StandardUrl {
                scheme: u.scheme().to_string(),
                host: u.host_str().map(String::from),
                port: u.port(),
                path: u.path().to_string(),
                text: u.as_str().to_string(),
            },
        ),
        Err(e) => Err(e.to_string()),
    }
}

/// The mathematical value of a [`TransportUrl`].
pub ghost struct TransportUrlView {
    pub url: StandardUrlView,
    pub transport: Transport,
    pub original_scheme: Seq<char>,
    pub explicit: bool,
    pub unix_socket_path: Option<Seq<char>>,
    pub named_pipe_path: Option<Seq<char>>,
}

/// The scheme, transport token and remainder of a text with a
/// `::<transport>` marker: the text is cut at its first `//`, and what
/// stands before is cut at its first `::`.
pub open spec fn split_marker(text: Seq<char>) -> Option<(Seq<char>, Seq<char>, Seq<char>)> {
    match find(text, "//"@) {
        Some(i) => {
            let head = text.subrange(0, i);
            match find(head, "::"@) {
                Some(j) => Some(
                    (
                        head.subrange(0, j),
                        head.subrange(j + 2, head.len() as int),
                        text.subrange(i + 2, text.len() as int),
                    ),
                ),
                None => None,
            }
        },
        None => None,
    }
}

/// The length of the marker that stands in `rest` at index `i`: of
/// `.socket`, `.sock` and `.sk`, the longest that stands there.
pub open spec fn marker_len_at(rest: Seq<char>, i: int) -> Option<int> {
    if occurs_at(rest, ".socket"@, i) {
        Some(".socket"@.len() as int)
    } else if occurs_at(rest, ".sock"@, i) {
        Some(".sock"@.len() as int)
    } else if occurs_at(rest, ".sk"@, i) {
        Some(".sk"@.len() as int)
    } else {
        None
    }
}

/// The least index at or after `from` at which a marker stands.
pub open spec fn first_marker_from(rest: Seq<char>, from: int) -> Option<int>
    decreases rest.len() - from,
{
    if from < 0 || from >= rest.len() {
        None
    } else if marker_len_at(rest, from) is Some {
        Some(from)
    } else {
        first_marker_from(rest, from + 1)
    }
}

/// Where the socket path ends in the remainder of a Unix URL: behind the
/// marker at the first index at which one stands.
pub open spec fn socket_end(rest: Seq<char>) -> Option<int> {
    match first_marker_from(rest, 0) {
        Some(i) => Some(i + marker_len_at(rest, i)->0),
        None => None,
    }
}

/// `first_marker_from` gives the least index at which a marker stands,
/// and none only where no marker stands at all.
pub proof fn lemma_first_marker(rest: Seq<char>, from: int)
    requires
        0 <= from,
    ensures
        match first_marker_from(rest, from) {
            Some(i) => from <= i < rest.len() && marker_len_at(rest, i) is Some && forall|j: int|
                from <= j < i ==> marker_len_at(rest, j) is None,
            None => forall|j: int| from <= j ==> marker_len_at(rest, j) is None,
        },
    decreases rest.len() - from,
{
    reveal_strlit(".socket");
    reveal_strlit(".sock");
    reveal_strlit(".sk");
    if from < rest.len() && marker_len_at(rest, from) is None {
        lemma_first_marker(rest, from + 1);
    }
}

/// The socket path ends inside the remainder, behind at least one
/// character.
pub proof fn lemma_socket_end_bounds(rest: Seq<char>)
    ensures
        socket_end(rest) is Some ==> 0 < socket_end(rest)->0 <= rest.len(),
{
    lemma_first_marker(rest, 0);
    reveal_strlit(".socket");
    reveal_strlit(".sock");
    reveal_strlit(".sk");
}

/// The socket path of a Unix remainder.
pub open spec fn socket_part(rest: Seq<char>) -> Seq<char> {
    match socket_end(rest) {
        Some(e) => rest.subrange(0, e),
        None => rest,
    }
}

/// The logical path of a Unix remainder: what follows the socket path, or
/// `/` where nothing does.
pub open spec fn logical_part(rest: Seq<char>) -> Seq<char> {
    match socket_end(rest) {
        Some(e) => if e < rest.len() {
            rest.subrange(e, rest.len() as int)
        } else {
            "/"@
        },
        None => "/"@,
    }
}

/// The canonical prefix of a pipe path.
pub open spec fn pipe_prefix() -> Seq<char> {
    "\\\\.\\pipe\\"@
}

/// The pipe path of a named-pipe remainder: the remainder itself where it
/// is canonical already, else the prefix and the remainder's first segment.
pub open spec fn pipe_part(rest: Seq<char>) -> Seq<char> {
    if starts_with(rest, pipe_prefix()) {
        rest
    } else {
        match find(rest, "/"@) {
            Some(i) => pipe_prefix() + rest.subrange(0, i),
            None => pipe_prefix() + rest,
        }
    }
}

/// The logical path of a named-pipe remainder: from its first `/` on.
pub open spec fn pipe_logical_part(rest: Seq<char>) -> Seq<char> {
    match find(rest, "/"@) {
        Some(i) => rest.subrange(i, rest.len() as int),
        None => "/"@,
    }
}

/// A local channel needs no transport encryption.
pub open spec fn downgrade(scheme: Seq<char>) -> Seq<char> {
    if scheme == "https"@ {
        "http"@
    } else if scheme == "wss"@ {
        "ws"@
    } else {
        scheme
    }
}

/// The scheme that the endpoint URL is built with.
pub open spec fn dial_scheme(scheme: Seq<char>, transport: Transport) -> Seq<char> {
    if transport.local() {
        downgrade(scheme)
    } else {
        scheme
    }
}

/// The text of the endpoint URL of a marked input.
pub open spec fn endpoint_text(scheme: Seq<char>, transport: Transport, rest: Seq<char>) -> Seq<
    char,
> {
    match transport {
        Transport::Unix => dial_scheme(scheme, transport) + "://localhost"@ + logical_part(rest),
        Transport::NamedPipe => dial_scheme(scheme, transport) + "://localhost"@
            + pipe_logical_part(rest),
        _ => scheme + "://"@ + rest,
    }
}

/// Whether a host lies in the `.onion` domain.
pub open spec fn is_onion(host: Option<Seq<char>>) -> bool {
    match host {
        Some(h) => ends_with(h, ".onion"@),
        None => false,
    }
}

/// The URL of a marked input, given what the standard parser made of its
/// endpoint: the parts of the endpoint URL together with the transport
/// and the scheme that the input named, or the parser's error as an
/// `InvalidUrl`.
pub open spec fn marked_from(
    parsed: Result<StandardUrlView, Seq<char>>,
    scheme: Seq<char>,
    transport: Transport,
    socket: Option<Seq<char>>,
    pipe: Option<Seq<char>>,
) -> Result<TransportUrlView, ErrorView> {
    match parsed {
        Ok(u) => Ok(
            TransportUrlView {
                url: u,
                transport,
                original_scheme: scheme,
                explicit: true,
                unix_socket_path: socket,
                named_pipe_path: pipe,
            },
        ),
        Err(e) => Err(ErrorView::InvalidUrl(e)),
    }
}

/// The URL of an input without a marker, given what the standard parser
/// made of it: reached over Tor where the host ends in `.onion`, over TCP
/// otherwise.
pub open spec fn plain_from(parsed: Result<StandardUrlView, Seq<char>>) -> Result<
    TransportUrlView,
    ErrorView,
> {
    match parsed {
        Ok(u) => Ok(
            TransportUrlView {
                url: u,
                transport: if is_onion(u.host) {
                    Transport::Tor
                } else {
                    Transport::Tcp
                },
                original_scheme: u.scheme,
                explicit: false,
                unix_socket_path: None,
                named_pipe_path: None,
            },
        ),
        Err(e) => Err(ErrorView::InvalidUrl(e)),
    }
}

/// What a marked input parses to. An empty remainder names no endpoint
/// and is refused; else the endpoint URL is built as the transport asks
/// and handed to the standard parser.
pub open spec fn parse_marked(scheme: Seq<char>, transport: Transport, rest: Seq<char>) -> Result<
    TransportUrlView,
    ErrorView,
> {
    if rest.len() == 0 {
        Err(ErrorView::InvalidUrl("empty remainder"@))
    } else {
        marked_from(
            standard_url(endpoint_text(scheme, transport, rest)),
            scheme,
            transport,
            if transport == Transport::Unix {
                Some(socket_part(rest))
            } else {
                None
            },
            if transport == Transport::NamedPipe {
                Some(pipe_part(rest))
            } else {
                None
            },
        )
    }
}

/// What an input without a marker parses to.
pub open spec fn parse_plain(text: Seq<char>) -> Result<TransportUrlView, ErrorView> {
    plain_from(standard_url(text))
}

/// What a text of the dialect parses to.
pub open spec fn parse_spec(text: Seq<char>) -> Result<TransportUrlView, ErrorView> {
    match split_marker(text) {
        Some((scheme, token, rest)) => match resolve_alias(token) {
            Some(transport) => parse_marked(scheme, transport, rest),
            None => Err(ErrorView::InvalidTransport(token)),
        },
        None => parse_plain(text),
    }
}

/// The default port of a scheme.
pub open spec fn default_port(scheme: Seq<char>) -> u16 {
    if scheme == "https"@ || scheme == "wss"@ {
        443
    } else {
        80
    }
}

/// The dialect text that a parsed URL is shown as.
pub open spec fn render(u: TransportUrlView) -> Seq<char> {
    if !u.explicit {
        u.url.text
    } else if u.transport == Transport::Unix {
        match u.unix_socket_path {
            Some(sock) => u.original_scheme + "::unix//"@ + sock + u.url.path,
            None => u.url.text,
        }
    } else if u.transport == Transport::NamedPipe {
        match u.named_pipe_path {
            Some(pipe) => u.original_scheme + "::pipe//"@ + pipe + u.url.path,
            None => u.url.text,
        }
    } else {
        let skip = if u.url.scheme.len() + 3 <= u.url.text.len() {
            u.url.scheme.len() + 3
        } else {
            u.url.text.len()
        };
        u.original_scheme + "::"@ + u.transport.name() + "//"@ + u.url.text.subrange(
            skip as int,
            u.url.text.len() as int,
        )
    }
}

/// The scheme of the endpoint URL of a marked input is the scheme that
/// the input named, downgraded where the transport is local, in lower
/// case. This is said of every scheme that is made of scheme characters.
pub open spec fn scheme_is_resolved(u: TransportUrlView, scheme: Seq<char>) -> bool {
    is_scheme_text(scheme) ==> u.url.scheme == ascii_lowercase(dial_scheme(scheme, u.transport))
}

/// One of the schemes `http`, `https`, `ws` and `wss`.
pub open spec fn is_web_scheme(scheme: Seq<char>) -> bool {
    scheme == "http"@ || scheme == "https"@ || scheme == "ws"@ || scheme == "wss"@
}

/// Socket path and path of `u` give the remainder back: the remainder is
/// the socket path followed by the path, or the socket path alone where
/// the path is the default `/`.
pub open spec fn recovers(u: TransportUrlView, rest: Seq<char>) -> bool {
    &&& u.unix_socket_path is Some
    &&& rest == u.unix_socket_path->0 + u.url.path || (rest == u.unix_socket_path->0 && u.url.path
        == "/"@)
}

/// What is owed for a Unix remainder with a web scheme whose logical path
/// is plain: the parse succeeds, the endpoint is on `localhost` with the
/// downgraded scheme, the path is the logical path, and socket path and
/// path give the remainder back.
pub open spec fn unix_split_is_kept(
    scheme: Seq<char>,
    rest: Seq<char>,
    r: Result<TransportUrl, TransportError>,
) -> bool {
    is_web_scheme(scheme) && rest.len() > 0 && is_plain_path(logical_part(rest)) ==> {
        &&& r is Ok
        &&& r->Ok_0@.url.host == Some("localhost"@)
        &&& r->Ok_0@.url.scheme == downgrade(scheme)
        &&& r->Ok_0@.url.path == logical_part(rest)
        &&& r->Ok_0@.unix_socket_path == Some(socket_part(rest))
        &&& recovers(r->Ok_0@, rest)
    }
}

/// The scheme of a marked input's endpoint, read back from the endpoint
/// text, is the downgraded scheme in lower case.
proof fn lemma_endpoint_scheme(
    scheme: Seq<char>,
    transport: Transport,
    rest: Seq<char>,
    resolved: Seq<char>,
)
    requires
        is_scheme_text(scheme),
        scheme_follows(endpoint_text(scheme, transport, rest), resolved),
    ensures
        resolved == ascii_lowercase(dial_scheme(scheme, transport)),
{
    reveal_strlit("https");
    reveal_strlit("http");
    reveal_strlit("wss");
    reveal_strlit("ws");
    reveal_strlit(":");
    reveal_strlit("://");
    reveal_strlit("://localhost");
    let d = dial_scheme(scheme, transport);
    let e = endpoint_text(scheme, transport, rest);
    let k = d.len() as int;
    assert(is_scheme_text(d));
    assert(e.subrange(0, k) =~= d);
    assert(e[k] == ':');
    assert forall|j: int| 0 <= j < k implies e[j] != ':' by {
        assert(e[j] == d[j]);
        assert(is_scheme_char(d[j]));
    }
    lemma_find_char(e, ":"@, k);
}

/// What holds of every parsed URL.
///
/// * A socket path is there exactly for the Unix transport, a pipe path
///   exactly for named pipes.
/// * Where the input named no transport, the transport is Tor for a host
///   in the `.onion` domain and TCP for every other, and the scheme is the
///   one that the input gave.
pub open spec fn well_formed(u: TransportUrlView) -> bool {
    &&& u.unix_socket_path is Some <==> u.transport == Transport::Unix
    &&& u.named_pipe_path is Some <==> u.transport == Transport::NamedPipe
    &&& !u.explicit ==> {
        &&& u.transport == (if is_onion(u.url.host) {
            Transport::Tor
        } else {
            Transport::Tcp
        })
        &&& u.original_scheme == u.url.scheme
    }
}

/// A URL together with the transport over which it is reached.
#[derive(Debug, Clone)]
pub struct TransportUrl {
    url: StandardUrl,
    transport: Transport,
    original_scheme: String,
    explicit_transport: bool,
    unix_socket_path: Option<String>,
    named_pipe_path: Option<String>,
}

impl View for TransportUrl {
    type V = TransportUrlView;

    closed spec fn view(&self) -> TransportUrlView {
        TransportUrlView {
            url: self.url@,
            transport: self.transport,
            original_scheme: self.original_scheme@,
            explicit: self.explicit_transport,
            unix_socket_path: match self.unix_socket_path {
                Some(p) => Some(p@),
                None => None,
            },
            named_pipe_path: match self.named_pipe_path {
                Some(p) => Some(p@),
                None => None,
            },
        }
    }
}

/// `r` is the outcome `expected`, seen through the views of its value and
/// its error.
pub open spec fn result_is(
    r: Result<TransportUrl, TransportError>,
    expected: Result<TransportUrlView, ErrorView>,
) -> bool {
    match r {
        Ok(u) => expected == Ok::<TransportUrlView, ErrorView>(u@),
        Err(e) => expected == Err::<TransportUrlView, ErrorView>(e@),
    }
}

/// The scheme with which a local endpoint is dialled.
fn effective_scheme(scheme: &str) -> (r: &str)
    ensures
        r@ == downgrade(scheme@),
{
    if same_text(scheme, "https") {
        "http"
    } else if same_text(scheme, "wss") {
        "ws"
    } else {
        scheme
    }
}

/// The outcome of the standard parser, seen through its views.
pub open spec fn parsed_view(parsed: Result<StandardUrl, String>) -> Result<
    StandardUrlView,
    Seq<char>,
> {
    match parsed {
        Ok(u) => Ok(u@),
        Err(e) => Err(e@),
    }
}

/// The failure for a marked input whose remainder is empty.
fn empty_remainder() -> (r: Result<TransportUrl, TransportError>)
    ensures
        r is Err,
        r->Err_0@ == ErrorView::InvalidUrl("empty remainder"@),
{
    Err(TransportError::InvalidUrl(owned("empty remainder")))
}

/// The index of the first `/` in `v`.
fn first_slash(v: &Vec<char>) -> (r: Option<usize>)
    ensures
        match r {
            Some(i) => find(v@, "/"@) == Some(i as int) && i < v@.len(),
            None => find(v@, "/"@) is None,
        },
{
    let pat = chars_of("/");
    proof {
        lemma_find(v@, pat@);
        reveal_strlit("/");
    }
    find_chars(v, &pat)
}

impl TransportUrl {
    /// The URL of an input without a marker, from what the standard parser
    /// made of it.
    pub fn from_plain(parsed: Result<StandardUrl, String>) -> (r: Result<Self, TransportError>)
        ensures
            result_is(r, plain_from(parsed_view(parsed))),
            r is Ok ==> well_formed(r->Ok_0@),
    {
        match parsed {
            Ok(url) => {
                let onion = match &url.host {
                    Some(h) => has_suffix(&chars_of(h.as_str()), &chars_of(".onion")),
                    None => false,
                };
                let transport = if onion {
                    Transport::Tor
                } else {
                    Transport::Tcp
                };
                let original_scheme = url.scheme.clone();
                Ok(
                    TransportUrl {
                        url,
                        transport,
                        original_scheme,
                        explicit_transport: false,
                        unix_socket_path: None,
                        named_pipe_path: None,
                    },
                )
            },
            Err(e) => Err(TransportError::InvalidUrl(e)),
        }
    }

    /// The URL of a marked input, from what the standard parser made of
    /// its endpoint. A socket path goes with the Unix transport and with
    /// no other, a pipe path with named pipes and with no other.
    pub fn from_marked(
        parsed: Result<StandardUrl, String>,
        scheme: &str,
        transport: Transport,
        socket: Option<String>,
        pipe: Option<String>,
    ) -> (r: Result<Self, TransportError>)
        requires
            socket is Some <==> transport == Transport::Unix,
            pipe is Some <==> transport == Transport::NamedPipe,
        ensures
            result_is(
                r,
                marked_from(parsed_view(parsed), scheme@, transport, opt_view(socket), opt_view(pipe)),
            ),
            r is Ok ==> well_formed(r->Ok_0@),
    {
        match parsed {
            Ok(url) => Ok(
                TransportUrl {
                    url,
                    transport,
                    original_scheme: owned(scheme),
                    explicit_transport: true,
                    unix_socket_path: socket,
                    named_pipe_path: pipe,
                },
            ),
            Err(e) => Err(TransportError::InvalidUrl(e)),
        }
    }

    /// Parses a text of the dialect.
    ///
    /// With a `::<transport>` marker before the first `//`, the token is
    /// resolved through the alias table and the remainder is read as that
    /// transport asks; an unknown token is an `InvalidTransport`. Without a
    /// marker the text is a standard absolute URL, reached over Tor where
    /// its host ends in `.onion` and over TCP otherwise. A marker with an
    /// empty remainder is an `InvalidUrl`, and so is an endpoint that is no
    /// URL, with the parser's message.
    pub fn parse(url_str: &str) -> (r: Result<Self, TransportError>)
        ensures
            result_is(r, parse_spec(url_str@)),
            r is Ok ==> well_formed(r->Ok_0@),
            r is Ok ==> match split_marker(url_str@) {
                Some((scheme, _, _)) => scheme_is_resolved(r->Ok_0@, scheme),
                None => scheme_follows(url_str@, r->Ok_0@.url.scheme),
            },
            match split_marker(url_str@) {
                Some((scheme, token, rest)) => resolve_alias(token) == Some(Transport::Unix)
                    ==> unix_split_is_kept(scheme, rest, r),
                None => true,
            },
    {
        let v = chars_of(url_str);
        let n: usize = v.len();
        let slashes = chars_of("//");
        proof {
            lemma_find(v@, "//"@);
            reveal_strlit("//");
        }
        match find_chars(&v, &slashes) {
            Some(i) => {
                assert(occurs_at(v@, "//"@, i as int) && i + 2 <= n);
                let head = sub_chars(&v, 0, i);
                let colons = chars_of("::");
                proof {
                    lemma_find(head@, "::"@);
                    reveal_strlit("::");
                }
                match find_chars(&head, &colons) {
                    Some(j) => {
                        assert(occurs_at(head@, "::"@, j as int) && j + 2 <= i);
                        let scheme = url_str.substring_char(0, j);
                        let token = sub_chars(&head, j + 2, i);
                        let rest = url_str.substring_char(i + 2, n);
                        assert(scheme@ =~= head@.subrange(0, j as int));
                        return match resolve(&token) {
                            Some(transport) => Self::parse_with_transport(scheme, transport, rest),
                            None => {
                                let t = slice_string(url_str, j + 2, i);
                                assert(t@ =~= token@);
                                Err(TransportError::InvalidTransport(t))
                            },
                        };
                    },
                    None => {},
                }
            },
            None => {},
        }
        let parsed = parse_standard(url_str);
        Self::from_plain(parsed)
    }

    /// Reads the remainder of a marked input as its transport asks.
    pub fn parse_with_transport(scheme: &str, transport: Transport, rest: &str) -> (r: Result<
        Self,
        TransportError,
    >)
        ensures
            result_is(r, parse_marked(scheme@, transport, rest@)),
            r is Ok ==> scheme_is_resolved(r->Ok_0@, scheme@),
            transport == Transport::Unix ==> unix_split_is_kept(scheme@, rest@, r),
    {
        if rest.is_empty() {
            return empty_remainder();
        }
        match transport {
            Transport::Unix => Self::parse_unix_url(scheme, rest),
            Transport::NamedPipe => Self::parse_named_pipe_url(scheme, rest),
            Transport::Tor => Self::parse_tor_url(scheme, rest),
            Transport::Tcp | Transport::Ssh | Transport::Quic => {
                let full_url = concat3(scheme, "://", rest);
                let parsed = parse_standard(full_url.as_str());
                proof {
                    if parsed is Ok && is_scheme_text(scheme@) {
                        lemma_endpoint_scheme(scheme@, transport, rest@, parsed->Ok_0.scheme@);
                    }
                }
                Self::from_marked(parsed, scheme, transport, None, None)
            },
        }
    }

    /// Reads a Unix remainder: socket path, then logical path. Both the
    /// two-slash relative form and the three-slash absolute form keep
    /// their socket path as written.
    pub fn parse_unix_url(scheme: &str, rest: &str) -> (r: Result<Self, TransportError>)
        ensures
            result_is(r, parse_marked(scheme@, Transport::Unix, rest@)),
            r is Ok ==> scheme_is_resolved(r->Ok_0@, scheme@),
            unix_split_is_kept(scheme@, rest@, r),
    {
        if rest.is_empty() {
            return empty_remainder();
        }
        let (socket_path, url_path) = Self::extract_socket_path(rest);
        let url_string = concat3(effective_scheme(scheme), "://localhost", url_path.as_str());
        let parsed = parse_standard(url_string.as_str());
        proof {
            if parsed is Ok && is_scheme_text(scheme@) {
                lemma_endpoint_scheme(scheme@, Transport::Unix, rest@, parsed->Ok_0.scheme@);
            }
            if is_web_scheme(scheme@) && is_plain_path(logical_part(rest@)) {
                reveal_strlit("https");
                reveal_strlit("http");
                reveal_strlit("wss");
                reveal_strlit("ws");
                assert(url_string@ == local_endpoint(downgrade(scheme@), logical_part(rest@)));
                lemma_socket_split_lossless(rest@);
            }
        }
        Self::from_marked(parsed, scheme, Transport::Unix, Some(socket_path), None)
    }

    /// Reads a named-pipe remainder: a canonical pipe path, or a short
    /// name that is expanded into one; the logical path begins at the
    /// remainder's first `/`.
    pub fn parse_named_pipe_url(scheme: &str, rest: &str) -> (r: Result<Self, TransportError>)
        ensures
            result_is(r, parse_marked(scheme@, Transport::NamedPipe, rest@)),
            r is Ok ==> scheme_is_resolved(r->Ok_0@, scheme@),
    {
        if rest.is_empty() {
            return empty_remainder();
        }
        let v = chars_of(rest);
        let prefix = chars_of("\\\\.\\pipe\\");
        let slash = first_slash(&v);
        let pipe_path = if has_prefix(&v, &prefix) {
            owned(rest)
        } else {
            match slash {
                Some(i) => concat2("\\\\.\\pipe\\", rest.substring_char(0, i)),
                None => concat2("\\\\.\\pipe\\", rest),
            }
        };
        let url_path = match slash {
            Some(i) => slice_string(rest, i, v.len()),
            None => owned("/"),
        };
        let url_string = concat3(effective_scheme(scheme), "://localhost", url_path.as_str());
        let parsed = parse_standard(url_string.as_str());
        proof {
            if parsed is Ok && is_scheme_text(scheme@) {
                lemma_endpoint_scheme(scheme@, Transport::NamedPipe, rest@, parsed->Ok_0.scheme@);
            }
        }
        Self::from_marked(parsed, scheme, Transport::NamedPipe, None, Some(pipe_path))
    }

    /// Reads a Tor remainder: the endpoint is `<scheme>://<remainder>`.
    pub fn parse_tor_url(scheme: &str, rest: &str) -> (r: Result<Self, TransportError>)
        ensures
            result_is(r, parse_marked(scheme@, Transport::Tor, rest@)),
            r is Ok ==> scheme_is_resolved(r->Ok_0@, scheme@),
    {
        if rest.is_empty() {
            return empty_remainder();
        }
        let full_url = concat3(scheme, "://", rest);
        let parsed = parse_standard(full_url.as_str());
        proof {
            if parsed is Ok && is_scheme_text(scheme@) {
                lemma_endpoint_scheme(scheme@, Transport::Tor, rest@, parsed->Ok_0.scheme@);
            }
        }
        Self::from_marked(parsed, scheme, Transport::Tor, None, None)
    }

    /// Cuts a Unix remainder into socket path and logical path, behind the
    /// marker at the first index at which `.socket`, `.sock` or `.sk`
    /// stands; where two stand there, the longer is the marker. Without
    /// any of them the whole remainder is the socket path.
    pub fn extract_socket_path(path: &str) -> (r: (String, String))
        ensures
            r.0@ == socket_part(path@),
            r.1@ == logical_part(path@),
    {
        let v = chars_of(path);
        let n: usize = v.len();
        let socket = chars_of(".socket");
        let sock = chars_of(".sock");
        let sk = chars_of(".sk");
        let mut i: usize = 0;
        while i < n
            invariant
                i <= n,
                n == v@.len(),
                v@ == path@,
                socket@ == ".socket"@,
                sock@ == ".sock"@,
                sk@ == ".sk"@,
                first_marker_from(v@, 0) == first_marker_from(v@, i as int),
            decreases n - i,
        {
            let found: Option<usize> = if matches_at(&v, &socket, i) {
                Some(socket.len())
            } else if matches_at(&v, &sock, i) {
                Some(sock.len())
            } else if matches_at(&v, &sk, i) {
                Some(sk.len())
            } else {
                None
            };
            match found {
                Some(len) => {
                    assert(marker_len_at(v@, i as int) == Some(len as int));
                    let e: usize = i + len;
                    let socket_path = slice_string(path, 0, e);
                    let url_path = if e < n {
                        slice_string(path, e, n)
                    } else {
                        owned("/")
                    };
                    return (socket_path, url_path);
                },
                None => {},
            }
            i += 1;
        }
        (owned(path), owned("/"))
    }

    /// The transport over which the URL is reached.
    pub fn transport(&self) -> (r: Transport)
        ensures
            r == self@.transport,
    {
        self.transport
    }

    /// Whether the input named its transport.
    pub fn is_explicit_transport(&self) -> (r: bool)
        ensures
            r == self@.explicit,
    {
        self.explicit_transport
    }

    /// The endpoint URL.
    pub fn url(&self) -> (r: &StandardUrl)
        ensures
            r@ == self@.url,
    {
        &self.url
    }

    /// The scheme of the endpoint URL.
    pub fn scheme(&self) -> (r: &str)
        ensures
            r@ == self@.url.scheme,
    {
        self.url.scheme.as_str()
    }

    /// The scheme as the input gave it, before any downgrade.
    pub fn original_scheme(&self) -> (r: &str)
        ensures
            r@ == self@.original_scheme,
    {
        self.original_scheme.as_str()
    }

    /// The host of the endpoint URL.
    pub fn host_str(&self) -> (r: Option<&str>)
        ensures
            match r {
                Some(h) => self@.url.host == Some(h@),
                None => self@.url.host is None,
            },
    {
        match &self.url.host {
            Some(h) => Some(h.as_str()),
            None => None,
        }
    }

    /// The port that the endpoint URL names.
    pub fn port(&self) -> (r: Option<u16>)
        ensures
            r == self@.url.port,
    {
        self.url.port
    }

    /// The port that the endpoint URL names, else its scheme's default:
    /// 443 for `https` and `wss`, 80 for every other scheme.
    pub fn port_or_default(&self) -> (r: u16)
        ensures
            r == match self@.url.port {
                Some(p) => p,
                None => default_port(self@.url.scheme),
            },
    {
        match self.url.port {
            Some(p) => p,
            None => scheme_default_port(self.url.scheme.as_str()),
        }
    }

    /// The path of the endpoint URL.
    pub fn path(&self) -> (r: &str)
        ensures
            r@ == self@.url.path,
    {
        self.url.path.as_str()
    }

    /// The endpoint URL, serialized.
    pub fn as_str(&self) -> (r: &str)
        ensures
            r@ == self@.url.text,
    {
        self.url.text.as_str()
    }

    /// The socket path of a Unix URL.
    pub fn unix_socket_path(&self) -> (r: Option<&str>)
        ensures
            match r {
                Some(p) => self@.unix_socket_path == Some(p@),
                None => self@.unix_socket_path is None,
            },
    {
        match &self.unix_socket_path {
            Some(p) => Some(p.as_str()),
            None => None,
        }
    }

    /// The pipe path of a named-pipe URL.
    pub fn named_pipe_path(&self) -> (r: Option<&str>)
        ensures
            match r {
                Some(p) => self@.named_pipe_path == Some(p@),
                None => self@.named_pipe_path is None,
            },
    {
        match &self.named_pipe_path {
            Some(p) => Some(p.as_str()),
            None => None,
        }
    }

    /// Whether the URL is reached without leaving the machine.
    pub fn is_local(&self) -> (r: bool)
        ensures
            r == self@.transport.local(),
    {
        self.transport.is_local()
    }

    /// Whether the URL needs the anonymizing transport: its transport is
    /// Tor, or its host ends in `.onion`.
    pub fn requires_tor(&self) -> (r: bool)
        ensures
            r == (self@.transport == Transport::Tor || is_onion(self@.url.host)),
    {
        if self.transport == Transport::Tor {
            return true;
        }
        match &self.url.host {
            Some(h) => has_suffix(&chars_of(h.as_str()), &chars_of(".onion")),
            None => false,
        }
    }

    /// The dialect text of the URL, rebuilt from its fields.
    pub fn to_string(&self) -> (r: String)
        ensures
            r@ == render(self@),
    {
        if !self.explicit_transport {
            return self.url.text.clone();
        }
        match self.transport {
            Transport::Unix => match &self.unix_socket_path {
                Some(sock) => {
                    let head = concat3(self.original_scheme.as_str(), "::unix//", sock.as_str());
                    concat2(head.as_str(), self.url.path.as_str())
                },
                None => self.url.text.clone(),
            },
            Transport::NamedPipe => match &self.named_pipe_path {
                Some(pipe) => {
                    let head = concat3(self.original_scheme.as_str(), "::pipe//", pipe.as_str());
                    concat2(head.as_str(), self.url.path.as_str())
                },
                None => self.url.text.clone(),
            },
            _ => {
                let text = self.url.text.as_str();
                let n: usize = text.unicode_len();
                let k: usize = self.url.scheme.as_str().unicode_len();
                let skip: usize = if k <= n && n - k >= 3 {
                    k + 3
                } else {
                    n
                };
                let head = concat3(
                    self.original_scheme.as_str(),
                    "::",
                    self.transport.as_str(),
                );
                concat3(head.as_str(), "//", text.substring_char(skip, n))
            },
        }
    }
}

/// The default port of a scheme: 443 for `https` and `wss`, else 80.
pub fn scheme_default_port(scheme: &str) -> (r: u16)
    ensures
        r == default_port(scheme@),
{
    if same_text(scheme, "https") || same_text(scheme, "wss") {
        443
    } else {
        80
    }
}

/// Every URL that parsing yields is well formed.
pub proof fn lemma_parsed_is_well_formed(text: Seq<char>, u: TransportUrlView)
    requires
        parse_spec(text) == Ok::<TransportUrlView, ErrorView>(u),
    ensures
        well_formed(u),
{
}

/// Parsing is a function of the text: two parses of one text agree on
/// success, and where they succeed on every field.
pub proof fn lemma_parse_is_pure(
    text: Seq<char>,
    a: Result<TransportUrl, TransportError>,
    b: Result<TransportUrl, TransportError>,
)
    requires
        result_is(a, parse_spec(text)),
        result_is(b, parse_spec(text)),
    ensures
        a is Ok <==> b is Ok,
        a is Ok ==> a->Ok_0@ == b->Ok_0@,
        a is Ok ==> a->Ok_0@.transport == b->Ok_0@.transport && a->Ok_0@.url.host
            == b->Ok_0@.url.host && a->Ok_0@.url.path == b->Ok_0@.url.path
            && a->Ok_0@.unix_socket_path == b->Ok_0@.unix_socket_path,
{
}

/// The explicit flag is set exactly where the text carries a marker, and
/// then the transport is the one that the alias table gives for the
/// marker's token.
pub proof fn lemma_explicit_iff_marker(text: Seq<char>, u: TransportUrlView)
    requires
        parse_spec(text) == Ok::<TransportUrlView, ErrorView>(u),
    ensures
        u.explicit <==> split_marker(text) is Some,
        match split_marker(text) {
            Some((_, token, _)) => resolve_alias(token) == Some(u.transport),
            None => true,
        },
{
}

/// Without a marker, a host in the `.onion` domain is reached over Tor,
/// every other over TCP, and the flag says that nothing was named.
pub proof fn lemma_onion_implies_tor(text: Seq<char>, u: TransportUrlView)
    requires
        parse_spec(text) == Ok::<TransportUrlView, ErrorView>(u),
        split_marker(text) is None,
    ensures
        !u.explicit,
        is_onion(u.url.host) ==> u.transport == Transport::Tor,
        !is_onion(u.url.host) ==> u.transport == Transport::Tcp,
{
}

/// Cutting a Unix remainder loses nothing: the socket path is a prefix of
/// the remainder, and the logical path is what is left, or `/` where
/// nothing is left.
pub proof fn lemma_socket_split_lossless(rest: Seq<char>)
    ensures
        rest == socket_part(rest) + logical_part(rest) || (rest == socket_part(rest)
            && logical_part(rest) == "/"@),
{
    lemma_socket_end_bounds(rest);
    match socket_end(rest) {
        Some(e) => {
            if e < rest.len() {
                assert(rest =~= rest.subrange(0, e) + rest.subrange(e, rest.len() as int));
            } else {
                assert(rest =~= rest.subrange(0, e));
            }
        },
        None => {},
    }
}

/// The socket path ends with the marker that was matched, whole: it ends
/// with `.socket` wherever `.socket` stands at the first marker, and with
/// `.sock` or `.sk` otherwise.
pub proof fn lemma_socket_path_ends_with_marker(rest: Seq<char>)
    requires
        socket_end(rest) is Some,
    ensures
        ends_with(socket_part(rest), ".socket"@) || ends_with(socket_part(rest), ".sock"@)
            || ends_with(socket_part(rest), ".sk"@),
        occurs_at(rest, ".socket"@, first_marker_from(rest, 0)->0) ==> ends_with(
            socket_part(rest),
            ".socket"@,
        ),
{
    lemma_first_marker(rest, 0);
    let i = first_marker_from(rest, 0)->0;
    let l = marker_len_at(rest, i)->0;
    let part = socket_part(rest);
    assert(part.len() == i + l);
    assert(part.subrange(i, i + l) =~= rest.subrange(i, i + l));
}

/// A Unix URL always has its socket path, and only a Unix URL has one; the
/// path is the socket part of the marker's remainder.
pub proof fn lemma_unix_has_socket_path(text: Seq<char>, u: TransportUrlView)
    requires
        parse_spec(text) == Ok::<TransportUrlView, ErrorView>(u),
    ensures
        u.transport == Transport::Unix <==> u.unix_socket_path is Some,
        u.transport == Transport::Unix ==> match split_marker(text) {
            Some((_, _, rest)) => u.unix_socket_path == Some(socket_part(rest)),
            None => false,
        },
{
}

/// The scheme is downgraded exactly where the transport is local and the
/// scheme is `https` or `wss`.
pub proof fn lemma_downgrade_iff_local(scheme: Seq<char>, transport: Transport)
    ensures
        dial_scheme(scheme, transport) != scheme <==> transport.local() && (scheme == "https"@
            || scheme == "wss"@),
        scheme == "https"@ && transport.local() ==> dial_scheme(scheme, transport) == "http"@,
        scheme == "wss"@ && transport.local() ==> dial_scheme(scheme, transport) == "ws"@,
{
    reveal_strlit("https");
    reveal_strlit("http");
    reveal_strlit("wss");
    reveal_strlit("ws");
    assert("https"@.len() != "http"@.len());
    assert("wss"@.len() != "ws"@.len());
    assert("https"@.len() != "wss"@.len());
}

/// Of a marked input whose scheme is written in lower case: the scheme of
/// the endpoint URL differs from the scheme that the input gave exactly
/// where the transport is local and the scheme is `https` or `wss`, and
/// then it is `http` or `ws`.
pub proof fn lemma_resolved_scheme(u: TransportUrlView, scheme: Seq<char>)
    requires
        is_scheme_text(scheme),
        ascii_lowercase(scheme) == scheme,
        scheme_is_resolved(u, scheme),
        u.original_scheme == scheme,
    ensures
        u.url.scheme == dial_scheme(scheme, u.transport),
        u.url.scheme != u.original_scheme <==> u.transport.local() && (scheme == "https"@ || scheme
            == "wss"@),
        u.transport.local() && scheme == "https"@ ==> u.url.scheme == "http"@,
        u.transport.local() && scheme == "wss"@ ==> u.url.scheme == "ws"@,
        !u.transport.local() ==> u.url.scheme == scheme,
{
    reveal_strlit("https");
    reveal_strlit("http");
    reveal_strlit("wss");
    reveal_strlit("ws");
    lemma_downgrade_iff_local(scheme, u.transport);
    assert(ascii_lowercase("http"@) =~= "http"@);
    assert(ascii_lowercase("ws"@) =~= "ws"@);
}

/// The scheme that the input gave is kept as it was: for a marked input
/// it is what stands before the marker, and the endpoint URL is built with
/// its downgraded form where the transport is local.
pub proof fn lemma_original_scheme_kept(text: Seq<char>, u: TransportUrlView)
    requires
        parse_spec(text) == Ok::<TransportUrlView, ErrorView>(u),
    ensures
        match split_marker(text) {
            Some((scheme, _, rest)) => {
                &&& u.original_scheme == scheme
                &&& standard_url(endpoint_text(scheme, u.transport, rest)) == Ok::<
                    StandardUrlView,
                    Seq<char>,
                >(u.url)
                &&& u.transport.local() ==> starts_with(
                    endpoint_text(scheme, u.transport, rest),
                    dial_scheme(scheme, u.transport),
                )
            },
            None => u.original_scheme == u.url.scheme,
        },
{
    match split_marker(text) {
        Some((scheme, _, rest)) => {
            let d = dial_scheme(scheme, u.transport);
            if u.transport.local() {
                let e = endpoint_text(scheme, u.transport, rest);
                assert(e.subrange(0, d.len() as int) =~= d);
            }
        },
        None => {},
    }
}

} // verus!
