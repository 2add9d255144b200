//! The transport model: channel kinds, chains of them, and the errors of
//! this crate.

use vstd::prelude::*;
use crate::text::{
    ascii_lower, ascii_lowercase, chars_of, eq_ignore_ascii_case, is_space, skip_spaces,
    skip_spaces_back, slice_string, sub_chars, trim, trim_range,
};

verus! {

/// The operating system's I/O error, carried through untranslated.
#[verifier::external_type_specification]
#[verifier::external_body]
pub struct ExIoError(std::io::Error);

/// A low-level channel kind.
#[derive(Debug, Clone, Copy, PartialEq, Eq, Hash, Structural)]
pub enum Transport {
    /// Plain TCP/IP.
    Tcp,
    /// Unix domain socket.
    Unix,
    /// Named pipe.
    NamedPipe,
    /// Tunnel through the local anonymizing daemon.
    Tor,
    /// SSH tunnel.
    Ssh,
    /// QUIC.
    Quic,
}

/// What can go wrong in this crate.
#[derive(Debug)]
pub enum TransportError {
    /// The transport token is no known alias.
    InvalidTransport(String),
    /// The input is empty or no URL.
    InvalidUrl(String),
    /// The daemon reported a failure, or its answer was oversized or unreadable.
    ConnectionFailed(String),
    /// The transport is not implemented or not configured.
    NotAvailable(String),
    /// A failure of the operating system, passed through.
    Io(std::io::Error),
    /// A Unix transport with no socket path to be had.
    SocketPathNotFound,
    /// Reserved for named pipes.
    NamedPipeNotFound(String),
    /// The daemon is unreachable or not configured.
    TorNotAvailable,
    /// Reserved for a SOCKS5 proxy.
    Socks5Error(String),
}

/// The mathematical value of a [`TransportError`].
pub ghost enum ErrorView {
    InvalidTransport(Seq<char>),
    InvalidUrl(Seq<char>),
    ConnectionFailed(Seq<char>),
    NotAvailable(Seq<char>),
    Io(std::io::Error),
    SocketPathNotFound,
    NamedPipeNotFound(Seq<char>),
    TorNotAvailable,
    Socks5Error(Seq<char>),
}

impl View for TransportError {
    type V = ErrorView;

    open spec fn view(&self) -> ErrorView {
        match self {
            TransportError::InvalidTransport(s) => ErrorView::InvalidTransport(s@),
            TransportError::InvalidUrl(s) => ErrorView::InvalidUrl(s@),
            TransportError::ConnectionFailed(s) => ErrorView::ConnectionFailed(s@),
            TransportError::NotAvailable(s) => ErrorView::NotAvailable(s@),
            TransportError::Io(e) => ErrorView::Io(*e),
            TransportError::SocketPathNotFound => ErrorView::SocketPathNotFound,
            TransportError::NamedPipeNotFound(s) => ErrorView::NamedPipeNotFound(s@),
            TransportError::TorNotAvailable => ErrorView::TorNotAvailable,
            TransportError::Socks5Error(s) => ErrorView::Socks5Error(s@),
        }
    }
}

/// The alias table, on a token already folded to lower case.
pub open spec fn alias_table(token: Seq<char>) -> Option<Transport> {
    if token == "tcp"@ {
        Some(Transport::Tcp)
    } else if token == "unix"@ || token == "uds"@ {
        Some(Transport::Unix)
    } else if token == "pipe"@ || token == "namedpipe"@ {
        Some(Transport::NamedPipe)
    } else if token == "tor"@ || token == "onion"@ {
        Some(Transport::Tor)
    } else if token == "ssh"@ {
        Some(Transport::Ssh)
    } else if token == "quic"@ || token == "http3"@ {
        Some(Transport::Quic)
    } else {
        None
    }
}

/// The transport that a token names, whatever its case.
pub open spec fn resolve_alias(token: Seq<char>) -> Option<Transport> {
    alias_table(ascii_lowercase(token))
}

/// The transport that a token of characters names.
pub fn resolve(token: &Vec<char>) -> (r: Option<Transport>)
    ensures
        r == resolve_alias(token@),
{
    if eq_ignore_ascii_case(token, "tcp") {
        Some(Transport::Tcp)
    } else if eq_ignore_ascii_case(token, "unix") || eq_ignore_ascii_case(token, "uds") {
        Some(Transport::Unix)
    } else if eq_ignore_ascii_case(token, "pipe") || eq_ignore_ascii_case(token, "namedpipe") {
        Some(Transport::NamedPipe)
    } else if eq_ignore_ascii_case(token, "tor") || eq_ignore_ascii_case(token, "onion") {
        Some(Transport::Tor)
    } else if eq_ignore_ascii_case(token, "ssh") {
        Some(Transport::Ssh)
    } else if eq_ignore_ascii_case(token, "quic") || eq_ignore_ascii_case(token, "http3") {
        Some(Transport::Quic)
    } else {
        None
    }
}

impl Transport {
    /// The canonical lower-case name.
    pub open spec fn name(self) -> Seq<char> {
        match self {
            Transport::Tcp => "tcp"@,
            Transport::Unix => "unix"@,
            Transport::NamedPipe => "pipe"@,
            Transport::Tor => "tor"@,
            Transport::Ssh => "ssh"@,
            Transport::Quic => "quic"@,
        }
    }

    /// The name shown to people.
    pub open spec fn title(self) -> Seq<char> {
        match self {
            Transport::Tcp => "TCP/IP"@,
            Transport::Unix => "Unix Socket"@,
            Transport::NamedPipe => "Named Pipe"@,
            Transport::Tor => "Tor Network"@,
            Transport::Ssh => "SSH Tunnel"@,
            Transport::Quic => "QUIC/HTTP3"@,
        }
    }

    /// True only of the channels that never leave the machine.
    pub open spec fn local(self) -> bool {
        self == Transport::Unix || self == Transport::NamedPipe
    }

    /// True only of the anonymizing channel.
    pub open spec fn anonymous(self) -> bool {
        self == Transport::Tor
    }

    /// Resolves a transport token through the alias table, ignoring case.
    pub fn from_str(s: &str) -> (r: Option<Self>)
        ensures
            r == resolve_alias(s@),
    {
        let token = chars_of(s);
        resolve(&token)
    }

    /// The canonical lower-case name.
    pub fn as_str(&self) -> (r: &'static str)
        ensures
            r@ == self.name(),
    {
        match self {
            Transport::Tcp => "tcp",
            Transport::Unix => "unix",
            Transport::NamedPipe => "pipe",
            Transport::Tor => "tor",
            Transport::Ssh => "ssh",
            Transport::Quic => "quic",
        }
    }

    /// Whether the channel never leaves the machine.
    pub fn is_local(&self) -> (r: bool)
        ensures
            r == self.local(),
    {
        match self {
            Transport::Unix | Transport::NamedPipe => true,
            _ => false,
        }
    }

    /// Whether the channel hides the caller.
    pub fn is_anonymous(&self) -> (r: bool)
        ensures
            r == self.anonymous(),
    {
        match self {
            Transport::Tor => true,
            _ => false,
        }
    }

    /// The name shown to people.
    pub fn display_name(&self) -> (r: &'static str)
        ensures
            r@ == self.title(),
    {
        match self {
            Transport::Tcp => "TCP/IP",
            Transport::Unix => "Unix Socket",
            Transport::NamedPipe => "Named Pipe",
            Transport::Tor => "Tor Network",
            Transport::Ssh => "SSH Tunnel",
            Transport::Quic => "QUIC/HTTP3",
        }
    }

    /// The canonical name, owned.
    pub fn to_string(&self) -> (r: String)
        ensures
            r@ == self.name(),
    {
        self.as_str().to_owned()
    }
}

impl Default for Transport {
    fn default() -> (r: Self)
        ensures
            r == Transport::Tcp,
    {
        Transport::Tcp
    }
}

/// Every canonical name resolves to its own transport.
pub proof fn lemma_name_resolves(t: Transport)
    ensures
        resolve_alias(t.name()) == Some(t),
{
    reveal_strlit("tcp");
    reveal_strlit("unix");
    reveal_strlit("uds");
    reveal_strlit("pipe");
    reveal_strlit("namedpipe");
    reveal_strlit("tor");
    reveal_strlit("onion");
    reveal_strlit("ssh");
    reveal_strlit("quic");
    reveal_strlit("http3");
    let n = t.name();
    assert forall|i: int| 0 <= i < n.len() implies ascii_lower(n[i]) == n[i] by {
        assert(!('A' <= n[i] && n[i] <= 'Z'));
    }
    assert(ascii_lowercase(n) =~= n);
    // The aliases differ from one another in length or in one of their
    // first two letters.
    assert("tcp"@[0] == 't' && "unix"@[0] == 'u' && "uds"@[1] == 'd' && "pipe"@[0] == 'p');
    assert("namedpipe"@.len() == 9 && "tor"@[1] == 'o' && "onion"@.len() == 5);
    assert("ssh"@[0] == 's' && "quic"@[0] == 'q' && "http3"@.len() == 5);
    assert("unix"@[1] == 'n' && "tcp"@[1] == 'c' && "ssh"@[1] == 's');
}

/// The alias table does not look at the case of a token.
pub proof fn lemma_resolve_ignores_case(a: Seq<char>, b: Seq<char>)
    requires
        ascii_lowercase(a) == ascii_lowercase(b),
    ensures
        resolve_alias(a) == resolve_alias(b),
{
}

/// The segment `s[start..end]` as one link of a chain: its transport, or
/// the segment itself where it names none.
pub open spec fn chain_link(s: Seq<char>, start: int, end: int) -> Result<Transport, Seq<char>> {
    match resolve_alias(trim(s.subrange(start, end))) {
        Some(t) => Ok(t),
        None => Err(s.subrange(start, end)),
    }
}

/// The chain read from `s[start..]`, where `i` has been scanned up to
/// without meeting a `+`: the segments between `+` signs, each trimmed and
/// resolved, or the first segment that names no transport.
pub open spec fn chain_from(s: Seq<char>, start: int, i: int) -> Result<Seq<Transport>, Seq<char>>
    decreases s.len() - i,
{
    if i >= s.len() {
        match chain_link(s, start, s.len() as int) {
            Ok(t) => Ok(seq![t]),
            Err(e) => Err(e),
        }
    } else if s[i] == '+' {
        match chain_link(s, start, i) {
            Ok(t) => match chain_from(s, i + 1, i + 1) {
                Ok(ts) => Ok(seq![t] + ts),
                Err(e) => Err(e),
            },
            Err(e) => Err(e),
        }
    } else {
        chain_from(s, start, i + 1)
    }
}

/// The chain that a `+`-joined text names.
pub open spec fn parse_chain(s: Seq<char>) -> Result<Seq<Transport>, Seq<char>> {
    chain_from(s, 0, 0)
}

/// `done`, followed by what `rest` yields.
pub open spec fn chain_after(done: Seq<Transport>, rest: Result<Seq<Transport>, Seq<char>>) -> Result<
    Seq<Transport>,
    Seq<char>,
> {
    match rest {
        Ok(ts) => Ok(done + ts),
        Err(e) => Err(e),
    }
}

/// The names of a chain, joined by `+`.
pub open spec fn joined_names(ts: Seq<Transport>) -> Seq<char>
    decreases ts.len(),
{
    if ts.len() == 0 {
        Seq::empty()
    } else if ts.len() == 1 {
        ts[0].name()
    } else {
        joined_names(ts.drop_last()) + "+"@ + ts.last().name()
    }
}

/// A canonical name holds no `+` and no white space.
pub proof fn lemma_name_is_plain(t: Transport)
    ensures
        t.name().len() > 0,
        forall|i: int| 0 <= i < t.name().len() ==> t.name()[i] != '+' && !is_space(t.name()[i]),
{
    reveal_strlit("tcp");
    reveal_strlit("unix");
    reveal_strlit("pipe");
    reveal_strlit("tor");
    reveal_strlit("ssh");
    reveal_strlit("quic");
}

/// Scanning a text behind a prefix is scanning the text itself.
proof fn lemma_chain_shift(prefix: Seq<char>, rest: Seq<char>, start: int, i: int)
    requires
        0 <= start <= i <= rest.len(),
    ensures
        chain_from(prefix + rest, prefix.len() + start, prefix.len() + i) == chain_from(
            rest,
            start,
            i,
        ),
    decreases rest.len() - i,
{
    let s = prefix + rest;
    let k = prefix.len() as int;
    assert forall|a: int, b: int| 0 <= a <= b <= rest.len() implies #[trigger] s.subrange(
        k + a,
        k + b,
    ) == rest.subrange(a, b) by {
        assert(s.subrange(k + a, k + b) =~= rest.subrange(a, b));
    }
    if i >= rest.len() {
        assert(s.subrange(k + start, s.len() as int) == rest.subrange(start, rest.len() as int));
    } else {
        assert(s[k + i] == rest[i]);
        if rest[i] == '+' {
            assert(s.subrange(k + start, k + i) == rest.subrange(start, i));
            lemma_chain_shift(prefix, rest, i + 1, i + 1);
        } else {
            lemma_chain_shift(prefix, rest, start, i + 1);
        }
    }
}

/// Scanning over the characters of a first segment without `+` changes
/// nothing.
proof fn lemma_chain_skip(s: Seq<char>, n: int, i: int)
    requires
        0 <= i <= n <= s.len(),
        forall|j: int| 0 <= j < n ==> s[j] != '+',
    ensures
        chain_from(s, 0, i) == chain_from(s, 0, n),
    decreases n - i,
{
    if i < n {
        lemma_chain_skip(s, n, i + 1);
    }
}

/// A canonical name is its own trimmed form.
proof fn lemma_name_is_trimmed(t: Transport)
    ensures
        trim(t.name()) == t.name(),
{
    lemma_name_is_plain(t);
    let n = t.name();
    assert(skip_spaces(n, 0) == 0);
    assert(skip_spaces_back(n, 0, n.len() as int) == n.len());
    assert(n.subrange(0, n.len() as int) =~= n);
}

/// The names of a chain: the first name, then `+` and the rest.
proof fn lemma_joined_names_front(ts: Seq<Transport>)
    requires
        ts.len() > 1,
    ensures
        joined_names(ts) == ts[0].name() + "+"@ + joined_names(ts.drop_first()),
    decreases ts.len(),
{
    let rest = ts.drop_first();
    if ts.len() == 2 {
        assert(ts.drop_last().len() == 1);
        assert(joined_names(ts.drop_last()) == ts[0].name());
        assert(rest.len() == 1);
        assert(joined_names(rest) == ts[1].name());
    } else {
        lemma_joined_names_front(ts.drop_last());
        assert(ts.drop_last().drop_first() =~= rest.drop_last());
        assert(ts.drop_last()[0] == ts[0]);
        assert(rest.last() == ts.last());
        assert(joined_names(ts) =~= ts[0].name() + "+"@ + joined_names(rest));
    }
}

/// Reading back the names of a chain gives the chain: for every chain
/// that is not empty, parsing its `+`-joined names yields it again.
pub proof fn lemma_chain_round_trip(ts: Seq<Transport>)
    requires
        ts.len() > 0,
    ensures
        parse_chain(joined_names(ts)) == Ok::<Seq<Transport>, Seq<char>>(ts),
    decreases ts.len(),
{
    let t = ts[0];
    let n = t.name();
    let s = joined_names(ts);
    lemma_name_is_plain(t);
    lemma_name_is_trimmed(t);
    lemma_name_resolves(t);
    reveal_strlit("+");
    if ts.len() == 1 {
        assert(s == n);
        lemma_chain_skip(s, s.len() as int, 0);
        assert(s.subrange(0, s.len() as int) =~= s);
        assert(ts =~= seq![t]);
    } else {
        let rest = ts.drop_first();
        let tail = joined_names(rest);
        lemma_joined_names_front(ts);
        lemma_chain_round_trip(rest);
        let prefix = n + "+"@;
        assert(s =~= prefix + tail);
        assert forall|j: int| 0 <= j < n.len() implies s[j] != '+' by {
            assert(s[j] == n[j]);
        }
        lemma_chain_skip(s, n.len() as int, 0);
        assert(s[n.len() as int] == '+');
        assert(s.subrange(0, n.len() as int) =~= n);
        lemma_chain_shift(prefix, tail, 0, 0);
        let k = prefix.len() as int;
        assert(k == n.len() + 1);
        assert(chain_from(s, k, k) == chain_from(tail, 0, 0));
        assert(seq![t] + rest =~= ts);
    }
}

/// An ordered sequence of transports, outermost first.
#[derive(Debug, Clone, PartialEq, Eq)]
pub struct TransportChain {
    transports: Vec<Transport>,
}

impl View for TransportChain {
    type V = Seq<Transport>;

    closed spec fn view(&self) -> Seq<Transport> {
        self.transports@
    }
}

/// Resolves the segment `v[start..end]` of a chain text.
fn resolve_link(v: &Vec<char>, start: usize, end: usize) -> (r: Option<Transport>)
    requires
        start <= end <= v.len(),
    ensures
        r == resolve_alias(trim(v@.subrange(start as int, end as int))),
{
    let (a, b) = trim_range(v, start, end);
    let token = sub_chars(v, a, b);
    resolve(&token)
}

impl TransportChain {
    /// A chain of the given transports.
    pub fn new(transports: Vec<Transport>) -> (r: Self)
        ensures
            r@ == transports@,
    {
        TransportChain { transports }
    }

    /// The chain of one transport.
    pub fn single(transport: Transport) -> (r: Self)
        ensures
            r@ == seq![transport],
    {
        let mut transports: Vec<Transport> = Vec::new();
        transports.push(transport);
        assert(transports@ =~= seq![transport]);
        TransportChain { transports }
    }

    /// The transports, outermost first.
    pub fn transports(&self) -> (r: &[Transport])
        ensures
            r@ == self@,
    {
        self.transports.as_slice()
    }

    /// The outermost transport.
    pub fn first(&self) -> (r: Option<&Transport>)
        ensures
            match r {
                Some(t) => self@.len() > 0 && *t == self@[0],
                None => self@.len() == 0,
            },
    {
        if self.transports.len() == 0 {
            None
        } else {
            Some(&self.transports[0])
        }
    }

    /// The innermost transport.
    pub fn last(&self) -> (r: Option<&Transport>)
        ensures
            match r {
                Some(t) => self@.len() > 0 && *t == self@[self@.len() - 1],
                None => self@.len() == 0,
            },
    {
        if self.transports.len() == 0 {
            None
        } else {
            Some(&self.transports[self.transports.len() - 1])
        }
    }

    /// Whether the chain has no transport.
    pub fn is_empty(&self) -> (r: bool)
        ensures
            r == (self@.len() == 0),
    {
        self.transports.len() == 0
    }

    /// The number of transports.
    pub fn len(&self) -> (r: usize)
        ensures
            r == self@.len(),
    {
        self.transports.len()
    }

    /// Reads a chain such as `tor+unix`: the text is split at each `+`,
    /// each segment is trimmed and resolved through the alias table, and
    /// the first segment that names no transport fails the whole parse.
    pub fn parse(s: &str) -> (r: Result<Self, TransportError>)
        ensures
            match r {
                Ok(chain) => parse_chain(s@) == Ok::<Seq<Transport>, Seq<char>>(chain@),
                Err(TransportError::InvalidTransport(seg)) => parse_chain(s@) == Err::<
                    Seq<Transport>,
                    Seq<char>,
                >(seg@),
                Err(_) => false,
            },
    {
        let v = chars_of(s);
        let mut out: Vec<Transport> = Vec::new();
        let mut start: usize = 0;
        let mut i: usize = 0;
        assert(chain_after(out@, chain_from(s@, 0, 0)) =~= parse_chain(s@)) by {
            match chain_from(s@, 0, 0) {
                Ok(ts) => {
                    assert(out@ + ts =~= ts);
                },
                Err(_) => {},
            }
        }
        while i < v.len()
            invariant
                start <= i <= v.len(),
                v@ == s@,
                parse_chain(s@) == chain_after(out@, chain_from(s@, start as int, i as int)),
            decreases v.len() - i,
        {
            if v[i] == '+' {
                match resolve_link(&v, start, i) {
                    Some(t) => {
                        let ghost before = out@;
                        out.push(t);
                        proof {
                            match chain_from(s@, i + 1, i + 1) {
                                Ok(ts) => {
                                    assert(before + (seq![t] + ts) =~= out@ + ts);
                                },
                                Err(_) => {},
                            }
                        }
                        start = i + 1;
                    },
                    None => {
                        return Err(TransportError::InvalidTransport(slice_string(s, start, i)));
                    },
                }
            }
            i += 1;
        }
        match resolve_link(&v, start, v.len()) {
            Some(t) => {
                let ghost before = out@;
                out.push(t);
                assert(before + seq![t] =~= out@);
                Ok(TransportChain { transports: out })
            },
            None => Err(TransportError::InvalidTransport(slice_string(s, start, v.len()))),
        }
    }

    /// The names of the chain, joined by `+`.
    pub fn to_string(&self) -> (r: String)
        ensures
            r@ == joined_names(self@),
    {
        let mut r = String::new();
        let mut i: usize = 0;
        while i < self.transports.len()
            invariant
                i <= self.transports.len(),
                r@ == joined_names(self.transports@.subrange(0, i as int)),
            decreases self.transports.len() - i,
        {
            let ghost next = self.transports@.subrange(0, i + 1);
            assert(next.drop_last() =~= self.transports@.subrange(0, i as int));
            if i > 0 {
                r.append("+");
            }
            r.append(self.transports[i].as_str());
            assert(r@ =~= joined_names(next)) by {
                if i == 0 {
                    assert(next.drop_last().len() == 0);
                }
            }
            i += 1;
        }
        assert(self.transports@.subrange(0, i as int) =~= self.transports@);
        r
    }
}

impl Default for TransportChain {
    fn default() -> (r: Self)
        ensures
            r@ == seq![Transport::Tcp],
    {
        TransportChain::single(Transport::Tcp)
    }
}

} // verus!
