//! The connector that tunnels through the local anonymizing daemon, and
//! the daemon's wire protocol: one length-prefixed request, one
//! length-prefixed response, then the raw relay stream.

use vstd::prelude::*;
use vstd::bytes::{spec_u16_to_le_bytes, spec_u64_to_le_bytes};
use vstd::utf8::encode_utf8;
use crate::text::{concat2, opt_str_view, opt_view, owned, same_text};
use crate::types::{ErrorView, TransportError};

verus! {

/// Where the daemon listens unless told otherwise.
pub const DEFAULT_TOR_SOCKET: &'static str = "/tmp/servo-sockets/corsair.sock";

/// The largest response body that the client will read, in bytes.
pub const MAX_RESPONSE_LEN: usize = 1048576;

/// The request to reach a host through the daemon.
#[derive(Debug, Clone)]
pub struct ConnectRequest {
    /// The host to reach; it may lie in the `.onion` domain.
    pub host: String,
    /// The port to reach.
    pub port: u16,
}

/// The daemon's answer to a request.
#[derive(Debug, Clone)]
pub struct ConnectResponse {
    /// Whether the tunnel stands.
    pub success: bool,
    /// The daemon's message where it does not.
    pub error: Option<String>,
}

/// The four bytes of a length, most significant first.
pub open spec fn be32(n: u32) -> Seq<u8> {
    seq![
        (n / 0x1000000) as u8,
        ((n / 0x10000) % 0x100) as u8,
        ((n / 0x100) % 0x100) as u8,
        (n % 0x100) as u8,
    ]
}

/// The length that four bytes give, most significant first.
pub open spec fn be32_value(b: Seq<u8>) -> int
    recommends
        b.len() == 4,
{
    b[0] * 0x1000000 + b[1] * 0x10000 + b[2] * 0x100 + b[3]
}

/// Reading a length back gives the length written.
pub proof fn lemma_be32_roundtrip(n: u32)
    ensures
        be32(n).len() == 4,
        be32_value(be32(n)) == n,
{
}

/// One frame: the length of the payload in four bytes, then the payload.
pub open spec fn frame_of(payload: Seq<u8>) -> Seq<u8>
    recommends
        payload.len() <= u32::MAX,
{
    be32(payload.len() as u32) + payload
}

/// The serialized form of a request: the length of the host's UTF-8 bytes
/// as eight little-endian bytes, those bytes, and the port as two
/// little-endian bytes.
pub open spec fn request_payload(host: Seq<char>, port: u16) -> Seq<u8> {
    spec_u64_to_le_bytes(encode_utf8(host).len() as u64) + encode_utf8(host) + spec_u16_to_le_bytes(
        port,
    )
}

/// The serialized form of a response: one byte for the flag, one byte
/// that says whether a message follows, and the message as the length of
/// its UTF-8 bytes in eight little-endian bytes, then those bytes.
pub open spec fn response_payload(success: bool, error: Option<Seq<char>>) -> Seq<u8> {
    seq![if success { 1u8 } else { 0u8 }] + match error {
        None => seq![0u8],
        Some(m) => seq![1u8] + spec_u64_to_le_bytes(encode_utf8(m).len() as u64) + encode_utf8(m),
    }
}

/// What `bincode` reads from the bytes of a response body: the success
/// flag and the optional message, or the text of its error.
pub uninterp spec fn decoded_response(bytes: Seq<u8>) -> Result<(bool, Option<Seq<char>>), Seq<char>>;

/// Calls `bincode::serialize` on the pair of host and port, which is laid
/// out as the request's two fields are. It sets no size limit and writes
/// into a vector, so for a string and a port it always succeeds; the
/// bytes are the fixed-width little-endian layout that
/// [`request_payload`] spells out.
#[verifier::external_body]
fn serialize_request(host: &str, port: u16) -> (r: Result<Vec<u8>, String>)
    ensures
        r is Ok,
        r->Ok_0@ == request_payload(host@, port),
{
    match bincode::serialize(&(host, port)) {
        Ok(bytes) => Ok(bytes),
        Err(e) => Err(e.to_string()),
    }
}

/// `r` is the response with this flag and this message.
pub open spec fn reads_as(
    r: Result<ConnectResponse, String>,
    success: bool,
    error: Option<Seq<char>>,
) -> bool {
    r is Ok && r->Ok_0.success == success && opt_view(r->Ok_0.error) == error
}

/// Calls `bincode::deserialize` for a pair of a flag and an optional
/// string, which is laid out as the response's two fields are. The
/// contract gives the outcome its name, [`decoded_response`], and says
/// that bytes in the layout of a response are read as that response.
#[verifier::external_body]
fn deserialize_response(data: &[u8]) -> (r: Result<ConnectResponse, String>)
    ensures
        match r {
            Ok(resp) => decoded_response(data@) == Ok::<(bool, Option<Seq<char>>), Seq<char>>(
                (resp.success, opt_view(resp.error)),
            ),
            Err(e) => decoded_response(data@) == Err::<(bool, Option<Seq<char>>), Seq<char>>(e@),
        },
        forall|success: bool, error: Option<Seq<char>>|
            data@ == #[trigger] response_payload(success, error) ==> reads_as(r, success, error),
{
    match bincode::deserialize::<(bool, Option<String>)>(data) {
        Ok((success, error)) => Ok(ConnectResponse { success, error }),
        Err(e) => Err(e.to_string()),
    }
}

/// The four bytes of a length, most significant first.
pub fn length_prefix(n: u32) -> (r: Vec<u8>)
    ensures
        r@ == be32(n),
{
    let mut r: Vec<u8> = Vec::new();
    r.push((n / 0x1000000) as u8);
    r.push(((n / 0x10000) % 0x100) as u8);
    r.push(((n / 0x100) % 0x100) as u8);
    r.push((n % 0x100) as u8);
    assert(r@ =~= be32(n));
    r
}

/// Frames a payload: its length in four big-endian bytes, then the
/// payload. A payload whose length does not fit in four bytes cannot be
/// framed.
pub fn frame(payload: &Vec<u8>) -> (r: Result<Vec<u8>, TransportError>)
    ensures
        match r {
            Ok(f) => payload@.len() <= u32::MAX && f@ == frame_of(payload@),
            Err(e) => payload@.len() > u32::MAX && e@ == ErrorView::ConnectionFailed(
                "Request too large"@,
            ),
        },
{
    if payload.len() > 0xFFFF_FFFF {
        return Err(TransportError::ConnectionFailed(owned("Request too large")));
    }
    let mut f = length_prefix(payload.len() as u32);
    let mut i: usize = 0;
    while i < payload.len()
        invariant
            i <= payload.len(),
            payload.len() <= u32::MAX,
            f@ == be32(payload@.len() as u32) + payload@.subrange(0, i as int),
        decreases payload.len() - i,
    {
        f.push(payload[i]);
        i += 1;
        assert(f@ =~= be32(payload@.len() as u32) + payload@.subrange(0, i as int));
    }
    assert(payload@.subrange(0, i as int) =~= payload@);
    Ok(f)
}

/// The frame for a request, given what serializing it came to: the framed
/// payload; a payload too long to frame and a failed serialization are
/// connection failures.
pub open spec fn request_frame(serialized: Result<Seq<u8>, Seq<char>>) -> Result<
    Seq<u8>,
    ErrorView,
> {
    match serialized {
        Ok(payload) => if payload.len() <= u32::MAX {
            Ok(frame_of(payload))
        } else {
            Err(ErrorView::ConnectionFailed("Request too large"@))
        },
        Err(m) => Err(ErrorView::ConnectionFailed("Serialize error: "@ + m)),
    }
}

/// The outcome of serializing, seen through its views.
pub open spec fn serialized_view(serialized: Result<Vec<u8>, String>) -> Result<
    Seq<u8>,
    Seq<char>,
> {
    match serialized {
        Ok(bytes) => Ok(bytes@),
        Err(m) => Err(m@),
    }
}

/// `r`, seen through the views of its value and its error.
pub open spec fn frame_outcome(r: Result<Vec<u8>, TransportError>) -> Result<Seq<u8>, ErrorView> {
    match r {
        Ok(bytes) => Ok(bytes@),
        Err(e) => Err(e@),
    }
}

/// Frames a request, given what serializing it came to.
pub fn frame_serialized(serialized: Result<Vec<u8>, String>) -> (r: Result<
    Vec<u8>,
    TransportError,
>)
    ensures
        frame_outcome(r) == request_frame(serialized_view(serialized)),
{
    match serialized {
        Ok(payload) => frame(&payload),
        Err(m) => Err(
            TransportError::ConnectionFailed(concat2("Serialize error: ", m.as_str())),
        ),
    }
}

/// The frame that asks the daemon for a tunnel to `host:port`: the framed
/// request, unless the request is too long to frame.
pub fn frame_request(request: &ConnectRequest) -> (r: Result<Vec<u8>, TransportError>)
    ensures
        frame_outcome(r) == request_frame(
            Ok::<Seq<u8>, Seq<char>>(request_payload(request.host@, request.port)),
        ),
{
    frame_serialized(serialize_request(request.host.as_str(), request.port))
}

/// Reads the length that a response declares. A length over one mebibyte
/// is refused before any of the body is read.
pub fn response_length(header: [u8; 4]) -> (r: Result<usize, TransportError>)
    ensures
        match r {
            Ok(n) => n == be32_value(header@) && n <= MAX_RESPONSE_LEN,
            Err(e) => be32_value(header@) > MAX_RESPONSE_LEN && e@ == ErrorView::ConnectionFailed(
                "Response too large"@,
            ),
        },
{
    let n: u32 = (header[0] as u32) * 0x1000000 + (header[1] as u32) * 0x10000 + (header[2] as u32)
        * 0x100 + (header[3] as u32);
    if n > 1048576 {
        Err(TransportError::ConnectionFailed(owned("Response too large")))
    } else {
        Ok(n as usize)
    }
}

/// What the handshake makes of a decoded response: the tunnel stands
/// where the daemon says so; else the failure carries the daemon's
/// message, or a generic one where it gave none.
pub open spec fn verdict(success: bool, error: Option<Seq<char>>) -> Result<(), ErrorView> {
    if success {
        Ok(())
    } else {
        match error {
            Some(m) => Err(ErrorView::ConnectionFailed(m)),
            None => Err(ErrorView::ConnectionFailed("Unknown error"@)),
        }
    }
}

/// What the handshake makes of the outcome of decoding a response body.
pub open spec fn body_verdict(decoded: Result<(bool, Option<Seq<char>>), Seq<char>>) -> Result<
    (),
    ErrorView,
> {
    match decoded {
        Ok((success, error)) => verdict(success, error),
        Err(m) => Err(ErrorView::ConnectionFailed("Deserialize error: "@ + m)),
    }
}

/// `r`, seen through the view of its error.
pub open spec fn outcome(r: Result<(), TransportError>) -> Result<(), ErrorView> {
    match r {
        Ok(()) => Ok(()),
        Err(e) => Err(e@),
    }
}

/// Judges a decoded response.
pub fn check_response(response: ConnectResponse) -> (r: Result<(), TransportError>)
    ensures
        outcome(r) == verdict(response.success, opt_view(response.error)),
{
    if response.success {
        Ok(())
    } else {
        match response.error {
            Some(m) => Err(TransportError::ConnectionFailed(m)),
            None => Err(TransportError::ConnectionFailed(owned("Unknown error"))),
        }
    }
}

/// The outcome of decoding, seen through its views.
pub open spec fn response_view(decoded: Result<ConnectResponse, String>) -> Result<
    (bool, Option<Seq<char>>),
    Seq<char>,
> {
    match decoded {
        Ok(resp) => Ok((resp.success, opt_view(resp.error))),
        Err(m) => Err(m@),
    }
}

/// Judges what decoding a response body came to: a response is judged
/// as it stands, and a body that could not be decoded fails the handshake.
pub fn interpret_body(decoded: Result<ConnectResponse, String>) -> (r: Result<(), TransportError>)
    ensures
        outcome(r) == body_verdict(response_view(decoded)),
{
    match decoded {
        Ok(resp) => check_response(resp),
        Err(m) => Err(
            TransportError::ConnectionFailed(concat2("Deserialize error: ", m.as_str())),
        ),
    }
}

/// Decodes a response body. Bytes in the layout of a response are read
/// as that response.
pub fn decode_response(data: &Vec<u8>) -> (r: Result<ConnectResponse, TransportError>)
    ensures
        match r {
            Ok(resp) => decoded_response(data@) == Ok::<(bool, Option<Seq<char>>), Seq<char>>(
                (resp.success, opt_view(resp.error)),
            ),
            Err(e) => decoded_response(data@) is Err && e@ == ErrorView::ConnectionFailed(
                "Deserialize error: "@ + decoded_response(data@)->Err_0,
            ),
        },
        forall|success: bool, error: Option<Seq<char>>|
            data@ == #[trigger] response_payload(success, error) ==> r is Ok && r->Ok_0.success
                == success && opt_view(r->Ok_0.error) == error,
{
    match deserialize_response(data.as_slice()) {
        Ok(resp) => Ok(resp),
        Err(e) => Err(
            TransportError::ConnectionFailed(concat2("Deserialize error: ", e.as_str())),
        ),
    }
}

/// Decodes and judges a response body. Bytes in the layout of a response
/// are judged as that response.
pub fn judge_body(data: &Vec<u8>) -> (r: Result<(), TransportError>)
    ensures
        outcome(r) == body_verdict(decoded_response(data@)),
        forall|success: bool, error: Option<Seq<char>>|
            data@ == #[trigger] response_payload(success, error) ==> outcome(r) == verdict(
                success,
                error,
            ),
{
    interpret_body(deserialize_response(data.as_slice()))
}

/// The host and port of the tunnel that a request asks for, given what its
/// URI holds: the host must be there; the port is the one named, else 443
/// for `https` and 80 for every other scheme or none.
pub open spec fn tunnel_target_spec(
    host: Option<Seq<char>>,
    port: Option<u16>,
    scheme: Option<Seq<char>>,
) -> Result<(Seq<char>, u16), ErrorView> {
    match host {
        None => Err(ErrorView::InvalidUrl("No host in URI"@)),
        Some(h) => Ok(
            (
                h,
                match port {
                    Some(p) => p,
                    None => if scheme == Some("https"@) {
                        443
                    } else {
                        80
                    },
                },
            ),
        ),
    }
}

/// The host and port of the tunnel that a request asks for.
pub fn tunnel_target(host: Option<&str>, port: Option<u16>, scheme: Option<&str>) -> (r: Result<
    (String, u16),
    TransportError,
>)
    ensures
        match r {
            Ok((h, p)) => tunnel_target_spec(opt_str_view(host), port, opt_str_view(scheme)) == Ok::<
                (Seq<char>, u16),
                ErrorView,
            >((h@, p)),
            Err(e) => tunnel_target_spec(opt_str_view(host), port, opt_str_view(scheme)) == Err::<
                (Seq<char>, u16),
                ErrorView,
            >(e@),
        },
{
    match host {
        None => Err(TransportError::InvalidUrl(owned("No host in URI"))),
        Some(h) => {
            let p: u16 = match port {
                Some(p) => p,
                None => match scheme {
                    Some(s) => if same_text(s, "https") {
                        443
                    } else {
                        80
                    },
                    None => 80,
                },
            };
            Ok((owned(h), p))
        },
    }
}

/// Where a handshake stands.
#[derive(Debug, Clone, Copy, PartialEq, Eq, Structural)]
pub enum HandshakeState {
    /// The daemon's socket is being connected.
    Connecting,
    /// The request frame is being written and flushed.
    Sending,
    /// The four bytes of the response's length are being read.
    ReadingLength,
    /// A response body of this many bytes is being read.
    ReadingBody(usize),
    /// The tunnel stands; the socket is the relay stream.
    Established,
    /// The handshake has failed; the socket must not be used again.
    Failed,
}

/// What has happened on the daemon's socket.
#[derive(Debug)]
pub enum HandshakeEvent {
    /// The socket is connected.
    Connected,
    /// The socket could not be connected.
    ConnectFailed,
    /// The bytes handed out were written and flushed.
    Sent,
    /// The bytes asked for were read, exactly as many.
    Received(Vec<u8>),
    /// A read or a write failed.
    IoFailed(std::io::Error),
}

/// What to do next on the daemon's socket.
#[derive(Debug)]
pub enum HandshakeAction {
    /// Write all of these bytes, then flush.
    Send(Vec<u8>),
    /// Read exactly this many bytes.
    Read(usize),
    /// Hand the socket to the caller as the relay stream.
    Finish,
    /// Give up with this error.
    Fail(TransportError),
}

/// The action is to give up with an error of the given value.
pub open spec fn fails_with(action: HandshakeAction, error: ErrorView) -> bool {
    action is Fail && action->Fail_0@ == error
}

/// The step that the protocol prescribes in `state` on `event`, for a
/// tunnel to `host:port`.
///
/// * Connected: the request frame is sent, unless the request is too
///   long to frame. Not connected: the daemon is not available.
/// * Sent: the four bytes of the length are read.
/// * Length read: a length over one mebibyte fails the handshake at once,
///   and no body is read; else exactly that many bytes are read.
/// * Body read: the response is decoded and judged.
/// * A failed read or write is passed on as it is.
/// * An event that the state does not wait for fails the handshake.
pub open spec fn step_spec(
    state: HandshakeState,
    event: HandshakeEvent,
    host: Seq<char>,
    port: u16,
    next: HandshakeState,
    action: HandshakeAction,
) -> bool {
    match (state, event) {
        (HandshakeState::Connecting, HandshakeEvent::Connected) => {
            if request_payload(host, port).len() <= u32::MAX {
                next == HandshakeState::Sending && action is Send && action->Send_0@ == frame_of(
                    request_payload(host, port),
                )
            } else {
                next == HandshakeState::Failed && fails_with(
                    action,
                    ErrorView::ConnectionFailed("Request too large"@),
                )
            }
        },
        (HandshakeState::Connecting, HandshakeEvent::ConnectFailed) => {
            next == HandshakeState::Failed && fails_with(action, ErrorView::TorNotAvailable)
        },
        (HandshakeState::Sending, HandshakeEvent::Sent) => {
            next == HandshakeState::ReadingLength && action is Read && action->Read_0 == 4
        },
        (HandshakeState::ReadingLength, HandshakeEvent::Received(header)) => {
            if header@.len() != 4 {
                next == HandshakeState::Failed && fails_with(
                    action,
                    ErrorView::ConnectionFailed("Unexpected event"@),
                )
            } else if be32_value(header@) > MAX_RESPONSE_LEN {
                next == HandshakeState::Failed && fails_with(
                    action,
                    ErrorView::ConnectionFailed("Response too large"@),
                )
            } else {
                next == HandshakeState::ReadingBody(be32_value(header@) as usize) && action is Read
                    && action->Read_0 == be32_value(header@)
            }
        },
        (HandshakeState::ReadingBody(n), HandshakeEvent::Received(body)) => {
            if body@.len() != n {
                next == HandshakeState::Failed && fails_with(
                    action,
                    ErrorView::ConnectionFailed("Unexpected event"@),
                )
            } else {
                match body_verdict(decoded_response(body@)) {
                    Ok(()) => next == HandshakeState::Established && action is Finish,
                    Err(e) => next == HandshakeState::Failed && fails_with(action, e),
                }
            }
        },
        (HandshakeState::Sending, HandshakeEvent::IoFailed(e)) => {
            next == HandshakeState::Failed && fails_with(action, ErrorView::Io(e))
        },
        (HandshakeState::ReadingLength, HandshakeEvent::IoFailed(e)) => {
            next == HandshakeState::Failed && fails_with(action, ErrorView::Io(e))
        },
        (HandshakeState::ReadingBody(_), HandshakeEvent::IoFailed(e)) => {
            next == HandshakeState::Failed && fails_with(action, ErrorView::Io(e))
        },
        _ => next == HandshakeState::Failed && fails_with(
            action,
            ErrorView::ConnectionFailed("Unexpected event"@),
        ),
    }
}

/// The event is the arrival of the awaited body, and the body is the
/// bytes of the response with this flag and this message.
pub open spec fn is_response(
    state: HandshakeState,
    event: HandshakeEvent,
    success: bool,
    error: Option<Seq<char>>,
) -> bool {
    &&& state is ReadingBody
    &&& event is Received
    &&& event->Received_0@.len() == state->ReadingBody_0
    &&& event->Received_0@ == response_payload(success, error)
}

/// The handshake ends as a verdict says: done, or failed with the
/// verdict's error.
pub open spec fn ends_as(
    verdict: Result<(), ErrorView>,
    next: HandshakeState,
    action: HandshakeAction,
) -> bool {
    match verdict {
        Ok(()) => next == HandshakeState::Established && action is Finish,
        Err(e) => next == HandshakeState::Failed && fails_with(action, e),
    }
}

/// The failure for an event that the state does not wait for.
fn unexpected() -> (r: (HandshakeState, HandshakeAction))
    ensures
        r.0 == HandshakeState::Failed,
        fails_with(r.1, ErrorView::ConnectionFailed("Unexpected event"@)),
{
    (
        HandshakeState::Failed,
        HandshakeAction::Fail(TransportError::ConnectionFailed(owned("Unexpected event"))),
    )
}

/// The connector that reaches hosts through the daemon.
#[derive(Debug, Clone)]
pub struct TorConnector {
    socket_path: String,
}

impl TorConnector {
    /// The path of the daemon's socket.
    pub closed spec fn path(&self) -> Seq<char> {
        self.socket_path@
    }

    /// A connector for the daemon at its default path.
    pub fn new() -> (r: Self)
        ensures
            r.path() == DEFAULT_TOR_SOCKET@,
    {
        TorConnector { socket_path: owned(DEFAULT_TOR_SOCKET) }
    }

    /// A connector for the daemon at `socket_path`.
    pub fn with_socket(socket_path: &str) -> (r: Self)
        ensures
            r.path() == socket_path@,
    {
        TorConnector { socket_path: owned(socket_path) }
    }

    /// The path of the daemon's socket.
    pub fn socket_path(&self) -> (r: &str)
        ensures
            r@ == self.path(),
    {
        self.socket_path.as_str()
    }

    /// The state in which every handshake begins: the caller connects the
    /// daemon's socket and reports how that went.
    pub fn begin(&self) -> (r: HandshakeState)
        ensures
            r == HandshakeState::Connecting,
    {
        HandshakeState::Connecting
    }

    /// One step of the handshake for a tunnel to `host:port`: given where
    /// the handshake stands and what has happened on the socket, where it
    /// stands now and what to do next.
    ///
    /// Where the body that was awaited arrives as the bytes of a
    /// response, the handshake ends as that response decides: done where
    /// it reports success, failed with the daemon's message where it does
    /// not.
    pub fn step(&self, state: HandshakeState, event: HandshakeEvent, host: &str, port: u16) -> (r: (
        HandshakeState,
        HandshakeAction,
    ))
        ensures
            step_spec(state, event, host@, port, r.0, r.1),
            forall|success: bool, error: Option<Seq<char>>|
                #[trigger] is_response(state, event, success, error) ==> ends_as(
                    verdict(success, error),
                    r.0,
                    r.1,
                ),
    {
        match state {
            HandshakeState::Connecting => match event {
                HandshakeEvent::Connected => {
                    let request = ConnectRequest { host: owned(host), port };
                    match frame_request(&request) {
                        Ok(f) => (HandshakeState::Sending, HandshakeAction::Send(f)),
                        Err(e) => (HandshakeState::Failed, HandshakeAction::Fail(e)),
                    }
                },
                HandshakeEvent::ConnectFailed => (
                    HandshakeState::Failed,
                    HandshakeAction::Fail(TransportError::TorNotAvailable),
                ),
                _ => unexpected(),
            },
            HandshakeState::Sending => match event {
                HandshakeEvent::Sent => (HandshakeState::ReadingLength, HandshakeAction::Read(4)),
                HandshakeEvent::IoFailed(e) => (
                    HandshakeState::Failed,
                    HandshakeAction::Fail(TransportError::Io(e)),
                ),
                _ => unexpected(),
            },
            HandshakeState::ReadingLength => match event {
                HandshakeEvent::Received(header) => {
                    if header.len() != 4 {
                        unexpected()
                    } else {
                        let bytes: [u8; 4] = [header[0], header[1], header[2], header[3]];
                        assert(bytes@ =~= header@);
                        match response_length(bytes) {
                            Ok(n) => (HandshakeState::ReadingBody(n), HandshakeAction::Read(n)),
                            Err(e) => (HandshakeState::Failed, HandshakeAction::Fail(e)),
                        }
                    }
                },
                HandshakeEvent::IoFailed(e) => (
                    HandshakeState::Failed,
                    HandshakeAction::Fail(TransportError::Io(e)),
                ),
                _ => unexpected(),
            },
            HandshakeState::ReadingBody(n) => match event {
                HandshakeEvent::Received(body) => {
                    if body.len() != n {
                        unexpected()
                    } else {
                        match judge_body(&body) {
                            Ok(()) => (HandshakeState::Established, HandshakeAction::Finish),
                            Err(e) => (HandshakeState::Failed, HandshakeAction::Fail(e)),
                        }
                    }
                },
                HandshakeEvent::IoFailed(e) => (
                    HandshakeState::Failed,
                    HandshakeAction::Fail(TransportError::Io(e)),
                ),
                _ => unexpected(),
            },
            _ => unexpected(),
        }
    }
}

impl Default for TorConnector {
    fn default() -> (r: Self)
        ensures
            r.path() == DEFAULT_TOR_SOCKET@,
    {
        TorConnector::new()
    }
}

/// A declared length over one mebibyte ends the handshake before any of
/// the body is asked for.
pub proof fn lemma_oversized_response_is_refused(
    header: Vec<u8>,
    host: Seq<char>,
    port: u16,
    next: HandshakeState,
    action: HandshakeAction,
)
    requires
        header@.len() == 4,
        be32_value(header@) > MAX_RESPONSE_LEN,
        step_spec(
            HandshakeState::ReadingLength,
            HandshakeEvent::Received(header),
            host,
            port,
            next,
            action,
        ),
    ensures
        next == HandshakeState::Failed,
        !(action is Read),
        fails_with(action, ErrorView::ConnectionFailed("Response too large"@)),
{
}

/// Where the daemon answers that it failed, the handshake fails with the
/// daemon's own message.
pub proof fn lemma_daemon_failure_is_reported(
    body: Vec<u8>,
    message: Seq<char>,
    host: Seq<char>,
    port: u16,
    next: HandshakeState,
    action: HandshakeAction,
)
    requires
        decoded_response(body@) == Ok::<(bool, Option<Seq<char>>), Seq<char>>(
            (false, Some(message)),
        ),
        step_spec(
            HandshakeState::ReadingBody(body.len()),
            HandshakeEvent::Received(body),
            host,
            port,
            next,
            action,
        ),
    ensures
        next == HandshakeState::Failed,
        fails_with(action, ErrorView::ConnectionFailed(message)),
{
}

} // verus!
