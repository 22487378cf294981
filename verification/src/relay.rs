//! The WebSocket relay: upgrade detection, the upstream handshake
//! request, the client-facing upgrade response, and the per-session
//! state machine that pumps frames between client and backend.
//!
//! The machine moves `Pending → HandshakeSent → Relaying → Closed`.
//! While relaying, application frames are translated one-to-one by
//! variant, protocol-internal raw frames are consumed, and a close frame
//! or an error on either side ends the session: both write halves are
//! asked to close and nothing further is forwarded.
use vstd::prelude::*;

use crate::ascii::{bytes_eq_ci, copy_bytes};
use crate::headers::{bearer, first_value_ci, hview, make_bearer, pv, HeaderPair};
use crate::names::{
    b_access_token_prefix, b_authorization, b_connection, b_host, b_origin,
    b_sec_websocket_accept, b_sec_websocket_key, b_sec_websocket_protocol,
    b_sec_websocket_version, b_upgrade, b_upgrade_token, b_websocket, b_ws_version,
    b_access_token, n_access_token, n_access_token_prefix, n_authorization, n_connection, n_host,
    n_origin, n_sec_websocket_accept, n_sec_websocket_key, n_sec_websocket_protocol,
    n_sec_websocket_version, n_upgrade, n_upgrade_token, n_websocket, n_ws_version,
};

verus! {

/// One WebSocket frame, as the relay sees it.  `Raw` stands for the
/// protocol-internal raw/continuation frames, which are never forwarded
/// as application messages.
pub enum Frame {
    Text(Vec<u8>),
    Binary(Vec<u8>),
    Ping(Vec<u8>),
    Pong(Vec<u8>),
    Close,
    Raw,
}

/// The mathematical value of a frame.
pub enum FrameV {
    Text(Seq<u8>),
    Binary(Seq<u8>),
    Ping(Seq<u8>),
    Pong(Seq<u8>),
    Close,
    Raw,
}

impl View for Frame {
    type V = FrameV;

    open spec fn view(&self) -> FrameV {
        match self {
            Frame::Text(p) => FrameV::Text(p@),
            Frame::Binary(p) => FrameV::Binary(p@),
            Frame::Ping(p) => FrameV::Ping(p@),
            Frame::Pong(p) => FrameV::Pong(p@),
            Frame::Close => FrameV::Close,
            Frame::Raw => FrameV::Raw,
        }
    }
}

/// Where a relay session stands.
#[derive(PartialEq, Eq, Structural, Clone, Copy, Debug)]
pub enum SessionState {
    /// Nothing has happened yet.
    Pending,
    /// The upstream handshake request has been composed and sent.
    HandshakeSent,
    /// Both connections stand; frames are being pumped.
    Relaying,
    /// Terminal: both write halves have been asked to close.
    Closed,
}

/// What the surrounding connection loop reports to the machine.
pub enum SessionEvent {
    /// The upstream handshake request was composed and handed to the
    /// transport.
    HandshakePrepared,
    /// The backend accepted the upstream handshake.
    HandshakeSucceeded,
    /// The backend refused the handshake or could not be reached.
    HandshakeFailed,
    /// A frame arrived from the client.
    ClientFrame(Frame),
    /// A frame arrived from the backend.
    BackendFrame(Frame),
    /// Reading from or writing to the client failed.
    ClientError,
    /// Reading from or writing to the backend failed.
    BackendError,
}

/// The mathematical value of a session event.
pub enum SessionEventV {
    HandshakePrepared,
    HandshakeSucceeded,
    HandshakeFailed,
    ClientFrame(FrameV),
    BackendFrame(FrameV),
    ClientError,
    BackendError,
}

impl View for SessionEvent {
    type V = SessionEventV;

    open spec fn view(&self) -> SessionEventV {
        match self {
            SessionEvent::HandshakePrepared => SessionEventV::HandshakePrepared,
            SessionEvent::HandshakeSucceeded => SessionEventV::HandshakeSucceeded,
            SessionEvent::HandshakeFailed => SessionEventV::HandshakeFailed,
            SessionEvent::ClientFrame(f) => SessionEventV::ClientFrame(f@),
            SessionEvent::BackendFrame(f) => SessionEventV::BackendFrame(f@),
            SessionEvent::ClientError => SessionEventV::ClientError,
            SessionEvent::BackendError => SessionEventV::BackendError,
        }
    }
}

/// What the surrounding connection loop must do next.
pub enum RelayAction {
    /// Nothing; keep pumping.
    Stay,
    /// Complete the client-facing upgrade: both sides stand.
    CompleteUpgrade,
    /// Refuse the client-facing upgrade with Bad Gateway.
    RefuseUpstream,
    /// Write the frame to the backend.
    SendToBackend(Frame),
    /// Write the frame to the client.
    SendToClient(Frame),
    /// Close both write halves; the session is over.
    CloseBoth,
}

/// The mathematical value of a relay action.
pub enum RelayActionV {
    Stay,
    CompleteUpgrade,
    RefuseUpstream,
    SendToBackend(FrameV),
    SendToClient(FrameV),
    CloseBoth,
}

impl View for RelayAction {
    type V = RelayActionV;

    open spec fn view(&self) -> RelayActionV {
        match self {
            RelayAction::Stay => RelayActionV::Stay,
            RelayAction::CompleteUpgrade => RelayActionV::CompleteUpgrade,
            RelayAction::RefuseUpstream => RelayActionV::RefuseUpstream,
            RelayAction::SendToBackend(f) => RelayActionV::SendToBackend(f@),
            RelayAction::SendToClient(f) => RelayActionV::SendToClient(f@),
            RelayAction::CloseBoth => RelayActionV::CloseBoth,
        }
    }
}

/// The transition function of the relay session machine.
pub open spec fn spec_session_step(s: SessionState, e: SessionEventV) -> (
    SessionState,
    RelayActionV,
) {
    match s {
        SessionState::Pending => match e {
            SessionEventV::HandshakePrepared => (SessionState::HandshakeSent, RelayActionV::Stay),
            _ => (SessionState::Pending, RelayActionV::Stay),
        },
        SessionState::HandshakeSent => match e {
            SessionEventV::HandshakeSucceeded => (
                SessionState::Relaying,
                RelayActionV::CompleteUpgrade,
            ),
            SessionEventV::HandshakeFailed => (SessionState::Closed, RelayActionV::RefuseUpstream),
            _ => (SessionState::HandshakeSent, RelayActionV::Stay),
        },
        SessionState::Relaying => match e {
            SessionEventV::ClientFrame(f) => match f {
                FrameV::Close => (SessionState::Closed, RelayActionV::CloseBoth),
                FrameV::Raw => (SessionState::Relaying, RelayActionV::Stay),
                _ => (SessionState::Relaying, RelayActionV::SendToBackend(f)),
            },
            SessionEventV::BackendFrame(f) => match f {
                FrameV::Close => (SessionState::Closed, RelayActionV::CloseBoth),
                FrameV::Raw => (SessionState::Relaying, RelayActionV::Stay),
                _ => (SessionState::Relaying, RelayActionV::SendToClient(f)),
            },
            SessionEventV::ClientError => (SessionState::Closed, RelayActionV::CloseBoth),
            SessionEventV::BackendError => (SessionState::Closed, RelayActionV::CloseBoth),
            _ => (SessionState::Relaying, RelayActionV::Stay),
        },
        SessionState::Closed => (SessionState::Closed, RelayActionV::Stay),
    }
}

/// Advances the session machine by one event.
pub fn session_step(s: SessionState, e: SessionEvent) -> (r: (SessionState, RelayAction))
    ensures
        r.0 == spec_session_step(s, e@).0,
        r.1@ == spec_session_step(s, e@).1,
{
    match s {
        SessionState::Pending => match e {
            SessionEvent::HandshakePrepared => (SessionState::HandshakeSent, RelayAction::Stay),
            _ => (SessionState::Pending, RelayAction::Stay),
        },
        SessionState::HandshakeSent => match e {
            SessionEvent::HandshakeSucceeded => (
                SessionState::Relaying,
                RelayAction::CompleteUpgrade,
            ),
            SessionEvent::HandshakeFailed => (SessionState::Closed, RelayAction::RefuseUpstream),
            _ => (SessionState::HandshakeSent, RelayAction::Stay),
        },
        SessionState::Relaying => match e {
            SessionEvent::ClientFrame(f) => match f {
                Frame::Close => (SessionState::Closed, RelayAction::CloseBoth),
                Frame::Raw => (SessionState::Relaying, RelayAction::Stay),
                other => (SessionState::Relaying, RelayAction::SendToBackend(other)),
            },
            SessionEvent::BackendFrame(f) => match f {
                Frame::Close => (SessionState::Closed, RelayAction::CloseBoth),
                Frame::Raw => (SessionState::Relaying, RelayAction::Stay),
                other => (SessionState::Relaying, RelayAction::SendToClient(other)),
            },
            SessionEvent::ClientError => (SessionState::Closed, RelayAction::CloseBoth),
            SessionEvent::BackendError => (SessionState::Closed, RelayAction::CloseBoth),
            _ => (SessionState::Relaying, RelayAction::Stay),
        },
        SessionState::Closed => (SessionState::Closed, RelayAction::Stay),
    }
}

/// While relaying, application frames cross the gateway one-to-one by
/// variant with their payload bytes untouched, in both directions.
pub proof fn lemma_relay_preserves_frames(p: Seq<u8>)
    ensures
        spec_session_step(SessionState::Relaying, SessionEventV::ClientFrame(FrameV::Text(p))) == (
            SessionState::Relaying,
            RelayActionV::SendToBackend(FrameV::Text(p)),
        ),
        spec_session_step(SessionState::Relaying, SessionEventV::BackendFrame(FrameV::Text(p)))
            == (SessionState::Relaying, RelayActionV::SendToClient(FrameV::Text(p))),
        spec_session_step(SessionState::Relaying, SessionEventV::ClientFrame(FrameV::Binary(p)))
            == (SessionState::Relaying, RelayActionV::SendToBackend(FrameV::Binary(p))),
        spec_session_step(SessionState::Relaying, SessionEventV::BackendFrame(FrameV::Binary(p)))
            == (SessionState::Relaying, RelayActionV::SendToClient(FrameV::Binary(p))),
        spec_session_step(SessionState::Relaying, SessionEventV::ClientFrame(FrameV::Ping(p))) == (
            SessionState::Relaying,
            RelayActionV::SendToBackend(FrameV::Ping(p)),
        ),
        spec_session_step(SessionState::Relaying, SessionEventV::BackendFrame(FrameV::Pong(p)))
            == (SessionState::Relaying, RelayActionV::SendToClient(FrameV::Pong(p))),
{
}

/// Protocol-internal raw frames are consumed by the relay, never
/// forwarded, and do not end the session.
pub proof fn lemma_raw_frames_consumed()
    ensures
        spec_session_step(SessionState::Relaying, SessionEventV::ClientFrame(FrameV::Raw)) == (
            SessionState::Relaying,
            RelayActionV::Stay,
        ),
        spec_session_step(SessionState::Relaying, SessionEventV::BackendFrame(FrameV::Raw)) == (
            SessionState::Relaying,
            RelayActionV::Stay,
        ),
{
}

/// Termination symmetry: whichever side closes or fails first, the
/// session moves to `Closed`, both write halves are asked to close, and
/// from `Closed` no event makes the relay forward anything again.
pub proof fn lemma_termination_symmetry(e: SessionEventV)
    ensures
        spec_session_step(SessionState::Relaying, SessionEventV::ClientFrame(FrameV::Close)) == (
            SessionState::Closed,
            RelayActionV::CloseBoth,
        ),
        spec_session_step(SessionState::Relaying, SessionEventV::BackendFrame(FrameV::Close)) == (
            SessionState::Closed,
            RelayActionV::CloseBoth,
        ),
        spec_session_step(SessionState::Relaying, SessionEventV::ClientError) == (
            SessionState::Closed,
            RelayActionV::CloseBoth,
        ),
        spec_session_step(SessionState::Relaying, SessionEventV::BackendError) == (
            SessionState::Closed,
            RelayActionV::CloseBoth,
        ),
        spec_session_step(SessionState::Closed, e).0 == SessionState::Closed,
        spec_session_step(SessionState::Closed, e).1 == RelayActionV::Stay,
{
}

/// Is the inbound request a WebSocket upgrade?  True exactly when the
/// first `Upgrade` header carries the value `websocket`, both compared
/// case-insensitively.
pub open spec fn spec_is_ws_upgrade(h: Seq<(Seq<u8>, Seq<u8>)>) -> bool {
    let u = first_value_ci(h, n_upgrade());
    u is Some && crate::ascii::eq_ci(u->0, n_websocket())
}

/// Detects an inbound WebSocket upgrade request.
pub fn is_websocket_upgrade(headers: &Vec<HeaderPair>) -> (r: bool)
    ensures
        r == spec_is_ws_upgrade(hview(headers@)),
{
    let u = crate::headers::find_first_ci(headers, b_upgrade().as_slice());
    match u {
        Some(v) => bytes_eq_ci(v.as_slice(), b_websocket().as_slice()),
        None => false,
    }
}

/// The headers of the upstream handshake request: the fixed upgrade
/// headers, then the sub-protocol list carrying the extracted credential
/// when one was found, then the service credential as a bearer
/// `Authorization` when non-empty, then the client's `Origin` when
/// present.
pub open spec fn spec_handshake_headers(
    host: Seq<u8>,
    key: Seq<u8>,
    token: Option<Seq<u8>>,
    cred: Seq<u8>,
    origin: Option<Seq<u8>>,
) -> Seq<(Seq<u8>, Seq<u8>)> {
    let base = seq![
        (n_host(), host),
        (n_upgrade(), n_websocket()),
        (n_connection(), n_upgrade_token()),
        (n_sec_websocket_version(), n_ws_version()),
        (n_sec_websocket_key(), key),
    ];
    let with_token = if token is Some {
        base.push((n_sec_websocket_protocol(), n_access_token_prefix() + token->0))
    } else {
        base
    };
    let with_cred = if cred.len() > 0 {
        with_token.push((n_authorization(), bearer(cred)))
    } else {
        with_token
    };
    if origin is Some {
        with_cred.push((n_origin(), origin->0))
    } else {
        with_cred
    }
}

/// Composes the upstream handshake request headers.
pub fn build_handshake_headers(
    host: &[u8],
    key: &[u8],
    token: Option<&[u8]>,
    credential: &[u8],
    origin: Option<&[u8]>,
) -> (r: Vec<HeaderPair>)
    ensures
        hview(r@) == spec_handshake_headers(
            host@,
            key@,
            crate::target::q_at(token),
            credential@,
            crate::target::q_at(origin),
        ),
{
    let mut out: Vec<HeaderPair> = Vec::new();
    out.push(HeaderPair { name: b_host(), value: copy_bytes(host) });
    out.push(HeaderPair { name: b_upgrade(), value: b_websocket() });
    out.push(HeaderPair { name: b_connection(), value: b_upgrade_token() });
    out.push(HeaderPair { name: b_sec_websocket_version(), value: b_ws_version() });
    out.push(HeaderPair { name: b_sec_websocket_key(), value: copy_bytes(key) });
    let ghost base = seq![
        (n_host(), host@),
        (n_upgrade(), n_websocket()),
        (n_connection(), n_upgrade_token()),
        (n_sec_websocket_version(), n_ws_version()),
        (n_sec_websocket_key(), key@),
    ];
    proof {
        assert(hview(out@) =~= base);
    }
    match token {
        Some(t) => {
            let mut value = b_access_token_prefix();
            crate::ascii::append_bytes(&mut value, t);
            let p = HeaderPair { name: b_sec_websocket_protocol(), value };
            proof {
                assert(hview(out@.push(p)) =~= hview(out@).push(pv(p)));
            }
            out.push(p);
        },
        None => {},
    }
    if credential.len() > 0 {
        let p = HeaderPair { name: b_authorization(), value: make_bearer(credential) };
        proof {
            assert(hview(out@.push(p)) =~= hview(out@).push(pv(p)));
        }
        out.push(p);
    }
    match origin {
        Some(o) => {
            let p = HeaderPair { name: b_origin(), value: copy_bytes(o) };
            proof {
                assert(hview(out@.push(p)) =~= hview(out@).push(pv(p)));
            }
            out.push(p);
        },
        None => {},
    }
    out
}

/// The status and headers of the client-facing upgrade response: 101
/// Switching Protocols, the fixed upgrade headers, the `access_token`
/// sub-protocol echo when a credential was negotiated, and the backend's
/// accept key when it sent one.
pub open spec fn spec_upgrade_response(token_present: bool, accept: Option<Seq<u8>>) -> Seq<
    (Seq<u8>, Seq<u8>),
> {
    let base = seq![(n_upgrade(), n_websocket()), (n_connection(), n_upgrade_token())];
    let with_proto = if token_present {
        base.push((n_sec_websocket_protocol(), n_access_token()))
    } else {
        base
    };
    if accept is Some {
        with_proto.push((n_sec_websocket_accept(), accept->0))
    } else {
        with_proto
    }
}

/// Composes the client-facing upgrade response.
pub fn build_upgrade_response(token_present: bool, accept: Option<&[u8]>) -> (r: (
    u16,
    Vec<HeaderPair>,
))
    ensures
        r.0 == 101,
        hview(r.1@) == spec_upgrade_response(token_present, crate::target::q_at(accept)),
{
    let mut out: Vec<HeaderPair> = Vec::new();
    out.push(HeaderPair { name: b_upgrade(), value: b_websocket() });
    out.push(HeaderPair { name: b_connection(), value: b_upgrade_token() });
    let ghost base = seq![(n_upgrade(), n_websocket()), (n_connection(), n_upgrade_token())];
    proof {
        assert(hview(out@) =~= base);
    }
    if token_present {
        let p = HeaderPair { name: b_sec_websocket_protocol(), value: b_access_token() };
        proof {
            assert(hview(out@.push(p)) =~= hview(out@).push(pv(p)));
        }
        out.push(p);
    }
    match accept {
        Some(a) => {
            let p = HeaderPair { name: b_sec_websocket_accept(), value: copy_bytes(a) };
            proof {
                assert(hview(out@.push(p)) =~= hview(out@).push(pv(p)));
            }
            out.push(p);
        },
        None => {},
    }
    (101, out)
}

/// Everything the transport needs to open the upstream connection: the
/// composed WebSocket target, the handshake request headers, and
/// whether a credential was negotiated (so the client-facing upgrade
/// can echo the sub-protocol).
pub struct HandshakePlan {
    pub target: crate::target::WsTarget,
    pub headers: Vec<HeaderPair>,
    pub token_present: bool,
}

/// Composes the upstream handshake for one inbound upgrade request:
/// translates the backend base scheme, extracts the caller's
/// credential, and lays out the handshake headers.  Fails with
/// [`crate::errors::GatewayError::InvalidUpstreamUrl`] exactly when the
/// composed URL is refused by the URL parser.
pub fn prepare_handshake(
    config: &crate::GatewayConfig,
    path: &[u8],
    query: Option<&[u8]>,
    client_headers: &Vec<HeaderPair>,
    key: &[u8],
) -> (r: Result<HandshakePlan, crate::errors::GatewayError>)
    ensures
        r is Ok <==> crate::target::url_ok(
            crate::target::spec_ws_url(config.backend_base@, path@, crate::target::q_at(query)),
        ),
        r is Err ==> r->Err_0 == crate::errors::GatewayError::InvalidUpstreamUrl,
        r is Ok ==> ({
            let wsu = crate::target::spec_ws_url(
                config.backend_base@,
                path@,
                crate::target::q_at(query),
            );
            let token = crate::token::spec_extract_token(hview(client_headers@));
            &&& r->Ok_0.target.url@ == wsu
            &&& r->Ok_0.target.host@ == crate::target::url_host_of(wsu)
            &&& hview(r->Ok_0.headers@) == spec_handshake_headers(
                crate::target::url_host_of(wsu),
                key@,
                token,
                config.service_credential@,
                first_value_ci(hview(client_headers@), n_origin()),
            )
            &&& r->Ok_0.token_present == (token is Some)
        }),
{
    let target = match crate::target::build_ws_url(config.backend_base.as_slice(), path, query) {
        Ok(t) => t,
        Err(e) => {
            return Err(e);
        },
    };
    let token = crate::token::extract_token(client_headers);
    let origin = crate::headers::find_first_ci(client_headers, b_origin().as_slice());
    let token_present = token.is_some();
    let tok_sl: Option<&[u8]> = match &token {
        Some(v) => Some(v.as_slice()),
        None => None,
    };
    let org_sl: Option<&[u8]> = match &origin {
        Some(v) => Some(v.as_slice()),
        None => None,
    };
    let headers = build_handshake_headers(
        target.host.as_slice(),
        key,
        tok_sl,
        config.service_credential.as_slice(),
        org_sl,
    );
    Ok(HandshakePlan { target, headers, token_present })
}

} // verus!
