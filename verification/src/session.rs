//! The tunnel session: one relay between a client's duplex channel and an
//! upstream connection.
//!
//! A session goes from `Handshaking` to `Relaying` to `Closed` and is never
//! used again. The channel and the connection are outside the library, so the
//! session is a state machine: the caller reports what happened on either
//! leg, and [`TunnelSession::step`] says what to do about it. The payload is
//! opaque: every chunk is forwarded as it came.

use vstd::prelude::*;
use vstd::utf8::is_ascii_chars;
use crate::endpoint::{Endpoint, EndpointView};
use crate::text::{
    ascii_lower, ascii_lowercase, ascii_upper, lowercase, same_ignoring_ascii_case, to_lowercase,
};

verus! {

/// The protocol that a tunnel request asks to upgrade to.
pub const UPGRADE_TOKEN: &'static str = "websocket";

/// The upgrade header asks for a tunnel: in lower case it is the protocol
/// token. A request that has no such header counts as one with an empty
/// header.
pub open spec fn asks_for_tunnel(upgrade: Seq<char>) -> bool {
    lowercase(upgrade) == UPGRADE_TOKEN@
}

/// Whether the upgrade header of a request asks for a tunnel.
pub fn is_tunnel_request(upgrade: &str) -> (b: bool)
    ensures
        b == asks_for_tunnel(upgrade@),
{
    let lowered = to_lowercase(upgrade);
    let token = UPGRADE_TOKEN.to_owned();
    lowered == token
}

/// Whether an ASCII header asks for a tunnel does not depend on the case of
/// its letters.
pub proof fn lemma_upgrade_ignores_case(a: Seq<char>, b: Seq<char>)
    requires
        is_ascii_chars(a),
        is_ascii_chars(b),
        same_ignoring_ascii_case(a, b),
    ensures
        asks_for_tunnel(a) == asks_for_tunnel(b),
{
    assert forall|i: int| 0 <= i < a.len() implies ascii_lower(a[i]) == ascii_lower(b[i]) by {
        assert(ascii_upper(a[i]) == ascii_upper(b[i]));
    }
    assert(ascii_lowercase(a) =~= ascii_lowercase(b));
}

/// One leg of the relay.
#[derive(Clone, Copy, Debug, PartialEq, Eq, Structural)]
pub enum Side {
    /// The client's duplex channel.
    Client,
    /// The connection to the upstream endpoint.
    Upstream,
}

impl Side {
    pub open spec fn spec_opposite(self) -> Side {
        match self {
            Side::Client => Side::Upstream,
            Side::Upstream => Side::Client,
        }
    }

    /// The other leg.
    #[verifier::when_used_as_spec(spec_opposite)]
    pub fn opposite(self) -> (other: Side)
        ensures
            other == self.spec_opposite(),
    {
        match self {
            Side::Client => Side::Upstream,
            Side::Upstream => Side::Client,
        }
    }
}

/// Where a session stands.
#[derive(Clone, Copy, Debug, PartialEq, Eq, Structural)]
pub enum SessionState {
    /// The handshake with the client has not completed.
    Handshaking,
    /// The handshake is done and the relay runs; `connected` says whether the
    /// upstream connection is open yet.
    Relaying { connected: bool },
    /// The session is over.
    Closed,
}

/// An I/O failure on one leg of the relay. It is for the operator's
/// diagnostics only: the client sees the channel close and nothing else.
#[derive(Clone, Copy, Debug, PartialEq, Eq, Structural)]
pub struct RelayError {
    pub side: Side,
}

/// What the caller reports.
#[derive(Clone, Debug, PartialEq, Eq)]
pub enum SessionEvent {
    /// The handshake with the client completed.
    Accepted,
    /// The handshake with the client failed.
    Refused,
    /// The upstream connection is open.
    Connected,
    /// A chunk arrived on one leg.
    Received { from: Side, bytes: Vec<u8> },
    /// One leg reached its end of stream.
    Ended { side: Side },
    /// One leg failed; for the upstream leg this includes a connection that
    /// could not be opened.
    Failed { side: Side },
}

pub enum SessionEventView {
    Accepted,
    Refused,
    Connected,
    Received { from: Side, bytes: Seq<u8> },
    Ended { side: Side },
    Failed { side: Side },
}

impl View for SessionEvent {
    type V = SessionEventView;

    open spec fn view(&self) -> SessionEventView {
        match *self {
            SessionEvent::Accepted => SessionEventView::Accepted,
            SessionEvent::Refused => SessionEventView::Refused,
            SessionEvent::Connected => SessionEventView::Connected,
            SessionEvent::Received { from, bytes } => SessionEventView::Received {
                from,
                bytes: bytes@,
            },
            SessionEvent::Ended { side } => SessionEventView::Ended { side },
            SessionEvent::Failed { side } => SessionEventView::Failed { side },
        }
    }
}

/// What the caller has to do.
#[derive(Debug, PartialEq, Eq)]
pub enum SessionAction {
    /// Open the upstream connection and report `Connected`, or `Failed` for
    /// the upstream leg.
    Connect { host: String, port: u16 },
    /// Start copying in both directions, reporting what each leg brings.
    Relay,
    /// Write the chunk to this leg.
    Forward { to: Side, bytes: Vec<u8> },
    /// Stop copying in both directions and close both legs, at once. The
    /// diagnostic, if any, goes to the operator's log.
    Close { diagnostic: Option<RelayError> },
    /// Nothing.
    Ignore,
}

pub enum SessionActionView {
    Connect { endpoint: EndpointView },
    Relay,
    Forward { to: Side, bytes: Seq<u8> },
    Close { diagnostic: Option<RelayError> },
    Ignore,
}

impl View for SessionAction {
    type V = SessionActionView;

    open spec fn view(&self) -> SessionActionView {
        match *self {
            SessionAction::Connect { host, port } => SessionActionView::Connect {
                endpoint: EndpointView { host: host@, port: port as int },
            },
            SessionAction::Relay => SessionActionView::Relay,
            SessionAction::Forward { to, bytes } => SessionActionView::Forward {
                to,
                bytes: bytes@,
            },
            SessionAction::Close { diagnostic } => SessionActionView::Close { diagnostic },
            SessionAction::Ignore => SessionActionView::Ignore,
        }
    }
}

/// The state that follows on an event. The end or the failure of either leg
/// closes a relaying session, whether or not the upstream connection was
/// open; nothing is retried. An event that the state does not expect changes
/// nothing.
pub open spec fn transition(state: SessionState, event: SessionEventView) -> SessionState {
    match (state, event) {
        (SessionState::Handshaking, SessionEventView::Accepted) => SessionState::Relaying {
            connected: false,
        },
        (SessionState::Handshaking, SessionEventView::Refused) => SessionState::Closed,
        (SessionState::Relaying { connected: false }, SessionEventView::Connected) => {
            SessionState::Relaying { connected: true }
        },
        (SessionState::Relaying { .. }, SessionEventView::Ended { .. }) => SessionState::Closed,
        (SessionState::Relaying { .. }, SessionEventView::Failed { .. }) => SessionState::Closed,
        _ => state,
    }
}

/// What a session for `endpoint` does on an event.
pub open spec fn reaction(
    endpoint: EndpointView,
    state: SessionState,
    event: SessionEventView,
) -> SessionActionView {
    match (state, event) {
        (SessionState::Handshaking, SessionEventView::Accepted) => SessionActionView::Connect {
            endpoint,
        },
        (SessionState::Handshaking, SessionEventView::Refused) => SessionActionView::Close {
            diagnostic: None,
        },
        (SessionState::Relaying { connected: false }, SessionEventView::Connected) => {
            SessionActionView::Relay
        },
        (
            SessionState::Relaying { connected: true },
            SessionEventView::Received { from, bytes },
        ) => SessionActionView::Forward { to: from.spec_opposite(), bytes },
        (SessionState::Relaying { .. }, SessionEventView::Ended { .. }) => {
            SessionActionView::Close { diagnostic: None }
        },
        (SessionState::Relaying { .. }, SessionEventView::Failed { side }) => {
            SessionActionView::Close { diagnostic: Some(RelayError { side }) }
        },
        _ => SessionActionView::Ignore,
    }
}

pub struct SessionView {
    pub endpoint: EndpointView,
    pub state: SessionState,
}

/// One tunnel session.
#[derive(Debug)]
pub struct TunnelSession {
    endpoint: Endpoint,
    state: SessionState,
}

impl View for TunnelSession {
    type V = SessionView;

    closed spec fn view(&self) -> SessionView {
        SessionView { endpoint: self.endpoint@, state: self.state }
    }
}

impl TunnelSession {
    /// A session towards `endpoint`, before its handshake.
    pub fn new(endpoint: Endpoint) -> (session: Self)
        ensures
            session@ == (SessionView { endpoint: endpoint@, state: SessionState::Handshaking }),
    {
        TunnelSession { endpoint, state: SessionState::Handshaking }
    }

    /// Where the session stands.
    pub fn state(&self) -> (state: SessionState)
        ensures
            state == self@.state,
    {
        self.state
    }

    /// The endpoint that the session relays to.
    pub fn endpoint(&self) -> (endpoint: &Endpoint)
        ensures
            endpoint@ == self@.endpoint,
    {
        &self.endpoint
    }

    /// Takes in an event and says what to do.
    pub fn step(&mut self, event: SessionEvent) -> (action: SessionAction)
        ensures
            final(self)@.endpoint == old(self)@.endpoint,
            final(self)@.state == transition(old(self)@.state, event@),
            action@ == reaction(old(self)@.endpoint, old(self)@.state, event@),
    {
        match (self.state, event) {
            (SessionState::Handshaking, SessionEvent::Accepted) => {
                self.state = SessionState::Relaying { connected: false };
                SessionAction::Connect {
                    host: self.endpoint.host().to_owned(),
                    port: self.endpoint.port(),
                }
            },
            (SessionState::Handshaking, SessionEvent::Refused) => {
                self.state = SessionState::Closed;
                SessionAction::Close { diagnostic: None }
            },
            (SessionState::Relaying { connected: false }, SessionEvent::Connected) => {
                self.state = SessionState::Relaying { connected: true };
                SessionAction::Relay
            },
            (SessionState::Relaying { connected: true }, SessionEvent::Received { from, bytes }) => {
                SessionAction::Forward { to: from.opposite(), bytes }
            },
            (SessionState::Relaying { .. }, SessionEvent::Ended { .. }) => {
                self.state = SessionState::Closed;
                SessionAction::Close { diagnostic: None }
            },
            (SessionState::Relaying { .. }, SessionEvent::Failed { side }) => {
                self.state = SessionState::Closed;
                SessionAction::Close { diagnostic: Some(RelayError { side }) }
            },
            _ => SessionAction::Ignore,
        }
    }
}

/// Once either leg of a relaying session ends or fails, the session is closed
/// in that same step and both legs are told to close: no direction outlives
/// the other. Only a failure leaves a diagnostic.
pub proof fn lemma_either_end_closes(endpoint: EndpointView, connected: bool, side: Side)
    ensures
        transition(SessionState::Relaying { connected }, SessionEventView::Ended { side })
            == SessionState::Closed,
        reaction(endpoint, SessionState::Relaying { connected }, SessionEventView::Ended { side })
            == (SessionActionView::Close { diagnostic: None }),
        transition(SessionState::Relaying { connected }, SessionEventView::Failed { side })
            == SessionState::Closed,
        reaction(endpoint, SessionState::Relaying { connected }, SessionEventView::Failed { side })
            == (SessionActionView::Close { diagnostic: Some(RelayError { side }) }),
{
}

/// A closed session stays closed and does nothing more: it is never used
/// again, and what arrives after the teardown is dropped.
pub proof fn lemma_closed_stays(endpoint: EndpointView, event: SessionEventView)
    ensures
        transition(SessionState::Closed, event) == SessionState::Closed,
        reaction(endpoint, SessionState::Closed, event) == SessionActionView::Ignore,
{
}

/// A session opens its upstream connection once at most: only the completed
/// handshake asks for it, and no session returns to its handshake. It
/// connects to its own endpoint and to no other.
pub proof fn lemma_connects_once(
    endpoint: EndpointView,
    state: SessionState,
    event: SessionEventView,
)
    ensures
        reaction(endpoint, state, event) is Connect ==> {
            &&& state == SessionState::Handshaking
            &&& event == SessionEventView::Accepted
            &&& reaction(endpoint, state, event) == (SessionActionView::Connect { endpoint })
            &&& transition(state, event) != SessionState::Handshaking
        },
        transition(state, event) == SessionState::Handshaking ==> state
            == SessionState::Handshaking,
{
}

/// A chunk is forwarded only while the relay runs with its upstream
/// connection open, to the leg opposite the one it came from, and unchanged.
pub proof fn lemma_forwards_unchanged(
    endpoint: EndpointView,
    state: SessionState,
    event: SessionEventView,
)
    ensures
        reaction(endpoint, state, event) matches SessionActionView::Forward { to, bytes } ==> {
            &&& state == (SessionState::Relaying { connected: true })
            &&& event == (SessionEventView::Received { from: to.spec_opposite(), bytes })
            &&& transition(state, event) == state
        },
{
}

} // verus!
