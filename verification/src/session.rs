//! The life of one agent's session on the server, as a state machine.
//!
//! The machine decides; its caller performs. Each step takes what happened
//! last and answers with the next state and the one thing to do next:
//!
//! ```text
//! Incoming -> AwaitingRequest -> AwaitingListener -> AwaitingVerdict -> Registered -> Steady
//! ```
//!
//! A handshake that fails ends in `Closed`, or in `Rejected` where the token
//! was refused, and the connection is closed with error code 1. A steady
//! session ends in `Closed`, through `HeartbeatLost` where a heartbeat could
//! not be sent; on its way out it leaves the registry.

use vstd::prelude::*;
use crate::auth::{decision, validate_claims, Claims, JwtClaims};
use crate::error::{ErrorKind, HANDSHAKE_ERROR_CODE};
use crate::handshake::{
    encode_response, heartbeat_payload, parse_request, ping_bytes, request_well_formed,
    response_bytes, MAX_REQUEST_LEN,
};
use crate::key_store::{KeyStore, RsaComponents};
use crate::mode::{mode_of_byte, Mode};
use crate::registry::{assigned_id, ClientRegistry};
use crate::settings::{AuthPolicy, AuthRules};
use crate::token::{kid_of_header, token_header_kid, token_kid, token_text, utf8_lossy_text};
use crate::tunnel_id::{is_random_uuid, uuid_text_value, TunnelId};

verus! {

/// The address a session's listener binds to.
#[derive(Clone, Copy, Debug, PartialEq, Eq, Structural)]
pub enum BindHost {
    /// Every interface (`0.0.0.0`): the listener is reached from outside.
    Any,
    /// The loopback interface (`127.0.0.1`): only this host reaches the listener.
    Loopback,
}

/// Where the listener of a session in `mode` binds: a TCP tunnel is open to
/// the public, an HTTP tunnel is reached through the server's own front.
pub open spec fn bind_host_of(mode: Mode) -> BindHost {
    match mode {
        Mode::Tcp => BindHost::Any,
        Mode::Http => BindHost::Loopback,
    }
}

/// Where the listener of a session in `mode` binds.
pub fn bind_host(mode: Mode) -> (host: BindHost)
    ensures
        host == bind_host_of(mode),
{
    match mode {
        Mode::Tcp => BindHost::Any,
        Mode::Http => BindHost::Loopback,
    }
}

impl BindHost {
    /// The address in dotted form.
    pub open spec fn text(self) -> Seq<char> {
        match self {
            BindHost::Any => "0.0.0.0"@,
            BindHost::Loopback => "127.0.0.1"@,
        }
    }

    /// The address in dotted form.
    pub fn as_str(self) -> (text: &'static str)
        ensures
            text@ == self.text(),
    {
        match self {
            BindHost::Any => "0.0.0.0",
            BindHost::Loopback => "127.0.0.1",
        }
    }
}

/// Where a session stands.
#[derive(Debug)]
pub enum SessionState {
    /// The connection is being established.
    Incoming,
    /// The handshake request is awaited.
    AwaitingRequest,
    /// The request is read; the listener is being bound.
    AwaitingListener { mode: Mode, token: Vec<u8> },
    /// The listener is bound; the token is being verified.
    AwaitingVerdict { mode: Mode, port: u16, addr: String },
    /// The session is registered; the response is being written.
    Registered { mode: Mode, id: TunnelId },
    /// The session bridges connections and sends heartbeats.
    Steady { id: TunnelId },
    /// A heartbeat could not be sent; the session is being torn down.
    HeartbeatLost,
    /// The token was refused; the connection is being closed.
    Rejected,
    /// The session is over.
    Closed,
}

/// What happened since the last step.
#[derive(Debug)]
pub enum SessionEvent {
    /// The connection is established.
    Connected,
    /// The connection could not be established.
    ConnectFailed,
    /// The agent's stream was read to its end.
    RequestRead(Vec<u8>),
    /// The agent's stream could not be accepted or read.
    RequestFailed(ErrorKind),
    /// A listener is bound.
    ListenerBound { port: u16, addr: String },
    /// No listener could be bound.
    ListenerFailed,
    /// The token's signature and standard claims hold.
    TokenVerified(JwtClaims),
    /// The token did not pass verification.
    TokenInvalid,
    /// The response is written and the stream finished.
    ResponseSent,
    /// The response could not be written.
    ResponseFailed,
    /// The listener accepted a connection.
    TcpAccepted,
    /// The listener failed.
    AcceptFailed,
    /// A stream to the agent is open for the accepted connection.
    StreamOpened,
    /// No stream to the agent could be opened.
    StreamFailed,
    /// A heartbeat is due.
    HeartbeatDue,
    /// A heartbeat could not be sent.
    HeartbeatFailed,
    /// The connection is gone.
    ConnectionLost,
    /// The teardown or the close that was asked for is done.
    TornDown,
}

/// What the caller does next.
#[derive(Debug)]
pub enum SessionAction {
    /// Nothing: the event changes nothing.
    Nothing,
    /// Accept the agent's one bidirectional stream and read it to its end,
    /// up to `limit` bytes.
    ReadRequest { limit: usize },
    /// Bind a listener on the first free port of `host`.
    BindListener { host: BindHost },
    /// Verify the token's signature and standard claims with the key that is
    /// stored under `kid`.
    VerifyToken { token: String, kid: String },
    /// Write `bytes` on the agent's stream and finish it.
    SendResponse { bytes: Vec<u8> },
    /// Start accepting connections and sending heartbeats.
    RunSteady,
    /// Open a bidirectional stream to the agent.
    OpenStream,
    /// Copy bytes both ways between connection and stream until one way ends.
    Bridge,
    /// Open a unidirectional stream, write `payload`, finish it.
    SendPing { payload: Vec<u8> },
    /// Close the connection with `code` and the reason of `kind`, after
    /// resetting the agent's stream with the same code where `reset_stream`.
    Close { code: u32, reset_stream: bool, kind: ErrorKind },
    /// Drop the listener and close the connection.
    Teardown,
}

/// A [`SessionState`] with its data as plain values.
pub enum Phase {
    Incoming,
    AwaitingRequest,
    AwaitingListener { mode: Mode, token: Seq<u8> },
    AwaitingVerdict { mode: Mode, port: u16, addr: Seq<char> },
    Registered { mode: Mode, id: TunnelId },
    Steady { id: TunnelId },
    HeartbeatLost,
    Rejected,
    Closed,
}

/// A [`SessionEvent`] with its data as plain values.
pub enum Event {
    Connected,
    ConnectFailed,
    RequestRead(Seq<u8>),
    RequestFailed(ErrorKind),
    ListenerBound { port: u16, addr: Seq<char> },
    ListenerFailed,
    TokenVerified(Claims),
    TokenInvalid,
    ResponseSent,
    ResponseFailed,
    TcpAccepted,
    AcceptFailed,
    StreamOpened,
    StreamFailed,
    HeartbeatDue,
    HeartbeatFailed,
    ConnectionLost,
    TornDown,
}

/// A [`SessionAction`] with its data as plain values.
pub enum Action {
    Nothing,
    ReadRequest { limit: usize },
    BindListener { host: BindHost },
    VerifyToken { token: Seq<char>, kid: Seq<char> },
    SendResponse { bytes: Seq<u8> },
    RunSteady,
    OpenStream,
    Bridge,
    SendPing { payload: Seq<u8> },
    Close { code: u32, reset_stream: bool, kind: ErrorKind },
    Teardown,
}

impl View for SessionState {
    type V = Phase;

    open spec fn view(&self) -> Phase {
        match *self {
            SessionState::Incoming => Phase::Incoming,
            SessionState::AwaitingRequest => Phase::AwaitingRequest,
            SessionState::AwaitingListener { mode, token } => Phase::AwaitingListener {
                mode,
                token: token@,
            },
            SessionState::AwaitingVerdict { mode, port, addr } => Phase::AwaitingVerdict {
                mode,
                port,
                addr: addr@,
            },
            SessionState::Registered { mode, id } => Phase::Registered { mode, id },
            SessionState::Steady { id } => Phase::Steady { id },
            SessionState::HeartbeatLost => Phase::HeartbeatLost,
            SessionState::Rejected => Phase::Rejected,
            SessionState::Closed => Phase::Closed,
        }
    }
}

impl View for SessionEvent {
    type V = Event;

    open spec fn view(&self) -> Event {
        match *self {
            SessionEvent::Connected => Event::Connected,
            SessionEvent::ConnectFailed => Event::ConnectFailed,
            SessionEvent::RequestRead(bytes) => Event::RequestRead(bytes@),
            SessionEvent::RequestFailed(kind) => Event::RequestFailed(kind),
            SessionEvent::ListenerBound { port, addr } => Event::ListenerBound { port, addr: addr@ },
            SessionEvent::ListenerFailed => Event::ListenerFailed,
            SessionEvent::TokenVerified(claims) => Event::TokenVerified(claims@),
            SessionEvent::TokenInvalid => Event::TokenInvalid,
            SessionEvent::ResponseSent => Event::ResponseSent,
            SessionEvent::ResponseFailed => Event::ResponseFailed,
            SessionEvent::TcpAccepted => Event::TcpAccepted,
            SessionEvent::AcceptFailed => Event::AcceptFailed,
            SessionEvent::StreamOpened => Event::StreamOpened,
            SessionEvent::StreamFailed => Event::StreamFailed,
            SessionEvent::HeartbeatDue => Event::HeartbeatDue,
            SessionEvent::HeartbeatFailed => Event::HeartbeatFailed,
            SessionEvent::ConnectionLost => Event::ConnectionLost,
            SessionEvent::TornDown => Event::TornDown,
        }
    }
}

impl View for SessionAction {
    type V = Action;

    open spec fn view(&self) -> Action {
        match *self {
            SessionAction::Nothing => Action::Nothing,
            SessionAction::ReadRequest { limit } => Action::ReadRequest { limit },
            SessionAction::BindListener { host } => Action::BindListener { host },
            SessionAction::VerifyToken { token, kid } => Action::VerifyToken {
                token: token@,
                kid: kid@,
            },
            SessionAction::SendResponse { bytes } => Action::SendResponse { bytes: bytes@ },
            SessionAction::RunSteady => Action::RunSteady,
            SessionAction::OpenStream => Action::OpenStream,
            SessionAction::Bridge => Action::Bridge,
            SessionAction::SendPing { payload } => Action::SendPing { payload: payload@ },
            SessionAction::Close { code, reset_stream, kind } => Action::Close {
                code,
                reset_stream,
                kind,
            },
            SessionAction::Teardown => Action::Teardown,
        }
    }
}

/// What a step works with besides state and event.
pub struct World {
    /// The rules by which tokens open tunnels.
    pub policy: AuthPolicy,
    /// The verification keys in store.
    pub keys: Map<Seq<char>, RsaComponents>,
    /// The registry as the step finds it.
    pub registry: Map<u128, Seq<char>>,
    /// The identifier for a session that names none.
    pub fresh: TunnelId,
    /// The identifier for a session whose own is taken.
    pub fallback: TunnelId,
}

/// What a step ends with.
pub struct Outcome {
    pub phase: Phase,
    pub action: Action,
    pub registry: Map<u128, Seq<char>>,
}

/// Whether a failure is a refusal of the token.
pub open spec fn is_auth_failure(kind: ErrorKind) -> bool {
    kind == ErrorKind::AuthMissingKid || kind == ErrorKind::AuthUnknownKid || kind
        == ErrorKind::AuthInvalidSignature || kind == ErrorKind::AuthUnauthorized
}

/// The end of a handshake that failed: the connection is closed with error
/// code 1 and nothing is registered.
pub open spec fn refusal(world: World, kind: ErrorKind, reset_stream: bool) -> Outcome {
    Outcome {
        phase: if is_auth_failure(kind) {
            Phase::Rejected
        } else {
            Phase::Closed
        },
        action: Action::Close { code: HANDSHAKE_ERROR_CODE, reset_stream, kind },
        registry: world.registry,
    }
}

/// The end of a handshake that succeeded: the session is registered under the
/// identifier it wants, or under the fallback where that one is taken, and
/// the response is to be written.
pub open spec fn acceptance(
    world: World,
    mode: Mode,
    port: u16,
    addr: Seq<char>,
    wanted: TunnelId,
) -> Outcome {
    let id = assigned_id(world.registry, wanted, world.fallback);
    Outcome {
        phase: Phase::Registered { mode, id },
        action: Action::SendResponse { bytes: response_bytes(mode, port, id) },
        registry: world.registry.insert(id.value, addr),
    }
}

/// The end of a registered session: it leaves the registry.
pub open spec fn departure(world: World, id: TunnelId, phase: Phase, action: Action) -> Outcome {
    Outcome { phase, action, registry: world.registry.remove(id.value) }
}

/// A step that leaves the registry alone.
pub open spec fn moving_on(world: World, phase: Phase, action: Action) -> Outcome {
    Outcome { phase, action, registry: world.registry }
}

/// What the request, once read, leads to.
pub open spec fn after_request(world: World, bytes: Seq<u8>) -> Outcome {
    if request_well_formed(bytes) {
        let mode = mode_of_byte(bytes[0]);
        moving_on(
            world,
            Phase::AwaitingListener { mode, token: bytes.skip(1) },
            Action::BindListener { host: bind_host_of(mode) },
        )
    } else {
        refusal(world, ErrorKind::HandshakeMalformed, false)
    }
}

/// What a bound listener leads to: without authentication the session is
/// accepted at once; with it, the token's header must name a key in store.
pub open spec fn after_listener(
    world: World,
    mode: Mode,
    token: Seq<u8>,
    port: u16,
    addr: Seq<char>,
) -> Outcome {
    if !world.policy.enabled {
        acceptance(world, mode, port, addr, world.fresh)
    } else {
        let text = utf8_lossy_text(token);
        match kid_of_header(token_header_kid(text)) {
            Err(kind) => refusal(world, kind, false),
            Ok(kid) => if world.keys.contains_key(kid) {
                moving_on(
                    world,
                    Phase::AwaitingVerdict { mode, port, addr },
                    Action::VerifyToken { token: text, kid },
                )
            } else {
                refusal(world, ErrorKind::AuthUnknownKid, false)
            },
        }
    }
}

/// What the claims of a verified token lead to. A subject that the rules
/// take for the identifier must be one.
pub open spec fn after_verdict(
    world: World,
    mode: Mode,
    port: u16,
    addr: Seq<char>,
    claims: Claims,
) -> Outcome {
    match decision(claims, world.policy) {
        Err(kind) => refusal(world, kind, true),
        Ok(None) => acceptance(world, mode, port, addr, world.fresh),
        Ok(Some(subject)) => match uuid_text_value(subject) {
            Some(value) => acceptance(world, mode, port, addr, TunnelId { value }),
            None => refusal(world, ErrorKind::AuthUnauthorized, true),
        },
    }
}

/// The step of a session: the state it moves to, what is to be done next,
/// and the registry it leaves. An event that the state does not wait for
/// changes nothing.
pub open spec fn transition(phase: Phase, event: Event, world: World) -> Outcome {
    match (phase, event) {
        (Phase::Incoming, Event::Connected) => moving_on(
            world,
            Phase::AwaitingRequest,
            Action::ReadRequest { limit: MAX_REQUEST_LEN },
        ),
        (Phase::Incoming, Event::ConnectFailed) => moving_on(world, Phase::Closed, Action::Nothing),
        (Phase::AwaitingRequest, Event::RequestRead(bytes)) => after_request(world, bytes),
        (Phase::AwaitingRequest, Event::RequestFailed(kind)) => refusal(world, kind, false),
        (Phase::AwaitingListener { mode, token }, Event::ListenerBound { port, addr }) =>
            after_listener(world, mode, token, port, addr),
        (Phase::AwaitingListener { .. }, Event::ListenerFailed) => refusal(
            world,
            ErrorKind::PortExhaustion,
            false,
        ),
        (Phase::AwaitingVerdict { mode, port, addr }, Event::TokenVerified(claims)) =>
            after_verdict(world, mode, port, addr, claims),
        (Phase::AwaitingVerdict { .. }, Event::TokenInvalid) => refusal(
            world,
            ErrorKind::AuthInvalidSignature,
            false,
        ),
        (Phase::Registered { mode, id }, Event::ResponseSent) => moving_on(
            world,
            Phase::Steady { id },
            Action::RunSteady,
        ),
        (Phase::Registered { mode, id }, Event::ResponseFailed) => departure(
            world,
            id,
            Phase::Closed,
            Action::Close {
                code: HANDSHAKE_ERROR_CODE,
                reset_stream: false,
                kind: ErrorKind::QuicTransport,
            },
        ),
        (Phase::Steady { id }, Event::TcpAccepted) => moving_on(world, phase, Action::OpenStream),
        (Phase::Steady { id }, Event::StreamOpened) => moving_on(world, phase, Action::Bridge),
        (Phase::Steady { id }, Event::HeartbeatDue) => moving_on(
            world,
            phase,
            Action::SendPing { payload: ping_bytes() },
        ),
        (Phase::Steady { id }, Event::StreamFailed) => departure(
            world,
            id,
            Phase::Closed,
            Action::Teardown,
        ),
        (Phase::Steady { id }, Event::AcceptFailed) => departure(
            world,
            id,
            Phase::Closed,
            Action::Teardown,
        ),
        (Phase::Steady { id }, Event::ConnectionLost) => departure(
            world,
            id,
            Phase::Closed,
            Action::Teardown,
        ),
        (Phase::Steady { id }, Event::HeartbeatFailed) => departure(
            world,
            id,
            Phase::HeartbeatLost,
            Action::Teardown,
        ),
        (Phase::HeartbeatLost, Event::TornDown) => moving_on(world, Phase::Closed, Action::Nothing),
        (Phase::Rejected, Event::TornDown) => moving_on(world, Phase::Closed, Action::Nothing),
        _ => moving_on(world, phase, Action::Nothing),
    }
}

/// Whether a step may register a session, and so needs identifiers to give.
pub open spec fn may_register(phase: Phase, event: Event) -> bool {
    ||| phase is AwaitingListener && event is ListenerBound
    ||| phase is AwaitingVerdict && event is TokenVerified
}

/// The world of a step.
pub open spec fn world_of(
    auth: AuthRules,
    keys: KeyStore,
    registry: Map<u128, Seq<char>>,
    fresh: TunnelId,
    fallback: TunnelId,
) -> World {
    World { policy: auth@, keys: keys@, registry, fresh, fallback }
}

impl SessionState {
    /// The state of a session whose connection is coming in.
    pub fn new() -> (state: SessionState)
        ensures
            state@ == Phase::Incoming,
    {
        SessionState::Incoming
    }

    /// Whether the session is over.
    pub fn is_closed(&self) -> (closed: bool)
        ensures
            closed == (self@ == Phase::Closed),
    {
        match self {
            SessionState::Closed => true,
            _ => false,
        }
    }

    /// The identifier under which the session is registered, if it is.
    pub fn tunnel_id(&self) -> (id: Option<TunnelId>)
        ensures
            id == registered_id(self@),
    {
        match self {
            SessionState::Registered { mode, id } => Some(*id),
            SessionState::Steady { id } => Some(*id),
            _ => None,
        }
    }

    /// Whether a step on `event` may register the session.
    pub fn needs_identifiers(&self, event: &SessionEvent) -> (needed: bool)
        ensures
            needed == may_register(self@, event@),
    {
        match (self, event) {
            (SessionState::AwaitingListener { .. }, SessionEvent::ListenerBound { .. }) => true,
            (SessionState::AwaitingVerdict { .. }, SessionEvent::TokenVerified(_)) => true,
            _ => false,
        }
    }

    /// Takes one step, with fresh random identifiers where the step may
    /// register the session.
    pub fn step(
        self,
        event: SessionEvent,
        auth: &AuthRules,
        keys: &KeyStore,
        registry: &mut ClientRegistry,
    ) -> (next: (SessionState, SessionAction))
        requires
            keys.well_formed(),
        ensures
            exists|fresh: TunnelId, fallback: TunnelId|
                {
                    &&& may_register(self@, event@) ==> is_random_uuid(fresh.value)
                        && is_random_uuid(fallback.value)
                    &&& transition(
                        self@,
                        event@,
                        world_of(*auth, *keys, old(registry)@, fresh, fallback),
                    ) == (Outcome { phase: next.0@, action: next.1@, registry: final(registry)@ })
                },
    {
        let fresh = if self.needs_identifiers(&event) {
            TunnelId::fresh()
        } else {
            TunnelId::new(0)
        };
        let fallback = if self.needs_identifiers(&event) {
            TunnelId::fresh()
        } else {
            TunnelId::new(0)
        };
        let ghost world = world_of(*auth, *keys, registry@, fresh, fallback);
        let next = self.step_with(event, auth, keys, registry, fresh, fallback);
        assert(may_register(self@, event@) ==> is_random_uuid(fresh.value) && is_random_uuid(
            fallback.value,
        ));
        assert(transition(self@, event@, world) == (Outcome {
            phase: next.0@,
            action: next.1@,
            registry: registry@,
        }));
        next
    }

    /// Takes one step: `fresh` is the identifier for a session that names
    /// none, `fallback` the one for a session whose own is taken.
    pub fn step_with(
        self,
        event: SessionEvent,
        auth: &AuthRules,
        keys: &KeyStore,
        registry: &mut ClientRegistry,
        fresh: TunnelId,
        fallback: TunnelId,
    ) -> (next: (SessionState, SessionAction))
        requires
            keys.well_formed(),
        ensures
            transition(self@, event@, world_of(*auth, *keys, old(registry)@, fresh, fallback)) == (
            Outcome { phase: next.0@, action: next.1@, registry: final(registry)@ }),
    {
        match (self, event) {
            (SessionState::Incoming, SessionEvent::Connected) => (
                SessionState::AwaitingRequest,
                SessionAction::ReadRequest { limit: MAX_REQUEST_LEN },
            ),
            (SessionState::Incoming, SessionEvent::ConnectFailed) => (
                SessionState::Closed,
                SessionAction::Nothing,
            ),
            (SessionState::AwaitingRequest, SessionEvent::RequestRead(bytes)) => {
                match parse_request(bytes.as_slice()) {
                    Ok(request) => (
                        SessionState::AwaitingListener { mode: request.mode, token: request.token },
                        SessionAction::BindListener { host: bind_host(request.mode) },
                    ),
                    Err(kind) => refuse(kind, false),
                }
            },
            (SessionState::AwaitingRequest, SessionEvent::RequestFailed(kind)) => refuse(
                kind,
                false,
            ),
            (
                SessionState::AwaitingListener { mode, token },
                SessionEvent::ListenerBound { port, addr },
            ) => {
                if !auth.enabled {
                    accept(registry, mode, port, addr, fresh, fallback)
                } else {
                    let text = token_text(token.as_slice());
                    match token_kid(text.as_str()) {
                        Err(kind) => refuse(kind, false),
                        Ok(kid) => {
                            if keys.contains(kid.as_str()) {
                                (
                                    SessionState::AwaitingVerdict { mode, port, addr },
                                    SessionAction::VerifyToken { token: text, kid },
                                )
                            } else {
                                refuse(ErrorKind::AuthUnknownKid, false)
                            }
                        },
                    }
                }
            },
            (SessionState::AwaitingListener { mode, token }, SessionEvent::ListenerFailed) => refuse(
                ErrorKind::PortExhaustion,
                false,
            ),
            (
                SessionState::AwaitingVerdict { mode, port, addr },
                SessionEvent::TokenVerified(claims),
            ) => {
                match validate_claims(claims, auth) {
                    Err(kind) => refuse(kind, true),
                    Ok(None) => accept(registry, mode, port, addr, fresh, fallback),
                    Ok(Some(subject)) => {
                        match TunnelId::parse(subject.as_str()) {
                            Some(wanted) => accept(registry, mode, port, addr, wanted, fallback),
                            None => refuse(ErrorKind::AuthUnauthorized, true),
                        }
                    },
                }
            },
            (SessionState::AwaitingVerdict { mode, port, addr }, SessionEvent::TokenInvalid) => refuse(
                ErrorKind::AuthInvalidSignature,
                false,
            ),
            (SessionState::Registered { mode, id }, SessionEvent::ResponseSent) => (
                SessionState::Steady { id },
                SessionAction::RunSteady,
            ),
            (SessionState::Registered { mode, id }, SessionEvent::ResponseFailed) => {
                registry.remove(id);
                (
                    SessionState::Closed,
                    SessionAction::Close {
                        code: HANDSHAKE_ERROR_CODE,
                        reset_stream: false,
                        kind: ErrorKind::QuicTransport,
                    },
                )
            },
            (SessionState::Steady { id }, SessionEvent::TcpAccepted) => (
                SessionState::Steady { id },
                SessionAction::OpenStream,
            ),
            (SessionState::Steady { id }, SessionEvent::StreamOpened) => (
                SessionState::Steady { id },
                SessionAction::Bridge,
            ),
            (SessionState::Steady { id }, SessionEvent::HeartbeatDue) => (
                SessionState::Steady { id },
                SessionAction::SendPing { payload: heartbeat_payload() },
            ),
            (SessionState::Steady { id }, SessionEvent::StreamFailed) => {
                registry.remove(id);
                (SessionState::Closed, SessionAction::Teardown)
            },
            (SessionState::Steady { id }, SessionEvent::AcceptFailed) => {
                registry.remove(id);
                (SessionState::Closed, SessionAction::Teardown)
            },
            (SessionState::Steady { id }, SessionEvent::ConnectionLost) => {
                registry.remove(id);
                (SessionState::Closed, SessionAction::Teardown)
            },
            (SessionState::Steady { id }, SessionEvent::HeartbeatFailed) => {
                registry.remove(id);
                (SessionState::HeartbeatLost, SessionAction::Teardown)
            },
            (SessionState::HeartbeatLost, SessionEvent::TornDown) => (
                SessionState::Closed,
                SessionAction::Nothing,
            ),
            (SessionState::Rejected, SessionEvent::TornDown) => (
                SessionState::Closed,
                SessionAction::Nothing,
            ),
            (state, _) => (state, SessionAction::Nothing),
        }
    }
}

/// The identifier under which a session in `phase` is registered.
pub open spec fn registered_id(phase: Phase) -> Option<TunnelId> {
    match phase {
        Phase::Registered { mode, id } => Some(id),
        Phase::Steady { id } => Some(id),
        _ => None,
    }
}

/// Ends a handshake that failed.
fn refuse(kind: ErrorKind, reset_stream: bool) -> (next: (SessionState, SessionAction))
    ensures
        next.0@ == (if is_auth_failure(kind) {
            Phase::Rejected
        } else {
            Phase::Closed
        }),
        next.1@ == (Action::Close { code: HANDSHAKE_ERROR_CODE, reset_stream, kind }),
{
    let state = match kind {
        ErrorKind::AuthMissingKid => SessionState::Rejected,
        ErrorKind::AuthUnknownKid => SessionState::Rejected,
        ErrorKind::AuthInvalidSignature => SessionState::Rejected,
        ErrorKind::AuthUnauthorized => SessionState::Rejected,
        _ => SessionState::Closed,
    };
    (state, SessionAction::Close { code: HANDSHAKE_ERROR_CODE, reset_stream, kind })
}

/// Registers a session and prepares its response.
fn accept(
    registry: &mut ClientRegistry,
    mode: Mode,
    port: u16,
    addr: String,
    wanted: TunnelId,
    fallback: TunnelId,
) -> (next: (SessionState, SessionAction))
    ensures
        ({
            let id = assigned_id(old(registry)@, wanted, fallback);
            &&& next.0@ == (Phase::Registered { mode, id })
            &&& next.1@ == (Action::SendResponse { bytes: response_bytes(mode, port, id) })
            &&& final(registry)@ == old(registry)@.insert(id.value, addr@)
        }),
{
    let id = registry.register(wanted, fallback, addr);
    let bytes = encode_response(mode, port, id);
    (SessionState::Registered { mode, id }, SessionAction::SendResponse { bytes })
}

} // verus!
