//! The agent: what it is configured with, where it connects to, and the
//! state machine of its session with the server.

use vstd::prelude::*;
use vstd::string::StringExecFns;
use vstd::utf8::encode_utf8;
use crate::error::ErrorKind;
use crate::handshake::{
    encode_request, endpoint_of, is_heartbeat, parse_response, ping_bytes, request_bytes,
    Endpoint, MAX_RESPONSE_LEN,
};
use crate::interceptor::INTERCEPTOR_PORT;
use crate::mode::Mode;
use crate::probe::AGENT_FIRST_PORT;
use crate::session::BindHost;
use crate::text::{decimal_text, port_text};
use crate::tunnel_id::uuid_hyphenated_text;

verus! {

/// What an agent is started with: the mode, the port of the service it
/// exposes, and whether it runs against a local server.
#[derive(Clone, Copy, Debug, PartialEq, Eq, Structural)]
pub struct Cli {
    /// What mode to run the program in.
    pub mode: Mode,
    /// Port to forward to.
    pub target_port: u16,
    /// Whether the server is a local one, reached without verifying it.
    pub dev: bool,
}

/// The agent's tunnel client: it bridges each stream of the server to
/// `intermediate_target_port` on the loopback interface, on behalf of the
/// service on `final_target_port`.
#[derive(Clone, Copy, Debug, PartialEq, Eq, Structural)]
pub struct SgClient {
    pub dev: bool,
    pub mode: Mode,
    pub intermediate_target_port: u16,
    pub final_target_port: u16,
}

/// The interceptor an agent runs in HTTP mode.
#[derive(Clone, Copy, Debug, PartialEq, Eq, Structural)]
pub struct ProxyPlan {
    /// The port the interceptor listens on.
    pub listen_port: u16,
    /// The port of the service that it forwards to.
    pub target_port: u16,
}

/// The services an agent runs.
#[derive(Clone, Copy, Debug, PartialEq, Eq, Structural)]
pub struct AgentPlan {
    pub client: SgClient,
    pub proxy: Option<ProxyPlan>,
}

/// The tunnel client of an agent that bridges to `intermediate_target_port`.
pub fn configure_storm_grok_client(intermediate_target_port: u16, cli: Cli) -> (client: SgClient)
    ensures
        client == (SgClient {
            dev: cli.dev,
            mode: cli.mode,
            intermediate_target_port,
            final_target_port: cli.target_port,
        }),
{
    SgClient {
        dev: cli.dev,
        mode: cli.mode,
        intermediate_target_port,
        final_target_port: cli.target_port,
    }
}

/// The services of an agent: in HTTP mode the client bridges to the
/// interceptor, which forwards to the service; in TCP mode the client
/// bridges to the service itself and there is no interceptor.
pub open spec fn plan_of(cli: Cli) -> AgentPlan {
    match cli.mode {
        Mode::Http => AgentPlan {
            client: SgClient {
                dev: cli.dev,
                mode: cli.mode,
                intermediate_target_port: INTERCEPTOR_PORT,
                final_target_port: cli.target_port,
            },
            proxy: Some(ProxyPlan { listen_port: INTERCEPTOR_PORT, target_port: cli.target_port }),
        },
        Mode::Tcp => AgentPlan {
            client: SgClient {
                dev: cli.dev,
                mode: cli.mode,
                intermediate_target_port: cli.target_port,
                final_target_port: cli.target_port,
            },
            proxy: None,
        },
    }
}

/// The services of an agent.
pub fn configure_agent(cli: Cli) -> (plan: AgentPlan)
    ensures
        plan == plan_of(cli),
{
    match cli.mode {
        Mode::Http => AgentPlan {
            client: configure_storm_grok_client(INTERCEPTOR_PORT, cli),
            proxy: Some(ProxyPlan { listen_port: INTERCEPTOR_PORT, target_port: cli.target_port }),
        },
        Mode::Tcp => AgentPlan {
            client: configure_storm_grok_client(cli.target_port, cli),
            proxy: None,
        },
    }
}

/// What the environment tells an agent: its token, and the ports of the
/// server where they are not the usual ones.
#[derive(Debug)]
pub struct AgentEnv {
    /// The token to present.
    pub token: Option<String>,
    /// The server's QUIC port.
    pub quic_port: Option<String>,
    /// The server's public HTTP port.
    pub http_port: Option<String>,
}

/// An [`AgentEnv`] as plain text.
pub struct AgentEnvView {
    pub token: Option<Seq<char>>,
    pub quic_port: Option<Seq<char>>,
    pub http_port: Option<Seq<char>>,
}

impl View for AgentEnv {
    type V = AgentEnvView;

    open spec fn view(&self) -> AgentEnvView {
        AgentEnvView {
            token: crate::auth::text_of(self.token),
            quic_port: crate::auth::text_of(self.quic_port),
            http_port: crate::auth::text_of(self.http_port),
        }
    }
}

/// A text, or the text that stands in where there is none.
pub open spec fn text_or(text: Option<Seq<char>>, default: Seq<char>) -> Seq<char> {
    match text {
        Some(t) => t,
        None => default,
    }
}

/// The host of the server an agent connects to.
pub open spec fn server_host(dev: bool) -> Seq<char> {
    if dev {
        "127.0.0.1"@
    } else {
        "157.90.124.255"@
    }
}

/// The name by which the server's certificate is checked.
pub open spec fn server_name_text(dev: bool) -> Seq<char> {
    if dev {
        "localhost"@
    } else {
        "stormgrok.nl"@
    }
}

/// The socket address of the server: its host and its QUIC port, which is
/// 5000 unless the environment names another.
pub open spec fn server_address_text(dev: bool, quic_port: Option<Seq<char>>) -> Seq<char> {
    server_host(dev) + ":"@ + text_or(quic_port, "5000"@)
}

/// What an agent prints once its tunnel is open: the command that reaches
/// the exposed service from outside.
pub open spec fn announcement_text(endpoint: Endpoint, dev: bool, http_port: Option<Seq<char>>)
    -> Seq<char> {
    match endpoint {
        Endpoint::Port(port) => if dev {
            "nc localhost "@ + decimal_text(port as nat)
        } else {
            "nc stormgrok.nl "@ + decimal_text(port as nat)
        },
        Endpoint::Tunnel(id) => if dev {
            "curl http://"@ + uuid_hyphenated_text(id.value) + ".localhost:"@ + text_or(
                http_port,
                "3000"@,
            )
        } else {
            "curl https://"@ + uuid_hyphenated_text(id.value) + ".stormgrok.nl"@
        },
    }
}

/// The host an agent binds its local socket to.
pub open spec fn local_host_of(dev: bool) -> BindHost {
    if dev {
        BindHost::Loopback
    } else {
        BindHost::Any
    }
}

/// The name by which the server's certificate is checked.
pub fn server_name(dev: bool) -> (name: &'static str)
    ensures
        name@ == server_name_text(dev),
{
    if dev {
        "localhost"
    } else {
        "stormgrok.nl"
    }
}

/// The socket address of the server.
pub fn server_address(dev: bool, quic_port: &Option<String>) -> (address: String)
    ensures
        address@ == server_address_text(dev, crate::auth::text_of(*quic_port)),
{
    let mut address = if dev {
        String::from_str("127.0.0.1")
    } else {
        String::from_str("157.90.124.255")
    };
    address.append(":");
    match quic_port {
        Some(port) => address.append(port.as_str()),
        None => address.append("5000"),
    }
    address
}

/// What an agent prints once its tunnel is open.
pub fn announcement(endpoint: Endpoint, dev: bool, http_port: &Option<String>) -> (text: String)
    ensures
        text@ == announcement_text(endpoint, dev, crate::auth::text_of(*http_port)),
{
    match endpoint {
        Endpoint::Port(port) => {
            let mut text = if dev {
                String::from_str("nc localhost ")
            } else {
                String::from_str("nc stormgrok.nl ")
            };
            let digits = port_text(port);
            text.append(digits.as_str());
            text
        },
        Endpoint::Tunnel(id) => {
            let label = id.label();
            if dev {
                let mut text = String::from_str("curl http://");
                text.append(label.as_str());
                text.append(".localhost:");
                match http_port {
                    Some(port) => text.append(port.as_str()),
                    None => text.append("3000"),
                }
                text
            } else {
                let mut text = String::from_str("curl https://");
                text.append(label.as_str());
                text.append(".stormgrok.nl");
                text
            }
        },
    }
}

/// Where an agent's session stands.
#[derive(Clone, Copy, Debug, PartialEq, Eq, Structural)]
pub enum AgentState {
    /// Nothing is done yet.
    Start,
    /// The local socket is being bound.
    Binding,
    /// The connection to the server is being established.
    Connecting,
    /// The request is sent; the response is awaited.
    Handshaking,
    /// The tunnel is open.
    Steady { endpoint: Endpoint },
    /// The tunnel is gone; the endpoint is winding down.
    Closing,
    /// The agent is done.
    Closed,
    /// The tunnel could not be opened.
    Failed,
}

/// What happened since the last step of an agent.
#[derive(Debug)]
pub enum AgentEvent {
    /// The agent was started.
    Booted,
    /// The local socket is bound.
    SocketBound,
    /// No local socket could be bound.
    SocketFailed(ErrorKind),
    /// The connection to the server is established.
    Connected,
    /// The server could not be reached.
    ConnectFailed,
    /// The server's response was read to its end.
    ResponseRead(Vec<u8>),
    /// The handshake stream failed.
    ResponseFailed,
    /// A unidirectional stream was read to its end.
    UniPayload(Vec<u8>),
    /// No further unidirectional stream can be accepted.
    UniClosed,
    /// The server opened a bidirectional stream.
    BiAccepted,
    /// No further bidirectional stream can be accepted.
    BiClosed,
    /// The target of a bridge accepted the connection.
    TargetConnected,
    /// The target of a bridge refused the connection.
    TargetRefused,
    /// The endpoint is idle.
    Idle,
}

/// An [`AgentEvent`] with its data as plain values.
pub enum AgentEventView {
    Booted,
    SocketBound,
    SocketFailed(ErrorKind),
    Connected,
    ConnectFailed,
    ResponseRead(Seq<u8>),
    ResponseFailed,
    UniPayload(Seq<u8>),
    UniClosed,
    BiAccepted,
    BiClosed,
    TargetConnected,
    TargetRefused,
    Idle,
}

impl View for AgentEvent {
    type V = AgentEventView;

    open spec fn view(&self) -> AgentEventView {
        match *self {
            AgentEvent::Booted => AgentEventView::Booted,
            AgentEvent::SocketBound => AgentEventView::SocketBound,
            AgentEvent::SocketFailed(kind) => AgentEventView::SocketFailed(kind),
            AgentEvent::Connected => AgentEventView::Connected,
            AgentEvent::ConnectFailed => AgentEventView::ConnectFailed,
            AgentEvent::ResponseRead(bytes) => AgentEventView::ResponseRead(bytes@),
            AgentEvent::ResponseFailed => AgentEventView::ResponseFailed,
            AgentEvent::UniPayload(bytes) => AgentEventView::UniPayload(bytes@),
            AgentEvent::UniClosed => AgentEventView::UniClosed,
            AgentEvent::BiAccepted => AgentEventView::BiAccepted,
            AgentEvent::BiClosed => AgentEventView::BiClosed,
            AgentEvent::TargetConnected => AgentEventView::TargetConnected,
            AgentEvent::TargetRefused => AgentEventView::TargetRefused,
            AgentEvent::Idle => AgentEventView::Idle,
        }
    }
}

/// What an agent does next.
#[derive(Debug)]
pub enum AgentAction {
    /// Nothing: the event changes nothing.
    Nothing,
    /// Bind a local socket on the first free port of `host` from `first_port` on.
    BindSocket { host: BindHost, first_port: u16 },
    /// Connect to the server at `address`, which presents itself as
    /// `server_name`; `insecure` accepts any certificate.
    Connect { address: String, server_name: String, insecure: bool },
    /// Open a bidirectional stream, write `request`, finish, and read the
    /// response to its end, up to `limit` bytes. `token_missing` asks for a
    /// warning that no token was supplied.
    Handshake { request: Vec<u8>, limit: usize, token_missing: bool },
    /// Print `announcement` and start accepting streams.
    Serve { announcement: String },
    /// Log what the server sent.
    LogPayload { bytes: Vec<u8> },
    /// Connect to `port` on the loopback interface.
    ConnectTarget { port: u16 },
    /// Copy bytes both ways between stream and target until both ways end.
    Bridge,
    /// Finish the stream: nothing is behind it.
    FinishStream,
    /// Wait until the endpoint is idle.
    WaitIdle,
    /// Give up: the agent ends with a failure.
    Fail { kind: ErrorKind },
}

/// An [`AgentAction`] with its data as plain values.
pub enum AgentActionView {
    Nothing,
    BindSocket { host: BindHost, first_port: u16 },
    Connect { address: Seq<char>, server_name: Seq<char>, insecure: bool },
    Handshake { request: Seq<u8>, limit: usize, token_missing: bool },
    Serve { announcement: Seq<char> },
    LogPayload { bytes: Seq<u8> },
    ConnectTarget { port: u16 },
    Bridge,
    FinishStream,
    WaitIdle,
    Fail { kind: ErrorKind },
}

impl View for AgentAction {
    type V = AgentActionView;

    open spec fn view(&self) -> AgentActionView {
        match *self {
            AgentAction::Nothing => AgentActionView::Nothing,
            AgentAction::BindSocket { host, first_port } => AgentActionView::BindSocket {
                host,
                first_port,
            },
            AgentAction::Connect { address, server_name, insecure } => AgentActionView::Connect {
                address: address@,
                server_name: server_name@,
                insecure,
            },
            AgentAction::Handshake { request, limit, token_missing } => AgentActionView::Handshake {
                request: request@,
                limit,
                token_missing,
            },
            AgentAction::Serve { announcement } => AgentActionView::Serve {
                announcement: announcement@,
            },
            AgentAction::LogPayload { bytes } => AgentActionView::LogPayload { bytes: bytes@ },
            AgentAction::ConnectTarget { port } => AgentActionView::ConnectTarget { port },
            AgentAction::Bridge => AgentActionView::Bridge,
            AgentAction::FinishStream => AgentActionView::FinishStream,
            AgentAction::WaitIdle => AgentActionView::WaitIdle,
            AgentAction::Fail { kind } => AgentActionView::Fail { kind },
        }
    }
}

/// The request an agent sends: its mode, then its token, or no token where
/// it has none.
pub open spec fn agent_request(mode: Mode, token: Option<Seq<char>>) -> Seq<u8> {
    request_bytes(
        mode,
        match token {
            Some(t) => encode_utf8(t),
            None => Seq::empty(),
        },
    )
}

/// The step of an agent: the state it moves to and what is to be done next.
/// An event that the state does not wait for changes nothing.
pub open spec fn agent_transition(
    state: AgentState,
    event: AgentEventView,
    client: SgClient,
    env: AgentEnvView,
) -> (AgentState, AgentActionView) {
    match (state, event) {
        (AgentState::Start, AgentEventView::Booted) => (
            AgentState::Binding,
            AgentActionView::BindSocket {
                host: local_host_of(client.dev),
                first_port: AGENT_FIRST_PORT,
            },
        ),
        (AgentState::Binding, AgentEventView::SocketBound) => (
            AgentState::Connecting,
            AgentActionView::Connect {
                address: server_address_text(client.dev, env.quic_port),
                server_name: server_name_text(client.dev),
                insecure: client.dev,
            },
        ),
        (AgentState::Binding, AgentEventView::SocketFailed(kind)) => (
            AgentState::Failed,
            AgentActionView::Fail { kind },
        ),
        (AgentState::Connecting, AgentEventView::Connected) => (
            AgentState::Handshaking,
            AgentActionView::Handshake {
                request: agent_request(client.mode, env.token),
                limit: MAX_RESPONSE_LEN,
                token_missing: env.token is None,
            },
        ),
        (AgentState::Connecting, AgentEventView::ConnectFailed) => (
            AgentState::Failed,
            AgentActionView::Fail { kind: ErrorKind::QuicTransport },
        ),
        (AgentState::Handshaking, AgentEventView::ResponseRead(bytes)) => match endpoint_of(
            client.mode,
            bytes,
        ) {
            Some(endpoint) => (
                AgentState::Steady { endpoint },
                AgentActionView::Serve {
                    announcement: announcement_text(endpoint, client.dev, env.http_port),
                },
            ),
            None => (
                AgentState::Failed,
                AgentActionView::Fail { kind: ErrorKind::HandshakeMalformed },
            ),
        },
        (AgentState::Handshaking, AgentEventView::ResponseFailed) => (
            AgentState::Failed,
            AgentActionView::Fail { kind: ErrorKind::QuicTransport },
        ),
        (AgentState::Steady { endpoint }, AgentEventView::UniPayload(bytes)) => (
            state,
            if bytes == ping_bytes() {
                AgentActionView::Nothing
            } else {
                AgentActionView::LogPayload { bytes }
            },
        ),
        (AgentState::Steady { endpoint }, AgentEventView::BiAccepted) => (
            state,
            AgentActionView::ConnectTarget { port: client.intermediate_target_port },
        ),
        (AgentState::Steady { endpoint }, AgentEventView::TargetConnected) => (
            state,
            AgentActionView::Bridge,
        ),
        (AgentState::Steady { endpoint }, AgentEventView::TargetRefused) => (
            state,
            AgentActionView::FinishStream,
        ),
        (AgentState::Steady { endpoint }, AgentEventView::UniClosed) => (
            AgentState::Closing,
            AgentActionView::WaitIdle,
        ),
        (AgentState::Steady { endpoint }, AgentEventView::BiClosed) => (
            AgentState::Closing,
            AgentActionView::WaitIdle,
        ),
        (AgentState::Closing, AgentEventView::Idle) => (AgentState::Closed, AgentActionView::Nothing),
        _ => (state, AgentActionView::Nothing),
    }
}

impl AgentState {
    /// The state of an agent that has done nothing yet.
    pub fn new() -> (state: AgentState)
        ensures
            state == AgentState::Start,
    {
        AgentState::Start
    }

    /// Takes one step.
    pub fn step(self, event: AgentEvent, client: &SgClient, env: &AgentEnv) -> (next: (
        AgentState,
        AgentAction,
    ))
        ensures
            (next.0, next.1@) == agent_transition(self, event@, *client, env@),
    {
        match (self, event) {
            (AgentState::Start, AgentEvent::Booted) => {
                let host = if client.dev {
                    BindHost::Loopback
                } else {
                    BindHost::Any
                };
                (AgentState::Binding, AgentAction::BindSocket { host, first_port: AGENT_FIRST_PORT })
            },
            (AgentState::Binding, AgentEvent::SocketBound) => (
                AgentState::Connecting,
                AgentAction::Connect {
                    address: server_address(client.dev, &env.quic_port),
                    server_name: String::from_str(server_name(client.dev)),
                    insecure: client.dev,
                },
            ),
            (AgentState::Binding, AgentEvent::SocketFailed(kind)) => (
                AgentState::Failed,
                AgentAction::Fail { kind },
            ),
            (AgentState::Connecting, AgentEvent::Connected) => {
                let (request, token_missing) = match &env.token {
                    Some(token) => (encode_request(client.mode, token.as_str().as_bytes()), false),
                    None => {
                        let none: Vec<u8> = Vec::new();
                        (encode_request(client.mode, none.as_slice()), true)
                    },
                };
                (
                    AgentState::Handshaking,
                    AgentAction::Handshake { request, limit: MAX_RESPONSE_LEN, token_missing },
                )
            },
            (AgentState::Connecting, AgentEvent::ConnectFailed) => (
                AgentState::Failed,
                AgentAction::Fail { kind: ErrorKind::QuicTransport },
            ),
            (AgentState::Handshaking, AgentEvent::ResponseRead(bytes)) => {
                match parse_response(client.mode, bytes.as_slice()) {
                    Ok(endpoint) => (
                        AgentState::Steady { endpoint },
                        AgentAction::Serve {
                            announcement: announcement(endpoint, client.dev, &env.http_port),
                        },
                    ),
                    Err(kind) => (AgentState::Failed, AgentAction::Fail { kind }),
                }
            },
            (AgentState::Handshaking, AgentEvent::ResponseFailed) => (
                AgentState::Failed,
                AgentAction::Fail { kind: ErrorKind::QuicTransport },
            ),
            (AgentState::Steady { endpoint }, AgentEvent::UniPayload(bytes)) => {
                if is_heartbeat(bytes.as_slice()) {
                    (AgentState::Steady { endpoint }, AgentAction::Nothing)
                } else {
                    (AgentState::Steady { endpoint }, AgentAction::LogPayload { bytes })
                }
            },
            (AgentState::Steady { endpoint }, AgentEvent::BiAccepted) => (
                AgentState::Steady { endpoint },
                AgentAction::ConnectTarget { port: client.intermediate_target_port },
            ),
            (AgentState::Steady { endpoint }, AgentEvent::TargetConnected) => (
                AgentState::Steady { endpoint },
                AgentAction::Bridge,
            ),
            (AgentState::Steady { endpoint }, AgentEvent::TargetRefused) => (
                AgentState::Steady { endpoint },
                AgentAction::FinishStream,
            ),
            (AgentState::Steady { endpoint }, AgentEvent::UniClosed) => (
                AgentState::Closing,
                AgentAction::WaitIdle,
            ),
            (AgentState::Steady { endpoint }, AgentEvent::BiClosed) => (
                AgentState::Closing,
                AgentAction::WaitIdle,
            ),
            (AgentState::Closing, AgentEvent::Idle) => (AgentState::Closed, AgentAction::Nothing),
            (state, _) => (state, AgentAction::Nothing),
        }
    }
}

/// An agent's tunnel opens exactly on a response of the length that its mode
/// calls for; on any other response the agent gives up.
pub proof fn lemma_agent_opens_on_fitting_response(
    bytes: Seq<u8>,
    client: SgClient,
    env: AgentEnvView,
)
    ensures
        agent_transition(
            AgentState::Handshaking,
            AgentEventView::ResponseRead(bytes),
            client,
            env,
        ).0 is Steady <==> bytes.len() == crate::handshake::response_len(client.mode),
        !(agent_transition(
            AgentState::Handshaking,
            AgentEventView::ResponseRead(bytes),
            client,
            env,
        ).0 is Steady) ==> agent_transition(
            AgentState::Handshaking,
            AgentEventView::ResponseRead(bytes),
            client,
            env,
        ).0 is Failed,
{
}

/// An agent that reads what the server wrote for its session ends up at the
/// port, or the identifier, that the server registered.
pub proof fn lemma_agent_learns_endpoint(
    port: u16,
    id: crate::tunnel_id::TunnelId,
    client: SgClient,
    env: AgentEnvView,
)
    ensures
        agent_transition(
            AgentState::Handshaking,
            AgentEventView::ResponseRead(crate::handshake::response_bytes(client.mode, port, id)),
            client,
            env,
        ).0 == (AgentState::Steady {
            endpoint: match client.mode {
                Mode::Tcp => Endpoint::Port(port),
                Mode::Http => Endpoint::Tunnel(id),
            },
        }),
{
    crate::handshake::lemma_response_round_trip(client.mode, port, id);
}

} // verus!
