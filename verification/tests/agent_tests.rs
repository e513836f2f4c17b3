use storm_grok::agent::{
    announcement, configure_agent, configure_storm_grok_client, server_address, server_name,
    AgentAction, AgentEnv, AgentEvent, AgentState, Cli, ProxyPlan, SgClient,
};
use storm_grok::error::ErrorKind;
use storm_grok::handshake::Endpoint;
use storm_grok::mode::Mode;
use storm_grok::session::BindHost;
use storm_grok::tunnel_id::TunnelId;

fn env(token: Option<&str>) -> AgentEnv {
    AgentEnv { token: token.map(|t| t.to_string()), quic_port: None, http_port: None }
}

fn client(mode: Mode, dev: bool) -> SgClient {
    configure_storm_grok_client(6190, Cli { mode, target_port: 2020, dev })
}

#[test]
fn client_takes_over_the_command_line() {
    let cli = Cli { mode: Mode::Tcp, target_port: 2020, dev: true };
    let c = configure_storm_grok_client(4000, cli);
    assert_eq!(
        c,
        SgClient { dev: true, mode: Mode::Tcp, intermediate_target_port: 4000, final_target_port: 2020 }
    );
}

#[test]
fn http_agent_runs_the_interceptor_in_between() {
    let plan = configure_agent(Cli { mode: Mode::Http, target_port: 2020, dev: false });
    assert_eq!(plan.proxy, Some(ProxyPlan { listen_port: 6190, target_port: 2020 }));
    assert_eq!(plan.client.intermediate_target_port, 6190);
    assert_eq!(plan.client.final_target_port, 2020);
    assert_eq!(plan.client.mode, Mode::Http);
}

#[test]
fn tcp_agent_bridges_to_the_service_itself() {
    let plan = configure_agent(Cli { mode: Mode::Tcp, target_port: 2020, dev: true });
    assert_eq!(plan.proxy, None);
    assert_eq!(plan.client.intermediate_target_port, 2020);
    assert!(plan.client.dev);
}

#[test]
fn server_address_by_environment() {
    assert_eq!(server_address(true, &None), "127.0.0.1:5000");
    assert_eq!(server_address(false, &None), "157.90.124.255:5000");
    assert_eq!(server_address(true, &Some("5001".to_string())), "127.0.0.1:5001");
    assert_eq!(server_name(true), "localhost");
    assert_eq!(server_name(false), "stormgrok.nl");
}

#[test]
fn announcement_names_the_way_in() {
    let id = TunnelId::new(0x550e8400e29b41d4a716446655440000);
    assert_eq!(announcement(Endpoint::Port(1025), true, &None), "nc localhost 1025");
    assert_eq!(announcement(Endpoint::Port(65534), false, &None), "nc stormgrok.nl 65534");
    assert_eq!(
        announcement(Endpoint::Tunnel(id), true, &None),
        "curl http://550e8400-e29b-41d4-a716-446655440000.localhost:3000"
    );
    assert_eq!(
        announcement(Endpoint::Tunnel(id), true, &Some("3001".to_string())),
        "curl http://550e8400-e29b-41d4-a716-446655440000.localhost:3001"
    );
    assert_eq!(
        announcement(Endpoint::Tunnel(id), false, &Some("3001".to_string())),
        "curl https://550e8400-e29b-41d4-a716-446655440000.stormgrok.nl"
    );
}

#[test]
fn agent_binds_from_port_6001() {
    let (state, action) =
        AgentState::new().step(AgentEvent::Booted, &client(Mode::Http, true), &env(None));
    assert_eq!(state, AgentState::Binding);
    assert!(matches!(
        action,
        AgentAction::BindSocket { host: BindHost::Loopback, first_port: 6001 }
    ));
    let (_, action) =
        AgentState::new().step(AgentEvent::Booted, &client(Mode::Http, false), &env(None));
    assert!(matches!(action, AgentAction::BindSocket { host: BindHost::Any, first_port: 6001 }));
}

#[test]
fn agent_connects_to_the_server() {
    let (state, action) =
        AgentState::Binding.step(AgentEvent::SocketBound, &client(Mode::Tcp, true), &env(None));
    assert_eq!(state, AgentState::Connecting);
    match action {
        AgentAction::Connect { address, server_name, insecure } => {
            assert_eq!(address, "127.0.0.1:5000");
            assert_eq!(server_name, "localhost");
            assert!(insecure);
        }
        other => panic!("unexpected action {:?}", other),
    }
    let e = AgentEnv { token: None, quic_port: Some("5002".to_string()), http_port: None };
    let (_, action) =
        AgentState::Binding.step(AgentEvent::SocketBound, &client(Mode::Tcp, false), &e);
    match action {
        AgentAction::Connect { address, server_name, insecure } => {
            assert_eq!(address, "157.90.124.255:5002");
            assert_eq!(server_name, "stormgrok.nl");
            assert!(!insecure);
        }
        other => panic!("unexpected action {:?}", other),
    }
}

#[test]
fn agent_sends_mode_byte_and_token() {
    let (state, action) = AgentState::Connecting.step(
        AgentEvent::Connected,
        &client(Mode::Tcp, true),
        &env(Some("a.b.c")),
    );
    assert_eq!(state, AgentState::Handshaking);
    match action {
        AgentAction::Handshake { request, limit, token_missing } => {
            assert_eq!(request, b"ta.b.c".to_vec());
            assert_eq!(limit, 16);
            assert!(!token_missing);
        }
        other => panic!("unexpected action {:?}", other),
    }
}

#[test]
fn agent_without_token_sends_an_empty_one() {
    let (_, action) =
        AgentState::Connecting.step(AgentEvent::Connected, &client(Mode::Http, true), &env(None));
    match action {
        AgentAction::Handshake { request, limit, token_missing } => {
            assert_eq!(request, b"h".to_vec());
            assert_eq!(limit, 16);
            assert!(token_missing);
        }
        other => panic!("unexpected action {:?}", other),
    }
}

#[test]
fn agent_reads_port_in_tcp_mode() {
    let (state, action) = AgentState::Handshaking.step(
        AgentEvent::ResponseRead(vec![0x04, 0x01]),
        &client(Mode::Tcp, true),
        &env(None),
    );
    assert_eq!(state, AgentState::Steady { endpoint: Endpoint::Port(1025) });
    match action {
        AgentAction::Serve { announcement } => assert_eq!(announcement, "nc localhost 1025"),
        other => panic!("unexpected action {:?}", other),
    }
}

#[test]
fn agent_reads_id_in_http_mode() {
    let id = TunnelId::new(0x550e8400e29b41d4a716446655440000);
    let (state, action) = AgentState::Handshaking.step(
        AgentEvent::ResponseRead(id.to_bytes()),
        &client(Mode::Http, true),
        &env(None),
    );
    assert_eq!(state, AgentState::Steady { endpoint: Endpoint::Tunnel(id) });
    match action {
        AgentAction::Serve { announcement } => assert_eq!(
            announcement,
            "curl http://550e8400-e29b-41d4-a716-446655440000.localhost:3000"
        ),
        other => panic!("unexpected action {:?}", other),
    }
}

#[test]
fn agent_fails_on_a_response_of_wrong_length() {
    let (state, action) = AgentState::Handshaking.step(
        AgentEvent::ResponseRead(vec![]),
        &client(Mode::Http, true),
        &env(None),
    );
    assert_eq!(state, AgentState::Failed);
    assert!(matches!(action, AgentAction::Fail { kind: ErrorKind::HandshakeMalformed }));
    let (state, _) = AgentState::Handshaking.step(
        AgentEvent::ResponseRead(vec![0; 16]),
        &client(Mode::Tcp, true),
        &env(None),
    );
    assert_eq!(state, AgentState::Failed);
}

#[test]
fn agent_fails_when_the_server_cannot_be_reached() {
    let c = client(Mode::Http, true);
    let (state, action) = AgentState::Connecting.step(AgentEvent::ConnectFailed, &c, &env(None));
    assert_eq!(state, AgentState::Failed);
    assert!(matches!(action, AgentAction::Fail { kind: ErrorKind::QuicTransport }));
    let (state, action) =
        AgentState::Handshaking.step(AgentEvent::ResponseFailed, &c, &env(None));
    assert_eq!(state, AgentState::Failed);
    assert!(matches!(action, AgentAction::Fail { kind: ErrorKind::QuicTransport }));
    let (state, action) = AgentState::Binding.step(
        AgentEvent::SocketFailed(ErrorKind::PortExhaustion),
        &c,
        &env(None),
    );
    assert_eq!(state, AgentState::Failed);
    assert!(matches!(action, AgentAction::Fail { kind: ErrorKind::PortExhaustion }));
}

#[test]
fn agent_ignores_pings_and_logs_the_rest() {
    let c = client(Mode::Http, true);
    let steady = AgentState::Steady { endpoint: Endpoint::Port(1) };
    let (state, action) = steady.step(AgentEvent::UniPayload(b"ping".to_vec()), &c, &env(None));
    assert_eq!(state, steady);
    assert!(matches!(action, AgentAction::Nothing));
    let (state, action) = steady.step(AgentEvent::UniPayload(b"hello".to_vec()), &c, &env(None));
    assert_eq!(state, steady);
    match action {
        AgentAction::LogPayload { bytes } => assert_eq!(bytes, b"hello".to_vec()),
        other => panic!("unexpected action {:?}", other),
    }
}

#[test]
fn agent_bridges_streams_to_the_target() {
    let c = client(Mode::Http, true);
    let steady = AgentState::Steady { endpoint: Endpoint::Port(1) };
    let (_, action) = steady.step(AgentEvent::BiAccepted, &c, &env(None));
    assert!(matches!(action, AgentAction::ConnectTarget { port: 6190 }));
    let (_, action) = steady.step(AgentEvent::TargetConnected, &c, &env(None));
    assert!(matches!(action, AgentAction::Bridge));
    let (state, action) = steady.step(AgentEvent::TargetRefused, &c, &env(None));
    assert!(matches!(action, AgentAction::FinishStream));
    assert_eq!(state, steady);
}

#[test]
fn agent_winds_down_when_streams_end() {
    let c = client(Mode::Http, true);
    let steady = AgentState::Steady { endpoint: Endpoint::Port(1) };
    for which in 0..2 {
        let event = if which == 0 { AgentEvent::UniClosed } else { AgentEvent::BiClosed };
        let (state, action) = steady.step(event, &c, &env(None));
        assert_eq!(state, AgentState::Closing);
        assert!(matches!(action, AgentAction::WaitIdle));
        let (state, action) = state.step(AgentEvent::Idle, &c, &env(None));
        assert_eq!(state, AgentState::Closed);
        assert!(matches!(action, AgentAction::Nothing));
    }
}

#[test]
fn agent_ignores_what_it_does_not_wait_for() {
    let c = client(Mode::Http, true);
    let (state, action) = AgentState::Start.step(AgentEvent::Connected, &c, &env(None));
    assert_eq!(state, AgentState::Start);
    assert!(matches!(action, AgentAction::Nothing));
    let (state, action) = AgentState::Failed.step(AgentEvent::Booted, &c, &env(None));
    assert_eq!(state, AgentState::Failed);
    assert!(matches!(action, AgentAction::Nothing));
}
