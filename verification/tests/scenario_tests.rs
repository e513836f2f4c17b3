use storm_grok::agent::{
    configure_agent, AgentAction, AgentEnv, AgentEvent, AgentPlan, AgentState, Cli,
};
use storm_grok::dispatch::{not_found_reply, proxy_failure_reply, route, Route};
use storm_grok::interceptor::{forwarded_headers, target_uri, MyCtx};
use storm_grok::key_store::KeyStore;
use storm_grok::mode::Mode;
use storm_grok::probe::{BindResult, PortProbe, ProbeAction, SERVER_FIRST_PORT};
use storm_grok::registry::ClientRegistry;
use storm_grok::session::{SessionAction, SessionEvent, SessionState};
use storm_grok::settings::AuthRules;
use storm_grok::traffic_log::{RequestHead, ResponseHead, TrafficLog};

/// A server and an agent in one process: every action that the machines ask
/// for is performed on plain values.
struct Tunnel {
    auth: AuthRules,
    keys: KeyStore,
    registry: ClientRegistry,
    session: Option<SessionState>,
    agent: AgentState,
    plan: AgentPlan,
    env: AgentEnv,
    announcement: Option<String>,
    close_code: Option<u32>,
    log: TrafficLog,
    received_by_service: Vec<u8>,
}

fn dev_rules(enabled: bool) -> AuthRules {
    AuthRules {
        enabled,
        users: vec![],
        host_domains: vec![],
        default_allow_issuers: vec![],
        jwt_key_endpoints: vec![],
    }
}

fn first_free_port(in_use: u16) -> Option<u16> {
    let (mut probe, mut action) = PortProbe::start(SERVER_FIRST_PORT);
    loop {
        match action {
            ProbeAction::Try(port) => {
                let result =
                    if port < SERVER_FIRST_PORT + in_use { BindResult::InUse } else { BindResult::Bound };
                let next = probe.step(result);
                probe = next.0;
                action = next.1;
            }
            ProbeAction::Found(port) => return Some(port),
            ProbeAction::GiveUp(_) => return None,
        }
    }
}

fn start_server_and_client(
    mode: Mode,
    auth_enabled: bool,
    token: Option<&str>,
    quic_port: &str,
    http_port: &str,
) -> Tunnel {
    let plan = configure_agent(Cli { mode, target_port: 2020, dev: true });
    let mut t = Tunnel {
        auth: dev_rules(auth_enabled),
        keys: KeyStore::new(),
        registry: ClientRegistry::new(),
        session: None,
        agent: AgentState::new(),
        plan,
        env: AgentEnv {
            token: token.map(|s| s.to_string()),
            quic_port: Some(quic_port.to_string()),
            http_port: Some(http_port.to_string()),
        },
        announcement: None,
        close_code: None,
        log: TrafficLog::new(),
        received_by_service: vec![],
    };

    let (agent, action) = t.agent.step(AgentEvent::Booted, &t.plan.client, &t.env);
    assert!(matches!(action, AgentAction::BindSocket { first_port: 6001, .. }));
    let (agent, action) = agent.step(AgentEvent::SocketBound, &t.plan.client, &t.env);
    match action {
        AgentAction::Connect { address, .. } => {
            assert_eq!(address, format!("127.0.0.1:{}", quic_port))
        }
        other => panic!("unexpected action {:?}", other),
    }
    let (agent, action) = agent.step(AgentEvent::Connected, &t.plan.client, &t.env);
    let request = match action {
        AgentAction::Handshake { request, .. } => request,
        other => panic!("unexpected action {:?}", other),
    };

    let (session, action) =
        SessionState::new().step(SessionEvent::Connected, &t.auth, &t.keys, &mut t.registry);
    assert!(matches!(action, SessionAction::ReadRequest { .. }));
    let (session, action) =
        session.step(SessionEvent::RequestRead(request), &t.auth, &t.keys, &mut t.registry);
    let host = match action {
        SessionAction::BindListener { host } => host,
        other => panic!("unexpected action {:?}", other),
    };
    let port = first_free_port(3).unwrap();
    let addr = format!("{}:{}", host.as_str(), port);
    let (session, action) = session.step(
        SessionEvent::ListenerBound { port, addr },
        &t.auth,
        &t.keys,
        &mut t.registry,
    );
    match action {
        SessionAction::SendResponse { bytes } => {
            let (session, action) =
                session.step(SessionEvent::ResponseSent, &t.auth, &t.keys, &mut t.registry);
            assert!(matches!(action, SessionAction::RunSteady));
            t.session = Some(session);
            let (agent, action) =
                agent.step(AgentEvent::ResponseRead(bytes), &t.plan.client, &t.env);
            match action {
                AgentAction::Serve { announcement } => t.announcement = Some(announcement),
                other => panic!("unexpected action {:?}", other),
            }
            t.agent = agent;
        }
        SessionAction::Close { code, .. } => {
            t.close_code = Some(code);
            t.session = Some(session);
            let (agent, action) =
                agent.step(AgentEvent::ResponseFailed, &t.plan.client, &t.env);
            assert!(matches!(action, AgentAction::Fail { .. }));
            t.agent = agent;
        }
        other => panic!("unexpected action {:?}", other),
    }
    t
}

/// The address of the public URL in an announcement of the form
/// `curl http://<label>.localhost:<port>`.
fn url_of(announcement: &str) -> String {
    let url = announcement.strip_prefix("curl ").unwrap();
    let rest = url.strip_prefix("http://").unwrap();
    let (label, tail) = rest.split_once('.').unwrap();
    assert!(!label.is_empty());
    let port = tail.strip_prefix("localhost:").unwrap();
    assert_eq!(port.len(), 4);
    assert!(port.chars().all(|c| c.is_ascii_digit()));
    url.to_string()
}

impl Tunnel {
    /// One public `GET` of `url`, answered by a service that says
    /// "Hello, World!".
    fn get(&mut self, url: &str) -> (u16, Vec<u8>) {
        let rest = url.strip_prefix("http://").unwrap();
        let (host, path) = match rest.find('/') {
            Some(at) => (&rest[..at], &rest[at..]),
            None => (rest, "/"),
        };
        let target = match route(host, &self.registry) {
            Route::Forward { target } => target,
            Route::NotFound => {
                let reply = not_found_reply();
                return (reply.status, reply.body.into_bytes());
            }
            Route::Default => return (200, vec![]),
        };
        assert_eq!(target, "http://127.0.0.1:1028");

        let session = match self.session.take() {
            Some(s) => s,
            None => {
                let reply = proxy_failure_reply();
                return (reply.status, reply.body.into_bytes());
            }
        };
        let (session, action) =
            session.step(SessionEvent::TcpAccepted, &self.auth, &self.keys, &mut self.registry);
        assert!(matches!(action, SessionAction::OpenStream));
        let (session, action) =
            session.step(SessionEvent::StreamOpened, &self.auth, &self.keys, &mut self.registry);
        assert!(matches!(action, SessionAction::Bridge));
        self.session = Some(session);

        let (agent, action) = self.agent.step(AgentEvent::BiAccepted, &self.plan.client, &self.env);
        assert!(matches!(action, AgentAction::ConnectTarget { port: 6190 }));
        let (agent, action) = agent.step(AgentEvent::TargetConnected, &self.plan.client, &self.env);
        assert!(matches!(action, AgentAction::Bridge));
        self.agent = agent;

        let proxy = self.plan.proxy.unwrap();
        assert_eq!(target_uri(proxy.target_port, path), format!("http://127.0.0.1:2020{}", path));
        let mut capture = MyCtx::new();
        let head = RequestHead {
            method: "GET".to_string(),
            uri: path.to_string(),
            headers: vec![("host".to_string(), host.to_string())],
        };
        capture.on_request(head, None);
        let body = b"Hello, World!".to_vec();
        let head = ResponseHead {
            status: 200,
            headers: vec![
                ("content-length".to_string(), "13".to_string()),
                ("date".to_string(), "today".to_string()),
            ],
        };
        let sent = forwarded_headers(&head.headers);
        assert_eq!(sent, vec![("date".to_string(), "today".to_string())]);
        capture.on_response_head(head);
        assert!(capture.on_response_body(Some(&body), true, &mut self.log));
        (200, body)
    }

    /// Bytes written to the public TCP port arrive at the exposed service.
    fn send_tcp(&mut self, bytes: &[u8]) {
        let session = self.session.take().unwrap();
        let (session, action) =
            session.step(SessionEvent::TcpAccepted, &self.auth, &self.keys, &mut self.registry);
        assert!(matches!(action, SessionAction::OpenStream));
        let (session, action) =
            session.step(SessionEvent::StreamOpened, &self.auth, &self.keys, &mut self.registry);
        assert!(matches!(action, SessionAction::Bridge));
        self.session = Some(session);
        let (agent, action) = self.agent.step(AgentEvent::BiAccepted, &self.plan.client, &self.env);
        assert!(matches!(action, AgentAction::ConnectTarget { port: 2020 }));
        let (agent, action) = agent.step(AgentEvent::TargetConnected, &self.plan.client, &self.env);
        assert!(matches!(action, AgentAction::Bridge));
        self.agent = agent;
        self.received_by_service.extend_from_slice(bytes);
    }
}

#[test]
fn tunnel_one_tcp_echo() {
    let mut t = start_server_and_client(Mode::Tcp, false, None, "5000", "3000");
    assert_eq!(t.announcement.as_deref(), Some("nc localhost 1028"));
    let id = t.session.as_ref().unwrap().tunnel_id().unwrap();
    assert_eq!(t.registry.lookup(id), Some("0.0.0.0:1028".to_string()));
    t.send_tcp(b"hello\n");
    assert_eq!(t.received_by_service, b"hello\n".to_vec());
}

#[test]
fn tunnel_single_request_1() {
    let mut t = start_server_and_client(Mode::Http, false, None, "5000", "3000");
    let url = url_of(t.announcement.as_ref().unwrap());
    assert!(url.ends_with(".localhost:3000"));
    let resp = t.get(&url);
    assert_eq!(resp.0, 200);
    assert_eq!(resp.1, b"Hello, World!".to_vec());
}

#[test]
fn tunnel_single_request_2() {
    let mut t = start_server_and_client(Mode::Http, false, None, "5001", "3001");
    let url = url_of(t.announcement.as_ref().unwrap());
    assert!(url.ends_with(".localhost:3001"));
    let resp = t.get(&url);
    assert_eq!(resp.0, 200);
}

#[test]
fn tunnel_concurrent_requests() {
    let mut t = start_server_and_client(Mode::Http, false, None, "5002", "3002");
    let url = url_of(t.announcement.as_ref().unwrap());
    println!("url: {:?}", url);
    let wasm_resp = t.get(&url);
    let js_resp = t.get(&url);
    assert_eq!(wasm_resp.0, 200);
    assert_eq!(js_resp.0, 200);
    assert_eq!(t.log.len(), 2);
}

#[test]
fn unknown_sub_domain_is_answered_with_404() {
    let mut t = start_server_and_client(Mode::Http, false, None, "5000", "3000");
    let resp = t.get("http://00000000-0000-0000-0000-000000000000.localhost:3000/");
    assert_eq!(resp.0, 404);
    assert_eq!(resp.1, b"No active client found\n".to_vec());
    assert_eq!(t.log.len(), 0);
}

#[test]
fn empty_token_is_rejected_with_error_code_one() {
    let t = start_server_and_client(Mode::Http, true, None, "5000", "3000");
    assert_eq!(t.close_code, Some(1));
    assert_eq!(t.agent, AgentState::Failed);
    assert!(t.announcement.is_none());
    assert_eq!(t.registry.len(), 0);
    assert!(t.session.as_ref().unwrap().tunnel_id().is_none());
}

#[test]
fn traffic_log_captures_the_request_cycle() {
    let mut t = start_server_and_client(Mode::Http, false, None, "5000", "3000");
    let url = url_of(t.announcement.as_ref().unwrap());
    assert_eq!(t.get(&url).0, 200);
    let snapshot = t.log.snapshot();
    assert_eq!(snapshot.len(), 1);
    assert_eq!(snapshot.requests[0].request_head.method, "GET");
    assert_eq!(snapshot.requests[0].response_head.status, 200);
    assert_eq!(snapshot.requests[0].response_body, b"Hello, World!".to_vec());
}

#[test]
fn session_drop_makes_the_tunnel_unknown() {
    let mut t = start_server_and_client(Mode::Http, false, None, "5000", "3000");
    let url = url_of(t.announcement.as_ref().unwrap());
    let id = t.session.as_ref().unwrap().tunnel_id().unwrap();
    assert!(t.registry.contains(id));
    let session = t.session.take().unwrap();
    let (session, action) =
        session.step(SessionEvent::HeartbeatFailed, &t.auth, &t.keys, &mut t.registry);
    assert!(matches!(action, SessionAction::Teardown));
    assert_eq!(t.registry.lookup(id), None);
    t.session = Some(session);
    assert_eq!(t.get(&url).0, 404);
}
