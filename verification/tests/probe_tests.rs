use storm_grok::error::ErrorKind;
use storm_grok::probe::{
    BindResult, PortProbe, ProbeAction, AGENT_FIRST_PORT, PORT_END, SERVER_FIRST_PORT,
};

#[test]
fn probing_starts_at_the_first_port() {
    assert_eq!(SERVER_FIRST_PORT, 1025);
    assert_eq!(AGENT_FIRST_PORT, 6001);
    assert_eq!(PORT_END, 65535);
    let (probe, action) = PortProbe::start(SERVER_FIRST_PORT);
    assert_eq!(action, ProbeAction::Try(1025));
    assert_eq!(probe.current, 1025);
}

#[test]
fn bound_port_ends_the_search() {
    let (probe, _) = PortProbe::start(6001);
    let (_, action) = probe.step(BindResult::Bound);
    assert_eq!(action, ProbeAction::Found(6001));
}

#[test]
fn port_in_use_leads_to_the_next_port() {
    let (probe, _) = PortProbe::start(1025);
    let (probe, action) = probe.step(BindResult::InUse);
    assert_eq!(action, ProbeAction::Try(1026));
    let (probe, action) = probe.step(BindResult::InUse);
    assert_eq!(action, ProbeAction::Try(1027));
    let (_, action) = probe.step(BindResult::Bound);
    assert_eq!(action, ProbeAction::Found(1027));
}

#[test]
fn other_failure_is_fatal() {
    let (probe, _) = PortProbe::start(1025);
    let (_, action) = probe.step(BindResult::Failed);
    assert_eq!(action, ProbeAction::GiveUp(ErrorKind::BridgeIo));
}

#[test]
fn search_gives_up_when_ports_run_out() {
    let (mut probe, mut action) = PortProbe::start(65530);
    let mut tried = vec![];
    while let ProbeAction::Try(port) = action {
        tried.push(port);
        let next = probe.step(BindResult::InUse);
        probe = next.0;
        action = next.1;
    }
    assert_eq!(tried, vec![65530u16, 65531, 65532, 65533, 65534]);
    assert_eq!(action, ProbeAction::GiveUp(ErrorKind::PortExhaustion));
}

#[test]
fn search_from_the_end_gives_up_at_once() {
    let (_, action) = PortProbe::start(65535);
    assert_eq!(action, ProbeAction::GiveUp(ErrorKind::PortExhaustion));
}

#[test]
fn full_search_tries_every_candidate_once() {
    let (mut probe, mut action) = PortProbe::start(SERVER_FIRST_PORT);
    let mut count: u32 = 0;
    while let ProbeAction::Try(port) = action {
        assert_eq!(port as u32, 1025 + count);
        count += 1;
        let next = probe.step(BindResult::InUse);
        probe = next.0;
        action = next.1;
    }
    assert_eq!(count, 65535 - 1025);
}
