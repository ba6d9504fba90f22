use p2p_rendezvous_server::event::Event;
use p2p_rendezvous_server::startup::{
    ipv4_string, Ipv4, LocalIpOutcome, StartupAction, StartupError, StartupEvent, StartupPhase,
    StartupWorkflow, StepOutcome,
};

fn local() -> Ipv4 {
    Ipv4 { a: 192, b: 168, c: 0, d: 17 }
}

#[test]
fn ipv4_formats_dotted_decimal() {
    assert_eq!(ipv4_string(local()), "192.168.0.17");
    assert_eq!(ipv4_string(Ipv4 { a: 0, b: 9, c: 10, d: 255 }), "0.9.10.255");
}

#[test]
fn no_port_flag_requests_default_external_port() {
    let mut w = StartupWorkflow::new(None);
    assert_eq!(w.port, 42069);
    w.step(StepOutcome::LocalIp(LocalIpOutcome::V4(local())));
    w.step(StepOutcome::GatewaySearch(Ok(())));
    match w.next_action() {
        Some(StartupAction::AddPort {
            external_port,
            local_ip,
            internal_port,
            lease_secs,
            description,
        }) => {
            assert_eq!(external_port, 42069);
            assert_eq!(internal_port, 42069);
            assert_eq!(local_ip, local());
            assert_eq!(lease_secs, 86400);
            assert_eq!(description, "p2p-rendezvous-server-apt-1003");
        },
        other => panic!("expected a port-mapping action, got {:?}", other),
    }
}

#[test]
fn explicit_port_flag_is_respected() {
    let w = StartupWorkflow::new(Some(7777));
    assert_eq!(w.port, 7777);
}

#[test]
fn search_action_uses_local_ip_and_discovery_constants() {
    let mut w = StartupWorkflow::new(None);
    w.step(StepOutcome::LocalIp(LocalIpOutcome::V4(local())));
    match w.next_action() {
        Some(StartupAction::SearchGateway {
            bind_ip,
            bind_port,
            broadcast_ip,
            broadcast_port,
            timeout_secs,
        }) => {
            assert_eq!(bind_ip, local());
            assert_eq!(bind_port, 0);
            assert_eq!(broadcast_ip, Ipv4 { a: 239, b: 255, c: 255, d: 250 });
            assert_eq!(broadcast_port, 1900);
            assert_eq!(timeout_secs, 5);
        },
        other => panic!("expected a gateway search action, got {:?}", other),
    }
}

#[test]
fn successful_run_emits_hints_then_completion() {
    let mut w = StartupWorkflow::new(Some(9000));
    let evs = w.step(StepOutcome::LocalIp(LocalIpOutcome::V4(local())));
    assert_eq!(evs.len(), 1);
    assert!(matches!(
        &evs[0],
        Event::Startup(StartupEvent::ProgressHint(h)) if h == "Found local ip address: 192.168.0.17"
    ));
    let evs = w.step(StepOutcome::GatewaySearch(Ok(())));
    assert!(matches!(
        &evs[0],
        Event::Startup(StartupEvent::ProgressHint(h)) if h == "Gateway found successfully."
    ));
    let evs = w.step(StepOutcome::PortMapping(Ok(())));
    assert!(matches!(
        &evs[0],
        Event::Startup(StartupEvent::ProgressHint(h)) if h == "Port opened successfully."
    ));
    let public = Ipv4 { a: 8, b: 8, c: 4, d: 4 };
    let evs = w.step(StepOutcome::ExternalIp(Ok(public)));
    assert_eq!(evs.len(), 2);
    assert!(matches!(
        &evs[0],
        Event::Startup(StartupEvent::ProgressHint(h)) if h == "External IP found."
    ));
    assert!(matches!(
        &evs[1],
        Event::Startup(StartupEvent::Complete { public_ip, local_ip })
            if *public_ip == public && *local_ip == local()
    ));
    assert_eq!(w.phase, StartupPhase::Done { local_ip: local(), public_ip: public });
    assert!(w.next_action().is_none());
}

#[test]
fn gateway_search_timeout_is_terminal_with_one_error() {
    let mut w = StartupWorkflow::new(None);
    w.step(StepOutcome::LocalIp(LocalIpOutcome::V4(local())));
    let evs = w.step(StepOutcome::GatewaySearch(Err("search timed out".to_owned())));
    assert_eq!(evs.len(), 1);
    assert!(matches!(
        &evs[0],
        Event::StartupError(StartupError::SearchFailed(m)) if m == "search timed out"
    ));
    assert_eq!(w.phase, StartupPhase::Failed);
    assert!(w.next_action().is_none());
    // nothing further ever comes out of a failed workflow
    let evs = w.step(StepOutcome::GatewaySearch(Ok(())));
    assert!(evs.is_empty());
    let evs = w.step(StepOutcome::ExternalIp(Ok(local())));
    assert!(evs.is_empty());
    assert_eq!(w.phase, StartupPhase::Failed);
}

#[test]
fn ipv6_only_host_is_a_distinct_terminal_error() {
    let mut w = StartupWorkflow::new(None);
    let evs = w.step(StepOutcome::LocalIp(LocalIpOutcome::NotV4));
    assert_eq!(evs.len(), 1);
    assert!(matches!(&evs[0], Event::StartupError(StartupError::Ipv6NotSupported)));
    assert_eq!(w.phase, StartupPhase::Failed);
}

#[test]
fn lookup_failure_is_a_distinct_terminal_error() {
    let mut w = StartupWorkflow::new(None);
    let evs = w.step(StepOutcome::LocalIp(LocalIpOutcome::LookupFailed("no interface".to_owned())));
    assert_eq!(evs.len(), 1);
    assert!(matches!(
        &evs[0],
        Event::StartupError(StartupError::IpNotFound(m)) if m == "no interface"
    ));
    assert_eq!(w.phase, StartupPhase::Failed);
}

#[test]
fn port_mapping_failure_is_terminal() {
    let mut w = StartupWorkflow::new(None);
    w.step(StepOutcome::LocalIp(LocalIpOutcome::V4(local())));
    w.step(StepOutcome::GatewaySearch(Ok(())));
    let evs = w.step(StepOutcome::PortMapping(Err("denied".to_owned())));
    assert!(matches!(
        &evs[0],
        Event::StartupError(StartupError::AddPortFailed(m)) if m == "denied"
    ));
    assert_eq!(w.phase, StartupPhase::Failed);
}

#[test]
fn external_ip_failure_is_terminal() {
    let mut w = StartupWorkflow::new(None);
    w.step(StepOutcome::LocalIp(LocalIpOutcome::V4(local())));
    w.step(StepOutcome::GatewaySearch(Ok(())));
    w.step(StepOutcome::PortMapping(Ok(())));
    let evs = w.step(StepOutcome::ExternalIp(Err("no reply".to_owned())));
    assert!(matches!(
        &evs[0],
        Event::StartupError(StartupError::GetIpFailed(m)) if m == "no reply"
    ));
    assert_eq!(w.phase, StartupPhase::Failed);
}
