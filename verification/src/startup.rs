//! State machine of the network-reachability startup workflow.
//!
//! The workflow runs once and establishes external reachability in five
//! ordered steps: resolve the host's local IPv4 address, discover a gateway
//! that supports automatic port mapping, request a UDP port mapping, query the
//! gateway's external address, and announce completion. Each successful step
//! emits a progress hint before the next step's action is attempted; the first
//! failure is terminal. The outside actions themselves (network I/O) are
//! performed by a driver, which feeds each observed outcome back into
//! [`StartupWorkflow::step`].
use vstd::prelude::*;
use crate::event::{ErrorModel, Event, EventModel, events_model};
use crate::text::push_char;

verus! {

/// External port requested when the operator supplies none.
pub const DEFAULT_PORT: u16 = 42069;

/// Lease duration of the requested port mapping, in seconds.
pub const LEASE_SECS: u32 = 86400;

/// Bound on the gateway multicast discovery wait, in seconds.
pub const DISCOVERY_TIMEOUT_SECS: u64 = 5;

/// An IPv4 address as four plain octets.
#[derive(Clone, Copy, Debug, PartialEq, Eq, Structural)]
pub struct Ipv4 {
    pub a: u8,
    pub b: u8,
    pub c: u8,
    pub d: u8,
}

/// Progress of the startup workflow, as published on the bus.
#[derive(Debug, PartialEq)]
pub enum StartupEvent {
    ProgressHint(String),
    Complete { public_ip: Ipv4, local_ip: Ipv4 },
}

/// The distinct terminal failures of the startup workflow; each carries the
/// text of the underlying error.
#[derive(Debug, PartialEq)]
pub enum StartupError {
    Ipv6NotSupported,
    IpNotFound(String),
    SearchFailed(String),
    AddPortFailed(String),
    GetIpFailed(String),
}

/// Where the workflow stands.
#[derive(Clone, Copy, Debug, PartialEq)]
pub enum StartupPhase {
    ResolvingIp,
    SearchingGateway { local_ip: Ipv4 },
    AddingPort { local_ip: Ipv4 },
    GettingExternalIp { local_ip: Ipv4 },
    Done { local_ip: Ipv4, public_ip: Ipv4 },
    Failed,
}

/// The outside action the driver must perform next.
#[derive(Debug, PartialEq)]
pub enum StartupAction {
    ResolveLocalIp,
    SearchGateway {
        bind_ip: Ipv4,
        bind_port: u16,
        broadcast_ip: Ipv4,
        broadcast_port: u16,
        timeout_secs: u64,
    },
    AddPort { external_port: u16, local_ip: Ipv4, internal_port: u16, lease_secs: u32, description: String },
    GetExternalIp,
}

/// What the driver observed when resolving the host's local address.
#[derive(Debug, PartialEq)]
pub enum LocalIpOutcome {
    V4(Ipv4),
    NotV4,
    LookupFailed(String),
}

/// The observed result of one outside step, handed back by the driver.
#[derive(Debug, PartialEq)]
pub enum StepOutcome {
    LocalIp(LocalIpOutcome),
    GatewaySearch(Result<(), String>),
    PortMapping(Result<(), String>),
    ExternalIp(Result<Ipv4, String>),
}

/// Mathematical model of a step outcome: carried messages as character
/// sequences.
pub ghost enum OutcomeModel {
    LocalIpV4(Ipv4),
    LocalIpNotV4,
    LocalIpLookupFailed(Seq<char>),
    GatewayOk,
    GatewayErr(Seq<char>),
    PortOk,
    PortErr(Seq<char>),
    ExternalIpOk(Ipv4),
    ExternalIpErr(Seq<char>),
}

pub open spec fn outcome_model(o: StepOutcome) -> OutcomeModel {
    match o {
        StepOutcome::LocalIp(LocalIpOutcome::V4(ip)) => OutcomeModel::LocalIpV4(ip),
        StepOutcome::LocalIp(LocalIpOutcome::NotV4) => OutcomeModel::LocalIpNotV4,
        StepOutcome::LocalIp(
            LocalIpOutcome::LookupFailed(m),
        ) => OutcomeModel::LocalIpLookupFailed(m@),
        StepOutcome::GatewaySearch(Ok(())) => OutcomeModel::GatewayOk,
        StepOutcome::GatewaySearch(Err(m)) => OutcomeModel::GatewayErr(m@),
        StepOutcome::PortMapping(Ok(())) => OutcomeModel::PortOk,
        StepOutcome::PortMapping(Err(m)) => OutcomeModel::PortErr(m@),
        StepOutcome::ExternalIp(Ok(ip)) => OutcomeModel::ExternalIpOk(ip),
        StepOutcome::ExternalIp(Err(m)) => OutcomeModel::ExternalIpErr(m@),
    }
}

/// The decimal character of one digit.
pub open spec fn dec_digit(d: u8) -> char {
    (((d + 48) as u8) as char)
}

/// The decimal digits of an octet, most significant first, no leading zeros.
pub open spec fn u8_digits(n: u8) -> Seq<char> {
    if n < 10 {
        seq![dec_digit(n)]
    } else if n < 100 {
        seq![dec_digit(n / 10), dec_digit(n % 10)]
    } else {
        seq![dec_digit(n / 100), dec_digit((n / 10) % 10), dec_digit(n % 10)]
    }
}

/// The usual dotted-decimal text of an address.
pub open spec fn ipv4_chars(ip: Ipv4) -> Seq<char> {
    u8_digits(ip.a) + seq!['.'] + u8_digits(ip.b) + seq!['.'] + u8_digits(ip.c) + seq!['.']
        + u8_digits(ip.d)
}

/// The hint announced once the local address is found.
pub open spec fn local_ip_hint(ip: Ipv4) -> Seq<char> {
    "Found local ip address: "@ + ipv4_chars(ip)
}

/// The whole transition relation of the workflow: from a phase and an observed
/// outcome to the next phase and the exact events published on the bus.
pub open spec fn phase_step(p: StartupPhase, o: OutcomeModel) -> (StartupPhase, Seq<EventModel>) {
    match (p, o) {
        (StartupPhase::ResolvingIp, OutcomeModel::LocalIpV4(ip)) => (
            StartupPhase::SearchingGateway { local_ip: ip },
            seq![EventModel::Progress(local_ip_hint(ip))],
        ),
        (StartupPhase::ResolvingIp, OutcomeModel::LocalIpNotV4) => (
            StartupPhase::Failed,
            seq![EventModel::Error(ErrorModel::Ipv6NotSupported)],
        ),
        (StartupPhase::ResolvingIp, OutcomeModel::LocalIpLookupFailed(m)) => (
            StartupPhase::Failed,
            seq![EventModel::Error(ErrorModel::IpNotFound(m))],
        ),
        (StartupPhase::SearchingGateway { local_ip }, OutcomeModel::GatewayOk) => (
            StartupPhase::AddingPort { local_ip },
            seq![EventModel::Progress("Gateway found successfully."@)],
        ),
        (StartupPhase::SearchingGateway { .. }, OutcomeModel::GatewayErr(m)) => (
            StartupPhase::Failed,
            seq![EventModel::Error(ErrorModel::SearchFailed(m))],
        ),
        (StartupPhase::AddingPort { local_ip }, OutcomeModel::PortOk) => (
            StartupPhase::GettingExternalIp { local_ip },
            seq![EventModel::Progress("Port opened successfully."@)],
        ),
        (StartupPhase::AddingPort { .. }, OutcomeModel::PortErr(m)) => (
            StartupPhase::Failed,
            seq![EventModel::Error(ErrorModel::AddPortFailed(m))],
        ),
        (StartupPhase::GettingExternalIp { local_ip }, OutcomeModel::ExternalIpOk(pip)) => (
            StartupPhase::Done { local_ip, public_ip: pip },
            seq![
                EventModel::Progress("External IP found."@),
                EventModel::Complete { public_ip: pip, local_ip },
            ],
        ),
        (StartupPhase::GettingExternalIp { .. }, OutcomeModel::ExternalIpErr(m)) => (
            StartupPhase::Failed,
            seq![EventModel::Error(ErrorModel::GetIpFailed(m))],
        ),
        _ => (p, Seq::<EventModel>::empty()),
    }
}

/// One decimal digit as a character.
fn digit_char(d: u8) -> (c: char)
    requires
        d < 10,
    ensures
        c == dec_digit(d),
{
    (d + 48) as char
}

/// Append the decimal digits of an octet.
fn push_u8_digits(s: &mut String, n: u8)
    ensures
        final(s)@ == old(s)@ + u8_digits(n),
{
    if n >= 100 {
        push_char(s, digit_char(n / 100));
        push_char(s, digit_char((n / 10) % 10));
        push_char(s, digit_char(n % 10));
        assert(final(s)@ =~= old(s)@ + u8_digits(n));
    } else if n >= 10 {
        push_char(s, digit_char(n / 10));
        push_char(s, digit_char(n % 10));
        assert(final(s)@ =~= old(s)@ + u8_digits(n));
    } else {
        push_char(s, digit_char(n));
        assert(final(s)@ =~= old(s)@ + u8_digits(n));
    }
}

/// Append the dotted-decimal text of an address.
fn push_ipv4(s: &mut String, ip: Ipv4)
    ensures
        final(s)@ == old(s)@ + ipv4_chars(ip),
{
    push_u8_digits(s, ip.a);
    push_char(s, '.');
    push_u8_digits(s, ip.b);
    push_char(s, '.');
    push_u8_digits(s, ip.c);
    push_char(s, '.');
    push_u8_digits(s, ip.d);
    assert(final(s)@ =~= old(s)@ + ipv4_chars(ip));
}

/// The dotted-decimal text of an address.
pub fn ipv4_string(ip: Ipv4) -> (r: String)
    ensures
        r@ == ipv4_chars(ip),
{
    let mut s = String::new();
    push_ipv4(&mut s, ip);
    assert(s@ =~= ipv4_chars(ip));
    s
}

/// The startup workflow: its phase and the external port it will request.
pub struct StartupWorkflow {
    pub phase: StartupPhase,
    pub port: u16,
}

impl StartupWorkflow {
    /// A workflow about to resolve the local address. With no port flag
    /// supplied, the port-mapping step will request the default external port.
    pub fn new(port: Option<u16>) -> (w: StartupWorkflow)
        ensures
            w.phase == StartupPhase::ResolvingIp,
            w.port == match port {
                Some(p) => p,
                None => DEFAULT_PORT,
            },
    {
        let p = match port {
            Some(p) => p,
            None => DEFAULT_PORT,
        };
        StartupWorkflow { phase: StartupPhase::ResolvingIp, port: p }
    }

    /// The outside action the driver must perform next; `None` once the
    /// workflow has completed or failed.
    pub fn next_action(&self) -> (a: Option<StartupAction>)
        ensures
            match self.phase {
                StartupPhase::ResolvingIp => a == Some(StartupAction::ResolveLocalIp),
                StartupPhase::SearchingGateway { local_ip } => a matches Some(
                    StartupAction::SearchGateway {
                        bind_ip,
                        bind_port,
                        broadcast_ip,
                        broadcast_port,
                        timeout_secs,
                    },
                ) && bind_ip == local_ip && bind_port == 0 && broadcast_ip == (Ipv4 {
                    a: 239,
                    b: 255,
                    c: 255,
                    d: 250,
                }) && broadcast_port == 1900 && timeout_secs == DISCOVERY_TIMEOUT_SECS,
                StartupPhase::AddingPort { local_ip } => a matches Some(
                    StartupAction::AddPort {
                        external_port,
                        local_ip: lip,
                        internal_port,
                        lease_secs,
                        description,
                    },
                ) && external_port == self.port && lip == local_ip && internal_port == self.port
                    && lease_secs == LEASE_SECS && description@
                    == "p2p-rendezvous-server-apt-1003"@,
                StartupPhase::GettingExternalIp { .. } => a == Some(StartupAction::GetExternalIp),
                StartupPhase::Done { .. } => a is None,
                StartupPhase::Failed => a is None,
            },
    {
        match self.phase {
            StartupPhase::ResolvingIp => Some(StartupAction::ResolveLocalIp),
            StartupPhase::SearchingGateway { local_ip } => Some(
                StartupAction::SearchGateway {
                    bind_ip: local_ip,
                    bind_port: 0,
                    broadcast_ip: Ipv4 { a: 239, b: 255, c: 255, d: 250 },
                    broadcast_port: 1900,
                    timeout_secs: DISCOVERY_TIMEOUT_SECS,
                },
            ),
            StartupPhase::AddingPort { local_ip } => Some(
                StartupAction::AddPort {
                    external_port: self.port,
                    local_ip,
                    internal_port: self.port,
                    lease_secs: LEASE_SECS,
                    description: "p2p-rendezvous-server-apt-1003".to_owned(),
                },
            ),
            StartupPhase::GettingExternalIp { .. } => Some(StartupAction::GetExternalIp),
            StartupPhase::Done { .. } => None,
            StartupPhase::Failed => None,
        }
    }

    /// Apply the observed outcome of one outside step: move to the next phase
    /// and return exactly the events to publish, in order.
    pub fn step(&mut self, outcome: StepOutcome) -> (evs: Vec<Event>)
        ensures
            final(self).port == old(self).port,
            final(self).phase == phase_step(old(self).phase, outcome_model(outcome)).0,
            events_model(evs@) == phase_step(old(self).phase, outcome_model(outcome)).1,
            evs@.len() == phase_step(old(self).phase, outcome_model(outcome)).1.len(),
    {
        let phase = self.phase;
        let mut evs: Vec<Event> = Vec::new();
        match (phase, outcome) {
            (StartupPhase::ResolvingIp, StepOutcome::LocalIp(o)) => {
                match o {
                    LocalIpOutcome::V4(ip) => {
                        self.phase = StartupPhase::SearchingGateway { local_ip: ip };
                        let mut h: String = "Found local ip address: ".to_owned();
                        push_ipv4(&mut h, ip);
                        evs.push(Event::Startup(StartupEvent::ProgressHint(h)));
                    },
                    LocalIpOutcome::NotV4 => {
                        self.phase = StartupPhase::Failed;
                        evs.push(Event::StartupError(StartupError::Ipv6NotSupported));
                    },
                    LocalIpOutcome::LookupFailed(m) => {
                        self.phase = StartupPhase::Failed;
                        evs.push(Event::StartupError(StartupError::IpNotFound(m)));
                    },
                }
            },
            (StartupPhase::SearchingGateway { local_ip }, StepOutcome::GatewaySearch(r)) => {
                match r {
                    Ok(()) => {
                        self.phase = StartupPhase::AddingPort { local_ip };
                        evs.push(
                            Event::Startup(
                                StartupEvent::ProgressHint("Gateway found successfully.".to_owned()),
                            ),
                        );
                    },
                    Err(m) => {
                        self.phase = StartupPhase::Failed;
                        evs.push(Event::StartupError(StartupError::SearchFailed(m)));
                    },
                }
            },
            (StartupPhase::AddingPort { local_ip }, StepOutcome::PortMapping(r)) => {
                match r {
                    Ok(()) => {
                        self.phase = StartupPhase::GettingExternalIp { local_ip };
                        evs.push(
                            Event::Startup(
                                StartupEvent::ProgressHint("Port opened successfully.".to_owned()),
                            ),
                        );
                    },
                    Err(m) => {
                        self.phase = StartupPhase::Failed;
                        evs.push(Event::StartupError(StartupError::AddPortFailed(m)));
                    },
                }
            },
            (StartupPhase::GettingExternalIp { local_ip }, StepOutcome::ExternalIp(r)) => {
                match r {
                    Ok(pip) => {
                        self.phase = StartupPhase::Done { local_ip, public_ip: pip };
                        evs.push(
                            Event::Startup(
                                StartupEvent::ProgressHint("External IP found.".to_owned()),
                            ),
                        );
                        evs.push(
                            Event::Startup(StartupEvent::Complete { public_ip: pip, local_ip }),
                        );
                    },
                    Err(m) => {
                        self.phase = StartupPhase::Failed;
                        evs.push(Event::StartupError(StartupError::GetIpFailed(m)));
                    },
                }
            },
            _ => {},
        }
        assert(events_model(evs@) =~= phase_step(old(self).phase, outcome_model(outcome)).1);
        evs
    }
}

/// Law: a failed gateway discovery (for instance, the multicast search timing
/// out) is terminal. It yields exactly one search-failed error event, and a
/// failed workflow never publishes another event, whatever outcome is fed in.
pub proof fn lemma_search_failure_terminal(local_ip: Ipv4, m: Seq<char>)
    ensures
        phase_step(StartupPhase::SearchingGateway { local_ip }, OutcomeModel::GatewayErr(m)).0
            == StartupPhase::Failed,
        phase_step(StartupPhase::SearchingGateway { local_ip }, OutcomeModel::GatewayErr(m)).1
            =~= seq![EventModel::Error(ErrorModel::SearchFailed(m))],
        forall|o: OutcomeModel| #[trigger] phase_step(StartupPhase::Failed, o).0
            == StartupPhase::Failed,
        forall|o: OutcomeModel| (#[trigger] phase_step(StartupPhase::Failed, o).1).len() == 0,
{
}

} // verus!
