//! The event vocabulary of the session bus.
//!
//! Three independent producers — the terminal reader, the startup workflow and
//! the logging tee — publish onto one bounded queue; the session controller
//! consumes the merged stream. The queue itself lives with the runtime wiring;
//! here is the vocabulary of events and its mathematical model.
use vstd::prelude::*;
use crate::input::KeyEvent;
use crate::startup::{StartupError, StartupEvent};

verus! {

/// A terminal event, as plain values.
#[derive(Clone, Copy, Debug, PartialEq)]
pub enum TermEvent {
    Key(KeyEvent),
    Resize(u16, u16),
    Other,
}

/// One event on the session bus, produced by exactly one of the three
/// producers and consumed exactly once by the session controller.
#[derive(Debug, PartialEq)]
pub enum Event {
    Crossterm(TermEvent),
    LogReceived(String),
    Startup(StartupEvent),
    StartupError(StartupError),
}

/// Mathematical model of a startup error: the carried messages as character
/// sequences.
pub ghost enum ErrorModel {
    Ipv6NotSupported,
    IpNotFound(Seq<char>),
    SearchFailed(Seq<char>),
    AddPortFailed(Seq<char>),
    GetIpFailed(Seq<char>),
}

/// Mathematical model of a bus event.
pub ghost enum EventModel {
    Terminal(TermEvent),
    LogLine(Seq<char>),
    Progress(Seq<char>),
    Complete { public_ip: crate::startup::Ipv4, local_ip: crate::startup::Ipv4 },
    Error(ErrorModel),
}

pub open spec fn error_model(e: StartupError) -> ErrorModel {
    match e {
        StartupError::Ipv6NotSupported => ErrorModel::Ipv6NotSupported,
        StartupError::IpNotFound(m) => ErrorModel::IpNotFound(m@),
        StartupError::SearchFailed(m) => ErrorModel::SearchFailed(m@),
        StartupError::AddPortFailed(m) => ErrorModel::AddPortFailed(m@),
        StartupError::GetIpFailed(m) => ErrorModel::GetIpFailed(m@),
    }
}

pub open spec fn event_model(e: Event) -> EventModel {
    match e {
        Event::Crossterm(t) => EventModel::Terminal(t),
        Event::LogReceived(s) => EventModel::LogLine(s@),
        Event::Startup(StartupEvent::ProgressHint(h)) => EventModel::Progress(h@),
        Event::Startup(
            StartupEvent::Complete { public_ip, local_ip },
        ) => EventModel::Complete { public_ip, local_ip },
        Event::StartupError(e) => EventModel::Error(error_model(e)),
    }
}

/// The model of a whole emitted event sequence.
pub open spec fn events_model(s: Seq<Event>) -> Seq<EventModel> {
    s.map_values(|e: Event| event_model(e))
}

} // verus!
