//! The session controller: the single-threaded consumer of the event bus.
//!
//! It owns the whole session state and applies each received event in turn:
//! terminal input is delegated to the input editor, received log lines to the
//! log store, and startup progress drives the `Starting -> Running | Failed`
//! status, whose two outcomes are terminal with respect to startup.
use vstd::prelude::*;
use crate::event::{Event, TermEvent};
use crate::input::{editor_inv, key_step, Command, Input};
use crate::logs::{updated, Logs};
use crate::startup::{Ipv4, StartupError, StartupEvent};

verus! {

/// Startup status of the session. `StartupFailed` and `Running` are terminal:
/// once reached, later startup events leave the status unchanged (the
/// interactive loop keeps running either way).
#[derive(Debug, PartialEq)]
pub enum Status {
    Starting,
    StartupFailed(StartupError),
    Running { local_ip: Ipv4, public_ip: Ipv4 },
}

/// Everything the session controller owns.
pub struct State {
    /// The input editor.
    pub input: Input,
    /// Text shown in the output pane, if any.
    pub output: Option<String>,
    /// Progress hints accumulated while starting, in arrival order.
    pub startup: Vec<StartupEvent>,
    /// Startup status.
    pub status: Status,
    /// The log store.
    pub logs: Logs,
}

impl State {
    /// A fresh session around an initialized log store.
    pub fn new(logs: Logs) -> (s: State)
        ensures
            editor_inv(s.input@),
            s.input@.text == Seq::<char>::empty(),
            s.input@.history == Seq::<Seq<char>>::empty(),
            s.output is None,
            s.startup@ == Seq::<StartupEvent>::empty(),
            s.status == Status::Starting,
            s.logs == logs,
    {
        State {
            input: Default::default(),
            output: None,
            startup: Vec::new(),
            status: Status::Starting,
            logs,
        }
    }

    /// Apply one event from the bus. Returns whether the session loop must
    /// end: exactly when the editor yielded the exit command.
    pub fn apply_event(&mut self, ev: Event) -> (exit: bool)
        requires
            editor_inv(old(self).input@),
        ensures
            editor_inv(final(self).input@),
            match ev {
                Event::Crossterm(TermEvent::Key(k)) => {
                    &&& final(self).input@ == key_step(old(self).input@, k).0
                    &&& exit == (key_step(old(self).input@, k).1 == Some(Command::Exit))
                    &&& final(self).output == old(self).output
                    &&& final(self).startup == old(self).startup
                    &&& final(self).status == old(self).status
                    &&& final(self).logs == old(self).logs
                },
                Event::Crossterm(_) => *final(self) == *old(self) && !exit,
                Event::LogReceived(line) => {
                    &&& final(self).logs.items@ == updated(old(self).logs.items@, line)
                    &&& final(self).logs.init_error == old(self).logs.init_error
                    &&& final(self).input == old(self).input
                    &&& final(self).output == old(self).output
                    &&& final(self).startup == old(self).startup
                    &&& final(self).status == old(self).status
                    &&& !exit
                },
                Event::Startup(se) => {
                    &&& final(self).input == old(self).input
                    &&& final(self).output == old(self).output
                    &&& final(self).logs == old(self).logs
                    &&& !exit
                    &&& match (old(self).status, se) {
                        (Status::Starting, StartupEvent::ProgressHint(_)) => {
                            &&& final(self).startup@ == old(self).startup@.push(se)
                            &&& final(self).status == Status::Starting
                        },
                        (Status::Starting, StartupEvent::Complete { public_ip, local_ip }) => {
                            &&& final(self).startup == old(self).startup
                            &&& final(self).status == (Status::Running { local_ip, public_ip })
                        },
                        _ => {
                            &&& final(self).startup == old(self).startup
                            &&& final(self).status == old(self).status
                        },
                    }
                },
                Event::StartupError(e) => {
                    &&& final(self).input == old(self).input
                    &&& final(self).output == old(self).output
                    &&& final(self).startup == old(self).startup
                    &&& final(self).logs == old(self).logs
                    &&& !exit
                    &&& final(self).status == match old(self).status {
                        Status::Starting => Status::StartupFailed(e),
                        _ => old(self).status,
                    }
                },
            },
    {
        match ev {
            Event::Crossterm(t) => match t {
                TermEvent::Key(k) => match self.input.on_key_event(k) {
                    Some(Command::Exit) => true,
                    None => false,
                },
                _ => false,
            },
            Event::LogReceived(line) => {
                self.logs.update(line);
                false
            },
            Event::Startup(se) => {
                let starting = matches!(self.status, Status::Starting);
                if starting {
                    match se {
                        StartupEvent::ProgressHint(_) => {
                            self.startup.push(se);
                        },
                        StartupEvent::Complete { public_ip, local_ip } => {
                            self.status = Status::Running { local_ip, public_ip };
                        },
                    }
                }
                false
            },
            Event::StartupError(e) => {
                let starting = matches!(self.status, Status::Starting);
                if starting {
                    self.status = Status::StartupFailed(e);
                }
                false
            },
        }
    }
}

} // verus!
