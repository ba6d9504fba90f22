use p2p_rendezvous_server::event::{Event, TermEvent};
use p2p_rendezvous_server::input::{KeyCode, KeyEvent};
use p2p_rendezvous_server::logs::Logs;
use p2p_rendezvous_server::session::{State, Status};
use p2p_rendezvous_server::startup::{Ipv4, StartupError, StartupEvent};

fn fresh() -> State {
    State::new(Logs::init(Vec::new()))
}

fn key(code: KeyCode) -> Event {
    Event::Crossterm(TermEvent::Key(KeyEvent { code, ctrl: false }))
}

#[test]
fn key_events_drive_the_editor() {
    let mut s = fresh();
    assert!(!s.apply_event(key(KeyCode::Char('h'))));
    assert!(!s.apply_event(key(KeyCode::Char('i'))));
    assert_eq!(s.input.text().as_str(), "hi");
}

#[test]
fn exit_command_ends_the_loop() {
    let mut s = fresh();
    for c in "exit".chars() {
        assert!(!s.apply_event(key(KeyCode::Char(c))));
    }
    assert!(s.apply_event(key(KeyCode::Enter)));
}

#[test]
fn resize_events_change_nothing() {
    let mut s = fresh();
    assert!(!s.apply_event(Event::Crossterm(TermEvent::Resize(80, 24))));
    assert_eq!(s.status, Status::Starting);
    assert_eq!(s.input.text().as_str(), "");
}

#[test]
fn log_lines_go_to_the_store() {
    let mut s = fresh();
    assert!(!s.apply_event(Event::LogReceived("first".to_owned())));
    assert!(!s.apply_event(Event::LogReceived("second".to_owned())));
    assert_eq!(s.logs.items.len(), 2);
    assert_eq!(s.logs.items[1], "second");
}

#[test]
fn progress_hints_accumulate_while_starting() {
    let mut s = fresh();
    s.apply_event(Event::Startup(StartupEvent::ProgressHint("one".to_owned())));
    s.apply_event(Event::Startup(StartupEvent::ProgressHint("two".to_owned())));
    assert_eq!(s.startup.len(), 2);
    assert_eq!(s.status, Status::Starting);
}

#[test]
fn completion_moves_starting_to_running() {
    let mut s = fresh();
    let local_ip = Ipv4 { a: 10, b: 0, c: 0, d: 2 };
    let public_ip = Ipv4 { a: 1, b: 2, c: 3, d: 4 };
    s.apply_event(Event::Startup(StartupEvent::Complete { public_ip, local_ip }));
    assert_eq!(s.status, Status::Running { local_ip, public_ip });
}

#[test]
fn error_moves_starting_to_failed_and_is_terminal() {
    let mut s = fresh();
    s.apply_event(Event::StartupError(StartupError::SearchFailed("timeout".to_owned())));
    assert_eq!(s.status, Status::StartupFailed(StartupError::SearchFailed("timeout".to_owned())));
    // terminal: a later completion or error does not change the status
    let ip = Ipv4 { a: 9, b: 9, c: 9, d: 9 };
    s.apply_event(Event::Startup(StartupEvent::Complete { public_ip: ip, local_ip: ip }));
    assert_eq!(s.status, Status::StartupFailed(StartupError::SearchFailed("timeout".to_owned())));
    s.apply_event(Event::StartupError(StartupError::Ipv6NotSupported));
    assert_eq!(s.status, Status::StartupFailed(StartupError::SearchFailed("timeout".to_owned())));
}

#[test]
fn session_stays_interactive_after_failure() {
    let mut s = fresh();
    s.apply_event(Event::StartupError(StartupError::Ipv6NotSupported));
    assert!(!s.apply_event(key(KeyCode::Char('x'))));
    assert_eq!(s.input.text().as_str(), "x");
    for c in "quit".chars() {
        s.apply_event(key(KeyCode::Char(c)));
    }
    // the pending "x" makes it "xquit", clear it first
    s.apply_event(Event::Crossterm(TermEvent::Key(KeyEvent {
        code: KeyCode::Char('c'),
        ctrl: true,
    })));
    for c in "quit".chars() {
        s.apply_event(key(KeyCode::Char(c)));
    }
    assert!(s.apply_event(key(KeyCode::Enter)));
}
