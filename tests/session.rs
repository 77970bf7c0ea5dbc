use cherrychain::message::ClientMessage;
use cherrychain::session::{Action, Event, Session, TICK_STEP_MS};

#[test]
fn new_session_is_open_and_running() {
    let s = Session::new();
    assert!(s.open);
    assert!(!s.paused);
}

#[test]
fn timers_tick_and_broadcast() {
    let mut s = Session::new();
    assert_eq!(s.step(Event::TickDue), Action::Tick { step_ms: TICK_STEP_MS });
    assert_eq!(TICK_STEP_MS, 100);
    assert_eq!(s.step(Event::BroadcastDue), Action::SendSnapshot);
    assert_eq!(s, Session::new());
}

#[test]
fn request_state_sends_a_snapshot() {
    let mut s = Session::new();
    assert_eq!(s.step(Event::Command(ClientMessage::RequestState)), Action::SendSnapshot);
}

#[test]
fn pause_is_recorded_but_ticks_go_on() {
    let mut s = Session::new();
    let a = s.step(Event::Command(ClientMessage::SetPaused { paused: true }));
    assert_eq!(a, Action::Idle);
    assert!(s.paused);
    assert_eq!(s.step(Event::TickDue), Action::Tick { step_ms: 100 });
    s.step(Event::Command(ClientMessage::SetPaused { paused: false }));
    assert!(!s.paused);
}

#[test]
fn send_failure_closes_for_good() {
    let mut s = Session::new();
    assert_eq!(s.step(Event::SendFailed), Action::Close);
    assert!(!s.open);
    assert_eq!(s.step(Event::TickDue), Action::Close);
    assert_eq!(s.step(Event::BroadcastDue), Action::Close);
    assert_eq!(s.step(Event::Command(ClientMessage::RequestState)), Action::Close);
}

#[test]
fn transport_close_closes() {
    let mut s = Session::new();
    assert_eq!(s.step(Event::TransportClosed), Action::Close);
    assert!(!s.open);
    assert_eq!(s.step(Event::Command(ClientMessage::SetPaused { paused: true })), Action::Close);
    assert!(!s.paused);
}
