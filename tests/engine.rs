use host_telemetry::connection::{Action, Event, Handler, Phase};
use host_telemetry::startup::{
    after_accept, AfterAccept, Startup, StartupAction, StartupEvent, StartupPhase, WORKER_COUNT,
};

fn feed(h: &mut Handler, events: &[Event]) -> Vec<Action> {
    events.iter().map(|e| h.step(*e)).collect()
}

#[test]
fn fresh_connection_reads_first() {
    let h = Handler::new(1024);
    assert_eq!(h.first_action(), Action::Read(1024));
    assert_eq!(h.phase, Phase::AwaitingRequest);
    assert!(!h.is_closed());
}

#[test]
fn two_requests_get_two_responses_in_order() {
    let mut h = Handler::new(1024);
    let one = [Event::Received(16), Event::Decoded, Event::Queried, Event::Encoded, Event::Written];
    let two = [Event::Received(20), Event::Decoded, Event::Queried, Event::Encoded, Event::Written];
    let mut actions = feed(&mut h, &one);
    actions.extend(feed(&mut h, &two));
    assert_eq!(
        actions,
        vec![
            Action::Decode(16),
            Action::Query,
            Action::Encode,
            Action::Write,
            Action::Read(1024),
            Action::Decode(20),
            Action::Query,
            Action::Encode,
            Action::Write,
            Action::Read(1024),
        ]
    );
    assert_eq!(actions.iter().filter(|a| **a == Action::Write).count(), 2);
    assert_eq!(h.phase, Phase::AwaitingRequest);
}

#[test]
fn malformed_request_closes_without_response() {
    let mut h = Handler::new(1024);
    let actions = feed(&mut h, &[Event::Received(5), Event::Malformed, Event::Received(3), Event::Written]);
    assert_eq!(actions, vec![Action::Decode(5), Action::Close, Action::Close, Action::Close]);
    assert!(h.is_closed());
    assert!(!actions.contains(&Action::Write));
}

#[test]
fn peer_close_ends_connection() {
    let mut h = Handler::new(2048);
    assert_eq!(h.step(Event::Received(0)), Action::Close);
    assert_eq!(h.phase, Phase::Closed);
}

#[test]
fn read_or_write_failure_ends_connection() {
    let mut h = Handler::new(2048);
    assert_eq!(h.step(Event::ReadFailed), Action::Close);
    assert!(h.is_closed());
    let mut h = Handler::new(2048);
    feed(&mut h, &[Event::Received(7), Event::Decoded, Event::Queried, Event::Encoded]);
    assert_eq!(h.step(Event::WriteFailed), Action::Close);
    assert!(h.is_closed());
}

#[test]
fn missing_facts_end_connection() {
    let mut h = Handler::new(1024);
    feed(&mut h, &[Event::Received(7), Event::Decoded]);
    assert_eq!(h.step(Event::QueryFailed), Action::Close);
    assert!(h.is_closed());
}

#[test]
fn read_beyond_buffer_ends_connection() {
    let mut h = Handler::new(1024);
    assert_eq!(h.step(Event::Received(1025)), Action::Close);
    let mut h = Handler::new(1024);
    assert_eq!(h.step(Event::Received(1024)), Action::Decode(1024));
}

#[test]
fn out_of_turn_event_ends_connection() {
    let mut h = Handler::new(1024);
    assert_eq!(h.step(Event::Written), Action::Close);
    assert!(h.is_closed());
}

#[test]
fn second_instance_exits_without_binding() {
    let mut s = Startup::new(8080);
    assert_eq!(s.first_action(), StartupAction::Probe(8080));
    assert_eq!(s.step(StartupEvent::ProbeConnected), StartupAction::Exit(1));
    assert_eq!(s.phase, StartupPhase::Exited);
    assert_eq!(s.step(StartupEvent::ProbeRefused), StartupAction::Exit(1));
    assert_eq!(s.step(StartupEvent::Bound), StartupAction::Exit(1));
}

#[test]
fn sole_instance_binds_and_serves() {
    let mut s = Startup::new(8081);
    assert_eq!(s.step(StartupEvent::ProbeRefused), StartupAction::Bind(8081));
    assert_eq!(s.step(StartupEvent::Bound), StartupAction::StartWorkers(5));
    assert_eq!(WORKER_COUNT, 5);
    assert_eq!(s.phase, StartupPhase::Serving);
    assert_eq!(s.step(StartupEvent::ProbeConnected), StartupAction::Wait);
}

#[test]
fn bind_failure_exits() {
    let mut s = Startup::new(8080);
    s.step(StartupEvent::ProbeRefused);
    assert_eq!(s.step(StartupEvent::BindFailed), StartupAction::Exit(1));
    assert_eq!(s.phase, StartupPhase::Exited);
}

#[test]
fn accept_outcomes() {
    assert_eq!(after_accept(true), AfterAccept::SpawnHandler);
    assert_eq!(after_accept(false), AfterAccept::LogAndRetry);
}

#[test]
fn encoding_failure_ends_connection() {
    let mut h = Handler::new(1024);
    feed(&mut h, &[Event::Received(9), Event::Decoded, Event::Queried]);
    assert_eq!(h.step(Event::EncodeFailed), Action::Close);
    assert!(h.is_closed());
}
