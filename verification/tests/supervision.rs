use ollama_bridge::readiness::line_is_ready;
use ollama_bridge::shutdown::Observation;
use ollama_bridge::shutdown::ShutdownReceiver;
use ollama_bridge::shutdown::ShutdownSignal;
use ollama_bridge::supervisor::default_marker;
use ollama_bridge::supervisor::kill_target_name;
use ollama_bridge::supervisor::server_program;
use ollama_bridge::supervisor::server_subcommand;
use ollama_bridge::supervisor::Supervisor;
use ollama_bridge::supervisor::SupervisorAction;
use ollama_bridge::supervisor::SupervisorEvent;

fn marker() -> Vec<u8> {
    default_marker()
}

#[test]
fn default_marker_value() {
    assert_eq!(default_marker(), b"Listening on 127.0.0.1:11434".to_vec());
}

#[test]
fn fixed_names() {
    assert_eq!(server_program(), "ollama_files/bin/ollama");
    assert_eq!(server_subcommand(), "serve");
    assert_eq!(kill_target_name(), "ollama");
}

#[test]
fn ready_line_detected() {
    let line = b"time=12:00 msg=\"Listening on 127.0.0.1:11434 (version 0.1)\"".to_vec();
    assert!(line_is_ready(&line, &marker()));
}

#[test]
fn ready_line_exact_match_only() {
    // case-sensitive, no fuzzy match
    let lower = b"listening on 127.0.0.1:11434".to_vec();
    assert!(!line_is_ready(&lower, &marker()));
    let truncated = b"Listening on 127.0.0.1:1143".to_vec();
    assert!(!line_is_ready(&truncated, &marker()));
    let empty = Vec::new();
    assert!(!line_is_ready(&empty, &marker()));
}

#[test]
fn ready_line_marker_alone() {
    assert!(line_is_ready(&marker(), &marker()));
}

#[test]
fn supervisor_reports_ready_from_either_stream() {
    let mut sup = Supervisor::new(marker());
    let out = SupervisorEvent::StdoutLine(b"Listening on 127.0.0.1:11434".to_vec());
    let err = SupervisorEvent::StderrLine(b"x Listening on 127.0.0.1:11434 y".to_vec());
    let noise = SupervisorEvent::StdoutLine(b"loading model".to_vec());
    assert!(matches!(sup.step(&out), SupervisorAction::ReportReady));
    assert!(matches!(sup.step(&err), SupervisorAction::ReportReady));
    assert!(matches!(sup.step(&noise), SupervisorAction::Ignore));
    assert!(sup.ready_seen);
}

#[test]
fn supervisor_eof_does_not_end_loop() {
    let mut sup = Supervisor::new(marker());
    assert!(matches!(sup.step(&SupervisorEvent::StdoutClosed), SupervisorAction::Ignore));
    assert!(matches!(sup.step(&SupervisorEvent::StderrClosed), SupervisorAction::Ignore));
    assert!(sup.live);
    let line = SupervisorEvent::StderrLine(b"Listening on 127.0.0.1:11434".to_vec());
    assert!(matches!(sup.step(&line), SupervisorAction::ReportReady));
}

#[test]
fn supervisor_cleanup_once_on_shutdown() {
    let mut sup = Supervisor::new(marker());
    assert!(matches!(sup.step(&SupervisorEvent::ShutdownRequested), SupervisorAction::RunCleanup));
    // the other trigger becomes a no-op
    assert!(matches!(sup.step(&SupervisorEvent::ProcessExited), SupervisorAction::Ignore));
    assert!(matches!(sup.step(&SupervisorEvent::ShutdownRequested), SupervisorAction::Ignore));
}

#[test]
fn supervisor_cleanup_once_on_exit() {
    let mut sup = Supervisor::new(marker());
    assert!(matches!(sup.step(&SupervisorEvent::ProcessExited), SupervisorAction::RunCleanup));
    assert!(matches!(sup.step(&SupervisorEvent::ShutdownRequested), SupervisorAction::Ignore));
    let line = SupervisorEvent::StdoutLine(b"Listening on 127.0.0.1:11434".to_vec());
    assert!(matches!(sup.step(&line), SupervisorAction::Ignore));
}

#[test]
fn shutdown_observed_once() {
    let mut signal = ShutdownSignal::new();
    let mut rx = ShutdownReceiver::subscribe(&signal);
    assert!(matches!(rx.observe(&signal), Observation::Pending));
    signal.fire();
    assert!(signal.is_fired());
    assert!(matches!(rx.observe(&signal), Observation::Transition));
    assert!(matches!(rx.observe(&signal), Observation::AlreadyFired));
    assert!(matches!(rx.observe(&signal), Observation::AlreadyFired));
}

#[test]
fn shutdown_redundant_fires_collapse() {
    let mut signal = ShutdownSignal::new();
    let mut rx = ShutdownReceiver::subscribe(&signal);
    signal.fire();
    signal.fire();
    signal.fire();
    assert!(matches!(rx.observe(&signal), Observation::Transition));
    assert!(matches!(rx.observe(&signal), Observation::AlreadyFired));
}

#[test]
fn shutdown_late_subscriber_sees_already_fired() {
    let mut signal = ShutdownSignal::new();
    signal.fire();
    let mut late = ShutdownReceiver::subscribe(&signal);
    assert!(matches!(late.observe(&signal), Observation::AlreadyFired));
}

#[test]
fn shutdown_many_receivers_each_observe_once() {
    let mut signal = ShutdownSignal::new();
    let mut a = ShutdownReceiver::subscribe(&signal);
    let mut b = ShutdownReceiver::subscribe(&signal);
    signal.fire();
    assert!(matches!(a.observe(&signal), Observation::Transition));
    assert!(matches!(b.observe(&signal), Observation::Transition));
    assert!(matches!(a.observe(&signal), Observation::AlreadyFired));
    assert!(matches!(b.observe(&signal), Observation::AlreadyFired));
}
