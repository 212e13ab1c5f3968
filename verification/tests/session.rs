use uci_relay::logsink::{record_bytes, LogSink};
use uci_relay::relay::{RelayOutcome, RelaySession};
use uci_relay::supervisor::ServerSupervisor;
use uci_relay::ShutdownSignal;

#[test]
fn shutdown_signal_starts_unset_and_sets_idempotently() {
    let mut s = ShutdownSignal::new();
    assert!(!s.is_set());
    s.set();
    assert!(s.is_set());
    s.set();
    assert!(s.is_set());
}

#[test]
fn quit_line_shuts_both_pumps_within_one_poll() {
    let mut s = RelaySession::new(false);
    assert!(!s.shutdown_requested());
    assert!(!s.outbound_finished());
    assert!(!s.inbound_finished());

    let unit = uci_relay::text::terminal_unit("quit");
    assert!(unit.quit);
    s.outbound_unit(&unit.data, unit.quit);
    assert!(s.outbound_finished());
    assert!(s.shutdown_requested());

    // The inbound pump stops at its very next poll boundary.
    let stop = s.inbound_poll();
    assert!(stop);
    assert!(s.inbound_finished());

    let outcome = s.close();
    assert!(matches!(outcome, RelayOutcome::Ended));
    assert!(s.is_closed());
}

#[test]
fn ordinary_traffic_keeps_both_pumps_running() {
    let mut s = RelaySession::new(true);
    let unit = uci_relay::text::terminal_unit("uci");
    assert!(!unit.quit);
    s.outbound_unit(&unit.data, unit.quit);
    assert!(!s.outbound_finished());
    assert!(!s.shutdown_requested());

    s.inbound_chunk(&b"id name engine\n".to_vec());
    assert!(!s.inbound_finished());

    // Polls without a shutdown request keep the inbound pump alive.
    assert!(!s.inbound_poll());
    assert!(!s.inbound_finished());
}

#[test]
fn peer_close_ends_inbound_without_interrupting_outbound() {
    let mut s = RelaySession::new(false);
    s.inbound_end();
    assert!(s.inbound_finished());
    assert!(!s.outbound_finished());

    // The outbound pump still forwards until its own termination condition.
    let unit = uci_relay::text::terminal_unit("isready");
    s.outbound_unit(&unit.data, unit.quit);
    assert!(!s.outbound_finished());
    s.outbound_end();
    assert!(s.outbound_finished());

    s.close();
    assert!(s.is_closed());
}

#[test]
fn log_records_are_tagged_with_direction_markers() {
    let out = record_bytes(false, &b"position startpos\n".to_vec());
    assert_eq!(out, b">> position startpos\n".to_vec());
    let inc = record_bytes(true, &b"bestmove e2e4\n".to_vec());
    assert_eq!(inc, b"<< bestmove e2e4\n".to_vec());
}

#[test]
fn record_bytes_keeps_empty_and_binary_payloads_whole() {
    assert_eq!(record_bytes(false, &Vec::new()), b">> ".to_vec());
    let payload = vec![0u8, 255u8, 10u8, 62u8];
    let mut expected = b"<< ".to_vec();
    expected.extend_from_slice(&payload);
    assert_eq!(record_bytes(true, &payload), expected);
}

#[test]
fn log_sink_reports_whether_it_is_enabled() {
    let enabled = LogSink::new(true);
    assert!(enabled.is_enabled());
    let disabled = LogSink::new(false);
    assert!(!disabled.is_enabled());

    let mut s = RelaySession::new(false);
    assert!(!s.log_enabled());
    s.inbound_chunk(&b"data".to_vec());
    assert!(!s.log_enabled());
}

#[test]
fn each_server_session_gets_a_fresh_child() {
    let mut sup = ServerSupervisor::new();
    assert_eq!(sup.live_child(), None);

    let first = sup.child_spawned();
    assert_eq!(sup.live_child(), Some(first));

    // The first session runs to completion and its child is reaped.
    let mut session = RelaySession::new(false);
    session.inbound_end();
    session.outbound_end();
    sup.child_reaped(&session);
    assert_eq!(sup.live_child(), None);

    // Only now can a second session begin, with a distinct child.
    let second = sup.child_spawned();
    assert_ne!(first, second);
    assert_eq!(sup.live_child(), Some(second));
}
