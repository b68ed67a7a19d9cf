use sidecar_supervisor::listener::{contains_bytes, diagnose, signals_ready, Diagnostic, OutputEvent};

#[test]
fn ready_marker_detected_inside_line() {
    assert!(signals_ready(b"[info] OPENPROFIA_SERVER_READY on :3000"));
    assert!(signals_ready(b"OPENPROFIA_SERVER_READY"));
}

#[test]
fn ready_marker_absent_is_not_ready() {
    assert!(!signals_ready(b""));
    assert!(!signals_ready(b"listening on :3000"));
    assert!(!signals_ready(b"OPENPROFIA_SERVER_READ"));
    assert!(!signals_ready(b"openprofia_server_ready"));
}

#[test]
fn ready_marker_next_to_invalid_utf8() {
    let mut line = vec![0xff, 0xfe];
    line.extend_from_slice(b"OPENPROFIA_SERVER_READY");
    line.push(0x80);
    assert!(signals_ready(&line));
}

#[test]
fn contains_bytes_edges() {
    assert!(contains_bytes(b"", b""));
    assert!(contains_bytes(b"abc", b""));
    assert!(contains_bytes(b"abc", b"abc"));
    assert!(contains_bytes(b"xxabc", b"abc"));
    assert!(contains_bytes(b"abcxx", b"abc"));
    assert!(!contains_bytes(b"ab", b"abc"));
    assert!(!contains_bytes(b"abxc", b"abc"));
    assert!(contains_bytes(b"aab", b"ab"));
}

#[test]
fn diagnose_each_event() {
    assert_eq!(
        diagnose(&OutputEvent::Stdout(b"OPENPROFIA_SERVER_READY".to_vec())),
        Diagnostic::Output { ready: true }
    );
    assert_eq!(
        diagnose(&OutputEvent::Stdout(b"booting".to_vec())),
        Diagnostic::Output { ready: false }
    );
    assert_eq!(
        diagnose(&OutputEvent::Stderr(b"OPENPROFIA_SERVER_READY".to_vec())),
        Diagnostic::ErrorOutput
    );
    assert_eq!(diagnose(&OutputEvent::Error("broken pipe".to_string())), Diagnostic::ChannelError);
    assert_eq!(
        diagnose(&OutputEvent::Terminated { code: Some(1), signal: None }),
        Diagnostic::Terminated { code: Some(1), signal: None }
    );
    assert_eq!(
        diagnose(&OutputEvent::Terminated { code: None, signal: Some(15) }),
        Diagnostic::Terminated { code: None, signal: Some(15) }
    );
    assert_eq!(diagnose(&OutputEvent::Other), Diagnostic::Silent);
}
