use sber_whisper::events::{log_needs_rotation, stderr_log_entry, LineAction, StdoutReader};
use sber_whisper::session::RecordingSession;

fn bytes(s: &str) -> Vec<u8> {
    s.as_bytes().to_vec()
}

#[test]
fn final_transcript_goes_to_clipboard_once_and_to_ui_whole() {
    let line = "{\"event\":\"final_transcript\",\"text\":\"hello world\"}";
    let mut reader = StdoutReader::new();
    let out = reader.on_line(&bytes(&format!("{line}\r\n")));
    assert!(!out.lossy);
    match out.action {
        LineAction::Deliver(d) => {
            assert_eq!(d.clipboard, Some("hello world".to_string()));
            assert!(!d.ready);
            let whole: serde_json::Value = serde_json::from_str(line).unwrap();
            assert_eq!(d.payload, whole);
        }
        _ => panic!("expected an event"),
    }
    assert!(reader.is_open());
}

#[test]
fn malformed_line_does_not_stop_reading() {
    let mut reader = StdoutReader::new();
    match reader.on_line(&bytes("not json {\n")).action {
        LineAction::Malformed(t) => assert_eq!(t, "not json {"),
        _ => panic!("expected a malformed line"),
    }
    assert!(reader.is_open());
    match reader.on_line(&bytes("{\"event\":\"ready\"}\n")).action {
        LineAction::Deliver(d) => {
            assert!(d.ready);
            assert_eq!(d.clipboard, None);
        }
        _ => panic!("expected an event"),
    }
    assert!(reader.is_open());
}

#[test]
fn blank_lines_are_skipped() {
    let mut reader = StdoutReader::new();
    assert!(matches!(reader.on_line(&bytes("\r\n")).action, LineAction::Skip));
    assert!(matches!(reader.on_line(&bytes("")).action, LineAction::Skip));
}

#[test]
fn other_events_are_forwarded_without_side_effects() {
    let mut reader = StdoutReader::new();
    let line = "{\"event\":\"partial\",\"text\":\"hel\",\"n\":[1,2]}\n";
    match reader.on_line(&bytes(line)).action {
        LineAction::Deliver(d) => {
            assert_eq!(d.clipboard, None);
            assert!(!d.ready);
            assert_eq!(d.payload["n"][1], 2);
        }
        _ => panic!("expected an event"),
    }
}

#[test]
fn transcript_without_string_text_copies_nothing() {
    let mut reader = StdoutReader::new();
    match reader.on_line(&bytes("{\"event\":\"final_transcript\",\"text\":5}")).action {
        LineAction::Deliver(d) => assert_eq!(d.clipboard, None),
        _ => panic!("expected an event"),
    }
}

#[test]
fn invalid_utf8_is_decoded_lossily() {
    let mut reader = StdoutReader::new();
    let mut raw = bytes("{\"event\":\"final_transcript\",\"text\":\"a");
    raw.push(0xff);
    raw.extend_from_slice(b"b\"}\n");
    let out = reader.on_line(&raw);
    assert!(out.lossy);
    match out.action {
        LineAction::Deliver(d) => assert_eq!(d.clipboard, Some("a\u{fffd}b".to_string())),
        _ => panic!("expected an event"),
    }
}

#[test]
fn end_of_output_announced_once_and_session_closed() {
    let mut reader = StdoutReader::new();
    let mut session = RecordingSession::new();
    session.press();
    let first = reader.on_end(&mut session);
    assert_eq!(
        first,
        Some("ASR sidecar disconnected. It will restart on next action.".to_string())
    );
    assert!(!session.is_active());
    assert!(!reader.is_open());
    session.press();
    assert_eq!(reader.on_end(&mut session), None);
    assert!(!session.is_active());
}

#[test]
fn stderr_lines_are_tagged() {
    assert_eq!(stderr_log_entry("loading model"), Some("sidecar stderr: loading model".to_string()));
    assert_eq!(stderr_log_entry("  \t "), None);
    assert_eq!(stderr_log_entry(""), None);
}

#[test]
fn log_rotates_past_two_mebibytes() {
    assert!(!log_needs_rotation(2 * 1024 * 1024));
    assert!(log_needs_rotation(2 * 1024 * 1024 + 1));
    assert!(!log_needs_rotation(0));
}
