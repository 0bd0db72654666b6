use sber_whisper::protocol::{encode_command, Command};
use sber_whisper::session::{Edge, RecordingSession};
use sber_whisper::supervisor::{needs_restart, LaunchStep, Launcher, Liveness};
use sber_whisper::platform::Platform;

#[test]
fn duplicate_edges_are_absorbed() {
    let mut s = RecordingSession::new();
    assert!(!s.is_active());
    assert!(matches!(s.press(), Some(Command::StartRecording)));
    assert!(s.press().is_none());
    assert!(s.is_active());
    assert!(matches!(s.release(), Some(Command::StopAndTranscribe)));
    assert!(s.release().is_none());
    assert!(!s.is_active());
}

#[test]
fn edge_sequence_counts() {
    let edges = [Edge::Release, Edge::Press, Edge::Press, Edge::Release, Edge::Press];
    let mut s = RecordingSession::new();
    let mut sent = Vec::new();
    for e in edges {
        if let Some(c) = s.on_edge(e) {
            sent.push(encode_command(&c));
        }
    }
    assert!(s.is_active());
    assert_eq!(
        sent,
        vec![
            "{\"command\":\"start_recording\"}\n",
            "{\"command\":\"stop_and_transcribe\"}\n",
            "{\"command\":\"start_recording\"}\n"
        ]
    );
}

#[test]
fn ui_commands_force_the_flag() {
    let mut s = RecordingSession::new();
    assert!(matches!(s.start(), Command::StartRecording));
    assert!(s.is_active());
    assert!(matches!(s.start(), Command::StartRecording));
    assert!(matches!(s.cancel(), Command::CancelCurrent));
    assert!(!s.is_active());
    assert!(matches!(s.stop(), Command::StopAndTranscribe));
    assert!(!s.is_active());
}

#[test]
fn press_with_no_worker_starts_one_and_records() {
    // the slot is empty, so the worker is launched before the command goes out
    assert!(needs_restart(None));
    let mut launcher = Launcher::new(Platform::Other, false);
    let step = launcher.binary_located(Ok("/app/sber-whisper-sidecar".to_string()));
    match step {
        LaunchStep::Spawn(a) => {
            assert_eq!(a.program, "/app/sber-whisper-sidecar");
            assert!(a.args.is_empty());
        }
        _ => panic!("expected a spawn"),
    }
    let mut s = RecordingSession::new();
    let cmd = s.press().unwrap();
    assert!(s.is_active());
    let mut worker_input = String::new();
    worker_input.push_str(&encode_command(&cmd));
    assert_eq!(worker_input, "{\"command\":\"start_recording\"}\n");
}

#[test]
fn only_a_running_worker_is_kept() {
    assert!(!needs_restart(Some(Liveness::Running)));
    assert!(needs_restart(Some(Liveness::Exited)));
    assert!(needs_restart(Some(Liveness::ProbeFailed)));
}
