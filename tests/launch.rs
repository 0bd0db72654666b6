use sber_whisper::platform::Platform;
use sber_whisper::supervisor::{fallback_allowed, LaunchStep, Launcher};

fn spawned(step: LaunchStep) -> (String, Vec<String>) {
    match step {
        LaunchStep::Spawn(a) => (a.program, a.args),
        _ => panic!("expected a spawn"),
    }
}

fn failed(step: LaunchStep) -> String {
    match step {
        LaunchStep::Fail(m) => m,
        _ => panic!("expected a failure"),
    }
}

#[test]
fn no_fallback_fails_with_every_error() {
    let mut l = Launcher::new(Platform::Other, false);
    let step = l.binary_located(Err("bundled sidecar binary 'x' not found (checked 7 paths)".to_string()));
    assert_eq!(
        failed(step),
        "failed to start bundled ASR sidecar; reinstall app. details: bundled sidecar binary 'x' not found (checked 7 paths)"
    );
}

#[test]
fn spawn_failure_without_fallback() {
    let mut l = Launcher::new(Platform::Other, false);
    let (program, _) = spawned(l.binary_located(Ok("/b".to_string())));
    assert_eq!(program, "/b");
    assert_eq!(
        failed(l.spawn_failed("e1".to_string())),
        "failed to start bundled ASR sidecar; reinstall app. details: e1"
    );
}

#[test]
fn fallback_tries_each_interpreter() {
    let mut l = Launcher::new(Platform::Windows, true);
    assert!(matches!(l.binary_located(Err("missing".to_string())), LaunchStep::LocateScript));
    let (p, a) = spawned(l.script_located(Ok("/s.py".to_string())));
    assert_eq!((p.as_str(), a), ("python", vec!["/s.py".to_string()]));
    let (p, a) = spawned(l.spawn_failed("e1".to_string()));
    assert_eq!((p.as_str(), a), ("python3", vec!["/s.py".to_string()]));
    let (p, a) = spawned(l.spawn_failed("e2".to_string()));
    assert_eq!((p.as_str(), a), ("py", vec!["-3".to_string(), "/s.py".to_string()]));
    assert_eq!(
        failed(l.spawn_failed("e3".to_string())),
        "failed to start sidecar process (e3); details: missing | e1 | e2 | e3"
    );
}

#[test]
fn fallback_on_linux_has_two_interpreters() {
    let mut l = Launcher::new(Platform::Other, true);
    spawned(l.binary_located(Ok("/b".to_string())));
    assert!(matches!(l.spawn_failed("e0".to_string()), LaunchStep::LocateScript));
    spawned(l.script_located(Ok("/s.py".to_string())));
    spawned(l.spawn_failed("e1".to_string()));
    assert_eq!(
        failed(l.spawn_failed("e2".to_string())),
        "failed to start sidecar process (e2); details: e0 | e1 | e2"
    );
}

#[test]
fn missing_script_fails_with_its_error() {
    let mut l = Launcher::new(Platform::Other, true);
    l.binary_located(Err("a".to_string()));
    assert_eq!(failed(l.script_located(Err("no script".to_string()))), "no script");
}

#[test]
fn fallback_flag() {
    assert!(fallback_allowed(true, None));
    assert!(!fallback_allowed(false, None));
    assert!(fallback_allowed(false, Some(" 1 ")));
    assert!(fallback_allowed(false, Some("TRUE")));
    assert!(fallback_allowed(false, Some("\ttrue\n")));
    assert!(!fallback_allowed(false, Some("yes")));
    assert!(!fallback_allowed(false, Some("0")));
}
