use sber_whisper::discovery::{
    find_python_script, find_sidecar_binary, first_existing, script_candidates, sidecar_binary_name,
    sidecar_candidates, Anchors,
};
use sber_whisper::platform::Platform;

fn app_anchor() -> Anchors {
    Anchors { cwd: Some("/app".to_string()), exe_dirs: vec![], resource_dir: None }
}

#[test]
fn nothing_found_reports_the_count() {
    let c = sidecar_candidates(Platform::Other, &app_anchor());
    assert_eq!(c.len(), 7);
    let exists = vec![false; c.len()];
    assert_eq!(
        find_sidecar_binary(Platform::Other, &c, &exists),
        Err("bundled sidecar binary 'sber-whisper-sidecar' not found (checked 7 paths)".to_string())
    );
    let c = script_candidates(Platform::Other, &app_anchor());
    assert_eq!(c.len(), 9);
    assert_eq!(
        find_python_script(&c, &vec![false; c.len()]),
        Err("python/asr_service.py not found (checked 9 paths)".to_string())
    );
}

#[test]
fn candidate_order() {
    let c = sidecar_candidates(Platform::Other, &app_anchor());
    assert_eq!(
        c,
        vec![
            "python/dist/sber-whisper-sidecar/sber-whisper-sidecar",
            "_up_/python/dist/sber-whisper-sidecar/sber-whisper-sidecar",
            "../python/dist/sber-whisper-sidecar/sber-whisper-sidecar",
            "../_up_/python/dist/sber-whisper-sidecar/sber-whisper-sidecar",
            "../../python/dist/sber-whisper-sidecar/sber-whisper-sidecar",
            "/app/python/dist/sber-whisper-sidecar/sber-whisper-sidecar",
            "/app/_up_/python/dist/sber-whisper-sidecar/sber-whisper-sidecar",
        ]
    );
}

#[test]
fn script_candidates_cover_every_anchor() {
    let a = Anchors {
        cwd: Some("/w".to_string()),
        exe_dirs: vec!["/opt/app/bin".to_string(), "/opt/app".to_string(), "/".to_string()],
        resource_dir: Some("/res/".to_string()),
    };
    let c = script_candidates(Platform::Other, &a);
    assert_eq!(c.len(), 5 + 4 + 12 + 3);
    assert_eq!(c[5], "/w/python/asr_service.py");
    assert_eq!(c[9], "/opt/app/bin/python/asr_service.py");
    assert_eq!(c[17], "/python/asr_service.py");
    assert_eq!(c[23], "/res/asr_service.py");
}

#[test]
fn repeated_anchors_are_dropped() {
    let a = Anchors {
        cwd: Some("/app".to_string()),
        exe_dirs: vec!["/app".to_string()],
        resource_dir: Some("/app".to_string()),
    };
    let c = sidecar_candidates(Platform::Other, &a);
    // cwd adds 2, the resource dir 3 of which 2 repeat cwd's, the exe dir 3 that all repeat
    assert_eq!(c.len(), 5 + 2 + 1);
    assert_eq!(c[7], "/app/sber-whisper-sidecar/sber-whisper-sidecar");
}

#[test]
fn windows_paths_and_binary() {
    assert_eq!(sidecar_binary_name(Platform::Windows), "sber-whisper-sidecar.exe");
    assert_eq!(sidecar_binary_name(Platform::MacOs), "sber-whisper-sidecar");
    let a = Anchors { cwd: Some("C:\\app".to_string()), exe_dirs: vec![], resource_dir: None };
    let c = sidecar_candidates(Platform::Windows, &a);
    assert_eq!(c[0], "python\\dist\\sber-whisper-sidecar\\sber-whisper-sidecar.exe");
    assert_eq!(c[5], "C:\\app\\python\\dist\\sber-whisper-sidecar\\sber-whisper-sidecar.exe");
}

#[test]
fn first_existing_candidate_wins() {
    let c = script_candidates(Platform::Other, &app_anchor());
    let mut exists = vec![false; c.len()];
    exists[6] = true;
    exists[8] = true;
    assert_eq!(find_python_script(&c, &exists), Ok("/app/_up_/python/asr_service.py".to_string()));
    assert_eq!(first_existing(3, &vec![false, true]), Some(1));
    assert_eq!(first_existing(3, &vec![false]), None);
}
