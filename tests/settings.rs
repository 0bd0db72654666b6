use sber_whisper::platform::Platform;
use sber_whisper::protocol::{encode_command, Command};
use sber_whisper::settings::{
    autostart_already_absent, config_command, current_hotkey, parse_shortcut, resolve_loaded, validate_hotkey,
    validate_settings, AppSettings, LegacySettings,
};

fn legacy_empty() -> LegacySettings {
    LegacySettings {
        hotkey: None,
        hotkey_windows: None,
        hotkey_macos: None,
        popup_timeout_sec: None,
        auto_launch: None,
        language_mode: None,
        theme: None,
    }
}

#[test]
fn settings_default_timeout_is_ten() {
    let settings = AppSettings::default();
    assert_eq!(settings.popup_timeout_sec, 10);
}

#[test]
fn parses_valid_hotkey() {
    let parsed = parse_shortcut("Ctrl+G");
    assert!(parsed.is_ok());
}

#[test]
fn rejects_invalid_hotkey() {
    let parsed = parse_shortcut("not-a-hotkey");
    assert!(parsed.is_err());
}

#[test]
fn invalid_hotkey_message_names_the_hotkey() {
    let err = parse_shortcut("not-a-hotkey").err().unwrap();
    assert!(err.starts_with("invalid hotkey 'not-a-hotkey': "));
    assert!(err.len() > "invalid hotkey 'not-a-hotkey': ".len());
}

#[test]
fn defaults_per_platform() {
    let mac = AppSettings::default_for(Platform::MacOs);
    assert_eq!(mac.hotkey, "Cmd+G");
    let win = AppSettings::default_for(Platform::Windows);
    assert_eq!(win.hotkey, "Ctrl+G");
    assert_eq!(win.popup_timeout_sec, 10);
    assert!(!win.auto_launch);
    assert_eq!(win.language_mode, "ru");
    assert_eq!(win.theme, "siri_aurora");
}

#[test]
fn current_hotkey_is_trimmed() {
    let mut s = AppSettings::default();
    s.hotkey = "  Ctrl+Shift+K \t".to_string();
    assert_eq!(current_hotkey(&s), "Ctrl+Shift+K");
}

#[test]
fn blank_hotkey_is_rejected() {
    let mut s = AppSettings::default();
    s.hotkey = "   ".to_string();
    assert_eq!(validate_hotkey(&s), Err("hotkey cannot be empty".to_string()));
}

#[test]
fn padded_hotkey_is_accepted() {
    let mut s = AppSettings::default();
    s.hotkey = " Alt+K ".to_string();
    assert_eq!(validate_hotkey(&s), Ok(()));
}

#[test]
fn timeout_bounds() {
    let msg = Err("popup timeout must be between 1 and 120 seconds".to_string());
    let mut s = AppSettings::default();
    s.popup_timeout_sec = 0;
    assert_eq!(validate_settings(&s), msg);
    s.popup_timeout_sec = 121;
    assert_eq!(validate_settings(&s), msg);
    s.popup_timeout_sec = 1;
    assert_eq!(validate_settings(&s), Ok(()));
    s.popup_timeout_sec = 120;
    assert_eq!(validate_settings(&s), Ok(()));
}

#[test]
fn timeout_checked_before_hotkey() {
    let mut s = AppSettings::default();
    s.popup_timeout_sec = 0;
    s.hotkey = String::new();
    assert_eq!(
        validate_settings(&s),
        Err("popup timeout must be between 1 and 120 seconds".to_string())
    );
}

#[test]
fn legacy_hotkey_order() {
    let mut l = legacy_empty();
    l.hotkey_windows = Some("Alt+W".to_string());
    l.hotkey_macos = Some("Cmd+M".to_string());
    let s = AppSettings::from_legacy(l, Platform::Windows);
    assert_eq!(s.hotkey, "Alt+W");

    let mut l = legacy_empty();
    l.hotkey_macos = Some("Cmd+M".to_string());
    l.popup_timeout_sec = Some(30);
    l.theme = Some("dark".to_string());
    let s = AppSettings::from_legacy(l, Platform::Other);
    assert_eq!(s.hotkey, "Cmd+M");
    assert_eq!(s.popup_timeout_sec, 30);
    assert_eq!(s.theme, "dark");
    assert_eq!(s.language_mode, "ru");
}

#[test]
fn legacy_without_fields_gives_defaults() {
    let s = AppSettings::from_legacy(legacy_empty(), Platform::MacOs);
    assert_eq!(s.hotkey, "Cmd+G");
    assert_eq!(s.popup_timeout_sec, 10);
    assert!(!s.auto_launch);
}

#[test]
fn loading_prefers_current_layout() {
    let mut c = AppSettings::default();
    c.theme = "x".to_string();
    let mut l = legacy_empty();
    l.theme = Some("y".to_string());
    assert_eq!(resolve_loaded(Some(c), Some(l), Platform::Other).theme, "x");
    let mut l = legacy_empty();
    l.theme = Some("y".to_string());
    assert_eq!(resolve_loaded(None, Some(l), Platform::Other).theme, "y");
    assert_eq!(resolve_loaded(None, None, Platform::MacOs).hotkey, "Cmd+G");
}

#[test]
fn config_command_line() {
    let mut s = AppSettings::default();
    s.language_mode = "en".to_string();
    s.popup_timeout_sec = 15;
    let c = config_command(&s);
    assert!(matches!(c, Command::SetConfig { .. }));
    assert_eq!(
        encode_command(&c),
        "{\"command\":\"set_config\",\"config\":{\"language_mode\":\"en\",\"popup_timeout_sec\":15}}\n"
    );
}

#[test]
fn autostart_absence_is_recognised() {
    assert!(autostart_already_absent("No such file (os error 2)"));
    assert!(!autostart_already_absent("permission denied (os error 13)"));
}
