//! User settings: their defaults, the reading of an older stored layout, the checks a
//! saved value must pass, and the configuration command they give the worker.

use vstd::prelude::*;
use crate::platform::Platform;
use crate::protocol::Command;
use crate::text::{contains, occurs_in, trim, trim_ws};
use global_hotkey::hotkey::HotKey;

verus! {

#[verifier::external_type_specification]
#[verifier::external_body]
pub struct ExHotKey(HotKey);

/// `None` where `s` reads as a hotkey, else the text of the parser's error.
pub uninterp spec fn hotkey_parse_error(s: Seq<char>) -> Option<Seq<char>>;

/// Relies on global_hotkey's `FromStr for HotKey`: whether `s` reads as a hotkey, and
/// the `Display` text of its error where it does not.
#[verifier::external_body]
fn parse_hotkey(s: &str) -> (r: Result<HotKey, String>)
    ensures
        r.is_ok() == (hotkey_parse_error(s@) is None),
        r matches Err(m) ==> hotkey_parse_error(s@) == Some(m@),
{
    s.parse::<HotKey>().map_err(|e| e.to_string())
}

/// The application's settings.
pub struct AppSettings {
    pub hotkey: String,
    pub popup_timeout_sec: u64,
    pub auto_launch: bool,
    pub language_mode: String,
    pub theme: String,
}

/// Settings as an older version stored them; each field may be missing.
pub struct LegacySettings {
    pub hotkey: Option<String>,
    pub hotkey_windows: Option<String>,
    pub hotkey_macos: Option<String>,
    pub popup_timeout_sec: Option<u64>,
    pub auto_launch: Option<bool>,
    pub language_mode: Option<String>,
    pub theme: Option<String>,
}

pub open spec fn default_hotkey(p: Platform) -> Seq<char> {
    if p == Platform::MacOs {
        "Cmd+G"@
    } else {
        "Ctrl+G"@
    }
}

/// Whether `s` holds the default settings of platform `p`.
pub open spec fn is_default_for(s: AppSettings, p: Platform) -> bool {
    &&& s.hotkey@ == default_hotkey(p)
    &&& s.popup_timeout_sec == 10
    &&& !s.auto_launch
    &&& s.language_mode@ == "ru"@
    &&& s.theme@ == "siri_aurora"@
}

pub open spec fn or_else(o: Option<String>, d: Seq<char>) -> Seq<char> {
    match o {
        Some(v) => v@,
        None => d,
    }
}

pub open spec fn first_of(a: Option<String>, b: Option<String>, c: Option<String>) -> Option<String> {
    if a is Some {
        a
    } else if b is Some {
        b
    } else {
        c
    }
}

/// Whether `s` holds `legacy` over the defaults of platform `p`: each field that the
/// older layout has replaces the default, and its hotkey is the first of the generic,
/// the Windows and the macOS one that is there.
pub open spec fn merges_legacy(s: AppSettings, legacy: LegacySettings, p: Platform) -> bool {
    &&& s.hotkey@ == or_else(
        first_of(legacy.hotkey, legacy.hotkey_windows, legacy.hotkey_macos),
        default_hotkey(p),
    )
    &&& s.popup_timeout_sec == match legacy.popup_timeout_sec {
        Some(v) => v,
        None => 10u64,
    }
    &&& s.auto_launch == match legacy.auto_launch {
        Some(v) => v,
        None => false,
    }
    &&& s.language_mode@ == or_else(legacy.language_mode, "ru"@)
    &&& s.theme@ == or_else(legacy.theme, "siri_aurora"@)
}

fn take_or(o: Option<String>, d: String) -> (r: String)
    ensures
        r@ == or_else(o, d@),
{
    match o {
        Some(v) => v,
        None => d,
    }
}

impl AppSettings {
    /// The defaults on `platform`.
    pub fn default_for(platform: Platform) -> (r: Self)
        ensures
            is_default_for(r, platform),
    {
        let hotkey = if platform == Platform::MacOs {
            String::from_str("Cmd+G")
        } else {
            String::from_str("Ctrl+G")
        };
        AppSettings {
            hotkey,
            popup_timeout_sec: 10,
            auto_launch: false,
            language_mode: String::from_str("ru"),
            theme: String::from_str("siri_aurora"),
        }
    }

    /// The settings that an older stored layout gives on `platform`.
    pub fn from_legacy(legacy: LegacySettings, platform: Platform) -> (r: Self)
        ensures
            merges_legacy(r, legacy, platform),
    {
        let ghost l = legacy;
        let d = AppSettings::default_for(platform);
        let hotkey = match legacy.hotkey {
            Some(h) => h,
            None => match legacy.hotkey_windows {
                Some(h) => h,
                None => take_or(legacy.hotkey_macos, d.hotkey),
            },
        };
        AppSettings {
            hotkey,
            popup_timeout_sec: match legacy.popup_timeout_sec {
                Some(v) => v,
                None => d.popup_timeout_sec,
            },
            auto_launch: match legacy.auto_launch {
                Some(v) => v,
                None => d.auto_launch,
            },
            language_mode: take_or(legacy.language_mode, d.language_mode),
            theme: take_or(legacy.theme, d.theme),
        }
    }
}

/// The hotkey as it is registered: white space around it removed.
pub fn current_hotkey(settings: &AppSettings) -> (r: &str)
    ensures
        r@ == trim_ws(settings.hotkey@),
{
    trim(settings.hotkey.as_str())
}

impl Default for AppSettings {
    /// The defaults on Windows and Linux; `default_for` gives those of macOS.
    fn default() -> (r: Self)
        ensures
            is_default_for(r, Platform::Other),
    {
        AppSettings::default_for(Platform::Other)
    }
}

/// The settings loaded from storage: those stored in the current layout where they
/// could be read so, else those of the older layout, else the defaults.
pub fn resolve_loaded(
    current: Option<AppSettings>,
    legacy: Option<LegacySettings>,
    platform: Platform,
) -> (r: AppSettings)
    ensures
        match (current, legacy) {
            (Some(c), _) => r == c,
            (None, Some(l)) => merges_legacy(r, l, platform),
            (None, None) => is_default_for(r, platform),
        },
{
    match current {
        Some(c) => c,
        None => match legacy {
            Some(l) => AppSettings::from_legacy(l, platform),
            None => AppSettings::default_for(platform),
        },
    }
}

pub open spec fn shortcut_error(hotkey: Seq<char>, reason: Seq<char>) -> Seq<char> {
    "invalid hotkey '"@ + hotkey + "': "@ + reason
}

/// `hotkey` read as a shortcut, or why it cannot be.
pub fn parse_shortcut(hotkey: &str) -> (r: Result<HotKey, String>)
    ensures
        r.is_ok() == (hotkey_parse_error(hotkey@) is None),
        r matches Err(m) ==> m@ == shortcut_error(hotkey@, hotkey_parse_error(hotkey@)->Some_0),
{
    match parse_hotkey(hotkey) {
        Ok(k) => Ok(k),
        Err(reason) => {
            let mut m = String::from_str("invalid hotkey '");
            m.append(hotkey);
            m.append("': ");
            m.append(reason.as_str());
            Err(m)
        },
    }
}

pub open spec fn hotkey_error(hotkey: Seq<char>) -> Option<Seq<char>> {
    let h = trim_ws(hotkey);
    if h.len() == 0 {
        Some("hotkey cannot be empty"@)
    } else if hotkey_parse_error(h) is Some {
        Some(shortcut_error(h, hotkey_parse_error(h)->Some_0))
    } else {
        None
    }
}

/// Checks the settings' hotkey: not blank, and a shortcut once trimmed.
pub fn validate_hotkey(settings: &AppSettings) -> (r: Result<(), String>)
    ensures
        r.is_ok() == (hotkey_error(settings.hotkey@) is None),
        r matches Err(m) ==> hotkey_error(settings.hotkey@) == Some(m@),
{
    let hotkey = current_hotkey(settings);
    if hotkey.unicode_len() == 0 {
        return Err(String::from_str("hotkey cannot be empty"));
    }
    match parse_shortcut(hotkey) {
        Ok(_) => Ok(()),
        Err(m) => Err(m),
    }
}

pub open spec fn timeout_in_range(t: u64) -> bool {
    1 <= t && t <= 120
}

pub open spec fn settings_error(s: AppSettings) -> Option<Seq<char>> {
    if !timeout_in_range(s.popup_timeout_sec) {
        Some("popup timeout must be between 1 and 120 seconds"@)
    } else {
        hotkey_error(s.hotkey@)
    }
}

/// Checks settings before they are saved: a popup timeout of 1 to 120 seconds, then
/// the hotkey.
pub fn validate_settings(settings: &AppSettings) -> (r: Result<(), String>)
    ensures
        r.is_ok() == (settings_error(*settings) is None),
        r matches Err(m) ==> settings_error(*settings) == Some(m@),
{
    if settings.popup_timeout_sec == 0 || settings.popup_timeout_sec > 120 {
        return Err(String::from_str("popup timeout must be between 1 and 120 seconds"));
    }
    validate_hotkey(settings)
}

/// The command that hands the settings the worker uses to it.
pub fn config_command(settings: &AppSettings) -> (r: Command)
    ensures
        r matches Command::SetConfig { language_mode, popup_timeout_sec } && language_mode@
            == settings.language_mode@ && popup_timeout_sec == settings.popup_timeout_sec,
{
    Command::SetConfig {
        language_mode: settings.language_mode.clone(),
        popup_timeout_sec: settings.popup_timeout_sec,
    }
}

/// Whether an error from removing the auto-launch entry says that it was already gone
/// (`os error 2`, not found), which is not a failure.
pub fn autostart_already_absent(message: &str) -> (r: bool)
    ensures
        r == occurs_in("os error 2"@, message@),
{
    contains(message, "os error 2")
}

} // verus!
