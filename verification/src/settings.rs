//! The settings model: the persisted preference record, its defaults, the
//! rules that keep its fields consistent, and the view of it that is handed
//! to the user interface.  Reading and writing the settings file is plain
//! I/O and happens outside the library.

use vstd::prelude::*;

use crate::strutil::trim_str;
use crate::strutil::trimmed;

verus! {

/// The modifier set of a combo hotkey.
#[derive(Clone, Copy, Debug, PartialEq, Eq, Structural)]
pub struct HotkeyMods {
    pub cmd: bool,
    pub ctrl: bool,
    pub alt: bool,
    pub shift: bool,
}

/// The persisted preferences.
#[derive(Clone, Debug)]
pub struct Settings {
    pub autostart_enabled: bool,
    pub autoinsert_enabled: bool,
    pub hotkey_accelerator: String,
    pub hotkey_kind: String,
    pub hotkey_code: Option<String>,
    pub hotkey_mods: Option<HotkeyMods>,
    pub ptt_enabled: bool,
    pub ptt_threshold_ms: u64,
    pub openai_api_key: String,
    pub translate_target: Option<String>,
    pub translate_model: String,
}

impl Default for Settings {
    /// A fresh settings record: everything off, every text field empty.
    fn default() -> (r: Settings)
        ensures
            !r.autostart_enabled,
            !r.autoinsert_enabled,
            r.hotkey_accelerator@ == Seq::<char>::empty(),
            r.hotkey_kind@ == Seq::<char>::empty(),
            r.hotkey_code is None,
            r.hotkey_mods is None,
            !r.ptt_enabled,
            r.ptt_threshold_ms == 0,
            r.openai_api_key@ == Seq::<char>::empty(),
            r.translate_target is None,
            r.translate_model@ == Seq::<char>::empty(),
    {
        Settings {
            autostart_enabled: false,
            autoinsert_enabled: false,
            hotkey_accelerator: String::new(),
            hotkey_kind: String::new(),
            hotkey_code: None,
            hotkey_mods: None,
            ptt_enabled: false,
            ptt_threshold_ms: 0,
            openai_api_key: String::new(),
            translate_target: None,
            translate_model: String::new(),
        }
    }
}

impl Settings {
    /// Stores a key after trimming surrounding whitespace; nothing else
    /// changes.
    pub fn set_openai_api_key(&mut self, api_key: &str)
        ensures
            final(self).openai_api_key@ == trimmed(api_key@),
            final(self).autostart_enabled == old(self).autostart_enabled,
            final(self).autoinsert_enabled == old(self).autoinsert_enabled,
            final(self).hotkey_accelerator == old(self).hotkey_accelerator,
            final(self).hotkey_kind == old(self).hotkey_kind,
            final(self).hotkey_code == old(self).hotkey_code,
            final(self).hotkey_mods == old(self).hotkey_mods,
            final(self).ptt_enabled == old(self).ptt_enabled,
            final(self).ptt_threshold_ms == old(self).ptt_threshold_ms,
            final(self).translate_target == old(self).translate_target,
            final(self).translate_model == old(self).translate_model,
    {
        self.openai_api_key = trim_str(api_key);
    }

    /// Stores a push-to-talk threshold; push-to-talk is enabled exactly when
    /// the threshold is positive.  Nothing else changes.
    pub fn set_ptt_threshold_ms(&mut self, threshold_ms: u64)
        ensures
            final(self).ptt_threshold_ms == threshold_ms,
            final(self).ptt_enabled == (threshold_ms > 0),
            final(self).autostart_enabled == old(self).autostart_enabled,
            final(self).autoinsert_enabled == old(self).autoinsert_enabled,
            final(self).hotkey_accelerator == old(self).hotkey_accelerator,
            final(self).hotkey_kind == old(self).hotkey_kind,
            final(self).hotkey_code == old(self).hotkey_code,
            final(self).hotkey_mods == old(self).hotkey_mods,
            final(self).openai_api_key == old(self).openai_api_key,
            final(self).translate_target == old(self).translate_target,
            final(self).translate_model == old(self).translate_model,
    {
        self.ptt_threshold_ms = threshold_ms;
        self.ptt_enabled = threshold_ms > 0;
    }
}

/// The translation model assumed when the settings file names none.
pub fn default_translate_model() -> (r: String)
    ensures
        r@ == "gpt-4o"@,
{
    String::from_str("gpt-4o")
}

/// Push-to-talk starts disabled when the settings file says nothing.
pub fn default_ptt_enabled() -> (r: bool)
    ensures
        r == false,
{
    false
}

/// The push-to-talk hold threshold assumed when the settings file names
/// none, in milliseconds.
pub fn default_ptt_threshold_ms() -> (r: u64)
    ensures
        r == 300,
{
    300
}

/// The settings view handed to the user interface: the stored fields plus
/// whether a usable key is present.
#[derive(Clone, Debug)]
pub struct SettingsDto {
    pub openai_api_key: String,
    pub has_openai_api_key: bool,
    pub autoinsert_enabled: bool,
    pub hotkey_accelerator: String,
    pub hotkey_code: Option<String>,
    pub hotkey_mods: Option<HotkeyMods>,
    pub ptt_enabled: bool,
    pub ptt_threshold_ms: u64,
    pub translate_target: Option<String>,
    pub translate_model: String,
}

/// Copies an `Option<String>` field.
fn clone_opt_string(v: &Option<String>) -> (r: Option<String>)
    ensures
        r == *v,
{
    match v {
        Some(s) => Some(s.clone()),
        None => None,
    }
}

/// Builds the user-interface view of the settings.  A key counts as present
/// exactly when it is not blank.
pub fn get_settings(s: &Settings) -> (r: SettingsDto)
    ensures
        r.openai_api_key == s.openai_api_key,
        r.has_openai_api_key == (trimmed(s.openai_api_key@).len() != 0),
        r.autoinsert_enabled == s.autoinsert_enabled,
        r.hotkey_accelerator == s.hotkey_accelerator,
        r.hotkey_code == s.hotkey_code,
        r.hotkey_mods == s.hotkey_mods,
        r.ptt_enabled == s.ptt_enabled,
        r.ptt_threshold_ms == s.ptt_threshold_ms,
        r.translate_target == s.translate_target,
        r.translate_model == s.translate_model,
{
    let t = trim_str(s.openai_api_key.as_str());
    SettingsDto {
        openai_api_key: s.openai_api_key.clone(),
        has_openai_api_key: !t.as_str().is_empty(),
        autoinsert_enabled: s.autoinsert_enabled,
        hotkey_accelerator: s.hotkey_accelerator.clone(),
        hotkey_code: clone_opt_string(&s.hotkey_code),
        hotkey_mods: s.hotkey_mods,
        ptt_enabled: s.ptt_enabled,
        ptt_threshold_ms: s.ptt_threshold_ms,
        translate_target: clone_opt_string(&s.translate_target),
        translate_model: s.translate_model.clone(),
    }
}

/// The identity of the settings file: its path under the application's data
/// directory.  Opening, reading and rewriting that file is plain I/O and
/// happens outside the library.
#[derive(Clone, Debug)]
pub struct SettingsStore {
    pub path: String,
}

impl SettingsStore {
    /// Places the settings file directly under the data directory.
    pub fn new(app_data_dir: &str) -> (r: SettingsStore)
        ensures
            r.path@ == app_data_dir@ + "/settings.json"@,
    {
        let mut path = String::from_str(app_data_dir);
        path.append("/settings.json");
        SettingsStore { path }
    }
}

} // verus!
