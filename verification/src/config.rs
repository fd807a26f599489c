//! The persisted preference and the rules by which its value at start-up is
//! chosen.

use vstd::prelude::*;
use crate::text::{
    ascii_lower, ascii_lowercase, chars_of, range_lowers_to, trim_bounds, trimmed, whitespace,
};

verus! {

/// The environment variable that overrides the stored preference at start-up.
pub const HIDE_DECORATIONS_ENV: &'static str = "CHATGPT_TAURI_HIDE_DECORATIONS";

/// The file, inside the platform's configuration directory, that holds the
/// preferences.
pub const SETTINGS_FILE: &'static str = "settings.json";

/// User preferences that survive a restart.
#[derive(Debug, Clone, Copy, PartialEq, Eq, Structural)]
pub struct AppConfig {
    /// Whether the native title bar and borders are hidden.
    pub hide_decorations: bool,
}

impl Default for AppConfig {
    /// Decorations are shown unless the user asked otherwise.
    fn default() -> (config: Self)
        ensures
            config == (AppConfig { hide_decorations: false }),
    {
        AppConfig { hide_decorations: false }
    }
}

/// What reading the settings file gave.
#[derive(Debug, Clone, Copy, PartialEq, Eq, Structural)]
pub enum StoredSettings {
    /// There is no file, or it could not be read.
    Absent,
    /// The file does not hold valid preferences.
    Malformed,
    /// The preferences that the file holds.
    Parsed(AppConfig),
}

/// Whether the text of the environment variable asks for hidden decorations:
/// it is `1`, `true` or `yes`, in any case, with any whitespace around it.
pub open spec fn is_truthy(value: Seq<char>) -> bool {
    let word = ascii_lowercase(trimmed(value));
    word == "1"@ || word == "true"@ || word == "yes"@
}

/// The preference in force at start-up: the variable decides where it is set,
/// the file where it is not, the default where neither speaks.
pub open spec fn initial_hide_decorations(
    stored: StoredSettings,
    env_value: Option<Seq<char>>,
) -> bool {
    match env_value {
        Some(value) => is_truthy(value),
        None => match stored {
            StoredSettings::Parsed(config) => config.hide_decorations,
            _ => false,
        },
    }
}

/// The preferences that a read of the settings file stands for.  Anything but
/// a well-formed file gives the default.
pub fn load_app_config(stored: StoredSettings) -> (config: AppConfig)
    ensures
        stored matches StoredSettings::Parsed(parsed) ==> config == parsed,
        !(stored is Parsed) ==> config == (AppConfig { hide_decorations: false }),
{
    match stored {
        StoredSettings::Parsed(parsed) => parsed,
        _ => AppConfig::default(),
    }
}

/// The override that the environment variable carries, where `value` is its
/// text if it is set.
pub fn decoration_pref_from_env(value: Option<&str>) -> (pref: Option<bool>)
    ensures
        value matches Some(text) ==> pref == Some(is_truthy(text@)),
        value is None ==> pref is None,
{
    match value {
        None => None,
        Some(text) => {
            let chars = chars_of(text);
            let (start, end) = trim_bounds(&chars);
            Some(
                range_lowers_to(&chars, start, end, "1") || range_lowers_to(
                    &chars,
                    start,
                    end,
                    "true",
                ) || range_lowers_to(&chars, start, end, "yes"),
            )
        },
    }
}

/// The preferences to start with, and the decoration flag among them.
pub fn load_initial_preferences(stored: StoredSettings, env_value: Option<&str>) -> (initial: (
    AppConfig,
    bool,
))
    ensures
        initial.1 == initial_hide_decorations(
            stored,
            match env_value {
                Some(text) => Some(text@),
                None => None,
            },
        ),
        initial.0 == (AppConfig { hide_decorations: initial.1 }),
{
    let mut config = load_app_config(stored);
    if let Some(env_override) = decoration_pref_from_env(env_value) {
        config.hide_decorations = env_override;
    }
    let hide_decorations = config.hide_decorations;
    (config, hide_decorations)
}

/// Records `hide` in `config`, ready to be written back.
pub fn persist_decoration_pref(config: &mut AppConfig, hide: bool)
    ensures
        final(config).hide_decorations == hide,
{
    config.hide_decorations = hide;
}

/// Set to `1`, `true` or `yes`, in any case, the environment variable hides
/// the decorations at start-up, whatever the settings file holds.
pub proof fn lemma_env_override_hides(stored: StoredSettings, value: Seq<char>)
    requires
        ascii_lowercase(value) == "1"@ || ascii_lowercase(value) == "true"@ || ascii_lowercase(
            value,
        ) == "yes"@,
    ensures
        initial_hide_decorations(stored, Some(value)),
{
    reveal_strlit("1");
    reveal_strlit("true");
    reveal_strlit("yes");
    let word = ascii_lowercase(value);
    assert(word.len() == value.len());
    assert(word[0] == ascii_lower(value[0]));
    assert(word.last() == ascii_lower(value.last()));
    assert(!whitespace(value[0]));
    assert(!whitespace(value.last()));
    assert(trimmed(value) == value);
}

} // verus!
