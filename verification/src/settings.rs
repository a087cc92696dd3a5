//! `settings.json`: the one setting FastClip persists, outside the database
//! and in plaintext, because always-on-top must apply at launch, before any
//! PIN has been entered. It holds no clip data.
//!
//! **The one versioned artefact whose unrecognised version is not an
//! error.** Missing, unreadable, truncated, unparseable, or carrying a
//! version this build does not know: all five give `always_on_top: false`,
//! and the next write replaces the file at version 1. Refusing to start over
//! one boolean would be a worse failure than losing it.

use vstd::prelude::*;

verus! {

/// The version this build writes and recognises.
pub const SETTINGS_VERSION: i64 = 1;

/// The settings as the frontend sees them: exactly one boolean. The version
/// describes the file, not the setting.
#[derive(Debug, Clone, Copy, PartialEq, Eq, Structural)]
pub struct Settings {
    pub always_on_top: bool,
}

impl Default for Settings {
    /// Always-on-top off.
    fn default() -> (r: Settings)
        ensures
            r == (Settings { always_on_top: false }),
    {
        Settings { always_on_top: false }
    }
}

/// The file's fields as read. Lenient by construction: a field a later build
/// wrote is ignored, and a field this build expects and does not find is
/// `None`.
#[derive(Debug, Clone, Copy, PartialEq, Eq, Structural)]
pub struct StoredSettings {
    pub version: Option<i64>,
    pub always_on_top: Option<bool>,
}

/// The settings a file gives. `None` is a file that is missing, unreadable
/// or not parseable as settings.
pub open spec fn settings_of(stored: Option<StoredSettings>) -> Settings {
    match stored {
        Some(s) => if s.version == Some(SETTINGS_VERSION) {
            Settings {
                always_on_top: match s.always_on_top {
                    Some(b) => b,
                    None => false,
                },
            }
        } else {
            Settings { always_on_top: false }
        },
        None => Settings { always_on_top: false },
    }
}

/// Read the settings from what the file gave, falling back to the default
/// rather than failing: `get_settings` can fail for exactly one reason, and
/// it is not anything about this file.
pub fn read(stored: Option<StoredSettings>) -> (r: Settings)
    ensures
        r == settings_of(stored),
{
    match stored {
        Some(s) => match s.version {
            Some(v) => if v == SETTINGS_VERSION {
                Settings {
                    always_on_top: match s.always_on_top {
                        Some(b) => b,
                        None => false,
                    },
                }
            } else {
                Settings::default()
            },
            None => Settings::default(),
        },
        None => Settings::default(),
    }
}

/// What a write puts in the file: `{ "version": 1, "always_on_top": … }`.
pub fn stored(settings: Settings) -> (r: StoredSettings)
    ensures
        r == (StoredSettings { version: Some(SETTINGS_VERSION), always_on_top: Some(settings.always_on_top) }),
{
    StoredSettings { version: Some(SETTINGS_VERSION), always_on_top: Some(settings.always_on_top) }
}

/// **What is written is what is read back**: the settings a write stores
/// are the settings the next read gives.
pub proof fn lemma_write_then_read(settings: Settings)
    ensures
        settings_of(Some(StoredSettings { version: Some(SETTINGS_VERSION), always_on_top: Some(settings.always_on_top) }))
            == settings,
{
}

/// **An unknown version is the default, not an error**: a file from another
/// build reads as always-on-top off, whatever it says.
pub proof fn lemma_unknown_version_is_default(s: StoredSettings)
    requires
        s.version != Some(SETTINGS_VERSION),
    ensures
        settings_of(Some(s)) == (Settings { always_on_top: false }),
{
}

} // verus!
