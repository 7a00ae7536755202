//! Global character selection and expression idle-timeout settings.

use vstd::prelude::*;

use crate::text::{decimal_text, push_decimal, push_str, string_of};

verus! {

pub const CHARACTER_SETTINGS_SCHEMA_VERSION: u16 = 1;
/// Shortest enabled expression idle timeout, in seconds.
pub const MIN_IDLE_TIMEOUT_SECONDS: u32 = 10;
/// Longest enabled expression idle timeout, in seconds.
pub const MAX_IDLE_TIMEOUT_SECONDS: u32 = 600;

#[derive(Debug)]
pub struct CharacterSettings {
    pub schema_version: u16,
    /// The character whose renderer is shown.
    pub active_character_id: Option<String>,
    /// Seconds after which the expression returns to default; `None` disables.
    pub expression_idle_timeout_seconds: Option<u32>,
    /// The remembered Live2D character.
    pub live2d_character_id: Option<String>,
    /// The remembered static-image character.
    pub static_image_character_id: Option<String>,
}

impl CharacterSettings {
    /// Current schema, no selection and no idle timeout.
    pub fn default_settings() -> (s: CharacterSettings)
        ensures
            s.schema_version == CHARACTER_SETTINGS_SCHEMA_VERSION,
            s.active_character_id is None,
            s.expression_idle_timeout_seconds is None,
            s.live2d_character_id is None,
            s.static_image_character_id is None,
    {
        CharacterSettings {
            schema_version: CHARACTER_SETTINGS_SCHEMA_VERSION,
            active_character_id: None,
            expression_idle_timeout_seconds: None,
            live2d_character_id: None,
            static_image_character_id: None,
        }
    }
}

pub open spec fn idle_timeout_valid(timeout_seconds: Option<u32>) -> bool {
    match timeout_seconds {
        None => true,
        Some(v) => MIN_IDLE_TIMEOUT_SECONDS <= v <= MAX_IDLE_TIMEOUT_SECONDS,
    }
}

/// Validates the optional expression idle timeout: `None` disables the
/// reset, enabled values must be from 10 through 600 seconds.
pub fn validate_idle_timeout(timeout_seconds: Option<u32>) -> (r: Result<(), String>)
    ensures
        r is Ok <==> idle_timeout_valid(timeout_seconds),
        r is Err ==> r->Err_0@
            == "expression idle timeout must be null or between 10 and 600 seconds: "@
            + decimal_text(timeout_seconds->0 as nat),
{
    match timeout_seconds {
        None => Ok(()),
        Some(value) => {
            if MIN_IDLE_TIMEOUT_SECONDS <= value && value <= MAX_IDLE_TIMEOUT_SECONDS {
                Ok(())
            } else {
                let mut message: Vec<char> = Vec::new();
                push_str(
                    &mut message,
                    "expression idle timeout must be null or between 10 and 600 seconds: ",
                );
                push_decimal(&mut message, value as u64);
                Err(string_of(message.as_slice()))
            }
        },
    }
}

pub open spec fn settings_valid(settings: CharacterSettings) -> bool {
    settings.schema_version == CHARACTER_SETTINGS_SCHEMA_VERSION && idle_timeout_valid(
        settings.expression_idle_timeout_seconds,
    )
}

/// Validates a settings record before it is persisted or used.
pub fn validate_settings(settings: &CharacterSettings) -> (r: Result<(), String>)
    ensures
        r is Ok <==> settings_valid(*settings),
        settings.schema_version != CHARACTER_SETTINGS_SCHEMA_VERSION ==> r is Err && r->Err_0@
            == "unsupported character settings schema version: "@ + decimal_text(
            settings.schema_version as nat,
        ),
{
    if settings.schema_version != CHARACTER_SETTINGS_SCHEMA_VERSION {
        let mut message: Vec<char> = Vec::new();
        push_str(&mut message, "unsupported character settings schema version: ");
        push_decimal(&mut message, settings.schema_version as u64);
        return Err(string_of(message.as_slice()));
    }
    validate_idle_timeout(settings.expression_idle_timeout_seconds)
}

/// The settings in effect after loading: a parsed record that fails
/// validation, or none at all, falls back to the defaults.
pub fn settings_or_default(parsed: Option<CharacterSettings>) -> (s: CharacterSettings)
    ensures
        settings_valid(s),
        parsed is Some && settings_valid(parsed->0) ==> s == parsed->0,
        !(parsed is Some && settings_valid(parsed->0)) ==> s.active_character_id is None
            && s.expression_idle_timeout_seconds is None && s.live2d_character_id is None
            && s.static_image_character_id is None,
{
    match parsed {
        Some(settings) => {
            if validate_settings(&settings).is_ok() {
                settings
            } else {
                CharacterSettings::default_settings()
            }
        },
        None => CharacterSettings::default_settings(),
    }
}

/// Replaces only the idle timeout while preserving character selection.
pub fn with_expression_idle_timeout(mut settings: CharacterSettings, timeout_seconds: Option<u32>) -> (r:
    Result<CharacterSettings, String>)
    ensures
        r is Ok <==> idle_timeout_valid(timeout_seconds),
        r is Ok ==> r->Ok_0.schema_version == CHARACTER_SETTINGS_SCHEMA_VERSION
            && r->Ok_0.expression_idle_timeout_seconds == timeout_seconds
            && r->Ok_0.active_character_id == settings.active_character_id
            && r->Ok_0.live2d_character_id == settings.live2d_character_id
            && r->Ok_0.static_image_character_id == settings.static_image_character_id,
{
    validate_idle_timeout(timeout_seconds)?;
    settings.schema_version = CHARACTER_SETTINGS_SCHEMA_VERSION;
    settings.expression_idle_timeout_seconds = timeout_seconds;
    Ok(settings)
}

} // verus!
