//! Behavior settings as the resolver and the proactive policy read them.

use vstd::prelude::*;

verus! {

/// Schema version stamped on resolved active-mode records.
pub const BEHAVIOR_SETTINGS_SCHEMA_VERSION: u16 = 1;

#[derive(Debug, Clone, Copy, PartialEq, Eq, Structural)]
pub enum CompanionMode {
    Normal,
    Focus,
    Night,
}

#[derive(Debug, Clone, Copy, PartialEq, Eq, Structural)]
pub enum ActiveModeSource {
    Manual,
    Fullscreen,
    App,
    Schedule,
    Default,
}

#[derive(Debug, Clone, Copy, PartialEq, Eq, Structural)]
pub struct ActiveMode {
    pub schema_version: u16,
    pub mode: CompanionMode,
    pub source: ActiveModeSource,
    pub manual_override: Option<CompanionMode>,
}

/// Behavior toggles attached to one companion mode.
#[derive(Debug, Clone, Copy, PartialEq, Eq, Structural)]
pub struct ModeProfile {
    pub proactive_enabled: bool,
    pub tts_enabled: bool,
}

#[derive(Debug, Clone, Copy, PartialEq, Eq, Structural)]
pub struct ModeProfiles {
    pub normal: ModeProfile,
    pub focus: ModeProfile,
    pub night: ModeProfile,
}

#[derive(Debug, Clone, Copy, PartialEq, Eq, Structural)]
pub struct FullscreenActivationRule {
    pub enabled: bool,
    pub mode: CompanionMode,
}

#[derive(Debug)]
pub struct AppActivationRule {
    pub enabled: bool,
    pub mode: CompanionMode,
    pub app_ids: Vec<String>,
}

#[derive(Debug)]
pub struct ScheduleActivationRule {
    pub enabled: bool,
    pub mode: CompanionMode,
    /// Monday is zero and Sunday is six.
    pub days_of_week: Vec<u8>,
    /// `HH:MM` local time at which the rule starts.
    pub start_local_time: String,
    /// `HH:MM` local time at which the rule ends (exclusive).
    pub end_local_time: String,
}

#[derive(Debug)]
pub struct ActivationRules {
    pub fullscreen: FullscreenActivationRule,
    pub apps: Vec<AppActivationRule>,
    pub schedules: Vec<ScheduleActivationRule>,
}

#[derive(Debug, Clone, Copy, PartialEq, Eq, Structural)]
pub enum ConsentState {
    Unset,
    Accepted,
    Declined,
}

/// One exclusion rule for activity collection: an absent selector matches
/// every snapshot.
#[derive(Debug)]
pub struct ExclusionRule {
    pub app_id: Option<String>,
    pub title_pattern: Option<String>,
}

#[derive(Debug, Clone, Copy, PartialEq, Eq, Structural)]
pub struct TriggerSettings {
    pub return_after_enabled: bool,
    pub return_after_minutes: u32,
    pub long_session_enabled: bool,
    pub long_session_minutes: u32,
    pub category_change_enabled: bool,
    pub category_change_minutes: u32,
}

#[derive(Debug, Clone, Copy, PartialEq, Eq, Structural)]
pub struct FrequencySettings {
    pub minimum_interval_minutes: u32,
    pub max_per_hour: u32,
    pub max_per_day: u32,
}

#[derive(Debug)]
pub struct QuietHoursRule {
    pub enabled: bool,
    pub days_of_week: Vec<u8>,
    pub start_local_time: String,
    pub end_local_time: String,
}

#[derive(Debug)]
pub struct BehaviorSettings {
    pub manual_mode_override: Option<CompanionMode>,
    pub activation: ActivationRules,
    pub profiles: ModeProfiles,
    pub consent: ConsentState,
    pub consent_version: u32,
    pub collection_enabled: bool,
    pub retention_days: u16,
    pub exclusions: Vec<ExclusionRule>,
    pub proactive_master_enabled: bool,
    pub proactive_snoozed_until: Option<i64>,
    pub triggers: TriggerSettings,
    pub frequency: FrequencySettings,
    pub quiet_hours: Vec<QuietHoursRule>,
    pub evaluator_endpoint: Option<String>,
    pub evaluator_model: Option<String>,
}

/// Stable failures when reading `config/behavior.json`.
#[derive(Debug, Clone, Copy, PartialEq, Eq, Structural)]
pub enum BehaviorSettingsLoadError {
    Io,
    Invalid,
}

impl BehaviorSettingsLoadError {
    pub fn message(&self) -> (m: &'static str)
        ensures
            m@ == match *self {
                BehaviorSettingsLoadError::Io => "behavior settings could not be read"@,
                BehaviorSettingsLoadError::Invalid => "behavior settings are invalid"@,
            },
    {
        match self {
            BehaviorSettingsLoadError::Io => "behavior settings could not be read",
            BehaviorSettingsLoadError::Invalid => "behavior settings are invalid",
        }
    }
}

} // verus!
