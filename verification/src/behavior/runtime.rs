//! Pure runtime snapshot composition shared by the background service and IPC.

use vstd::prelude::*;

use crate::behavior::mode::{resolve_mode, resolve_mode_spec, ModeResolutionError, ModeResolutionInput};
use crate::behavior::settings::{BehaviorSettings, CompanionMode};

verus! {

#[derive(Debug, Clone, Copy, PartialEq, Eq, Structural)]
pub enum RuntimeMode {
    Normal,
    Focus,
    Night,
}

pub open spec fn runtime_mode_of(mode: CompanionMode) -> RuntimeMode {
    match mode {
        CompanionMode::Normal => RuntimeMode::Normal,
        CompanionMode::Focus => RuntimeMode::Focus,
        CompanionMode::Night => RuntimeMode::Night,
    }
}

impl RuntimeMode {
    pub fn from_mode(value: CompanionMode) -> (r: RuntimeMode)
        ensures
            r == runtime_mode_of(value),
    {
        match value {
            CompanionMode::Normal => RuntimeMode::Normal,
            CompanionMode::Focus => RuntimeMode::Focus,
            CompanionMode::Night => RuntimeMode::Night,
        }
    }
}

#[derive(Debug)]
pub enum RuntimeCollectionHealth {
    Disabled,
    Healthy { last_activity_at: Option<i64> },
    Degraded { message: String },
}

#[derive(Debug)]
pub struct BehaviorRuntimeSnapshot {
    pub mode: RuntimeMode,
    pub proactive_enabled: bool,
    pub tts_enabled: bool,
    pub collection: RuntimeCollectionHealth,
}

/// Combines validated settings, local context, and collector health into the
/// immutable state consumed by the proactive worker and status IPC.
pub fn resolve_runtime_snapshot(
    settings: &BehaviorSettings,
    local_weekday: u8,
    local_minutes: u16,
    foreground_app_id: Option<String>,
    fullscreen: Option<bool>,
    collection: RuntimeCollectionHealth,
) -> (r: Result<BehaviorRuntimeSnapshot, ModeResolutionError>)
    ensures
        ({
            let input = ModeResolutionInput {
                local_weekday,
                local_minutes,
                foreground_app_id,
                fullscreen,
            };
            match resolve_mode_spec(*settings, input) {
                Err(e) => r == Err::<BehaviorRuntimeSnapshot, ModeResolutionError>(e),
                Ok(resolved) => r is Ok && r->Ok_0.mode == runtime_mode_of(resolved.active_mode.mode)
                    && r->Ok_0.proactive_enabled == resolved.profile.proactive_enabled
                    && r->Ok_0.tts_enabled == resolved.profile.tts_enabled
                    && r->Ok_0.collection == collection,
            }
        }),
{
    let input = ModeResolutionInput { local_weekday, local_minutes, foreground_app_id, fullscreen };
    let resolved = resolve_mode(settings, &input)?;
    Ok(BehaviorRuntimeSnapshot {
        mode: RuntimeMode::from_mode(resolved.active_mode.mode),
        proactive_enabled: resolved.profile.proactive_enabled,
        tts_enabled: resolved.profile.tts_enabled,
        collection,
    })
}

} // verus!
