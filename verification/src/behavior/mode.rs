//! Deterministic resolution of context-aware companion behavior profiles.

use vstd::prelude::*;
use vstd::utf8::encode_utf8;

use crate::behavior::settings::{
    ActiveMode, ActiveModeSource, AppActivationRule, BehaviorSettings, CompanionMode,
    ModeProfile, ScheduleActivationRule, BEHAVIOR_SETTINGS_SCHEMA_VERSION,
};
use crate::text::{chars_of, trim_ws, trim_ws_bounds};

verus! {

/// Local context supplied by platform adapters to the pure mode resolver.
#[derive(Debug)]
pub struct ModeResolutionInput {
    /// Monday is zero and Sunday is six.
    pub local_weekday: u8,
    /// Minutes since local midnight in the inclusive range `0..=1439`.
    pub local_minutes: u16,
    /// Foreground application id, if one could be resolved.
    pub foreground_app_id: Option<String>,
    /// Whether the foreground window is fullscreen, or `None` when unknown.
    pub fullscreen: Option<bool>,
}

/// The selected transport-facing mode and the exact associated behavior profile.
#[derive(Debug, Clone, Copy, PartialEq, Eq, Structural)]
pub struct ResolvedMode {
    pub active_mode: ActiveMode,
    pub profile: ModeProfile,
}

/// Stable validation failures for local resolver input.
#[derive(Debug, Clone, Copy, PartialEq, Eq, Structural)]
pub enum ModeResolutionError {
    InvalidWeekday,
    InvalidLocalMinutes,
}

impl ModeResolutionError {
    pub fn message(&self) -> (m: &'static str)
        ensures
            m@ == match *self {
                ModeResolutionError::InvalidWeekday => "local weekday must be between 0 and 6"@,
                ModeResolutionError::InvalidLocalMinutes => "local minutes must be between 0 and 1439"@,
            },
    {
        match self {
            ModeResolutionError::InvalidWeekday => "local weekday must be between 0 and 6",
            ModeResolutionError::InvalidLocalMinutes => "local minutes must be between 0 and 1439",
        }
    }
}

// ---------------------------------------------------------------- app ids

pub open spec fn ascii_lower(c: char) -> char {
    if 'A' <= c && c <= 'Z' {
        ((c as u32) + 32) as char
    } else {
        c
    }
}

/// Application ids compare case-insensitively (ASCII) after whitespace
/// trimming; a blank id names no application.
pub open spec fn normalized_app_id(s: Seq<char>) -> Option<Seq<char>> {
    let t = trim_ws(s);
    if t.len() == 0 {
        None
    } else {
        Some(t.map_values(|c: char| ascii_lower(c)))
    }
}

pub fn to_ascii_lower(c: char) -> (r: char)
    ensures
        r == ascii_lower(c),
{
    if 'A' <= c && c <= 'Z' {
        let b: u8 = (c as u8) + 32;
        b as char
    } else {
        c
    }
}

/// Normalizes an activity application id for comparison.
pub fn normalize_activity_app_id(app_id: &str) -> (r: Option<Vec<char>>)
    ensures
        match r {
            Some(v) => normalized_app_id(app_id@) == Some(v@),
            None => normalized_app_id(app_id@) is None,
        },
{
    let chars = chars_of(app_id);
    let (a, b) = trim_ws_bounds(chars.as_slice());
    if a == b {
        return None;
    }
    let ghost t = chars@.subrange(a as int, b as int);
    let mut out: Vec<char> = Vec::new();
    let mut i: usize = a;
    while i < b
        invariant
            a <= i <= b <= chars@.len(),
            t == chars@.subrange(a as int, b as int),
            out@ == t.take(i - a).map_values(|c: char| ascii_lower(c)),
        decreases b - i,
    {
        let c = to_ascii_lower(chars[i]);
        proof {
            assert(t.take(i - a + 1) =~= t.take(i - a).push(t[i - a]));
        }
        out.push(c);
        i = i + 1;
        proof {
            assert(out@ =~= t.take(i - a).map_values(|c: char| ascii_lower(c)));
        }
    }
    assert(t.take(b - a) =~= t);
    Some(out)
}

// ---------------------------------------------------------------- severity

pub open spec fn severity(mode: CompanionMode) -> u8 {
    match mode {
        CompanionMode::Normal => 0,
        CompanionMode::Focus => 1,
        CompanionMode::Night => 2,
    }
}

pub fn mode_severity(mode: CompanionMode) -> (r: u8)
    ensures
        r == severity(mode),
{
    match mode {
        CompanionMode::Normal => 0,
        CompanionMode::Focus => 1,
        CompanionMode::Night => 2,
    }
}

/// The quieter of an accumulated mode and a newly matching one; a later
/// match of equal severity wins.
pub open spec fn quieter(acc: Option<CompanionMode>, m: CompanionMode) -> Option<CompanionMode> {
    match acc {
        None => Some(m),
        Some(a) => if severity(m) >= severity(a) {
            Some(m)
        } else {
            Some(a)
        },
    }
}

// ---------------------------------------------------------------- app rules

pub open spec fn app_rule_matches(rule: AppActivationRule, foreground: Seq<char>) -> bool {
    rule.enabled && exists|i: int|
        0 <= i < rule.app_ids@.len() && normalized_app_id(#[trigger] rule.app_ids@[i]@) == Some(
            foreground,
        )
}

/// Quietest mode among the first `n` app rules that match `foreground`.
pub open spec fn quietest_app_mode(
    rules: Seq<AppActivationRule>,
    foreground: Seq<char>,
    n: int,
) -> Option<CompanionMode>
    decreases n,
{
    if n <= 0 {
        None
    } else {
        let prev = quietest_app_mode(rules, foreground, n - 1);
        if app_rule_matches(rules[n - 1], foreground) {
            quieter(prev, rules[n - 1].mode)
        } else {
            prev
        }
    }
}

pub open spec fn app_selection(settings: BehaviorSettings, input: ModeResolutionInput) -> Option<
    CompanionMode,
> {
    match input.foreground_app_id {
        None => None,
        Some(id) => match normalized_app_id(id@) {
            None => None,
            Some(fg) => quietest_app_mode(
                settings.activation.apps@,
                fg,
                settings.activation.apps@.len() as int,
            ),
        },
    }
}

fn chars_eq(x: &Vec<char>, y: &Vec<char>) -> (b: bool)
    ensures
        b == (x@ == y@),
{
    if x.len() != y.len() {
        return false;
    }
    let mut i: usize = 0;
    while i < x.len()
        invariant
            x.len() == y.len(),
            i <= x.len(),
            forall|j: int| 0 <= j < i ==> x@[j] == y@[j],
        decreases x.len() - i,
    {
        if x[i] != y[i] {
            return false;
        }
        i = i + 1;
    }
    assert(x@ =~= y@);
    true
}

fn app_rule_matches_exec(rule: &AppActivationRule, foreground: &Vec<char>) -> (b: bool)
    ensures
        b == app_rule_matches(*rule, foreground@),
{
    if !rule.enabled {
        return false;
    }
    let mut i: usize = 0;
    while i < rule.app_ids.len()
        invariant
            rule.enabled,
            i <= rule.app_ids@.len(),
            forall|j: int|
                0 <= j < i ==> normalized_app_id(#[trigger] rule.app_ids@[j]@) != Some(
                    foreground@,
                ),
        decreases rule.app_ids.len() - i,
    {
        match normalize_activity_app_id(rule.app_ids[i].as_str()) {
            Some(candidate) => {
                if chars_eq(&candidate, foreground) {
                    assert(normalized_app_id(rule.app_ids@[i as int]@) == Some(foreground@));
                    return true;
                }
            },
            None => {},
        }
        i = i + 1;
    }
    false
}

fn resolve_app(settings: &BehaviorSettings, input: &ModeResolutionInput) -> (r: Option<
    CompanionMode,
>)
    ensures
        r == app_selection(*settings, *input),
{
    let id = match &input.foreground_app_id {
        Some(id) => id,
        None => return None,
    };
    let foreground = match normalize_activity_app_id(id.as_str()) {
        Some(fg) => fg,
        None => return None,
    };
    let rules = &settings.activation.apps;
    let mut acc: Option<CompanionMode> = None;
    let mut i: usize = 0;
    while i < rules.len()
        invariant
            i <= rules@.len(),
            acc == quietest_app_mode(rules@, foreground@, i as int),
        decreases rules.len() - i,
    {
        if app_rule_matches_exec(&rules[i], &foreground) {
            acc = match acc {
                None => Some(rules[i].mode),
                Some(a) => if mode_severity(rules[i].mode) >= mode_severity(a) {
                    Some(rules[i].mode)
                } else {
                    Some(a)
                },
            };
        }
        i = i + 1;
    }
    acc
}

// ---------------------------------------------------------------- schedules

pub open spec fn is_digit(b: u8) -> bool {
    48 <= b && b <= 57
}

/// Minutes since midnight for an exact `HH:MM` byte string.
pub open spec fn parse_local_time_spec(b: Seq<u8>) -> Option<u16> {
    if b.len() == 5 && b[2] == 58u8 && is_digit(b[0]) && is_digit(b[1]) && is_digit(b[3])
        && is_digit(b[4]) {
        let hours = (b[0] - 48) * 10 + (b[1] - 48);
        let minutes = (b[3] - 48) * 10 + (b[4] - 48);
        if hours < 24 && minutes < 60 {
            Some((hours * 60 + minutes) as u16)
        } else {
            None
        }
    } else {
        None
    }
}

pub fn parse_local_time(value: &str) -> (r: Option<u16>)
    ensures
        r == parse_local_time_spec(encode_utf8(value@)),
        r is Some ==> r->0 < 1440,
{
    let bytes = value.as_bytes();
    if bytes.len() != 5 || bytes[2] != 58u8 || !(48 <= bytes[0] && bytes[0] <= 57) || !(48
        <= bytes[1] && bytes[1] <= 57) || !(48 <= bytes[3] && bytes[3] <= 57) || !(48 <= bytes[4]
        && bytes[4] <= 57) {
        return None;
    }
    let hours: u16 = ((bytes[0] - 48) as u16) * 10 + ((bytes[1] - 48) as u16);
    let minutes: u16 = ((bytes[3] - 48) as u16) * 10 + ((bytes[4] - 48) as u16);
    if hours < 24 && minutes < 60 {
        Some(hours * 60 + minutes)
    } else {
        None
    }
}

pub open spec fn previous_weekday(weekday: u8) -> u8 {
    if weekday == 0 {
        6
    } else {
        (weekday - 1) as u8
    }
}

/// Whether a schedule window covers the local weekday and minute. A window
/// whose end does not follow its start runs past midnight into the next
/// day; an empty window (start equals end) never applies.
pub open spec fn schedule_active(
    days: Seq<u8>,
    start_text: Seq<char>,
    end_text: Seq<char>,
    weekday: u8,
    minutes: u16,
) -> bool {
    match (parse_local_time_spec(encode_utf8(start_text)), parse_local_time_spec(encode_utf8(end_text))) {
        (Some(start), Some(end)) => if start < end {
            days.contains(weekday) && start <= minutes && minutes < end
        } else if start == end {
            false
        } else {
            (days.contains(weekday) && minutes >= start) || (days.contains(previous_weekday(weekday))
                && minutes < end)
        },
        _ => false,
    }
}

pub fn contains_day(days: &Vec<u8>, day: u8) -> (b: bool)
    ensures
        b == days@.contains(day),
{
    let mut i: usize = 0;
    while i < days.len()
        invariant
            i <= days@.len(),
            forall|j: int| 0 <= j < i ==> days@[j] != day,
        decreases days.len() - i,
    {
        if days[i] == day {
            return true;
        }
        i = i + 1;
    }
    false
}

fn schedule_is_active(rule: &ScheduleActivationRule, weekday: u8, minutes: u16) -> (b: bool)
    ensures
        b == schedule_active(
            rule.days_of_week@,
            rule.start_local_time@,
            rule.end_local_time@,
            weekday,
            minutes,
        ),
{
    let start = match parse_local_time(rule.start_local_time.as_str()) {
        Some(s) => s,
        None => return false,
    };
    let end = match parse_local_time(rule.end_local_time.as_str()) {
        Some(e) => e,
        None => return false,
    };
    if start < end {
        return contains_day(&rule.days_of_week, weekday) && start <= minutes && minutes < end;
    }
    if start == end {
        return false;
    }
    let previous: u8 = if weekday == 0 {
        6
    } else {
        weekday - 1
    };
    (contains_day(&rule.days_of_week, weekday) && minutes >= start) || (contains_day(
        &rule.days_of_week,
        previous,
    ) && minutes < end)
}

pub open spec fn schedule_rule_matches(rule: ScheduleActivationRule, weekday: u8, minutes: u16) -> bool {
    rule.enabled && schedule_active(
        rule.days_of_week@,
        rule.start_local_time@,
        rule.end_local_time@,
        weekday,
        minutes,
    )
}

pub open spec fn quietest_schedule_mode(
    rules: Seq<ScheduleActivationRule>,
    weekday: u8,
    minutes: u16,
    n: int,
) -> Option<CompanionMode>
    decreases n,
{
    if n <= 0 {
        None
    } else {
        let prev = quietest_schedule_mode(rules, weekday, minutes, n - 1);
        if schedule_rule_matches(rules[n - 1], weekday, minutes) {
            quieter(prev, rules[n - 1].mode)
        } else {
            prev
        }
    }
}

pub open spec fn schedule_selection(settings: BehaviorSettings, input: ModeResolutionInput) -> Option<CompanionMode> {
    quietest_schedule_mode(
        settings.activation.schedules@,
        input.local_weekday,
        input.local_minutes,
        settings.activation.schedules@.len() as int,
    )
}

fn resolve_schedule(settings: &BehaviorSettings, input: &ModeResolutionInput) -> (r: Option<
    CompanionMode,
>)
    ensures
        r == schedule_selection(*settings, *input),
{
    let rules = &settings.activation.schedules;
    let mut acc: Option<CompanionMode> = None;
    let mut i: usize = 0;
    while i < rules.len()
        invariant
            i <= rules@.len(),
            acc == quietest_schedule_mode(rules@, input.local_weekday, input.local_minutes, i as int),
        decreases rules.len() - i,
    {
        if rules[i].enabled && schedule_is_active(&rules[i], input.local_weekday, input.local_minutes) {
            acc = match acc {
                None => Some(rules[i].mode),
                Some(a) => if mode_severity(rules[i].mode) >= mode_severity(a) {
                    Some(rules[i].mode)
                } else {
                    Some(a)
                },
            };
        }
        i = i + 1;
    }
    acc
}

// ---------------------------------------------------------------- resolution

pub open spec fn fullscreen_selects(settings: BehaviorSettings, input: ModeResolutionInput) -> bool {
    settings.activation.fullscreen.enabled && input.fullscreen == Some(true)
}

/// The selected mode and its source, with precedence manual, fullscreen,
/// app, schedule, default.
pub open spec fn mode_selection(settings: BehaviorSettings, input: ModeResolutionInput) -> (
    CompanionMode,
    ActiveModeSource,
) {
    match settings.manual_mode_override {
        Some(m) => (m, ActiveModeSource::Manual),
        None => if fullscreen_selects(settings, input) {
            (settings.activation.fullscreen.mode, ActiveModeSource::Fullscreen)
        } else {
            match app_selection(settings, input) {
                Some(m) => (m, ActiveModeSource::App),
                None => match schedule_selection(settings, input) {
                    Some(m) => (m, ActiveModeSource::Schedule),
                    None => (CompanionMode::Normal, ActiveModeSource::Default),
                },
            }
        },
    }
}

pub open spec fn profile_for(settings: BehaviorSettings, mode: CompanionMode) -> ModeProfile {
    match mode {
        CompanionMode::Normal => settings.profiles.normal,
        CompanionMode::Focus => settings.profiles.focus,
        CompanionMode::Night => settings.profiles.night,
    }
}

pub open spec fn resolved_spec(
    settings: BehaviorSettings,
    mode: CompanionMode,
    source: ActiveModeSource,
) -> ResolvedMode {
    ResolvedMode {
        active_mode: ActiveMode {
            schema_version: BEHAVIOR_SETTINGS_SCHEMA_VERSION,
            mode,
            source,
            manual_override: settings.manual_mode_override,
        },
        profile: profile_for(settings, mode),
    }
}

pub open spec fn input_valid(input: ModeResolutionInput) -> bool {
    input.local_weekday <= 6 && input.local_minutes <= 1439
}

pub open spec fn resolve_mode_spec(settings: BehaviorSettings, input: ModeResolutionInput) -> Result<
    ResolvedMode,
    ModeResolutionError,
> {
    if input.local_weekday > 6 {
        Err(ModeResolutionError::InvalidWeekday)
    } else if input.local_minutes > 1439 {
        Err(ModeResolutionError::InvalidLocalMinutes)
    } else {
        let sel = mode_selection(settings, input);
        Ok(resolved_spec(settings, sel.0, sel.1))
    }
}

fn validate_input(input: &ModeResolutionInput) -> (r: Result<(), ModeResolutionError>)
    ensures
        input.local_weekday > 6 ==> r == Err::<(), ModeResolutionError>(
            ModeResolutionError::InvalidWeekday,
        ),
        input.local_weekday <= 6 && input.local_minutes > 1439 ==> r == Err::<
            (),
            ModeResolutionError,
        >(ModeResolutionError::InvalidLocalMinutes),
        input_valid(*input) ==> r is Ok,
{
    if input.local_weekday > 6 {
        return Err(ModeResolutionError::InvalidWeekday);
    }
    if input.local_minutes > 1439 {
        return Err(ModeResolutionError::InvalidLocalMinutes);
    }
    Ok(())
}

fn resolved(settings: &BehaviorSettings, mode: CompanionMode, source: ActiveModeSource) -> (r:
    ResolvedMode)
    ensures
        r == resolved_spec(*settings, mode, source),
{
    let profile = match mode {
        CompanionMode::Normal => settings.profiles.normal,
        CompanionMode::Focus => settings.profiles.focus,
        CompanionMode::Night => settings.profiles.night,
    };
    ResolvedMode {
        active_mode: ActiveMode {
            schema_version: BEHAVIOR_SETTINGS_SCHEMA_VERSION,
            mode,
            source,
            manual_override: settings.manual_mode_override,
        },
        profile,
    }
}

/// Resolves the active profile with precedence manual, fullscreen, app,
/// schedule, default.
pub fn resolve_mode(settings: &BehaviorSettings, input: &ModeResolutionInput) -> (r: Result<
    ResolvedMode,
    ModeResolutionError,
>)
    ensures
        r == resolve_mode_spec(*settings, *input),
{
    validate_input(input)?;
    if let Some(mode) = settings.manual_mode_override {
        return Ok(resolved(settings, mode, ActiveModeSource::Manual));
    }
    if settings.activation.fullscreen.enabled && input.fullscreen == Some(true) {
        return Ok(resolved(settings, settings.activation.fullscreen.mode, ActiveModeSource::Fullscreen));
    }
    if let Some(mode) = resolve_app(settings, input) {
        return Ok(resolved(settings, mode, ActiveModeSource::App));
    }
    if let Some(mode) = resolve_schedule(settings, input) {
        return Ok(resolved(settings, mode, ActiveModeSource::Schedule));
    }
    Ok(resolved(settings, CompanionMode::Normal, ActiveModeSource::Default))
}


// ---------------------------------------------------------------- laws

proof fn lemma_quietest_app(rules: Seq<AppActivationRule>, fg: Seq<char>, n: int)
    requires
        0 <= n <= rules.len(),
    ensures
        quietest_app_mode(rules, fg, n) is None <==> forall|j: int|
            0 <= j < n ==> !app_rule_matches(#[trigger] rules[j], fg),
        quietest_app_mode(rules, fg, n) is Some ==> exists|j: int|
            0 <= j < n && app_rule_matches(#[trigger] rules[j], fg) && rules[j].mode
                == quietest_app_mode(rules, fg, n)->0,
        quietest_app_mode(rules, fg, n) is Some ==> forall|j: int|
            0 <= j < n && app_rule_matches(#[trigger] rules[j], fg) ==> severity(rules[j].mode)
                <= severity(quietest_app_mode(rules, fg, n)->0),
    decreases n,
{
    if n > 0 {
        lemma_quietest_app(rules, fg, n - 1);
    }
}

proof fn lemma_quietest_schedule(
    rules: Seq<ScheduleActivationRule>,
    weekday: u8,
    minutes: u16,
    n: int,
)
    requires
        0 <= n <= rules.len(),
    ensures
        quietest_schedule_mode(rules, weekday, minutes, n) is None <==> forall|j: int|
            0 <= j < n ==> !schedule_rule_matches(#[trigger] rules[j], weekday, minutes),
        quietest_schedule_mode(rules, weekday, minutes, n) is Some ==> exists|j: int|
            0 <= j < n && schedule_rule_matches(#[trigger] rules[j], weekday, minutes)
                && rules[j].mode == quietest_schedule_mode(rules, weekday, minutes, n)->0,
        quietest_schedule_mode(rules, weekday, minutes, n) is Some ==> forall|j: int|
            0 <= j < n && schedule_rule_matches(#[trigger] rules[j], weekday, minutes)
                ==> severity(rules[j].mode) <= severity(
                quietest_schedule_mode(rules, weekday, minutes, n)->0,
            ),
    decreases n,
{
    if n > 0 {
        lemma_quietest_schedule(rules, weekday, minutes, n - 1);
    }
}

/// Out-of-contract local context (weekday above six or minute above 1439)
/// is rejected, never resolved.
pub proof fn law_invalid_local_context_is_rejected(
    settings: BehaviorSettings,
    input: ModeResolutionInput,
)
    requires
        !input_valid(input),
    ensures
        resolve_mode_spec(settings, input) is Err,
{
}

/// A manual override wins over every contextual rule.
pub proof fn law_manual_override_wins(settings: BehaviorSettings, input: ModeResolutionInput)
    requires
        input_valid(input),
        settings.manual_mode_override is Some,
    ensures
        resolve_mode_spec(settings, input) == Ok::<ResolvedMode, ModeResolutionError>(
            resolved_spec(settings, settings.manual_mode_override->0, ActiveModeSource::Manual),
        ),
{
}

/// Without a manual override, an enabled fullscreen rule wins whenever the
/// foreground window is known to be fullscreen.
pub proof fn law_fullscreen_precedes_app_and_schedule(
    settings: BehaviorSettings,
    input: ModeResolutionInput,
)
    requires
        input_valid(input),
        settings.manual_mode_override is None,
        settings.activation.fullscreen.enabled,
        input.fullscreen == Some(true),
    ensures
        resolve_mode_spec(settings, input) == Ok::<ResolvedMode, ModeResolutionError>(
            resolved_spec(
                settings,
                settings.activation.fullscreen.mode,
                ActiveModeSource::Fullscreen,
            ),
        ),
{
}

/// The resolved profile is always the configured profile of the resolved mode.
pub proof fn law_profile_belongs_to_mode(settings: BehaviorSettings, input: ModeResolutionInput)
    requires
        resolve_mode_spec(settings, input) is Ok,
    ensures
        resolve_mode_spec(settings, input)->Ok_0.profile == profile_for(
            settings,
            resolve_mode_spec(settings, input)->Ok_0.active_mode.mode,
        ),
        resolve_mode_spec(settings, input)->Ok_0.active_mode.manual_override
            == settings.manual_mode_override,
{
}

/// When app rules decide, the chosen mode belongs to a matching enabled
/// rule and is at least as quiet as every other matching rule.
pub proof fn law_app_rules_choose_the_quietest_match(
    settings: BehaviorSettings,
    input: ModeResolutionInput,
    foreground: Seq<char>,
)
    requires
        input.foreground_app_id is Some,
        normalized_app_id(input.foreground_app_id->0@) == Some(foreground),
        app_selection(settings, input) is Some,
    ensures
        exists|j: int|
            0 <= j < settings.activation.apps@.len() && app_rule_matches(
                #[trigger] settings.activation.apps@[j],
                foreground,
            ) && settings.activation.apps@[j].mode == app_selection(settings, input)->0,
        forall|j: int|
            0 <= j < settings.activation.apps@.len() && app_rule_matches(
                #[trigger] settings.activation.apps@[j],
                foreground,
            ) ==> severity(settings.activation.apps@[j].mode) <= severity(
                app_selection(settings, input)->0,
            ),
{
    lemma_quietest_app(settings.activation.apps@, foreground, settings.activation.apps@.len() as int);
}

/// When schedules decide, the chosen mode belongs to an active enabled
/// schedule and is at least as quiet as every other active schedule.
pub proof fn law_schedules_choose_the_quietest_active(
    settings: BehaviorSettings,
    input: ModeResolutionInput,
)
    requires
        schedule_selection(settings, input) is Some,
    ensures
        exists|j: int|
            0 <= j < settings.activation.schedules@.len() && schedule_rule_matches(
                #[trigger] settings.activation.schedules@[j],
                input.local_weekday,
                input.local_minutes,
            ) && settings.activation.schedules@[j].mode == schedule_selection(settings, input)->0,
        forall|j: int|
            0 <= j < settings.activation.schedules@.len() && schedule_rule_matches(
                #[trigger] settings.activation.schedules@[j],
                input.local_weekday,
                input.local_minutes,
            ) ==> severity(settings.activation.schedules@[j].mode) <= severity(
                schedule_selection(settings, input)->0,
            ),
{
    lemma_quietest_schedule(
        settings.activation.schedules@,
        input.local_weekday,
        input.local_minutes,
        settings.activation.schedules@.len() as int,
    );
}

/// The default Normal mode is reported only when nothing else applies: no
/// override, no fullscreen rule, no matching app rule and no active schedule.
pub proof fn law_default_only_when_nothing_applies(
    settings: BehaviorSettings,
    input: ModeResolutionInput,
)
    requires
        resolve_mode_spec(settings, input) is Ok,
        resolve_mode_spec(settings, input)->Ok_0.active_mode.source == ActiveModeSource::Default,
    ensures
        resolve_mode_spec(settings, input)->Ok_0.active_mode.mode == CompanionMode::Normal,
        settings.manual_mode_override is None,
        !fullscreen_selects(settings, input),
        forall|fg: Seq<char>|
            input.foreground_app_id is Some && normalized_app_id(input.foreground_app_id->0@)
                == Some(fg) ==> forall|j: int|
                0 <= j < settings.activation.apps@.len() ==> !app_rule_matches(
                    #[trigger] settings.activation.apps@[j],
                    fg,
                ),
        forall|j: int|
            0 <= j < settings.activation.schedules@.len() ==> !schedule_rule_matches(
                #[trigger] settings.activation.schedules@[j],
                input.local_weekday,
                input.local_minutes,
            ),
{
    lemma_quietest_schedule(
        settings.activation.schedules@,
        input.local_weekday,
        input.local_minutes,
        settings.activation.schedules@.len() as int,
    );
    assert forall|fg: Seq<char>|
        input.foreground_app_id is Some && normalized_app_id(input.foreground_app_id->0@) == Some(
            fg,
        ) implies forall|j: int|
        0 <= j < settings.activation.apps@.len() ==> !app_rule_matches(
            #[trigger] settings.activation.apps@[j],
            fg,
        ) by {
        lemma_quietest_app(settings.activation.apps@, fg, settings.activation.apps@.len() as int);
    }
}

/// A schedule whose start equals its end is an empty window and never applies.
pub proof fn law_empty_schedule_window_never_applies(
    days: Seq<u8>,
    start_text: Seq<char>,
    end_text: Seq<char>,
    weekday: u8,
    minutes: u16,
)
    requires
        parse_local_time_spec(encode_utf8(start_text)) == parse_local_time_spec(
            encode_utf8(end_text),
        ),
    ensures
        !schedule_active(days, start_text, end_text, weekday, minutes),
{
}

/// An overnight window covers the late part of a listed day and the early
/// part of the day after it.
pub proof fn law_overnight_window_spans_midnight(
    days: Seq<u8>,
    start_text: Seq<char>,
    end_text: Seq<char>,
    day: u8,
)
    requires
        day <= 6,
        days.contains(day),
        parse_local_time_spec(encode_utf8(start_text)) is Some,
        parse_local_time_spec(encode_utf8(end_text)) is Some,
        parse_local_time_spec(encode_utf8(end_text))->0 > 0,
        parse_local_time_spec(encode_utf8(start_text))->0 > parse_local_time_spec(
            encode_utf8(end_text),
        )->0,
    ensures
        schedule_active(
            days,
            start_text,
            end_text,
            day,
            parse_local_time_spec(encode_utf8(start_text))->0,
        ),
        schedule_active(days, start_text, end_text, if day == 6 {
            0u8
        } else {
            (day + 1) as u8
        }, 0u16),
{
}

} // verus!
