//! Opt-in foreground activity collection core.
//!
//! The collector samples the foreground window only while consent and the
//! collection toggle allow it, extends a session while the same window stays
//! in front, and reports every failure as a stable health message after
//! forgetting continuity.

use vstd::prelude::*;

use crate::behavior::mode::{normalize_activity_app_id, normalized_app_id};
use crate::behavior::settings::{BehaviorSettings, ConsentState, ExclusionRule, BEHAVIOR_SETTINGS_SCHEMA_VERSION};
use crate::character::catalog::{ascii_lowercase, to_ascii_lowercase};
use crate::text::{chars_of, decimal_text, push_decimal, push_str, seq_join, str_equal, string_of};

verus! {

/// Version of the protected context payload stored with each session.
pub const ACTIVITY_SESSION_SCHEMA_VERSION: u16 = 1;
/// Two samples further apart than this never belong to one session.
pub const MAX_CONTIGUOUS_GAP_SECONDS: i64 = 10;
/// Retention cleanup runs at most once per day unless the setting changes.
pub const RETENTION_INTERVAL_SECONDS: i64 = 86_400;
pub const SECONDS_PER_DAY: i64 = 86_400;
pub const MAX_EXCLUSION_TITLE_CHARS: usize = 512;
pub const MAX_EXCLUSION_TITLE_PATTERN_CHARS: usize = 128;

pub const RETENTION_FAILURE_MESSAGE: &'static str = "activity retention failed";
pub const SETTINGS_UNAVAILABLE_MESSAGE: &'static str = "activity settings are unavailable";
pub const SETTINGS_INVALID_MESSAGE: &'static str = "activity settings are invalid";
pub const SOURCE_FAILED_MESSAGE: &'static str = "activity foreground sampling failed";
pub const PROTECTION_FAILED_MESSAGE: &'static str = "activity context protection failed";
pub const PERSISTENCE_FAILED_MESSAGE: &'static str = "activity persistence failed";
pub const INVALID_CLOCK_MESSAGE: &'static str = "activity clock is invalid";

// ---------------------------------------------------------------- data

/// What the platform reports about the foreground window.
#[derive(Debug)]
pub struct ForegroundSnapshot {
    pub app_id: String,
    pub title: String,
    pub idle_seconds: u32,
    pub fullscreen: Option<bool>,
}

#[derive(Debug, Clone, Copy, PartialEq, Eq, Structural)]
pub enum ActivityCollectionHealthStatus {
    Disabled,
    Healthy,
    Degraded,
}

#[derive(Debug)]
pub struct ActivityCollectionHealth {
    pub schema_version: u16,
    pub status: ActivityCollectionHealthStatus,
    pub last_activity_at: Option<i64>,
    pub message: Option<String>,
}

/// A health record as values: status, last activity and message.
pub open spec fn health_view(h: ActivityCollectionHealth) -> (ActivityCollectionHealthStatus, Option<i64>, Option<Seq<char>>) {
    (h.status, h.last_activity_at, match h.message {
        Some(m) => Some(m@),
        None => None,
    })
}

/// A session row to insert; the context is protected before it gets here.
#[derive(Debug)]
pub struct NewActivitySession {
    pub started_at: i64,
    pub ended_at: Option<i64>,
    pub duration_seconds: i64,
    pub category: String,
    pub payload_version: u16,
    pub protected_context: Vec<u8>,
}

/// Why the settings source produced no settings: they could not be read,
/// or what was read fails the settings' own validation.
#[derive(Debug, Clone, Copy, PartialEq, Eq, Structural)]
pub enum ActivitySettingsSourceError {
    Unavailable,
    Invalid,
}

pub open spec fn settings_failure_message(e: ActivitySettingsSourceError) -> Seq<char> {
    match e {
        ActivitySettingsSourceError::Unavailable => SETTINGS_UNAVAILABLE_MESSAGE@,
        ActivitySettingsSourceError::Invalid => SETTINGS_INVALID_MESSAGE@,
    }
}

#[derive(Debug, Clone, Copy, PartialEq, Eq, Structural)]
pub struct ActivityRepositoryError;

#[derive(Debug, Clone, Copy, PartialEq, Eq, Structural)]
pub struct ForegroundSourceError;

#[derive(Debug, Clone, Copy, PartialEq, Eq, Structural)]
pub struct ProtectionError;

#[derive(Debug, Clone, Copy, PartialEq, Eq, Structural)]
pub enum ActivityCollectorError {
    SettingsUnavailable,
    SourceUnavailable,
    ProtectionFailed,
    PersistenceFailed,
    InvalidClock,
    PayloadEncodingFailed,
}

impl ActivityCollectorError {
    pub fn message(&self) -> (m: &'static str)
        ensures
            m@ == match *self {
                ActivityCollectorError::SettingsUnavailable => SETTINGS_UNAVAILABLE_MESSAGE@,
                ActivityCollectorError::SourceUnavailable => SOURCE_FAILED_MESSAGE@,
                ActivityCollectorError::ProtectionFailed => PROTECTION_FAILED_MESSAGE@,
                ActivityCollectorError::PersistenceFailed => PERSISTENCE_FAILED_MESSAGE@,
                ActivityCollectorError::InvalidClock => INVALID_CLOCK_MESSAGE@,
                ActivityCollectorError::PayloadEncodingFailed => "activity payload encoding failed"@,
            },
    {
        match self {
            ActivityCollectorError::SettingsUnavailable => SETTINGS_UNAVAILABLE_MESSAGE,
            ActivityCollectorError::SourceUnavailable => SOURCE_FAILED_MESSAGE,
            ActivityCollectorError::ProtectionFailed => PROTECTION_FAILED_MESSAGE,
            ActivityCollectorError::PersistenceFailed => PERSISTENCE_FAILED_MESSAGE,
            ActivityCollectorError::InvalidClock => INVALID_CLOCK_MESSAGE,
            ActivityCollectorError::PayloadEncodingFailed => "activity payload encoding failed",
        }
    }
}

#[derive(Debug, Clone, Copy, PartialEq, Eq, Structural)]
pub enum ActivityCollectorStartError {
    Database,
    Worker,
}

impl ActivityCollectorStartError {
    pub fn message(&self) -> (m: &'static str)
        ensures
            m@ == match *self {
                ActivityCollectorStartError::Database => "activity database could not be opened"@,
                ActivityCollectorStartError::Worker => "activity collector worker could not be started"@,
            },
    {
        match self {
            ActivityCollectorStartError::Database => "activity database could not be opened",
            ActivityCollectorStartError::Worker => "activity collector worker could not be started",
        }
    }
}

// ---------------------------------------------------------------- ports

/// Where the collector reads the latest behavior settings; a source reports
/// settings that fail validation as `Invalid`.
pub trait ActivitySettingsSource {
    fn load(&mut self) -> Result<BehaviorSettings, ActivitySettingsSourceError>;
}

/// Persistence of protected activity sessions.
pub trait ActivityRepository {
    fn insert_session(&mut self, session: &NewActivitySession) -> Result<i64, ActivityRepositoryError>;

    fn update_session(&mut self, id: i64, ended_at: Option<i64>, duration_seconds: i64) -> Result<
        bool,
        ActivityRepositoryError,
    >;

    /// Deletes sessions strictly older than `cutoff`.
    fn delete_sessions_before(&mut self, cutoff: i64) -> Result<usize, ActivityRepositoryError>;
}

pub trait ActivityClock {
    fn now_unix_seconds(&self) -> i64;
}

/// The platform's view of the foreground window; `None` when nothing is in
/// front.
pub trait ForegroundContextSource {
    fn snapshot(&mut self) -> Result<Option<ForegroundSnapshot>, ForegroundSourceError>;
}

/// Encrypts context before it reaches storage.
pub trait DataProtector {
    fn protect(&self, plaintext: &[u8]) -> Result<Vec<u8>, ProtectionError>;
}

// ---------------------------------------------------------------- policy

pub open spec fn gate_open_spec(settings: BehaviorSettings) -> bool {
    settings.consent == ConsentState::Accepted && settings.consent_version == 1
        && settings.collection_enabled
}

/// Collection runs only with accepted consent of the current version and
/// the collection toggle on.
pub fn collection_gate_open(settings: &BehaviorSettings) -> (r: bool)
    ensures
        r == gate_open_spec(*settings),
{
    settings.consent == ConsentState::Accepted && settings.consent_version == 1
        && settings.collection_enabled
}

pub open spec fn app_category(app_id: Seq<char>) -> Seq<char> {
    let a = ascii_lowercase(app_id);
    if a == "code.exe"@ || a == "devenv.exe"@ || a == "idea64.exe"@ || a == "rider64.exe"@ || a
        == "terminal.exe"@ || a == "windowsterminal.exe"@ {
        "development"@
    } else if a == "chrome.exe"@ || a == "firefox.exe"@ || a == "msedge.exe"@ || a == "opera.exe"@
        || a == "brave.exe"@ {
        "browser"@
    } else if a == "discord.exe"@ || a == "slack.exe"@ || a == "teams.exe"@ || a == "zoom.exe"@ {
        "communication"@
    } else if a == "blender.exe"@ || a == "photoshop.exe"@ || a == "illustrator.exe"@ || a
        == "krita.exe"@ {
        "creative"@
    } else {
        "other"@
    }
}

fn is_one_of(v: &str, options: &Vec<&'static str>) -> (r: bool)
    ensures
        r == exists|i: int| 0 <= i < options@.len() && options@[i]@ == v@,
{
    let mut i: usize = 0;
    while i < options.len()
        invariant
            i <= options@.len(),
            forall|j: int| 0 <= j < i ==> options@[j]@ != v@,
        decreases options.len() - i,
    {
        if str_equal(options[i], v) {
            return true;
        }
        i = i + 1;
    }
    false
}

/// The coarse category of a foreground application, by executable name
/// compared case-insensitively (ASCII).
pub fn classify_app(app_id: &str) -> (r: &'static str)
    ensures
        r@ == app_category(app_id@),
{
    let lower = string_of(to_ascii_lowercase(app_id).as_slice());
    let a = lower.as_str();
    let development = vec![
        "code.exe",
        "devenv.exe",
        "idea64.exe",
        "rider64.exe",
        "terminal.exe",
        "windowsterminal.exe",
    ];
    let browser = vec!["chrome.exe", "firefox.exe", "msedge.exe", "opera.exe", "brave.exe"];
    let communication = vec!["discord.exe", "slack.exe", "teams.exe", "zoom.exe"];
    let creative = vec!["blender.exe", "photoshop.exe", "illustrator.exe", "krita.exe"];
    let ghost s = ascii_lowercase(app_id@);
    assert(a@ == s);
    if is_one_of(a, &development) {
        proof {
            let i = choose|i: int| 0 <= i < development@.len() && development@[i]@ == a@;
            assert(0 <= i < 6);
        }
        "development"
    } else if is_one_of(a, &browser) {
        proof {
            assert(development@[0]@ != s && development@[1]@ != s && development@[2]@ != s
                && development@[3]@ != s && development@[4]@ != s && development@[5]@ != s);
        }
        "browser"
    } else if is_one_of(a, &communication) {
        proof {
            assert(development@[0]@ != s && development@[1]@ != s && development@[2]@ != s
                && development@[3]@ != s && development@[4]@ != s && development@[5]@ != s);
            assert(browser@[0]@ != s && browser@[1]@ != s && browser@[2]@ != s && browser@[3]@ != s
                && browser@[4]@ != s);
        }
        "communication"
    } else if is_one_of(a, &creative) {
        proof {
            assert(development@[0]@ != s && development@[1]@ != s && development@[2]@ != s
                && development@[3]@ != s && development@[4]@ != s && development@[5]@ != s);
            assert(browser@[0]@ != s && browser@[1]@ != s && browser@[2]@ != s && browser@[3]@ != s
                && browser@[4]@ != s);
            assert(communication@[0]@ != s && communication@[1]@ != s && communication@[2]@ != s
                && communication@[3]@ != s);
        }
        "creative"
    } else {
        proof {
            assert(development@[0]@ != s && development@[1]@ != s && development@[2]@ != s
                && development@[3]@ != s && development@[4]@ != s && development@[5]@ != s);
            assert(browser@[0]@ != s && browser@[1]@ != s && browser@[2]@ != s && browser@[3]@ != s
                && browser@[4]@ != s);
            assert(communication@[0]@ != s && communication@[1]@ != s && communication@[2]@ != s
                && communication@[3]@ != s);
            assert(creative@[0]@ != s && creative@[1]@ != s && creative@[2]@ != s && creative@[3]@
                != s);
        }
        "other"
    }
}


// ---------------------------------------------------------------- exclusions

/// The lowercase mapping that std's `char::to_lowercase` yields for `c`.
pub uninterp spec fn char_lowercase_of(c: char) -> Seq<char>;

/// Calls std's `char::to_lowercase`. Claimed: the characters yielded are the
/// named Unicode lowercase mapping of `c`, a function of `c` alone.
#[verifier::external_body]
fn char_lowercase(c: char) -> (r: Vec<char>)
    ensures
        r@ == char_lowercase_of(c),
{
    c.to_lowercase().collect()
}

/// Unicode lowercase of a whole string, character by character.
pub open spec fn unicode_lowercase(s: Seq<char>) -> Seq<char>
    decreases s.len(),
{
    if s.len() == 0 {
        Seq::empty()
    } else {
        unicode_lowercase(s.drop_last()) + char_lowercase_of(s.last())
    }
}

/// Lowercases `value` when it holds at most `max_chars` characters.
pub fn bounded_unicode_lowercase(value: &str, max_chars: usize) -> (r: Option<Vec<char>>)
    ensures
        r is Some <==> value@.len() <= max_chars,
        r is Some ==> r->0@ == unicode_lowercase(value@),
{
    let chars = chars_of(value);
    if chars.len() > max_chars {
        return None;
    }
    let mut out: Vec<char> = Vec::new();
    let mut i: usize = 0;
    while i < chars.len()
        invariant
            i <= chars@.len(),
            chars@ == value@,
            out@ == unicode_lowercase(chars@.take(i as int)),
        decreases chars.len() - i,
    {
        let lower = char_lowercase(chars[i]);
        crate::text::push_chars(&mut out, &lower);
        assert(chars@.take(i as int + 1).drop_last() =~= chars@.take(i as int));
        i = i + 1;
    }
    assert(chars@.take(chars@.len() as int) =~= chars@);
    Some(out)
}

/// `needle` occurs in `hay` as a contiguous run; the empty needle occurs
/// everywhere.
pub open spec fn occurs_in(hay: Seq<char>, needle: Seq<char>) -> bool {
    exists|i: int| 0 <= i && i + needle.len() <= hay.len() && #[trigger] hay.subrange(i, i + needle.len()) == needle
}

fn occurs_at(hay: &Vec<char>, needle: &Vec<char>, at: usize) -> (r: bool)
    requires
        at + needle@.len() <= hay@.len(),
    ensures
        r == (hay@.subrange(at as int, at + needle@.len()) == needle@),
{
    let mut j: usize = 0;
    while j < needle.len()
        invariant
            j <= needle@.len(),
            at + needle.len() <= hay.len(),
            forall|k: int| 0 <= k < j ==> hay@[at + k] == needle@[k],
        decreases needle.len() - j,
    {
        if hay[at + j] != needle[j] {
            assert(hay@.subrange(at as int, at + needle@.len())[j as int] != needle@[j as int]);
            return false;
        }
        j = j + 1;
    }
    assert(hay@.subrange(at as int, at + needle@.len()) =~= needle@);
    true
}

/// Substring search over scalar values.
pub fn contains_run(hay: &Vec<char>, needle: &Vec<char>) -> (r: bool)
    ensures
        r == occurs_in(hay@, needle@),
{
    if needle.len() > hay.len() {
        return false;
    }
    let last = hay.len() - needle.len();
    let mut i: usize = 0;
    loop
        invariant
            last + needle@.len() == hay@.len(),
            i <= last,
            forall|k: int| 0 <= k < i ==> #[trigger] hay@.subrange(k, k + needle@.len()) != needle@,
        decreases last - i,
    {
        if occurs_at(hay, needle, i) {
            return true;
        }
        if i == last {
            assert(forall|k: int| 0 <= k <= last ==> #[trigger] hay@.subrange(k, k + needle@.len()) != needle@);
            return false;
        }
        i = i + 1;
    }
}

pub open spec fn literal_match_spec(value: Seq<char>, selector: Seq<char>, max_value_chars: nat, max_selector_chars: nat) -> Option<bool> {
    if value.len() <= max_value_chars && selector.len() <= max_selector_chars {
        Some(occurs_in(unicode_lowercase(value), unicode_lowercase(selector)))
    } else {
        None
    }
}

/// Case-insensitive literal containment of `selector` in `value`; `None`
/// when either is longer than its bound.
pub fn bounded_unicode_literal_match(value: &str, selector: &str, max_value_chars: usize, max_selector_chars: usize) -> (r: Option<bool>)
    ensures
        r == literal_match_spec(value@, selector@, max_value_chars as nat, max_selector_chars as nat),
{
    let value = match bounded_unicode_lowercase(value, max_value_chars) {
        Some(v) => v,
        None => return None,
    };
    let selector = match bounded_unicode_lowercase(selector, max_selector_chars) {
        Some(v) => v,
        None => return None,
    };
    Some(contains_run(&value, &selector))
}

pub open spec fn app_selector_matches(rule: ExclusionRule, app_id: Seq<char>) -> bool {
    match rule.app_id {
        None => true,
        Some(selector) => match (normalized_app_id(app_id), normalized_app_id(selector@)) {
            (Some(value), Some(normalized)) => value == normalized,
            _ => true,
        },
    }
}

pub open spec fn title_selector_matches(rule: ExclusionRule, title: Seq<char>) -> bool {
    match rule.title_pattern {
        None => true,
        Some(pattern) => match literal_match_spec(
            title,
            pattern@,
            MAX_EXCLUSION_TITLE_CHARS as nat,
            MAX_EXCLUSION_TITLE_PATTERN_CHARS as nat,
        ) {
            Some(b) => b,
            None => true,
        },
    }
}

/// A rule excludes a snapshot when both of its selectors match; an absent,
/// blank or oversized selector matches everything, so a doubtful rule
/// excludes rather than records.
pub open spec fn rule_excludes(rule: ExclusionRule, app_id: Seq<char>, title: Seq<char>) -> bool {
    app_selector_matches(rule, app_id) && title_selector_matches(rule, title)
}

pub open spec fn excluded_spec(exclusions: Seq<ExclusionRule>, app_id: Seq<char>, title: Seq<char>) -> bool {
    exists|i: int| 0 <= i < exclusions.len() && rule_excludes(#[trigger] exclusions[i], app_id, title)
}

fn app_selector_matches_exec(rule: &ExclusionRule, app_id: &str) -> (r: bool)
    ensures
        r == app_selector_matches(*rule, app_id@),
{
    match &rule.app_id {
        None => true,
        Some(selector) => {
            match (normalize_activity_app_id(app_id), normalize_activity_app_id(selector.as_str())) {
                (Some(value), Some(normalized)) => {
                    let a = string_of(value.as_slice());
                    let b = string_of(normalized.as_slice());
                    str_equal(a.as_str(), b.as_str())
                },
                _ => true,
            }
        },
    }
}

fn title_selector_matches_exec(rule: &ExclusionRule, title: &str) -> (r: bool)
    ensures
        r == title_selector_matches(*rule, title@),
{
    match &rule.title_pattern {
        None => true,
        Some(pattern) => {
            match bounded_unicode_literal_match(
                title,
                pattern.as_str(),
                MAX_EXCLUSION_TITLE_CHARS,
                MAX_EXCLUSION_TITLE_PATTERN_CHARS,
            ) {
                Some(b) => b,
                None => true,
            }
        },
    }
}

/// Whether any exclusion rule covers the foreground snapshot.
pub fn is_excluded(snapshot: &ForegroundSnapshot, exclusions: &Vec<ExclusionRule>) -> (r: bool)
    ensures
        r == excluded_spec(exclusions@, snapshot.app_id@, snapshot.title@),
{
    let mut i: usize = 0;
    while i < exclusions.len()
        invariant
            i <= exclusions@.len(),
            forall|k: int| 0 <= k < i ==> !rule_excludes(#[trigger] exclusions@[k], snapshot.app_id@, snapshot.title@),
        decreases exclusions.len() - i,
    {
        let rule = &exclusions[i];
        if app_selector_matches_exec(rule, snapshot.app_id.as_str()) && title_selector_matches_exec(
            rule,
            snapshot.title.as_str(),
        ) {
            return true;
        }
        i = i + 1;
    }
    false
}


// ---------------------------------------------------------------- payload

/// A byte string as a JSON array of decimal numbers.
pub open spec fn json_byte_array(bytes: Seq<u8>) -> Seq<char> {
    "["@ + seq_join(bytes.map_values(|b: u8| decimal_text(b as nat)), ","@) + "]"@
}

pub open spec fn json_optional_bool(value: Option<bool>) -> Seq<char> {
    match value {
        None => "null"@,
        Some(true) => "true"@,
        Some(false) => "false"@,
    }
}

/// The protected context record as compact JSON, fields in declaration
/// order.
pub open spec fn protected_context_json(
    version: u16,
    protected_app_id: Seq<u8>,
    protected_title: Seq<u8>,
    idle_seconds: u32,
    fullscreen: Option<bool>,
) -> Seq<char> {
    "{\"version\":"@ + decimal_text(version as nat) + ",\"protected_app_id\":"@ + json_byte_array(
        protected_app_id,
    ) + ",\"protected_title\":"@ + json_byte_array(protected_title) + ",\"idle_seconds\":"@
        + decimal_text(idle_seconds as nat) + ",\"fullscreen\":"@ + json_optional_bool(fullscreen)
        + "}"@
}

/// Bytes of text whose characters are all ASCII.
pub open spec fn ascii_bytes(text: Seq<char>) -> Seq<u8> {
    text.map_values(|c: char| c as u8)
}

fn push_byte_array(out: &mut Vec<char>, bytes: &[u8])
    ensures
        final(out)@ == old(out)@ + json_byte_array(bytes@),
{
    let ghost start = out@;
    let ghost items = bytes@.map_values(|b: u8| decimal_text(b as nat));
    push_str(out, "[");
    let mut i: usize = 0;
    while i < bytes.len()
        invariant
            i <= bytes@.len(),
            items == bytes@.map_values(|b: u8| decimal_text(b as nat)),
            out@ == start + "["@ + seq_join(items.take(i as int), ","@),
        decreases bytes.len() - i,
    {
        let ghost prefix = items.take(i as int + 1);
        assert(prefix.drop_last() =~= items.take(i as int));
        assert(prefix.last() == decimal_text(bytes@[i as int] as nat));
        if i != 0 {
            push_str(out, ",");
        } else {
            assert(prefix.len() == 1);
        }
        push_decimal(out, bytes[i] as u64);
        assert(out@ =~= start + "["@ + seq_join(prefix, ","@));
        i = i + 1;
    }
    assert(items.take(bytes@.len() as int) =~= items);
    push_str(out, "]");
    assert(out@ =~= start + json_byte_array(bytes@));
}

/// Encodes the protected context stored with a session.
pub fn encode_protected_context(
    version: u16,
    protected_app_id: &[u8],
    protected_title: &[u8],
    idle_seconds: u32,
    fullscreen: Option<bool>,
) -> (r: Vec<u8>)
    ensures
        r@ == ascii_bytes(
            protected_context_json(
                version,
                protected_app_id@,
                protected_title@,
                idle_seconds,
                fullscreen,
            ),
        ),
{
    let mut text: Vec<char> = Vec::new();
    push_str(&mut text, "{\"version\":");
    push_decimal(&mut text, version as u64);
    push_str(&mut text, ",\"protected_app_id\":");
    push_byte_array(&mut text, protected_app_id);
    push_str(&mut text, ",\"protected_title\":");
    push_byte_array(&mut text, protected_title);
    push_str(&mut text, ",\"idle_seconds\":");
    push_decimal(&mut text, idle_seconds as u64);
    push_str(&mut text, ",\"fullscreen\":");
    match fullscreen {
        None => push_str(&mut text, "null"),
        Some(true) => push_str(&mut text, "true"),
        Some(false) => push_str(&mut text, "false"),
    }
    push_str(&mut text, "}");
    assert(text@ =~= protected_context_json(
        version,
        protected_app_id@,
        protected_title@,
        idle_seconds,
        fullscreen,
    ));
    let mut out: Vec<u8> = Vec::new();
    let mut i: usize = 0;
    while i < text.len()
        invariant
            i <= text@.len(),
            out@ == ascii_bytes(text@.take(i as int)),
        decreases text.len() - i,
    {
        out.push(text[i] as u8);
        assert(ascii_bytes(text@.take(i as int + 1)) =~= ascii_bytes(text@.take(i as int)).push(
            text@[i as int] as u8,
        ));
        i = i + 1;
    }
    assert(text@.take(text@.len() as int) =~= text@);
    out
}


// ---------------------------------------------------------------- health

pub open spec fn disabled_health_view() -> (ActivityCollectionHealthStatus, Option<i64>, Option<Seq<char>>) {
    (ActivityCollectionHealthStatus::Disabled, None, None)
}

/// The health reported while collection is off.
pub fn disabled_health() -> (h: ActivityCollectionHealth)
    ensures
        health_view(h) == disabled_health_view(),
        h.schema_version == BEHAVIOR_SETTINGS_SCHEMA_VERSION,
{
    ActivityCollectionHealth {
        schema_version: BEHAVIOR_SETTINGS_SCHEMA_VERSION,
        status: ActivityCollectionHealthStatus::Disabled,
        last_activity_at: None,
        message: None,
    }
}

fn copy_health(h: &ActivityCollectionHealth) -> (r: ActivityCollectionHealth)
    ensures
        health_view(r) == health_view(*h),
        r.schema_version == h.schema_version,
{
    ActivityCollectionHealth {
        schema_version: h.schema_version,
        status: h.status,
        last_activity_at: h.last_activity_at,
        message: match &h.message {
            Some(m) => Some(string_of(chars_of(m.as_str()).as_slice())),
            None => None,
        },
    }
}

/// A degraded message: while retention is failing, every other failure is
/// reported after the retention failure.
pub open spec fn degraded_message(retention_degraded: bool, message: Seq<char>) -> Seq<char> {
    if retention_degraded && message != RETENTION_FAILURE_MESSAGE@ {
        RETENTION_FAILURE_MESSAGE@ + "; "@ + message
    } else {
        message
    }
}

/// The session the collector is currently extending, as values.
pub struct SessionView {
    pub id: i64,
    pub started_at: i64,
    pub last_sample_at: i64,
    pub app_id: Seq<char>,
    pub title: Seq<char>,
    pub category: Seq<char>,
}

#[derive(Debug)]
struct LastSession {
    id: i64,
    started_at: i64,
    last_sample_at: i64,
    app_id: String,
    title: String,
    category: String,
}

pub open spec fn session_contiguous(last: SessionView, now: i64) -> bool {
    !(now < last.last_sample_at || now - last.last_sample_at > MAX_CONTIGUOUS_GAP_SECONDS)
}

/// A sample of the window `next` at `now` continues the tracked session
/// when that session was sampled at most the contiguity gap before, for the
/// same application, title and category.
pub open spec fn continues_session(last: Option<SessionView>, next: SessionView, now: i64) -> bool {
    last matches Some(l) && session_contiguous(l, now) && l.app_id == next.app_id && l.title == next.title
        && l.category == next.category
}

/// Retention cleanup is due when it never ran, the clock went back, a day
/// passed, or the retention setting changed.
pub open spec fn retention_due_spec(last_at: Option<i64>, last_days: Option<u16>, now: i64, days: u16) -> bool {
    let stale = match last_at {
        None => true,
        Some(last) => now < last || now - last >= RETENTION_INTERVAL_SECONDS,
    };
    stale || last_days != Some(days)
}

pub open spec fn retention_cutoff_spec(now: i64, days: u16) -> i64 {
    let c = now - days * SECONDS_PER_DAY;
    if c < 0 {
        0
    } else {
        c as i64
    }
}

/// The cutoff below which sessions are deleted: `days` before `now`, never
/// before the epoch.
pub fn retention_cutoff(now: i64, days: u16) -> (r: i64)
    requires
        now >= 0,
    ensures
        r == retention_cutoff_spec(now, days),
{
    let span: i64 = (days as i64) * SECONDS_PER_DAY;
    let c = now - span;
    if c < 0 {
        0
    } else {
        c
    }
}

/// The health reported after a successful step: healthy with the given
/// last activity, unless retention is failing, which keeps the retention
/// failure and the previous last activity when there is no new one.
pub open spec fn healthy_view(
    retention_degraded: bool,
    previous_last: Option<i64>,
    last_activity_at: Option<i64>,
) -> (ActivityCollectionHealthStatus, Option<i64>, Option<Seq<char>>) {
    if retention_degraded {
        (
            ActivityCollectionHealthStatus::Degraded,
            match last_activity_at {
                Some(t) => Some(t),
                None => previous_last,
            },
            Some(RETENTION_FAILURE_MESSAGE@),
        )
    } else {
        (ActivityCollectionHealthStatus::Healthy, last_activity_at, None)
    }
}

/// The row inserted for a new session sampled at `now`: it starts and ends
/// at `now`, lasts zero seconds, and carries the app's category and the
/// protected context.
pub fn new_session_record(category: &str, payload: Vec<u8>, now: i64) -> (s: NewActivitySession)
    ensures
        s.started_at == now,
        s.ended_at == Some(now),
        s.duration_seconds == 0,
        s.category@ == category@,
        s.payload_version == ACTIVITY_SESSION_SCHEMA_VERSION,
        s.protected_context@ == payload@,
{
    NewActivitySession {
        started_at: now,
        ended_at: Some(now),
        duration_seconds: 0,
        category: string_of(chars_of(category).as_slice()),
        payload_version: ACTIVITY_SESSION_SCHEMA_VERSION,
        protected_context: payload,
    }
}

/// Samples the foreground window into protected, contiguous sessions.
#[derive(Debug)]
pub struct ActivityCollector<S, F, P, R, C> {
    settings: S,
    source: F,
    protector: P,
    repository: R,
    clock: C,
    last_session: Option<LastSession>,
    last_retention_at: Option<i64>,
    last_retention_days: Option<u16>,
    retention_degraded: bool,
    health: ActivityCollectionHealth,
}

impl<S, F, P, R, C> ActivityCollector<S, F, P, R, C> where
    S: ActivitySettingsSource,
    F: ForegroundContextSource,
    P: DataProtector,
    R: ActivityRepository,
    C: ActivityClock,
 {
    pub closed spec fn session(&self) -> Option<SessionView> {
        match self.last_session {
            Some(l) => Some(
                SessionView {
                    id: l.id,
                    started_at: l.started_at,
                    last_sample_at: l.last_sample_at,
                    app_id: l.app_id@,
                    title: l.title@,
                    category: l.category@,
                },
            ),
            None => None,
        }
    }

    pub closed spec fn health_spec(&self) -> (ActivityCollectionHealthStatus, Option<i64>, Option<Seq<char>>) {
        health_view(self.health)
    }

    pub closed spec fn retention_degraded_spec(&self) -> bool {
        self.retention_degraded
    }

    pub closed spec fn last_retention_at_spec(&self) -> Option<i64> {
        self.last_retention_at
    }

    pub closed spec fn last_retention_days_spec(&self) -> Option<u16> {
        self.last_retention_days
    }

    /// A tracked session started no later than its last sample, after the
    /// epoch, and the reported health says when it was last sampled.
    pub closed spec fn wf(&self) -> bool {
        match self.session() {
            Some(l) => 0 <= l.started_at <= l.last_sample_at,
            None => true,
        }
    }

    pub fn new(settings: S, source: F, protector: P, repository: R, clock: C) -> (c: Self)
        ensures
            c.wf(),
            c.session() is None,
            c.health_spec() == disabled_health_view(),
            c.last_retention_at_spec() is None,
            c.last_retention_days_spec() is None,
            !c.retention_degraded_spec(),
    {
        ActivityCollector {
            settings,
            source,
            protector,
            repository,
            clock,
            last_session: None,
            last_retention_at: None,
            last_retention_days: None,
            retention_degraded: false,
            health: disabled_health(),
        }
    }

    /// The latest health record.
    pub fn health(&self) -> (h: ActivityCollectionHealth)
        ensures
            health_view(h) == self.health_spec(),
    {
        copy_health(&self.health)
    }

    fn set_healthy(&mut self, last_activity_at: Option<i64>)
        ensures
            final(self).health_spec() == if old(self).retention_degraded {
                (
                    ActivityCollectionHealthStatus::Degraded,
                    match last_activity_at {
                        Some(t) => Some(t),
                        None => old(self).health_spec().1,
                    },
                    Some(RETENTION_FAILURE_MESSAGE@),
                )
            } else {
                (ActivityCollectionHealthStatus::Healthy, last_activity_at, None)
            },
            final(self).session() == old(self).session(),
            final(self).retention_degraded == old(self).retention_degraded,
            final(self).last_retention_at == old(self).last_retention_at,
            final(self).last_retention_days == old(self).last_retention_days,
    {
        if self.retention_degraded {
            let previous = self.health.last_activity_at;
            self.health = ActivityCollectionHealth {
                schema_version: BEHAVIOR_SETTINGS_SCHEMA_VERSION,
                status: ActivityCollectionHealthStatus::Degraded,
                last_activity_at: match last_activity_at {
                    Some(t) => Some(t),
                    None => previous,
                },
                message: Some(string_of(chars_of(RETENTION_FAILURE_MESSAGE).as_slice())),
            };
            return;
        }
        self.health = ActivityCollectionHealth {
            schema_version: BEHAVIOR_SETTINGS_SCHEMA_VERSION,
            status: ActivityCollectionHealthStatus::Healthy,
            last_activity_at,
            message: None,
        };
    }

    fn set_degraded(&mut self, message: &str)
        ensures
            final(self).health_spec() == (
                ActivityCollectionHealthStatus::Degraded,
                old(self).health_spec().1,
                Some(degraded_message(old(self).retention_degraded, message@)),
            ),
            final(self).session() == old(self).session(),
            final(self).retention_degraded == old(self).retention_degraded,
            final(self).last_retention_at == old(self).last_retention_at,
            final(self).last_retention_days == old(self).last_retention_days,
    {
        let last_activity_at = self.health.last_activity_at;
        let text = if self.retention_degraded && !str_equal(message, RETENTION_FAILURE_MESSAGE) {
            let mut v = chars_of(RETENTION_FAILURE_MESSAGE);
            push_str(&mut v, "; ");
            push_str(&mut v, message);
            string_of(v.as_slice())
        } else {
            string_of(chars_of(message).as_slice())
        };
        self.health = ActivityCollectionHealth {
            schema_version: BEHAVIOR_SETTINGS_SCHEMA_VERSION,
            status: ActivityCollectionHealthStatus::Degraded,
            last_activity_at,
            message: Some(text),
        };
    }

    fn set_disabled(&mut self)
        ensures
            final(self).health_spec() == if old(self).retention_degraded {
                (
                    ActivityCollectionHealthStatus::Degraded,
                    old(self).health_spec().1,
                    Some(RETENTION_FAILURE_MESSAGE@),
                )
            } else {
                disabled_health_view()
            },
            final(self).session() == old(self).session(),
            final(self).retention_degraded == old(self).retention_degraded,
            final(self).last_retention_at == old(self).last_retention_at,
            final(self).last_retention_days == old(self).last_retention_days,
    {
        if self.retention_degraded {
            self.set_degraded(RETENTION_FAILURE_MESSAGE);
        } else {
            self.health = disabled_health();
        }
    }

    fn forget_and_degrade(&mut self, message: &str)
        ensures
            final(self).health_spec() == (
                ActivityCollectionHealthStatus::Degraded,
                old(self).health_spec().1,
                Some(degraded_message(old(self).retention_degraded, message@)),
            ),
            final(self).session() is None,
            final(self).retention_degraded == old(self).retention_degraded,
            final(self).last_retention_at == old(self).last_retention_at,
            final(self).last_retention_days == old(self).last_retention_days,
    {
        self.last_session = None;
        self.set_degraded(message);
    }

    fn forget_discontinuous(&mut self, now: i64)
        ensures
            final(self).session() == match old(self).session() {
                Some(l) => if session_contiguous(l, now) {
                    Some(l)
                } else {
                    None
                },
                None => None,
            },
            final(self).health == old(self).health,
            final(self).retention_degraded == old(self).retention_degraded,
            final(self).last_retention_at == old(self).last_retention_at,
            final(self).last_retention_days == old(self).last_retention_days,
    {
        let drop = match &self.last_session {
            Some(last) => now < last.last_sample_at || (now as i128) - (last.last_sample_at as i128)
                > (MAX_CONTIGUOUS_GAP_SECONDS as i128),
            None => false,
        };
        if drop {
            self.last_session = None;
        }
    }

    fn run_retention_if_due(&mut self, now: i64, retention_days: u16)
        requires
            now >= 0,
        ensures
            final(self).session() == old(self).session(),
            !retention_due_spec(old(self).last_retention_at, old(self).last_retention_days, now, retention_days)
                ==> final(self).health == old(self).health && final(self).retention_degraded
                == old(self).retention_degraded && final(self).last_retention_at
                == old(self).last_retention_at && final(self).last_retention_days
                == old(self).last_retention_days,
            retention_due_spec(old(self).last_retention_at, old(self).last_retention_days, now, retention_days)
                ==> {
                ||| (final(self).last_retention_at == Some(now) && final(self).last_retention_days
                    == Some(retention_days) && !final(self).retention_degraded && final(self).health
                    == old(self).health)
                ||| (final(self).retention_degraded && final(self).last_retention_at
                    == old(self).last_retention_at && final(self).last_retention_days
                    == old(self).last_retention_days && final(self).health_spec() == (
                    ActivityCollectionHealthStatus::Degraded,
                    old(self).health_spec().1,
                    Some(RETENTION_FAILURE_MESSAGE@),
                ))
            },
    {
        let stale = match self.last_retention_at {
            None => true,
            Some(last) => now < last || (now as i128) - (last as i128) >= (RETENTION_INTERVAL_SECONDS as i128),
        };
        let same_days = match self.last_retention_days {
            Some(d) => d == retention_days,
            None => false,
        };
        if !(stale || !same_days) {
            return;
        }
        let cutoff = retention_cutoff(now, retention_days);
        if self.repository.delete_sessions_before(cutoff).is_err() {
            self.retention_degraded = true;
            self.set_degraded(RETENTION_FAILURE_MESSAGE);
            return;
        }
        self.last_retention_at = Some(now);
        self.last_retention_days = Some(retention_days);
        self.retention_degraded = false;
    }

    /// Takes what the foreground source reported: a failure forgets the
    /// session and degrades; no window, or an excluded one, forgets the
    /// session and reports healthy without activity; any other window is
    /// passed on with nothing changed.
    pub fn settle_snapshot(
        &mut self,
        sampled: Result<Option<ForegroundSnapshot>, ForegroundSourceError>,
        settings: &BehaviorSettings,
    ) -> (r: Result<Option<ForegroundSnapshot>, ActivityCollectorError>)
        requires
            old(self).wf(),
        ensures
            final(self).wf(),
            final(self).retention_degraded_spec() == old(self).retention_degraded_spec(),
            final(self).last_retention_at_spec() == old(self).last_retention_at_spec(),
            final(self).last_retention_days_spec() == old(self).last_retention_days_spec(),
            match sampled {
                Err(_) => r == Err::<Option<ForegroundSnapshot>, ActivityCollectorError>(
                    ActivityCollectorError::SourceUnavailable,
                ) && final(self).session() is None && final(self).health_spec() == (
                    ActivityCollectionHealthStatus::Degraded,
                    old(self).health_spec().1,
                    Some(degraded_message(old(self).retention_degraded_spec(), SOURCE_FAILED_MESSAGE@)),
                ),
                Ok(None) => r == Ok::<Option<ForegroundSnapshot>, ActivityCollectorError>(None)
                    && final(self).session() is None && final(self).health_spec() == healthy_view(
                    old(self).retention_degraded_spec(),
                    old(self).health_spec().1,
                    None,
                ),
                Ok(Some(snapshot)) => if excluded_spec(settings.exclusions@, snapshot.app_id@, snapshot.title@) {
                    r == Ok::<Option<ForegroundSnapshot>, ActivityCollectorError>(None) && final(self).session()
                        is None && final(self).health_spec() == healthy_view(
                        old(self).retention_degraded_spec(),
                        old(self).health_spec().1,
                        None,
                    )
                } else {
                    r == Ok::<Option<ForegroundSnapshot>, ActivityCollectorError>(Some(snapshot))
                        && *final(self) == *old(self)
                },
            },
    {
        match sampled {
            Err(_) => {
                self.forget_and_degrade(SOURCE_FAILED_MESSAGE);
                Err(ActivityCollectorError::SourceUnavailable)
            },
            Ok(None) => {
                self.last_session = None;
                self.set_healthy(None);
                Ok(None)
            },
            Ok(Some(snapshot)) => if is_excluded(&snapshot, &settings.exclusions) {
                self.last_session = None;
                self.set_healthy(None);
                Ok(None)
            } else {
                Ok(Some(snapshot))
            },
        }
    }

    /// The arguments with which the tracked session is extended to `now`:
    /// its id, the new end, and the duration since it started.
    pub fn session_update_args(&self, now: i64) -> (r: Option<(i64, Option<i64>, i64)>)
        requires
            self.wf(),
            now >= 0,
        ensures
            match self.session() {
                Some(l) => r == Some((l.id, Some(now), (now - l.started_at) as i64)),
                None => r is None,
            },
    {
        match &self.last_session {
            Some(last) => Some((last.id, Some(now), now - last.started_at)),
            None => None,
        }
    }

    /// Takes the repository's answer to extending the tracked session: an
    /// update that took effect moves the last sample to `now` and reports
    /// healthy; a failed or ineffective update forgets the session and
    /// degrades with a persistence failure.
    pub fn settle_update(&mut self, updated: Result<bool, ActivityRepositoryError>, now: i64) -> (r: Result<
        (),
        ActivityCollectorError,
    >)
        requires
            old(self).wf(),
            old(self).session() matches Some(l) && l.last_sample_at <= now,
        ensures
            final(self).wf(),
            final(self).retention_degraded_spec() == old(self).retention_degraded_spec(),
            final(self).last_retention_at_spec() == old(self).last_retention_at_spec(),
            final(self).last_retention_days_spec() == old(self).last_retention_days_spec(),
            updated == Ok::<bool, ActivityRepositoryError>(true) ==> r is Ok && final(self).session() == Some(
                SessionView { last_sample_at: now, ..old(self).session()->0 },
            ) && final(self).health_spec() == healthy_view(
                old(self).retention_degraded_spec(),
                old(self).health_spec().1,
                Some(now),
            ),
            updated != Ok::<bool, ActivityRepositoryError>(true) ==> r == Err::<(), ActivityCollectorError>(
                ActivityCollectorError::PersistenceFailed,
            ) && final(self).session() is None && final(self).health_spec() == (
                ActivityCollectionHealthStatus::Degraded,
                old(self).health_spec().1,
                Some(degraded_message(old(self).retention_degraded_spec(), PERSISTENCE_FAILED_MESSAGE@)),
            ),
    {
        match updated {
            Ok(true) => {
                match self.last_session.take() {
                    Some(mut last) => {
                        last.last_sample_at = now;
                        self.last_session = Some(last);
                    },
                    None => {},
                }
                self.set_healthy(Some(now));
                Ok(())
            },
            _ => {
                self.forget_and_degrade(PERSISTENCE_FAILED_MESSAGE);
                Err(ActivityCollectorError::PersistenceFailed)
            },
        }
    }

    /// Takes the repository's answer to inserting a new session: its id
    /// starts tracking the sampled window from `now` and health reports
    /// `now`; a failure forgets the session and degrades with a persistence
    /// failure.
    pub fn settle_insert(
        &mut self,
        inserted: Result<i64, ActivityRepositoryError>,
        snapshot: ForegroundSnapshot,
        category: &str,
        now: i64,
    ) -> (r: Result<(), ActivityCollectorError>)
        requires
            old(self).wf(),
            now >= 0,
        ensures
            final(self).wf(),
            final(self).retention_degraded_spec() == old(self).retention_degraded_spec(),
            final(self).last_retention_at_spec() == old(self).last_retention_at_spec(),
            final(self).last_retention_days_spec() == old(self).last_retention_days_spec(),
            match inserted {
                Ok(id) => r is Ok && final(self).session() == Some(
                    SessionView {
                        id,
                        started_at: now,
                        last_sample_at: now,
                        app_id: snapshot.app_id@,
                        title: snapshot.title@,
                        category: category@,
                    },
                ) && final(self).health_spec() == healthy_view(
                    old(self).retention_degraded_spec(),
                    old(self).health_spec().1,
                    Some(now),
                ),
                Err(_) => r == Err::<(), ActivityCollectorError>(ActivityCollectorError::PersistenceFailed)
                    && final(self).session() is None && final(self).health_spec() == (
                    ActivityCollectionHealthStatus::Degraded,
                    old(self).health_spec().1,
                    Some(degraded_message(old(self).retention_degraded_spec(), PERSISTENCE_FAILED_MESSAGE@)),
                ),
            },
    {
        match inserted {
            Ok(id) => {
                self.last_session = Some(
                    LastSession {
                        id,
                        started_at: now,
                        last_sample_at: now,
                        app_id: snapshot.app_id,
                        title: snapshot.title,
                        category: string_of(chars_of(category).as_slice()),
                    },
                );
                self.set_healthy(Some(now));
                Ok(())
            },
            Err(_) => {
                self.forget_and_degrade(PERSISTENCE_FAILED_MESSAGE);
                Err(ActivityCollectorError::PersistenceFailed)
            },
        }
    }

    /// Extends the tracked session when the snapshot shows the same window
    /// in the same category.
    fn extend_if_contiguous(&mut self, snapshot: &ForegroundSnapshot, category: &str, now: i64) -> (r: Result<
        bool,
        ActivityCollectorError,
    >)
        requires
            old(self).wf(),
            old(self).session() is Some ==> old(self).session()->0.last_sample_at <= now,
        ensures
            final(self).wf(),
            final(self).retention_degraded == old(self).retention_degraded,
            final(self).last_retention_at == old(self).last_retention_at,
            final(self).last_retention_days == old(self).last_retention_days,
            ({
                let same = old(self).session() matches Some(l) && l.app_id == snapshot.app_id@ && l.title
                    == snapshot.title@ && l.category == category@;
                &&& !same ==> r == Ok::<bool, ActivityCollectorError>(false) && final(self).session()
                    == old(self).session() && final(self).health == old(self).health
                &&& same ==> match r {
                    Ok(extended) => extended && final(self).session() == Some(
                        SessionView { last_sample_at: now, ..old(self).session()->0 },
                    ) && final(self).health_spec() == if old(self).retention_degraded {
                        (
                            ActivityCollectionHealthStatus::Degraded,
                            Some(now),
                            Some(RETENTION_FAILURE_MESSAGE@),
                        )
                    } else {
                        (ActivityCollectionHealthStatus::Healthy, Some(now), None)
                    },
                    Err(e) => e == ActivityCollectorError::PersistenceFailed && final(self).session() is None
                        && final(self).health_spec() == (
                        ActivityCollectionHealthStatus::Degraded,
                        old(self).health_spec().1,
                        Some(degraded_message(old(self).retention_degraded, PERSISTENCE_FAILED_MESSAGE@)),
                    ),
                }
            }),
    {
        match &self.last_session {
            None => return Ok(false),
            Some(last) => {
                if !str_equal(last.app_id.as_str(), snapshot.app_id.as_str()) || !str_equal(
                    last.title.as_str(),
                    snapshot.title.as_str(),
                ) || !str_equal(last.category.as_str(), category) {
                    return Ok(false);
                }
            },
        }
        let (id, ended_at, duration) = match self.session_update_args(now) {
            Some(args) => args,
            None => return Ok(false),
        };
        let updated = self.repository.update_session(id, ended_at, duration);
        match self.settle_update(updated, now) {
            Ok(()) => Ok(true),
            Err(e) => Err(e),
        }
    }

    /// Protects the application id and title and encodes them with the
    /// sample's idle time and fullscreen flag.
    fn protect_payload(&self, snapshot: &ForegroundSnapshot) -> (r: Result<Vec<u8>, ActivityCollectorError>)
        ensures
            r is Err ==> r->Err_0 == ActivityCollectorError::ProtectionFailed,
            r is Ok ==> exists|app: Seq<u8>, title: Seq<u8>|
                r->Ok_0@ == ascii_bytes(
                    #[trigger] protected_context_json(
                        ACTIVITY_SESSION_SCHEMA_VERSION,
                        app,
                        title,
                        snapshot.idle_seconds,
                        snapshot.fullscreen,
                    ),
                ),
    {
        let protected_app_id = match self.protector.protect(snapshot.app_id.as_str().as_bytes()) {
            Ok(v) => v,
            Err(_) => return Err(ActivityCollectorError::ProtectionFailed),
        };
        let protected_title = match self.protector.protect(snapshot.title.as_str().as_bytes()) {
            Ok(v) => v,
            Err(_) => return Err(ActivityCollectorError::ProtectionFailed),
        };
        let payload = encode_protected_context(
            ACTIVITY_SESSION_SCHEMA_VERSION,
            protected_app_id.as_slice(),
            protected_title.as_slice(),
            snapshot.idle_seconds,
            snapshot.fullscreen,
        );
        Ok(payload)
    }


    /// One gated sample with the given settings at the given time.
    pub fn collect_with(&mut self, settings: &BehaviorSettings, now: i64) -> (r: Result<(), ActivityCollectorError>)
        requires
            old(self).wf(),
        ensures
            final(self).wf(),
            now < 0 ==> r == Err::<(), ActivityCollectorError>(ActivityCollectorError::InvalidClock)
                && final(self).session() is None && final(self).health_spec() == (
                ActivityCollectionHealthStatus::Degraded,
                old(self).health_spec().1,
                Some(degraded_message(old(self).retention_degraded_spec(), INVALID_CLOCK_MESSAGE@)),
            ) && final(self).last_retention_at_spec() == old(self).last_retention_at_spec(),
            now >= 0 && !gate_open_spec(*settings) ==> r is Ok && final(self).session() is None
                && final(self).health_spec() == if final(self).retention_degraded_spec() {
                (
                    ActivityCollectionHealthStatus::Degraded,
                    old(self).health_spec().1,
                    Some(RETENTION_FAILURE_MESSAGE@),
                )
            } else {
                disabled_health_view()
            },
            now >= 0 && !retention_due_spec(
                old(self).last_retention_at_spec(),
                old(self).last_retention_days_spec(),
                now,
                settings.retention_days,
            ) ==> final(self).last_retention_at_spec() == old(self).last_retention_at_spec()
                && final(self).retention_degraded_spec() == old(self).retention_degraded_spec(),
            now >= 0 && retention_due_spec(
                old(self).last_retention_at_spec(),
                old(self).last_retention_days_spec(),
                now,
                settings.retention_days,
            ) ==> final(self).retention_degraded_spec() || (final(self).last_retention_at_spec() == Some(
                now,
            ) && final(self).last_retention_days_spec() == Some(settings.retention_days)),
            r is Err ==> final(self).session() is None && final(self).health_spec().0
                == ActivityCollectionHealthStatus::Degraded && final(self).health_spec().2 is Some
                && r->Err_0 != ActivityCollectorError::SettingsUnavailable && r->Err_0
                != ActivityCollectorError::PayloadEncodingFailed,
            r is Ok && final(self).session() is Some ==> gate_open_spec(*settings) && !excluded_spec(
                settings.exclusions@,
                final(self).session()->0.app_id,
                final(self).session()->0.title,
            ) && final(self).session()->0.last_sample_at == now && final(self).session()->0.category
                == app_category(final(self).session()->0.app_id) && final(self).health_spec().1 == Some(
                now,
            ),
            now >= 0 && gate_open_spec(*settings) && r is Ok ==> final(self).health_spec().0 == (if final(self).retention_degraded_spec() {
                ActivityCollectionHealthStatus::Degraded
            } else {
                ActivityCollectionHealthStatus::Healthy
            }) && final(self).health_spec().2 == (if final(self).retention_degraded_spec() {
                Some(RETENTION_FAILURE_MESSAGE@)
            } else {
                None
            }),
            r is Ok && final(self).session() is Some ==> if continues_session(
                old(self).session(),
                final(self).session()->0,
                now,
            ) {
                final(self).session() == Some(SessionView { last_sample_at: now, ..old(self).session()->0 })
            } else {
                final(self).session()->0.started_at == now
            },
    {
        if now < 0 {
            self.forget_and_degrade(INVALID_CLOCK_MESSAGE);
            return Err(ActivityCollectorError::InvalidClock);
        }
        self.run_retention_if_due(now, settings.retention_days);
        if !collection_gate_open(settings) {
            self.last_session = None;
            self.set_disabled();
            return Ok(());
        }
        self.forget_discontinuous(now);
        let sampled = self.source.snapshot();
        let snapshot = match self.settle_snapshot(sampled, settings) {
            Ok(Some(snapshot)) => snapshot,
            Ok(None) => return Ok(()),
            Err(e) => return Err(e),
        };
        let category = classify_app(snapshot.app_id.as_str());
        match self.extend_if_contiguous(&snapshot, category, now) {
            Err(e) => return Err(e),
            Ok(true) => return Ok(()),
            Ok(false) => {},
        }
        let payload = match self.protect_payload(&snapshot) {
            Ok(p) => p,
            Err(e) => {
                self.forget_and_degrade(PROTECTION_FAILED_MESSAGE);
                return Err(e);
            },
        };
        let session = new_session_record(category, payload, now);
        let inserted = self.repository.insert_session(&session);
        self.settle_insert(inserted, snapshot, category, now)
    }

    /// Takes the settings the source loaded: loaded settings are passed on
    /// and nothing changes; a failed load forgets the tracked session and
    /// degrades health with the failure's message.
    pub fn accept_loaded_settings(&mut self, loaded: Result<BehaviorSettings, ActivitySettingsSourceError>) -> (r:
        Result<BehaviorSettings, ActivityCollectorError>)
        requires
            old(self).wf(),
        ensures
            final(self).wf(),
            match loaded {
                Ok(settings) => r == Ok::<BehaviorSettings, ActivityCollectorError>(settings) && *final(self)
                    == *old(self),
                Err(e) => r == Err::<BehaviorSettings, ActivityCollectorError>(
                    ActivityCollectorError::SettingsUnavailable,
                ) && final(self).session() is None && final(self).health_spec() == (
                    ActivityCollectionHealthStatus::Degraded,
                    old(self).health_spec().1,
                    Some(degraded_message(old(self).retention_degraded_spec(), settings_failure_message(e))),
                ) && final(self).retention_degraded_spec() == old(self).retention_degraded_spec()
                    && final(self).last_retention_at_spec() == old(self).last_retention_at_spec()
                    && final(self).last_retention_days_spec() == old(self).last_retention_days_spec(),
            },
    {
        match loaded {
            Ok(settings) => Ok(settings),
            Err(ActivitySettingsSourceError::Unavailable) => {
                self.forget_and_degrade(SETTINGS_UNAVAILABLE_MESSAGE);
                Err(ActivityCollectorError::SettingsUnavailable)
            },
            Err(ActivitySettingsSourceError::Invalid) => {
                self.forget_and_degrade(SETTINGS_INVALID_MESSAGE);
                Err(ActivityCollectorError::SettingsUnavailable)
            },
        }
    }

    /// Loads the settings, reads the clock and performs one gated sample.
    /// Every failure forgets the tracked session and is reported only as a
    /// stable degraded message.
    pub fn collect_once(&mut self) -> (r: Result<(), ActivityCollectorError>)
        requires
            old(self).wf(),
        ensures
            final(self).wf(),
            r is Err ==> final(self).session() is None && final(self).health_spec().0
                == ActivityCollectionHealthStatus::Degraded && final(self).health_spec().2 is Some,
            r == Err::<(), ActivityCollectorError>(ActivityCollectorError::SettingsUnavailable)
                ==> final(self).health_spec().1 == old(self).health_spec().1 && (final(self).health_spec().2
                == Some(degraded_message(old(self).retention_degraded_spec(), SETTINGS_UNAVAILABLE_MESSAGE@))
                || final(self).health_spec().2 == Some(
                degraded_message(old(self).retention_degraded_spec(), SETTINGS_INVALID_MESSAGE@),
            )),
            r is Ok && final(self).session() is Some ==> final(self).health_spec().1 == Some(
                final(self).session()->0.last_sample_at,
            ) && final(self).session()->0.category == app_category(final(self).session()->0.app_id),
    {
        let loaded = self.settings.load();
        let settings = match self.accept_loaded_settings(loaded) {
            Ok(settings) => settings,
            Err(e) => return Err(e),
        };
        let now = self.clock.now_unix_seconds();
        self.collect_with(&settings, now)
    }

}


/// A rule matching the window excludes it, whatever its position in the
/// list: any matching rule suffices.
pub proof fn law_any_matching_rule_excludes(exclusions: Seq<ExclusionRule>, i: int, app_id: Seq<char>, title: Seq<char>)
    requires
        0 <= i < exclusions.len(),
        rule_excludes(exclusions[i], app_id, title),
    ensures
        excluded_spec(exclusions, app_id, title),
{
}

/// Adding a rule that matches the window to any list excludes the window;
/// adding a rule never un-excludes one.
pub proof fn law_added_rule_only_widens_exclusion(
    exclusions: Seq<ExclusionRule>,
    rule: ExclusionRule,
    app_id: Seq<char>,
    title: Seq<char>,
)
    ensures
        rule_excludes(rule, app_id, title) ==> excluded_spec(exclusions.push(rule), app_id, title),
        excluded_spec(exclusions, app_id, title) ==> excluded_spec(exclusions.push(rule), app_id, title),
{
    let pushed = exclusions.push(rule);
    if rule_excludes(rule, app_id, title) {
        assert(pushed[exclusions.len() as int] == rule);
    }
    if excluded_spec(exclusions, app_id, title) {
        let i = choose|i: int| 0 <= i < exclusions.len() && rule_excludes(#[trigger] exclusions[i], app_id, title);
        assert(pushed[i] == exclusions[i]);
    }
}

/// A window that no rule matches is recorded.
pub proof fn law_unmatched_window_is_not_excluded(exclusions: Seq<ExclusionRule>, app_id: Seq<char>, title: Seq<char>)
    requires
        forall|i: int| 0 <= i < exclusions.len() ==> !rule_excludes(#[trigger] exclusions[i], app_id, title),
    ensures
        !excluded_spec(exclusions, app_id, title),
{
}

} // verus!
