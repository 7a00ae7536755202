//! Fail-closed proactive delivery policy.

use vstd::prelude::*;

use crate::behavior::mode::previous_weekday;
use crate::behavior::settings::{ActiveMode, BehaviorSettings, QuietHoursRule};
use crate::text::{chars_of, string_of, trim_ws, trim_ws_bounds};

verus! {

/// Longest proactive reply that may be delivered, in Unicode scalar values.
pub const MAX_PROACTIVE_TEXT_CHARS: usize = 500;

/// Seconds between activity samples of the proactive worker.
pub const RUNTIME_INTERVAL_SECONDS: u64 = 5;

#[derive(Debug)]
pub struct ProactiveDeliveryInput {
    pub master_enabled: bool,
    pub profile_enabled: bool,
    pub trigger_enabled: bool,
    pub in_quiet_hours: bool,
    pub temporary_conversation: bool,
    pub evaluator_approved: bool,
    pub generated_text: String,
    pub lease_cancelled: bool,
}

#[derive(Debug)]
pub enum ProactiveDeliveryDecision {
    Deliver(String),
    Skip,
}

/// The text to deliver, or `None` when any gate is closed or the trimmed
/// text is empty or longer than the limit.
pub open spec fn proactive_delivery(input: ProactiveDeliveryInput) -> Option<Seq<char>> {
    let text = trim_ws(input.generated_text@);
    if !input.master_enabled || !input.profile_enabled || !input.trigger_enabled
        || input.in_quiet_hours || input.temporary_conversation || !input.evaluator_approved
        || input.lease_cancelled || text.len() == 0 || text.len() > MAX_PROACTIVE_TEXT_CHARS {
        None
    } else {
        Some(text)
    }
}

/// Decides whether a generated proactive reply may be shown.
pub fn decide_proactive_delivery(input: &ProactiveDeliveryInput) -> (r: ProactiveDeliveryDecision)
    ensures
        match proactive_delivery(*input) {
            None => r is Skip,
            Some(t) => match r {
                ProactiveDeliveryDecision::Deliver(s) => s@ == t,
                ProactiveDeliveryDecision::Skip => false,
            },
        },
{
    let chars = chars_of(input.generated_text.as_str());
    let (a, b) = trim_ws_bounds(chars.as_slice());
    let len = b - a;
    if !input.master_enabled || !input.profile_enabled || !input.trigger_enabled
        || input.in_quiet_hours || input.temporary_conversation || !input.evaluator_approved
        || input.lease_cancelled || len == 0 || len > MAX_PROACTIVE_TEXT_CHARS {
        return ProactiveDeliveryDecision::Skip;
    }
    let text = string_of(&chars.as_slice()[a..b]);
    ProactiveDeliveryDecision::Deliver(text)
}

/// Kinds of proactive candidates produced by the activity engine.
#[derive(Debug, Clone, Copy, PartialEq, Eq, Structural)]
pub enum CandidateKind {
    Return,
    LongSession,
    CategoryChange,
}

pub open spec fn trigger_enabled_spec(settings: BehaviorSettings, kind: CandidateKind) -> bool {
    match kind {
        CandidateKind::Return => settings.triggers.return_after_enabled,
        CandidateKind::LongSession => settings.triggers.long_session_enabled,
        CandidateKind::CategoryChange => settings.triggers.category_change_enabled,
    }
}

pub fn trigger_enabled(settings: &BehaviorSettings, kind: CandidateKind) -> (b: bool)
    ensures
        b == trigger_enabled_spec(*settings, kind),
{
    match kind {
        CandidateKind::Return => settings.triggers.return_after_enabled,
        CandidateKind::LongSession => settings.triggers.long_session_enabled,
        CandidateKind::CategoryChange => settings.triggers.category_change_enabled,
    }
}

pub open spec fn candidate_kind_name_spec(kind: CandidateKind) -> Seq<char> {
    match kind {
        CandidateKind::Return => "return"@,
        CandidateKind::LongSession => "long_session"@,
        CandidateKind::CategoryChange => "category_change"@,
    }
}

pub fn candidate_kind_name(kind: CandidateKind) -> (s: &'static str)
    ensures
        s@ == candidate_kind_name_spec(kind),
{
    match kind {
        CandidateKind::Return => "return",
        CandidateKind::LongSession => "long_session",
        CandidateKind::CategoryChange => "category_change",
    }
}

/// Rate limits applied to the final speak decision.
#[derive(Debug, Clone, Copy, PartialEq, Eq, Structural)]
pub struct FrequencyPolicy {
    pub minimum_interval: i64,
    pub max_per_hour: u64,
    pub max_per_day: u64,
}

pub fn frequency_policy(settings: &BehaviorSettings) -> (p: FrequencyPolicy)
    ensures
        p.minimum_interval == settings.frequency.minimum_interval_minutes * 60,
        p.max_per_hour == settings.frequency.max_per_hour,
        p.max_per_day == settings.frequency.max_per_day,
{
    FrequencyPolicy {
        minimum_interval: (settings.frequency.minimum_interval_minutes as i64) * 60,
        max_per_hour: settings.frequency.max_per_hour as u64,
        max_per_day: settings.frequency.max_per_day as u64,
    }
}

/// Activity durations, in seconds, after which each candidate kind fires.
#[derive(Debug, Clone, Copy, PartialEq, Eq, Structural)]
pub struct ProactiveThresholds {
    pub return_after: i64,
    pub long_session: i64,
    pub category_change: i64,
}

pub fn proactive_thresholds(settings: &BehaviorSettings) -> (t: ProactiveThresholds)
    ensures
        t.return_after == settings.triggers.return_after_minutes * 60,
        t.long_session == settings.triggers.long_session_minutes * 60,
        t.category_change == settings.triggers.category_change_minutes * 60,
{
    ProactiveThresholds {
        return_after: (settings.triggers.return_after_minutes as i64) * 60,
        long_session: (settings.triggers.long_session_minutes as i64) * 60,
        category_change: (settings.triggers.category_change_minutes as i64) * 60,
    }
}

/// Time windows over which the final speak decision counts earlier replies.
pub fn speak_windows(now: i64) -> (w: (i64, i64))
    ensures
        w.0 == if now - 3599 < i64::MIN {
            i64::MIN as int
        } else {
            now - 3599
        },
        w.1 == if now - 86399 < i64::MIN {
            i64::MIN as int
        } else {
            now - 86399
        },
{
    let hour_since = if now < i64::MIN + 3599 {
        i64::MIN
    } else {
        now - 3599
    };
    let day_since = if now < i64::MIN + 86399 {
        i64::MIN
    } else {
        now - 86399
    };
    (hour_since, day_since)
}

/// How the optional reply evaluator takes part in a delivery.
#[derive(Debug)]
pub enum EvaluatorPlan {
    /// No evaluator is configured: the reply is approved.
    Approve,
    /// Both endpoint and model are configured: their verdict decides.
    Ask { endpoint: String, model: String },
    /// Only one of endpoint and model is configured: the reply is rejected.
    Reject,
}

pub fn evaluator_plan(settings: &BehaviorSettings) -> (p: EvaluatorPlan)
    ensures
        match (settings.evaluator_endpoint, settings.evaluator_model) {
            (None, None) => p is Approve,
            (Some(e), Some(m)) => match p {
                EvaluatorPlan::Ask { endpoint, model } => endpoint@ == e@ && model@ == m@,
                _ => false,
            },
            _ => p is Reject,
        },
{
    match (&settings.evaluator_endpoint, &settings.evaluator_model) {
        (None, None) => EvaluatorPlan::Approve,
        (Some(e), Some(m)) => EvaluatorPlan::Ask {
            endpoint: string_of(chars_of(e.as_str()).as_slice()),
            model: string_of(chars_of(m.as_str()).as_slice()),
        },
        _ => EvaluatorPlan::Reject,
    }
}

// ---------------------------------------------------------------- quiet hours

pub open spec fn is_digit_char(c: char) -> bool {
    '0' <= c && c <= '9'
}

pub open spec fn digit_value(c: char) -> int {
    (c as int) - 48
}

pub open spec fn decimal_value(s: Seq<char>) -> int
    decreases s.len(),
{
    if s.len() == 0 {
        0
    } else {
        decimal_value(s.drop_last()) * 10 + digit_value(s.last())
    }
}

pub open spec fn all_digits(s: Seq<char>) -> bool {
    forall|i: int| 0 <= i < s.len() ==> #[trigger] is_digit_char(s[i])
}

/// `u16::from_str`: an optional `+`, then at least one ASCII digit, with a
/// value that fits in sixteen bits.
pub open spec fn u16_parse(s: Seq<char>) -> Option<int> {
    let d = if s.len() > 0 && s[0] == '+' {
        s.drop_first()
    } else {
        s
    };
    if d.len() == 0 || !all_digits(d) || decimal_value(d) > 65535 {
        None
    } else {
        Some(decimal_value(d))
    }
}

/// Index of the first `:`, if any.
pub open spec fn first_colon(s: Seq<char>) -> Option<int> {
    if exists|i: int| 0 <= i < s.len() && s[i] == ':' {
        Some(choose|i: int| 0 <= i < s.len() && s[i] == ':' && forall|j: int| 0 <= j < i ==> s[j] != ':')
    } else {
        None
    }
}

/// Outcome of reading a quiet-hours boundary as `hours:minutes`.
#[derive(Debug, Clone, Copy, PartialEq, Eq, Structural)]
pub enum QuietTime {
    /// Not of the form `<u16>:<u16>`.
    Invalid,
    /// `hours * 60 + minutes` exceeds sixteen bits.
    Overflow,
    /// Minutes since midnight.
    Minutes(u16),
}

pub open spec fn quiet_time_spec(s: Seq<char>) -> QuietTime {
    match first_colon(s) {
        None => QuietTime::Invalid,
        Some(k) => match u16_parse(s.take(k)) {
            None => QuietTime::Invalid,
            Some(h) => if h * 60 > 65535 {
                QuietTime::Overflow
            } else {
                match u16_parse(s.skip(k + 1)) {
                    None => QuietTime::Invalid,
                    Some(m) => if h * 60 + m > 65535 {
                        QuietTime::Overflow
                    } else {
                        QuietTime::Minutes((h * 60 + m) as u16)
                    },
                }
            },
        },
    }
}

pub open spec fn quiet_rule_covers(days: Seq<u8>, start: u16, end: u16, day: u8, minute: u16) -> bool {
    if start < end {
        days.contains(day) && start <= minute && minute < end
    } else {
        (days.contains(day) && minute >= start) || (days.contains(previous_weekday(day)) && minute
            < end)
    }
}

/// Whether the rules from index `i` on put `(day, minute)` in quiet hours;
/// `None` where a boundary's arithmetic would overflow sixteen bits.
/// Malformed boundaries of an enabled rule count as quiet.
pub open spec fn quiet_from(rules: Seq<QuietHoursRule>, day: u8, minute: u16, i: int) -> Option<bool>
    decreases rules.len() - i,
{
    if i >= rules.len() || i < 0 {
        Some(false)
    } else {
        let r = rules[i];
        if !r.enabled {
            quiet_from(rules, day, minute, i + 1)
        } else {
            let s = quiet_time_spec(r.start_local_time@);
            let e = quiet_time_spec(r.end_local_time@);
            if s == QuietTime::Overflow || e == QuietTime::Overflow {
                None
            } else {
                match (s, e) {
                    (QuietTime::Minutes(a), QuietTime::Minutes(b)) => if quiet_rule_covers(
                        r.days_of_week@,
                        a,
                        b,
                        day,
                        minute,
                    ) {
                        Some(true)
                    } else {
                        quiet_from(rules, day, minute, i + 1)
                    },
                    _ => Some(true),
                }
            }
        }
    }
}

fn parse_u16_chars(v: &Vec<char>, lo: usize, hi: usize) -> (r: Option<u16>)
    requires
        lo <= hi <= v@.len(),
    ensures
        u16_parse(v@.subrange(lo as int, hi as int)) == match r {
            None => None,
            Some(x) => Some(x as int),
        },
{
    let ghost s = v@.subrange(lo as int, hi as int);
    let mut start = lo;
    if lo < hi && v[lo] == '+' {
        start = lo + 1;
    }
    let ghost d = v@.subrange(start as int, hi as int);
    proof {
        if lo < hi && v@[lo as int] == '+' {
            assert(d =~= s.drop_first());
        } else {
            assert(d =~= s);
        }
    }
    proof {
        if s.len() > 0 {
            assert(s[0] == v@[lo as int]);
        }
    }
    if start == hi {
        return None;
    }
    let mut value: u32 = 0;
    let mut overflowed = false;
    let mut i = start;
    while i < hi
        invariant
            start <= i <= hi <= v@.len(),
            s == v@.subrange(lo as int, hi as int),
            d == (if s.len() > 0 && s[0] == '+' {
                s.drop_first()
            } else {
                s
            }),
            d.len() > 0,
            d == v@.subrange(start as int, hi as int),
            all_digits(d.take(i - start)),
            overflowed == (decimal_value(d.take(i - start)) > 65535),
            !overflowed ==> value == decimal_value(d.take(i - start)),
            value <= 65535,
        decreases hi - i,
    {
        let c = v[i];
        if !('0' <= c && c <= '9') {
            proof {
                assert(d[i - start] == c);
                assert(!is_digit_char(d[i - start]));
            }
            return None;
        }
        let ghost pre = d.take(i - start);
        let ghost next = d.take(i - start + 1);
        proof {
            assert(next.drop_last() =~= pre);
            assert(next.last() == c);
            assert(decimal_value(next) == decimal_value(pre) * 10 + digit_value(c));
            assert forall|j: int| 0 <= j < next.len() implies #[trigger] is_digit_char(next[j]) by {
                if j < pre.len() {
                    assert(next[j] == pre[j]);
                }
            }
        }
        if !overflowed {
            let digit: u32 = (c as u32) - 48;
            let candidate: u32 = value * 10 + digit;
            if candidate > 65535 {
                overflowed = true;
                value = 0;
            } else {
                value = candidate;
            }
        }
        i = i + 1;
    }
    proof {
        assert(d.take(hi - start) =~= d);
    }
    if overflowed {
        None
    } else {
        Some(value as u16)
    }
}

fn find_colon(v: &Vec<char>) -> (r: Option<usize>)
    ensures
        r is Some ==> r->0 < v@.len() && first_colon(v@) == Some(r->0 as int),
        r is None ==> first_colon(v@) is None,
        match first_colon(v@) {
            None => r is None,
            Some(k) => r == Some(k as usize),
        },
{
    let mut i: usize = 0;
    while i < v.len()
        invariant
            i <= v@.len(),
            forall|j: int| 0 <= j < i ==> v@[j] != ':',
        decreases v.len() - i,
    {
        if v[i] == ':' {
            proof {
                let k = choose|k: int| 0 <= k < v@.len() && v@[k] == ':' && forall|j: int|
                    0 <= j < k ==> v@[j] != ':';
                assert(v@[i as int] == ':');
                if k < i {
                    assert(v@[k] != ':');
                }
                if k > i {
                    assert(v@[i as int] != ':');
                }
            }
            return Some(i);
        }
        i = i + 1;
    }
    None
}

fn quiet_time(text: &str) -> (q: QuietTime)
    ensures
        q == quiet_time_spec(text@),
{
    let v = chars_of(text);
    let k = match find_colon(&v) {
        Some(k) => k,
        None => return QuietTime::Invalid,
    };
    proof {
        assert(v@.subrange(0, k as int) =~= v@.take(k as int));
        assert(v@.subrange(k + 1, v@.len() as int) =~= v@.skip(k + 1));
    }
    let hours = match parse_u16_chars(&v, 0, k) {
        Some(h) => h,
        None => return QuietTime::Invalid,
    };
    if (hours as u32) * 60 > 65535 {
        return QuietTime::Overflow;
    }
    let minutes = match parse_u16_chars(&v, k + 1, v.len()) {
        Some(m) => m,
        None => return QuietTime::Invalid,
    };
    if (hours as u32) * 60 + (minutes as u32) > 65535 {
        return QuietTime::Overflow;
    }
    QuietTime::Minutes(hours * 60 + minutes)
}

fn contains_day(days: &Vec<u8>, day: u8) -> (b: bool)
    ensures
        b == days@.contains(day),
{
    crate::behavior::mode::contains_day(days, day)
}

/// Whether the local weekday (Monday is zero) and minute fall into an
/// enabled quiet-hours rule.
pub fn in_quiet_hours(settings: &BehaviorSettings, day: u8, minute: u16) -> (b: bool)
    requires
        quiet_from(settings.quiet_hours@, day, minute, 0) is Some,
    ensures
        b == quiet_from(settings.quiet_hours@, day, minute, 0)->0,
{
    let rules = &settings.quiet_hours;
    let mut i: usize = 0;
    while i < rules.len()
        invariant
            i <= rules@.len(),
            rules@ == settings.quiet_hours@,
            quiet_from(rules@, day, minute, 0) == quiet_from(rules@, day, minute, i as int),
            quiet_from(rules@, day, minute, 0) is Some,
        decreases rules.len() - i,
    {
        let rule = &rules[i];
        proof {
            assert(rules@[i as int] == *rule);
        }
        if rule.enabled {
            let s = quiet_time(rule.start_local_time.as_str());
            let e = quiet_time(rule.end_local_time.as_str());
            match (s, e) {
                (QuietTime::Minutes(start), QuietTime::Minutes(end)) => {
                    let covered = if start < end {
                        contains_day(&rule.days_of_week, day) && start <= minute && minute < end
                    } else {
                        let previous: u8 = if day == 0 {
                            6
                        } else {
                            day - 1
                        };
                        (contains_day(&rule.days_of_week, day) && minute >= start) || (contains_day(
                            &rule.days_of_week,
                            previous,
                        ) && minute < end)
                    };
                    if covered {
                        return true;
                    }
                },
                _ => {
                    return true;
                },
            }
        }
        i = i + 1;
    }
    false
}


/// Records the resolved active mode; returns whether it changed, in which
/// case the change is announced.
pub fn publish_mode_if_changed(current: &mut Option<ActiveMode>, active_mode: ActiveMode) -> (changed: bool)
    ensures
        changed == (*old(current) != Some(active_mode)),
        *final(current) == Some(active_mode),
{
    let changed = match current {
        Some(m) => *m != active_mode,
        None => true,
    };
    *current = Some(active_mode);
    changed
}

/// A candidate proceeds only when its trigger is enabled and the local time
/// is outside every quiet-hours rule.
pub fn candidate_passes_gates(settings: &BehaviorSettings, kind: CandidateKind, day: u8, minute: u16) -> (b: bool)
    requires
        quiet_from(settings.quiet_hours@, day, minute, 0) is Some,
    ensures
        b == (trigger_enabled_spec(*settings, kind) && !quiet_from(settings.quiet_hours@, day, minute, 0)->0),
{
    trigger_enabled(settings, kind) && !in_quiet_hours(settings, day, minute)
}


pub open spec fn candidate_cue_spec(kind: CandidateKind, category: Seq<char>, duration_seconds: u64) -> Seq<char> {
    "Trigger: "@ + candidate_kind_name_spec(kind) + "; broad activity category: "@ + category + "; duration: "@
        + crate::text::decimal_text(duration_seconds as nat) + " seconds."@
}

/// The cue handed to the reply generator: the trigger, the broad activity
/// category and how long it lasted, nothing more specific.
pub fn candidate_cue(kind: CandidateKind, category: &str, duration_seconds: u64) -> (r: String)
    ensures
        r@ == candidate_cue_spec(kind, category@, duration_seconds),
{
    let mut v = chars_of("Trigger: ");
    crate::text::push_str(&mut v, candidate_kind_name(kind));
    crate::text::push_str(&mut v, "; broad activity category: ");
    crate::text::push_str(&mut v, category);
    crate::text::push_str(&mut v, "; duration: ");
    crate::text::push_decimal(&mut v, duration_seconds);
    crate::text::push_str(&mut v, " seconds.");
    string_of(v.as_slice())
}


/// Fail-closed delivery: a reply is delivered only when every gate is open
/// (master switch, mode profile, trigger, outside quiet hours, a durable
/// conversation, evaluator approval, lease not cancelled), and what is
/// delivered is the whitespace-trimmed reply, non-empty and within the
/// length limit.
pub proof fn law_delivery_fails_closed(input: ProactiveDeliveryInput)
    ensures
        proactive_delivery(input) is Some ==> {
            &&& input.master_enabled && input.profile_enabled && input.trigger_enabled
            &&& !input.in_quiet_hours && !input.temporary_conversation
            &&& input.evaluator_approved && !input.lease_cancelled
            &&& proactive_delivery(input)->0 == trim_ws(input.generated_text@)
            &&& 0 < proactive_delivery(input)->0.len() <= MAX_PROACTIVE_TEXT_CHARS
        },
{
}

/// Closing any single gate suppresses delivery, whatever the reply says.
pub proof fn law_any_closed_gate_skips(input: ProactiveDeliveryInput)
    requires
        !input.master_enabled || !input.profile_enabled || !input.trigger_enabled || input.in_quiet_hours
            || input.temporary_conversation || !input.evaluator_approved || input.lease_cancelled,
    ensures
        proactive_delivery(input) is None,
{
}


proof fn lemma_quiet_needs_a_listed_day(rules: Seq<QuietHoursRule>, day: u8, minute: u16, i: int)
    requires
        0 <= i,
        quiet_from(rules, day, minute, i) == Some(true),
    ensures
        exists|j: int|
            i <= j < rules.len() && #[trigger] rules[j].enabled && {
                let s = quiet_time_spec(rules[j].start_local_time@);
                let e = quiet_time_spec(rules[j].end_local_time@);
                ||| !(s is Minutes && e is Minutes)
                ||| rules[j].days_of_week@.contains(day)
                ||| (s->Minutes_0 >= e->Minutes_0 && rules[j].days_of_week@.contains(
                    if day == 0 { 6u8 } else { (day - 1) as u8 },
                ))
            },
    decreases rules.len() - i,
{
    let r = rules[i];
    if !r.enabled {
        lemma_quiet_needs_a_listed_day(rules, day, minute, i + 1);
    } else {
        let s = quiet_time_spec(r.start_local_time@);
        let e = quiet_time_spec(r.end_local_time@);
        if s is Minutes && e is Minutes {
            if !quiet_rule_covers(r.days_of_week@, s->Minutes_0, e->Minutes_0, day, minute) {
                lemma_quiet_needs_a_listed_day(rules, day, minute, i + 1);
            }
        }
    }
}

/// Quiet hours never silence a day that no enabled rule lists: a rule only
/// covers the days in its `days_of_week` (an overnight window also covers
/// the early part of the day after a listed day), except that a rule with a
/// malformed boundary counts as quiet.
pub proof fn law_quiet_hours_need_a_listed_day(rules: Seq<QuietHoursRule>, day: u8, minute: u16)
    requires
        quiet_from(rules, day, minute, 0) == Some(true),
    ensures
        exists|j: int|
            0 <= j < rules.len() && #[trigger] rules[j].enabled && {
                let s = quiet_time_spec(rules[j].start_local_time@);
                let e = quiet_time_spec(rules[j].end_local_time@);
                ||| !(s is Minutes && e is Minutes)
                ||| rules[j].days_of_week@.contains(day)
                ||| (s->Minutes_0 >= e->Minutes_0 && rules[j].days_of_week@.contains(
                    if day == 0 { 6u8 } else { (day - 1) as u8 },
                ))
            },
{
    lemma_quiet_needs_a_listed_day(rules, day, minute, 0);
}

/// A same-day window (start before end) covers a minute only on the days
/// it lists: on an unlisted day a single such rule leaves the time free.
pub proof fn law_same_day_window_only_on_listed_days(rule: QuietHoursRule, day: u8, minute: u16)
    requires
        quiet_time_spec(rule.start_local_time@) is Minutes,
        quiet_time_spec(rule.end_local_time@) is Minutes,
        quiet_time_spec(rule.start_local_time@)->Minutes_0 < quiet_time_spec(rule.end_local_time@)->Minutes_0,
        !rule.days_of_week@.contains(day),
    ensures
        quiet_from(seq![rule], day, minute, 0) == Some(false),
{
    assert(quiet_from(seq![rule], day, minute, 1) == Some(false));
}

} // verus!
