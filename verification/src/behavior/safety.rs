//! Dark-expression safety latch and safe-word matching.

use unicode_casefold::UnicodeCaseFold;
use unicode_normalization::UnicodeNormalization;
use vstd::prelude::*;

use crate::text::{
    chars_of, is_control_char, lemma_trim_end_take, string_of, trim_end_by, trim_ws,
    trim_ws_bounds, white_space, is_white_space,
};

verus! {

/// Longest accepted safe word, in Unicode scalar values.
pub const MAX_SAFE_WORD_CHARS: usize = 128;

/// Process-local latch that makes a triggered stop effective before persistence.
#[derive(Debug)]
pub struct DarkExpressionSafetyState {
    paused: bool,
}

impl DarkExpressionSafetyState {
    pub closed spec fn paused_spec(&self) -> bool {
        self.paused
    }

    pub fn new() -> (s: Self)
        ensures
            !s.paused_spec(),
    {
        DarkExpressionSafetyState { paused: false }
    }

    pub fn is_paused(&self) -> (b: bool)
        ensures
            b == self.paused_spec(),
    {
        self.paused
    }

    pub fn pause(&mut self)
        ensures
            final(self).paused_spec(),
    {
        self.paused = true;
    }

    pub fn set_paused(&mut self, paused: bool)
        ensures
            final(self).paused_spec() == paused,
    {
        self.paused = paused;
    }
}

impl Default for DarkExpressionSafetyState {
    fn default() -> (s: Self)
        ensures
            !s.paused_spec(),
    {
        DarkExpressionSafetyState::new()
    }
}

/// Stable load failures for the safety settings file.
#[derive(Debug, Clone, Copy, PartialEq, Eq, Structural)]
pub enum DarkExpressionSafetyLoadError {
    Io,
    Invalid,
}

impl DarkExpressionSafetyLoadError {
    /// The user-facing message, which never contains the safe word.
    pub fn message(&self) -> (m: &'static str)
        ensures
            m@ == match *self {
                DarkExpressionSafetyLoadError::Io => "dark expression safety settings could not be read"@,
                DarkExpressionSafetyLoadError::Invalid => "dark expression safety settings are invalid"@,
            },
    {
        match self {
            DarkExpressionSafetyLoadError::Io => "dark expression safety settings could not be read",
            DarkExpressionSafetyLoadError::Invalid => "dark expression safety settings are invalid",
        }
    }
}

/// Whether dark expression is paused after loading the safety settings: the
/// stored flag when they loaded, and paused (fail closed) when the file
/// could not be read or is invalid.
pub fn dark_expression_paused_after_load(loaded: Result<bool, DarkExpressionSafetyLoadError>) -> (paused: bool)
    ensures
        paused == match loaded {
            Ok(stored) => stored,
            Err(_) => true,
        },
{
    match loaded {
        Ok(stored) => stored,
        Err(_) => true,
    }
}

/// Normalization form KC (compatibility decomposition followed by canonical
/// composition) of a scalar sequence, as computed by `unicode_normalization`.
pub uninterp spec fn nfkc_of(s: Seq<char>) -> Seq<char>;

/// Full, non-Turkic Unicode case folding, as computed by `unicode_casefold`.
pub uninterp spec fn case_fold_of(s: Seq<char>) -> Seq<char>;

/// Calls `UnicodeNormalization::nfkc` on the whole string and collects the
/// result; the contract only names that result.
#[verifier::external_body]
fn nfkc(s: &str) -> (r: String)
    ensures
        r@ == nfkc_of(s@),
{
    s.nfkc().collect::<String>()
}

/// Calls `UnicodeCaseFold::case_fold` on the whole string and collects the
/// result; the contract only names that result.
#[verifier::external_body]
fn case_fold(s: &str) -> (r: String)
    ensures
        r@ == case_fold_of(s@),
{
    s.case_fold().collect::<String>()
}

pub open spec fn is_safe_word_punctuation(c: char) -> bool {
    c == '。' || c == '．' || c == '.' || c == '、' || c == '，' || c == ','
        || c == '！' || c == '!' || c == '？' || c == '?'
}

pub open spec fn safe_word_punctuation() -> spec_fn(char) -> bool {
    |c: char| is_safe_word_punctuation(c)
}

/// Folded, trimmed form of an utterance with trailing punctuation dropped.
pub open spec fn normalized_safe_word(s: Seq<char>) -> Seq<char> {
    trim_end_by(
        trim_end_by(trim_ws(case_fold_of(nfkc_of(s))), safe_word_punctuation()),
        white_space(),
    )
}

fn is_punct(c: char) -> (b: bool)
    ensures
        b == is_safe_word_punctuation(c),
{
    c == '。' || c == '．' || c == '.' || c == '、' || c == '，' || c == ','
        || c == '！' || c == '!' || c == '？' || c == '?'
}

/// Deterministic normal form used for safe-word comparison.
pub fn normalize_safe_word(value: &str) -> (r: Vec<char>)
    ensures
        r@ == normalized_safe_word(value@),
{
    let composed = nfkc(value);
    let folded = case_fold(composed.as_str());
    let chars = chars_of(folded.as_str());
    let (a, b) = trim_ws_bounds(chars.as_slice());
    let ghost t = chars@.subrange(a as int, b as int);
    let mut e: usize = b;
    while e > a && is_punct(chars[e - 1])
        invariant
            a <= e <= b <= chars@.len(),
            forall|i: int| e <= i < b ==> #[trigger] is_safe_word_punctuation(chars@[i]),
        decreases e,
    {
        e = e - 1;
    }
    proof {
        let k = (e - a) as int;
        assert forall|i: int| k <= i < t.len() implies #[trigger] safe_word_punctuation()(t[i]) by {
            assert(t[i] == chars@[i + a]);
            assert(is_safe_word_punctuation(chars@[i + a]));
        }
        lemma_trim_end_take(t, safe_word_punctuation(), k);
        let mid = t.take(k);
        if mid.len() > 0 {
            assert(mid.last() == chars@[e - 1]);
        }
        assert(trim_end_by(mid, safe_word_punctuation()) == mid);
    }
    let ghost u = chars@.subrange(a as int, e as int);
    let mut f: usize = e;
    while f > a && chars[f - 1].is_whitespace()
        invariant
            a <= f <= e <= chars@.len(),
            forall|i: int| f <= i < e ==> #[trigger] is_white_space(chars@[i]),
        decreases f,
    {
        f = f - 1;
    }
    proof {
        assert(u =~= t.take((e - a) as int));
        let k = (f - a) as int;
        assert forall|i: int| k <= i < u.len() implies #[trigger] white_space()(u[i]) by {
            assert(u[i] == chars@[i + a]);
            assert(is_white_space(chars@[i + a]));
        }
        lemma_trim_end_take(u, white_space(), k);
        let mid = u.take(k);
        if mid.len() > 0 {
            assert(mid.last() == chars@[f - 1]);
        }
        assert(trim_end_by(mid, white_space()) == mid);
    }
    let mut out: Vec<char> = Vec::new();
    let mut i: usize = a;
    while i < f
        invariant
            a <= i <= f <= chars@.len(),
            out@ == chars@.subrange(a as int, i as int),
        decreases f - i,
    {
        out.push(chars[i]);
        i = i + 1;
    }
    proof {
        assert(out@ =~= u.take((f - a) as int));
    }
    out
}

fn chars_equal(x: &[char], y: &[char]) -> (b: bool)
    ensures
        b == (x@ == y@),
{
    if x.len() != y.len() {
        return false;
    }
    let mut i: usize = 0;
    while i < x.len()
        invariant
            x.len() == y.len(),
            i <= x.len(),
            forall|j: int| 0 <= j < i ==> x@[j] == y@[j],
        decreases x.len() - i,
    {
        if x[i] != y[i] {
            return false;
        }
        i = i + 1;
    }
    assert(x@ =~= y@);
    true
}

/// Whether a complete utterance is the configured safe word.
pub open spec fn safe_word_match_spec(safe_word: Option<Seq<char>>, user_input: Seq<char>) -> bool {
    match safe_word {
        None => false,
        Some(w) => normalized_safe_word(w).len() > 0 && normalized_safe_word(w)
            == normalized_safe_word(user_input),
    }
}

/// Matches a complete user utterance after deterministic Unicode normalization.
pub fn safe_word_matches(safe_word: Option<&str>, user_input: &str) -> (b: bool)
    ensures
        b == safe_word_match_spec(
            match safe_word {
                Some(w) => Some(w@),
                None => None,
            },
            user_input@,
        ),
{
    let safe_word = match safe_word {
        Some(w) => w,
        None => return false,
    };
    let expected = normalize_safe_word(safe_word);
    if expected.len() == 0 {
        return false;
    }
    let actual = normalize_safe_word(user_input);
    chars_equal(expected.as_slice(), actual.as_slice())
}

/// The outcome of sanitizing an entered safe word: `Ok(None)` for a blank
/// phrase, `Err(())` for an invalid one, otherwise the trimmed phrase.
pub open spec fn sanitized_safe_word(value: Seq<char>) -> Result<Option<Seq<char>>, ()> {
    let t = trim_ws(value);
    if t.len() == 0 || normalized_safe_word(t).len() == 0 {
        Ok(None)
    } else if t.len() > MAX_SAFE_WORD_CHARS || exists|i: int|
        0 <= i < t.len() && #[trigger] is_control_char(t[i]) {
        Err(())
    } else {
        Ok(Some(t))
    }
}

/// Trims an entered phrase while preserving its user-visible spelling.
pub fn sanitize_safe_word(value: Option<String>) -> (r: Result<Option<String>, String>)
    ensures
        value is None ==> r == Ok::<Option<String>, String>(None),
        value is Some ==> match sanitized_safe_word(value->0@) {
            Ok(None) => r == Ok::<Option<String>, String>(None),
            Ok(Some(t)) => r is Ok && r->Ok_0 is Some && r->Ok_0->0@ == t,
            Err(_) => r is Err && r->Err_0@ == "safe_word is invalid"@,
        },
{
    let value = match value {
        Some(v) => v,
        None => return Ok(None),
    };
    let chars = chars_of(value.as_str());
    let (a, b) = trim_ws_bounds(chars.as_slice());
    let mut trimmed: Vec<char> = Vec::new();
    let mut has_control = false;
    let mut i: usize = a;
    while i < b
        invariant
            a <= i <= b <= chars@.len(),
            trimmed@ == chars@.subrange(a as int, i as int),
            has_control == exists|j: int| 0 <= j < trimmed@.len() && #[trigger] is_control_char(trimmed@[j]),
        decreases b - i,
    {
        let c = chars[i];
        proof {
            let old_t = trimmed@;
            let new_t = old_t.push(c);
            if has_control {
                let j = choose|j: int| 0 <= j < old_t.len() && #[trigger] is_control_char(old_t[j]);
                assert(new_t[j] == old_t[j]);
            }
            if is_control_char(c) {
                assert(new_t[old_t.len() as int] == c);
            }
            if !has_control && !is_control_char(c) {
                assert forall|j: int| 0 <= j < new_t.len() implies !#[trigger] is_control_char(new_t[j]) by {
                    if j < old_t.len() {
                        assert(new_t[j] == old_t[j]);
                    }
                }
            }
        }
        has_control = has_control || c.is_control();
        trimmed.push(c);
        i = i + 1;
    }
    let text = string_of(trimmed.as_slice());
    if trimmed.len() == 0 {
        return Ok(None);
    }
    let normalized = normalize_safe_word(text.as_str());
    if normalized.len() == 0 {
        return Ok(None);
    }
    if trimmed.len() > MAX_SAFE_WORD_CHARS || has_control {
        return Err("safe_word is invalid".to_owned());
    }
    Ok(Some(text))
}


/// A configured safe word whose normal form is not empty stops the
/// conversation when the user types it; a missing or blank one never
/// matches anything.
pub proof fn law_safe_word_matches_itself_unless_blank(word: Seq<char>, input: Seq<char>)
    ensures
        safe_word_match_spec(Some(word), word) <==> normalized_safe_word(word).len() > 0,
        !safe_word_match_spec(None, input),
        normalized_safe_word(word).len() == 0 ==> !safe_word_match_spec(Some(word), input),
{
}

/// A phrase that sanitizing accepts is stored trimmed, and the stored phrase
/// matches itself; an entered phrase without surrounding white space is
/// stored as entered, so it matches the very utterance it was entered as.
pub proof fn law_sanitized_safe_word_matches_itself(value: Seq<char>, stored: Seq<char>)
    requires
        sanitized_safe_word(value) == Ok::<Option<Seq<char>>, ()>(Some(stored)),
    ensures
        stored == trim_ws(value),
        safe_word_match_spec(Some(stored), stored),
        trim_ws(value) == value ==> safe_word_match_spec(Some(stored), value),
{
}

/// A phrase that sanitizing accepted is accepted again unchanged: sanitizing
/// is a fixed point on what it stores.
pub proof fn law_sanitized_safe_word_is_a_fixed_point(value: Seq<char>, stored: Seq<char>)
    requires
        sanitized_safe_word(value) == Ok::<Option<Seq<char>>, ()>(Some(stored)),
    ensures
        sanitized_safe_word(stored) == Ok::<Option<Seq<char>>, ()>(Some(stored)),
{
    crate::text::lemma_trim_ws_idempotent(value);
}

/// Utterances with the same normal form are treated alike.
pub proof fn law_matching_depends_only_on_normal_form(word: Option<Seq<char>>, a: Seq<char>, b: Seq<char>)
    requires
        normalized_safe_word(a) == normalized_safe_word(b),
    ensures
        safe_word_match_spec(word, a) == safe_word_match_spec(word, b),
{
}

} // verus!
