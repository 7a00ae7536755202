//! Prompt context of the conversation worker and character control dispatch.

use vstd::prelude::*;

use crate::behavior::personas::{option_string_view, ResolvedPersonaPrompt};
use crate::character::catalog::{copy_string, copy_strings, CharacterCapabilities};
use crate::character::setup::CharacterRendererKind;
use crate::chat::enrichment::{QueueMetrics, WakeOutcome};
use crate::text::{chars_of, push_chars, seq_join, str_equal, string_of, string_views};

verus! {

/// Kept messages of context (user and assistant combined).
pub const MAX_HISTORY_MESSAGES: usize = 20;
/// How long one LLM adapter call may take, in seconds; local streaming
/// inference must fit.
pub const ADAPTER_TIMEOUT_SECONDS: u64 = 120;
pub const SUBMIT_QUEUE_CAPACITY: usize = 8;
pub const CONVERSATION_QUEUE_CAPACITY: usize = 8;

pub open spec fn joined_names_line(label: Seq<char>, names: Seq<Seq<char>>) -> Seq<Seq<char>> {
    if names.len() == 0 {
        Seq::empty()
    } else {
        seq![label + seq_join(names, ", "@)]
    }
}

/// The base prompt followed by the expression and motion names the loaded
/// character understands.
pub open spec fn character_instruction_spec(base: Seq<char>, expressions: Seq<Seq<char>>, motions: Seq<Seq<char>>) -> Seq<char> {
    seq_join(
        seq![base] + joined_names_line("利用できる表情(emotion): "@, expressions) + joined_names_line(
            "利用できるモーション(motion): "@,
            motions,
        ),
        "\n"@,
    )
}

fn join_strings(values: &Vec<String>, sep: &str) -> (r: Vec<char>)
    ensures
        r@ == seq_join(string_views(values@), sep@),
{
    let mut list: Vec<Vec<char>> = Vec::new();
    let mut i: usize = 0;
    while i < values.len()
        invariant
            i <= values@.len(),
            crate::text::views(list@) == string_views(values@).take(i as int),
        decreases values.len() - i,
    {
        let ghost before = list@;
        list.push(chars_of(values[i].as_str()));
        assert(crate::text::views(list@) =~= crate::text::views(before).push(values@[i as int]@));
        assert(string_views(values@).take(i as int + 1) =~= string_views(values@).take(i as int).push(values@[i as int]@));
        i = i + 1;
    }
    assert(string_views(values@).take(values@.len() as int) =~= string_views(values@));
    crate::text::join_chars(&list, sep)
}

/// Appends the loaded character's expression and motion names so the model
/// can emit control JSON the renderer understands.
pub fn character_instruction(base: &str, capabilities: &CharacterCapabilities) -> (r: String)
    ensures
        r@ == character_instruction_spec(
            base@,
            string_views(capabilities.expressions@),
            string_views(capabilities.motions@),
        ),
{
    let mut lines: Vec<Vec<char>> = Vec::new();
    lines.push(chars_of(base));
    if capabilities.expressions.len() > 0 {
        let mut line = chars_of("利用できる表情(emotion): ");
        let names = join_strings(&capabilities.expressions, ", ");
        push_chars(&mut line, &names);
        let ghost before = lines@;
        lines.push(line);
        assert(crate::text::views(lines@) =~= crate::text::views(before).push(line@));
    }
    if capabilities.motions.len() > 0 {
        let mut line = chars_of("利用できるモーション(motion): ");
        let names = join_strings(&capabilities.motions, ", ");
        push_chars(&mut line, &names);
        let ghost before = lines@;
        lines.push(line);
        assert(crate::text::views(lines@) =~= crate::text::views(before).push(line@));
    }
    assert(crate::text::views(lines@) =~= seq![base@] + joined_names_line(
        "利用できる表情(emotion): "@,
        string_views(capabilities.expressions@),
    ) + joined_names_line("利用できるモーション(motion): "@, string_views(capabilities.motions@)));
    let joined = crate::text::join_chars(&lines, "\n");
    string_of(joined.as_slice())
}

/// The character as the conversation worker captured it with its prompt.
#[derive(Debug)]
pub struct CharacterSnapshot {
    pub id: String,
    pub renderer: CharacterRendererKind,
    pub capabilities: CharacterCapabilities,
}

/// What the control dispatcher may act on.
#[derive(Debug)]
pub struct CharacterControlContext {
    pub renderer: CharacterRendererKind,
    pub capabilities: CharacterCapabilities,
}

#[derive(Debug)]
pub struct ChatWorkerContext {
    pub character_prompt: String,
    pub persona_fingerprint: String,
    pub character: Option<CharacterSnapshot>,
}

fn copy_capabilities(c: &CharacterCapabilities) -> (r: CharacterCapabilities)
    ensures
        string_views(r.expressions@) == string_views(c.expressions@),
        string_views(r.motions@) == string_views(c.motions@),
{
    CharacterCapabilities { expressions: copy_strings(&c.expressions), motions: copy_strings(&c.motions) }
}

impl ChatWorkerContext {
    /// The renderer and capabilities captured together with the prompt.
    pub fn character_control_context(&self) -> (r: Option<CharacterControlContext>)
        ensures
            r is Some <==> self.character is Some,
            r is Some ==> r->0.renderer == self.character->0.renderer && string_views(
                r->0.capabilities.expressions@,
            ) == string_views(self.character->0.capabilities.expressions@) && string_views(
                r->0.capabilities.motions@,
            ) == string_views(self.character->0.capabilities.motions@),
    {
        match &self.character {
            Some(character) => Some(
                CharacterControlContext {
                    renderer: character.renderer,
                    capabilities: copy_capabilities(&character.capabilities),
                },
            ),
            None => None,
        }
    }
}

/// Builds the worker context: the character's capabilities are added to
/// the prompt only when the snapshot is the character the persona was
/// resolved for.
pub fn prepare_worker_context(persona: ResolvedPersonaPrompt, character: Option<CharacterSnapshot>) -> (r: ChatWorkerContext)
    ensures
        ({
            let matches = character is Some && option_string_view(persona.character_id) == Some(
                character->0.id@,
            );
            &&& r.persona_fingerprint@ == persona.fingerprint@
            &&& (matches ==> r.character == character && r.character_prompt@
                == character_instruction_spec(
                persona.character_prompt@,
                string_views(character->0.capabilities.expressions@),
                string_views(character->0.capabilities.motions@),
            ))
            &&& (!matches ==> r.character is None && r.character_prompt@ == persona.character_prompt@)
        }),
{
    let same = match (&persona.character_id, &character) {
        (Some(id), Some(snapshot)) => str_equal(id.as_str(), snapshot.id.as_str()),
        _ => false,
    };
    let matching = if same {
        character
    } else {
        None
    };
    let character_prompt = match &matching {
        Some(snapshot) => character_instruction(persona.character_prompt.as_str(), &snapshot.capabilities),
        None => copy_string(&persona.character_prompt),
    };
    ChatWorkerContext { character_prompt, persona_fingerprint: persona.fingerprint, character: matching }
}

/// Emotion and motion names requested by a reply's control prelude.
#[derive(Debug)]
pub struct ReplyControl {
    pub emotion: Option<String>,
    pub motion: Option<String>,
}

/// An event for the character window.
#[derive(Debug)]
pub enum CharacterControlEvent {
    Expression(String),
    Motion(String),
}

pub open spec fn event_views(es: Seq<CharacterControlEvent>) -> Seq<(bool, Seq<char>)> {
    es.map_values(|e: CharacterControlEvent| match e {
        CharacterControlEvent::Expression(n) => (true, n@),
        CharacterControlEvent::Motion(n) => (false, n@),
    })
}

/// Control events the character renderer may receive: a requested emotion
/// or motion is forwarded only when the character supports it.
pub open spec fn control_events(expressions: Seq<Seq<char>>, motions: Seq<Seq<char>>, emotion: Option<Seq<char>>, motion: Option<Seq<char>>) -> Seq<(bool, Seq<char>)> {
    let e = match emotion {
        Some(n) => if expressions.contains(n) {
            seq![(true, n)]
        } else {
            Seq::empty()
        },
        None => Seq::empty(),
    };
    let m = match motion {
        Some(n) => if motions.contains(n) {
            seq![(false, n)]
        } else {
            Seq::empty()
        },
        None => Seq::empty(),
    };
    e + m
}

fn contains_name(v: &Vec<String>, s: &String) -> (r: bool)
    ensures
        r == string_views(v@).contains(s@),
{
    let mut i: usize = 0;
    while i < v.len()
        invariant
            i <= v@.len(),
            forall|j: int| 0 <= j < i ==> v@[j]@ != s@,
        decreases v.len() - i,
    {
        if str_equal(v[i].as_str(), s.as_str()) {
            assert(string_views(v@)[i as int] == s@);
            return true;
        }
        i = i + 1;
    }
    proof {
        if string_views(v@).contains(s@) {
            let j = choose|j: int| 0 <= j < string_views(v@).len() && string_views(v@)[j] == s@;
            assert(v@[j]@ == s@);
        }
    }
    false
}

pub fn dispatch_character_control(capabilities: &CharacterCapabilities, control: &ReplyControl) -> (r: Vec<CharacterControlEvent>)
    ensures
        event_views(r@) == control_events(
            string_views(capabilities.expressions@),
            string_views(capabilities.motions@),
            option_string_view(control.emotion),
            option_string_view(control.motion),
        ),
{
    let mut events: Vec<CharacterControlEvent> = Vec::new();
    if let Some(emotion) = &control.emotion {
        if contains_name(&capabilities.expressions, emotion) {
            events.push(CharacterControlEvent::Expression(copy_string(emotion)));
        }
    }
    let ghost mid = event_views(events@);
    if let Some(motion) = &control.motion {
        if contains_name(&capabilities.motions, motion) {
            events.push(CharacterControlEvent::Motion(copy_string(motion)));
            assert(event_views(events@) =~= mid.push((false, motion@)));
        }
    }
    assert(event_views(events@) =~= control_events(
        string_views(capabilities.expressions@),
        string_views(capabilities.motions@),
        option_string_view(control.emotion),
        option_string_view(control.motion),
    ));
    events
}


// ---------------------------------------------------------------- service rules

pub const DEFAULT_CONVERSATION_ID: &'static str = "default";
/// Delay before the next memory maintenance pass, in milliseconds.
pub const MEMORY_MAINTENANCE_INTERVAL_MILLIS: u64 = 86_400_000;
/// Delay before continuing maintenance that reported remaining work.
pub const MEMORY_MAINTENANCE_FOLLOWUP_MILLIS: u64 = 100;
pub const CONVERSATION_BUSY_MESSAGE: &'static str = "conversation is busy; please retry";
pub const CONVERSATION_UNAVAILABLE_MESSAGE: &'static str = "conversation worker is not available";

pub open spec fn depth_after_enqueue(d: nat) -> nat {
    if d < usize::MAX {
        d + 1
    } else {
        d
    }
}

pub open spec fn depth_after_dequeue(d: nat) -> nat {
    if d > 0 {
        (d - 1) as nat
    } else {
        0
    }
}

pub open spec fn bumped(x: u64) -> int {
    if x < u64::MAX {
        x + 1
    } else {
        x as int
    }
}

/// Accounts a submitted message on the submit queue's counters: a full
/// queue counts as busy and dropped, a gone worker as dropped, and both are
/// answered with a stable message.
pub fn record_submit(metrics: &mut QueueMetrics, outcome: WakeOutcome) -> (r: Result<(), String>)
    ensures
        final(metrics).capacity_spec() == old(metrics).capacity_spec(),
        final(metrics).coalesced_spec() == old(metrics).coalesced_spec(),
        outcome is Sent ==> r is Ok && final(metrics).depth_spec() == depth_after_enqueue(old(metrics).depth_spec())
            && final(metrics).dropped_spec() == old(metrics).dropped_spec() && final(metrics).busy_spec()
            == old(metrics).busy_spec(),
        outcome is Full ==> r is Err && r->Err_0@ == CONVERSATION_BUSY_MESSAGE@ && final(metrics).depth_spec()
            == depth_after_dequeue(depth_after_enqueue(old(metrics).depth_spec())) && final(metrics).busy_spec()
            == bumped(old(metrics).busy_spec()) && final(metrics).dropped_spec() == bumped(old(metrics).dropped_spec()),
        outcome is Disconnected ==> r is Err && r->Err_0@ == CONVERSATION_UNAVAILABLE_MESSAGE@
            && final(metrics).depth_spec() == depth_after_dequeue(depth_after_enqueue(old(metrics).depth_spec()))
            && final(metrics).busy_spec() == old(metrics).busy_spec() && final(metrics).dropped_spec() == bumped(
            old(metrics).dropped_spec(),
        ),
{
    metrics.enqueued();
    match outcome {
        WakeOutcome::Sent => Ok(()),
        WakeOutcome::Full => {
            metrics.dequeued();
            metrics.busy();
            metrics.dropped();
            Err(copy_str(CONVERSATION_BUSY_MESSAGE))
        },
        WakeOutcome::Disconnected => {
            metrics.dequeued();
            metrics.dropped();
            Err(copy_str(CONVERSATION_UNAVAILABLE_MESSAGE))
        },
    }
}

fn copy_str(s: &str) -> (r: String)
    ensures
        r@ == s@,
{
    string_of(chars_of(s).as_slice())
}

/// The turn id of a new message: the durable allocator's when it answered,
/// otherwise the next id of the process fallback range.
pub fn choose_turn_id(durable: Option<u64>, fallback: &mut u64) -> (r: u64)
    ensures
        durable is Some ==> r == durable->0 && *final(fallback) == *old(fallback),
        durable is None ==> r == *old(fallback) && *final(fallback) == crate::logs::wrapping_next(*old(fallback)),
{
    match durable {
        Some(id) => id,
        None => {
            let id = *fallback;
            *fallback = fallback.wrapping_add(1);
            id
        },
    }
}

/// The delay before the next maintenance pass: soon when work remains,
/// otherwise (also after a failure) the regular interval.
pub fn maintenance_delay_millis(remaining: Option<bool>, interval_millis: u64) -> (r: u64)
    ensures
        remaining == Some(true) ==> r == if MEMORY_MAINTENANCE_FOLLOWUP_MILLIS < interval_millis {
            MEMORY_MAINTENANCE_FOLLOWUP_MILLIS
        } else {
            interval_millis
        },
        remaining != Some(true) ==> r == interval_millis,
{
    match remaining {
        Some(true) => if MEMORY_MAINTENANCE_FOLLOWUP_MILLIS < interval_millis {
            MEMORY_MAINTENANCE_FOLLOWUP_MILLIS
        } else {
            interval_millis
        },
        _ => interval_millis,
    }
}

pub open spec fn saturating_difference(a: i64, b: i64) -> int {
    let d = a - b;
    if d > i64::MAX {
        i64::MAX as int
    } else if d < i64::MIN {
        i64::MIN as int
    } else {
        d
    }
}

/// Seconds until the next observation is due: the saturating difference;
/// a due time that has already passed is due now.
pub fn follow_up_delay_seconds(due_at: i64, now: i64) -> (r: u64)
    ensures
        r == if due_at > now {
            saturating_difference(due_at, now)
        } else {
            0
        },
{
    if due_at > now {
        let d: i128 = (due_at as i128) - (now as i128);
        if d > i64::MAX as i128 {
            i64::MAX as u64
        } else {
            d as u64
        }
    } else {
        0
    }
}

} // verus!
