//! The worker fingerprint: a canonical JSON text of everything a running
//! conversation worker was built from, so a change to any of it restarts
//! the worker.

use vstd::prelude::*;

use crate::character::setup::CharacterRendererKind;
use crate::chat::llm_settings::LlmSettings;
use crate::chat::worker::{CharacterSnapshot, ChatWorkerContext};
use crate::text::{push_chars, push_str, seq_join, string_of, string_views};

verus! {

pub open spec fn hex_digit(n: nat) -> char {
    if n < 10 {
        ((48 + n) as u32) as char
    } else {
        ((87 + n) as u32) as char
    }
}

/// The JSON escape of one character: quote, backslash and control
/// characters are escaped, everything else is kept.
pub open spec fn json_escape_char(c: char) -> Seq<char> {
    let n = c as u32;
    if c == '"' {
        seq!['\\', '"']
    } else if c == '\\' {
        seq!['\\', '\\']
    } else if n == 8 {
        seq!['\\', 'b']
    } else if n == 9 {
        seq!['\\', 't']
    } else if n == 10 {
        seq!['\\', 'n']
    } else if n == 12 {
        seq!['\\', 'f']
    } else if n == 13 {
        seq!['\\', 'r']
    } else if n < 0x20 {
        seq!['\\', 'u', '0', '0', hex_digit((n / 16) as nat), hex_digit((n % 16) as nat)]
    } else {
        seq![c]
    }
}

pub open spec fn json_escape(s: Seq<char>) -> Seq<char>
    decreases s.len(),
{
    if s.len() == 0 {
        Seq::empty()
    } else {
        json_escape(s.drop_last()) + json_escape_char(s.last())
    }
}

/// A JSON string literal.
pub open spec fn json_string(s: Seq<char>) -> Seq<char> {
    seq!['"'] + json_escape(s) + seq!['"']
}

fn hex_char(n: u32) -> (c: char)
    requires
        n < 16,
    ensures
        c == hex_digit(n as nat),
{
    if n < 10 {
        ((48 + n) as u8) as char
    } else {
        ((87 + n) as u8) as char
    }
}

fn push_escaped_char(out: &mut Vec<char>, c: char)
    ensures
        final(out)@ == old(out)@ + json_escape_char(c),
{
    let n = c as u32;
    let ghost start = out@;
    if c == '"' {
        out.push('\\');
        out.push('"');
    } else if c == '\\' {
        out.push('\\');
        out.push('\\');
    } else if n == 8 {
        out.push('\\');
        out.push('b');
    } else if n == 9 {
        out.push('\\');
        out.push('t');
    } else if n == 10 {
        out.push('\\');
        out.push('n');
    } else if n == 12 {
        out.push('\\');
        out.push('f');
    } else if n == 13 {
        out.push('\\');
        out.push('r');
    } else if n < 0x20 {
        out.push('\\');
        out.push('u');
        out.push('0');
        out.push('0');
        out.push(hex_char(n / 16));
        out.push(hex_char(n % 16));
    } else {
        out.push(c);
    }
    assert(out@ =~= start + json_escape_char(c));
}

/// Appends `s` as a JSON string literal.
pub fn push_json_string(out: &mut Vec<char>, s: &str)
    ensures
        final(out)@ == old(out)@ + json_string(s@),
{
    let chars = crate::text::chars_of(s);
    let ghost start = out@;
    out.push('"');
    let mut i: usize = 0;
    while i < chars.len()
        invariant
            i <= chars@.len(),
            chars@ == s@,
            out@ == start + seq!['"'] + json_escape(chars@.take(i as int)),
        decreases chars.len() - i,
    {
        push_escaped_char(out, chars[i]);
        assert(chars@.take(i as int + 1).drop_last() =~= chars@.take(i as int));
        i = i + 1;
    }
    assert(chars@.take(chars@.len() as int) =~= chars@);
    out.push('"');
    assert(out@ =~= start + json_string(s@));
}

pub open spec fn json_bool(b: bool) -> Seq<char> {
    if b {
        "true"@
    } else {
        "false"@
    }
}

pub open spec fn json_string_array(items: Seq<Seq<char>>) -> Seq<char> {
    "["@ + seq_join(items.map_values(|s: Seq<char>| json_string(s)), ","@) + "]"@
}

pub open spec fn renderer_json(kind: CharacterRendererKind) -> Seq<char> {
    match kind {
        CharacterRendererKind::Live2d => "\"live2d\""@,
        CharacterRendererKind::StaticImage => "\"static_image\""@,
    }
}

pub open spec fn character_json(character: Option<CharacterSnapshot>) -> Seq<char> {
    match character {
        None => "null"@,
        Some(c) => "{\"expressions\":"@ + json_string_array(string_views(c.capabilities.expressions@))
            + ",\"id\":"@ + json_string(c.id@) + ",\"motions\":"@ + json_string_array(
            string_views(c.capabilities.motions@),
        ) + ",\"renderer\":"@ + renderer_json(c.renderer) + "}"@,
    }
}

fn push_character(out: &mut Vec<char>, character: &Option<CharacterSnapshot>)
    ensures
        final(out)@ == old(out)@ + character_json(*character),
{
    let ghost start = out@;
    match character {
        None => push_str(out, "null"),
        Some(c) => {
            push_str(out, "{\"expressions\":");
            push_string_array(out, &c.capabilities.expressions);
            push_str(out, ",\"id\":");
            push_json_string(out, c.id.as_str());
            push_str(out, ",\"motions\":");
            push_string_array(out, &c.capabilities.motions);
            push_str(out, ",\"renderer\":");
            match c.renderer {
                CharacterRendererKind::Live2d => push_str(out, "\"live2d\""),
                CharacterRendererKind::StaticImage => push_str(out, "\"static_image\""),
            }
            push_str(out, "}");
        },
    }
    assert(out@ =~= start + character_json(*character));
}

/// The fingerprint as compact JSON with object keys in sorted order.
pub open spec fn worker_fingerprint_spec(settings: LlmSettings, context: ChatWorkerContext) -> Seq<char> {
    "{\"allow_remote\":"@ + json_bool(settings.allow_remote) + ",\"base_url\":"@ + json_string(
        settings.base_url@,
    ) + ",\"character\":"@ + character_json(context.character) + ",\"character_prompt\":"@ + json_string(context.character_prompt@) + ",\"model\":"@
        + json_string(settings.model@) + ",\"persona\":"@ + json_string(context.persona_fingerprint@)
        + ",\"strip_emoji\":"@ + json_bool(settings.strip_emoji) + ",\"system_prompt\":"@ + json_string(
        settings.system_prompt@,
    ) + ",\"version\":1}"@
}

fn push_bool(out: &mut Vec<char>, b: bool)
    ensures
        final(out)@ == old(out)@ + json_bool(b),
{
    if b {
        push_str(out, "true");
    } else {
        push_str(out, "false");
    }
}

fn push_string_array(out: &mut Vec<char>, items: &Vec<String>)
    ensures
        final(out)@ == old(out)@ + json_string_array(string_views(items@)),
{
    let ghost start = out@;
    let ghost lits = string_views(items@).map_values(|s: Seq<char>| json_string(s));
    push_str(out, "[");
    let mut i: usize = 0;
    while i < items.len()
        invariant
            i <= items@.len(),
            lits == string_views(items@).map_values(|s: Seq<char>| json_string(s)),
            out@ == start + "["@ + seq_join(lits.take(i as int), ","@),
        decreases items.len() - i,
    {
        let ghost prefix = lits.take(i as int + 1);
        assert(prefix.drop_last() =~= lits.take(i as int));
        assert(prefix.last() == json_string(items@[i as int]@));
        if i != 0 {
            push_str(out, ",");
        } else {
            assert(prefix.len() == 1);
        }
        push_json_string(out, items[i].as_str());
        assert(out@ =~= start + "["@ + seq_join(prefix, ","@));
        i = i + 1;
    }
    assert(lits.take(items@.len() as int) =~= lits);
    push_str(out, "]");
    assert(out@ =~= start + json_string_array(string_views(items@)));
}

/// The fingerprint of the settings and prompt context a worker runs with.
pub fn worker_fingerprint(settings: &LlmSettings, context: &ChatWorkerContext) -> (r: String)
    ensures
        r@ == worker_fingerprint_spec(*settings, *context),
{
    let mut out: Vec<char> = Vec::new();
    push_str(&mut out, "{\"allow_remote\":");
    push_bool(&mut out, settings.allow_remote);
    push_str(&mut out, ",\"base_url\":");
    push_json_string(&mut out, settings.base_url.as_str());
    push_str(&mut out, ",\"character\":");
    push_character(&mut out, &context.character);
    push_str(&mut out, ",\"character_prompt\":");
    push_json_string(&mut out, context.character_prompt.as_str());
    push_str(&mut out, ",\"model\":");
    push_json_string(&mut out, settings.model.as_str());
    push_str(&mut out, ",\"persona\":");
    push_json_string(&mut out, context.persona_fingerprint.as_str());
    push_str(&mut out, ",\"strip_emoji\":");
    push_bool(&mut out, settings.strip_emoji);
    push_str(&mut out, ",\"system_prompt\":");
    push_json_string(&mut out, settings.system_prompt.as_str());
    push_str(&mut out, ",\"version\":1}");
    assert(out@ =~= worker_fingerprint_spec(*settings, *context));
    string_of(out.as_slice())
}

} // verus!
