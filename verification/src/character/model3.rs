//! The parts of a Live2D `model3.json` document that character loading and
//! import read: expression names, motion groups, and referenced files.

use vstd::prelude::*;

use crate::character::catalog::MotionGroup;
use crate::text::{chars_of, str_equal, string_of};

verus! {

/// A JSON document as values. Numbers carry no value: nothing here reads
/// one.
#[derive(Debug)]
pub enum JsonValue {
    Null,
    Bool(bool),
    Number,
    Str(String),
    Array(Vec<JsonValue>),
    /// Members in the order the document map yields them; keys are unique.
    Object(Vec<JsonMember>),
}

#[derive(Debug)]
pub struct JsonMember {
    pub key: String,
    pub value: JsonValue,
}

#[verifier::external_type_specification]
#[verifier::external_body]
pub struct ExSerdeJsonValue(serde_json::Value);

/// What `serde_json` reads from a JSON text, converted value for value;
/// `None` where it refuses the text.
pub uninterp spec fn parsed_json(content: Seq<char>) -> Option<JsonValue>;

/// What `serde_json` reads from JSON bytes, converted value for value;
/// `None` where it refuses them.
pub uninterp spec fn parsed_json_bytes(bytes: Seq<u8>) -> Option<JsonValue>;

/// Converts a `serde_json::Value` into this library's value, one for one:
/// object members keep the order in which the map yields them. Nothing is
/// stated here; `parse_json` and `parse_json_bytes` state the composite.
#[verifier::external_body]
fn json_value_from(value: &serde_json::Value) -> (r: JsonValue) {
    match value {
        serde_json::Value::Null => JsonValue::Null,
        serde_json::Value::Bool(b) => JsonValue::Bool(*b),
        serde_json::Value::Number(_) => JsonValue::Number,
        serde_json::Value::String(text) => JsonValue::Str(text.clone()),
        serde_json::Value::Array(items) => {
            let mut out = Vec::new();
            for item in items { out.push(json_value_from(item)); } JsonValue::Array(out)
        },
        serde_json::Value::Object(map) => {
            let mut out = Vec::new();
            for (key, item) in map { out.push(JsonMember { key: key.clone(), value: json_value_from(item) }); } JsonValue::Object(out)
        },
    }
}

/// Calls `serde_json::from_str` into a `serde_json::Value`: `Ok` of the
/// converted document exactly when serde_json accepts the text, otherwise
/// `Err` of serde_json's message (its wording is not stated).
#[verifier::external_body]
fn parse_json(content: &str) -> (r: Result<JsonValue, String>)
    ensures
        match parsed_json(content@) {
            Some(j) => r == Ok::<JsonValue, String>(j),
            None => r is Err,
        },
{
    match serde_json::from_str::<serde_json::Value>(content) {
        Ok(value) => Ok(json_value_from(&value)),
        Err(error) => Err(error.to_string()),
    }
}

/// Calls `serde_json::from_slice` into a `serde_json::Value`: `Ok` of the
/// converted document exactly when serde_json accepts the bytes, otherwise
/// `Err` of serde_json's message (its wording is not stated).
#[verifier::external_body]
pub(crate) fn parse_json_bytes(bytes: &[u8]) -> (r: Result<JsonValue, String>)
    ensures
        match parsed_json_bytes(bytes@) {
            Some(j) => r == Ok::<JsonValue, String>(j),
            None => r is Err,
        },
{
    match serde_json::from_slice::<serde_json::Value>(bytes) {
        Ok(value) => Ok(json_value_from(&value)),
        Err(error) => Err(error.to_string()),
    }
}

/// The value of the first member named `key`, if any.
pub open spec fn member_value(members: Seq<JsonMember>, key: Seq<char>) -> Option<JsonValue>
    decreases members.len(),
{
    if members.len() == 0 {
        None
    } else if members[0].key@ == key {
        Some(members[0].value)
    } else {
        member_value(members.drop_first(), key)
    }
}

/// Indexing a value by key: the member's value for an object holding it,
/// `Null` otherwise.
pub open spec fn json_get(v: JsonValue, key: Seq<char>) -> JsonValue {
    match v {
        JsonValue::Object(members) => match member_value(members@, key) {
            Some(x) => x,
            None => JsonValue::Null,
        },
        _ => JsonValue::Null,
    }
}

/// Looks up `key`; `None` stands for the `Null` that indexing yields.
pub fn json_field<'a>(v: &'a JsonValue, key: &str) -> (r: Option<&'a JsonValue>)
    ensures
        match r {
            Some(x) => *x == json_get(*v, key@) && !(*x is Null),
            None => json_get(*v, key@) is Null,
        },
{
    match v {
        JsonValue::Object(members) => {
            let mut i: usize = 0;
            assert(members@.skip(0) =~= members@);
            while i < members.len()
                invariant
                    i <= members@.len(),
                    *v == JsonValue::Object(*members),
                    member_value(members@, key@) == member_value(members@.skip(i as int), key@),
                decreases members.len() - i,
            {
                proof {
                    assert(members@.skip(i as int).drop_first() =~= members@.skip(i as int + 1));
                    assert(members@.skip(i as int)[0] == members@[i as int]);
                }
                if str_equal(members[i].key.as_str(), key) {
                    let value = &members[i].value;
                    assert(member_value(members@, key@) == Some(*value));
                    return match value {
                        JsonValue::Null => None,
                        _ => Some(value),
                    };
                }
                i = i + 1;
            }
            None
        },
        _ => None,
    }
}

fn copy_chars(s: &String) -> (r: String)
    ensures
        r@ == s@,
{
    string_of(chars_of(s.as_str()).as_slice())
}

// ---------------------------------------------------------------- manifest

/// What loading reads from a `model3.json`.
#[derive(Debug)]
pub struct CharacterManifest {
    pub model_path: String,
    pub expressions: Vec<String>,
    /// Motion group names with their motion counts, in document order.
    pub motion_groups: Vec<MotionGroup>,
}

/// Names of the expression entries that have a string `Name`.
pub open spec fn expression_names(entries: Seq<JsonValue>) -> Seq<Seq<char>>
    decreases entries.len(),
{
    if entries.len() == 0 {
        Seq::empty()
    } else {
        let prev = expression_names(entries.drop_last());
        match json_get(entries.last(), "Name"@) {
            JsonValue::Str(s) => prev.push(s@),
            _ => prev,
        }
    }
}

pub open spec fn manifest_expressions(json: JsonValue) -> Seq<Seq<char>> {
    match json_get(json_get(json, "FileReferences"@), "Expressions"@) {
        JsonValue::Array(entries) => expression_names(entries@),
        _ => Seq::empty(),
    }
}

pub open spec fn motion_count(v: JsonValue) -> u32 {
    match v {
        JsonValue::Array(items) => if items@.len() > u32::MAX {
            u32::MAX
        } else {
            items@.len() as u32
        },
        _ => 0,
    }
}

pub open spec fn manifest_motion_groups(json: JsonValue) -> Seq<(Seq<char>, u32)> {
    match json_get(json_get(json, "FileReferences"@), "Motions"@) {
        JsonValue::Object(groups) => groups@.map_values(|g: JsonMember| (g.key@, motion_count(g.value))),
        _ => Seq::empty(),
    }
}

pub open spec fn motion_group_views(gs: Seq<MotionGroup>) -> Seq<(Seq<char>, u32)> {
    gs.map_values(|g: MotionGroup| (g.name@, g.motion_count))
}

/// Reads expression names (entries without a string name are skipped) and
/// motion groups with their sizes from a parsed `model3.json`.
pub fn parse_model3_manifest(model_path: &str, json: &JsonValue) -> (m: CharacterManifest)
    ensures
        m.model_path@ == model_path@,
        crate::text::string_views(m.expressions@) == manifest_expressions(*json),
        motion_group_views(m.motion_groups@) == manifest_motion_groups(*json),
{
    let mut expressions: Vec<String> = Vec::new();
    let mut motion_groups: Vec<MotionGroup> = Vec::new();
    let refs = json_field(json, "FileReferences");
    let ghost file_refs = json_get(*json, "FileReferences"@);
    let exprs = match refs {
        Some(r) => json_field(r, "Expressions"),
        None => None,
    };
    if let Some(JsonValue::Array(entries)) = exprs {
        let mut i: usize = 0;
        while i < entries.len()
            invariant
                i <= entries@.len(),
                crate::text::string_views(expressions@) == expression_names(entries@.take(i as int)),
            decreases entries.len() - i,
        {
            proof {
                assert(entries@.take(i as int + 1).drop_last() =~= entries@.take(i as int));
            }
            match json_field(&entries[i], "Name") {
                Some(JsonValue::Str(name)) => {
                    let ghost before = expressions@;
                    expressions.push(copy_chars(name));
                    assert(crate::text::string_views(expressions@) =~= crate::text::string_views(before).push(
                        name@,
                    ));
                },
                _ => {},
            }
            i = i + 1;
        }
        assert(entries@.take(entries@.len() as int) =~= entries@);
    }
    let motions = match refs {
        Some(r) => json_field(r, "Motions"),
        None => None,
    };
    if let Some(JsonValue::Object(groups)) = motions {
        let mut i: usize = 0;
        while i < groups.len()
            invariant
                i <= groups@.len(),
                motion_group_views(motion_groups@) == groups@.take(i as int).map_values(
                    |g: JsonMember| (g.key@, motion_count(g.value)),
                ),
            decreases groups.len() - i,
        {
            let count: u32 = match &groups[i].value {
                JsonValue::Array(items) => if items.len() as u64 > u32::MAX as u64 {
                    u32::MAX
                } else {
                    items.len() as u32
                },
                _ => 0,
            };
            let ghost before = motion_groups@;
            motion_groups.push(MotionGroup { name: copy_chars(&groups[i].key), motion_count: count });
            proof {
                assert(motion_group_views(motion_groups@) =~= motion_group_views(before).push(
                    (groups@[i as int].key@, count),
                ));
                assert(groups@.take(i as int + 1).map_values(|g: JsonMember| (g.key@, motion_count(g.value)))
                    =~= groups@.take(i as int).map_values(|g: JsonMember| (g.key@, motion_count(g.value))).push(
                    (groups@[i as int].key@, motion_count(groups@[i as int].value)),
                ));
            }
            i = i + 1;
        }
        assert(groups@.take(groups@.len() as int) =~= groups@);
    }
    CharacterManifest { model_path: string_of(chars_of(model_path).as_slice()), expressions, motion_groups }
}


// ---------------------------------------------------------------- references

/// A reference that must be a string: the file, or the message naming it.
/// Why a `model3.json` text could not be read.
#[derive(Debug)]
pub enum ManifestError {
    /// The text is not JSON; carries serde_json's message.
    InvalidJson(String),
}

impl ManifestError {
    /// The error as the user sees it.
    pub fn message(&self) -> (r: String)
        ensures
            match self {
                ManifestError::InvalidJson(detail) => r@ == "model3.json is not valid JSON: "@ + detail@,
            },
    {
        match self {
            ManifestError::InvalidJson(detail) => {
                let mut m = chars_of("model3.json is not valid JSON: ");
                crate::text::push_str(&mut m, detail.as_str());
                string_of(m.as_slice())
            },
        }
    }
}

/// Parses a `model3.json` file's content: its expression names and its
/// motion groups with their motion counts, in document order. Fails exactly
/// when the content is not JSON.
pub fn parse_model3_json(model_path: &str, content: &str) -> (r: Result<CharacterManifest, ManifestError>)
    ensures
        r is Err <==> parsed_json(content@) is None,
        r is Ok ==> r->Ok_0.model_path@ == model_path@ && crate::text::string_views(r->Ok_0.expressions@)
            == manifest_expressions(parsed_json(content@)->0) && motion_group_views(r->Ok_0.motion_groups@)
            == manifest_motion_groups(parsed_json(content@)->0),
{
    match parse_json(content) {
        Ok(json) => Ok(parse_model3_manifest(model_path, &json)),
        Err(detail) => Err(ManifestError::InvalidJson(detail)),
    }
}

pub open spec fn required_reference(v: JsonValue, label: Seq<char>) -> Result<Seq<Seq<char>>, Seq<char>> {
    match v {
        JsonValue::Str(s) => Ok(seq![s@]),
        _ => Err(label + " must be a string"@),
    }
}

/// A reference that may be absent (`null`).
pub open spec fn optional_reference(v: JsonValue, label: Seq<char>) -> Result<Seq<Seq<char>>, Seq<char>> {
    if v is Null {
        Ok(Seq::empty())
    } else {
        required_reference(v, label)
    }
}

/// The first error of `a` then `b`, or both reference lists in order.
pub open spec fn and_then_refs(a: Result<Seq<Seq<char>>, Seq<char>>, b: Result<Seq<Seq<char>>, Seq<char>>) -> Result<
    Seq<Seq<char>>,
    Seq<char>,
> {
    match a {
        Err(e) => Err(e),
        Ok(x) => match b {
            Err(e) => Err(e),
            Ok(y) => Ok(x + y),
        },
    }
}

/// Folds `step` over `items`, stopping at the first error.
pub open spec fn fold_refs<A>(items: Seq<A>, step: spec_fn(A) -> Result<Seq<Seq<char>>, Seq<char>>) -> Result<
    Seq<Seq<char>>,
    Seq<char>,
>
    decreases items.len(),
{
    if items.len() == 0 {
        Ok(Seq::empty())
    } else {
        and_then_refs(fold_refs(items.drop_last(), step), step(items.last()))
    }
}

proof fn lemma_first_error_stays<A>(items: Seq<A>, step: spec_fn(A) -> Result<Seq<Seq<char>>, Seq<char>>, k: int, j: int)
    requires
        0 <= k <= j <= items.len(),
        fold_refs(items.take(k), step) is Err,
    ensures
        fold_refs(items.take(j), step) == fold_refs(items.take(k), step),
    decreases j - k,
{
    if j > k {
        lemma_first_error_stays(items, step, k, j - 1);
        assert(items.take(j).drop_last() =~= items.take(j - 1));
    }
}

pub open spec fn texture_step() -> spec_fn(JsonValue) -> Result<Seq<Seq<char>>, Seq<char>> {
    |v: JsonValue| required_reference(v, "Textures"@)
}

pub open spec fn expression_step() -> spec_fn(JsonValue) -> Result<Seq<Seq<char>>, Seq<char>> {
    |v: JsonValue| required_reference(json_get(v, "File"@), "Expressions.File"@)
}

pub open spec fn motion_step() -> spec_fn(JsonValue) -> Result<Seq<Seq<char>>, Seq<char>> {
    |m: JsonValue|
        and_then_refs(
            required_reference(json_get(m, "File"@), "Motions.File"@),
            optional_reference(json_get(m, "Sound"@), "Motions.Sound"@),
        )
}

pub open spec fn group_step() -> spec_fn(JsonMember) -> Result<Seq<Seq<char>>, Seq<char>> {
    |g: JsonMember|
        match g.value {
            JsonValue::Array(items) => fold_refs(items@, motion_step()),
            _ => Err("motion group must be an array"@),
        }
}

pub open spec fn textures_section(file_refs: JsonValue) -> Result<Seq<Seq<char>>, Seq<char>> {
    match json_get(file_refs, "Textures"@) {
        JsonValue::Array(items) => fold_refs(items@, texture_step()),
        JsonValue::Null => Ok(Seq::empty()),
        _ => Err("Textures must be an array"@),
    }
}

pub open spec fn expressions_section(file_refs: JsonValue) -> Result<Seq<Seq<char>>, Seq<char>> {
    match json_get(file_refs, "Expressions"@) {
        JsonValue::Array(items) => fold_refs(items@, expression_step()),
        JsonValue::Null => Ok(Seq::empty()),
        _ => Err("Expressions must be an array"@),
    }
}

pub open spec fn motions_section(file_refs: JsonValue) -> Result<Seq<Seq<char>>, Seq<char>> {
    match json_get(file_refs, "Motions"@) {
        JsonValue::Object(groups) => fold_refs(groups@, group_step()),
        JsonValue::Null => Ok(Seq::empty()),
        _ => Err("Motions must be an object"@),
    }
}

/// Every file a Live2D model references, the model file itself first, in
/// document order; or the message of the first malformed reference.
pub open spec fn live2d_references_spec(json: JsonValue, model_file_name: Seq<char>) -> Result<Seq<Seq<char>>, Seq<char>> {
    let f = json_get(json, "FileReferences"@);
    let singles = and_then_refs(
        and_then_refs(
            and_then_refs(
                and_then_refs(
                    and_then_refs(Ok(seq![model_file_name]), optional_reference(json_get(f, "Moc"@), "Moc"@)),
                    optional_reference(json_get(f, "Physics"@), "Physics"@),
                ),
                optional_reference(json_get(f, "Pose"@), "Pose"@),
            ),
            optional_reference(json_get(f, "UserData"@), "UserData"@),
        ),
        optional_reference(json_get(f, "DisplayInfo"@), "DisplayInfo"@),
    );
    and_then_refs(and_then_refs(and_then_refs(singles, textures_section(f)), expressions_section(f)), motions_section(f))
}

pub open spec fn value_or_null(v: Option<&JsonValue>) -> JsonValue {
    match v {
        Some(x) => *x,
        None => JsonValue::Null,
    }
}

fn sub_field<'a>(parent: Option<&'a JsonValue>, key: &str) -> (r: Option<&'a JsonValue>)
    ensures
        value_or_null(r) == json_get(value_or_null(parent), key@),
        r is Some ==> !(*r->0 is Null),
{
    match parent {
        Some(p) => json_field(p, key),
        None => None,
    }
}

/// Appends a required string reference, or returns the message naming it.
fn push_required(out: &mut Vec<String>, v: Option<&JsonValue>, label: &str) -> (r: Result<(), String>)
    ensures
        ({
            let value = match v {
                Some(x) => *x,
                None => JsonValue::Null,
            };
            match required_reference(value, label@) {
                Ok(refs) => r is Ok && crate::text::string_views(final(out)@) == crate::text::string_views(old(out)@) + refs,
                Err(m) => r is Err && r->Err_0@ == m,
            }
        }),
{
    match v {
        Some(JsonValue::Str(s)) => {
            let ghost before = out@;
            out.push(copy_chars(s));
            assert(crate::text::string_views(out@) =~= crate::text::string_views(before) + seq![s@]);
            Ok(())
        },
        _ => {
            let mut m = chars_of(label);
            crate::text::push_str(&mut m, " must be a string");
            Err(string_of(m.as_slice()))
        },
    }
}

fn push_optional(out: &mut Vec<String>, v: Option<&JsonValue>, label: &str) -> (r: Result<(), String>)
    ensures
        ({
            let value = match v {
                Some(x) => *x,
                None => JsonValue::Null,
            };
            match optional_reference(value, label@) {
                Ok(refs) => r is Ok && crate::text::string_views(final(out)@) == crate::text::string_views(old(out)@) + refs,
                Err(m) => r is Err && r->Err_0@ == m,
            }
        }),
{
    match v {
        None => {
            assert(crate::text::string_views(out@) =~= crate::text::string_views(out@) + Seq::<Seq<char>>::empty());
            Ok(())
        },
        Some(JsonValue::Null) => {
            assert(crate::text::string_views(out@) =~= crate::text::string_views(out@) + Seq::<Seq<char>>::empty());
            Ok(())
        },
        _ => push_required(out, v, label),
    }
}


pub open spec fn appended(before: Seq<String>, after: Seq<String>, result: Result<Seq<Seq<char>>, Seq<char>>, r: Result<(), String>) -> bool {
    match result {
        Ok(refs) => r is Ok && crate::text::string_views(after) == crate::text::string_views(before) + refs,
        Err(m) => r is Err && r->Err_0@ == m,
    }
}

fn error_text(message: &str) -> (r: Result<(), String>)
    ensures
        r is Err && r->Err_0@ == message@,
{
    Err(string_of(chars_of(message).as_slice()))
}

fn push_textures(out: &mut Vec<String>, file_refs: Option<&JsonValue>) -> (r: Result<(), String>)
    ensures
        appended(old(out)@, final(out)@, textures_section(value_or_null(file_refs)), r),
{
    let ghost start = out@;
    match sub_field(file_refs, "Textures") {
        None => {
            assert(crate::text::string_views(out@) =~= crate::text::string_views(out@) + Seq::<Seq<char>>::empty());
            Ok(())
        },
        Some(JsonValue::Array(items)) => {
            let mut i: usize = 0;
            assert(crate::text::string_views(out@) =~= crate::text::string_views(start) + Seq::<Seq<char>>::empty());
            while i < items.len()
                invariant
                    i <= items@.len(),
                    json_get(value_or_null(file_refs), "Textures"@) == JsonValue::Array(*items),
                    fold_refs(items@.take(i as int), texture_step()) is Ok,
                    crate::text::string_views(out@) == crate::text::string_views(start) + fold_refs(
                        items@.take(i as int),
                        texture_step(),
                    )->Ok_0,
                decreases items.len() - i,
            {
                proof {
                    assert(items@.take(i as int + 1).drop_last() =~= items@.take(i as int));
                    assert(items@.take(i as int + 1).last() == items@[i as int]);
                }
                match push_required(out, Some(&items[i]), "Textures") {
                    Ok(()) => {},
                    Err(m) => {
                        proof {
                            assert(fold_refs(items@.take(i as int + 1), texture_step()) == Err::<Seq<Seq<char>>, Seq<char>>(m@));
                            lemma_first_error_stays(items@, texture_step(), i as int + 1, items@.len() as int);
                            assert(items@.take(items@.len() as int) =~= items@);
                        }
                        return Err(m);
                    },
                }
                assert(crate::text::string_views(out@) =~= crate::text::string_views(start) + fold_refs(
                    items@.take(i as int + 1),
                    texture_step(),
                )->Ok_0);
                i = i + 1;
            }
            assert(items@.take(items@.len() as int) =~= items@);
            Ok(())
        },
        Some(_) => error_text("Textures must be an array"),
    }
}


fn push_expression_files(out: &mut Vec<String>, file_refs: Option<&JsonValue>) -> (r: Result<(), String>)
    ensures
        appended(old(out)@, final(out)@, expressions_section(value_or_null(file_refs)), r),
{
    let ghost start = out@;
    match sub_field(file_refs, "Expressions") {
        None => {
            assert(crate::text::string_views(out@) =~= crate::text::string_views(out@) + Seq::<Seq<char>>::empty());
            Ok(())
        },
        Some(JsonValue::Array(items)) => {
            let mut i: usize = 0;
            assert(crate::text::string_views(out@) =~= crate::text::string_views(start) + Seq::<Seq<char>>::empty());
            while i < items.len()
                invariant
                    i <= items@.len(),
                    json_get(value_or_null(file_refs), "Expressions"@) == JsonValue::Array(*items),
                    fold_refs(items@.take(i as int), expression_step()) is Ok,
                    crate::text::string_views(out@) == crate::text::string_views(start) + fold_refs(
                        items@.take(i as int),
                        expression_step(),
                    )->Ok_0,
                decreases items.len() - i,
            {
                proof {
                    assert(items@.take(i as int + 1).drop_last() =~= items@.take(i as int));
                    assert(items@.take(i as int + 1).last() == items@[i as int]);
                }
                match push_required(out, json_field(&items[i], "File"), "Expressions.File") {
                    Ok(()) => {},
                    Err(m) => {
                        proof {
                            lemma_first_error_stays(items@, expression_step(), i as int + 1, items@.len() as int);
                            assert(items@.take(items@.len() as int) =~= items@);
                        }
                        return Err(m);
                    },
                }
                assert(crate::text::string_views(out@) =~= crate::text::string_views(start) + fold_refs(
                    items@.take(i as int + 1),
                    expression_step(),
                )->Ok_0);
                i = i + 1;
            }
            assert(items@.take(items@.len() as int) =~= items@);
            Ok(())
        },
        Some(_) => error_text("Expressions must be an array"),
    }
}

fn push_motion_files(out: &mut Vec<String>, items: &Vec<JsonValue>) -> (r: Result<(), String>)
    ensures
        appended(old(out)@, final(out)@, fold_refs(items@, motion_step()), r),
{
    let ghost start = out@;
    let mut i: usize = 0;
    assert(crate::text::string_views(out@) =~= crate::text::string_views(start) + Seq::<Seq<char>>::empty());
    while i < items.len()
        invariant
            i <= items@.len(),
            fold_refs(items@.take(i as int), motion_step()) is Ok,
            crate::text::string_views(out@) == crate::text::string_views(start) + fold_refs(
                items@.take(i as int),
                motion_step(),
            )->Ok_0,
        decreases items.len() - i,
    {
        proof {
            assert(items@.take(i as int + 1).drop_last() =~= items@.take(i as int));
            assert(items@.take(i as int + 1).last() == items@[i as int]);
        }
        match push_required(out, json_field(&items[i], "File"), "Motions.File") {
            Ok(()) => {},
            Err(m) => {
                proof {
                    lemma_first_error_stays(items@, motion_step(), i as int + 1, items@.len() as int);
                    assert(items@.take(items@.len() as int) =~= items@);
                }
                return Err(m);
            },
        }
        match push_optional(out, json_field(&items[i], "Sound"), "Motions.Sound") {
            Ok(()) => {},
            Err(m) => {
                proof {
                    lemma_first_error_stays(items@, motion_step(), i as int + 1, items@.len() as int);
                    assert(items@.take(items@.len() as int) =~= items@);
                }
                return Err(m);
            },
        }
        assert(crate::text::string_views(out@) =~= crate::text::string_views(start) + fold_refs(
            items@.take(i as int + 1),
            motion_step(),
        )->Ok_0);
        i = i + 1;
    }
    assert(items@.take(items@.len() as int) =~= items@);
    Ok(())
}

fn push_motions(out: &mut Vec<String>, file_refs: Option<&JsonValue>) -> (r: Result<(), String>)
    ensures
        appended(old(out)@, final(out)@, motions_section(value_or_null(file_refs)), r),
{
    let ghost start = out@;
    match sub_field(file_refs, "Motions") {
        None => {
            assert(crate::text::string_views(out@) =~= crate::text::string_views(out@) + Seq::<Seq<char>>::empty());
            Ok(())
        },
        Some(JsonValue::Object(groups)) => {
            let mut i: usize = 0;
            assert(crate::text::string_views(out@) =~= crate::text::string_views(start) + Seq::<Seq<char>>::empty());
            while i < groups.len()
                invariant
                    i <= groups@.len(),
                    json_get(value_or_null(file_refs), "Motions"@) == JsonValue::Object(*groups),
                    fold_refs(groups@.take(i as int), group_step()) is Ok,
                    crate::text::string_views(out@) == crate::text::string_views(start) + fold_refs(
                        groups@.take(i as int),
                        group_step(),
                    )->Ok_0,
                decreases groups.len() - i,
            {
                proof {
                    assert(groups@.take(i as int + 1).drop_last() =~= groups@.take(i as int));
                    assert(groups@.take(i as int + 1).last() == groups@[i as int]);
                }
                let step = match &groups[i].value {
                    JsonValue::Array(items) => push_motion_files(out, items),
                    _ => error_text("motion group must be an array"),
                };
                match step {
                    Ok(()) => {},
                    Err(m) => {
                        proof {
                            lemma_first_error_stays(groups@, group_step(), i as int + 1, groups@.len() as int);
                            assert(groups@.take(groups@.len() as int) =~= groups@);
                        }
                        return Err(m);
                    },
                }
                assert(crate::text::string_views(out@) =~= crate::text::string_views(start) + fold_refs(
                    groups@.take(i as int + 1),
                    group_step(),
                )->Ok_0);
                i = i + 1;
            }
            assert(groups@.take(groups@.len() as int) =~= groups@);
            Ok(())
        },
        Some(_) => error_text("Motions must be an object"),
    }
}

/// Lists the files a Live2D model references, the model file first, or
/// the message of the first malformed reference.
pub fn collect_live2d_references(json: &JsonValue, model_file_name: &str) -> (r: Result<Vec<String>, String>)
    ensures
        match live2d_references_spec(*json, model_file_name@) {
            Ok(refs) => r is Ok && crate::text::string_views(r->Ok_0@) == refs,
            Err(m) => r is Err && r->Err_0@ == m,
        },
{
    let mut out: Vec<String> = Vec::new();
    out.push(string_of(chars_of(model_file_name).as_slice()));
    assert(crate::text::string_views(out@) =~= seq![model_file_name@]);
    let f = json_field(json, "FileReferences");
    let ghost fv = json_get(*json, "FileReferences"@);
    assert(value_or_null(f) == fv);
    let ghost s0 = out@;
    if let Err(m) = push_optional(&mut out, sub_field(f, "Moc"), "Moc") {
        return Err(m);
    }
    assert(crate::text::string_views(out@) =~= crate::text::string_views(s0) + optional_reference(json_get(fv, "Moc"@), "Moc"@)->Ok_0);
    if let Err(m) = push_optional(&mut out, sub_field(f, "Physics"), "Physics") {
        return Err(m);
    }
    if let Err(m) = push_optional(&mut out, sub_field(f, "Pose"), "Pose") {
        return Err(m);
    }
    if let Err(m) = push_optional(&mut out, sub_field(f, "UserData"), "UserData") {
        return Err(m);
    }
    if let Err(m) = push_optional(&mut out, sub_field(f, "DisplayInfo"), "DisplayInfo") {
        return Err(m);
    }
    if let Err(m) = push_textures(&mut out, f) {
        return Err(m);
    }
    if let Err(m) = push_expression_files(&mut out, f) {
        return Err(m);
    }
    if let Err(m) = push_motions(&mut out, f) {
        return Err(m);
    }
    Ok(out)
}

} // verus!
