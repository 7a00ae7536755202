//! Rules applied while importing a character source into a managed
//! generation: accepted source names, bounded Live2D copies, the managed
//! marker, and the rollback report.

use vstd::prelude::*;

use crate::character::catalog::{ascii_lowercase, to_ascii_lowercase};
use crate::character::model3::{collect_live2d_references, live2d_references_spec, parse_json_bytes, parsed_json_bytes};
use crate::character::settings::CharacterSettings;
use crate::character::catalog::{describe_spec, stable_code_spec, CharacterProfileError};
use crate::character::setup::{managed_generation, managed_identity, CharacterRendererKind, ManagedKind};
use crate::text::{chars_of, decimal_text, push_chars, push_decimal, push_str, seq_join, str_equal, string_of, trim_ws, trimmed_chars};

verus! {

/// A setup failure: a stable code and a message shown after redaction.
#[derive(Debug)]
pub struct SetupError {
    pub code: &'static str,
    pub message: String,
}

pub open spec fn setup_error_is(e: SetupError, code: Seq<char>, message: Seq<char>) -> bool {
    e.code@ == code && e.message@ == message
}

fn setup_error(code: &'static str, message: &str) -> (e: SetupError)
    ensures
        e.code@ == code@,
        e.message@ == message@,
{
    SetupError { code, message: string_of(chars_of(message).as_slice()) }
}

impl SetupError {
    /// The error as the setup command reports it.
    pub fn render(&self) -> (r: String)
        ensures
            r@ == "character_setup_error:"@ + self.code@ + ":"@ + self.message@,
    {
        let mut m = chars_of("character_setup_error:");
        push_str(&mut m, self.code);
        push_str(&mut m, ":");
        push_str(&mut m, self.message.as_str());
        string_of(m.as_slice())
    }
}

/// A profile error as a setup error: its stable code and its description.
pub fn profile_setup_error(error: &CharacterProfileError) -> (e: SetupError)
    ensures
        e.code@ == stable_code_spec(*error),
        e.message@ == describe_spec(*error),
{
    SetupError { code: error.stable_code(), message: error.describe() }
}

/// Arbitrary Live2D import is refused while it is disabled; static images
/// can always be imported.
pub fn check_import_allowed(kind: CharacterRendererKind, live2d_import_enabled: bool) -> (r: Result<(), SetupError>)
    ensures
        r is Err <==> (kind == CharacterRendererKind::Live2d && !live2d_import_enabled),
        r is Err ==> setup_error_is(
            r->Err_0,
            "live2d_import_disabled"@,
            "arbitrary Live2D import is disabled in release builds"@,
        ),
{
    match kind {
        CharacterRendererKind::Live2d => if live2d_import_enabled {
            Ok(())
        } else {
            Err(setup_error("live2d_import_disabled", "arbitrary Live2D import is disabled in release builds"))
        },
        CharacterRendererKind::StaticImage => Ok(()),
    }
}

// ---------------------------------------------------------------- sources

pub open spec fn static_extension_spec(extension: Option<Seq<char>>) -> Result<Seq<char>, Seq<char>> {
    match extension {
        None => Err("static source extension is missing"@),
        Some(e) => {
            let lower = ascii_lowercase(e);
            if lower == "png"@ || lower == "webp"@ {
                Ok(lower)
            } else {
                Err("static source must use .png or .webp"@)
            }
        },
    }
}

/// The lowercase extension of a static image source, which must be `png`
/// or `webp`.
pub fn static_extension(extension: Option<&str>) -> (r: Result<String, SetupError>)
    ensures
        match static_extension_spec(
            match extension {
                Some(e) => Some(e@),
                None => None,
            },
        ) {
            Ok(e) => r is Ok && r->Ok_0@ == e,
            Err(m) => r is Err && setup_error_is(r->Err_0, "invalid_source"@, m),
        },
{
    match extension {
        None => Err(setup_error("invalid_source", "static source extension is missing")),
        Some(e) => {
            let lower = string_of(to_ascii_lowercase(e).as_slice());
            if str_equal(lower.as_str(), "png") || str_equal(lower.as_str(), "webp") {
                Ok(lower)
            } else {
                Err(setup_error("invalid_source", "static source must use .png or .webp"))
            }
        },
    }
}

pub open spec fn display_name_spec(stem: Option<Seq<char>>, fallback: Seq<char>) -> Seq<char> {
    match stem {
        Some(s) => if trim_ws(s).len() > 0 {
            trim_ws(s)
        } else {
            fallback
        },
        None => fallback,
    }
}

/// The trimmed file stem, or `fallback` when it is missing or blank.
pub fn source_display_name(stem: Option<&str>, fallback: &str) -> (r: String)
    ensures
        r@ == display_name_spec(
            match stem {
                Some(s) => Some(s@),
                None => None,
            },
            fallback@,
        ),
{
    match stem {
        Some(s) => {
            let t = trimmed_chars(s);
            if t.len() > 0 {
                string_of(t.as_slice())
            } else {
                string_of(chars_of(fallback).as_slice())
            }
        },
        None => string_of(chars_of(fallback).as_slice()),
    }
}

pub const LIVE2D_MODEL_SUFFIX: &'static str = ".model3.json";

pub open spec fn is_model3_name(name: Seq<char>) -> bool {
    name.len() >= 12 && ascii_lowercase(name).skip(name.len() - 12) == LIVE2D_MODEL_SUFFIX@
}

fn ends_with_model3(name: &str) -> (r: bool)
    ensures
        r == is_model3_name(name@),
{
    let lower = to_ascii_lowercase(name);
    let suffix = chars_of(LIVE2D_MODEL_SUFFIX);
    proof {
        reveal_strlit(".model3.json");
    }
    if lower.len() < suffix.len() {
        return false;
    }
    let start = lower.len() - suffix.len();
    let mut i: usize = 0;
    while i < suffix.len()
        invariant
            suffix@ == LIVE2D_MODEL_SUFFIX@,
            suffix@.len() == 12,
            lower@ == ascii_lowercase(name@),
            start + suffix.len() == lower.len(),
            i <= suffix@.len(),
            forall|k: int| 0 <= k < i ==> lower@[start + k] == suffix@[k],
        decreases suffix.len() - i,
    {
        if lower[start + i] != suffix[i] {
            assert(ascii_lowercase(name@).skip(start as int)[i as int] != LIVE2D_MODEL_SUFFIX@[i as int]);
            return false;
        }
        i = i + 1;
    }
    assert(ascii_lowercase(name@).skip(start as int) =~= LIVE2D_MODEL_SUFFIX@);
    true
}

/// A Live2D source must be a `*.model3.json` file (suffix compared
/// case-insensitively).
pub fn check_live2d_model_name(file_name: &str) -> (r: Result<(), SetupError>)
    ensures
        r is Ok <==> is_model3_name(file_name@),
        r is Err ==> setup_error_is(r->Err_0, "invalid_source"@, "Live2D source must end with .model3.json"@),
{
    if ends_with_model3(file_name) {
        Ok(())
    } else {
        Err(setup_error("invalid_source", "Live2D source must end with .model3.json"))
    }
}

pub open spec fn live2d_display_name_spec(model_name: Seq<char>) -> Seq<char> {
    if is_model3_name(model_name) && trim_ws(model_name.take(model_name.len() - 12)).len() > 0 {
        trim_ws(model_name.take(model_name.len() - 12))
    } else {
        "Live2D"@
    }
}

/// The display name of an imported Live2D model: its file name without the
/// `.model3.json` suffix, trimmed, or `Live2D`.
pub fn live2d_display_name(model_name: &str) -> (r: String)
    ensures
        r@ == live2d_display_name_spec(model_name@),
{
    if !ends_with_model3(model_name) {
        return string_of(chars_of("Live2D").as_slice());
    }
    let chars = chars_of(model_name);
    let keep = chars.len() - 12;
    let mut stem: Vec<char> = Vec::new();
    let mut i: usize = 0;
    while i < keep
        invariant
            keep <= chars@.len(),
            chars@ == model_name@,
            i <= keep,
            stem@ == chars@.take(i as int),
        decreases keep - i,
    {
        stem.push(chars[i]);
        assert(chars@.take(i as int + 1) =~= chars@.take(i as int).push(chars@[i as int]));
        i = i + 1;
    }
    let stem_text = string_of(stem.as_slice());
    let t = trimmed_chars(stem_text.as_str());
    if t.len() > 0 {
        string_of(t.as_slice())
    } else {
        string_of(chars_of("Live2D").as_slice())
    }
}

/// How a path component reads, as std's path parser classifies it.
#[derive(Debug, Clone, Copy, PartialEq, Eq, Structural)]
pub enum PathComponentKind {
    Prefix,
    RootDir,
    CurDir,
    ParentDir,
    Normal,
}

pub open spec fn relative_reference_safe_spec(is_empty: bool, is_absolute: bool, components: Seq<PathComponentKind>) -> bool {
    !is_empty && !is_absolute && forall|i: int| 0 <= i < components.len() ==> components[i] == PathComponentKind::Normal
}

/// A Live2D reference must be a non-empty path below the model directory:
/// not absolute, and made of normal components only (no `.`, `..`, root or
/// prefix).
pub fn check_live2d_relative_path(is_empty: bool, is_absolute: bool, components: &Vec<PathComponentKind>) -> (r: Result<(), SetupError>)
    ensures
        r is Ok <==> relative_reference_safe_spec(is_empty, is_absolute, components@),
        r is Err ==> setup_error_is(r->Err_0, "unsafe_reference"@, "Live2D reference must be a non-empty child path"@),
{
    let mut all_normal = true;
    let mut i: usize = 0;
    while i < components.len()
        invariant
            i <= components@.len(),
            all_normal == forall|k: int| 0 <= k < i ==> components@[k] == PathComponentKind::Normal,
        decreases components.len() - i,
    {
        if components[i] != PathComponentKind::Normal {
            all_normal = false;
        }
        i = i + 1;
    }
    if is_empty || is_absolute || !all_normal {
        Err(setup_error("unsafe_reference", "Live2D reference must be a non-empty child path"))
    } else {
        Ok(())
    }
}

// ---------------------------------------------------------------- bounded copy

/// Bounds of one Live2D import.
#[derive(Debug, Clone, Copy, PartialEq, Eq, Structural)]
pub struct Live2dCopyLimits {
    pub files: usize,
    pub file_bytes: u64,
    pub total_bytes: u64,
}

impl Live2dCopyLimits {
    /// 2048 files, 256 MiB per file, 1 GiB in total.
    pub fn standard() -> (l: Live2dCopyLimits)
        ensures
            l.files == 2048,
            l.file_bytes == 268435456,
            l.total_bytes == 1073741824,
    {
        Live2dCopyLimits { files: 2048, file_bytes: 268435456, total_bytes: 1073741824 }
    }
}

impl Default for Live2dCopyLimits {
    fn default() -> (l: Live2dCopyLimits)
        ensures
            l.files == 2048,
            l.file_bytes == 268435456,
            l.total_bytes == 1073741824,
    {
        Live2dCopyLimits::standard()
    }
}

/// The model file and every copied reference must fit the per-file limit.
pub fn check_file_size(bytes: u64, limits: &Live2dCopyLimits, model: bool) -> (r: Result<(), SetupError>)
    ensures
        r is Ok <==> bytes <= limits.file_bytes,
        r is Err && model ==> setup_error_is(r->Err_0, "file_too_large"@, "Live2D model exceeds the per-file limit"@),
        r is Err && !model ==> setup_error_is(
            r->Err_0,
            "file_too_large"@,
            "Live2D reference exceeds "@ + decimal_text(limits.file_bytes as nat) + " bytes"@,
        ),
{
    if bytes <= limits.file_bytes {
        Ok(())
    } else if model {
        Err(setup_error("file_too_large", "Live2D model exceeds the per-file limit"))
    } else {
        let mut m = chars_of("Live2D reference exceeds ");
        push_decimal(&mut m, limits.file_bytes);
        push_str(&mut m, " bytes");
        Err(SetupError { code: "file_too_large", message: string_of(m.as_slice()) })
    }
}

/// Checks a Live2D model read for import, in the order the import applies
/// the checks: the file name, the model's size, that it is JSON, and that
/// every file reference is well formed. On success, the files the model
/// references (the model itself first), in document order.
pub fn check_live2d_model(model_bytes: &[u8], model_file_name: &str, limits: &Live2dCopyLimits) -> (r: Result<
    Vec<String>,
    SetupError,
>)
    ensures
        !is_model3_name(model_file_name@) ==> r is Err && setup_error_is(
            r->Err_0,
            "invalid_source"@,
            "Live2D source must end with .model3.json"@,
        ),
        is_model3_name(model_file_name@) && model_bytes@.len() > limits.file_bytes ==> r is Err
            && setup_error_is(r->Err_0, "file_too_large"@, "Live2D model exceeds the per-file limit"@),
        is_model3_name(model_file_name@) && model_bytes@.len() <= limits.file_bytes ==> match parsed_json_bytes(
            model_bytes@,
        ) {
            None => r is Err && r->Err_0.code@ == "invalid_model"@,
            Some(j) => match live2d_references_spec(j, model_file_name@) {
                Ok(refs) => r is Ok && crate::text::string_views(r->Ok_0@) == refs,
                Err(m) => r is Err && setup_error_is(r->Err_0, "invalid_model"@, m),
            },
        },
{
    if let Err(e) = check_live2d_model_name(model_file_name) {
        return Err(e);
    }
    let size: u64 = model_bytes.len() as u64;
    if let Err(e) = check_file_size(size, limits, true) {
        return Err(e);
    }
    let json = match parse_json_bytes(model_bytes) {
        Ok(j) => j,
        Err(detail) => return Err(SetupError { code: "invalid_model", message: detail }),
    };
    match collect_live2d_references(&json, model_file_name) {
        Ok(refs) => Ok(refs),
        Err(m) => Err(SetupError { code: "invalid_model", message: m }),
    }
}

/// An import may reference at most `limits.files` distinct files.
pub fn check_reference_count(count: usize, limits: &Live2dCopyLimits) -> (r: Result<(), SetupError>)
    ensures
        r is Ok <==> count <= limits.files,
        r is Err ==> setup_error_is(
            r->Err_0,
            "file_limit"@,
            "Live2D import contains "@ + decimal_text(count as nat) + " files"@,
        ),
{
    if count <= limits.files {
        Ok(())
    } else {
        let mut m = chars_of("Live2D import contains ");
        push_decimal(&mut m, count as u64);
        push_str(&mut m, " files");
        Err(SetupError { code: "file_limit", message: string_of(m.as_slice()) })
    }
}

/// Adds one copied file to the running total, which must stay within
/// `limits.total_bytes`.
pub fn add_copied_bytes(total: &mut u64, copied: u64, limits: &Live2dCopyLimits) -> (r: Result<(), SetupError>)
    ensures
        r is Ok <==> *old(total) + copied <= limits.total_bytes,
        r is Ok ==> *final(total) == *old(total) + copied,
        r is Err ==> r->Err_0.code@ == "total_limit"@,
        r is Err && *old(total) + copied <= u64::MAX ==> *final(total) == *old(total) + copied
            && r->Err_0.message@ == "Live2D import totals "@ + decimal_text(
            (*old(total) + copied) as nat,
        ) + " bytes"@,
        r is Err && *old(total) + copied > u64::MAX ==> r->Err_0.message@ == "Live2D total size overflow"@,
{
    match total.checked_add(copied) {
        None => Err(setup_error("total_limit", "Live2D total size overflow")),
        Some(t) => {
            *total = t;
            if t > limits.total_bytes {
                let mut m = chars_of("Live2D import totals ");
                push_decimal(&mut m, t);
                push_str(&mut m, " bytes");
                Err(SetupError { code: "total_limit", message: string_of(m.as_slice()) })
            } else {
                Ok(())
            }
        },
    }
}

// ---------------------------------------------------------------- marker

/// The marker written into every managed generation.
#[derive(Debug)]
pub struct ManagedMarker {
    pub schema_version: u16,
    pub id: String,
    pub kind: ManagedKind,
    pub generation: String,
}

pub open spec fn marker_valid_spec(marker: ManagedMarker, directory_name: Option<Seq<char>>) -> bool {
    marker.schema_version == 1 && directory_name == Some(marker.id@) && managed_generation(
        marker.id@,
        marker.kind,
    ) == Some(marker.generation@)
}

/// A marker counts only in the directory named after its id, with the
/// generation its id encodes.
pub fn marker_is_valid(marker: &ManagedMarker, directory_name: Option<&str>) -> (r: bool)
    ensures
        r == marker_valid_spec(
            *marker,
            match directory_name {
                Some(d) => Some(d@),
                None => None,
            },
        ),
{
    if marker.schema_version != 1 {
        return false;
    }
    let named = match directory_name {
        Some(d) => str_equal(d, marker.id.as_str()),
        None => false,
    };
    if !named {
        return false;
    }
    match managed_identity(marker.id.as_str(), marker.kind) {
        Some(g) => {
            let g_text = string_of(g.as_slice());
            str_equal(g_text.as_str(), marker.generation.as_str())
        },
        None => false,
    }
}

/// The marker found in a cleanup candidate must name exactly that
/// candidate.
pub fn marker_matches_candidate(marker: &ManagedMarker, id: &str, kind: ManagedKind, generation: &str) -> (r: bool)
    ensures
        r == (marker.schema_version == 1 && marker.id@ == id@ && marker.kind == kind && marker.generation@
            == generation@),
{
    marker.schema_version == 1 && str_equal(marker.id.as_str(), id) && marker.kind == kind && str_equal(
        marker.generation.as_str(),
        generation,
    )
}

pub open spec fn opt_view(o: Option<String>) -> Option<Seq<char>> {
    match o {
        Some(s) => Some(s@),
        None => None,
    }
}

fn option_is(o: &Option<String>, id: &str) -> (r: bool)
    ensures
        r == (opt_view(*o) == Some(id@)),
{
    match o {
        Some(s) => str_equal(s.as_str(), id),
        None => false,
    }
}

/// A managed profile may be removed by discovery only when no selection
/// refers to it.
pub fn is_unreferenced(marker_id: &str, settings: &CharacterSettings) -> (r: bool)
    ensures
        r == !(opt_view(settings.active_character_id) == Some(marker_id@) || opt_view(
            settings.live2d_character_id,
        ) == Some(marker_id@) || opt_view(settings.static_image_character_id) == Some(marker_id@)),
{
    !(option_is(&settings.active_character_id, marker_id) || option_is(&settings.live2d_character_id, marker_id)
        || option_is(&settings.static_image_character_id, marker_id))
}

// ---------------------------------------------------------------- generations

pub open spec fn generation_name_spec(nanos: u64, pid: u32, sequence: u64) -> Seq<char> {
    decimal_text(nanos as nat) + "-"@ + decimal_text(pid as nat) + "-"@ + decimal_text(sequence as nat)
}

/// The name of a new managed generation: time, process and sequence.
pub fn generation_name(nanos: u64, pid: u32, sequence: u64) -> (r: String)
    ensures
        r@ == generation_name_spec(nanos, pid, sequence),
{
    let mut v: Vec<char> = Vec::new();
    push_decimal(&mut v, nanos);
    push_str(&mut v, "-");
    push_decimal(&mut v, pid as u64);
    push_str(&mut v, "-");
    push_decimal(&mut v, sequence);
    string_of(v.as_slice())
}

/// The report of a failed rollback, or `None` when every committed
/// generation was quarantined.
pub fn rollback_report(failures: &Vec<String>) -> (r: Option<SetupError>)
    ensures
        r is None <==> failures@.len() == 0,
        r is Some ==> setup_error_is(
            r->0,
            "rollback_failed"@,
            "managed generation quarantine failed: "@ + seq_join(crate::text::string_views(failures@), "; "@),
        ),
{
    if failures.len() == 0 {
        return None;
    }
    let mut list: Vec<Vec<char>> = Vec::new();
    let mut i: usize = 0;
    while i < failures.len()
        invariant
            i <= failures@.len(),
            crate::text::views(list@) == crate::text::string_views(failures@).take(i as int),
        decreases failures.len() - i,
    {
        let ghost before = list@;
        list.push(chars_of(failures[i].as_str()));
        assert(crate::text::views(list@) =~= crate::text::views(before).push(failures@[i as int]@));
        assert(crate::text::string_views(failures@).take(i as int + 1) =~= crate::text::string_views(failures@).take(
            i as int,
        ).push(failures@[i as int]@));
        i = i + 1;
    }
    assert(crate::text::string_views(failures@).take(failures@.len() as int) =~= crate::text::string_views(failures@));
    let joined = crate::text::join_chars(&list, "; ");
    let mut m = chars_of("managed generation quarantine failed: ");
    push_chars(&mut m, &joined);
    Some(SetupError { code: "rollback_failed", message: string_of(m.as_slice()) })
}


// ---------------------------------------------------------------- commit

/// What to undo when renaming the prepared generation at `failed_at` into
/// place failed: the generations committed before it, newest first, are
/// rolled back, and the ones from `failed_at` on are removed from staging.
pub fn commit_failure_plan(count: usize, failed_at: usize) -> (r: (Vec<usize>, Vec<usize>))
    requires
        failed_at < count,
    ensures
        r.0@.len() == failed_at,
        forall|k: int| 0 <= k < failed_at ==> r.0@[k] == failed_at - 1 - k,
        r.1@.len() == count - failed_at,
        forall|k: int| 0 <= k < count - failed_at ==> r.1@[k] == failed_at + k,
{
    let mut rollback: Vec<usize> = Vec::new();
    let mut i: usize = failed_at;
    while i > 0
        invariant
            i <= failed_at,
            rollback@.len() == failed_at - i,
            forall|k: int| 0 <= k < failed_at - i ==> rollback@[k] == failed_at - 1 - k,
        decreases i,
    {
        i = i - 1;
        rollback.push(i);
    }
    let mut cleanup: Vec<usize> = Vec::new();
    let mut j: usize = failed_at;
    while j < count
        invariant
            failed_at <= j <= count,
            cleanup@.len() == j - failed_at,
            forall|k: int| 0 <= k < j - failed_at ==> cleanup@[k] == failed_at + k,
        decreases count - j,
    {
        cleanup.push(j);
        j = j + 1;
    }
    (rollback, cleanup)
}

/// The error of a failed commit: a failed rollback is reported in
/// preference to the rename failure that caused it.
pub fn commit_error(rollback: Option<SetupError>, rename_failure: &str) -> (e: SetupError)
    ensures
        rollback is Some ==> e == rollback->0,
        rollback is None ==> setup_error_is(e, "asset_commit"@, rename_failure@),
{
    match rollback {
        Some(e) => e,
        None => setup_error("asset_commit", rename_failure),
    }
}

} // verus!
