//! Fail-closed character profile rules: identity selection, name and
//! expression validation, image limits and the WebP animation scan.

use vstd::prelude::*;

use crate::character::import::PathComponentKind;
use crate::character::settings::CharacterSettings;
use crate::text::{chars_of, decimal_text, push_decimal, push_str, str_equal, string_of, string_views};

verus! {

pub const PROFILE_SCHEMA_VERSION: u16 = 1;
pub const MAX_NAME_SCALARS: usize = 128;
pub const MAX_EXPRESSIONS: usize = 32;
pub const MAX_IMAGE_DIMENSION: u32 = 4096;
pub const MAX_IMAGE_FILE_BYTES: u64 = 33554432;
pub const MAX_TOTAL_DECODED_BYTES: u64 = 268435456;
pub const MAX_DECODER_ALLOC_BYTES: u64 = 134217728;

/// Stable identity of the virtual fallback profile; explicit manifests may not use it.
pub const LEGACY_CHARACTER_ID: &'static str = "legacy-live2d";

#[derive(Debug)]
pub enum CharacterProfileError {
    /// A file could not be read; `detail` is the operating system's report.
    Io { path: String, not_found: bool, detail: String },
    InvalidProfile { path: String, message: String },
    DuplicateId(String),
    SelectionRequired,
    ActiveCharacterUnavailable(String),
    NoCharacterAvailable,
    PathEscape(String),
    InvalidName(String),
    DuplicateExpression(String),
    DefaultExpressionUnavailable(String),
    TooManyExpressions(usize),
    ImageFileTooLarge { path: String, bytes: u64 },
    InvalidImage(String),
    AnimatedWebp(String),
    AlphaRequired(String),
    ImageDimensions { path: String, width: u32, height: u32 },
    DimensionMismatch {
        path: String,
        expected_width: u32,
        expected_height: u32,
        actual_width: u32,
        actual_height: u32,
    },
    DecodedImageLimit { bytes: u64 },
}

pub open spec fn stable_code_spec(e: CharacterProfileError) -> Seq<char> {
    match e {
        CharacterProfileError::SelectionRequired => "selection_required"@,
        CharacterProfileError::ActiveCharacterUnavailable(_) => "active_character_unavailable"@,
        CharacterProfileError::NoCharacterAvailable => "missing_asset"@,
        CharacterProfileError::Io { not_found, .. } => if not_found {
            "missing_asset"@
        } else {
            "transient_asset_read"@
        },
        CharacterProfileError::InvalidProfile { .. }
        | CharacterProfileError::DuplicateId(_)
        | CharacterProfileError::PathEscape(_)
        | CharacterProfileError::InvalidName(_)
        | CharacterProfileError::DuplicateExpression(_)
        | CharacterProfileError::DefaultExpressionUnavailable(_)
        | CharacterProfileError::TooManyExpressions(_) => "invalid_manifest"@,
        _ => "invalid_image"@,
    }
}

impl CharacterProfileError {
    /// The stable IPC code of this error.
    pub fn stable_code(&self) -> (c: &'static str)
        ensures
            c@ == stable_code_spec(*self),
    {
        match self {
            CharacterProfileError::SelectionRequired => "selection_required",
            CharacterProfileError::ActiveCharacterUnavailable(_) => "active_character_unavailable",
            CharacterProfileError::NoCharacterAvailable => "missing_asset",
            CharacterProfileError::Io { not_found, .. } => if *not_found {
                "missing_asset"
            } else {
                "transient_asset_read"
            },
            CharacterProfileError::InvalidProfile { .. }
            | CharacterProfileError::DuplicateId(_)
            | CharacterProfileError::PathEscape(_)
            | CharacterProfileError::InvalidName(_)
            | CharacterProfileError::DuplicateExpression(_)
            | CharacterProfileError::DefaultExpressionUnavailable(_)
            | CharacterProfileError::TooManyExpressions(_) => "invalid_manifest",
            _ => "invalid_image",
        }
    }
}

pub open spec fn describe_spec(e: CharacterProfileError) -> Seq<char> {
    match e {
        CharacterProfileError::Io { path, detail, .. } => "failed to access "@ + path@ + ": "@ + detail@,
        CharacterProfileError::InvalidProfile { path, message } => "invalid character profile "@ + path@ + ": "@
            + message@,
        CharacterProfileError::DuplicateId(id) => "character profile ID is duplicated: "@ + id@,
        CharacterProfileError::SelectionRequired => "character selection is required"@,
        CharacterProfileError::ActiveCharacterUnavailable(id) => "active character is unavailable: "@ + id@,
        CharacterProfileError::NoCharacterAvailable => "no character profile or legacy Live2D model is available"@,
        CharacterProfileError::PathEscape(path) => "path escapes the characters root: "@ + path@,
        CharacterProfileError::InvalidName(name) => "invalid character name: "@ + name@,
        CharacterProfileError::DuplicateExpression(name) => "duplicate static expression: "@ + name@,
        CharacterProfileError::DefaultExpressionUnavailable(name) => "default expression is unavailable: "@ + name@,
        CharacterProfileError::TooManyExpressions(n) => "too many static expressions: "@ + decimal_text(n as nat),
        CharacterProfileError::ImageFileTooLarge { path, bytes } => "image file exceeds 32 MiB ("@ + decimal_text(
            bytes as nat,
        ) + " bytes): "@ + path@,
        CharacterProfileError::InvalidImage(path) => "invalid image "@ + path@,
        CharacterProfileError::AnimatedWebp(path) => "animated WebP is unsupported: "@ + path@,
        CharacterProfileError::AlphaRequired(path) => "image must contain an alpha channel: "@ + path@,
        CharacterProfileError::ImageDimensions { path, width, height } =>
            "image dimensions exceed limits or are empty ("@ + decimal_text(width as nat) + "x"@ + decimal_text(
                height as nat,
            ) + "): "@ + path@,
        CharacterProfileError::DimensionMismatch {
            path,
            expected_width,
            expected_height,
            actual_width,
            actual_height,
        } => "static expression dimensions do not match: expected "@ + decimal_text(expected_width as nat) + "x"@
            + decimal_text(expected_height as nat) + ", got "@ + decimal_text(actual_width as nat) + "x"@
            + decimal_text(actual_height as nat) + " at "@ + path@,
        CharacterProfileError::DecodedImageLimit { bytes } => "decoded RGBA total exceeds 256 MiB: "@ + decimal_text(
            bytes as nat,
        ) + " bytes"@,
    }
}

fn text_of(parts: &Vec<char>) -> (r: String)
    ensures
        r@ == parts@,
{
    string_of(parts.as_slice())
}

impl CharacterProfileError {
    /// The human-readable description of this error.
    pub fn describe(&self) -> (r: String)
        ensures
            r@ == describe_spec(*self),
    {
        let mut v: Vec<char> = Vec::new();
        match self {
            CharacterProfileError::Io { path, detail, .. } => {
                push_str(&mut v, "failed to access ");
                push_str(&mut v, path.as_str());
                push_str(&mut v, ": ");
                push_str(&mut v, detail.as_str());
            },
            CharacterProfileError::InvalidProfile { path, message } => {
                push_str(&mut v, "invalid character profile ");
                push_str(&mut v, path.as_str());
                push_str(&mut v, ": ");
                push_str(&mut v, message.as_str());
            },
            CharacterProfileError::DuplicateId(id) => {
                push_str(&mut v, "character profile ID is duplicated: ");
                push_str(&mut v, id.as_str());
            },
            CharacterProfileError::SelectionRequired => {
                push_str(&mut v, "character selection is required");
            },
            CharacterProfileError::ActiveCharacterUnavailable(id) => {
                push_str(&mut v, "active character is unavailable: ");
                push_str(&mut v, id.as_str());
            },
            CharacterProfileError::NoCharacterAvailable => {
                push_str(&mut v, "no character profile or legacy Live2D model is available");
            },
            CharacterProfileError::PathEscape(path) => {
                push_str(&mut v, "path escapes the characters root: ");
                push_str(&mut v, path.as_str());
            },
            CharacterProfileError::InvalidName(name) => {
                push_str(&mut v, "invalid character name: ");
                push_str(&mut v, name.as_str());
            },
            CharacterProfileError::DuplicateExpression(name) => {
                push_str(&mut v, "duplicate static expression: ");
                push_str(&mut v, name.as_str());
            },
            CharacterProfileError::DefaultExpressionUnavailable(name) => {
                push_str(&mut v, "default expression is unavailable: ");
                push_str(&mut v, name.as_str());
            },
            CharacterProfileError::TooManyExpressions(n) => {
                push_str(&mut v, "too many static expressions: ");
                push_decimal(&mut v, *n as u64);
            },
            CharacterProfileError::ImageFileTooLarge { path, bytes } => {
                push_str(&mut v, "image file exceeds 32 MiB (");
                push_decimal(&mut v, *bytes);
                push_str(&mut v, " bytes): ");
                push_str(&mut v, path.as_str());
            },
            CharacterProfileError::InvalidImage(path) => {
                push_str(&mut v, "invalid image ");
                push_str(&mut v, path.as_str());
            },
            CharacterProfileError::AnimatedWebp(path) => {
                push_str(&mut v, "animated WebP is unsupported: ");
                push_str(&mut v, path.as_str());
            },
            CharacterProfileError::AlphaRequired(path) => {
                push_str(&mut v, "image must contain an alpha channel: ");
                push_str(&mut v, path.as_str());
            },
            CharacterProfileError::ImageDimensions { path, width, height } => {
                push_str(&mut v, "image dimensions exceed limits or are empty (");
                push_decimal(&mut v, *width as u64);
                push_str(&mut v, "x");
                push_decimal(&mut v, *height as u64);
                push_str(&mut v, "): ");
                push_str(&mut v, path.as_str());
            },
            CharacterProfileError::DimensionMismatch {
                path,
                expected_width,
                expected_height,
                actual_width,
                actual_height,
            } => {
                push_str(&mut v, "static expression dimensions do not match: expected ");
                push_decimal(&mut v, *expected_width as u64);
                push_str(&mut v, "x");
                push_decimal(&mut v, *expected_height as u64);
                push_str(&mut v, ", got ");
                push_decimal(&mut v, *actual_width as u64);
                push_str(&mut v, "x");
                push_decimal(&mut v, *actual_height as u64);
                push_str(&mut v, " at ");
                push_str(&mut v, path.as_str());
            },
            CharacterProfileError::DecodedImageLimit { bytes } => {
                push_str(&mut v, "decoded RGBA total exceeds 256 MiB: ");
                push_decimal(&mut v, *bytes);
                push_str(&mut v, " bytes");
            },
        }
        text_of(&v)
    }

    /// The IPC error text: the stable code, then the description after it
    /// has been made safe to show.
    pub fn ipc_error_with(&self, safe_message: &str) -> (r: String)
        ensures
            r@ == "character_profile_error:"@ + stable_code_spec(*self) + ":"@ + safe_message@,
    {
        let mut v = chars_of("character_profile_error:");
        push_str(&mut v, self.stable_code());
        push_str(&mut v, ":");
        push_str(&mut v, safe_message);
        text_of(&v)
    }
}

#[derive(Debug)]
pub struct MotionGroup {
    pub name: String,
    pub motion_count: u32,
}

#[derive(Debug)]
pub struct ResolvedStaticExpression {
    pub name: String,
    pub image_path: String,
}

#[allow(inconsistent_fields)]
#[derive(Debug)]
pub enum ResolvedRenderer {
    Live2d {
        model_path: String,
        default_expression: Option<String>,
        expressions: Vec<String>,
        motion_groups: Vec<MotionGroup>,
    },
    StaticImage {
        default_expression: String,
        expressions: Vec<ResolvedStaticExpression>,
        width: u32,
        height: u32,
    },
}

#[derive(Debug)]
pub struct ResolvedCharacter {
    pub id: String,
    pub display_name: String,
    pub profile_root: String,
    pub renderer: ResolvedRenderer,
}

#[derive(Debug)]
pub struct CharacterCapabilities {
    pub expressions: Vec<String>,
    pub motions: Vec<String>,
}

// ---------------------------------------------------------------- views

#[allow(inconsistent_fields)]
pub enum RendererView {
    Live2d {
        model_path: Seq<char>,
        default_expression: Option<Seq<char>>,
        expressions: Seq<Seq<char>>,
        motion_groups: Seq<(Seq<char>, u32)>,
    },
    StaticImage {
        default_expression: Seq<char>,
        expressions: Seq<(Seq<char>, Seq<char>)>,
        width: u32,
        height: u32,
    },
}

pub struct CharacterView {
    pub id: Seq<char>,
    pub display_name: Seq<char>,
    pub profile_root: Seq<char>,
    pub renderer: RendererView,
}

pub open spec fn motion_group_views(gs: Seq<MotionGroup>) -> Seq<(Seq<char>, u32)> {
    gs.map_values(|g: MotionGroup| (g.name@, g.motion_count))
}

pub open spec fn static_expression_views(es: Seq<ResolvedStaticExpression>) -> Seq<(Seq<char>, Seq<char>)> {
    es.map_values(|e: ResolvedStaticExpression| (e.name@, e.image_path@))
}

impl View for ResolvedRenderer {
    type V = RendererView;

    open spec fn view(&self) -> RendererView {
        match self {
            ResolvedRenderer::Live2d { model_path, default_expression, expressions, motion_groups } =>
                RendererView::Live2d {
                model_path: model_path@,
                default_expression: match default_expression {
                    Some(d) => Some(d@),
                    None => None,
                },
                expressions: string_views(expressions@),
                motion_groups: motion_group_views(motion_groups@),
            },
            ResolvedRenderer::StaticImage { default_expression, expressions, width, height } =>
                RendererView::StaticImage {
                default_expression: default_expression@,
                expressions: static_expression_views(expressions@),
                width: *width,
                height: *height,
            },
        }
    }
}

impl View for ResolvedCharacter {
    type V = CharacterView;

    open spec fn view(&self) -> CharacterView {
        CharacterView {
            id: self.id@,
            display_name: self.display_name@,
            profile_root: self.profile_root@,
            renderer: self.renderer@,
        }
    }
}

/// Expression names and motion group names a renderer understands.
pub open spec fn capabilities_spec(r: RendererView) -> (Seq<Seq<char>>, Seq<Seq<char>>) {
    match r {
        RendererView::Live2d { expressions, motion_groups, .. } => (
            expressions,
            motion_groups.map_values(|g: (Seq<char>, u32)| g.0),
        ),
        RendererView::StaticImage { expressions, .. } => (
            expressions.map_values(|e: (Seq<char>, Seq<char>)| e.0),
            Seq::empty(),
        ),
    }
}

pub fn copy_string(s: &String) -> (r: String)
    ensures
        r@ == s@,
{
    s.as_str().to_owned()
}

pub fn copy_strings(v: &Vec<String>) -> (r: Vec<String>)
    ensures
        string_views(r@) == string_views(v@),
{
    let mut r: Vec<String> = Vec::new();
    let mut i: usize = 0;
    while i < v.len()
        invariant
            i <= v@.len(),
            string_views(r@) == string_views(v@).take(i as int),
        decreases v.len() - i,
    {
        let ghost before = r@;
        r.push(copy_string(&v[i]));
        assert(string_views(r@) =~= string_views(before).push(v@[i as int]@));
        assert(string_views(v@).take(i as int + 1) =~= string_views(v@).take(i as int).push(
            v@[i as int]@,
        ));
        i = i + 1;
    }
    assert(string_views(v@).take(v@.len() as int) =~= string_views(v@));
    r
}

fn copy_motion_groups(v: &Vec<MotionGroup>) -> (r: Vec<MotionGroup>)
    ensures
        motion_group_views(r@) == motion_group_views(v@),
{
    let mut r: Vec<MotionGroup> = Vec::new();
    let mut i: usize = 0;
    while i < v.len()
        invariant
            i <= v@.len(),
            motion_group_views(r@) == motion_group_views(v@).take(i as int),
        decreases v.len() - i,
    {
        let ghost before = r@;
        r.push(MotionGroup { name: copy_string(&v[i].name), motion_count: v[i].motion_count });
        assert(motion_group_views(r@) =~= motion_group_views(before).push(
            (v@[i as int].name@, v@[i as int].motion_count),
        ));
        assert(motion_group_views(v@).take(i as int + 1) =~= motion_group_views(v@).take(
            i as int,
        ).push((v@[i as int].name@, v@[i as int].motion_count)));
        i = i + 1;
    }
    assert(motion_group_views(v@).take(v@.len() as int) =~= motion_group_views(v@));
    r
}

fn copy_static_expressions(v: &Vec<ResolvedStaticExpression>) -> (r: Vec<ResolvedStaticExpression>)
    ensures
        static_expression_views(r@) == static_expression_views(v@),
{
    let mut r: Vec<ResolvedStaticExpression> = Vec::new();
    let mut i: usize = 0;
    while i < v.len()
        invariant
            i <= v@.len(),
            static_expression_views(r@) == static_expression_views(v@).take(i as int),
        decreases v.len() - i,
    {
        let ghost before = r@;
        r.push(
            ResolvedStaticExpression {
                name: copy_string(&v[i].name),
                image_path: copy_string(&v[i].image_path),
            },
        );
        assert(static_expression_views(r@) =~= static_expression_views(before).push(
            (v@[i as int].name@, v@[i as int].image_path@),
        ));
        assert(static_expression_views(v@).take(i as int + 1) =~= static_expression_views(
            v@,
        ).take(i as int).push((v@[i as int].name@, v@[i as int].image_path@)));
        i = i + 1;
    }
    assert(static_expression_views(v@).take(v@.len() as int) =~= static_expression_views(v@));
    r
}

impl ResolvedRenderer {
    pub fn duplicate(&self) -> (r: ResolvedRenderer)
        ensures
            r@ == self@,
    {
        match self {
            ResolvedRenderer::Live2d { model_path, default_expression, expressions, motion_groups } => {
                let d = match default_expression {
                    Some(d) => Some(copy_string(d)),
                    None => None,
                };
                let r = ResolvedRenderer::Live2d {
                    model_path: copy_string(model_path),
                    default_expression: d,
                    expressions: copy_strings(expressions),
                    motion_groups: copy_motion_groups(motion_groups),
                };
                r
            },
            ResolvedRenderer::StaticImage { default_expression, expressions, width, height } => {
                ResolvedRenderer::StaticImage {
                    default_expression: copy_string(default_expression),
                    expressions: copy_static_expressions(expressions),
                    width: *width,
                    height: *height,
                }
            },
        }
    }
}

impl ResolvedCharacter {
    /// A copy with the same abstract contents.
    pub fn duplicate(&self) -> (r: ResolvedCharacter)
        ensures
            r@ == self@,
    {
        ResolvedCharacter {
            id: copy_string(&self.id),
            display_name: copy_string(&self.display_name),
            profile_root: copy_string(&self.profile_root),
            renderer: self.renderer.duplicate(),
        }
    }

    /// The expression and motion names the renderer can act on.
    pub fn capabilities(&self) -> (c: CharacterCapabilities)
        ensures
            string_views(c.expressions@) == capabilities_spec(self.renderer@).0,
            string_views(c.motions@) == capabilities_spec(self.renderer@).1,
    {
        match &self.renderer {
            ResolvedRenderer::Live2d { expressions, motion_groups, .. } => {
                let mut motions: Vec<String> = Vec::new();
                let mut i: usize = 0;
                while i < motion_groups.len()
                    invariant
                        i <= motion_groups@.len(),
                        string_views(motions@) == motion_group_views(motion_groups@).take(
                            i as int,
                        ).map_values(|g: (Seq<char>, u32)| g.0),
                    decreases motion_groups.len() - i,
                {
                    let ghost before = motions@;
                    motions.push(copy_string(&motion_groups[i].name));
                    assert(string_views(motions@) =~= string_views(before).push(
                        motion_groups@[i as int].name@,
                    ));
                    assert(motion_group_views(motion_groups@).take(i as int + 1).map_values(
                        |g: (Seq<char>, u32)| g.0,
                    ) =~= motion_group_views(motion_groups@).take(i as int).map_values(
                        |g: (Seq<char>, u32)| g.0,
                    ).push(motion_groups@[i as int].name@));
                    i = i + 1;
                }
                assert(motion_group_views(motion_groups@).take(motion_groups@.len() as int)
                    =~= motion_group_views(motion_groups@));
                CharacterCapabilities { expressions: copy_strings(expressions), motions }
            },
            ResolvedRenderer::StaticImage { expressions, .. } => {
                let mut names: Vec<String> = Vec::new();
                let mut i: usize = 0;
                while i < expressions.len()
                    invariant
                        i <= expressions@.len(),
                        string_views(names@) == static_expression_views(expressions@).take(
                            i as int,
                        ).map_values(|e: (Seq<char>, Seq<char>)| e.0),
                    decreases expressions.len() - i,
                {
                    let ghost before = names@;
                    names.push(copy_string(&expressions[i].name));
                    assert(string_views(names@) =~= string_views(before).push(
                        expressions@[i as int].name@,
                    ));
                    assert(static_expression_views(expressions@).take(i as int + 1).map_values(
                        |e: (Seq<char>, Seq<char>)| e.0,
                    ) =~= static_expression_views(expressions@).take(i as int).map_values(
                        |e: (Seq<char>, Seq<char>)| e.0,
                    ).push(expressions@[i as int].name@));
                    i = i + 1;
                }
                assert(static_expression_views(expressions@).take(expressions@.len() as int)
                    =~= static_expression_views(expressions@));
                let motions: Vec<String> = Vec::new();
                assert(string_views(motions@) =~= Seq::<Seq<char>>::empty());
                CharacterCapabilities { expressions: names, motions }
            },
        }
    }

    /// The model file of a Live2D character.
    pub fn live2d_model_path(&self) -> (r: Option<&str>)
        ensures
            match self.renderer@ {
                RendererView::Live2d { model_path, .. } => r is Some && r->0@ == model_path,
                RendererView::StaticImage { .. } => r is None,
            },
    {
        match &self.renderer {
            ResolvedRenderer::Live2d { model_path, .. } => Some(model_path.as_str()),
            ResolvedRenderer::StaticImage { .. } => None,
        }
    }
}

// ---------------------------------------------------------------- catalog

pub open spec fn character_views(ps: Seq<ResolvedCharacter>) -> Seq<CharacterView> {
    ps.map_values(|p: ResolvedCharacter| p@)
}

pub open spec fn ids_distinct(ps: Seq<CharacterView>) -> bool {
    forall|j: int, k: int| 0 <= j < k < ps.len() ==> ps[j].id != ps[k].id
}

/// The validated profiles: every explicit profile on disk, or only the
/// virtual legacy Live2D profile when there is none.
#[derive(Debug)]
pub struct CharacterCatalog {
    profiles: Vec<ResolvedCharacter>,
    explicit_profile_count: usize,
}

pub struct CatalogView {
    pub profiles: Seq<CharacterView>,
    pub explicit_profile_count: nat,
}

impl View for CharacterCatalog {
    type V = CatalogView;

    closed spec fn view(&self) -> CatalogView {
        CatalogView {
            profiles: character_views(self.profiles@),
            explicit_profile_count: self.explicit_profile_count as nat,
        }
    }
}

pub open spec fn catalog_wf(c: CatalogView) -> bool {
    &&& ids_distinct(c.profiles)
    &&& (c.explicit_profile_count == c.profiles.len() || (c.explicit_profile_count == 0
        && c.profiles.len() == 1 && c.profiles[0].id == LEGACY_CHARACTER_ID@))
}

/// Index of the profile with `id` in a catalog whose ids are distinct.
pub open spec fn index_of_id(ps: Seq<CharacterView>, id: Seq<char>) -> Option<int> {
    if exists|k: int| 0 <= k < ps.len() && ps[k].id == id {
        Some(choose|k: int| 0 <= k < ps.len() && ps[k].id == id)
    } else {
        None
    }
}

/// Exact-id selection, or the sole profile when no id is configured.
pub open spec fn resolution(c: CatalogView, active_id: Option<Seq<char>>) -> Result<int, int> {
    match active_id {
        Some(id) => if c.explicit_profile_count == 0 && id == LEGACY_CHARACTER_ID@ {
            Err(0)
        } else {
            match index_of_id(c.profiles, id) {
                Some(k) => Ok(k),
                None => Err(0),
            }
        },
        None => if c.profiles.len() == 1 {
            Ok(0)
        } else if c.profiles.len() == 0 {
            Err(1)
        } else {
            Err(2)
        },
    }
}

fn strings_equal(a: &String, b: &String) -> (r: bool)
    ensures
        r == (a@ == b@),
{
    str_equal(a.as_str(), b.as_str())
}

impl CharacterCatalog {
    /// Builds the catalog of explicit profiles, rejecting the first profile
    /// whose id repeats an earlier one.
    pub fn from_explicit(profiles: Vec<ResolvedCharacter>) -> (r: Result<CharacterCatalog, CharacterProfileError>)
        ensures
            r is Ok <==> ids_distinct(character_views(profiles@)),
            r is Ok ==> r->Ok_0@.profiles == character_views(profiles@)
                && r->Ok_0@.explicit_profile_count == profiles@.len() && catalog_wf(r->Ok_0@),
            r is Err ==> match r->Err_0 {
                CharacterProfileError::DuplicateId(id) => exists|j: int, k: int|
                    0 <= j < k < profiles@.len() && profiles@[j].id@ == id@ && profiles@[k].id@
                        == id@,
                _ => false,
            },
    {
        let mut k: usize = 0;
        while k < profiles.len()
            invariant
                k <= profiles@.len(),
                ids_distinct(character_views(profiles@).take(k as int)),
            decreases profiles.len() - k,
        {
            let mut j: usize = 0;
            while j < k
                invariant
                    k < profiles@.len(),
                    j <= k,
                    forall|i: int| 0 <= i < j ==> profiles@[i].id@ != profiles@[k as int].id@,
                decreases k - j,
            {
                if strings_equal(&profiles[j].id, &profiles[k].id) {
                    proof {
                        assert(character_views(profiles@)[j as int].id == character_views(
                            profiles@,
                        )[k as int].id);
                    }
                    let id = copy_string(&profiles[k].id);
                    return Err(CharacterProfileError::DuplicateId(id));
                }
                j = j + 1;
            }
            proof {
                let t = character_views(profiles@).take(k as int + 1);
                assert forall|a: int, b: int| 0 <= a < b < t.len() implies t[a].id != t[b].id by {
                    if b < k {
                        assert(character_views(profiles@).take(k as int)[a] == t[a]);
                        assert(character_views(profiles@).take(k as int)[b] == t[b]);
                    } else {
                        assert(t[a].id == profiles@[a].id@);
                        assert(t[b].id == profiles@[k as int].id@);
                    }
                }
            }
            k = k + 1;
        }
        assert(character_views(profiles@).take(profiles@.len() as int) =~= character_views(profiles@));
        let count = profiles.len();
        Ok(CharacterCatalog { profiles, explicit_profile_count: count })
    }

    /// The catalog holding only the virtual legacy Live2D profile.
    pub fn from_legacy(legacy: ResolvedCharacter) -> (c: CharacterCatalog)
        requires
            legacy.id@ == LEGACY_CHARACTER_ID@,
        ensures
            c@.profiles == seq![legacy@],
            c@.explicit_profile_count == 0,
            catalog_wf(c@),
    {
        let mut profiles: Vec<ResolvedCharacter> = Vec::new();
        profiles.push(legacy);
        let c = CharacterCatalog { profiles, explicit_profile_count: 0 };
        assert(c@.profiles =~= seq![legacy@]);
        c
    }

    /// True only for one disk-backed explicit profile, never for the virtual legacy profile.
    pub fn has_single_explicit_profile(&self) -> (b: bool)
        ensures
            b == (self@.explicit_profile_count == 1),
    {
        self.explicit_profile_count == 1
    }

    pub fn has_explicit_profiles(&self) -> (b: bool)
        ensures
            b == (self@.explicit_profile_count != 0),
    {
        self.explicit_profile_count != 0
    }

    pub fn profile_count(&self) -> (n: usize)
        ensures
            n == self@.profiles.len(),
    {
        self.profiles.len()
    }

    /// Position of the profile whose id is exactly `id`.
    pub fn position_of_id(&self, id: &str) -> (r: Option<usize>)
        requires
            catalog_wf(self@),
        ensures
            match r {
                Some(k) => index_of_id(self@.profiles, id@) == Some(k as int),
                None => index_of_id(self@.profiles, id@) is None,
            },
    {
        let mut k: usize = 0;
        while k < self.profiles.len()
            invariant
                k <= self.profiles@.len(),
                catalog_wf(self@),
                forall|j: int| 0 <= j < k ==> self@.profiles[j].id != id@,
            decreases self.profiles.len() - k,
        {
            if str_equal(self.profiles[k].id.as_str(), id) {
                proof {
                    assert(self@.profiles[k as int].id == id@);
                    let c = choose|c: int| 0 <= c < self@.profiles.len() && self@.profiles[c].id == id@;
                    if c != k {
                        if c < k {
                            assert(self@.profiles[c].id != self@.profiles[k as int].id);
                        } else {
                            assert(self@.profiles[k as int].id != self@.profiles[c].id);
                        }
                    }
                }
                return Some(k);
            }
            k = k + 1;
        }
        None
    }

    /// The profile at a position.
    pub fn profile_at(&self, k: usize) -> (p: &ResolvedCharacter)
        requires
            k < self@.profiles.len(),
        ensures
            p@ == self@.profiles[k as int],
    {
        &self.profiles[k]
    }

    /// The first profile whose id is exactly `id`.
    pub fn profile_by_id(&self, id: &str) -> (r: Option<&ResolvedCharacter>)
        ensures
            match r {
                Some(p) => exists|k: int|
                    0 <= k < self@.profiles.len() && self@.profiles[k] == p@ && p.id@ == id@ && forall|
                        j: int,
                    | 0 <= j < k ==> self@.profiles[j].id != id@,
                None => forall|k: int| 0 <= k < self@.profiles.len() ==> self@.profiles[k].id != id@,
            },
    {
        let mut k: usize = 0;
        while k < self.profiles.len()
            invariant
                k <= self.profiles@.len(),
                forall|j: int| 0 <= j < k ==> self@.profiles[j].id != id@,
            decreases self.profiles.len() - k,
        {
            if str_equal(self.profiles[k].id.as_str(), id) {
                assert(self@.profiles[k as int] == self.profiles@[k as int]@);
                return Some(&self.profiles[k]);
            }
            k = k + 1;
        }
        None
    }

    /// Resolves an exact configured id, or the sole available profile. A
    /// configured id never falls through to another identity.
    pub fn resolve(&self, settings: &CharacterSettings) -> (r: Result<ResolvedCharacter, CharacterProfileError>)
        requires
            catalog_wf(self@),
        ensures
            ({
                let active = match settings.active_character_id {
                    Some(id) => Some(id@),
                    None => None,
                };
                match resolution(self@, active) {
                    Ok(k) => r is Ok && r->Ok_0@ == self@.profiles[k],
                    Err(code) => r is Err && match r->Err_0 {
                        CharacterProfileError::ActiveCharacterUnavailable(id) => code == 0
                            && active == Some(id@),
                        CharacterProfileError::NoCharacterAvailable => code == 1,
                        CharacterProfileError::SelectionRequired => code == 2,
                        _ => false,
                    },
                }
            }),
    {
        if let Some(active_id) = &settings.active_character_id {
            if self.explicit_profile_count == 0 && str_equal(active_id.as_str(), LEGACY_CHARACTER_ID) {
                return Err(CharacterProfileError::ActiveCharacterUnavailable(copy_string(active_id)));
            }
            match self.profile_by_id(active_id.as_str()) {
                Some(p) => {
                    proof {
                        let k = choose|k: int|
                            0 <= k < self@.profiles.len() && self@.profiles[k] == p@ && p.id@
                                == active_id@ && forall|j: int|
                                0 <= j < k ==> self@.profiles[j].id != active_id@;
                        let c = choose|c: int|
                            0 <= c < self@.profiles.len() && self@.profiles[c].id == active_id@;
                        if c != k {
                            assert(self@.profiles[c].id == self@.profiles[k].id);
                        }
                    }
                    return Ok(p.duplicate());
                },
                None => {
                    return Err(CharacterProfileError::ActiveCharacterUnavailable(copy_string(active_id)));
                },
            }
        }
        if self.profiles.len() == 1 {
            assert(self@.profiles[0] == self.profiles@[0]@);
            Ok(self.profiles[0].duplicate())
        } else if self.profiles.len() == 0 {
            Err(CharacterProfileError::NoCharacterAvailable)
        } else {
            Err(CharacterProfileError::SelectionRequired)
        }
    }
}

// ---------------------------------------------------------------- names

pub open spec fn name_valid(name: Seq<char>) -> bool {
    name.len() > 0 && name.len() <= MAX_NAME_SCALARS
}

/// Names (ids, display names, expressions) are non-empty and at most 128
/// scalar values long.
pub fn validate_name(name: &str) -> (r: Result<(), CharacterProfileError>)
    ensures
        r is Ok <==> name_valid(name@),
        r is Err ==> match r->Err_0 {
            CharacterProfileError::InvalidName(n) => n@ == name@,
            _ => false,
        },
{
    let chars = chars_of(name);
    if chars.len() == 0 || chars.len() > MAX_NAME_SCALARS {
        return Err(CharacterProfileError::InvalidName(name.to_owned()));
    }
    Ok(())
}

/// Why the header of a profile manifest is rejected, if it is.
#[derive(Debug)]
pub enum ProfileHeaderIssue {
    UnsupportedSchema,
    InvalidId,
    ReservedId,
    InvalidDisplayName,
}

pub open spec fn profile_header_issue(schema_version: u16, id: Seq<char>, display_name: Seq<char>) -> Option<ProfileHeaderIssue> {
    if schema_version != PROFILE_SCHEMA_VERSION {
        Some(ProfileHeaderIssue::UnsupportedSchema)
    } else if !name_valid(id) {
        Some(ProfileHeaderIssue::InvalidId)
    } else if id == LEGACY_CHARACTER_ID@ {
        Some(ProfileHeaderIssue::ReservedId)
    } else if !name_valid(display_name) {
        Some(ProfileHeaderIssue::InvalidDisplayName)
    } else {
        None
    }
}

/// Checks the schema version, the id (which may not be the reserved legacy
/// id) and the display name of a profile manifest, in that order.
pub fn check_profile_header(manifest_path: &str, schema_version: u16, id: &str, display_name: &str) -> (r: Result<(), CharacterProfileError>)
    ensures
        match profile_header_issue(schema_version, id@, display_name@) {
            None => r is Ok,
            Some(ProfileHeaderIssue::UnsupportedSchema) => r is Err && match r->Err_0 {
                CharacterProfileError::InvalidProfile { path, message } => path@ == manifest_path@
                    && message@ == "unsupported schema version "@ + decimal_text(schema_version as nat),
                _ => false,
            },
            Some(ProfileHeaderIssue::InvalidId) => r is Err && match r->Err_0 {
                CharacterProfileError::InvalidName(n) => n@ == id@,
                _ => false,
            },
            Some(ProfileHeaderIssue::ReservedId) => r is Err && match r->Err_0 {
                CharacterProfileError::InvalidProfile { path, message } => path@ == manifest_path@
                    && message@ == "character ID is reserved: "@ + LEGACY_CHARACTER_ID@,
                _ => false,
            },
            Some(ProfileHeaderIssue::InvalidDisplayName) => r is Err && match r->Err_0 {
                CharacterProfileError::InvalidName(n) => n@ == display_name@,
                _ => false,
            },
        },
{
    if schema_version != PROFILE_SCHEMA_VERSION {
        let mut message = chars_of("unsupported schema version ");
        crate::text::push_decimal(&mut message, schema_version as u64);
        return Err(CharacterProfileError::InvalidProfile {
            path: manifest_path.to_owned(),
            message: crate::text::string_of(message.as_slice()),
        });
    }
    validate_name(id)?;
    if str_equal(id, LEGACY_CHARACTER_ID) {
        let mut message = chars_of("character ID is reserved: ");
        push_str(&mut message, LEGACY_CHARACTER_ID);
        return Err(CharacterProfileError::InvalidProfile {
            path: manifest_path.to_owned(),
            message: crate::text::string_of(message.as_slice()),
        });
    }
    validate_name(display_name)?;
    Ok(())
}

/// The default expression of a Live2D model: an explicit name must be a
/// valid, known expression; otherwise "Normal" when present, else the first.
pub open spec fn live2d_default(expressions: Seq<Seq<char>>, explicit: Option<Seq<char>>) -> Result<Option<Seq<char>>, ()> {
    match explicit {
        Some(name) => if name_valid(name) && expressions.contains(name) {
            Ok(Some(name))
        } else {
            Err(())
        },
        None => if expressions.contains("Normal"@) {
            Ok(Some("Normal"@))
        } else if expressions.len() > 0 {
            Ok(Some(expressions[0]))
        } else {
            Ok(None)
        },
    }
}

fn contains_string(v: &Vec<String>, s: &str) -> (r: bool)
    ensures
        r == string_views(v@).contains(s@),
{
    let mut i: usize = 0;
    while i < v.len()
        invariant
            i <= v@.len(),
            forall|j: int| 0 <= j < i ==> v@[j]@ != s@,
        decreases v.len() - i,
    {
        if str_equal(v[i].as_str(), s) {
            assert(string_views(v@)[i as int] == s@);
            return true;
        }
        i = i + 1;
    }
    proof {
        if string_views(v@).contains(s@) {
            let j = choose|j: int| 0 <= j < string_views(v@).len() && string_views(v@)[j] == s@;
            assert(v@[j]@ == s@);
        }
    }
    false
}

pub fn resolve_live2d_default(expressions: &Vec<String>, explicit: Option<String>) -> (r: Result<Option<String>, CharacterProfileError>)
    ensures
        match live2d_default(
            string_views(expressions@),
            match explicit {
                Some(e) => Some(e@),
                None => None,
            },
        ) {
            Ok(None) => r is Ok && r->Ok_0 is None,
            Ok(Some(n)) => r is Ok && r->Ok_0 is Some && r->Ok_0->0@ == n,
            Err(_) => r is Err && (r->Err_0 is InvalidName || r->Err_0 is DefaultExpressionUnavailable),
        },
        explicit is Some && !name_valid(explicit->0@) ==> r is Err && match r->Err_0 {
            CharacterProfileError::InvalidName(n) => n@ == explicit->0@,
            _ => false,
        },
        explicit is Some && name_valid(explicit->0@) && !string_views(expressions@).contains(explicit->0@)
            ==> r is Err && match r->Err_0 {
            CharacterProfileError::DefaultExpressionUnavailable(n) => n@ == explicit->0@,
            _ => false,
        },
{
    if let Some(name) = explicit {
        validate_name(name.as_str())?;
        if !contains_string(expressions, name.as_str()) {
            return Err(CharacterProfileError::DefaultExpressionUnavailable(name));
        }
        return Ok(Some(name));
    }
    if contains_string(expressions, "Normal") {
        return Ok(Some("Normal".to_owned()));
    }
    if expressions.len() > 0 {
        assert(string_views(expressions@)[0] == expressions@[0]@);
        return Ok(Some(copy_string(&expressions[0])));
    }
    Ok(None)
}

// ---------------------------------------------------------------- static expressions

/// The first problem among the expression names, scanning in order: an
/// invalid name, or a name that repeats an earlier one.
pub open spec fn first_name_issue(names: Seq<Seq<char>>, n: int) -> Option<(bool, Seq<char>)>
    decreases n,
{
    if n <= 0 {
        None
    } else {
        match first_name_issue(names, n - 1) {
            Some(issue) => Some(issue),
            None => if !name_valid(names[n - 1]) {
                Some((false, names[n - 1]))
            } else if names.take(n - 1).contains(names[n - 1]) {
                Some((true, names[n - 1]))
            } else {
                None
            },
        }
    }
}

pub enum StaticNamesIssue {
    TooMany,
    Empty,
    InvalidDefault,
    InvalidName(Seq<char>),
    Duplicate(Seq<char>),
    MissingDefault,
}

pub open spec fn static_names_issue(default_expression: Seq<char>, names: Seq<Seq<char>>) -> Option<StaticNamesIssue> {
    if names.len() > MAX_EXPRESSIONS {
        Some(StaticNamesIssue::TooMany)
    } else if names.len() == 0 {
        Some(StaticNamesIssue::Empty)
    } else if !name_valid(default_expression) {
        Some(StaticNamesIssue::InvalidDefault)
    } else {
        match first_name_issue(names, names.len() as int) {
            Some((false, n)) => Some(StaticNamesIssue::InvalidName(n)),
            Some((true, n)) => Some(StaticNamesIssue::Duplicate(n)),
            None => if names.contains(default_expression) {
                None
            } else {
                Some(StaticNamesIssue::MissingDefault)
            },
        }
    }
}

proof fn lemma_first_name_issue_stable(names: Seq<Seq<char>>, n: int, m: int)
    requires
        0 <= n <= m,
        first_name_issue(names, n) is Some,
    ensures
        first_name_issue(names, m) == first_name_issue(names, n),
    decreases m - n,
{
    if m > n {
        lemma_first_name_issue_stable(names, n, m - 1);
    }
}

/// Checks the names of a static-image profile before any image is read.
pub fn check_static_expression_names(default_expression: &str, names: &Vec<String>) -> (r: Result<(), CharacterProfileError>)
    ensures
        match static_names_issue(default_expression@, string_views(names@)) {
            None => r is Ok,
            Some(StaticNamesIssue::TooMany) => r is Err && r->Err_0 == CharacterProfileError::TooManyExpressions(names.len()),
            Some(StaticNamesIssue::Empty) => r is Err && match r->Err_0 {
                CharacterProfileError::DefaultExpressionUnavailable(d) => d@ == default_expression@,
                _ => false,
            },
            Some(StaticNamesIssue::InvalidDefault) => r is Err && match r->Err_0 {
                CharacterProfileError::InvalidName(n) => n@ == default_expression@,
                _ => false,
            },
            Some(StaticNamesIssue::InvalidName(bad)) => r is Err && match r->Err_0 {
                CharacterProfileError::InvalidName(n) => n@ == bad,
                _ => false,
            },
            Some(StaticNamesIssue::Duplicate(bad)) => r is Err && match r->Err_0 {
                CharacterProfileError::DuplicateExpression(n) => n@ == bad,
                _ => false,
            },
            Some(StaticNamesIssue::MissingDefault) => r is Err && match r->Err_0 {
                CharacterProfileError::DefaultExpressionUnavailable(d) => d@ == default_expression@,
                _ => false,
            },
        },
{
    if names.len() > MAX_EXPRESSIONS {
        return Err(CharacterProfileError::TooManyExpressions(names.len()));
    }
    if names.len() == 0 {
        return Err(CharacterProfileError::DefaultExpressionUnavailable(default_expression.to_owned()));
    }
    validate_name(default_expression)?;
    let ghost views = string_views(names@);
    let mut i: usize = 0;
    while i < names.len()
        invariant
            i <= names@.len(),
            views == string_views(names@),
            0 < names@.len() <= MAX_EXPRESSIONS,
            name_valid(default_expression@),
            first_name_issue(views, i as int) is None,
        decreases names.len() - i,
    {
        match validate_name(names[i].as_str()) {
            Err(e) => {
                proof {
                    assert(first_name_issue(views, i as int + 1) == Some((false, views[i as int])));
                    lemma_first_name_issue_stable(views, i as int + 1, views.len() as int);
                }
                return Err(e);
            },
            Ok(()) => {},
        }
        let mut j: usize = 0;
        while j < i
            invariant
                i < names@.len(),
                views == string_views(names@),
                0 < names@.len() <= MAX_EXPRESSIONS,
                name_valid(default_expression@),
                first_name_issue(views, i as int) is None,
                name_valid(views[i as int]),
                j <= i,
                forall|k: int| 0 <= k < j ==> names@[k]@ != names@[i as int]@,
            decreases i - j,
        {
            if str_equal(names[j].as_str(), names[i].as_str()) {
                proof {
                    assert(views.take(i as int)[j as int] == views[i as int]);
                    assert(first_name_issue(views, i as int + 1) == Some((true, views[i as int])));
                    lemma_first_name_issue_stable(views, i as int + 1, views.len() as int);
                }
                return Err(CharacterProfileError::DuplicateExpression(copy_string(&names[i])));
            }
            j = j + 1;
        }
        proof {
            if views.take(i as int).contains(views[i as int]) {
                let k = choose|k: int| 0 <= k < i && views.take(i as int)[k] == views[i as int];
                assert(names@[k]@ == names@[i as int]@);
            }
        }
        i = i + 1;
    }
    if !contains_string(names, default_expression) {
        return Err(CharacterProfileError::DefaultExpressionUnavailable(default_expression.to_owned()));
    }
    Ok(())
}

// ---------------------------------------------------------------- image budget

pub fn ensure_total_decoded_limit(bytes: u64) -> (r: Result<(), CharacterProfileError>)
    ensures
        r is Ok <==> bytes <= MAX_TOTAL_DECODED_BYTES,
        r is Err ==> r->Err_0 == (CharacterProfileError::DecodedImageLimit { bytes }),
{
    if bytes > MAX_TOTAL_DECODED_BYTES {
        Err(CharacterProfileError::DecodedImageLimit { bytes })
    } else {
        Ok(())
    }
}

/// Adds one image's decoded size to the running total, saturating, and
/// rejects a total above 256 MiB without changing the running total.
pub fn add_decoded_bytes(total: &mut u64, decoded_bytes: u64) -> (r: Result<(), CharacterProfileError>)
    ensures
        ({
            let updated = if *old(total) + decoded_bytes > u64::MAX {
                u64::MAX as int
            } else {
                *old(total) + decoded_bytes
            };
            &&& (r is Ok <==> updated <= MAX_TOTAL_DECODED_BYTES)
            &&& (r is Ok ==> *final(total) == updated)
            &&& (r is Err ==> *final(total) == *old(total) && r->Err_0 == (CharacterProfileError::DecodedImageLimit { bytes: updated as u64 }))
        }),
{
    let updated = match total.checked_add(decoded_bytes) {
        Some(v) => v,
        None => u64::MAX,
    };
    ensure_total_decoded_limit(updated)?;
    *total = updated;
    Ok(())
}

/// Decoded RGBA size of an image with the given dimensions, or `None`
/// when it does not fit in 64 bits.
pub fn decoded_rgba_bytes(width: u32, height: u32) -> (r: Option<u64>)
    ensures
        r is Some <==> width * height * 4 <= u64::MAX,
        r is Some ==> r->0 == width * height * 4,
{
    assert((width as int) * (height as int) <= 0xffff_fffe_0000_0001) by (nonlinear_arith)
        requires
            0 <= width <= 0xffff_ffff,
            0 <= height <= 0xffff_ffff,
    ;
    let pixels: u64 = (width as u64) * (height as u64);
    pixels.checked_mul(4)
}

/// Image kinds a static profile may use.
#[derive(Debug, Clone, Copy, PartialEq, Eq, Structural)]
pub enum StaticImageFormat {
    Png,
    WebP,
}

pub open spec fn ascii_lowercase(s: Seq<char>) -> Seq<char> {
    s.map_values(|c: char| crate::behavior::mode::ascii_lower(c))
}

pub fn to_ascii_lowercase(s: &str) -> (r: Vec<char>)
    ensures
        r@ == ascii_lowercase(s@),
{
    let chars = chars_of(s);
    let mut out: Vec<char> = Vec::new();
    let mut i: usize = 0;
    while i < chars.len()
        invariant
            i <= chars@.len(),
            chars@ == s@,
            out@ == ascii_lowercase(chars@.take(i as int)),
        decreases chars.len() - i,
    {
        out.push(crate::behavior::mode::to_ascii_lower(chars[i]));
        assert(ascii_lowercase(chars@.take(i as int + 1)) =~= ascii_lowercase(chars@.take(i as int)).push(
            crate::behavior::mode::ascii_lower(chars@[i as int]),
        ));
        i = i + 1;
    }
    assert(chars@.take(chars@.len() as int) =~= chars@);
    out
}

fn chars_eq_str(v: &Vec<char>, s: &str) -> (r: bool)
    ensures
        r == (v@ == s@),
{
    let w = chars_of(s);
    if v.len() != w.len() {
        return false;
    }
    let mut i: usize = 0;
    while i < v.len()
        invariant
            v.len() == w.len(),
            w@ == s@,
            i <= v.len(),
            forall|j: int| 0 <= j < i ==> v@[j] == w@[j],
        decreases v.len() - i,
    {
        if v[i] != w[i] {
            assert(v@[i as int] != w@[i as int]);
            return false;
        }
        i = i + 1;
    }
    assert(v@ =~= w@);
    true
}

pub open spec fn image_format_spec(extension: Seq<char>) -> Option<StaticImageFormat> {
    if ascii_lowercase(extension) == "png"@ {
        Some(StaticImageFormat::Png)
    } else if ascii_lowercase(extension) == "webp"@ {
        Some(StaticImageFormat::WebP)
    } else {
        None
    }
}

/// The format a file extension names, compared case-insensitively (ASCII).
pub fn image_format_from_extension(extension: &str) -> (r: Option<StaticImageFormat>)
    ensures
        r == image_format_spec(extension@),
{
    let lower = to_ascii_lowercase(extension);
    if chars_eq_str(&lower, "png") {
        Some(StaticImageFormat::Png)
    } else if chars_eq_str(&lower, "webp") {
        Some(StaticImageFormat::WebP)
    } else {
        None
    }
}

// ---------------------------------------------------------------- asset paths

pub open spec fn asset_reference_safe(is_empty: bool, is_absolute: bool, components: Seq<PathComponentKind>) -> bool {
    !is_empty && !is_absolute && forall|i: int|
        0 <= i < components.len() ==> components[i] != PathComponentKind::ParentDir && components[i]
            != PathComponentKind::RootDir && components[i] != PathComponentKind::Prefix
}

/// An asset named by a profile must be a non-empty relative path that never
/// climbs out of the profile directory (`..`, a root or a drive prefix).
pub fn check_asset_reference(relative: &str, is_empty: bool, is_absolute: bool, components: &Vec<PathComponentKind>) -> (r: Result<(), CharacterProfileError>)
    ensures
        r is Ok <==> asset_reference_safe(is_empty, is_absolute, components@),
        r is Err ==> (r->Err_0 matches CharacterProfileError::PathEscape(p) && p@ == relative@),
{
    let mut safe = true;
    let mut i: usize = 0;
    while i < components.len()
        invariant
            i <= components@.len(),
            safe == forall|k: int|
                0 <= k < i ==> components@[k] != PathComponentKind::ParentDir && components@[k]
                    != PathComponentKind::RootDir && components@[k] != PathComponentKind::Prefix,
        decreases components.len() - i,
    {
        let c = components[i];
        if c == PathComponentKind::ParentDir || c == PathComponentKind::RootDir || c == PathComponentKind::Prefix {
            safe = false;
        }
        i = i + 1;
    }
    if is_empty || is_absolute || !safe {
        Err(CharacterProfileError::PathEscape(string_of(chars_of(relative).as_slice())))
    } else {
        Ok(())
    }
}

pub open spec fn components_start_with(path: Seq<Seq<char>>, root: Seq<Seq<char>>) -> bool {
    root.len() <= path.len() && forall|i: int| 0 <= i < root.len() ==> path[i] == root[i]
}

/// A canonical path must lie under the characters root, compared component
/// by component.
pub fn ensure_under_root(root: &Vec<String>, canonical: &Vec<String>, canonical_text: &str) -> (r: Result<(), CharacterProfileError>)
    ensures
        r is Ok <==> components_start_with(string_views(canonical@), string_views(root@)),
        r is Err ==> (r->Err_0 matches CharacterProfileError::PathEscape(p) && p@ == canonical_text@),
{
    if root.len() > canonical.len() {
        return Err(CharacterProfileError::PathEscape(string_of(chars_of(canonical_text).as_slice())));
    }
    let mut i: usize = 0;
    while i < root.len()
        invariant
            i <= root@.len() <= canonical@.len(),
            forall|k: int| 0 <= k < i ==> string_views(canonical@)[k] == string_views(root@)[k],
        decreases root.len() - i,
    {
        if !str_equal(canonical[i].as_str(), root[i].as_str()) {
            assert(string_views(canonical@)[i as int] != string_views(root@)[i as int]);
            return Err(CharacterProfileError::PathEscape(string_of(chars_of(canonical_text).as_slice())));
        }
        i = i + 1;
    }
    Ok(())
}

/// Assets must be regular files.
pub fn require_regular_file(canonical_text: &str, is_file: bool) -> (r: Result<(), CharacterProfileError>)
    ensures
        r is Ok <==> is_file,
        r is Err ==> (r->Err_0 matches CharacterProfileError::InvalidProfile { path, message } && path@
            == canonical_text@ && message@ == "asset is not a regular file"@),
{
    if is_file {
        Ok(())
    } else {
        Err(
            CharacterProfileError::InvalidProfile {
                path: string_of(chars_of(canonical_text).as_slice()),
                message: string_of(chars_of("asset is not a regular file").as_slice()),
            },
        )
    }
}

// ---------------------------------------------------------------- laws

/// A configured active id selects exactly that identity or fails; it never
/// switches to another profile.
pub proof fn law_configured_id_never_switches_identity(c: CatalogView, id: Seq<char>)
    requires
        catalog_wf(c),
        resolution(c, Some(id)) is Ok,
    ensures
        c.profiles[resolution(c, Some(id))->Ok_0].id == id,
{
}

/// Without a configured id, a single profile is selected and several
/// profiles require an explicit selection.
pub proof fn law_unconfigured_selection(c: CatalogView)
    ensures
        c.profiles.len() == 1 ==> resolution(c, None) == Ok::<int, int>(0),
        c.profiles.len() == 0 ==> resolution(c, None) == Err::<int, int>(1),
        c.profiles.len() > 1 ==> resolution(c, None) == Err::<int, int>(2),
{
}

/// The reserved legacy id, when persisted, never selects the virtual legacy profile.
pub proof fn law_persisted_legacy_id_is_unavailable(c: CatalogView)
    requires
        c.explicit_profile_count == 0,
    ensures
        resolution(c, Some(LEGACY_CHARACTER_ID@)) is Err,
{
}

/// A present explicit id that exists in a well-formed catalog is selected.
pub proof fn law_present_explicit_id_is_selected(c: CatalogView, k: int)
    requires
        catalog_wf(c),
        c.explicit_profile_count > 0,
        0 <= k < c.profiles.len(),
    ensures
        resolution(c, Some(c.profiles[k].id)) == Ok::<int, int>(k),
{
    let id = c.profiles[k].id;
    let j = choose|j: int| 0 <= j < c.profiles.len() && c.profiles[j].id == id;
    if j != k {
        if j < k {
            assert(c.profiles[j].id != c.profiles[k].id);
        } else {
            assert(c.profiles[k].id != c.profiles[j].id);
        }
    }
}

} // verus!
