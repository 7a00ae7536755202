//! Character setup rules: which profile each renderer source shows, how an
//! import updates the selection, and which managed generations may be
//! cleaned up.

use vstd::prelude::*;

use crate::character::catalog::{
    catalog_wf, copy_string, index_of_id, static_expression_views, CatalogView, CharacterCatalog,
    CharacterView, RendererView, ResolvedCharacter, ResolvedRenderer, LEGACY_CHARACTER_ID,
};
use crate::character::import::SetupError;
use crate::character::settings::CharacterSettings;
use crate::text::chars_of;

verus! {

pub const MANAGED_STATIC_PREFIX: &'static str = "managed-static-";
pub const MANAGED_LIVE2D_PREFIX: &'static str = "managed-live2d-";
pub const MANAGED_MARKER_FILE: &'static str = ".parallel-world-managed.json";

/// Windows `FILE_ATTRIBUTE_REPARSE_POINT`.
pub const FILE_ATTRIBUTE_REPARSE_POINT: u32 = 0x400;

pub fn has_reparse_attribute(attributes: u32) -> (b: bool)
    ensures
        b == (attributes & FILE_ATTRIBUTE_REPARSE_POINT != 0),
{
    attributes & FILE_ATTRIBUTE_REPARSE_POINT != 0
}

/// A managed generation directory may be cleaned up only when it is a real
/// directory: no symlink and no reparse point.
pub fn managed_directory_metadata_is_safe(is_directory: bool, is_symlink: bool, attributes: u32) -> (b: bool)
    ensures
        b == (is_directory && !is_symlink && (attributes & FILE_ATTRIBUTE_REPARSE_POINT == 0)),
{
    is_directory && !is_symlink && !has_reparse_attribute(attributes)
}

#[derive(Debug, Clone, Copy, PartialEq, Eq, Structural)]
pub enum CharacterRendererKind {
    Live2d,
    StaticImage,
}

#[derive(Debug, Clone, Copy, PartialEq, Eq, Structural)]
pub enum ManagedKind {
    StaticImage,
    Live2d,
}

pub open spec fn managed_prefix(kind: ManagedKind) -> Seq<char> {
    match kind {
        ManagedKind::StaticImage => MANAGED_STATIC_PREFIX@,
        ManagedKind::Live2d => MANAGED_LIVE2D_PREFIX@,
    }
}

impl ManagedKind {
    pub fn prefix(self) -> (s: &'static str)
        ensures
            s@ == managed_prefix(self),
    {
        match self {
            ManagedKind::StaticImage => MANAGED_STATIC_PREFIX,
            ManagedKind::Live2d => MANAGED_LIVE2D_PREFIX,
        }
    }
}

pub open spec fn renderer_kind_of(v: CharacterView) -> CharacterRendererKind {
    match v.renderer {
        RendererView::Live2d { .. } => CharacterRendererKind::Live2d,
        RendererView::StaticImage { .. } => CharacterRendererKind::StaticImage,
    }
}

pub fn renderer_kind(character: &crate::character::catalog::ResolvedCharacter) -> (k: CharacterRendererKind)
    ensures
        k == renderer_kind_of(character@),
{
    match character.renderer {
        ResolvedRenderer::Live2d { .. } => CharacterRendererKind::Live2d,
        ResolvedRenderer::StaticImage { .. } => CharacterRendererKind::StaticImage,
    }
}

/// The file a profile's renderer loads first: the Live2D model, or the
/// first static expression image.
pub open spec fn source_path_spec(v: CharacterView) -> Option<Seq<char>> {
    match v.renderer {
        RendererView::Live2d { model_path, .. } => Some(model_path),
        RendererView::StaticImage { expressions, .. } => if expressions.len() > 0 {
            Some(expressions[0].1)
        } else {
            None
        },
    }
}

pub fn source_path(character: &ResolvedCharacter) -> (r: Option<&str>)
    ensures
        match r {
            Some(p) => source_path_spec(character@) == Some(p@),
            None => source_path_spec(character@) is None,
        },
{
    match &character.renderer {
        ResolvedRenderer::Live2d { model_path, .. } => Some(model_path.as_str()),
        ResolvedRenderer::StaticImage { expressions, .. } => if expressions.len() > 0 {
            proof {
                assert(static_expression_views(expressions@)[0] == (expressions@[0].name@, expressions@[0].image_path@));
            }
            Some(expressions[0].image_path.as_str())
        } else {
            None
        },
    }
}

/// The part of a path after its last `/`.
pub open spec fn last_segment(p: Seq<char>) -> Seq<char>
    decreases p.len(),
{
    if p.len() == 0 {
        p
    } else if p.last() == '/' {
        Seq::empty()
    } else {
        last_segment(p.drop_last()).push(p.last())
    }
}

/// A path that every platform splits at `/` alone and whose last segment is
/// an ordinary name: no `\\` or `:` anywhere (so no Windows prefix or
/// backslash separator), no leading `//` (a Windows UNC prefix), and a last
/// segment that is neither empty, `.` nor `..`.
pub open spec fn plain_file_path(p: Seq<char>) -> bool {
    &&& !p.contains('\\')
    &&& !p.contains(':')
    &&& !(p.len() >= 2 && p[0] == '/' && p[1] == '/')
    &&& last_segment(p).len() > 0
    &&& last_segment(p) != seq!['.']
    &&& last_segment(p) != seq!['.', '.']
}

/// The final component of a path, as std's `Path::file_name` gives it
/// ("the final component of the Path, if there is one"), when it is valid
/// UTF-8. Which characters separate components depends on the platform; the
/// contract speaks only of paths that every platform splits alike, where the
/// final component is the part after the last `/`. Of other paths nothing is
/// stated.
#[verifier::external_body]
fn path_file_name(path: &str) -> (r: Option<String>)
    ensures
        plain_file_path(path@) ==> r is Some && r->0@ == last_segment(path@),
{
    match std::path::Path::new(path).file_name() {
        Some(name) => match name.to_str() {
            Some(text) => Some(text.to_owned()),
            None => None,
        },
        None => None,
    }
}

/// File name of the file a profile's renderer loads first.
pub fn file_name(character: &ResolvedCharacter) -> (r: Option<String>)
    ensures
        source_path_spec(character@) is None ==> r is None,
        source_path_spec(character@) matches Some(p) ==> (plain_file_path(p) ==> r is Some && r->0@
            == last_segment(p)),
{
    match source_path(character) {
        Some(path) => path_file_name(path),
        None => None,
    }
}

/// How one renderer source appears in the setup screen.
#[derive(Debug)]
pub struct CharacterSourceStatus {
    pub kind: CharacterRendererKind,
    pub configured: bool,
    pub display_name: Option<String>,
    pub file_name: Option<String>,
    pub import_enabled: bool,
    pub active: bool,
}

/// The status of a renderer source showing `character`: configured when a
/// profile is shown, active when it is the active character.
pub fn status(
    kind: CharacterRendererKind,
    character: Option<&ResolvedCharacter>,
    active_id: Option<&str>,
    import_enabled: bool,
) -> (r: CharacterSourceStatus)
    ensures
        r.kind == kind,
        r.import_enabled == import_enabled,
        r.configured == (character is Some),
        match character {
            Some(c) => r.display_name matches Some(n) && n@ == c.display_name@ && r.active == (
            active_id matches Some(a) && a@ == c.id@),
            None => r.display_name is None && r.file_name is None && !r.active,
        },
{
    match character {
        Some(c) => {
            let active = match active_id {
                Some(a) => crate::text::str_equal(a, c.id.as_str()),
                None => false,
            };
            CharacterSourceStatus {
                kind,
                configured: true,
                display_name: Some(copy_string(&c.display_name)),
                file_name: file_name(c),
                import_enabled,
                active,
            }
        },
        None => CharacterSourceStatus {
            kind,
            configured: false,
            display_name: None,
            file_name: None,
            import_enabled,
            active: false,
        },
    }
}

pub const CHARACTER_SETUP_SCHEMA_VERSION: u16 = 1;

/// What the setup screen shows: the active renderer and both sources.
#[derive(Debug)]
pub struct CharacterSetup {
    pub schema_version: u16,
    pub active_renderer: Option<CharacterRendererKind>,
    pub live2d: CharacterSourceStatus,
    pub static_image: CharacterSourceStatus,
}

/// `st` shows catalog entry `shown` (or nothing) for the source `kind`,
/// marked active when it is the active entry.
pub open spec fn status_shows(
    st: CharacterSourceStatus,
    kind: CharacterRendererKind,
    c: CatalogView,
    shown: Option<int>,
    active: Option<int>,
    import_enabled: bool,
) -> bool {
    &&& st.kind == kind
    &&& st.import_enabled == import_enabled
    &&& st.configured == (shown is Some)
    &&& match shown {
        Some(k) => st.display_name matches Some(n) && n@ == c.profiles[k].display_name && st.active == (
        active matches Some(a) && c.profiles[a].id == c.profiles[k].id),
        None => st.display_name is None && st.file_name is None && !st.active,
    }
}

proof fn lemma_index_of_id_in_range(ps: Seq<CharacterView>, id: Seq<char>)
    ensures
        index_of_id(ps, id) matches Some(k) ==> 0 <= k < ps.len(),
{
}

proof fn active_choice_in_range(c: CatalogView, active_id: Option<Seq<char>>)
    ensures
        active_choice(c, active_id) matches Ok(Some(k)) ==> 0 <= k < c.profiles.len(),
{
    lemma_index_of_id_in_range(c.profiles, LEGACY_CHARACTER_ID@);
    if let Some(id) = active_id {
        lemma_index_of_id_in_range(c.profiles, id);
    }
}

proof fn source_choice_in_range(
    c: CatalogView,
    remembered: Option<Seq<char>>,
    active: Option<int>,
    kind: CharacterRendererKind,
)
    requires
        active matches Some(a) ==> 0 <= a < c.profiles.len(),
    ensures
        source_choice(c, remembered, active, kind) matches Some(k) ==> 0 <= k < c.profiles.len(),
{
    if let Some(id) = remembered {
        lemma_index_of_id_in_range(c.profiles, id);
    }
}

fn status_at(
    kind: CharacterRendererKind,
    catalog: &CharacterCatalog,
    shown: Option<usize>,
    active: Option<usize>,
    import_enabled: bool,
) -> (r: CharacterSourceStatus)
    requires
        shown matches Some(k) ==> k < catalog@.profiles.len(),
        active matches Some(a) ==> a < catalog@.profiles.len(),
    ensures
        status_shows(r, kind, catalog@, opt_int(shown), opt_int(active), import_enabled),
{
    let active_id: Option<&str> = match active {
        Some(a) => Some(catalog.profile_at(a).id.as_str()),
        None => None,
    };
    match shown {
        Some(k) => status(kind, Some(catalog.profile_at(k)), active_id, import_enabled),
        None => status(kind, None, active_id, import_enabled),
    }
}

/// The setup screen for the discovered catalog (`None` when no character is
/// available at all): the active profile's renderer, and the profile each
/// source shows. A configured active character missing from the catalog is
/// an error. Static images can always be imported; Live2D only when enabled.
pub fn setup_view(catalog: Option<&CharacterCatalog>, settings: &CharacterSettings, live2d_import_enabled: bool) -> (r:
    Result<CharacterSetup, SetupError>)
    requires
        catalog matches Some(c) ==> catalog_wf(c@),
    ensures
        r is Ok ==> r->Ok_0.schema_version == CHARACTER_SETUP_SCHEMA_VERSION,
        catalog is None ==> r is Ok && r->Ok_0.active_renderer is None && status_shows(
            r->Ok_0.live2d,
            CharacterRendererKind::Live2d,
            CatalogView { profiles: Seq::empty(), explicit_profile_count: 0 },
            None,
            None,
            live2d_import_enabled,
        ) && status_shows(
            r->Ok_0.static_image,
            CharacterRendererKind::StaticImage,
            CatalogView { profiles: Seq::empty(), explicit_profile_count: 0 },
            None,
            None,
            true,
        ),
        catalog matches Some(c) ==> match active_choice(c@, opt_view(settings.active_character_id)) {
            Err(()) => r is Err && r->Err_0.code@ == "active_character_unavailable"@ && r->Err_0.message@
                == "configured active character is unavailable"@,
            Ok(active) => r is Ok && r->Ok_0.active_renderer == match active {
                Some(a) => Some(renderer_kind_of(c@.profiles[a])),
                None => None,
            } && status_shows(
                r->Ok_0.live2d,
                CharacterRendererKind::Live2d,
                c@,
                source_choice(
                    c@,
                    opt_view(settings.live2d_character_id),
                    active,
                    CharacterRendererKind::Live2d,
                ),
                active,
                live2d_import_enabled,
            ) && status_shows(
                r->Ok_0.static_image,
                CharacterRendererKind::StaticImage,
                c@,
                source_choice(
                    c@,
                    opt_view(settings.static_image_character_id),
                    active,
                    CharacterRendererKind::StaticImage,
                ),
                active,
                true,
            ),
        },
{
    let catalog = match catalog {
        Some(c) => c,
        None => {
            return Ok(
                CharacterSetup {
                    schema_version: CHARACTER_SETUP_SCHEMA_VERSION,
                    active_renderer: None,
                    live2d: status(CharacterRendererKind::Live2d, None, None, live2d_import_enabled),
                    static_image: status(CharacterRendererKind::StaticImage, None, None, true),
                },
            );
        },
    };
    let selection = match select_setup_sources(catalog, settings) {
        Ok(s) => s,
        Err(()) => {
            return Err(
                SetupError {
                    code: "active_character_unavailable",
                    message: crate::text::string_of(
                        chars_of("configured active character is unavailable").as_slice(),
                    ),
                },
            );
        },
    };
    proof {
        source_choice_in_range(catalog@, opt_view(settings.live2d_character_id), opt_int(selection.active), CharacterRendererKind::Live2d);
        source_choice_in_range(catalog@, opt_view(settings.static_image_character_id), opt_int(selection.active), CharacterRendererKind::StaticImage);
        active_choice_in_range(catalog@, opt_view(settings.active_character_id));
    }
    let active_renderer = match selection.active {
        Some(a) => Some(renderer_kind(catalog.profile_at(a))),
        None => None,
    };
    Ok(
        CharacterSetup {
            schema_version: CHARACTER_SETUP_SCHEMA_VERSION,
            active_renderer,
            live2d: status_at(
                CharacterRendererKind::Live2d,
                catalog,
                selection.live2d,
                selection.active,
                live2d_import_enabled,
            ),
            static_image: status_at(
                CharacterRendererKind::StaticImage,
                catalog,
                selection.static_image,
                selection.active,
                true,
            ),
        },
    )
}

// ---------------------------------------------------------------- managed ids

pub open spec fn is_digit_char(c: char) -> bool {
    '0' <= c && c <= '9'
}

/// `digits-digits-digits`: exactly two dashes separating three non-empty
/// runs of ASCII digits.
pub open spec fn generation_shape(g: Seq<char>) -> bool {
    exists|a: int, b: int|
        0 < a && a + 1 < b && b + 1 < g.len() && g[a] == '-' && g[b] == '-' && forall|k: int|
            0 <= k < g.len() && k != a && k != b ==> #[trigger] is_digit_char(g[k])
}

/// The generation named by a managed directory id of the given kind.
pub open spec fn managed_generation(id: Seq<char>, kind: ManagedKind) -> Option<Seq<char>> {
    let p = managed_prefix(kind);
    if id.len() >= p.len() && id.take(p.len() as int) == p && generation_shape(id.skip(p.len() as int)) {
        Some(id.skip(p.len() as int))
    } else {
        None
    }
}

fn generation_shape_exec(g: &Vec<char>) -> (b: bool)
    ensures
        b == generation_shape(g@),
{
    let mut dashes: usize = 0;
    let mut first: usize = 0;
    let mut second: usize = 0;
    let mut i: usize = 0;
    while i < g.len()
        invariant
            i <= g@.len(),
            dashes <= 2,
            dashes >= 1 ==> first < i && g@[first as int] == '-',
            dashes >= 2 ==> first < second < i && g@[second as int] == '-',
            forall|k: int|
                0 <= k < i && !(dashes >= 1 && k == first) && !(dashes >= 2 && k == second)
                    ==> #[trigger] is_digit_char(g@[k]),
        decreases g.len() - i,
    {
        let c = g[i];
        if c == '-' {
            if dashes == 0 {
                first = i;
                dashes = 1;
            } else if dashes == 1 {
                second = i;
                dashes = 2;
            } else {
                proof {
                    if generation_shape(g@) {
                        let (a, b) = choose|a: int, b: int|
                            0 < a && a + 1 < b && b + 1 < g@.len() && g@[a] == '-' && g@[b] == '-'
                                && forall|k: int|
                                0 <= k < g@.len() && k != a && k != b ==> #[trigger] is_digit_char(
                                    g@[k],
                                );
                        if first != a && first != b {
                            assert(is_digit_char(g@[first as int]));
                        } else if second != a && second != b {
                            assert(is_digit_char(g@[second as int]));
                        } else {
                            assert(is_digit_char(g@[i as int]));
                        }
                    }
                }
                return false;
            }
        } else if !('0' <= c && c <= '9') {
            proof {
                if generation_shape(g@) {
                    let (a, b) = choose|a: int, b: int|
                        0 < a && a + 1 < b && b + 1 < g@.len() && g@[a] == '-' && g@[b] == '-'
                            && forall|k: int|
                            0 <= k < g@.len() && k != a && k != b ==> #[trigger] is_digit_char(
                                g@[k],
                            );
                    assert(is_digit_char(g@[i as int]));
                }
            }
            return false;
        }
        i = i + 1;
    }
    if dashes == 2 && first > 0 && first + 1 < second && second + 1 < g.len() {
        proof {
            assert forall|k: int| 0 <= k < g@.len() && k != first && k != second implies #[trigger] is_digit_char(g@[k]) by {}
        }
        return true;
    }
    proof {
        if generation_shape(g@) {
            let (a, b) = choose|a: int, b: int|
                0 < a && a + 1 < b && b + 1 < g@.len() && g@[a] == '-' && g@[b] == '-' && forall|
                    k: int,
                | 0 <= k < g@.len() && k != a && k != b ==> #[trigger] is_digit_char(g@[k]);
            if dashes < 2 {
                if dashes == 0 {
                    assert(is_digit_char(g@[a]));
                } else if first == a {
                    assert(is_digit_char(g@[b]));
                } else {
                    assert(is_digit_char(g@[a]));
                }
            } else {
                if first != a && first != b {
                    assert(is_digit_char(g@[first as int]));
                } else if second != a && second != b {
                    assert(is_digit_char(g@[second as int]));
                }
            }
        }
    }
    false
}

/// The generation of a managed id, or `None` when the id does not have the
/// managed shape for the kind. (An id of this shape is a single plain path
/// component.)
pub fn managed_identity(id: &str, kind: ManagedKind) -> (r: Option<Vec<char>>)
    ensures
        match r {
            Some(g) => managed_generation(id@, kind) == Some(g@),
            None => managed_generation(id@, kind) is None,
        },
{
    let chars = chars_of(id);
    let prefix = chars_of(kind.prefix());
    if chars.len() < prefix.len() {
        return None;
    }
    let mut i: usize = 0;
    while i < prefix.len()
        invariant
            prefix.len() <= chars.len(),
            chars@ == id@,
            prefix@ == managed_prefix(kind),
            i <= prefix.len(),
            forall|k: int| 0 <= k < i ==> chars@[k] == prefix@[k],
        decreases prefix.len() - i,
    {
        if chars[i] != prefix[i] {
            assert(chars@.take(prefix@.len() as int)[i as int] != prefix@[i as int]);
            return None;
        }
        i = i + 1;
    }
    assert(chars@.take(prefix@.len() as int) =~= prefix@);
    let mut rest: Vec<char> = Vec::new();
    let mut j: usize = prefix.len();
    while j < chars.len()
        invariant
            prefix.len() <= j <= chars.len(),
            rest@ == chars@.subrange(prefix@.len() as int, j as int),
        decreases chars.len() - j,
    {
        rest.push(chars[j]);
        j = j + 1;
    }
    assert(rest@ =~= chars@.skip(prefix@.len() as int));
    if generation_shape_exec(&rest) {
        Some(rest)
    } else {
        None
    }
}

// ---------------------------------------------------------------- setup view

pub open spec fn opt_view(o: Option<String>) -> Option<Seq<char>> {
    match o {
        Some(s) => Some(s@),
        None => None,
    }
}

pub open spec fn lookup(c: CatalogView, id: Option<Seq<char>>) -> Option<int> {
    match id {
        None => None,
        Some(i) => index_of_id(c.profiles, i),
    }
}

pub open spec fn of_kind(c: CatalogView, k: Option<int>, kind: CharacterRendererKind) -> Option<int> {
    match k {
        Some(i) => if renderer_kind_of(c.profiles[i]) == kind {
            Some(i)
        } else {
            None
        },
        None => None,
    }
}

/// A remembered id of the right kind, or else (only when nothing is
/// remembered) the active profile when it has the right kind.
pub open spec fn source_choice(
    c: CatalogView,
    remembered: Option<Seq<char>>,
    active: Option<int>,
    kind: CharacterRendererKind,
) -> Option<int> {
    match of_kind(c, lookup(c, remembered), kind) {
        Some(i) => Some(i),
        None => if remembered is None {
            of_kind(c, active, kind)
        } else {
            None
        },
    }
}

/// The active profile: the configured one, or the virtual legacy profile
/// when nothing is configured and no explicit profile exists. `Err` when a
/// configured id is missing from the catalog.
pub open spec fn active_choice(c: CatalogView, active_id: Option<Seq<char>>) -> Result<Option<int>, ()> {
    let explicit = lookup(c, active_id);
    if active_id is Some && explicit is None {
        Err(())
    } else if explicit is Some {
        Ok(explicit)
    } else if active_id is None && c.explicit_profile_count == 0 {
        Ok(index_of_id(c.profiles, LEGACY_CHARACTER_ID@))
    } else {
        Ok(None)
    }
}

/// Positions in the catalog of the active profile and of the profile each
/// renderer source shows.
#[derive(Debug)]
pub struct SetupSelection {
    pub active: Option<usize>,
    pub live2d: Option<usize>,
    pub static_image: Option<usize>,
}

pub open spec fn opt_int(o: Option<usize>) -> Option<int> {
    match o {
        Some(k) => Some(k as int),
        None => None,
    }
}

fn lookup_exec(catalog: &CharacterCatalog, id: &Option<String>) -> (r: Option<usize>)
    requires
        catalog_wf(catalog@),
    ensures
        opt_int(r) == lookup(catalog@, opt_view(*id)),
        r is Some ==> r->0 < catalog@.profiles.len(),
{
    match id {
        Some(i) => {
            let r = catalog.position_of_id(i.as_str());
            proof {
                if r is Some {
                    let k = choose|k: int| 0 <= k < catalog@.profiles.len() && catalog@.profiles[k].id == i@;
                }
            }
            r
        },
        None => None,
    }
}

fn of_kind_exec(catalog: &CharacterCatalog, k: Option<usize>, kind: CharacterRendererKind) -> (r: Option<usize>)
    requires
        k is Some ==> k->0 < catalog@.profiles.len(),
    ensures
        opt_int(r) == of_kind(catalog@, opt_int(k), kind),
        r is Some ==> r->0 < catalog@.profiles.len(),
{
    match k {
        Some(i) => if renderer_kind(catalog.profile_at(i)) == kind {
            Some(i)
        } else {
            None
        },
        None => None,
    }
}

/// Chooses the active profile and the profile of each renderer source.
/// `Err(())` when the configured active character is unavailable.
pub fn select_setup_sources(catalog: &CharacterCatalog, settings: &CharacterSettings) -> (r: Result<SetupSelection, ()>)
    requires
        catalog_wf(catalog@),
    ensures
        match active_choice(catalog@, opt_view(settings.active_character_id)) {
            Err(()) => r is Err,
            Ok(active) => r is Ok && opt_int(r->Ok_0.active) == active && opt_int(r->Ok_0.live2d)
                == source_choice(
                catalog@,
                opt_view(settings.live2d_character_id),
                active,
                CharacterRendererKind::Live2d,
            ) && opt_int(r->Ok_0.static_image) == source_choice(
                catalog@,
                opt_view(settings.static_image_character_id),
                active,
                CharacterRendererKind::StaticImage,
            ),
        },
{
    let explicit = lookup_exec(catalog, &settings.active_character_id);
    if settings.active_character_id.is_some() && explicit.is_none() {
        return Err(());
    }
    let active = if explicit.is_some() {
        explicit
    } else if settings.active_character_id.is_none() && !catalog.has_explicit_profiles() {
        let legacy = catalog.position_of_id(LEGACY_CHARACTER_ID);
        proof {
            if legacy is Some {
                let k = choose|k: int| 0 <= k < catalog@.profiles.len() && catalog@.profiles[k].id == LEGACY_CHARACTER_ID@;
            }
        }
        legacy
    } else {
        None
    };
    let remembered_live2d = of_kind_exec(
        catalog,
        lookup_exec(catalog, &settings.live2d_character_id),
        CharacterRendererKind::Live2d,
    );
    let live2d = if remembered_live2d.is_some() {
        remembered_live2d
    } else if settings.live2d_character_id.is_none() {
        of_kind_exec(catalog, active, CharacterRendererKind::Live2d)
    } else {
        None
    };
    let remembered_static = of_kind_exec(
        catalog,
        lookup_exec(catalog, &settings.static_image_character_id),
        CharacterRendererKind::StaticImage,
    );
    let static_image = if remembered_static.is_some() {
        remembered_static
    } else if settings.static_image_character_id.is_none() {
        of_kind_exec(catalog, active, CharacterRendererKind::StaticImage)
    } else {
        None
    };
    Ok(SetupSelection { active, live2d, static_image })
}

/// What selecting a renderer source does.
#[derive(Debug)]
pub enum RendererChoice {
    /// Make the profile at this position active.
    Select(usize),
    /// Live2D is requested while only the virtual legacy profile exists and
    /// nothing is configured: the setup stays as it is.
    KeepLegacy,
    /// The requested source has no profile.
    Unconfigured,
}

pub open spec fn renderer_choice_spec(c: CatalogView, settings: CharacterSettings, kind: CharacterRendererKind) -> Result<int, bool> {
    let remembered = match kind {
        CharacterRendererKind::Live2d => opt_view(settings.live2d_character_id),
        CharacterRendererKind::StaticImage => opt_view(settings.static_image_character_id),
    };
    let active = lookup(c, opt_view(settings.active_character_id));
    match source_choice(c, remembered, active, kind) {
        Some(i) => Ok(i),
        None => Err(kind == CharacterRendererKind::Live2d && settings.active_character_id is None
            && c.explicit_profile_count == 0 && index_of_id(c.profiles, LEGACY_CHARACTER_ID@) is Some),
    }
}

/// Chooses the profile that becomes active when the user switches to a
/// renderer source.
pub fn choose_active_renderer(catalog: &CharacterCatalog, settings: &CharacterSettings, kind: CharacterRendererKind) -> (r: RendererChoice)
    requires
        catalog_wf(catalog@),
    ensures
        match renderer_choice_spec(catalog@, *settings, kind) {
            Ok(i) => r == RendererChoice::Select(i as usize) && i < catalog@.profiles.len(),
            Err(true) => r is KeepLegacy,
            Err(false) => r is Unconfigured,
        },
{
    let remembered = match kind {
        CharacterRendererKind::Live2d => &settings.live2d_character_id,
        CharacterRendererKind::StaticImage => &settings.static_image_character_id,
    };
    let active = lookup_exec(catalog, &settings.active_character_id);
    let chosen = of_kind_exec(catalog, lookup_exec(catalog, remembered), kind);
    let selected = if chosen.is_some() {
        chosen
    } else if remembered.is_none() {
        of_kind_exec(catalog, active, kind)
    } else {
        None
    };
    match selected {
        Some(i) => RendererChoice::Select(i),
        None => {
            if kind == CharacterRendererKind::Live2d && settings.active_character_id.is_none()
                && !catalog.has_explicit_profiles() && catalog.position_of_id(LEGACY_CHARACTER_ID).is_some() {
                RendererChoice::KeepLegacy
            } else {
                RendererChoice::Unconfigured
            }
        },
    }
}

// ---------------------------------------------------------------- imports

/// Whether importing a static image must first turn the virtual legacy
/// Live2D model into a managed generation, so that switching back to it
/// stays possible.
pub fn needs_legacy_materialization(
    kind: CharacterRendererKind,
    before_active: Option<CharacterRendererKind>,
    original: &CharacterSettings,
) -> (b: bool)
    ensures
        b == (kind == CharacterRendererKind::StaticImage && before_active == Some(
            CharacterRendererKind::Live2d,
        ) && original.active_character_id is None && original.live2d_character_id is None),
{
    kind == CharacterRendererKind::StaticImage && before_active == Some(CharacterRendererKind::Live2d)
        && original.active_character_id.is_none() && original.live2d_character_id.is_none()
}

/// A generation that was staged and committed by an import.
#[derive(Debug)]
pub struct PreparedSource {
    pub kind: ManagedKind,
    pub id: String,
}

pub open spec fn managed_kind_of(kind: CharacterRendererKind) -> ManagedKind {
    match kind {
        CharacterRendererKind::Live2d => ManagedKind::Live2d,
        CharacterRendererKind::StaticImage => ManagedKind::StaticImage,
    }
}

/// The id of the last prepared generation of a kind.
pub open spec fn last_of_kind(ps: Seq<PreparedSource>, kind: ManagedKind) -> Option<Seq<char>>
    decreases ps.len(),
{
    if ps.len() == 0 {
        None
    } else if ps.last().kind == kind {
        Some(ps.last().id@)
    } else {
        last_of_kind(ps.drop_last(), kind)
    }
}

/// The id of the first prepared generation of a kind.
pub open spec fn first_of_kind(ps: Seq<PreparedSource>, kind: ManagedKind) -> Option<Seq<char>>
    decreases ps.len(),
{
    if ps.len() == 0 {
        None
    } else if ps[0].kind == kind {
        Some(ps[0].id@)
    } else {
        first_of_kind(ps.drop_first(), kind)
    }
}

/// The id the source showed before the import: the remembered id, or the
/// active id when the source was the active one and nothing was remembered.
pub open spec fn previous_source(
    remembered: Option<Seq<char>>,
    active: Option<Seq<char>>,
    before_active: Option<CharacterRendererKind>,
    kind: CharacterRendererKind,
) -> Option<Seq<char>> {
    match remembered {
        Some(r) => Some(r),
        None => if before_active == Some(kind) {
            active
        } else {
            None
        },
    }
}

pub open spec fn import_activates(
    original: CharacterSettings,
    before_active: Option<CharacterRendererKind>,
    kind: CharacterRendererKind,
    prepared_len: int,
) -> bool {
    before_active is None || before_active == Some(kind) || (kind
        == CharacterRendererKind::StaticImage && original.active_character_id is None
        && prepared_len == 2)
}

#[derive(Debug)]
pub struct ImportSelection {
    pub settings: CharacterSettings,
    /// Generation shown by the Live2D source before the import.
    pub previous_live2d: Option<String>,
    /// Generation shown by the static-image source before the import.
    pub previous_static: Option<String>,
}

fn copy_option(o: &Option<String>) -> (r: Option<String>)
    ensures
        opt_view(r) == opt_view(*o),
{
    match o {
        Some(s) => Some(copy_string(s)),
        None => None,
    }
}

fn last_of_kind_exec(ps: &Vec<PreparedSource>, kind: ManagedKind) -> (r: Option<String>)
    ensures
        opt_view(r) == last_of_kind(ps@, kind),
{
    let mut i: usize = ps.len();
    assert(ps@.take(ps@.len() as int) =~= ps@);
    while i > 0
        invariant
            i <= ps@.len(),
            forall|k: int| i <= k < ps@.len() ==> ps@[k].kind != kind,
            last_of_kind(ps@, kind) == last_of_kind(ps@.take(i as int), kind),
        decreases i,
    {
        let ghost t = ps@.take(i as int);
        assert(t.last() == ps@[i - 1]);
        assert(t.drop_last() =~= ps@.take(i - 1));
        if ps[i - 1].kind == kind {
            return Some(copy_string(&ps[i - 1].id));
        }
        i = i - 1;
    }
    None
}

proof fn lemma_first_of_kind_skip(ps: Seq<PreparedSource>, kind: ManagedKind, i: int)
    requires
        0 <= i <= ps.len(),
        forall|k: int| 0 <= k < i ==> ps[k].kind != kind,
    ensures
        first_of_kind(ps, kind) == first_of_kind(ps.skip(i), kind),
    decreases i,
{
    if i > 0 {
        lemma_first_of_kind_skip(ps.drop_first(), kind, i - 1);
        assert(ps.drop_first().skip(i - 1) =~= ps.skip(i));
        assert forall|k: int| 0 <= k < i - 1 implies ps.drop_first()[k].kind != kind by {
            assert(ps.drop_first()[k] == ps[k + 1]);
        }
    } else {
        assert(ps.skip(0) =~= ps);
    }
}

fn first_of_kind_exec(ps: &Vec<PreparedSource>, kind: ManagedKind) -> (r: Option<String>)
    ensures
        opt_view(r) == first_of_kind(ps@, kind),
{
    let mut i: usize = 0;
    while i < ps.len()
        invariant
            i <= ps@.len(),
            forall|k: int| 0 <= k < i ==> ps@[k].kind != kind,
        decreases ps.len() - i,
    {
        if ps[i].kind == kind {
            proof {
                lemma_first_of_kind_skip(ps@, kind, i as int);
                assert(ps@.skip(i as int)[0] == ps@[i as int]);
            }
            return Some(copy_string(&ps[i].id));
        }
        i = i + 1;
    }
    proof {
        lemma_first_of_kind_skip(ps@, kind, ps@.len() as int);
        assert(ps@.skip(ps@.len() as int).len() == 0);
    }
    None
}

/// The settings after an import committed its prepared generations: each
/// prepared generation becomes the remembered profile of its kind, and it
/// becomes active when nothing was active, when the imported kind was the
/// active one, or when a static import also materialized the legacy model
/// (which then stays active).
pub fn select_imported(
    original: &CharacterSettings,
    before_active: Option<CharacterRendererKind>,
    kind: CharacterRendererKind,
    prepared: &Vec<PreparedSource>,
) -> (r: ImportSelection)
    requires
        1 <= prepared@.len() <= 2,
    ensures
        r.settings.schema_version == original.schema_version,
        r.settings.expression_idle_timeout_seconds == original.expression_idle_timeout_seconds,
        opt_view(r.settings.live2d_character_id) == match last_of_kind(prepared@, ManagedKind::Live2d) {
            Some(id) => Some(id),
            None => opt_view(original.live2d_character_id),
        },
        opt_view(r.settings.static_image_character_id) == match last_of_kind(prepared@, ManagedKind::StaticImage) {
            Some(id) => Some(id),
            None => opt_view(original.static_image_character_id),
        },
        (before_active is None || before_active == Some(kind)) && prepared@.len() == 1 && prepared@[0].kind
            == managed_kind_of(kind) ==> opt_view(r.settings.active_character_id) == Some(prepared@[0].id@),
        opt_view(r.settings.active_character_id) == if import_activates(*original, before_active, kind, prepared@.len() as int) {
            first_of_kind(prepared@, if prepared@.len() == 2 {
                ManagedKind::Live2d
            } else {
                prepared@.last().kind
            })
        } else {
            opt_view(original.active_character_id)
        },
        opt_view(r.previous_live2d) == previous_source(
            opt_view(original.live2d_character_id),
            opt_view(original.active_character_id),
            before_active,
            CharacterRendererKind::Live2d,
        ),
        opt_view(r.previous_static) == previous_source(
            opt_view(original.static_image_character_id),
            opt_view(original.active_character_id),
            before_active,
            CharacterRendererKind::StaticImage,
        ),
{
    let previous_live2d = if original.live2d_character_id.is_some() {
        copy_option(&original.live2d_character_id)
    } else if before_active == Some(CharacterRendererKind::Live2d) {
        copy_option(&original.active_character_id)
    } else {
        None
    };
    let previous_static = if original.static_image_character_id.is_some() {
        copy_option(&original.static_image_character_id)
    } else if before_active == Some(CharacterRendererKind::StaticImage) {
        copy_option(&original.active_character_id)
    } else {
        None
    };
    let live2d = match last_of_kind_exec(prepared, ManagedKind::Live2d) {
        Some(id) => Some(id),
        None => copy_option(&original.live2d_character_id),
    };
    let static_image = match last_of_kind_exec(prepared, ManagedKind::StaticImage) {
        Some(id) => Some(id),
        None => copy_option(&original.static_image_character_id),
    };
    let activates = before_active.is_none() || before_active == Some(kind) || (kind
        == CharacterRendererKind::StaticImage && original.active_character_id.is_none()
        && prepared.len() == 2);
    let active = if activates {
        let active_kind = if prepared.len() == 2 {
            ManagedKind::Live2d
        } else {
            prepared[prepared.len() - 1].kind
        };
        first_of_kind_exec(prepared, active_kind)
    } else {
        copy_option(&original.active_character_id)
    };
    ImportSelection {
        settings: CharacterSettings {
            schema_version: original.schema_version,
            active_character_id: active,
            expression_idle_timeout_seconds: original.expression_idle_timeout_seconds,
            live2d_character_id: live2d,
            static_image_character_id: static_image,
        },
        previous_live2d,
        previous_static,
    }
}

/// The generation of a previously shown managed profile that an import may
/// clean up: never one the import itself prepared, and only ids of the
/// managed shape for the kind.
pub fn cleanup_candidate(id: &str, kind: ManagedKind, prepared: &Vec<PreparedSource>) -> (r: Option<Vec<char>>)
    ensures
        (exists|k: int| 0 <= k < prepared@.len() && #[trigger] prepared@[k].id@ == id@) ==> r is None,
        !(exists|k: int| 0 <= k < prepared@.len() && #[trigger] prepared@[k].id@ == id@) ==> match r {
            Some(g) => managed_generation(id@, kind) == Some(g@),
            None => managed_generation(id@, kind) is None,
        },
{
    let mut i: usize = 0;
    while i < prepared.len()
        invariant
            i <= prepared@.len(),
            forall|k: int| 0 <= k < i ==> prepared@[k].id@ != id@,
        decreases prepared.len() - i,
    {
        let same = crate::character::catalog::copy_string(&prepared[i].id);
        let a = chars_of(same.as_str());
        let b = chars_of(id);
        let mut equal = a.len() == b.len();
        let mut j: usize = 0;
        while equal && j < a.len()
            invariant
                equal ==> a.len() == b.len(),
                j <= a.len(),
                equal ==> forall|t: int| 0 <= t < j ==> a@[t] == b@[t],
                !equal ==> a@ != b@,
            decreases a.len() - j,
        {
            if a[j] != b[j] {
                equal = false;
            }
            j = j + 1;
        }
        if equal {
            assert(a@ =~= b@);
            return None;
        }
        i = i + 1;
    }
    managed_identity(id, kind)
}

/// A static import into an empty setup activates the imported generation.
pub proof fn law_first_import_becomes_active(
    original: CharacterSettings,
    kind: CharacterRendererKind,
    prepared: Seq<PreparedSource>,
)
    requires
        prepared.len() == 1,
        prepared[0].kind == managed_kind_of(kind),
    ensures
        import_activates(original, None, kind, 1),
        first_of_kind(prepared, prepared.last().kind) == Some(prepared[0].id@),
{
}

/// Importing a source of the renderer kind that is shown (or into an empty
/// setup) makes the imported generation the active character, whatever
/// was active before.
pub proof fn law_import_of_the_shown_kind_becomes_active(
    original: CharacterSettings,
    before_active: Option<CharacterRendererKind>,
    kind: CharacterRendererKind,
    prepared: Seq<PreparedSource>,
)
    requires
        before_active is None || before_active == Some(kind),
        prepared.len() == 1,
        prepared[0].kind == managed_kind_of(kind),
    ensures
        (if import_activates(original, before_active, kind, prepared.len() as int) {
            first_of_kind(prepared, prepared.last().kind)
        } else {
            opt_view(original.active_character_id)
        }) == Some(prepared[0].id@),
{
}

/// An import that prepares no generation of the other kind leaves the
/// other source's remembered profile untouched.
pub proof fn law_import_keeps_other_source(prepared: Seq<PreparedSource>)
    requires
        forall|k: int| 0 <= k < prepared.len() ==> prepared[k].kind == ManagedKind::StaticImage,
    ensures
        last_of_kind(prepared, ManagedKind::Live2d) is None,
    decreases prepared.len(),
{
    if prepared.len() > 0 {
        law_import_keeps_other_source(prepared.drop_last());
    }
}

} // verus!
