use parallel_world::character::catalog::{
    check_asset_reference, ensure_under_root, require_regular_file,
    check_profile_header, check_static_expression_names, image_format_from_extension,
    resolve_live2d_default, CharacterCatalog, CharacterProfileError, ResolvedCharacter,
    ResolvedRenderer, ResolvedStaticExpression, StaticImageFormat, LEGACY_CHARACTER_ID,
};
use parallel_world::character::image::{validate_static_image, webp_contains_animation, StaticImageBudget};
use parallel_world::character::import::{
    check_import_allowed, profile_setup_error, check_live2d_model, commit_error, commit_failure_plan, SetupError,
    add_copied_bytes, check_file_size, check_live2d_model_name, check_live2d_relative_path,
    check_reference_count, generation_name, is_unreferenced, live2d_display_name,
    marker_is_valid, marker_matches_candidate, rollback_report, source_display_name,
    static_extension, Live2dCopyLimits, ManagedMarker, PathComponentKind,
};
use parallel_world::character::model3::{
    collect_live2d_references, parse_model3_json, parse_model3_manifest, JsonMember, JsonValue,
    ManifestError,
};
use parallel_world::character::settings::{
    validate_idle_timeout, with_expression_idle_timeout, CharacterSettings,
    CHARACTER_SETTINGS_SCHEMA_VERSION,
};
use parallel_world::character::setup::{
    setup_view, file_name, source_path, status,
    choose_active_renderer, has_reparse_attribute, managed_directory_metadata_is_safe,
    managed_identity, select_setup_sources, CharacterRendererKind, ManagedKind, RendererChoice,
};

fn settings(active_character_id: Option<&str>, timeout: Option<u32>) -> CharacterSettings {
    CharacterSettings {
        schema_version: CHARACTER_SETTINGS_SCHEMA_VERSION,
        active_character_id: active_character_id.map(str::to_owned),
        expression_idle_timeout_seconds: timeout,
        live2d_character_id: None,
        static_image_character_id: None,
    }
}

fn static_profile(id: &str, display_name: &str) -> ResolvedCharacter {
    ResolvedCharacter {
        id: id.to_owned(),
        display_name: display_name.to_owned(),
        profile_root: format!("/characters/{id}"),
        renderer: ResolvedRenderer::StaticImage {
            default_expression: "neutral".to_owned(),
            expressions: vec![ResolvedStaticExpression {
                name: "neutral".to_owned(),
                image_path: format!("/characters/{id}/neutral.png"),
            }],
            width: 32,
            height: 32,
        },
    }
}

fn live2d_profile(id: &str) -> ResolvedCharacter {
    ResolvedCharacter {
        id: id.to_owned(),
        display_name: "Live".to_owned(),
        profile_root: format!("/characters/{id}"),
        renderer: ResolvedRenderer::Live2d {
            model_path: format!("/characters/{id}/model/Epsilon.model3.json"),
            default_expression: None,
            expressions: vec!["Normal".to_owned()],
            motion_groups: Vec::new(),
        },
    }
}

fn json_str(s: &str) -> JsonValue {
    JsonValue::Str(s.to_owned())
}

fn object(members: Vec<(&str, JsonValue)>) -> JsonValue {
    JsonValue::Object(
        members
            .into_iter()
            .map(|(key, value)| JsonMember {
                key: key.to_owned(),
                value,
            })
            .collect(),
    )
}

fn from_serde(value: &serde_json::Value) -> JsonValue {
    match value {
        serde_json::Value::Null => JsonValue::Null,
        serde_json::Value::Bool(b) => JsonValue::Bool(*b),
        serde_json::Value::Number(_) => JsonValue::Number,
        serde_json::Value::String(s) => JsonValue::Str(s.clone()),
        serde_json::Value::Array(items) => JsonValue::Array(items.iter().map(from_serde).collect()),
        serde_json::Value::Object(map) => JsonValue::Object(
            map.iter()
                .map(|(key, value)| JsonMember {
                    key: key.clone(),
                    value: from_serde(value),
                })
                .collect(),
        ),
    }
}

const MODEL3_JSON: &str = r#"{
    "Version": 3,
    "FileReferences": {
        "Moc": "Epsilon.moc3",
        "Textures": ["Epsilon.2048/texture_00.png"],
        "Physics": "Epsilon.physics3.json",
        "Expressions": [
            { "Name": "Normal", "File": "expressions/Normal.exp3.json" },
            { "Name": "Smile", "File": "expressions/Smile.exp3.json" }
        ],
        "Motions": {
            "Idle": [ { "File": "motion/idle_01.motion3.json" } ],
            "Tap": [
                { "File": "motion/tap_01.motion3.json" },
                { "File": "motion/tap_02.motion3.json" }
            ]
        }
    }
}"#;

#[test]
fn timeout_outside_bounds_is_rejected() {
    for timeout in [9, 601] {
        assert!(validate_idle_timeout(Some(timeout)).is_err(), "{timeout}");
    }
    assert!(validate_idle_timeout(None).is_ok());
    assert!(validate_idle_timeout(Some(10)).is_ok());
    assert!(validate_idle_timeout(Some(600)).is_ok());
}

#[test]
fn changing_timeout_preserves_active_character_id() {
    let original = settings(Some("epsilon-static"), Some(20));

    let updated = with_expression_idle_timeout(original, None).expect("disable idle timeout");

    assert_eq!(
        updated.active_character_id.as_deref(),
        Some("epsilon-static")
    );
    assert_eq!(updated.expression_idle_timeout_seconds, None);
    assert_eq!(updated.schema_version, CHARACTER_SETTINGS_SCHEMA_VERSION);
}

#[test]
fn idle_timeout_error_names_the_rejected_value() {
    let error = validate_idle_timeout(Some(601)).unwrap_err();
    assert_eq!(
        error,
        "expression idle timeout must be null or between 10 and 600 seconds: 601"
    );
    assert!(with_expression_idle_timeout(settings(None, None), Some(9)).is_err());
}

#[test]
fn windows_reparse_attribute_bit_is_detected_deterministically() {
    assert!(!has_reparse_attribute(0));
    assert!(!has_reparse_attribute(0x20));
    assert!(has_reparse_attribute(0x400));
    assert!(has_reparse_attribute(0x420));
}

#[test]
fn managed_cleanup_metadata_rejects_files_symlinks_and_reparse_directories() {
    assert!(managed_directory_metadata_is_safe(true, false, 0));
    assert!(!managed_directory_metadata_is_safe(false, false, 0));
    assert!(!managed_directory_metadata_is_safe(true, true, 0));
    assert!(!managed_directory_metadata_is_safe(true, false, 0x400));
}

#[test]
fn every_profile_error_has_a_stable_ipc_code() {
    let errors = vec![
        (
            CharacterProfileError::Io {
                path: "missing".to_owned(),
                not_found: true,
                detail: "entity not found".to_owned(),
            },
            "missing_asset",
        ),
        (
            CharacterProfileError::Io {
                path: "busy".to_owned(),
                not_found: false,
                detail: "permission denied".to_owned(),
            },
            "transient_asset_read",
        ),
        (
            CharacterProfileError::InvalidProfile {
                path: String::new(),
                message: String::new(),
            },
            "invalid_manifest",
        ),
        (CharacterProfileError::DuplicateId(String::new()), "invalid_manifest"),
        (CharacterProfileError::SelectionRequired, "selection_required"),
        (
            CharacterProfileError::ActiveCharacterUnavailable(String::new()),
            "active_character_unavailable",
        ),
        (CharacterProfileError::NoCharacterAvailable, "missing_asset"),
        (CharacterProfileError::PathEscape(String::new()), "invalid_manifest"),
        (CharacterProfileError::InvalidName(String::new()), "invalid_manifest"),
        (
            CharacterProfileError::DuplicateExpression(String::new()),
            "invalid_manifest",
        ),
        (
            CharacterProfileError::DefaultExpressionUnavailable(String::new()),
            "invalid_manifest",
        ),
        (CharacterProfileError::TooManyExpressions(33), "invalid_manifest"),
        (
            CharacterProfileError::ImageFileTooLarge {
                path: String::new(),
                bytes: 1,
            },
            "invalid_image",
        ),
        (CharacterProfileError::InvalidImage(String::new()), "invalid_image"),
        (CharacterProfileError::AnimatedWebp(String::new()), "invalid_image"),
        (CharacterProfileError::AlphaRequired(String::new()), "invalid_image"),
        (
            CharacterProfileError::ImageDimensions {
                path: String::new(),
                width: 0,
                height: 0,
            },
            "invalid_image",
        ),
        (
            CharacterProfileError::DimensionMismatch {
                path: String::new(),
                expected_width: 1,
                expected_height: 1,
                actual_width: 2,
                actual_height: 2,
            },
            "invalid_image",
        ),
        (CharacterProfileError::DecodedImageLimit { bytes: 1 }, "invalid_image"),
    ];

    for (error, expected) in errors {
        let description = error.describe();
        assert_eq!(error.stable_code(), expected, "{description}");
        assert!(error
            .ipc_error_with(&description)
            .starts_with(&format!("character_profile_error:{expected}:")));
    }
}

#[test]
fn profile_error_descriptions_match_their_variants() {
    assert_eq!(
        CharacterProfileError::TooManyExpressions(33).describe(),
        "too many static expressions: 33"
    );
    assert_eq!(
        CharacterProfileError::DimensionMismatch {
            path: "two.png".to_owned(),
            expected_width: 1,
            expected_height: 2,
            actual_width: 3,
            actual_height: 4,
        }
        .describe(),
        "static expression dimensions do not match: expected 1x2, got 3x4 at two.png"
    );
    assert_eq!(
        CharacterProfileError::SelectionRequired.ipc_error_with("safe"),
        "character_profile_error:selection_required:safe"
    );
}

#[test]
fn one_explicit_profile_is_selected_without_existing_setting() {
    let catalog = CharacterCatalog::from_explicit(vec![static_profile("epsilon", "epsilon-static")])
        .unwrap();

    let resolved = catalog.resolve(&CharacterSettings::default_settings()).unwrap();

    assert_eq!(resolved.id, "epsilon");
    assert_eq!(resolved.display_name, "epsilon-static");
}

#[test]
fn reserved_virtual_legacy_id_is_rejected_for_an_explicit_profile() {
    let error = check_profile_header("reserved/character.json", 1, LEGACY_CHARACTER_ID, "reserved")
        .unwrap_err();

    assert_eq!(error.stable_code(), "invalid_manifest");
}

#[test]
fn normal_explicit_profile_id_remains_selectable() {
    assert!(check_profile_header("epsilon/character.json", 1, "epsilon", "epsilon-static").is_ok());
    let catalog = CharacterCatalog::from_explicit(vec![static_profile("epsilon", "epsilon-static")])
        .unwrap();
    assert_eq!(
        catalog.resolve(&settings(Some("epsilon"), None)).unwrap().id,
        "epsilon"
    );
}

#[test]
fn multiple_profiles_without_active_id_require_selection() {
    let catalog = CharacterCatalog::from_explicit(vec![
        static_profile("one", "one"),
        static_profile("two", "two"),
    ])
    .unwrap();

    let error = catalog.resolve(&CharacterSettings::default_settings()).unwrap_err();

    assert_eq!(error.stable_code(), "selection_required");
}

#[test]
fn active_id_is_exact_and_missing_id_never_switches_identity() {
    let catalog = CharacterCatalog::from_explicit(vec![
        static_profile("one", "one"),
        static_profile("two", "two"),
    ])
    .unwrap();

    assert_eq!(catalog.resolve(&settings(Some("two"), None)).unwrap().id, "two");
    let error = catalog.resolve(&settings(Some("missing"), None)).unwrap_err();
    assert_eq!(error.stable_code(), "active_character_unavailable");
}

#[test]
fn duplicate_ids_are_rejected() {
    let error = CharacterCatalog::from_explicit(vec![
        static_profile("same", "one"),
        static_profile("same", "two"),
    ])
    .err()
    .unwrap();

    assert_eq!(error.stable_code(), "invalid_manifest");
    assert!(matches!(error, CharacterProfileError::DuplicateId(id) if id == "same"));
}

#[test]
fn header_checks_reject_schema_and_empty_or_long_names() {
    assert!(check_profile_header("p", 2, "epsilon", "Epsilon").is_err());
    assert!(check_profile_header("p", 1, "", "Epsilon").is_err());
    assert!(check_profile_header("p", 1, "epsilon", "").is_err());
    assert!(check_profile_header("p", 1, "epsilon", &"n".repeat(129)).is_err());
    assert!(check_profile_header("p", 1, "epsilon", &"n".repeat(128)).is_ok());
}

#[test]
fn rejects_duplicate_empty_and_missing_default_expression_names() {
    let duplicate = check_static_expression_names(
        "same",
        &vec!["same".to_owned(), "same".to_owned()],
    )
    .unwrap_err();
    assert!(matches!(duplicate, CharacterProfileError::DuplicateExpression(_)));

    let empty = check_static_expression_names("default", &vec![String::new()]).unwrap_err();
    assert!(matches!(empty, CharacterProfileError::InvalidName(_)));

    let missing =
        check_static_expression_names("missing", &vec!["default".to_owned()]).unwrap_err();
    assert!(matches!(
        missing,
        CharacterProfileError::DefaultExpressionUnavailable(_)
    ));
}

#[test]
fn live2d_default_prefers_explicit_then_normal_then_first() {
    let names = vec!["Smile".to_owned(), "Normal".to_owned()];
    assert_eq!(
        resolve_live2d_default(&names, Some("Smile".to_owned())).unwrap(),
        Some("Smile".to_owned())
    );
    assert_eq!(resolve_live2d_default(&names, None).unwrap(), Some("Normal".to_owned()));
    assert_eq!(
        resolve_live2d_default(&vec!["Smile".to_owned()], None).unwrap(),
        Some("Smile".to_owned())
    );
    assert_eq!(resolve_live2d_default(&Vec::new(), None).unwrap(), None);
    assert!(resolve_live2d_default(&names, Some("Angry".to_owned())).is_err());
}

#[test]
fn image_extension_is_case_insensitive() {
    assert_eq!(image_format_from_extension("PNG"), Some(StaticImageFormat::Png));
    assert_eq!(image_format_from_extension("webp"), Some(StaticImageFormat::WebP));
    assert_eq!(image_format_from_extension("gif"), None);
}

#[test]
fn animated_webp_marker_is_detected() {
    let animated = b"RIFF\x0c\x00\x00\x00WEBPANIM\x00\x00\x00\x00";
    assert!(webp_contains_animation(animated));
    assert!(!webp_contains_animation(b"RIFF\x0c\x00\x00\x00WEBPVP8 \x00\x00\x00\x00"));
}

#[test]
fn static_budget_rejects_mismatched_dimensions() {
    let mut budget = StaticImageBudget::new();
    assert!(budget.accept_image("one.png", 32, 32, 4096).is_ok());
    assert_eq!(budget.dimensions(), Some((32, 32)));
    let error = budget.accept_image("two.png", 16, 32, 2048).unwrap_err();
    assert!(matches!(error, CharacterProfileError::DimensionMismatch { .. }));
}

#[test]
fn parses_expressions_and_motion_groups() {
    let manifest =
        parse_model3_json("C:/data/characters/eps/Epsilon.model3.json", MODEL3_JSON).unwrap();

    assert_eq!(manifest.model_path, "C:/data/characters/eps/Epsilon.model3.json");
    assert_eq!(manifest.expressions, vec!["Normal".to_owned(), "Smile".to_owned()]);
    let groups: Vec<(String, u32)> = manifest
        .motion_groups
        .iter()
        .map(|group| (group.name.clone(), group.motion_count))
        .collect();
    assert_eq!(groups, vec![("Idle".to_owned(), 1), ("Tap".to_owned(), 2)]);
}

#[test]
fn parses_models_without_expressions_or_motions() {
    let manifest =
        parse_model3_json("m.model3.json", r#"{"FileReferences":{"Moc":"m.moc3"}}"#).unwrap();

    assert!(manifest.expressions.is_empty());
    assert!(manifest.motion_groups.is_empty());
}

#[test]
fn live2d_references_list_every_file_in_document_order() {
    let json: serde_json::Value = serde_json::from_str(MODEL3_JSON).unwrap();
    let references = collect_live2d_references(&from_serde(&json), "Epsilon.model3.json").unwrap();

    assert_eq!(
        references,
        vec![
            "Epsilon.model3.json",
            "Epsilon.moc3",
            "Epsilon.physics3.json",
            "Epsilon.2048/texture_00.png",
            "expressions/Normal.exp3.json",
            "expressions/Smile.exp3.json",
            "motion/idle_01.motion3.json",
            "motion/tap_01.motion3.json",
            "motion/tap_02.motion3.json",
        ]
    );
}

#[test]
fn live2d_references_reject_malformed_entries() {
    let textures = object(vec![(
        "FileReferences",
        object(vec![("Textures", json_str("not-an-array"))]),
    )]);
    assert_eq!(
        collect_live2d_references(&textures, "m.model3.json").unwrap_err(),
        "Textures must be an array"
    );
    let moc = object(vec![("FileReferences", object(vec![("Moc", JsonValue::Number)]))]);
    assert_eq!(
        collect_live2d_references(&moc, "m.model3.json").unwrap_err(),
        "Moc must be a string"
    );
    let group = object(vec![(
        "FileReferences",
        object(vec![("Motions", object(vec![("Idle", json_str("x"))]))]),
    )]);
    assert_eq!(
        collect_live2d_references(&group, "m.model3.json").unwrap_err(),
        "motion group must be an array"
    );
    let sound = object(vec![(
        "FileReferences",
        object(vec![(
            "Motions",
            object(vec![(
                "Idle",
                JsonValue::Array(vec![object(vec![
                    ("File", json_str("idle.motion3.json")),
                    ("Sound", JsonValue::Bool(true)),
                ])]),
            )]),
        )]),
    )]);
    assert_eq!(
        collect_live2d_references(&sound, "m.model3.json").unwrap_err(),
        "Motions.Sound must be a string"
    );
    assert_eq!(
        collect_live2d_references(&JsonValue::Null, "m.model3.json").unwrap(),
        vec!["m.model3.json".to_owned()]
    );
}

#[test]
fn remembered_id_is_configured_only_for_an_exact_kind_match() {
    let catalog = CharacterCatalog::from_explicit(vec![live2d_profile("live-source")]).unwrap();
    let mut current = settings(Some("live-source"), None);
    current.static_image_character_id = Some("live-source".to_owned());

    let selection = select_setup_sources(&catalog, &current).unwrap();

    assert_eq!(selection.static_image, None);
    assert!(matches!(
        choose_active_renderer(&catalog, &current, CharacterRendererKind::StaticImage),
        RendererChoice::Unconfigured
    ));
}

#[test]
fn invalid_non_null_remembered_id_does_not_fall_back_to_same_kind_active_profile() {
    let catalog = CharacterCatalog::from_explicit(vec![live2d_profile("active-live")]).unwrap();
    let mut current = settings(Some("active-live"), None);
    current.live2d_character_id = Some("missing-live".to_owned());

    let selection = select_setup_sources(&catalog, &current).unwrap();

    assert_eq!(selection.live2d, None);
    assert!(matches!(
        choose_active_renderer(&catalog, &current, CharacterRendererKind::Live2d),
        RendererChoice::Unconfigured
    ));
}

#[test]
fn managed_identity_requires_prefix_and_three_numeric_parts() {
    assert_eq!(
        managed_identity("managed-static-12-34-5", ManagedKind::StaticImage)
            .map(|g| g.into_iter().collect::<String>()),
        Some("12-34-5".to_owned())
    );
    assert!(managed_identity("managed-static-12-34-5", ManagedKind::Live2d).is_none());
    assert!(managed_identity("managed-static-12-x-5", ManagedKind::StaticImage).is_none());
    assert!(managed_identity("managed-static-12-34", ManagedKind::StaticImage).is_none());
    assert!(managed_identity("managed-static-1--2", ManagedKind::StaticImage).is_none());
}

#[test]
fn static_source_rules() {
    assert_eq!(static_extension(Some("PNG")).unwrap(), "png");
    assert_eq!(static_extension(Some("webp")).unwrap(), "webp");
    let error = static_extension(Some("gif")).err().unwrap();
    assert_eq!(error.code, "invalid_source");
    assert_eq!(error.message, "static source must use .png or .webp");
    assert_eq!(
        static_extension(None).err().unwrap().message,
        "static source extension is missing"
    );
    assert_eq!(source_display_name(Some("  Static Friend "), "Static Image"), "Static Friend");
    assert_eq!(source_display_name(Some("   "), "Static Image"), "Static Image");
    assert_eq!(source_display_name(None, "Static Image"), "Static Image");
}

#[test]
fn live2d_source_rules() {
    assert!(check_live2d_model_name("Epsilon.MODEL3.json").is_ok());
    let error = check_live2d_model_name("Epsilon.json").unwrap_err();
    assert_eq!(error.message, "Live2D source must end with .model3.json");
    assert_eq!(live2d_display_name(" Epsilon .model3.json"), "Epsilon");
    assert_eq!(live2d_display_name(".model3.json"), "Live2D");
    assert_eq!(live2d_display_name("notes.txt"), "Live2D");

    assert!(check_live2d_relative_path(false, false, &vec![PathComponentKind::Normal]).is_ok());
    for components in [
        vec![PathComponentKind::ParentDir, PathComponentKind::Normal],
        vec![PathComponentKind::CurDir],
        vec![PathComponentKind::RootDir, PathComponentKind::Normal],
    ] {
        let error = check_live2d_relative_path(false, false, &components).unwrap_err();
        assert_eq!(error.code, "unsafe_reference");
    }
    assert!(check_live2d_relative_path(true, false, &Vec::new()).is_err());
    assert!(check_live2d_relative_path(false, true, &vec![PathComponentKind::Normal]).is_err());
}

#[test]
fn live2d_copy_limits() {
    let limits = Live2dCopyLimits::default();
    assert_eq!(limits.files, 2048);
    assert!(check_reference_count(2048, &limits).is_ok());
    assert_eq!(
        check_reference_count(2049, &limits).unwrap_err().message,
        "Live2D import contains 2049 files"
    );

    let small = Live2dCopyLimits {
        files: 1,
        file_bytes: 4,
        total_bytes: 6,
    };
    assert!(check_file_size(4, &small, false).is_ok());
    let error = check_file_size(5, &small, false).unwrap_err();
    assert_eq!(error.code, "file_too_large");
    assert_eq!(error.message, "Live2D reference exceeds 4 bytes");
    assert_eq!(
        check_file_size(5, &small, true).unwrap_err().message,
        "Live2D model exceeds the per-file limit"
    );

    let mut total = 0;
    assert!(add_copied_bytes(&mut total, 4, &small).is_ok());
    let error = add_copied_bytes(&mut total, 3, &small).unwrap_err();
    assert_eq!(error.code, "total_limit");
    assert_eq!(error.message, "Live2D import totals 7 bytes");
    let mut full = u64::MAX;
    assert_eq!(
        add_copied_bytes(&mut full, 1, &small).unwrap_err().message,
        "Live2D total size overflow"
    );
}

#[test]
fn managed_marker_rules() {
    let marker = ManagedMarker {
        schema_version: 1,
        id: "managed-static-1-2-3".to_owned(),
        kind: ManagedKind::StaticImage,
        generation: "1-2-3".to_owned(),
    };
    assert!(marker_is_valid(&marker, Some("managed-static-1-2-3")));
    assert!(!marker_is_valid(&marker, Some("other")));
    assert!(!marker_is_valid(&marker, None));
    assert!(marker_matches_candidate(
        &marker,
        "managed-static-1-2-3",
        ManagedKind::StaticImage,
        "1-2-3"
    ));
    assert!(!marker_matches_candidate(
        &marker,
        "managed-static-1-2-3",
        ManagedKind::Live2d,
        "1-2-3"
    ));

    let mut current = settings(Some("a"), None);
    current.static_image_character_id = Some("b".to_owned());
    assert!(!is_unreferenced("a", &current));
    assert!(!is_unreferenced("b", &current));
    assert!(is_unreferenced("c", &current));

    assert_eq!(generation_name(17, 42, 3), "17-42-3");
    assert!(rollback_report(&Vec::new()).is_none());
    let report = rollback_report(&vec!["one".to_owned(), "two".to_owned()]).unwrap();
    assert_eq!(report.code, "rollback_failed");
    assert_eq!(report.message, "managed generation quarantine failed: one; two");
}

#[test]
fn rejects_parent_and_absolute_asset_paths() {
    let parent = check_asset_reference(
        "../outside.png",
        false,
        false,
        &vec![PathComponentKind::ParentDir, PathComponentKind::Normal],
    )
    .unwrap_err();
    assert!(matches!(parent, CharacterProfileError::PathEscape(p) if p == "../outside.png"));
    let absolute = check_asset_reference(
        "/outside.png",
        false,
        true,
        &vec![PathComponentKind::RootDir, PathComponentKind::Normal],
    )
    .unwrap_err();
    assert_eq!(absolute.stable_code(), "invalid_manifest");
    assert!(check_asset_reference(
        "./neutral.png",
        false,
        false,
        &vec![PathComponentKind::CurDir, PathComponentKind::Normal]
    )
    .is_ok());
}

#[test]
fn canonical_assets_stay_under_the_root_and_are_files() {
    let root = vec!["/".to_owned(), "data".to_owned(), "characters".to_owned()];
    let inside = vec![
        "/".to_owned(),
        "data".to_owned(),
        "characters".to_owned(),
        "eps".to_owned(),
    ];
    let outside = vec!["/".to_owned(), "data".to_owned(), "other".to_owned()];
    assert!(ensure_under_root(&root, &inside, "/data/characters/eps").is_ok());
    assert!(ensure_under_root(&root, &outside, "/data/other").is_err());
    assert!(ensure_under_root(&root, &root[..2].to_vec(), "/data").is_err());
    assert!(require_regular_file("/data/characters/eps/a.png", true).is_ok());
    let error = require_regular_file("/data/characters/eps", false).unwrap_err();
    assert!(
        matches!(error, CharacterProfileError::InvalidProfile { message, .. } if message == "asset is not a regular file")
    );
}

#[test]
fn failed_commit_rolls_back_newest_first() {
    let (rollback, cleanup) = commit_failure_plan(3, 2);
    assert_eq!(rollback, vec![1, 0]);
    assert_eq!(cleanup, vec![2]);
    let (rollback, cleanup) = commit_failure_plan(2, 0);
    assert!(rollback.is_empty());
    assert_eq!(cleanup, vec![0, 1]);

    let plain = commit_error(None, "rename failed");
    assert_eq!(plain.code, "asset_commit");
    assert_eq!(plain.message, "rename failed");
    let preferred = commit_error(
        Some(SetupError {
            code: "rollback_failed",
            message: "quarantine".to_owned(),
        }),
        "rename failed",
    );
    assert_eq!(preferred.code, "rollback_failed");
}

#[test]
fn source_status_reports_the_shown_profile_and_its_file() {
    let live = live2d_profile("managed-live2d-1-2-3");
    assert_eq!(source_path(&live), Some("/characters/managed-live2d-1-2-3/model/Epsilon.model3.json"));
    assert_eq!(file_name(&live).as_deref(), Some("Epsilon.model3.json"));
    let shown = status(CharacterRendererKind::Live2d, Some(&live), Some("managed-live2d-1-2-3"), true);
    assert_eq!(shown.kind, CharacterRendererKind::Live2d);
    assert!(shown.configured);
    assert!(shown.active);
    assert!(shown.import_enabled);
    assert_eq!(shown.display_name.as_deref(), Some("Live"));
    assert_eq!(shown.file_name.as_deref(), Some("Epsilon.model3.json"));

    let still = static_profile("eps", "Eps");
    let inactive = status(CharacterRendererKind::StaticImage, Some(&still), Some("other"), false);
    assert!(!inactive.active);
    assert_eq!(inactive.file_name.as_deref(), Some("neutral.png"));

    let empty = status(CharacterRendererKind::StaticImage, None, Some("eps"), true);
    assert!(!empty.configured);
    assert!(!empty.active);
    assert!(empty.display_name.is_none());
    assert!(empty.file_name.is_none());
}

#[test]
fn rejects_invalid_json() {
    let error = parse_model3_json("m.model3.json", "not json").unwrap_err();
    let ManifestError::InvalidJson(detail) = &error;
    assert!(!detail.is_empty());
    assert!(error.message().starts_with("model3.json is not valid JSON: "));
}

#[test]
fn manifest_from_text_matches_the_parsed_document() {
    let json: serde_json::Value = serde_json::from_str(MODEL3_JSON).unwrap();
    let from_value = parse_model3_manifest("x.model3.json", &from_serde(&json));
    let from_text = parse_model3_json("x.model3.json", MODEL3_JSON).unwrap();
    assert_eq!(from_text.expressions, from_value.expressions);
    assert_eq!(from_text.motion_groups.len(), from_value.motion_groups.len());
}

#[test]
fn live2d_model_checks_run_in_import_order() {
    let limits = Live2dCopyLimits::standard();
    let name_error = check_live2d_model(b"not json", "model.json", &limits).unwrap_err();
    assert_eq!(name_error.code, "invalid_source");
    let tiny = Live2dCopyLimits { files: 10, file_bytes: 4, total_bytes: 100 };
    let size_error = check_live2d_model(b"{\"a\":1}", "m.model3.json", &tiny).unwrap_err();
    assert_eq!(size_error.code, "file_too_large");
    assert_eq!(size_error.message, "Live2D model exceeds the per-file limit");
    let parse_error = check_live2d_model(b"not json", "m.model3.json", &limits).unwrap_err();
    assert_eq!(parse_error.code, "invalid_model");
    let shape_error = check_live2d_model(
        br#"{"FileReferences":{"Textures":"t.png"}}"#,
        "m.model3.json",
        &limits,
    )
    .unwrap_err();
    assert_eq!(shape_error.code, "invalid_model");
    assert_eq!(shape_error.message, "Textures must be an array");
    let references = check_live2d_model(MODEL3_JSON.as_bytes(), "Epsilon.model3.json", &limits).unwrap();
    assert_eq!(references[0], "Epsilon.model3.json");
    assert_eq!(references[1], "Epsilon.moc3");
    assert!(references.contains(&"motion/tap_02.motion3.json".to_owned()));
}

#[test]
fn setup_view_shows_sources_or_reports_a_missing_active_character() {
    let empty = setup_view(None, &settings(Some("gone"), None), false).unwrap();
    assert!(empty.active_renderer.is_none());
    assert!(!empty.live2d.configured);
    assert!(!empty.live2d.import_enabled);
    assert!(!empty.static_image.configured);
    assert!(empty.static_image.import_enabled);

    let catalog =
        CharacterCatalog::from_explicit(vec![static_profile("eps", "Eps"), live2d_profile("live")]).unwrap();
    let shown = setup_view(Some(&catalog), &settings(Some("eps"), None), true).unwrap();
    assert_eq!(shown.active_renderer, Some(CharacterRendererKind::StaticImage));
    assert!(shown.static_image.configured);
    assert!(shown.static_image.active);
    assert_eq!(shown.static_image.display_name.as_deref(), Some("Eps"));
    assert!(!shown.live2d.configured);

    let missing = setup_view(Some(&catalog), &settings(Some("gone"), None), true).unwrap_err();
    assert_eq!(missing.code, "active_character_unavailable");
    assert_eq!(missing.message, "configured active character is unavailable");
    assert_eq!(
        missing.render(),
        "character_setup_error:active_character_unavailable:configured active character is unavailable"
    );
}

#[test]
fn live2d_import_is_refused_while_disabled() {
    let refused = check_import_allowed(CharacterRendererKind::Live2d, false).unwrap_err();
    assert_eq!(refused.code, "live2d_import_disabled");
    assert_eq!(refused.message, "arbitrary Live2D import is disabled in release builds");
    assert!(check_import_allowed(CharacterRendererKind::Live2d, true).is_ok());
    assert!(check_import_allowed(CharacterRendererKind::StaticImage, false).is_ok());
    let mapped = profile_setup_error(&CharacterProfileError::SelectionRequired);
    assert_eq!(mapped.code, "selection_required");
    assert_eq!(mapped.message, CharacterProfileError::SelectionRequired.describe());
}

#[test]
fn empty_setup_succeeds_with_both_sources_unconfigured() {
    let setup = setup_view(None, &settings(None, None), true).unwrap();

    assert_eq!(setup.active_renderer, None);
    assert!(!setup.live2d.configured);
    assert!(!setup.static_image.configured);
}

#[test]
fn live2d_import_policy_rejects_arbitrary_import_when_disabled() {
    let error = check_import_allowed(CharacterRendererKind::Live2d, false).unwrap_err();

    assert!(error.render().starts_with("character_setup_error:live2d_import_disabled:"));
}

#[test]
fn bounded_copy_rejects_limit_plus_one_and_removes_partial_target() {
    let limits = Live2dCopyLimits { files: 10, file_bytes: 4, total_bytes: 100 };
    assert!(check_file_size(4, &limits, false).is_ok());
    let error = check_file_size(5, &limits, false).unwrap_err();

    assert!(error.render().starts_with("character_setup_error:file_too_large:"));
    assert_eq!(error.message, "Live2D reference exceeds 4 bytes");
}

#[test]
fn non_animated_webp_profile_is_accepted() {
    let pixels = vec![128u8; 2 * 2 * 4];
    let mut bytes = Vec::new();
    image::codecs::webp::WebPEncoder::new_lossless(&mut bytes)
        .encode(&pixels, 2, 2, image::ExtendedColorType::Rgba8)
        .unwrap();
    let (width, height, decoded) =
        validate_static_image("webp/neutral.webp", bytes.len() as u64, &bytes, Some("webp")).unwrap();
    assert_eq!((width, height, decoded), (2, 2, 16));

    let mut profile = static_profile("webp", "webp");
    if let ResolvedRenderer::StaticImage { expressions, width: w, height: h, .. } = &mut profile.renderer {
        expressions[0].image_path = "/characters/webp/neutral.webp".to_owned();
        *w = width;
        *h = height;
    }
    let catalog = CharacterCatalog::from_explicit(vec![profile]).unwrap();
    let resolved = catalog.resolve(&settings(None, None)).unwrap();

    assert_eq!(resolved.id, "webp");
}
