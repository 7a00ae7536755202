use parallel_world::behavior::activity::{
    bounded_unicode_literal_match, classify_app, collection_gate_open, encode_protected_context,
    is_excluded, new_session_record, retention_cutoff, ActivityClock, ActivityCollectionHealthStatus,
    ActivityCollector, ActivityCollectorError, ActivityRepository, ActivityRepositoryError,
    ActivitySettingsSource, ActivitySettingsSourceError, DataProtector, ForegroundContextSource,
    ForegroundSnapshot, ForegroundSourceError, NewActivitySession, ProtectionError,
};
use parallel_world::behavior::mode::{parse_local_time, resolve_mode, ModeResolutionError, ModeResolutionInput};
use parallel_world::behavior::personas::{
    band_phrase, build_persona_prompt, build_persona_prompt_with_pause, resolve_persona_prompt_from,
    resolved_persona, PersonaProfile, PersonaPromptSource, PersonaSettings, Tendency,
};
use parallel_world::behavior::proactive::{
    candidate_cue, decide_proactive_delivery, in_quiet_hours, publish_mode_if_changed,
    speak_windows, CandidateKind, ProactiveDeliveryDecision, ProactiveDeliveryInput,
};
use parallel_world::behavior::runtime::{resolve_runtime_snapshot, RuntimeCollectionHealth, RuntimeMode};
use parallel_world::behavior::safety::{
    safe_word_matches, sanitize_safe_word, DarkExpressionSafetyState,
};
use parallel_world::behavior::settings::{
    ActivationRules, ActiveMode, ActiveModeSource, AppActivationRule, BehaviorSettings,
    CompanionMode, ConsentState, ExclusionRule, FrequencySettings, FullscreenActivationRule,
    ModeProfile, ModeProfiles, QuietHoursRule, ScheduleActivationRule, TriggerSettings,
};

fn complete_profile() -> PersonaProfile {
    PersonaProfile {
        character_id: "epsilon".into(),
        name: "Epsilon \"Nova\"".into(),
        first_person_pronoun: "わたくし".into(),
        user_name: "利用者".into(),
        user_address: "先生".into(),
        relationship: "相棒".into(),
        speaking_style: "丁寧".into(),
        example_utterances: vec!["先生、今日は星の話をしませんか？".into()],
        interests: vec!["星".into(), "古い機械".into()],
        dislikes: vec!["騒音".into()],
        values: vec!["誠実".into()],
        background: "研究者".into(),
        boundaries: vec!["秘密を漏らさない".into()],
        free_text: "夜になると饒舌になる。".into(),
        initiative: 11,
        closeness: 22,
        humor: 33,
        response_length: 44,
        emotional_expression: 55,
        reaction_interval: 66,
        machiavellianism: 77,
        narcissism: 88,
        psychopathy: 99,
        sadism: 67,
        allow_intense_dark_expression: false,
        dark_expression_acknowledgement_version: None,
    }
}

fn base_settings() -> BehaviorSettings {
    let profile = ModeProfile {
        proactive_enabled: true,
        tts_enabled: true,
    };
    BehaviorSettings {
        manual_mode_override: None,
        activation: ActivationRules {
            fullscreen: FullscreenActivationRule {
                enabled: false,
                mode: CompanionMode::Focus,
            },
            apps: Vec::new(),
            schedules: Vec::new(),
        },
        profiles: ModeProfiles {
            normal: profile,
            focus: ModeProfile {
                proactive_enabled: false,
                tts_enabled: true,
            },
            night: ModeProfile {
                proactive_enabled: false,
                tts_enabled: false,
            },
        },
        consent: ConsentState::Accepted,
        consent_version: 1,
        collection_enabled: true,
        retention_days: 30,
        exclusions: Vec::new(),
        proactive_master_enabled: true,
        proactive_snoozed_until: None,
        triggers: TriggerSettings {
            return_after_enabled: true,
            return_after_minutes: 30,
            long_session_enabled: true,
            long_session_minutes: 60,
            category_change_enabled: false,
            category_change_minutes: 10,
        },
        frequency: FrequencySettings {
            minimum_interval_minutes: 30,
            max_per_hour: 2,
            max_per_day: 8,
        },
        quiet_hours: Vec::new(),
        evaluator_endpoint: None,
        evaluator_model: None,
    }
}

fn input(weekday: u8, minutes: u16, app: Option<&str>, fullscreen: Option<bool>) -> ModeResolutionInput {
    ModeResolutionInput {
        local_weekday: weekday,
        local_minutes: minutes,
        foreground_app_id: app.map(str::to_owned),
        fullscreen,
    }
}

fn delivery(text: &str) -> ProactiveDeliveryInput {
    ProactiveDeliveryInput {
        master_enabled: true,
        profile_enabled: true,
        trigger_enabled: true,
        in_quiet_hours: false,
        temporary_conversation: false,
        evaluator_approved: true,
        generated_text: text.into(),
        lease_cancelled: false,
    }
}

#[test]
fn persona_prompt_renders_fields_and_slider_bands_as_natural_language() {
    let profile = complete_profile();

    let first = build_persona_prompt(&profile);
    let second = build_persona_prompt(&profile);

    assert_eq!(first, second, "rendering must be deterministic");
    assert!(first.starts_with("Parallel World persona profile v4\n"));
    assert!(first.contains("保存済みの弱点やトラウマを意図的に利用しない"));
    assert!(first.contains("- 名前: Epsilon \"Nova\""));
    assert!(first.contains("- 話し方: 丁寧"));
    assert!(first.contains("- 興味があるもの: 星、古い機械"));
    assert!(first.contains("- 補足: 夜になると饒舌になる。"));
    assert!(!first.contains("\"initiative\""), "no raw JSON keys");
    assert!(
        first.contains(band_phrase(Tendency::Initiative, 0)),
        "initiative 11 = band 0"
    );
    assert!(first.contains(band_phrase(Tendency::Humor, 1)), "humor 33 = band 1");
    assert!(
        first.contains(band_phrase(Tendency::ReactionInterval, 3)),
        "reaction 66 = band 3"
    );
    assert!(first.contains("皮肉や意地悪な言い回し"), "sadism 67 = high");
    assert!(first.contains("「先生、今日は星の話をしませんか？」"));
}

#[test]
fn contrasting_slider_values_produce_different_prompts() {
    let mut quiet = complete_profile();
    quiet.initiative = 5;
    quiet.response_length = 5;
    quiet.humor = 5;
    let mut talkative = complete_profile();
    talkative.initiative = 95;
    talkative.response_length = 95;
    talkative.humor = 95;

    let quiet_prompt = build_persona_prompt(&quiet);
    let talkative_prompt = build_persona_prompt(&talkative);

    assert_ne!(quiet_prompt, talkative_prompt);
    assert!(quiet_prompt.contains(band_phrase(Tendency::ResponseLength, 0)));
    assert!(talkative_prompt.contains(band_phrase(Tendency::ResponseLength, 4)));
}

#[test]
fn neutral_dark_traits_render_no_dark_lines_and_empty_fields_are_omitted() {
    let mut profile = PersonaProfile::for_character("epsilon");
    profile.name = "エプシロン".into();

    let prompt = build_persona_prompt(&profile);

    assert!(prompt.contains("- 名前: エプシロン"));
    assert!(!prompt.contains("- 話し方:"), "empty fields are omitted");
    assert!(!prompt.contains("口調の例"), "no utterances section when empty");
    for fragment in ["駆け引き", "自慢", "冷淡", "意地悪"] {
        assert!(
            !prompt.contains(fragment),
            "neutral dark trait leaked: {fragment}"
        );
    }
}

#[test]
fn persona_prompt_uses_intense_policy_without_removing_base_protections() {
    let mut profile = complete_profile();
    profile.allow_intense_dark_expression = true;
    profile.dark_expression_acknowledgement_version = Some(1);

    let prompt = build_persona_prompt(&profile);

    assert!(prompt.contains("より強い敵対的・操作的・低共感な会話表現を許可"));
    assert!(prompt.contains("基本的な安全保護は維持する"));
    assert!(prompt.contains("保存済みの機微情報を狙って攻撃しない"));
}

#[test]
fn process_safety_pause_overrides_saved_intense_expression_without_exposing_a_word() {
    let mut profile = complete_profile();
    profile.allow_intense_dark_expression = true;
    profile.dark_expression_acknowledgement_version = Some(1);

    let prompt = build_persona_prompt_with_pause(&profile, true);

    assert!(prompt.contains("ユーザーの安全停止が有効"));
    assert!(!prompt.contains("より強い敵対的"));
    assert!(prompt.contains("皮肉や意地悪な言い回し"));
}

#[test]
fn existing_persona_is_authoritative_and_legacy_remains_unchanged() {
    let profile = complete_profile();
    let mut personas = PersonaSettings::empty();
    personas.upsert(complete_profile());
    let legacy_prompt = "rollback legacy".to_owned();

    let (index, created) = personas.migrate_legacy("epsilon", &legacy_prompt);
    let resolved = resolve_persona_prompt_from(
        Some("epsilon"),
        &legacy_prompt,
        Some(&personas.personas[index]),
        false,
    );

    assert!(!created);
    assert_eq!(resolved.character_id.as_deref(), Some("epsilon"));
    assert_eq!(resolved.source, PersonaPromptSource::Persona);
    assert_eq!(resolved.character_prompt, build_persona_prompt(&profile));
    assert_eq!(legacy_prompt, "rollback legacy");
}

#[test]
fn missing_persona_migrates_once_and_repeated_resolution_is_idempotent() {
    let mut personas = PersonaSettings::empty();

    let (first_index, created) = personas.migrate_legacy("epsilon", "first legacy");
    let first = resolve_persona_prompt_from(
        Some("epsilon"),
        "first legacy",
        Some(&personas.personas[first_index]),
        false,
    );
    let (second_index, created_again) = personas.migrate_legacy("epsilon", "changed rollback");
    let second = resolve_persona_prompt_from(
        Some("epsilon"),
        "changed rollback",
        Some(&personas.personas[second_index]),
        false,
    );

    assert!(created);
    assert!(!created_again);
    assert_eq!(personas.personas.len(), 1);
    assert_eq!(first.character_prompt, second.character_prompt);
    assert_eq!(first.fingerprint, second.fingerprint);
    assert_eq!(first.source, PersonaPromptSource::Persona);
    assert_eq!(personas.personas[0].free_text, "first legacy");
}

#[test]
fn missing_resolved_character_uses_legacy_without_writing_personas() {
    let resolved = resolve_persona_prompt_from(None, "legacy only", None, false);

    assert_eq!(resolved.character_id, None);
    assert_eq!(resolved.character_prompt, "legacy only");
    assert_eq!(resolved.source, PersonaPromptSource::Legacy);
}

#[test]
fn persona_fingerprint_changes_for_id_or_exact_prompt_only() {
    let one = resolved_persona(Some("epsilon"), "prompt");
    let same = resolved_persona(Some("epsilon"), "prompt");
    let different_id = resolved_persona(Some("zeta"), "prompt");
    let different_prompt = resolved_persona(Some("epsilon"), "prompt ");

    assert_eq!(one.fingerprint, same.fingerprint);
    assert_ne!(one.fingerprint, different_id.fingerprint);
    assert_ne!(one.fingerprint, different_prompt.fingerprint);
    assert_eq!(one.fingerprint, "[\"epsilon\",\"prompt\"]");
}

#[test]
fn saving_a_persona_replaces_only_that_character() {
    let mut personas = PersonaSettings::empty();
    personas.upsert(complete_profile());
    let mut zeta = PersonaProfile::for_character("zeta");
    zeta.name = "Zeta".into();
    personas.upsert(zeta);
    let mut edited = complete_profile();
    edited.name = "Edited".into();

    let index = personas.upsert(edited);

    assert_eq!(index, 0);
    assert_eq!(personas.personas.len(), 2);
    assert_eq!(personas.personas[0].name, "Edited");
    assert_eq!(personas.personas[1].name, "Zeta");
    assert_eq!(personas.position_of("zeta"), Some(1));
    assert_eq!(personas.position_of("missing"), None);
}

#[test]
fn safety_pause_latch() {
    let mut state = DarkExpressionSafetyState::new();
    assert!(!state.is_paused());
    state.pause();
    assert!(state.is_paused());
    state.set_paused(false);
    assert!(!state.is_paused());
    assert!(!DarkExpressionSafetyState::default().is_paused());
}

#[test]
fn safe_word_matching_normalizes_case_width_and_trailing_punctuation() {
    assert!(safe_word_matches(Some("STOP"), "stop"));
    assert!(safe_word_matches(Some("ストップ"), " ストップ。 "));
    assert!(safe_word_matches(Some("ｓｔｏｐ"), "STOP!"));
    assert!(!safe_word_matches(Some("stop"), "please stop"));
    assert!(!safe_word_matches(None, "stop"));
    assert!(!safe_word_matches(Some("。"), "。"));
}

#[test]
fn safe_word_sanitizing() {
    assert_eq!(sanitize_safe_word(None), Ok(None));
    assert_eq!(sanitize_safe_word(Some("   ".into())), Ok(None));
    assert_eq!(sanitize_safe_word(Some("  Stop now ".into())), Ok(Some("Stop now".into())));
    assert_eq!(
        sanitize_safe_word(Some("a\u{7}b".into())),
        Err("safe_word is invalid".into())
    );
    assert_eq!(
        sanitize_safe_word(Some("x".repeat(129))),
        Err("safe_word is invalid".into())
    );
}

#[test]
fn mode_resolution_precedence() {
    let mut settings = base_settings();
    settings.activation.fullscreen.enabled = true;
    settings.activation.apps.push(AppActivationRule {
        enabled: true,
        mode: CompanionMode::Night,
        app_ids: vec![" Code.EXE ".into()],
    });
    settings.activation.schedules.push(ScheduleActivationRule {
        enabled: true,
        mode: CompanionMode::Focus,
        days_of_week: vec![0],
        start_local_time: "22:00".into(),
        end_local_time: "06:00".into(),
    });

    let fullscreen = resolve_mode(&settings, &input(0, 600, Some("code.exe"), Some(true))).unwrap();
    assert_eq!(fullscreen.active_mode.source, ActiveModeSource::Fullscreen);
    assert_eq!(fullscreen.active_mode.mode, CompanionMode::Focus);

    let app = resolve_mode(&settings, &input(0, 600, Some("CODE.exe"), Some(false))).unwrap();
    assert_eq!(app.active_mode.source, ActiveModeSource::App);
    assert_eq!(app.active_mode.mode, CompanionMode::Night);
    assert_eq!(app.profile, settings.profiles.night);

    let overnight = resolve_mode(&settings, &input(1, 60, None, None)).unwrap();
    assert_eq!(overnight.active_mode.source, ActiveModeSource::Schedule);

    let default = resolve_mode(&settings, &input(1, 600, None, None)).unwrap();
    assert_eq!(default.active_mode.source, ActiveModeSource::Default);
    assert_eq!(default.active_mode.mode, CompanionMode::Normal);

    settings.manual_mode_override = Some(CompanionMode::Normal);
    let manual = resolve_mode(&settings, &input(0, 600, Some("code.exe"), Some(true))).unwrap();
    assert_eq!(manual.active_mode.source, ActiveModeSource::Manual);

    assert_eq!(
        resolve_mode(&settings, &input(7, 0, None, None)).unwrap_err(),
        ModeResolutionError::InvalidWeekday
    );
    assert_eq!(
        resolve_mode(&settings, &input(0, 1440, None, None)).unwrap_err(),
        ModeResolutionError::InvalidLocalMinutes
    );
}

#[test]
fn local_time_parsing() {
    assert_eq!(parse_local_time("07:30"), Some(450));
    assert_eq!(parse_local_time("23:59"), Some(1439));
    assert_eq!(parse_local_time("24:00"), None);
    assert_eq!(parse_local_time("7:30"), None);
}

#[test]
fn runtime_snapshot_combines_mode_profile_and_health() {
    let settings = base_settings();
    let snapshot = resolve_runtime_snapshot(
        &settings,
        2,
        600,
        None,
        None,
        RuntimeCollectionHealth::Disabled,
    )
    .unwrap();
    assert_eq!(snapshot.mode, RuntimeMode::Normal);
    assert!(snapshot.proactive_enabled);
    assert!(matches!(snapshot.collection, RuntimeCollectionHealth::Disabled));
}

#[test]
fn proactive_delivery_fails_closed() {
    assert!(matches!(
        decide_proactive_delivery(&delivery("  こんにちは  ")),
        ProactiveDeliveryDecision::Deliver(text) if text == "こんにちは"
    ));
    assert!(matches!(
        decide_proactive_delivery(&delivery("   ")),
        ProactiveDeliveryDecision::Skip
    ));
    assert!(matches!(
        decide_proactive_delivery(&delivery(&"あ".repeat(501))),
        ProactiveDeliveryDecision::Skip
    ));
    assert!(matches!(
        decide_proactive_delivery(&delivery(&"あ".repeat(500))),
        ProactiveDeliveryDecision::Deliver(_)
    ));
    let mut cancelled = delivery("hello");
    cancelled.lease_cancelled = true;
    assert!(matches!(
        decide_proactive_delivery(&cancelled),
        ProactiveDeliveryDecision::Skip
    ));
    let mut temporary = delivery("hello");
    temporary.temporary_conversation = true;
    assert!(matches!(
        decide_proactive_delivery(&temporary),
        ProactiveDeliveryDecision::Skip
    ));
}

#[test]
fn quiet_hours_cover_overnight_windows() {
    let mut settings = base_settings();
    settings.quiet_hours.push(QuietHoursRule {
        enabled: true,
        days_of_week: vec![4],
        start_local_time: "22:00".into(),
        end_local_time: "07:00".into(),
    });
    assert!(in_quiet_hours(&settings, 4, 23 * 60));
    assert!(in_quiet_hours(&settings, 5, 6 * 60));
    assert!(!in_quiet_hours(&settings, 5, 8 * 60));
    settings.quiet_hours[0].start_local_time = "nonsense".into();
    assert!(in_quiet_hours(&settings, 0, 0), "an unreadable rule stays quiet");
}

#[test]
fn proactive_helpers() {
    assert_eq!(
        candidate_cue(CandidateKind::LongSession, "development", 3600),
        "Trigger: long_session; broad activity category: development; duration: 3600 seconds."
    );
    assert_eq!(speak_windows(100_000), (100_000 - 3_599, 100_000 - 86_399));
    let mut current: Option<ActiveMode> = None;
    let mode = ActiveMode {
        schema_version: 1,
        mode: CompanionMode::Focus,
        source: ActiveModeSource::Schedule,
        manual_override: None,
    };
    assert!(publish_mode_if_changed(&mut current, mode));
    assert!(!publish_mode_if_changed(&mut current, mode));
}

#[test]
fn activity_policy_helpers() {
    let settings = base_settings();
    assert!(collection_gate_open(&settings));
    let mut declined = base_settings();
    declined.consent = ConsentState::Declined;
    assert!(!collection_gate_open(&declined));

    assert_eq!(classify_app("Code.exe"), "development");
    assert_eq!(classify_app("FIREFOX.EXE"), "browser");
    assert_eq!(classify_app("zoom.exe"), "communication");
    assert_eq!(classify_app("krita.exe"), "creative");
    assert_eq!(classify_app("notepad.exe"), "other");

    assert_eq!(bounded_unicode_literal_match("Secret Plan", "PLAN", 512, 128), Some(true));
    assert_eq!(bounded_unicode_literal_match("Secret Plan", "other", 512, 128), Some(false));
    assert_eq!(bounded_unicode_literal_match("abc", "", 512, 128), Some(true));
    assert_eq!(bounded_unicode_literal_match("abcd", "a", 3, 128), None);

    let snapshot = ForegroundSnapshot {
        app_id: "Chrome.exe".into(),
        title: "Bank — Statement".into(),
        idle_seconds: 0,
        fullscreen: None,
    };
    let by_title = vec![ExclusionRule {
        app_id: None,
        title_pattern: Some("bank".into()),
    }];
    assert!(is_excluded(&snapshot, &by_title));
    let other_app = vec![ExclusionRule {
        app_id: Some("firefox.exe".into()),
        title_pattern: Some("bank".into()),
    }];
    assert!(!is_excluded(&snapshot, &other_app));
    let blank_selector = vec![ExclusionRule {
        app_id: Some("   ".into()),
        title_pattern: None,
    }];
    assert!(is_excluded(&snapshot, &blank_selector));
    assert!(!is_excluded(&snapshot, &Vec::new()));

    assert_eq!(retention_cutoff(200_000, 1), 200_000 - 86_400);
    assert_eq!(retention_cutoff(10, 30), 0);
    assert_eq!(
        String::from_utf8(encode_protected_context(1, &[1, 2], &[], 5, None)).unwrap(),
        "{\"version\":1,\"protected_app_id\":[1,2],\"protected_title\":[],\"idle_seconds\":5,\"fullscreen\":null}"
    );
}

struct FixedSettings(Option<BehaviorSettings>);

impl ActivitySettingsSource for FixedSettings {
    fn load(&mut self) -> Result<BehaviorSettings, ActivitySettingsSourceError> {
        match &self.0 {
            Some(_) => Ok(base_settings()),
            None => Err(ActivitySettingsSourceError::Unavailable),
        }
    }
}

struct OneWindow;

impl ForegroundContextSource for OneWindow {
    fn snapshot(&mut self) -> Result<Option<ForegroundSnapshot>, ForegroundSourceError> {
        Ok(Some(ForegroundSnapshot {
            app_id: "code.exe".into(),
            title: "main.rs".into(),
            idle_seconds: 1,
            fullscreen: Some(false),
        }))
    }
}

struct Reversing;

impl DataProtector for Reversing {
    fn protect(&self, plaintext: &[u8]) -> Result<Vec<u8>, ProtectionError> {
        Ok(plaintext.iter().rev().copied().collect())
    }
}

#[derive(Default)]
struct MemoryRepository {
    inserted: Vec<NewActivitySession>,
    updates: Vec<(i64, Option<i64>, i64)>,
    deletions: Vec<i64>,
}

impl ActivityRepository for MemoryRepository {
    fn insert_session(&mut self, session: &NewActivitySession) -> Result<i64, ActivityRepositoryError> {
        self.inserted.push(NewActivitySession {
            started_at: session.started_at,
            ended_at: session.ended_at,
            duration_seconds: session.duration_seconds,
            category: session.category.clone(),
            payload_version: session.payload_version,
            protected_context: session.protected_context.clone(),
        });
        Ok(i64::try_from(self.inserted.len()).unwrap())
    }

    fn update_session(
        &mut self,
        id: i64,
        ended_at: Option<i64>,
        duration_seconds: i64,
    ) -> Result<bool, ActivityRepositoryError> {
        self.updates.push((id, ended_at, duration_seconds));
        Ok(true)
    }

    fn delete_sessions_before(&mut self, cutoff: i64) -> Result<usize, ActivityRepositoryError> {
        self.deletions.push(cutoff);
        Ok(0)
    }
}

struct Clock(i64);

impl ActivityClock for Clock {
    fn now_unix_seconds(&self) -> i64 {
        self.0
    }
}

#[test]
fn collector_records_and_extends_a_contiguous_session() {
    let mut collector = ActivityCollector::new(
        FixedSettings(Some(base_settings())),
        OneWindow,
        Reversing,
        MemoryRepository::default(),
        Clock(1_000_000),
    );
    assert_eq!(collector.health().status, ActivityCollectionHealthStatus::Disabled);

    collector.collect_once().unwrap();

    let health = collector.health();
    assert_eq!(health.status, ActivityCollectionHealthStatus::Healthy);
    assert_eq!(health.last_activity_at, Some(1_000_000));
}

#[test]
fn collector_failures_degrade_with_stable_messages() {
    let mut collector = ActivityCollector::new(
        FixedSettings(None),
        OneWindow,
        Reversing,
        MemoryRepository::default(),
        Clock(1_000_000),
    );

    assert_eq!(
        collector.collect_once(),
        Err(ActivityCollectorError::SettingsUnavailable)
    );
    let health = collector.health();
    assert_eq!(health.status, ActivityCollectionHealthStatus::Degraded);
    assert_eq!(health.message.as_deref(), Some("activity settings are unavailable"));

    let mut settings = base_settings();
    assert_eq!(
        collector.collect_with(&settings, -1),
        Err(ActivityCollectorError::InvalidClock)
    );
    assert_eq!(
        collector.health().message.as_deref(),
        Some("activity clock is invalid")
    );

    settings.collection_enabled = false;
    assert_eq!(collector.collect_with(&settings, 5), Ok(()));
    assert_eq!(collector.health().status, ActivityCollectionHealthStatus::Disabled);
}

struct InvalidSettings;

impl ActivitySettingsSource for InvalidSettings {
    fn load(&mut self) -> Result<BehaviorSettings, ActivitySettingsSourceError> {
        Err(ActivitySettingsSourceError::Invalid)
    }
}

struct SharedRepository(std::rc::Rc<std::cell::RefCell<MemoryRepository>>);

impl ActivityRepository for SharedRepository {
    fn insert_session(&mut self, session: &NewActivitySession) -> Result<i64, ActivityRepositoryError> {
        self.0.borrow_mut().insert_session(session)
    }

    fn update_session(
        &mut self,
        id: i64,
        ended_at: Option<i64>,
        duration_seconds: i64,
    ) -> Result<bool, ActivityRepositoryError> {
        self.0.borrow_mut().update_session(id, ended_at, duration_seconds)
    }

    fn delete_sessions_before(&mut self, cutoff: i64) -> Result<usize, ActivityRepositoryError> {
        self.0.borrow_mut().delete_sessions_before(cutoff)
    }
}

#[test]
fn invalid_settings_are_refused_with_their_own_message() {
    let mut collector = ActivityCollector::new(
        InvalidSettings,
        OneWindow,
        Reversing,
        MemoryRepository::default(),
        Clock(1_000_000),
    );
    assert_eq!(collector.collect_once(), Err(ActivityCollectorError::SettingsUnavailable));
    let health = collector.health();
    assert_eq!(health.status, ActivityCollectionHealthStatus::Degraded);
    assert_eq!(health.message.as_deref(), Some("activity settings are invalid"));
    assert!(collector.accept_loaded_settings(Ok(base_settings())).is_ok());
}

#[test]
fn contiguous_samples_extend_the_session_and_gaps_start_a_new_one() {
    let shared = std::rc::Rc::new(std::cell::RefCell::new(MemoryRepository::default()));
    let mut collector = ActivityCollector::new(
        FixedSettings(Some(base_settings())),
        OneWindow,
        Reversing,
        SharedRepository(shared.clone()),
        Clock(0),
    );
    let settings = base_settings();
    collector.collect_with(&settings, 1_000).unwrap();
    collector.collect_with(&settings, 1_007).unwrap();
    collector.collect_with(&settings, 1_015).unwrap();
    {
        let repository = shared.borrow();
        assert_eq!(repository.inserted.len(), 1);
        assert_eq!(repository.inserted[0].started_at, 1_000);
        assert_eq!(repository.updates, vec![(1, Some(1_007), 7), (1, Some(1_015), 15)]);
    }
    collector.collect_with(&settings, 1_100).unwrap();
    let repository = shared.borrow();
    assert_eq!(repository.inserted.len(), 2);
    assert_eq!(repository.inserted[1].started_at, 1_100);
    assert_eq!(repository.inserted[1].duration_seconds, 0);
    assert_eq!(repository.updates.len(), 2);
}

#[test]
fn collector_steps_record_insert_and_update_outcomes() {
    let record = new_session_record("development", vec![1, 2], 500);
    assert_eq!(record.started_at, 500);
    assert_eq!(record.ended_at, Some(500));
    assert_eq!(record.duration_seconds, 0);
    assert_eq!(record.category, "development");
    assert_eq!(record.protected_context, vec![1, 2]);

    let mut collector = ActivityCollector::new(
        FixedSettings(Some(base_settings())),
        OneWindow,
        Reversing,
        MemoryRepository::default(),
        Clock(0),
    );
    assert_eq!(collector.session_update_args(500), None);
    let window = ForegroundSnapshot {
        app_id: "code.exe".into(),
        title: "main.rs".into(),
        idle_seconds: 0,
        fullscreen: None,
    };
    assert_eq!(collector.settle_insert(Ok(7), window, "development", 500), Ok(()));
    assert_eq!(collector.health().last_activity_at, Some(500));
    assert_eq!(collector.session_update_args(504), Some((7, Some(504), 4)));
    assert_eq!(collector.settle_update(Ok(true), 504), Ok(()));
    assert_eq!(collector.session_update_args(509), Some((7, Some(509), 9)));
    assert_eq!(
        collector.settle_update(Ok(false), 509),
        Err(ActivityCollectorError::PersistenceFailed)
    );
    assert_eq!(collector.session_update_args(510), None);
    assert_eq!(collector.health().message.as_deref(), Some("activity persistence failed"));

    assert_eq!(
        collector.settle_snapshot(Err(ForegroundSourceError), &base_settings()).unwrap_err(),
        ActivityCollectorError::SourceUnavailable
    );
    assert!(collector.settle_snapshot(Ok(None), &base_settings()).unwrap().is_none());
    assert_eq!(collector.health().status, ActivityCollectionHealthStatus::Healthy);
}
