use std::sync::mpsc::sync_channel;

use parallel_world::behavior::personas::{resolved_persona, PersonaPromptSource, ResolvedPersonaPrompt};
use parallel_world::character::catalog::CharacterCapabilities;
use parallel_world::character::setup::CharacterRendererKind;
use parallel_world::chat::enrichment::{
    decide_after_wait, decide_follow_up, EnrichmentJob, EnrichmentSender, FollowUp, QueueMetrics,
    WaitDecision, WaitOutcome, WakeOutcome, ENRICHMENT_JOBS_PER_SLICE, ENRICHMENT_PENDING_CAPACITY,
};
use parallel_world::chat::memory::{
    may_run_summary_batch, plan_promotion, relation_name, summary_batch, summary_resume_point,
    CandidateOperation, ConsolidationAction, MemoryCandidateRef, ProvenanceRelation,
    SUMMARY_BATCH_MESSAGES,
};
use parallel_world::chat::fingerprint::worker_fingerprint;
use parallel_world::chat::llm_settings::{
    api_key_action, credential_account, default_llm_settings, loaded_settings, persisted_settings,
    ApiKeyAction, LlmProviderKind,
};
use parallel_world::chat::worker::{
    character_instruction, choose_turn_id, dispatch_character_control, follow_up_delay_seconds,
    maintenance_delay_millis, prepare_worker_context, record_submit, CharacterControlEvent,
    CharacterSnapshot, ReplyControl, ADAPTER_TIMEOUT_SECONDS,
};

fn static_capabilities() -> CharacterCapabilities {
    CharacterCapabilities {
        expressions: vec!["neutral".into(), "happy".into()],
        motions: Vec::new(),
    }
}

fn live2d_capabilities() -> CharacterCapabilities {
    CharacterCapabilities {
        expressions: vec!["neutral".into(), "happy".into()],
        motions: vec!["Idle".into(), "Tap".into()],
    }
}

fn resolved_persona_for_test(id: &str, prompt: &str) -> ResolvedPersonaPrompt {
    let mut resolved = resolved_persona(Some(id), prompt);
    resolved.source = PersonaPromptSource::Persona;
    resolved
}

fn character_snapshot_for_test(
    id: &str,
    renderer: CharacterRendererKind,
    capabilities: CharacterCapabilities,
) -> CharacterSnapshot {
    CharacterSnapshot {
        id: id.into(),
        renderer,
        capabilities,
    }
}

#[test]
fn production_llm_timeout_allows_local_streaming_inference() {
    assert!(
        std::time::Duration::from_secs(ADAPTER_TIMEOUT_SECONDS) >= std::time::Duration::from_secs(30)
    );
}

#[test]
fn static_character_instruction_lists_expressions_without_motion_line() {
    let instruction = character_instruction("base", &static_capabilities());

    assert!(instruction.contains("利用できる表情(emotion): neutral, happy"));
    assert!(!instruction.contains("利用できるモーション(motion):"));
}

#[test]
fn live2d_character_instruction_lists_expressions_and_motions() {
    let instruction = character_instruction("base", &live2d_capabilities());

    assert!(instruction.contains("利用できる表情(emotion): neutral, happy"));
    assert!(instruction.contains("利用できるモーション(motion): Idle, Tap"));
}

#[test]
fn character_instruction_is_the_base_then_one_line_per_list() {
    assert_eq!(
        character_instruction("base", &live2d_capabilities()),
        "base\n利用できる表情(emotion): neutral, happy\n利用できるモーション(motion): Idle, Tap"
    );
    assert_eq!(
        character_instruction(
            "base",
            &CharacterCapabilities {
                expressions: Vec::new(),
                motions: Vec::new()
            }
        ),
        "base"
    );
}

#[test]
fn chat_worker_fingerprint_changes_for_persona_character_or_capabilities() {
    let settings = default_llm_settings();
    let base = prepare_worker_context(
        resolved_persona_for_test("epsilon", "persona"),
        Some(character_snapshot_for_test(
            "epsilon",
            CharacterRendererKind::Live2d,
            live2d_capabilities(),
        )),
    );
    let same = prepare_worker_context(
        resolved_persona_for_test("epsilon", "persona"),
        Some(character_snapshot_for_test(
            "epsilon",
            CharacterRendererKind::Live2d,
            live2d_capabilities(),
        )),
    );
    let edited = prepare_worker_context(
        resolved_persona_for_test("epsilon", "persona edited"),
        Some(character_snapshot_for_test(
            "epsilon",
            CharacterRendererKind::Live2d,
            live2d_capabilities(),
        )),
    );
    let changed_character = prepare_worker_context(
        resolved_persona_for_test("zeta", "persona"),
        Some(character_snapshot_for_test(
            "zeta",
            CharacterRendererKind::StaticImage,
            static_capabilities(),
        )),
    );
    let changed_capabilities = prepare_worker_context(
        resolved_persona_for_test("epsilon", "persona"),
        Some(character_snapshot_for_test(
            "epsilon",
            CharacterRendererKind::Live2d,
            CharacterCapabilities {
                expressions: vec!["neutral".into()],
                motions: vec!["Idle".into()],
            },
        )),
    );

    assert_eq!(
        worker_fingerprint(&settings, &base),
        worker_fingerprint(&settings, &same)
    );
    assert_ne!(
        worker_fingerprint(&settings, &base),
        worker_fingerprint(&settings, &edited)
    );
    assert_ne!(
        worker_fingerprint(&settings, &base),
        worker_fingerprint(&settings, &changed_character)
    );
    assert_ne!(
        worker_fingerprint(&settings, &base),
        worker_fingerprint(&settings, &changed_capabilities)
    );
}

#[test]
fn fingerprint_is_canonical_json_with_escaped_strings() {
    let mut settings = default_llm_settings();
    settings.system_prompt = "line\n\"quoted\"\u{1}".into();
    let context = prepare_worker_context(resolved_persona_for_test("epsilon", "p"), None);

    let text = worker_fingerprint(&settings, &context);

    let parsed: serde_json::Value = serde_json::from_str(&text).expect("fingerprint is JSON");
    assert_eq!(parsed["system_prompt"], "line\n\"quoted\"\u{1}");
    assert_eq!(parsed["version"], 1);
    assert_eq!(parsed["character"], serde_json::Value::Null);
    assert!(text.starts_with("{\"allow_remote\":false,\"base_url\":\"http://127.0.0.1:8080/v1\""));
    assert!(text.contains("\\u0001"));
}

#[test]
fn chat_worker_prompt_uses_persona_and_capabilities_from_matching_snapshot() {
    let context = prepare_worker_context(
        resolved_persona_for_test("epsilon", "persona data"),
        Some(character_snapshot_for_test(
            "epsilon",
            CharacterRendererKind::Live2d,
            live2d_capabilities(),
        )),
    );

    assert!(context.character_prompt.starts_with("persona data\n"));
    assert!(context.character_prompt.contains("neutral, happy"));
    assert!(context.character_prompt.contains("Idle, Tap"));
}

#[test]
fn chat_worker_omits_capabilities_when_snapshot_identity_does_not_match_persona() {
    let context = prepare_worker_context(
        resolved_persona_for_test("epsilon", "legacy rollback"),
        Some(character_snapshot_for_test(
            "stale-character",
            CharacterRendererKind::Live2d,
            live2d_capabilities(),
        )),
    );

    assert_eq!(context.character_prompt, "legacy rollback");
    assert!(context.character.is_none());
    assert!(context.character_control_context().is_none());
}

#[test]
fn control_dispatch_forwards_only_supported_names() {
    let events = dispatch_character_control(
        &static_capabilities(),
        &ReplyControl {
            emotion: Some("happy".into()),
            motion: Some("Idle".into()),
        },
    );
    assert_eq!(events.len(), 1);
    assert!(matches!(&events[0], CharacterControlEvent::Expression(name) if name == "happy"));

    let events = dispatch_character_control(
        &live2d_capabilities(),
        &ReplyControl {
            emotion: Some("angry".into()),
            motion: Some("Tap".into()),
        },
    );
    assert_eq!(events.len(), 1);
    assert!(matches!(&events[0], CharacterControlEvent::Motion(name) if name == "Tap"));
}

#[test]
fn bounded_submit_queue_returns_busy_without_silently_dropping_user_text() {
    let mut metrics = QueueMetrics::new("test_submit", 1);
    record_submit(&mut metrics, WakeOutcome::Sent).unwrap();

    let error = record_submit(&mut metrics, WakeOutcome::Full).unwrap_err();

    assert_eq!(error, "conversation is busy; please retry");
    let snapshot = metrics.snapshot();
    assert_eq!(snapshot.depth, 1);
    assert_eq!(snapshot.busy, 1);
    assert_eq!(snapshot.dropped, 1);
    assert_eq!(
        record_submit(&mut metrics, WakeOutcome::Disconnected).unwrap_err(),
        "conversation worker is not available"
    );
}

#[test]
fn enrichment_coalescing_keeps_all_distinct_pending_facts() {
    let (wake, rx) = sync_channel(1);
    let mut sender = EnrichmentSender::new(wake, QueueMetrics::new("test_enrichment", 1));
    sender
        .replace_latest(EnrichmentJob {
            user_text: "old".into(),
            turn_id: 1,
        })
        .unwrap();
    sender
        .replace_latest(EnrichmentJob {
            user_text: "latest".into(),
            turn_id: 2,
        })
        .unwrap();
    rx.recv().unwrap();
    let pending: Vec<(String, u64)> = sender
        .take_pending()
        .into_iter()
        .map(|job| (job.user_text, job.turn_id))
        .collect();
    assert_eq!(
        pending,
        vec![("old".to_owned(), 1), ("latest".to_owned(), 2)]
    );
    assert!(rx.try_recv().is_err(), "one wake coalesces multiple updates");
}

#[test]
fn enrichment_job_preserves_turn_identity_and_is_idempotent() {
    let (wake, rx) = sync_channel(1);
    let mut sender = EnrichmentSender::new(wake, QueueMetrics::new("test_enrichment", 1));
    sender
        .replace_latest(EnrichmentJob {
            user_text: "私は猫が好きです".into(),
            turn_id: 12,
        })
        .unwrap();
    sender
        .replace_latest(EnrichmentJob {
            user_text: "本文が変わっても同じターン".into(),
            turn_id: 12,
        })
        .unwrap();
    rx.recv().unwrap();
    assert_eq!(sender.take_pending().len(), 1);
}

#[test]
fn enrichment_metrics_track_the_bounded_pending_work_not_the_wake_token() {
    let (wake, _rx) = sync_channel(1);
    let mut sender = EnrichmentSender::new(
        wake,
        QueueMetrics::new("test_enrichment", ENRICHMENT_PENDING_CAPACITY),
    );
    for index in 0..ENRICHMENT_PENDING_CAPACITY {
        sender
            .replace_latest(EnrichmentJob {
                user_text: format!("fact-{index}"),
                turn_id: u64::try_from(index).unwrap(),
            })
            .unwrap();
    }
    assert!(sender
        .replace_latest(EnrichmentJob {
            user_text: "overflow".into(),
            turn_id: u64::try_from(ENRICHMENT_PENDING_CAPACITY).unwrap(),
        })
        .is_err());
    let snapshot = sender.metrics().snapshot();
    assert_eq!(snapshot.depth, ENRICHMENT_PENDING_CAPACITY);
    assert_eq!(snapshot.capacity, ENRICHMENT_PENDING_CAPACITY);
    assert_eq!(snapshot.dropped, 1);
}

#[test]
fn disconnected_enrichment_worker_drops_the_whole_batch() {
    let (wake, rx) = sync_channel(1);
    drop(rx);
    let mut sender = EnrichmentSender::new(wake, QueueMetrics::new("test_enrichment", 4));

    assert!(sender.replace_latest(EnrichmentJob::wake(7)).is_err());
    assert!(sender.take_pending().is_empty());
    let snapshot = sender.metrics().snapshot();
    assert_eq!(snapshot.depth, 0);
    assert_eq!(snapshot.dropped, 1);
}

#[test]
fn turn_ids_fall_back_to_the_process_range() {
    let mut fallback = 63;
    assert_eq!(choose_turn_id(Some(5), &mut fallback), 5);
    assert_eq!(fallback, 63);
    assert_eq!(choose_turn_id(None, &mut fallback), 63);
    assert_eq!(choose_turn_id(None, &mut fallback), 64);
}

#[test]
fn maintenance_and_follow_up_delays() {
    assert_eq!(maintenance_delay_millis(Some(true), 86_400_000), 100);
    assert_eq!(maintenance_delay_millis(Some(true), 10), 10);
    assert_eq!(maintenance_delay_millis(Some(false), 86_400_000), 86_400_000);
    assert_eq!(maintenance_delay_millis(None, 5_000), 5_000);
    assert_eq!(follow_up_delay_seconds(130, 100), 30);
    assert_eq!(follow_up_delay_seconds(100, 100), 0);
    assert_eq!(follow_up_delay_seconds(99, 100), 0);
    assert_eq!(follow_up_delay_seconds(i64::MAX, -5), i64::MAX as u64);
}

#[test]
fn llm_settings_defaults_and_key_handling() {
    let defaults = default_llm_settings();
    assert_eq!(defaults.base_url, "http://127.0.0.1:8080/v1");
    assert_eq!(defaults.provider, LlmProviderKind::Local);
    assert!(defaults.system_prompt.contains("制御JSON"));
    assert_eq!(credential_account(LlmProviderKind::OpencodeZen), "opencode-zen");

    let mut typed = default_llm_settings();
    typed.provider = LlmProviderKind::Openai;
    typed.api_key = "  sk-test  ".into();
    assert!(matches!(api_key_action(&typed), ApiKeyAction::Store(key) if key == "sk-test"));
    typed.clear_api_key = true;
    assert!(matches!(api_key_action(&typed), ApiKeyAction::Delete));
    typed.clear_api_key = false;
    typed.api_key = "   ".into();
    assert!(matches!(api_key_action(&typed), ApiKeyAction::Keep));

    typed.api_key = "secret".into();
    let persisted = persisted_settings(typed, true);
    assert!(persisted.api_key.is_empty());
    assert!(persisted.api_key_configured);
    assert!(!persisted.clear_api_key);

    let loaded = loaded_settings(persisted, false);
    assert!(!loaded.api_key_configured);
    let mut local = default_llm_settings();
    local.api_key_configured = true;
    assert!(loaded_settings(local, false).api_key_configured);
}

#[test]
fn enrichment_slices_hand_out_the_oldest_jobs_first() {
    let (wake, rx) = sync_channel(1);
    let mut sender = EnrichmentSender::new(wake, QueueMetrics::new("test_enrichment", 16));
    for turn in 1..=6u64 {
        sender
            .replace_latest(EnrichmentJob {
                user_text: format!("fact-{turn}"),
                turn_id: turn,
            })
            .unwrap();
    }
    rx.recv().unwrap();
    let (first, more) = sender.take_slice();
    assert_eq!(first.len(), ENRICHMENT_JOBS_PER_SLICE);
    assert_eq!(
        first.iter().map(|job| job.turn_id).collect::<Vec<_>>(),
        vec![1, 2, 3, 4]
    );
    assert_eq!(first[0].user_text, "fact-1");
    assert!(more);
    let (second, more) = sender.take_slice();
    assert_eq!(second.iter().map(|job| job.turn_id).collect::<Vec<_>>(), vec![5, 6]);
    assert!(!more);
    let (empty, more) = sender.take_slice();
    assert!(empty.is_empty());
    assert!(!more);
}

#[test]
fn wake_marker_is_added_only_to_an_empty_batch() {
    let (wake, _rx) = sync_channel(1);
    let mut sender = EnrichmentSender::new(wake, QueueMetrics::new("test_enrichment", 4));
    sender.ensure_wake_marker();
    let pending = sender.take_pending();
    assert_eq!(pending.len(), 1);
    assert_eq!(pending[0].turn_id, 0);
    assert!(pending[0].user_text.is_empty());

    sender
        .replace_latest(EnrichmentJob {
            user_text: "fact".into(),
            turn_id: 9,
        })
        .unwrap();
    sender.ensure_wake_marker();
    let pending = sender.take_pending();
    assert_eq!(pending.len(), 1);
    assert_eq!(pending[0].turn_id, 9);
}

#[test]
fn enrichment_worker_follow_up_and_wait_decisions() {
    assert_eq!(decide_follow_up(true, false, false, false, true, false, true), FollowUp::Soon);
    assert_eq!(decide_follow_up(true, false, false, true, true, false, true), FollowUp::AtDurableDeadline);
    assert_eq!(decide_follow_up(false, false, false, false, false, true, false), FollowUp::Soon);
    assert_eq!(decide_follow_up(false, false, false, true, false, true, true), FollowUp::Stop);
    assert_eq!(decide_follow_up(false, false, false, false, false, false, false), FollowUp::Idle);

    assert_eq!(decide_after_wait(WaitOutcome::Woken, false, false, true), WaitDecision::Process);
    assert_eq!(decide_after_wait(WaitOutcome::Disconnected, true, true, false), WaitDecision::Stop);
    assert_eq!(
        decide_after_wait(WaitOutcome::TimedOut, true, true, true),
        WaitDecision::ProcessWithMarker
    );
    assert_eq!(decide_after_wait(WaitOutcome::TimedOut, true, false, true), WaitDecision::Continue);
    assert_eq!(decide_after_wait(WaitOutcome::TimedOut, false, false, true), WaitDecision::Stop);
    assert_eq!(decide_after_wait(WaitOutcome::TimedOut, false, false, false), WaitDecision::Continue);
}

#[test]
fn promotion_stores_the_full_user_text_not_a_paraphrase() {
    let candidates = vec![
        MemoryCandidateRef { id: 3, revision: Some(7) },
        MemoryCandidateRef { id: 4, revision: None },
        MemoryCandidateRef { id: 3, revision: Some(9) },
    ];
    assert!(plan_promotion(ConsolidationAction::Ignore, &candidates, "text").is_none());

    let add = plan_promotion(
        ConsolidationAction::Add { content: "likes cats".into(), pinned: true },
        &candidates,
        "私は猫が好きです",
    )
    .unwrap();
    assert_eq!(add.operation, CandidateOperation::Add);
    assert_eq!(add.relation, ProvenanceRelation::Originated);
    assert_eq!(add.expected_revision, None);
    assert_eq!(add.target_memory_id, None);
    assert!(matches!(add.action, ConsolidationAction::Add { ref content, pinned: true } if content == "私は猫が好きです"));

    let reinforce =
        plan_promotion(ConsolidationAction::Reinforce { memory_id: 3 }, &candidates, "again").unwrap();
    assert_eq!(reinforce.operation, CandidateOperation::Reinforce);
    assert_eq!(reinforce.relation, ProvenanceRelation::Reasserted);
    assert_eq!(reinforce.expected_revision, Some(7));
    assert_eq!(reinforce.target_memory_id, Some(3));

    let supersede = plan_promotion(
        ConsolidationAction::Supersede {
            old_memory_id: 4,
            content: "paraphrase".into(),
            pin_replacement: false,
        },
        &candidates,
        "actually I prefer dogs",
    )
    .unwrap();
    assert_eq!(supersede.operation, CandidateOperation::Supersede);
    assert_eq!(supersede.relation, ProvenanceRelation::Corrected);
    assert_eq!(supersede.expected_revision, None);
    assert_eq!(supersede.target_memory_id, Some(4));
    assert!(matches!(
        supersede.action,
        ConsolidationAction::Supersede { old_memory_id: 4, ref content, pin_replacement: false }
            if content == "actually I prefer dogs"
    ));
    let unknown =
        plan_promotion(ConsolidationAction::Reinforce { memory_id: 99 }, &candidates, "x").unwrap();
    assert_eq!(unknown.expected_revision, None);
    assert_eq!(relation_name(ProvenanceRelation::ChangedStance), "changed_stance");
    assert_eq!(relation_name(ProvenanceRelation::Corrected), "corrected");
}

#[test]
fn rolling_summary_batches_and_resume_point() {
    assert_eq!(summary_resume_point(Some(40), true), 40);
    assert_eq!(summary_resume_point(Some(40), false), 0);
    assert_eq!(summary_resume_point(None, true), 0);
    assert_eq!(summary_batch(SUMMARY_BATCH_MESSAGES + 1), (SUMMARY_BATCH_MESSAGES, true));
    assert_eq!(summary_batch(SUMMARY_BATCH_MESSAGES), (SUMMARY_BATCH_MESSAGES, false));
    assert_eq!(summary_batch(3), (3, false));
    assert!(may_run_summary_batch(0, false, true));
    assert!(!may_run_summary_batch(1, false, true));
    assert!(may_run_summary_batch(3, false, false));
    assert!(!may_run_summary_batch(4, false, false));
    assert!(!may_run_summary_batch(0, true, false));
}

#[test]
fn settling_a_wake_keeps_or_drops_the_batch_by_outcome() {
    let (wake, _rx) = sync_channel(1);
    let mut sender = EnrichmentSender::new(wake, QueueMetrics::new("test_enrichment", 8));
    sender.replace_latest(EnrichmentJob::wake(1)).unwrap();
    sender.replace_latest(EnrichmentJob::wake(2)).unwrap();
    let before = sender.metrics().snapshot();
    assert!(sender.settle_wake(WakeOutcome::Sent).is_ok());
    assert!(sender.settle_wake(WakeOutcome::Full).is_ok());
    let after = sender.metrics().snapshot();
    assert_eq!(after.busy, before.busy + 1);
    assert_eq!(after.depth, 2);
    assert!(sender.settle_wake(WakeOutcome::Disconnected).is_err());
    let dropped = sender.metrics().snapshot();
    assert_eq!(dropped.depth, 0);
    assert_eq!(dropped.dropped, before.dropped + 2);
    assert!(sender.take_pending().is_empty());
}

#[test]
fn persona_fingerprint_is_the_compact_json_pair() {
    assert_eq!(resolved_persona(Some("eps"), "a\"b\n").fingerprint, "[\"eps\",\"a\\\"b\\n\"]");
    assert_eq!(resolved_persona(None, "\u{1}").fingerprint, "[null,\"\\u0001\"]");
}
