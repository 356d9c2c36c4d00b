use openless::end::{
    asr_transcribe_uses_global_timeout, insert_action, insert_route,
    local_qwen_transcribe_timeout, route_status, EndRun, InsertAction,
    InsertRoute,
};
use openless::polish::{
    apply_chinese_script_preference, apply_correction_rules, converted_or_unchanged,
    default_done_message, dictation_error_code, eligible_polish_context_turns,
    finalize_polished_text, streaming_insert_eligible, DictationErrorCode, TextOrigin,
};
use openless::providers::batch_asr_chunk_limit_ms;
use openless::selection::PastePreferences;
use openless::streaming::{
    append_typed_prefix, flush_streaming_insert_buffer, StreamingInsert, TypeOutcome,
};
use openless::types::{
    AsrKind, ChineseScriptPreference, CorrectionRule, DictationSession, InsertStatus, Platform,
    PolishMode,
};

fn correction_rule(pattern: &str, replacement: &str) -> CorrectionRule {
    CorrectionRule {
        id: "test".into(),
        pattern: pattern.into(),
        replacement: replacement.into(),
        enabled: true,
        created_at: String::new(),
    }
}

fn history_session(
    id: &str,
    raw: &str,
    final_text: &str,
    style_pack_id: Option<&str>,
    translation_active: bool,
    polish_source: Option<&str>,
) -> DictationSession {
    DictationSession {
        id: id.into(),
        created_at: "2026-06-03T00:00:00Z".into(),
        raw_transcript: raw.into(),
        final_text: final_text.into(),
        mode: PolishMode::Structured,
        app_bundle_id: None,
        app_name: None,
        insert_status: InsertStatus::Inserted,
        error_code: None,
        duration_ms: Some(1000),
        dictionary_entry_count: None,
        has_audio_recording: None,
        style_pack_id: style_pack_id.map(str::to_string),
        translation_active,
        polish_source: polish_source.map(str::to_string),
    }
}

fn origin(translation_active: bool) -> TextOrigin {
    TextOrigin { translation_active, polish_failed: false }
}

#[test]
fn polish_context_resets_when_active_style_pack_changes() {
    let sessions = vec![
        history_session("new", "raw new", "final new", Some("pack.new"), false, None),
        history_session("old", "raw old", "final old", Some("pack.old"), false, None),
    ];

    let turns = eligible_polish_context_turns(&sessions, "pack.new", false);

    assert_eq!(turns, vec![("raw new".to_string(), "final new".to_string())]);
}

#[test]
fn normal_turn_uses_polished_source_of_translation_history_not_the_translation() {
    let sessions = vec![
        history_session("translation", "你好", "Hello", Some("pack.new"), true, Some("你好。")),
        history_session("dictation", "继续", "继续。", Some("pack.new"), false, None),
    ];

    let turns = eligible_polish_context_turns(&sessions, "pack.new", false);

    assert_eq!(
        turns,
        vec![
            ("你好".to_string(), "你好。".to_string()),
            ("继续".to_string(), "继续。".to_string()),
        ]
    );
}

#[test]
fn normal_turn_skips_translation_history_without_polished_source() {
    let sessions = vec![
        history_session("translation", "你好", "Hello", Some("pack.new"), true, None),
        history_session("dictation", "继续", "继续。", Some("pack.new"), false, None),
    ];

    let turns = eligible_polish_context_turns(&sessions, "pack.new", false);

    assert_eq!(turns, vec![("继续".to_string(), "继续。".to_string())]);
}

#[test]
fn translation_turn_keeps_translation_text_of_translation_history() {
    let sessions = vec![history_session(
        "translation",
        "你好",
        "Hello",
        Some("pack.new"),
        true,
        Some("你好。"),
    )];

    let turns = eligible_polish_context_turns(&sessions, "pack.new", true);

    assert_eq!(turns, vec![("你好".to_string(), "Hello".to_string())]);
}

#[test]
fn translation_turn_uses_normal_history_final_text() {
    let sessions =
        vec![history_session("dictation", "继续", "继续。", Some("pack.new"), false, None)];

    let turns = eligible_polish_context_turns(&sessions, "pack.new", true);

    assert_eq!(turns, vec![("继续".to_string(), "继续。".to_string())]);
}

#[test]
fn failed_and_blank_sessions_are_no_context() {
    let mut failed = history_session("a", "raw", "final", Some("pack"), false, None);
    failed.error_code = Some("polishFailed".to_string());
    let blank = history_session("b", "raw", "  \n", Some("pack"), false, None);
    let unmarked = history_session("c", "raw", "final", None, false, None);
    let turns = eligible_polish_context_turns(&vec![failed, blank, unmarked], "pack", false);
    assert!(turns.is_empty());
}

#[test]
fn streamed_output_skips_postprocessing_mutations() {
    let rules = vec![correction_rule("Open AI", "OpenAI")];

    let result = finalize_polished_text(
        "Open AI".into(),
        origin(false),
        ChineseScriptPreference::Auto,
        &rules,
        true,
    );

    assert_eq!(result, "Open AI");
}

#[test]
fn raw_llm_output_still_applies_script_preference() {
    let result = finalize_polished_text(
        "繁體".into(),
        origin(false),
        ChineseScriptPreference::Simplified,
        &vec![],
        false,
    );

    assert_eq!(result, "繁体");
}

#[test]
fn non_streamed_output_still_applies_correction_rules() {
    let rules = vec![correction_rule("Open AI", "OpenAI")];

    let result = finalize_polished_text(
        "Open AI".into(),
        origin(false),
        ChineseScriptPreference::Auto,
        &rules,
        false,
    );

    assert_eq!(result, "OpenAI");
}

#[test]
fn a_translation_keeps_its_script() {
    let result = finalize_polished_text(
        "繁體".into(),
        origin(true),
        ChineseScriptPreference::Simplified,
        &vec![],
        false,
    );
    assert_eq!(result, "繁體");
}

#[test]
fn scripts_are_converted_both_ways() {
    assert_eq!(
        apply_chinese_script_preference("繁體中文", ChineseScriptPreference::Simplified),
        "繁体中文"
    );
    assert_eq!(
        apply_chinese_script_preference("简体", ChineseScriptPreference::Traditional),
        "簡體"
    );
    assert_eq!(apply_chinese_script_preference("简体", ChineseScriptPreference::Auto), "简体");
    assert_eq!(apply_chinese_script_preference("", ChineseScriptPreference::Simplified), "");
    assert_eq!(converted_or_unchanged("简体", None), "简体");
    assert_eq!(converted_or_unchanged("简体", Some("簡體".to_string())), "簡體");
}

#[test]
fn absent_patterns_and_disabled_rules_change_nothing() {
    let mut off = correction_rule("cat", "dog");
    off.enabled = false;
    assert_eq!(apply_correction_rules("a cat", &vec![off, correction_rule("zebra", "horse")]), "a cat");
    assert_eq!(
        apply_correction_rules("cat cat", &vec![correction_rule("cat", "dog"), correction_rule("dog", "cow")]),
        "cow cow"
    );
}

#[test]
fn append_typed_prefix_keeps_unicode_char_boundaries() {
    let mut typed = String::from("前");

    let appended = append_typed_prefix(&mut typed, "a你🙂b", 3);

    assert_eq!(appended, 3);
    assert_eq!(typed, "前a你🙂");
}

#[test]
fn append_typed_prefix_caps_at_delta_length() {
    let mut typed = String::new();

    let appended = append_typed_prefix(&mut typed, "好", 10);

    assert_eq!(appended, 1);
    assert_eq!(typed, "好");
}

#[test]
fn streaming_insert_eligible_when_gates_allow() {
    assert!(streaming_insert_eligible(true, false, PolishMode::Light, false));
}

#[test]
fn streaming_insert_is_refused_without_a_model_or_with_a_translation() {
    assert!(!streaming_insert_eligible(false, false, PolishMode::Light, false));
    assert!(!streaming_insert_eligible(true, true, PolishMode::Light, false));
    assert!(!streaming_insert_eligible(true, false, PolishMode::Raw, false));
    assert!(streaming_insert_eligible(true, false, PolishMode::Raw, true));
}

#[test]
fn batch_asr_chunk_limit_applies_only_to_zhipu() {
    assert_eq!(batch_asr_chunk_limit_ms("zhipu"), Some(30_000));
    assert_eq!(batch_asr_chunk_limit_ms("openrouter"), Some(30_000));
    assert_eq!(batch_asr_chunk_limit_ms("whisper"), None);
    assert_eq!(batch_asr_chunk_limit_ms("siliconflow"), None);
    assert_eq!(batch_asr_chunk_limit_ms("groq"), None);
    assert_eq!(batch_asr_chunk_limit_ms("volcengine"), None);
}

#[test]
fn default_done_message_works_correctly() {
    assert_eq!(
        default_done_message(InsertStatus::PasteSent, false).map(|n| n.text()),
        Some("已尝试粘贴".to_string())
    );
    assert_eq!(
        default_done_message(InsertStatus::Inserted, true).map(|n| n.text()),
        Some("润色失败，已插入原文".to_string())
    );
}

#[test]
fn streaming_insert_batches_queued_deltas_before_flush() {
    let mut stream = StreamingInsert::new();
    stream.receive_all(&vec!["你".to_string(), "好".to_string(), "🙂".to_string()]);

    let flushed = vec![stream.pending.clone()];
    stream.flush(TypeOutcome::Typed);

    assert_eq!(flushed, vec!["你好🙂".to_string()]);
    assert_eq!(stream.typed, "你好🙂");
    assert_eq!(stream.failure, None);
    assert!(stream.pending.is_empty());
}

#[test]
fn flush_streaming_insert_buffer_keeps_partial_unicode_prefix() {
    let mut pending = "a你🙂b".to_string();
    let mut typed = String::new();

    let failure = flush_streaming_insert_buffer(
        &mut pending,
        &mut typed,
        TypeOutcome::Partial { typed_chars: 3, reason: "fail".to_string() },
    );

    assert_eq!(typed, "a你🙂");
    assert!(pending.is_empty());
    assert!(failure.is_some());
}

#[test]
fn after_a_failure_nothing_more_is_typed() {
    let mut stream = StreamingInsert::new();
    stream.receive("one");
    stream.flush(TypeOutcome::Failed("no window".to_string()));
    stream.receive("two");
    assert_eq!(stream.typed, "");
    assert_eq!(stream.pending, "");
    assert!(stream.failure.is_some());
}

#[test]
fn error_codes_name_the_first_flaw() {
    let code = |platform, status, polish_failed, focus, fallback| {
        dictation_error_code(platform, status, polish_failed, focus, fallback).map(|c| c.name())
    };
    let (linux, windows) = (Platform::Linux, Platform::Windows);
    assert_eq!(
        code(linux, InsertStatus::Failed, true, false, true),
        Some("focusRestoreFailed")
    );
    assert_eq!(
        code(windows, InsertStatus::Failed, true, true, false),
        Some("windowsImeTsfRequired")
    );
    assert_eq!(code(linux, InsertStatus::Failed, true, true, false), Some("polishFailed"));
    assert_eq!(code(linux, InsertStatus::Inserted, false, true, true), None);
    assert_eq!(DictationErrorCode::EmptyTranscript.name(), "emptyTranscript");
}

#[test]
fn local_limit_follows_the_length_of_the_recording() {
    assert_eq!(local_qwen_transcribe_timeout(0), 15);
    assert_eq!(local_qwen_transcribe_timeout(5_000), 15);
    assert_eq!(local_qwen_transcribe_timeout(60_000), 46);
    assert!(!asr_transcribe_uses_global_timeout(AsrKind::SherpaOnnxLocal));
    assert!(asr_transcribe_uses_global_timeout(AsrKind::Volcengine));
}

#[test]
fn the_text_and_the_settings_go_along_with_the_route() {
    let run = EndRun { session_id: 7, elapsed_ms: 0 };
    let preferences = PastePreferences { restore_clipboard: true, shortcut: 3 };
    assert!(matches!(
        insert_action(InsertRoute::WindowsImeFirst, run, "hi", preferences, false),
        InsertAction::WindowsImeFirst { session_id: 7, text, preferences: p, allow_fallback: false }
            if text == "hi" && p == preferences
    ));
    assert!(matches!(
        insert_action(InsertRoute::Inserter, run, "hi", preferences, true),
        InsertAction::Inserter { text, preferences: p } if text == "hi" && p == preferences
    ));
    assert!(matches!(
        insert_action(InsertRoute::CopyOnly, run, "hi", preferences, true),
        InsertAction::Copy(text) if text == "hi"
    ));
    assert!(matches!(
        insert_action(InsertRoute::Refuse, run, "hi", preferences, true),
        InsertAction::Nothing
    ));
}

#[test]
fn without_focus_text_is_at_most_copied() {
    assert_eq!(insert_route(Platform::MacOs, false, false, true), InsertRoute::CopyOnly);
    assert_eq!(insert_route(Platform::MacOs, false, false, false), InsertRoute::Refuse);
    assert_eq!(insert_route(Platform::Linux, false, false, false), InsertRoute::Inserter);
    assert_eq!(insert_route(Platform::Windows, false, true, false), InsertRoute::WindowsImeFirst);
    assert_eq!(insert_route(Platform::Windows, true, false, false), InsertRoute::AlreadyTyped);
    assert_eq!(
        route_status(InsertRoute::Refuse, InsertStatus::Inserted),
        InsertStatus::Failed
    );
}
