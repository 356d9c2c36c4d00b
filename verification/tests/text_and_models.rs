use openless::endpoint::{
    check_url_parts, ip_v4_is_internal, ip_v6_is_internal, validate_llm_endpoint, EndpointError,
    HostAddress, UrlParts,
};
use openless::effects::HistoryLimits;
use openless::end::empty_record;
use openless::history::{
    created_at, is_valid_session_id, new_session_id, read_audio_recording, recording_file_name, RecordingRead,
};
use openless::llm::{
    answer_chat_dispatch, llm_client, plan_polish, plan_streaming_polish, polish_and_translate_or_passthrough,
    polish_needs_model, polish_or_passthrough, polish_or_passthrough_streaming, polish_request,
    prior_turns, translate_request, LlmClient, ModelContext, PolishRoute, PolishSettings,
    StreamingPlan, StreamingPolishOutcome,
};
use openless::local_asr::{
    normalize_runtime_source_str, relocate_poll, route_request, LocalAsrMirror, LocalAsrOp,
    LocalAsrRuntime, Mirror, RelocateNext, Relocation, RELOCATE_ATTEMPTS,
};
use openless::local_asr_requests::{
    delete_model, invalidate_route, model_card, model_dir, prepare, release, relocated,
    remote_info, runtime_call, same_root, start_download, test_model, ListedFile, ListedModel, LocalAsrTarget,
    ModelCard, ModelTrial, ReleaseStep,
};
use openless::native_asr::{
    pcm_duration_ms, schedule_sherpa_release, windows_native_asr_timeout, AsrCallLabel,
    NativeCancel, NativeKind, NativeLoad, NativeReply, NativeRun, NativeStart,
    ReleaseAction, TauriNativeTranscriptionSession,
};
use openless::qa::QaMessage;
use openless::paths::{path_below, windows_path_below};
use openless::providers::{
    enabled_hotwords, enabled_phrases, is_whisper_compatible_provider, resolve_ark_endpoint_with_policy,
    LlmSetupError, VocabularyEntry,
};
use openless::selection::SelectionCapture;
use openless::selection_voice::{
    bind_selection_voice_target_state, clear_host_session, gate_selection_voice,
    handle_selection_voice_pressed, handle_selection_voice_released, SelectionVoiceHostState,
    SelectionVoicePhase, VoiceKeyAction, VoiceRefusal,
};
use openless::text::{
    contains, decimal_text, is_blank, lower_ascii, replace_all, text_after_last, trim,
    trim_suffix, trim_trailing,
};
use openless::translate::{
    build_polish_translate_system_prompt, split_polish_translate_output,
    POLISH_TRANSLATE_SRC_MARKER, POLISH_TRANSLATE_TGT_MARKER,
};
use openless::types::{
    BackendError, BackendErrorCode, ChineseScriptPreference, HotkeyMode, Platform, PolishMode,
    SessionPhase,
};
use openless::voice_transcript::{
    gate_selection_voice_recorder, transcribe_selection_voice_asr, voice_wait, VoiceAsrKind,
    VoiceEffect, VoiceError, VoiceLimit, VoiceWaitEnd,
};

#[test]
fn endpoints_are_judged_by_their_host() {
    assert!(validate_llm_endpoint("https://api.example.com/v1").is_ok());
    assert!(validate_llm_endpoint("http://localhost:11434/v1").is_ok());
    assert!(validate_llm_endpoint("http://127.0.0.1:1234").is_ok());
    assert!(validate_llm_endpoint("http://[::1]:1234").is_ok());
    let refusal = |url: &str| validate_llm_endpoint(url).unwrap_err();
    assert!(matches!(refusal("not a url"), EndpointError::NotAUrl(_)));
    assert!(matches!(refusal("mailto:a@b.c"), EndpointError::NoHost));
    assert!(matches!(refusal("https://169.254.169.254/"), EndpointError::Metadata(_)));
    assert!(matches!(refusal("https://metadata.google.internal"), EndpointError::Metadata(_)));
    assert!(matches!(refusal("http://api.example.com"), EndpointError::NotHttps(_)));
    assert!(matches!(refusal("https://10.0.0.8/v1"), EndpointError::Internal(ip) if ip == "10.0.0.8"));
    assert!(matches!(refusal("https://[fd00::1]/"), EndpointError::Internal(_)));
    assert!(matches!(refusal("https://[::ffff:192.168.0.1]/"), EndpointError::MappedInternal(_)));
    assert_eq!(
        refusal("http://api.example.com").text(),
        "LLM endpoint 必须使用 https（仅 localhost 允许 http）：http://api.example.com"
    );
    assert_eq!(refusal("mailto:a@b.c").text(), "LLM endpoint 缺少主机名");
}

#[test]
fn internal_addresses_are_known() {
    assert!(ip_v4_is_internal(172, 31, 0, 1));
    assert!(!ip_v4_is_internal(172, 32, 0, 1));
    assert!(ip_v4_is_internal(100, 64, 0, 1));
    assert!(!ip_v4_is_internal(8, 8, 8, 8));
    assert!(ip_v6_is_internal([0xfe80, 0, 0, 0, 0, 0, 0, 1]));
    assert!(ip_v6_is_internal([0; 8]));
    assert!(!ip_v6_is_internal([0x2001, 0, 0, 0, 0, 0, 0, 1]));
    let parts = UrlParts {
        scheme: "https".into(),
        host: Some("EXAMPLE.com".into()),
        address: HostAddress::Name,
        address_text: String::new(),
    };
    assert!(check_url_parts("https://EXAMPLE.com", &parts).is_ok());
}

#[test]
fn session_ids_are_uuids() {
    let (_, text) = new_session_id();
    assert!(is_valid_session_id(&text));
    assert_eq!(text.len(), 36);
    let (_, other) = new_session_id();
    assert_ne!(text, other);
    assert!(!is_valid_session_id("../../../../etc/passwd-0000000000000"));
    assert!(!is_valid_session_id("g0000000-0000-4000-8000-000000000000"));
    assert_eq!(recording_file_name(&text).unwrap(), format!("{text}.wav"));
    assert_eq!(
        read_audio_recording("x", RecordingRead::Missing).unwrap_err().text(),
        "invalid session id"
    );
    assert_eq!(
        read_audio_recording(&text, RecordingRead::Vanished).unwrap_err().text(),
        "recording not found"
    );
    assert_eq!(
        read_audio_recording(&text, RecordingRead::Failed("io".into())).unwrap_err().text(),
        "read wav failed: io"
    );
    assert_eq!(read_audio_recording(&text, RecordingRead::Bytes(vec![1])).unwrap(), vec![1]);
}

#[test]
fn two_sections_are_read_back() {
    let reply = format!("{POLISH_TRANSLATE_SRC_MARKER}\n你好。\n{POLISH_TRANSLATE_TGT_MARKER}\nHello.");
    let (source, translation) = split_polish_translate_output(&reply).unwrap();
    assert_eq!(source.as_deref(), Some("你好。"));
    assert_eq!(translation, "Hello.");
    assert!(split_polish_translate_output("no markers").is_none());
    let prompt = build_polish_translate_system_prompt("Be brief.", "English");
    assert!(prompt.starts_with("Be brief."));
    assert!(prompt.contains("English"));
    assert!(prompt.contains(POLISH_TRANSLATE_TGT_MARKER));
}

#[test]
fn what_was_said_is_never_lost() {
    let failed = polish_or_passthrough("raw".into(), true, Err("down".into()));
    assert_eq!((failed.text.as_str(), failed.error.as_deref()), ("raw", Some("down")));
    let skipped = polish_or_passthrough("raw".into(), false, Ok("ignored".into()));
    assert_eq!((skipped.text.as_str(), skipped.error), ("raw", None));
    let translated =
        polish_and_translate_or_passthrough("raw", Err("a".into()), Err("b".into()));
    assert_eq!(translated.text, "raw");
    assert!(translated.error.is_some());
    assert!(!polish_needs_model(PolishMode::Raw, "builtin", "builtin"));
    assert!(polish_needs_model(PolishMode::Raw, "mine", "builtin"));
    assert_eq!(llm_client("gemini"), LlmClient::Gemini);
    assert_eq!(llm_client("ark"), LlmClient::Configured);
}

#[test]
fn streams_are_opened_only_where_they_can() {
    let configured = LlmClient::Configured;
    assert!(matches!(plan_streaming_polish(true, configured, Ok(true)), StreamingPlan::Open));
    assert!(matches!(
        plan_streaming_polish(true, LlmClient::Gemini, Ok(true)),
        StreamingPlan::Unsupported
    ));
    let streamed = polish_or_passthrough_streaming(StreamingPlan::Open, Ok("t".into()));
    assert!(matches!(streamed, StreamingPolishOutcome::Streamed(t) if t == "t"));
    let settings = PolishSettings {
        mode: PolishMode::Light,
        raw_uses_llm: false,
        streaming_insert: true,
        translation_modifier_seen: false,
        translation_target: String::new(),
        context_window_minutes: 5,
    };
    let plan = plan_polish(&settings);
    assert_eq!(plan.route, PolishRoute::Stream);
    assert!(plan.wants_history && !plan.translation_active);
}

#[test]
fn the_model_is_asked_with_the_prompt_of_the_plan() {
    let settings = |target: &str| PolishSettings {
        mode: PolishMode::Light,
        raw_uses_llm: false,
        streaming_insert: false,
        translation_modifier_seen: true,
        translation_target: target.into(),
        context_window_minutes: 0,
    };
    let words = vec![
        VocabularyEntry { phrase: "OpenLess".into(), enabled: true },
        VocabularyEntry { phrase: "old".into(), enabled: false },
    ];
    let context = || ModelContext {
        mode: PolishMode::Light,
        working_languages: vec!["English".into()],
        script: ChineseScriptPreference::Auto,
        output_language: 1,
        thinking: true,
        front_app: Some("Mail".into()),
        prior_turns: Vec::new(),
    };
    let plain = plan_polish(&settings(" "));
    let asked = polish_request(&plain, "hi".into(), "style", "base", &words, context());
    assert_eq!((asked.text.as_str(), asked.system_prompt.as_str()), ("hi", "style"));
    assert_eq!(asked.hotwords, vec!["OpenLess".to_string()]);
    let translated = plan_polish(&settings("日本語"));
    let asked = polish_request(&translated, "hi".into(), "style", "base", &words, context());
    assert!(asked.system_prompt.starts_with("base\n\n# "));
    assert!(asked.system_prompt.ends_with("（这里放翻译成「日本語」的译文）"));
    let fallback = translate_request(&translated, asked);
    assert_eq!((fallback.text.as_str(), fallback.target_language.as_str()), ("hi", "日本語"));
    assert_eq!(fallback.front_app.as_deref(), Some("Mail"));
    assert!(prior_turns(&plain, Ok(Vec::new()), "pack").is_empty());
    assert!(prior_turns(&plain, Err("locked".into()), "pack").is_empty());
}

#[test]
fn texts_are_taken_apart_by_characters() {
    assert_eq!(trim(" \u{3000}你好 \n"), "你好");
    assert!(is_blank("\u{a0}\t"));
    assert_eq!(replace_all("aXbX", "X", "--"), "a--b--");
    assert_eq!(replace_all("abc", "", "-"), "abc");
    assert_eq!(trim_trailing("https://a//", '/'), "https://a");
    assert_eq!(trim_suffix("base/chat", "/chat"), "base");
    assert_eq!(lower_ascii("ÀBC"), "Àbc");
    assert_eq!(text_after_last("a/b/c", '/').as_deref(), Some("c"));
    assert_eq!(text_after_last("abc", '/'), None);
    assert_eq!(decimal_text(0), "0");
    assert_eq!(decimal_text(18_446_744_073_709_551_615), "18446744073709551615");
    assert!(contains("haystack", "stack"));
}

#[test]
fn vocabulary_reaches_recogniser_and_model() {
    let entries = vec![
        VocabularyEntry { phrase: "OpenLess".into(), enabled: true },
        VocabularyEntry { phrase: "old".into(), enabled: false },
    ];
    assert_eq!(enabled_phrases(&entries), vec!["OpenLess"]);
    let hotwords = enabled_hotwords(&entries);
    assert_eq!(hotwords.len(), 2);
    assert!(!hotwords[1].enabled);
    assert!(!is_whisper_compatible_provider("volcengine"));
}

#[test]
fn a_key_is_sent_only_to_an_accepted_endpoint() {
    let refused = resolve_ark_endpoint_with_policy("key", Some("http://10.0.0.1/v1".into()));
    assert!(matches!(refused, Err(LlmSetupError::Endpoint(_))));
    let accepted = resolve_ark_endpoint_with_policy("key", Some("https://ark.example.com".into()));
    assert_eq!(accepted.unwrap(), "https://ark.example.com");
}

#[test]
fn local_limits_and_durations() {
    assert_eq!(windows_native_asr_timeout(0), 30);
    assert_eq!(windows_native_asr_timeout(10_001), 31);
    assert_eq!(windows_native_asr_timeout(60_000), 80);
    assert_eq!(pcm_duration_ms(&vec![0; 32_000]), 1_000);
    assert_eq!(schedule_sherpa_release(4, 5), ReleaseAction::Keep);
    assert_eq!(schedule_sherpa_release(5, 5), ReleaseAction::ReleaseNow);
}

fn opened(load: NativeLoad, operation: u64) -> TauriNativeTranscriptionSession {
    TauriNativeTranscriptionSession::opened(start(load), Ok(operation)).unwrap()
}

fn start(load: NativeLoad) -> NativeStart {
    NativeStart {
        label: AsrCallLabel { provider_type: "p".into(), model: None },
        generation: 1,
        keep_loaded_secs: 30,
        load,
    }
}

#[test]
fn a_recogniser_that_cannot_be_set_up_says_so() {
    let load = NativeLoad::Sherpa { model: "s".into(), language: None };
    let error = TauriNativeTranscriptionSession::opened(start(load), Err("disk".into()));
    assert_eq!(error.unwrap_err().message, "native ASR provider failed: disk");
}

#[test]
fn a_cancelled_recogniser_says_so() {
    let mut session = opened(NativeLoad::Qwen { model: "q".into() }, 5);
    assert!(!session.consume_pcm_chunk(&[1, 2, 3, 4]));
    let chunk = session.partial("你好".into()).unwrap();
    assert_eq!(chunk.offset, 0);
    assert_eq!(session.partial("x".into()).unwrap().offset, 2);
    assert_eq!(session.cancel(), NativeCancel::Operation(5));
    assert!(session.partial("late".into()).is_none());
    let reply = NativeReply::Text { text: "t".into(), duration_ms: 1 };
    assert!(session.finish(reply, "").0.is_err());
    let mut foundry = opened(
        NativeLoad::Foundry { model: "f".into(), runtime: "auto".into(), language: None },
        0,
    );
    assert!(matches!(foundry.begin_finish(30_001), NativeRun::Timed { timeout_secs: 51 }));
    assert_eq!(foundry.cancel(), NativeCancel::Recogniser);
    let failure = foundry.finish(NativeReply::TerminalFallback, "gone").0.unwrap_err();
    assert_eq!(failure.terminal, Some("foundry_fallback"));
    assert_eq!(failure.error.message, "gone");
    let failure = foundry.finish(NativeReply::Failed("x".into()), "gone").0.unwrap_err();
    assert!(failure.error.retryable && failure.terminal.is_none());
    assert_eq!(failure.error.message, "native ASR provider failed: x");
}

#[test]
fn requests_are_routed_to_a_runtime_that_serves_them() {
    assert!(route_request(LocalAsrOp::Prepare, LocalAsrRuntime::SherpaOnnx, "m", true).is_ok());
    assert_eq!(normalize_runtime_source_str(" nuget "), "nuget");
    assert_eq!(normalize_runtime_source_str("x"), "auto");
    let plan = Relocation { effects: vec![], from: "/old".into(), to: "/new".into() };
    assert!(matches!(
        relocate_poll(&plan, RELOCATE_ATTEMPTS, false),
        RelocateNext::Migrate { from, to } if from == "/old" && to == "/new"
    ));
    assert!(matches!(relocate_poll(&plan, 0, true), RelocateNext::Failed(_)));
}

#[test]
fn a_tap_toggles_and_a_hold_releases() {
    let mut host = SelectionVoiceHostState::new();
    let mut busy = false;
    let auto = HotkeyMode::Auto;
    let idle = Some(SelectionVoicePhase::Idle);
    let recording = Some(SelectionVoicePhase::Recording);
    let pressed = handle_selection_voice_pressed(&mut host, &mut busy, true, auto, idle, 0);
    assert_eq!(pressed, VoiceKeyAction::Begin);
    busy = false;
    let tapped = handle_selection_voice_released(&mut host, &mut busy, true, auto, recording, 100);
    assert_eq!(tapped, VoiceKeyAction::Nothing);
}

#[test]
fn only_the_owner_clears_a_spoken_change() {
    let selected =
        || SelectionCapture { text: "words".into(), source_app: Some("Editor".into()) };
    let mut host = SelectionVoiceHostState::new();
    assert!(bind_selection_voice_target_state(&mut host, 4, Some(2)).is_ok());
    clear_host_session(&mut host, 5);
    assert_eq!(host.target_session_id, Some(4));
    clear_host_session(&mut host, 4);
    assert_eq!(host.target_session_id, None);
    assert_eq!(
        gate_selection_voice(SessionPhase::Listening, &host, Some(selected()), true).unwrap_err(),
        VoiceRefusal::DictationActive
    );
    assert_eq!(
        gate_selection_voice(SessionPhase::Idle, &host, None, true).unwrap_err(),
        VoiceRefusal::NoSelection
    );
    let begun = gate_selection_voice(SessionPhase::Idle, &host, Some(selected()), true).unwrap();
    assert_eq!((begun.text.as_str(), begun.source_app.as_deref()), ("words", Some("Editor")));
}

#[test]
fn spoken_changes_wait_as_their_recogniser_needs() {
    let wait = voice_wait(VoiceAsrKind::Volcengine);
    assert!(wait.send_last_frame);
    assert_eq!(wait.limit, VoiceLimit::Global);
    assert_eq!(voice_wait(VoiceAsrKind::SherpaOnnxLocal).limit, VoiceLimit::Own);
    let timed_out = VoiceWaitEnd::TimedOut;
    let (effects, result) =
        transcribe_selection_voice_asr(VoiceAsrKind::Volcengine, timed_out, true, None);
    assert!(effects.iter().any(|e| matches!(e, VoiceEffect::CancelAsr)));
    assert_eq!(result.unwrap_err().text(), "global timeout");
    let text = VoiceWaitEnd::Text("t".into());
    let (_, result) = transcribe_selection_voice_asr(VoiceAsrKind::Whisper, text, true, None);
    assert_eq!(result.unwrap(), "t");
    let text = VoiceWaitEnd::Text("t".into());
    let foundry = VoiceAsrKind::FoundryLocalWhisper;
    let (effects, _) = transcribe_selection_voice_asr(foundry, text, true, Some(4));
    assert_eq!(effects, vec![VoiceEffect::ScheduleRelease { recovery: Some(4) }]);
    let effects = gate_selection_voice_recorder(false, None, None, None).unwrap();
    assert_eq!(
        effects,
        vec![VoiceEffect::StoreAsr, VoiceEffect::StopMicrophonePreview, VoiceEffect::AcquireMute]
    );
    let gate = gate_selection_voice_recorder(true, None, None, None).unwrap_err();
    assert!(matches!(gate, VoiceError::OmniUnsupported));
    let gate = gate_selection_voice_recorder(false, Some("no".into()), None, None).unwrap_err();
    assert_eq!(gate.text(), "缺少 ASR 凭据：no");
}

#[test]
fn platforms_differ_in_their_native_recognisers() {
    use_native(Platform::Windows, "sherpa-onnx", Some(NativeKind::Sherpa));
    use_native(Platform::Linux, "sherpa-onnx", None);
}

fn use_native(platform: Platform, provider: &str, expected: Option<NativeKind>) {
    assert_eq!(openless::native_asr::native_kind_of(platform, provider), expected);
}

fn target(runtime: LocalAsrRuntime, known: bool) -> LocalAsrTarget {
    LocalAsrTarget { runtime, model_id: "m".into(), known }
}

#[test]
fn only_sherpa_says_where_a_file_is_kept() {
    let listed = || ListedModel {
        mirror: LocalAsrMirror::HfMirror,
        files: vec![
            ListedFile { path: "a".into(), size: 1, local_path: "la".into(), sha256: Some("h".into()) },
            ListedFile { path: "b".into(), size: 2, local_path: "lb".into(), sha256: None },
        ],
        total_bytes: 3,
    };
    let sherpa = remote_info(target(LocalAsrRuntime::SherpaOnnx, false), Ok(listed())).unwrap();
    assert_eq!(sherpa.files[0].local_path.as_deref(), Some("la"));
    assert_eq!(sherpa.files[0].sha256.as_deref(), Some("h"));
    assert_eq!((sherpa.files[1].path.as_str(), sherpa.total_bytes), ("b", 3));
    let generic = remote_info(target(LocalAsrRuntime::Generic, true), Ok(listed())).unwrap();
    assert_eq!((generic.files[1].size_bytes, &generic.files[1].local_path), (2, &None));
    let unknown = remote_info(target(LocalAsrRuntime::Generic, false), Ok(listed())).unwrap_err();
    assert_eq!(unknown.message, "unknown generic local ASR model: m");
    let foundry = remote_info(target(LocalAsrRuntime::Foundry, true), Ok(listed())).unwrap_err();
    assert_eq!(foundry.code, BackendErrorCode::Unsupported);
    let offline = remote_info(target(LocalAsrRuntime::SherpaOnnx, true), Err("net".into())).unwrap_err();
    assert_eq!((offline.code, offline.message.as_str()), (BackendErrorCode::Provider, "net"));
}

#[test]
fn a_model_is_let_go_before_it_is_deleted() {
    let loaded = Some("m".to_string());
    let generic = target(LocalAsrRuntime::Generic, true);
    let steps = |platform| delete_model(&generic, platform, &loaded, &loaded).unwrap();
    assert_eq!(steps(Platform::MacOs), vec![ReleaseStep::QwenCache, ReleaseStep::WhisperCache]);
    assert_eq!(steps(Platform::Linux), vec![ReleaseStep::QwenCache]);
    assert_eq!(steps(Platform::Windows), vec![]);
    assert!(delete_model(&generic, Platform::MacOs, &Some("other".into()), &None).unwrap().is_empty());
    assert!(delete_model(&target(LocalAsrRuntime::Generic, false), Platform::Linux, &None, &None).is_err());
    assert_eq!(release(LocalAsrRuntime::Foundry, Platform::Windows), vec![ReleaseStep::Foundry]);
    assert_eq!(release(LocalAsrRuntime::SherpaOnnx, Platform::Windows), vec![ReleaseStep::Sherpa]);
    assert_eq!(release(LocalAsrRuntime::Generic, Platform::Linux), vec![ReleaseStep::QwenCache]);
}

#[test]
fn requests_for_models_are_answered() {
    let app = || Ok(());
    let unbound = || Err(BackendError::new(BackendErrorCode::InvalidState, "no window"));
    let sherpa = target(LocalAsrRuntime::SherpaOnnx, false);
    let generic = target(LocalAsrRuntime::Generic, true);
    assert_eq!(prepare(app(), &sherpa, Ok("ready".into())).unwrap(), "ready");
    assert_eq!(prepare(unbound(), &generic, Ok("ready".into())).unwrap_err().message, "no window");
    assert_eq!(
        prepare(app(), &generic, Ok("ready".into())).unwrap_err().message,
        "generic local ASR uses preload rather than explicit prepare"
    );
    assert_eq!(prepare(app(), &sherpa, Err("x".into())).unwrap_err().code, BackendErrorCode::Platform);
    assert!(start_download(app(), &generic).is_ok());
    let call = |op, target: &LocalAsrTarget| {
        runtime_call(op, app(), target, LocalAsrMirror::HfMirror, "bundled")
    };
    let foundry = target(LocalAsrRuntime::Foundry, false);
    let asked = call(LocalAsrOp::Prepare, &foundry).unwrap();
    assert_eq!(asked.runtime_source.as_deref(), Some("bundled"));
    assert_eq!((asked.model_id, asked.mirror), (foundry.model_id.clone(), None));
    let asked = call(LocalAsrOp::Prepare, &sherpa).unwrap();
    assert_eq!((asked.runtime, asked.runtime_source), (LocalAsrRuntime::SherpaOnnx, None));
    let asked = call(LocalAsrOp::StartDownload, &generic).unwrap();
    assert_eq!(asked.mirror, Some(Mirror::HfMirror));
    assert!(call(LocalAsrOp::StartDownload, &foundry).is_err());
    let mirror = LocalAsrMirror::GithubRelease;
    let late = runtime_call(LocalAsrOp::Prepare, unbound(), &sherpa, mirror, "auto");
    assert_eq!(late.unwrap_err().message, "no window");
    assert_eq!(start_download(unbound(), &generic).unwrap_err().message, "no window");
    assert_eq!(model_dir(&generic, Ok("/d".into())).unwrap(), "/d");
    assert!(model_dir(&generic, Err("x".into())).is_err());
    assert!(invalidate_route(LocalAsrRuntime::Foundry));
    assert!(!invalidate_route(LocalAsrRuntime::Generic));
    let root = |s: &str| Some(s.to_string());
    assert!(same_root(&root("/a"), &root("/a")));
    assert!(!same_root(&None, &None));
    let moved = relocated(Some("/b".into()), "/b/models".into(), Ok(())).unwrap();
    assert!(!moved.is_default);
    assert_eq!(relocated(None, "/a".into(), Err("disk".into())).unwrap_err().message, "disk");
    let card = ModelCard {
        mirror: LocalAsrMirror::Huggingface,
        downloads: 5,
        likes: 2,
        description: None,
    };
    assert_eq!(model_card(target(LocalAsrRuntime::Generic, true), Ok(card)).unwrap().card.likes, 2);
    assert!(model_card(sherpa, Err("x".into())).is_err());
    let trial = ModelTrial {
        backend: "mlx".into(),
        expected_text: "a".into(),
        transcribed_text: "a".into(),
        audio_ms: 1,
        load_ms: 2,
        transcribe_ms: 3,
    };
    assert_eq!(test_model(generic, Ok(trial)).unwrap().trial.load_ms, 2);
}

#[test]
fn the_history_spells_times_in_utc() {
    assert_eq!(created_at(1_431_648_000, 0).as_deref(), Some("2015-05-15T00:00:00+00:00"));
    assert_eq!(
        created_at(0, 250_000_000).as_deref(),
        Some("1970-01-01T00:00:00.250+00:00")
    );
    assert_eq!(created_at(i64::MAX, 0), None);
    let limits = HistoryLimits { retention_days: 7, max_entries: 9 };
    let record = empty_record(0, 0, PolishMode::Light, 3, true, limits).unwrap();
    assert!(is_valid_session_id(&record.id));
    assert_eq!(record.created_at, "1970-01-01T00:00:00+00:00");
    assert_eq!((record.vocabulary_size, record.archive_active), (3, true));
    assert!(empty_record(i64::MAX, 0, PolishMode::Light, 3, true, limits).is_none());
}

#[test]
fn names_are_put_below_directories() {
    assert_eq!(path_below("/a", "b"), "/a/b");
    assert_eq!(path_below("/a/", "b"), "/a/b");
    assert_eq!(path_below("", "b"), "b");
    assert_eq!(path_below("/a", "/b"), "/b");
    assert_eq!(path_below("a", ""), "a/");
    assert_eq!(path_below(&path_below("", "b"), "c"), path_below("", "b/c"));
    assert_eq!(path_below(&path_below("/a", "b"), "c"), path_below("/a", "b/c"));
    assert_eq!(windows_path_below("C:\\a", "b"), "C:\\a\\b");
    assert_eq!(windows_path_below("C:/a/", "b"), "C:/a/b");
    assert_eq!(windows_path_below("C:", "b"), "C:b");
}

#[test]
fn a_conversation_goes_to_the_active_model() {
    let ask = |active: &str| {
        let messages = vec![QaMessage { role: "user".into(), content: "why".into() }];
        let script = ChineseScriptPreference::Auto;
        answer_chat_dispatch(active, messages, vec!["de".into()], script, 2, true, None)
    };
    let call = ask("gemini");
    assert_eq!(call.client, LlmClient::Gemini);
    assert_eq!(call.messages[0].content, "why");
    assert_eq!((call.working_languages[0].as_str(), call.output_language), ("de", 2));
    assert!(call.thinking && call.front_app.is_none());
    assert_eq!(ask("openai").client, LlmClient::Configured);
}
