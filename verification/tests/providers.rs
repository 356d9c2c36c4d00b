use openless::begin::{choose_recogniser, recorder_preparation, LocalModelPrefs};
use openless::effects::Effect;
use openless::insertion::{windows_sendinput_options_from_prefs, NewlineMode};
use openless::local_asr::{
    foundry_runtime_status, generic_runtime_status, list_foundry_models, list_generic_models,
    list_sherpa_models, local_asr_storage_snapshot, native_local_asr_mirror, plan_preload,
    prepare_progress, relocate_storage, runtime_status, sherpa_runtime_status, FoundryCatalogModel, FoundryStatus,
    GenericModelStatus, LocalAsrMirror, LocalAsrRuntime, LocalAsrSettings, Mirror, PreloadPlan,
    PreloadSettings, RelocateEffect, SherpaCatalogModel, StatusCall,
};
use openless::native_asr::{
    schedule_foundry_release, AsrCallLabel, AsrContext, ModelFacts, NativeCancel, NativeLoad,
    NativeReply, NativeRun, NativeStart, ReleaseAction, ReleasePlan,
    TauriNativeTranscriptionEngine, TauriNativeTranscriptionSession, WorkingLanguage,
};
use openless::providers::{
    build_active_llm_provider, raw_mode_uses_llm, raw_style_pack_uses_llm,
    read_bailian_credentials, read_gemini_credentials, read_mimo_credentials,
    read_volc_credentials, read_whisper_credentials, ActiveLlmProvider, AsrRequestFormat,
    LlmSetupError, StylePack, StylePackKind, VaultRead, VocabularyEntry,
};
use openless::sherpa::{
    SherpaFamily, SherpaMode, SherpaPreparePhase, SherpaPrepareProgressPayload,
    SherpaRuntimeStatus,
};
use openless::types::{AsrKind, BackendErrorCode, Platform};

fn some(text: &str) -> VaultRead {
    Ok(Some(text.to_string()))
}

fn nothing() -> VaultRead {
    Ok(None)
}

fn broken() -> VaultRead {
    Err("locked".to_string())
}

#[test]
fn missing_settings_fall_back_to_defaults() {
    let whisper = read_whisper_credentials(some("k"), broken(), some(""));
    assert_eq!((whisper.api_key.as_str(), whisper.base_url.as_str()), ("k", ""));
    assert_eq!(whisper.model, "whisper-1");
    let mimo = read_mimo_credentials(nothing(), nothing(), some("m"), "https://d", "dm");
    assert_eq!((mimo.base_url.as_str(), mimo.model.as_str()), ("https://d", "m"));
    let bailian = read_bailian_credentials(some("k"), nothing(), nothing(), some("  "), "e", "m");
    assert_eq!((bailian.endpoint.as_str(), bailian.vocabulary_id), ("e", None));
    let volc = read_volc_credentials(some("a"), some("t"), some(""), "res");
    assert_eq!((volc.access_token.as_str(), volc.resource_id.as_str()), ("t", "res"));
}

#[test]
fn gemini_needs_a_key() {
    let gemini = read_gemini_credentials(some("k"), nothing(), some("https://g/")).unwrap();
    assert_eq!((gemini.model.as_str(), gemini.base_url.as_str()), ("gemini-2.5-flash", "https://g"));
    let empty = read_gemini_credentials(some(" "), nothing(), nothing()).unwrap_err();
    assert_eq!(empty.text(), "API Key 为空");
    let locked = read_gemini_credentials(some("k"), broken(), nothing()).unwrap_err();
    assert!(matches!(locked, LlmSetupError::Vault(m) if m == "locked"));
}

#[test]
fn the_active_model_is_set_up() {
    let build = |active: &str, model, key, endpoint| {
        build_active_llm_provider(active.into(), "codex", "gpt", true, model, key, endpoint)
    };
    match build("codex", nothing(), broken(), broken()).unwrap() {
        ActiveLlmProvider::Codex { model, thinking } => {
            assert_eq!((model.as_str(), thinking), ("gpt", true));
        }
        other => panic!("{other:?}"),
    }
    match build("ark", nothing(), some("k"), some("https://a.example.com/v1/chat/completions")).unwrap() {
        ActiveLlmProvider::OpenAi { base_url, model, display_name, .. } => {
            assert_eq!(base_url, "https://a.example.com/v1");
            assert_eq!((model.as_str(), display_name.as_str()), ("deepseek-v3-2", "OpenLess LLM"));
        }
        other => panic!("{other:?}"),
    }
    assert!(matches!(build("ark", nothing(), nothing(), nothing()), Err(LlmSetupError::EmptyApiKey)));
    assert!(matches!(
        build("ark", nothing(), some("k"), some("http://10.1.1.1")),
        Err(LlmSetupError::Endpoint(_))
    ));
    assert!(matches!(build("ark", broken(), some("k"), nothing()), Err(LlmSetupError::Vault(_))));
}

#[test]
fn raw_styles_ask_a_model_only_when_changed() {
    let pack = |kind, prompt: &str| StylePack { id: "raw".into(), kind, prompt: prompt.into() };
    assert!(!raw_style_pack_uses_llm(&pack(StylePackKind::Builtin, "p"), "raw", "p"));
    assert!(raw_style_pack_uses_llm(&pack(StylePackKind::Custom, "p"), "raw", "p"));
    assert!(raw_style_pack_uses_llm(&pack(StylePackKind::Builtin, "mine"), "raw", "p"));
    assert!(raw_mode_uses_llm("mine", "p"));
    assert!(!raw_mode_uses_llm("p", "p"));
}

#[test]
fn the_recogniser_is_chosen_and_set_up() {
    let prefs = |alias: &str, hint: &str| LocalModelPrefs {
        model_alias: alias.into(),
        language_hint: hint.into(),
    };
    let choose = |platform, id: &str| {
        let word = |phrase: &str, enabled| VocabularyEntry { phrase: phrase.into(), enabled };
        let words = vec![word("OpenLess", true), word("old", false)];
        let sherpa = prefs("unknown", "");
        choose_recogniser(platform, id, &prefs("mine", " zh "), true, "auto", &sherpa, &words)
    };
    let foundry = choose(Platform::Windows, "foundry-local-whisper");
    assert_eq!(foundry.model_alias.as_deref(), Some("mine"));
    assert_eq!(foundry.language_hint.as_deref(), Some("zh"));
    assert_eq!(foundry.runtime_source.as_deref(), Some("auto"));
    let openrouter = choose(Platform::Linux, "openrouter");
    assert_eq!(openrouter.kind, AsrKind::Whisper);
    assert_eq!(openrouter.phrases, vec!["OpenLess".to_string()]);
    assert!(openrouter.hotwords.is_empty() && openrouter.runtime_source.is_none());
    let volcengine = choose(Platform::Linux, "volcengine");
    assert_eq!(volcengine.kind, AsrKind::Volcengine);
    assert_eq!(volcengine.hotwords.len(), 2);
    assert!(!volcengine.hotwords[1].enabled && volcengine.phrases.is_empty());
    assert!(foundry.phrases.is_empty() && foundry.hotwords.is_empty());
    assert_eq!(openrouter.request_format, AsrRequestFormat::OpenRouterJson);
    assert_eq!(choose(Platform::Linux, "mimo").kind, AsrKind::Mimo);
    assert_eq!(recorder_preparation(1, None, false, 30, 100).len(), 3);
    let kept = recorder_preparation(9, Some("Desk".into()), true, 30, 100);
    assert!(matches!(&kept[4], Effect::StartRecorder { microphone: Some(m) } if m == "Desk"));
    assert!(matches!(
        kept[2],
        Effect::PruneRecordings { retention_days: 30, max_entries: 100 }
    ));
    assert!(matches!(kept[3], Effect::ArchiveSound(9)));
}

#[test]
fn models_are_listed() {
    let generic = list_generic_models(&vec![GenericModelStatus {
        id: "qwen3-asr-0.6b".into(),
        is_whisper: false,
        repository: "r".into(),
        is_downloaded: true,
        downloaded_bytes: 5,
    }]);
    assert_eq!((generic[0].family.as_str(), generic[0].installed), ("qwen3", true));
    let foundry = list_foundry_models(&vec![FoundryCatalogModel {
        alias: "whisper-tiny".into(),
        display_name: "Tiny".into(),
        cached: false,
        file_size_mb: Some(2),
    }]);
    assert_eq!((foundry[0].size_bytes, foundry[0].mode.as_str()), (Some(2_097_152), "offline"));
    let sherpa = list_sherpa_models(&vec![SherpaCatalogModel {
        alias: "a".into(),
        display_name: "A".into(),
        family: SherpaFamily::Zipformer,
        mode: SherpaMode::Online,
        languages: vec!["zh".into()],
        repository: None,
        cached: true,
        downloaded_bytes: 1,
        file_size_mb: None,
    }]);
    assert_eq!((sherpa[0].family.as_str(), sherpa[0].languages.len()), ("zipformer", 1));
    assert_eq!(native_local_asr_mirror(LocalAsrMirror::GithubRelease), Mirror::Huggingface);
    assert_eq!(native_local_asr_mirror(LocalAsrMirror::HfMirror), Mirror::HfMirror);
}

fn settings(runtime: LocalAsrRuntime) -> LocalAsrSettings {
    LocalAsrSettings {
        runtime,
        provider_id: "p".into(),
        engine_available: true,
        active_model: "m".into(),
        keep_loaded_secs: 60,
        runtime_source: None,
    }
}

#[test]
fn a_runtime_is_asked_about_its_active_model() {
    assert!(matches!(
        runtime_status(&settings(LocalAsrRuntime::Generic)),
        StatusCall::Caches
    ));
    assert!(matches!(
        runtime_status(&settings(LocalAsrRuntime::Foundry)),
        StatusCall::Foundry { model, source } if model == "m" && source == "auto"
    ));
    assert!(matches!(
        runtime_status(&settings(LocalAsrRuntime::SherpaOnnx)),
        StatusCall::Sherpa { model } if model == "m"
    ));
}

#[test]
fn runtimes_say_how_they_are() {
    let loaded = |platform, qwen: Option<&str>| {
        generic_runtime_status(
            settings(LocalAsrRuntime::Generic),
            platform,
            qwen.map(str::to_string),
            Some("whisper".into()),
        )
    };
    assert_eq!(loaded(Platform::MacOs, None).model_id.as_deref(), Some("whisper"));
    assert_eq!(loaded(Platform::MacOs, Some("q")).model_id.as_deref(), Some("q"));
    assert!(!loaded(Platform::Linux, None).loaded);
    assert!(!loaded(Platform::Windows, Some("q")).loaded);
    let foundry = foundry_runtime_status(
        settings(LocalAsrRuntime::Foundry),
        FoundryStatus {
            provider_id: "f".into(),
            available: true,
            runtime_ready: true,
            active_model: "a".into(),
            loaded_model_id: None,
            runtime_source: "who knows".into(),
            endpoint: None,
            error: None,
        },
    );
    assert_eq!(foundry.runtime_source.as_deref(), Some("auto"));
    assert!(foundry.loaded);
    let sherpa = sherpa_runtime_status(
        settings(LocalAsrRuntime::SherpaOnnx),
        SherpaRuntimeStatus::unavailable("m".into(), "not here"),
    );
    assert_eq!(sherpa.error.as_deref(), Some("not here"));
    let payload = || SherpaPrepareProgressPayload {
        phase: SherpaPreparePhase::Load,
        model_alias: "m".into(),
        label: "l".into(),
        percent_hundredths: Some(5_000),
        error: None,
    };
    let progress = prepare_progress(LocalAsrRuntime::Foundry, payload()).unwrap();
    assert_eq!(progress.percent_hundredths, Some(5_000));
    assert!(prepare_progress(LocalAsrRuntime::Generic, payload()).is_err());
}

#[test]
fn only_the_active_model_is_loaded_ahead() {
    let plan = |platform, provider: &str, known| {
        plan_preload(
            LocalAsrRuntime::Generic,
            platform,
            PreloadSettings {
                active_provider: provider.into(),
                qwen_backend_available: true,
                qwen_model: "q".into(),
                qwen_model_known: known,
                whisper_model: "w".into(),
            },
        )
    };
    assert!(matches!(plan(Platform::Linux, "local-qwen3", true), Ok(PreloadPlan::Qwen(m)) if m == "q"));
    assert_eq!(
        plan(Platform::Linux, "local-qwen3", false).unwrap_err().message,
        "local Qwen model is not configured"
    );
    assert!(matches!(plan(Platform::Linux, "whisper", true), Ok(PreloadPlan::Nothing)));
    assert!(matches!(plan(Platform::Windows, "local-qwen3", true), Ok(PreloadPlan::Nothing)));
}

#[test]
fn the_model_store_moves_only_while_foundry_lets_it() {
    let relocate = |platform, same_root, locked| {
        relocate_storage(platform, Ok("/old".into()), Ok("/new".into()), same_root, locked)
    };
    let busy = relocate(Platform::Linux, false, true).unwrap_err();
    assert_eq!(busy.code, BackendErrorCode::Busy);
    let plan = relocate(Platform::MacOs, true, true).unwrap();
    assert_eq!(plan.effects.len(), 8);
    assert_eq!(plan.effects[0], RelocateEffect::CancelQwenDownloads);
    assert_eq!((plan.from.as_str(), plan.to.as_str()), ("/old", "/new"));
    assert_eq!(relocate(Platform::Windows, false, false).unwrap().effects.len(), 6);
    let unknown = Err("no home".to_string());
    let failed = relocate_storage(Platform::Linux, unknown, Ok("/new".into()), false, false);
    assert_eq!(failed.unwrap_err().message, "no home");
    let place = local_asr_storage_snapshot(None, Ok("/r".into())).unwrap();
    assert!(place.is_default);
    assert_eq!(local_asr_storage_snapshot(None, Err("x".into())).unwrap_err().message, "x");
}

#[test]
fn a_local_recogniser_is_set_up_and_named() {
    let language = |name: &str, locale: Option<&str>| WorkingLanguage {
        name: name.into(),
        apple_locale: locale.map(str::to_string),
    };
    let context = |provider: &str, model: Option<&str>| AsrContext {
        provider_type: provider.into(),
        model: model.map(str::to_string),
        runtime: None,
        language: None,
        keep_loaded_secs: Some(60),
        working_languages: vec![language("日本語", Some("ja-JP")), language("English", None)],
    };
    let facts = ModelFacts {
        foundry_alias_known: false,
        is_qwen: true,
        is_whisper: false,
        qwen_backend_available: true,
    };
    let mut engine = TauriNativeTranscriptionEngine::new();
    let mut start = |platform, context: &AsrContext| engine.start(platform, context, facts, "base");

    let apple = start(Platform::MacOs, &context("apple-speech", Some("m"))).unwrap();
    assert_eq!((apple.label.provider_type.as_str(), apple.label.model), ("apple-speech", None));
    assert!(matches!(apple.load, NativeLoad::AppleSpeech { locale: Some(l) } if l == "ja-JP"));
    let mut unmapped = context("apple-speech", None);
    unmapped.working_languages.remove(0);
    let plain = start(Platform::MacOs, &unmapped).unwrap();
    assert!(matches!(plain.load, NativeLoad::AppleSpeech { locale: None }));

    let whisper = start(Platform::MacOs, &context("local-whisper", Some("unknown"))).unwrap();
    assert_eq!(whisper.label.model.as_deref(), Some("base"));
    assert_eq!((whisper.generation, whisper.keep_loaded_secs), (3, 60));
    let qwen = start(Platform::Linux, &context("local-qwen3", Some("qwen3-asr-0.6b"))).unwrap();
    assert_eq!(qwen.label.model.as_deref(), Some("qwen3-asr-0.6b"));
    assert_eq!(
        start(Platform::Linux, &context("local-qwen3", None)).unwrap_err().message,
        "local Qwen model is not configured"
    );
    assert_eq!(
        start(Platform::Linux, &context("apple-speech", None)).unwrap_err().message,
        "native ASR provider is unavailable: apple-speech"
    );
}

#[test]
fn recognisers_are_let_go_when_nobody_uses_them() {
    assert_eq!(schedule_foundry_release(false, 0, false, 1, 1), ReleaseAction::ReleaseNow);
    assert_eq!(schedule_foundry_release(true, 60, true, 1, 1), ReleaseAction::ReleasePrimary);
    assert_eq!(schedule_foundry_release(true, 60, false, 1, 1), ReleaseAction::Keep);
    assert_eq!(schedule_foundry_release(false, 0, false, 1, 2), ReleaseAction::Keep);
    let start = NativeStart {
        label: AsrCallLabel { provider_type: "local-whisper".into(), model: Some("m".into()) },
        generation: 1,
        keep_loaded_secs: 30,
        load: NativeLoad::Whisper { model: "m".into(), spoken: "de".into() },
    };
    let mut session = TauriNativeTranscriptionSession::opened(start, Ok(0)).unwrap();
    assert_eq!(session.asr_call_label().unwrap().model.as_deref(), Some("m"));
    session.consume_pcm_chunk(&[0; 3_200]);
    assert!(matches!(
        session.begin_finish(0),
        NativeRun::Whisper { pcm, spoken } if pcm.len() == 3_200 && spoken == "de"
    ));
    let reply = NativeReply::Text { text: "t".into(), duration_ms: 7 };
    let (output, plan) = session.finish(reply, "");
    assert_eq!(output.unwrap().duration_ms, 100);
    assert_eq!(plan, ReleasePlan::IfIdle { wait_secs: 30 });
    assert_eq!(session.cancel(), NativeCancel::Nobody);
    let options = windows_sendinput_options_from_prefs(NewlineMode::ShiftEnter);
    assert_eq!(options.newline_mode, NewlineMode::ShiftEnter);
}
