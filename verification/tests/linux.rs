use openless::credentials::{
    check_keyring, persist_error, read_metadata, read_secret, remove_secret, CredentialKey,
    ChannelKind, ChannelSummary, CredentialNamespace, KeyringReply, LinuxCredentialStore, MetadataRead, PersistStep,
    PersistedCredentialMetadata, ProviderSlot,
};
use openless::linux_asr::{
    augment_linux_path, check_test_model, configured_models_root, default_root, executable,
    program_unavailable, qwen_engine_available, test_model_arguments, test_model_text, transcribed, LinuxAsrTarget,
    LinuxFinish, LinuxGenericAsrSession, LinuxGenericLocalAsrRuntime, ModelDir, QwenProbe,
    UserDirs,
};
use openless::linux_host::{
    drain_events, DictationHotkeyEdge, Drained, EventDrainOutcome, HotkeyStep, LaunchStep,
    LessComputerHotkeyAction, LinuxHost, LinuxHotkeyEvent, LinuxLaunchIntent, LinuxNativeRuntime, Received, ShutdownStep, VoiceStep,
    WindowAction, selection_polish_request,
};
use openless::local_asr::{native_provider_types, LocalAsrRuntime};
use openless::local_qwen::{
    ensure_tokenizer_json, recognised_text, LocalQwenAsr, QwenRun, TokenizerFiles, TokenizerStep,
};
use openless::types::{BackendError, BackendErrorCode, Platform, PolishMode};
use openless::ui::{
    backend_config, delivery_label, dictation_buttons, finished_line, history_line, history_rows,
    model_line, package_kind, provider_line, task_finished, DownloadPhase, HistoryInsertStatus, HostAction,
    Incoming, ModelsState, OpenLessEguiApp, Refresh, UiAction, UiEvent, UiResult, WindowTask,
};
use openless::wiring::{
    backend_dependencies, linux_transcription_routes, EngineKind, LinuxBackendBuilder, Part,
    PolishFailurePolicy, SettingsPart, SharedParts, SharedProviderTypes,
};

fn key(namespace: CredentialNamespace, provider: Option<&str>) -> CredentialKey {
    CredentialKey {
        namespace,
        provider_id: provider.map(str::to_string),
        account: "api-key".to_string(),
    }
}

fn empty_store() -> LinuxCredentialStore {
    LinuxCredentialStore::open("/data", MetadataRead::Missing).unwrap()
}

#[test]
fn metadata_round_trips_without_secret_values() {
    let mut store = empty_store();
    let next = store.set_active_provider_immediate(ProviderSlot::Asr, "local-qwen");
    store.update_metadata(next, Ok(())).unwrap();
    let created = ChannelSummary {
        kind: ChannelKind::Asr,
        id: "channel-1".into(),
        provider_type: "openai-compatible".into(),
        name: "Primary".into(),
    };
    let next = store.mutate_channel(Ok(vec![created]));
    store.update_metadata(next, Ok(())).unwrap();

    let persisted = format!("{:?}", store.state);
    let reopened =
        LinuxCredentialStore::open("/data", MetadataRead::Parsed(store.state)).unwrap();
    assert_eq!(reopened.active_provider(ProviderSlot::Asr), "local-qwen");
    assert_eq!(reopened.list_channels(ChannelKind::Asr).len(), 1);
    assert!(!persisted.contains("secret"));
    assert!(!persisted.contains("password"));
}

#[test]
fn the_record_keeps_providers_channels_and_keys() {
    let mut store = empty_store();
    assert_eq!(store.metadata_path, "/data/credential-metadata.json");
    let next = store.set_active_provider_immediate(ProviderSlot::Asr, " local-qwen ");
    store.update_metadata(next, Ok(())).unwrap();
    let next = store.write(key(CredentialNamespace::Asr, Some("local-qwen")));
    store.update_metadata(Ok(next), Ok(())).unwrap();
    let refused = BackendError::new(BackendErrorCode::InvalidArgument, "unknown channel");
    let next = store.mutate_channel(Err(refused));
    assert_eq!(store.update_metadata(next, Ok(())).unwrap_err().message, "unknown channel");

    let reopened =
        LinuxCredentialStore::open("/data", MetadataRead::Parsed(store.state)).unwrap();
    assert_eq!(reopened.active_provider(ProviderSlot::Asr), "local-qwen");
    assert_eq!(reopened.active_provider(ProviderSlot::Llm), "");
    assert!(reopened.list_channels(ChannelKind::Llm).is_empty());
    assert_eq!(reopened.state.keys.len(), 1);
    assert!(reopened.channel_has_key("local-qwen"));
}

#[test]
fn a_change_that_was_not_written_is_not_kept() {
    let mut store = empty_store();
    let disk = || Err(persist_error(PersistStep::Commit, "full"));
    let next = store.set_active_provider_immediate(ProviderSlot::Llm, "ark");
    let error = store.update_metadata(next, disk()).unwrap_err();
    assert_eq!(error.message, "failed to commit Linux credential metadata: full");
    assert_eq!(store.active_provider(ProviderSlot::Llm), "");
    let refused = store.set_active_provider_immediate(ProviderSlot::Llm, " ");
    let error = store.update_metadata(refused, Ok(())).unwrap_err();
    assert_eq!(error.message, "active provider id must not be blank");
}

#[test]
fn secrets_are_known_once_and_forgotten_whole() {
    let mut store = empty_store();
    for _ in 0..2 {
        let next = store.write(key(CredentialNamespace::Asr, Some("volcengine")));
        store.update_metadata(Ok(next), Ok(())).unwrap();
    }
    let next = store.write(key(CredentialNamespace::Omni, None));
    store.update_metadata(Ok(next), Ok(())).unwrap();
    assert_eq!(store.state.keys.len(), 2);
    let status = store.status("volcengine".into(), "ark".into(), false);
    assert_eq!(status.active_asr_provider, "volcengine");
    assert!(status.asr_configured && status.volcengine_configured && status.omni_configured);
    assert!(!status.llm_configured && !status.ark_configured);
    let next = store.remove(&key(CredentialNamespace::Asr, Some("volcengine")));
    store.update_metadata(Ok(next), Ok(())).unwrap();
    assert!(!store.status("volcengine".into(), "ark".into(), false).asr_configured);
    assert_eq!(store.state.keys.len(), 1);
}

#[test]
fn bad_records_are_refused() {
    assert_eq!(
        LinuxCredentialStore::open("", MetadataRead::Missing).unwrap_err().code,
        BackendErrorCode::InvalidArgument
    );
    let newer = PersistedCredentialMetadata {
        version: 2,
        active_asr_provider: String::new(),
        active_llm_provider: String::new(),
        channels: Vec::new(),
        keys: Vec::new(),
    };
    assert_eq!(
        read_metadata(MetadataRead::Parsed(newer)).unwrap_err().message,
        "Linux credential metadata is newer than this application"
    );
    assert_eq!(
        read_metadata(MetadataRead::Invalid("eof".into())).unwrap_err().message,
        "invalid Linux credential metadata: eof"
    );
    assert_eq!(
        read_metadata(MetadataRead::Failed("io".into())).unwrap_err().message,
        "failed to read Linux credential metadata: io"
    );
}

#[test]
fn a_missing_secret_is_no_failure() {
    assert_eq!(read_secret(KeyringReply::NoEntry).unwrap(), None);
    assert_eq!(read_secret(KeyringReply::Done("s".into())).unwrap().as_deref(), Some("s"));
    assert_eq!(
        read_secret(KeyringReply::Failed("locked".into())).unwrap_err().message,
        "Linux credential vault operation failed: locked"
    );
    assert!(remove_secret(KeyringReply::NoEntry).is_ok());
    assert!(remove_secret(KeyringReply::Failed("x".into())).is_err());
    assert!(check_keyring(Platform::Linux).is_ok());
    assert_eq!(check_keyring(Platform::MacOs).unwrap_err().code, BackendErrorCode::Unsupported);
}

fn qwen(model: &str) -> LinuxAsrTarget {
    LinuxAsrTarget {
        runtime: LocalAsrRuntime::Generic,
        model_id: model.to_string(),
        is_qwen: true,
    }
}

fn dirs() -> UserDirs {
    UserDirs { data_home: None, home: Some("/home/u".into()), temporary: "/tmp".into() }
}

#[test]
fn generic_local_asr_runtime_tracks_real_model_files_and_lifecycle() {
    let mut runtime = LinuxGenericLocalAsrRuntime::from_models_root("/old".into());
    let dir = || ModelDir { parent: Some("/root/OpenLess/models".into()), ready: true };
    let id = runtime.prepare(qwen("qwen3-asr-0.6b"), dir(), false).unwrap();
    assert_eq!(id, "qwen3-asr-0.6b");
    assert_eq!(runtime.root, "/root/OpenLess/models");
    assert!(runtime.runtime_status(false).loaded);
    runtime.preload(&qwen("qwen3-asr-0.6b"), dir()).unwrap();
    runtime.release(LocalAsrRuntime::SherpaOnnx);
    assert!(runtime.runtime_status(true).loaded);
    runtime.release(LocalAsrRuntime::Generic);
    assert!(!runtime.runtime_status(true).loaded);
    assert_eq!(
        runtime.preload(&qwen("qwen3-asr-0.6b"), dir()).unwrap_err().message,
        "prepare a local ASR model before preloading"
    );
}

#[test]
fn shared_builder_restores_custom_model_root_and_filters_unsupported_models() {
    assert_eq!(
        configured_models_root(Some("/data/external".into()), &dirs()),
        "/data/external/OpenLess/models"
    );
    assert!(LinuxGenericLocalAsrRuntime::supports_model(&qwen("qwen3-asr-0.6b")));
    let mut whisper = qwen("whisper");
    whisper.is_qwen = false;
    assert!(!LinuxGenericLocalAsrRuntime::supports_model(&whisper));
}

#[test]
fn relative_and_blank_roots_do_not_count() {
    let default = "/home/u/.local/share/OpenLess/models";
    assert_eq!(configured_models_root(Some("models".into()), &dirs()), default);
    assert_eq!(configured_models_root(Some("  ".into()), &dirs()), default);
    assert_eq!(configured_models_root(None, &dirs()), default);
    let xdg = UserDirs { data_home: Some("/xdg".into()), home: None, temporary: "/tmp".into() };
    assert_eq!(default_root(&xdg), "/xdg/OpenLess/models");
    let empty = UserDirs { data_home: Some("".into()), ..dirs() };
    assert_eq!(default_root(&empty), "OpenLess/models");
    let bare = UserDirs { data_home: None, home: None, temporary: "/tmp".into() };
    assert_eq!(default_root(&bare), "/tmp/.local/share/OpenLess/models");
}

#[test]
fn preparing_can_fail_in_three_ways() {
    let mut runtime = LinuxGenericLocalAsrRuntime::from_models_root("/r".into());
    let mut other = qwen("x");
    other.runtime = LocalAsrRuntime::Foundry;
    let dir = |ready| ModelDir { parent: None, ready };
    assert_eq!(
        runtime.prepare(other, dir(true), false).unwrap_err().code,
        BackendErrorCode::Unsupported
    );
    assert_eq!(
        runtime.prepare(qwen("m"), dir(false), false).unwrap_err().message,
        "local ASR model is not downloaded: m"
    );
    assert_eq!(
        runtime.prepare(qwen("m"), dir(true), true).unwrap_err().code,
        BackendErrorCode::Cancelled
    );
    assert!(runtime.loaded_model.is_none());
    runtime.cancel_prepare(LocalAsrRuntime::Generic).unwrap();
    assert!(runtime.cancelled);
    assert!(runtime.cancel_prepare(LocalAsrRuntime::Foundry).is_err());
    runtime.rebind_storage("/new".into());
    assert_eq!(runtime.root, "/new");
}

#[test]
fn models_are_tried_out_only_when_everything_is_there() {
    assert!(check_test_model(&qwen("m"), true, true).is_ok());
    assert_eq!(
        check_test_model(&qwen("m"), false, true).unwrap_err().message,
        "local ASR model is not downloaded"
    );
    assert_eq!(
        check_test_model(&qwen("m"), true, false).unwrap_err().code,
        BackendErrorCode::Unsupported
    );
    assert_eq!(test_model_arguments("/m", "/a.wav"), vec!["-d", "/m", "/a.wav"]);
    assert_eq!(test_model_text(true, " hi \n", "").unwrap(), "hi");
    assert_eq!(test_model_text(false, "", " bad \n").unwrap_err().message, "bad");
}

#[test]
fn the_program_is_found_by_path_or_by_asking() {
    assert!(matches!(qwen_engine_available(Some("/opt/q".into())), QwenProbe::IsFile(p) if p == "/opt/q"));
    assert!(matches!(qwen_engine_available(Some("q".into())), QwenProbe::AskVersion(p) if p == "q"));
    assert!(matches!(qwen_engine_available(None), QwenProbe::AskVersion(p) if p == "qwen_asr"));
    assert_eq!(executable(None), "qwen_asr");
    assert!(LinuxGenericLocalAsrRuntime::engine_available(LocalAsrRuntime::Generic, true));
    assert!(!LinuxGenericLocalAsrRuntime::engine_available(LocalAsrRuntime::Foundry, true));
    assert_eq!(
        augment_linux_path(Some("/h"), "/usr/bin:/bin").unwrap(),
        "/h/.local/bin:/h/.npm-global/bin:/h/.bun/bin:/usr/bin:/bin"
    );
    assert_eq!(
        augment_linux_path(Some("/h/"), "").unwrap(),
        "/h/.local/bin:/h/.npm-global/bin:/h/.bun/bin:"
    );
    assert!(augment_linux_path(None, "/bin").is_none());
    assert!(augment_linux_path(Some("/a:b"), "/bin").is_none());
}

#[test]
fn a_recording_for_the_program_ends_in_a_run() {
    let mut session = LinuxGenericAsrSession::start(Some("m".into()));
    session.consume_pcm_chunk(&vec![0; 32_000]);
    match session.finish("/models", true).unwrap() {
        LinuxFinish::Run { pcm, duration_ms, arguments } => {
            assert_eq!(pcm.len(), 32_000);
            assert_eq!(duration_ms, 1000);
            assert_eq!(arguments, vec!["--stdin", "--silent", "-d", "/models/m"]);
        }
        LinuxFinish::Silence(_) => panic!("there was sound"),
    }
    match session.finish("/models", true).unwrap() {
        LinuxFinish::Silence(t) => assert_eq!((t.text.as_str(), t.duration_ms), ("", 0)),
        LinuxFinish::Run { .. } => panic!("the sound was taken"),
    }
    session.consume_pcm_chunk(&vec![1]);
    assert_eq!(
        session.finish("/models", false).unwrap_err().message,
        "Linux local ASR model is not prepared: m"
    );
    session.cancel();
    session.consume_pcm_chunk(&vec![1]);
    assert!(session.pcm.is_empty());
    assert_eq!(session.finish("/models", true).unwrap_err().code, BackendErrorCode::Cancelled);
}

#[test]
fn what_the_program_prints_becomes_the_transcript() {
    assert_eq!(transcribed(true, " text \n", "", 7).unwrap().text, "text");
    assert_eq!(
        transcribed(false, "", "  ", 7).unwrap_err().message,
        "Linux Generic/Qwen ASR failed"
    );
    assert_eq!(transcribed(false, "", "oom\n", 7).unwrap_err().message, "oom");
    assert_eq!(
        program_unavailable("x").message,
        "Linux Generic/Qwen ASR runtime unavailable: x"
    );
}

#[test]
fn the_built_in_recogniser_hears_whole_recordings() {
    let mut asr = LocalQwenAsr::new();
    assert!(matches!(asr.transcribe(), QwenRun::Silence(_)));
    asr.consume_pcm_chunk(&vec![0; 16_000]);
    asr.consume_pcm_chunk(&vec![0; 16_001]);
    assert_eq!(asr.buffer_duration_ms(), 1000);
    match asr.transcribe() {
        QwenRun::Decode { pcm, duration_ms } => assert_eq!((pcm.len(), duration_ms), (32_001, 1000)),
        QwenRun::Silence(_) => panic!("there was sound"),
    }
    asr.consume_pcm_chunk(&vec![1, 2]);
    asr.cancel();
    assert_eq!(asr.buffer_duration_ms(), 0);
    assert_eq!(recognised_text(" a b \n"), "a b");
}

#[test]
fn tokens_are_described_once() {
    let files = |tokenizer, vocab, merges| TokenizerFiles { tokenizer, vocab, merges };
    assert_eq!(ensure_tokenizer_json(files(true, false, false), "/m").unwrap(), TokenizerStep::Reuse);
    assert_eq!(ensure_tokenizer_json(files(false, true, true), "/m").unwrap(), TokenizerStep::Generate);
    assert_eq!(
        ensure_tokenizer_json(files(false, true, false), "/m").unwrap_err(),
        "Qwen3-ASR MLX 模型缺少 tokenizer.json、vocab.json 或 merges.txt: /m"
    );
}

#[test]
fn draining_stops_at_the_first_gap() {
    let (events, outcome) = drain_events(&vec![Received::Event(1), Received::Event(2)]);
    assert_eq!(events, vec![1, 2]);
    assert_eq!(outcome, EventDrainOutcome::Idle { processed: 2 });
    let (events, outcome) =
        drain_events(&vec![Received::Event(1), Received::Lagged(9), Received::Event(2)]);
    assert_eq!(events, vec![1]);
    assert_eq!(outcome, EventDrainOutcome::Lagged { processed: 1, dropped: 9 });
    assert_eq!(
        drain_events(&vec![Received::Closed]).1,
        EventDrainOutcome::Closed { processed: 0 }
    );
}

#[test]
fn the_translation_key_arms_one_dictation() {
    let mut host = LinuxHost::new();
    host.dispatch_hotkey_event(LinuxHotkeyEvent::TranslationPressed, false);
    assert!(!host.translation_pending);
    host.dispatch_hotkey_event(LinuxHotkeyEvent::TranslationPressed, true);
    let pressed = |translation_requested| HotkeyStep::Dictation {
        edge: DictationHotkeyEdge::Pressed { at: 5 },
        translation_requested,
    };
    let press = LinuxHotkeyEvent::DictationPressed { at: 5 };
    assert_eq!(host.dispatch_hotkey_event(press, true), pressed(true));
    assert_eq!(host.dispatch_hotkey_event(press, true), pressed(false));
    assert_eq!(
        host.dispatch_hotkey_event(LinuxHotkeyEvent::QaPressed, true),
        HotkeyStep::ToggleQa
    );
}

#[test]
fn the_agents_recording_is_given_out_once() {
    let mut host = LinuxHost::new();
    assert_eq!(
        host.feed_less_computer_pcm().unwrap_err().message,
        "Less Computer voice session is not active"
    );
    assert_eq!(
        host.dispatch_less_computer_edge(LessComputerHotkeyAction::Start),
        VoiceStep::Start
    );
    host.less_computer_started(Ok(6)).unwrap();
    assert_eq!(host.feed_less_computer_pcm().unwrap(), 6);
    assert_eq!(
        host.dispatch_less_computer_edge(LessComputerHotkeyAction::Finish),
        VoiceStep::Finish(6)
    );
    assert_eq!(
        host.dispatch_less_computer_edge(LessComputerHotkeyAction::Cancel),
        VoiceStep::Nothing
    );
    assert!(host
        .less_computer_started(Err(BackendError::new(BackendErrorCode::Busy, "x")))
        .is_err());
}

#[test]
fn native_runtime_starts_pumps_and_shuts_down_without_ui() {
    let runtime = LinuxNativeRuntime::start(Ok(()), None, None).unwrap();
    let idle = runtime.pump(nothing(), nothing());
    assert_eq!(idle.launch_intents, 0);
    assert_eq!(idle.hotkey_events, 0);
    assert!(idle.outcomes.is_empty());
    assert!(idle.errors.is_empty());
    assert_eq!(runtime.shutdown(), vec![ShutdownStep::ShutDownBackend]);
}

fn nothing<E>() -> Drained<E> {
    Drained { count: 0, error: None }
}

#[test]
fn the_backend_stops_after_its_listeners() {
    let runtime = LinuxNativeRuntime::start(Ok(()), Some(1), Some(2)).unwrap();
    assert_eq!(
        runtime.shutdown(),
        vec![
            ShutdownStep::DropListener(2),
            ShutdownStep::DropListener(1),
            ShutdownStep::ShutDownBackend
        ]
    );
    let failed = BackendError::new(BackendErrorCode::Internal, "x");
    assert!(LinuxNativeRuntime::start(Err(failed), None, None).is_err());
}

#[test]
fn a_round_collects_outcomes_and_errors() {
    let broker = Drained { count: 2, error: Some("socket".to_string()) };
    let hotkeys = Drained {
        count: 1,
        error: Some(BackendError::new(BackendErrorCode::Unsupported, "dbus")),
    };
    let runtime = LinuxNativeRuntime::start(Ok(()), Some(1), Some(2)).unwrap();
    let mut round = runtime.pump(broker, hotkeys);
    assert_eq!((round.launch_intents, round.hotkey_events), (2, 1));
    assert_eq!(round.errors[0].code, BackendErrorCode::Platform);
    assert_eq!(round.errors[1].message, "dbus");
    round.collect(Ok(Some(4)));
    round.collect(Ok(None));
    round.collect(Err(BackendError::new(BackendErrorCode::Busy, "x")));
    assert_eq!(round.outcomes, vec![4]);
    assert_eq!(round.errors.len(), 3);
    let shown = LinuxHost::dispatch_launch_intent(LinuxLaunchIntent::ShowMain);
    assert!(matches!(shown, LaunchStep::Windows(w) if w == vec![WindowAction::ShowMain, WindowAction::FocusMain]));
    let command = LinuxHost::dispatch_launch_intent(LinuxLaunchIntent::Cli(3));
    assert!(matches!(command, LaunchStep::Command(3)));
}

#[test]
fn the_window_follows_the_backend() {
    let mut ui = OpenLessEguiApp::new(None);
    assert_eq!(ui.status, "Core 2.0 已启动");
    assert_eq!(ui.transcript_line(), "尚无转写结果");
    ui.apply_event(UiEvent::TranscriptDelta { text: "a".into() });
    ui.apply_event(UiEvent::TranscriptDelta { text: "b".into() });
    ui.apply_event(UiEvent::PolishDelta { text: "x".into(), is_final: false });
    assert_eq!(ui.transcript_line(), "ab");
    ui.apply_event(UiEvent::DictationCompleted {
        polished_text: "AB".into(),
        inserted: "Inserted".into(),
    });
    assert_eq!((ui.transcript.as_str(), ui.status.as_str()), ("AB", "听写完成：Inserted"));
    ui.press_start();
    assert_eq!(ui.transcript, "");
    assert_eq!(ui.press_run(" do it").as_deref(), Some(" do it"));
    assert_eq!(ui.press_run(" "), None);
    ui.apply_event(UiEvent::AgentApproval { token: "t".into(), command: "rm".into() });
    assert_eq!(ui.approval_line().as_deref(), Some("请求执行：rm"));
    assert_eq!(ui.press_answer(false), Some(("t".to_string(), false)));
    assert_eq!(ui.press_answer(true), None);
    assert_eq!(ui.approval_line(), None);
    ui.settings_saved(Ok(()));
    assert_eq!(ui.status, "设置已保存");
    ui.settings_saved(Err("stale".into()));
    assert_eq!(ui.status, "stale");
    ui.receive(task_finished(WindowTask::Approve, Ok(())));
    assert_eq!(ui.status, "审批已提交");
    ui.receive(task_finished(WindowTask::Download, Err("net".into())));
    assert_eq!(ui.status, "net");
    ui.apply_event(UiEvent::AgentApproval { token: "t".into(), command: "rm".into() });
    assert_eq!(ui.less_computer_line(), "尚无 Agent 输出");
    ui.apply_event(UiEvent::AgentDelta { text: "out".into() });
    ui.apply_event(UiEvent::AgentCompleted { text: "whole".into() });
    assert_eq!(ui.less_computer_line(), "out");
    assert!(ui.pending_approval.is_none());
    ui.receive(UiResult::Models(Ok(vec![])));
    assert_eq!(ui.models_line(), Some("模型目录未返回任何可用模型"));
    let progress = |phase| UiEvent::DownloadProgress {
        model_id: "m".into(),
        phase,
        bytes_downloaded: 10,
        bytes_total: 205,
    };
    assert_eq!(ui.apply_event(progress(DownloadPhase::Progress)), Refresh::Nothing);
    assert_eq!(ui.status, "模型 m：Progress 10/205");
    assert!(matches!(ui.models, ModelsState::Loaded(_)));
    assert_eq!(ui.apply_event(progress(DownloadPhase::Failed)), Refresh::Models);
    assert_eq!(ui.models_line(), Some("正在加载模型目录…"));
    assert_eq!(ui.apply_event(UiEvent::PreferencesChanged), Refresh::Preferences);
    ui.receive(UiResult::Models(Err("offline".into())));
    assert_eq!((ui.models_line(), ui.status.as_str()), (Some("offline"), "offline"));
    ui.press_refresh();
    assert!(matches!(ui.models, ModelsState::Loading));
}

#[test]
fn a_round_of_the_window_takes_everything_in_order() {
    let mut ui = OpenLessEguiApp::new(Some("no bus".into()));
    assert_eq!(ui.status, "启动失败");
    assert_eq!(ui.startup_error.as_deref(), Some("no bus"));
    let out = ui.poll(Incoming {
        error: Some("listener".into()),
        actions: vec![
            HostAction::ShowMain,
            HostAction::OpenExternalUrl("u".into()),
            HostAction::RequestRestart,
            HostAction::ShowQa,
        ],
        events: vec![
            UiEvent::TranscriptDelta { text: "a".into() },
            UiEvent::PreferencesChanged,
        ],
        results: vec![],
    });
    assert!(matches!(out.actions[0], UiAction::Show));
    assert!(matches!(&out.actions[1], UiAction::Open(u) if u == "u"));
    assert!(matches!(out.actions[2], UiAction::Nothing));
    assert!(matches!(out.actions[3], UiAction::Nothing));
    assert_eq!(out.refreshes, vec![Refresh::Nothing, Refresh::Preferences]);
    assert_eq!((ui.status.as_str(), ui.transcript.as_str()), ("请手动重启 OpenLess", "a"));
    let quiet = |error: Option<&str>, results| Incoming {
        error: error.map(str::to_string),
        actions: vec![],
        events: vec![],
        results,
    };
    ui.poll(quiet(Some("listener"), vec![]));
    assert_eq!(ui.status, "listener");
    ui.poll(quiet(Some("listener"), vec![UiResult::Message("done".into())]));
    assert_eq!(ui.status, "done");
}

#[test]
fn lines_of_the_window() {
    assert_eq!(history_rows(3), vec![2, 1, 0]);
    assert_eq!(history_rows(30).len(), 20);
    assert_eq!(history_rows(30)[0], 29);
    assert_eq!(history_line("now", HistoryInsertStatus::PasteSent, "hi"), "now · 已发送粘贴 · hi");
    assert_eq!(delivery_label(HistoryInsertStatus::NotRequested), "未请求插入");
    assert_eq!(model_line("Qwen", "qwen3", false), "Qwen · qwen3 · 未安装");
    assert_eq!(provider_line("ASR", "volcengine", true), "ASR：volcengine（已配置）");
    assert_eq!(finished_line("你好ab"), "完成：4 字");
    let buttons = dictation_buttons(false, true);
    assert!(!buttons.start && buttons.stop && buttons.cancel);
}

#[test]
fn the_program_finds_its_directories() {
    let dirs = backend_config(Some("/h".into()), None, Some("/c".into())).unwrap();
    assert_eq!(dirs.data_dir, "/h/.local/share/OpenLess");
    assert_eq!(dirs.cache_dir, "/c/OpenLess");
    let bare = backend_config(Some("".into()), None, Some("/c/".into())).unwrap();
    assert_eq!((bare.data_dir.as_str(), bare.cache_dir.as_str()), (".local/share/OpenLess", "/c/OpenLess"));
    assert_eq!(
        backend_config(None, None, None).unwrap_err(),
        "HOME/XDG_DATA_HOME is unavailable"
    );
    assert_eq!(
        backend_config(None, Some("/d".into()), None).unwrap_err(),
        "HOME/XDG_CACHE_HOME is unavailable"
    );
    assert_eq!(package_kind(true, true), openless::fcitx::LinuxPackageKind::AppImage);
    assert_eq!(package_kind(false, true), openless::fcitx::LinuxPackageKind::Development);
}

#[test]
fn a_host_fills_the_gaps_with_its_own_parts() {
    let parts = LinuxBackendBuilder::new(1, 2).build(Ok(()), Ok(())).unwrap();
    assert_eq!(parts.recorder, Part::Own);
    assert_eq!(parts.auxiliary_polisher, 2);
    assert_eq!(parts.settings_runtime, SettingsPart::WithCredentials);
    assert_eq!(parts.polish_failure_policy, PolishFailurePolicy::UseRawText);
    let given = LinuxBackendBuilder::new(1, 2)
        .with_recorder(3)
        .with_auxiliary_polisher(4)
        .with_credential_store(5)
        .with_text_inserter(6)
        .with_host_actions(7)
        .with_polish_failure_policy(PolishFailurePolicy::Fail);
    let broken = || Err(BackendError::new(BackendErrorCode::Persistence, "no"));
    let parts = given.build(Ok(()), broken()).unwrap();
    assert_eq!(parts.recorder, Part::Given(3));
    assert_eq!(parts.text_inserter, Part::Given(6));
    assert_eq!(parts.host_actions, Part::Given(7));
    assert_eq!(parts.settings_runtime, SettingsPart::HotkeysOnly);
    assert_eq!(parts.polish_failure_policy, PolishFailurePolicy::Fail);
    assert!(LinuxBackendBuilder::new(1, 2).build(Ok(()), broken()).is_err());
    assert!(given.build(broken(), Ok(())).is_err());
}

#[test]
fn every_provider_has_an_engine() {
    let shared = SharedProviderTypes {
        asr: vec!["whisper".into()],
        llm: vec!["ark".into()],
        omni: vec!["omni".into()],
    };
    let host = backend_dependencies(Platform::Linux, false, true, &shared);
    assert_eq!(host.transcription[0].engine, EngineKind::Cloud);
    assert_eq!(host.transcription[1].engine, EngineKind::Local);
    assert_eq!(host.transcription[1].provider, "local-qwen3");
    assert_eq!(host.transcription.len(), 1 + native_provider_types(Platform::Linux).len());
    let local: Vec<&str> =
        host.transcription[1..].iter().map(|route| route.provider.as_str()).collect();
    assert_eq!(local, vec!["local-qwen3", "local-qwen3-mlx", "local-qwen3-c"]);
    assert_eq!(host.polisher[0].provider, "ark");
    assert_eq!(host.omni.len(), 1);
    let remote = host.remote_input.unwrap();
    assert_eq!((remote.port, remote.locale), (8443, "zh-CN"));
    assert!(host.model_store && host.selection && host.qa);
    let mobile = backend_dependencies(Platform::Linux, true, false, &shared);
    assert_eq!(mobile.transcription.len(), 1);
    assert!(!mobile.selection && !mobile.model_store && mobile.qa);
    assert!(mobile.remote_input.is_none());
    let routes = linux_transcription_routes(&shared.asr);
    let providers: Vec<&str> = routes.iter().map(|r| r.provider.as_str()).collect();
    assert_eq!(providers, vec!["whisper", "local-qwen3", "local-qwen3-c"]);
}

fn shared_parts() -> SharedParts {
    SharedParts {
        transcription: 1,
        polisher: 2,
        auxiliary_polisher: 3,
        services: 4,
        local_asr_runtime: 5,
        marketplace_config: 6,
        settings_runtime: 7,
    }
}

#[test]
fn the_shared_builder_fills_every_part() {
    let builder = LinuxBackendBuilder::from_shared_providers(Ok(9), Ok(()), shared_parts()).unwrap();
    let parts = builder.build(Ok(()), Ok(())).unwrap();
    assert_eq!(parts.transcription, 1);
    assert_eq!(parts.auxiliary_polisher, 3);
    assert_eq!(parts.host_actions, Part::Own);
    assert_eq!(parts.credential_store, Part::Given(9));
}

#[test]
fn shared_provider_builder_registers_the_core_marketplace_service() {
    let builder = LinuxBackendBuilder::from_shared_providers(Ok(9), Ok(()), shared_parts()).unwrap();
    assert!(builder.marketplace_config.is_some());
    assert_eq!(builder.build(Ok(()), Ok(())).unwrap().marketplace_config, Some(6));
    assert!(LinuxBackendBuilder::new(1, 2).marketplace_config.is_none());
}

#[test]
fn shared_providers_need_a_store_and_their_routes() {
    let error = |m: &str| BackendError::new(BackendErrorCode::Persistence, m);
    let closed = LinuxBackendBuilder::from_shared_providers(
        Err(error("closed")),
        Err(error("blank id")),
        shared_parts(),
    );
    assert_eq!(closed.unwrap_err().message, "closed");
    let unrouted =
        LinuxBackendBuilder::from_shared_providers(Ok(9), Err(error("blank id")), shared_parts());
    assert_eq!(unrouted.unwrap_err().message, "blank id");
}

#[test]
fn a_selection_is_polished_in_the_chosen_style() {
    let request = selection_polish_request(Ok(PolishMode::Light)).unwrap();
    assert_eq!(request.mode, PolishMode::Light);
    assert!(request.selected_text.is_none() && request.instruction.is_none());
    let missing = BackendError::new(BackendErrorCode::InvalidArgument, "no such pack");
    assert_eq!(selection_polish_request(Err(missing)).unwrap_err().message, "no such pack");
}

#[test]
fn a_record_is_staged_beside_the_old_one() {
    let store = LinuxCredentialStore::open("/data", MetadataRead::Missing).unwrap();
    assert_eq!(store.staging_path(42), "/data/credential-metadata.json.42.tmp");
}
