use openless::platform::{
    builds_qwen_asr, current_permission_snapshot, hotkey_status, map_permission_state,
    map_recorder_error, microphone_devices, pairing_pin_error, parse_provider_kind,
    recorder_call, recorder_started, recorder_step_error, recorder_stopped, remote_backend, request, target_os, window_step_taken, HotkeyStatus,
    InputDevice, PermissionState, PermissionStatus, ProviderKind, RecorderError, RecorderStarted,
    RecorderStep, RemoteFacts, Removal, TargetOs, TauriActiveRecording, TauriRecordingArchive,
    TauriRemoteInputRuntimeAdapter, WindowFacts, WindowStep,
};
use openless::qa::{PanelTargets, TauriQaHostContext};
use openless::types::{BackendError, BackendErrorCode};
use openless::ui::HostAction;

#[test]
fn platform_permission_mapping_preserves_every_legacy_state() {
    let cases = [
        (PermissionStatus::Granted, PermissionState::Granted),
        (PermissionStatus::Denied, PermissionState::Denied),
        (PermissionStatus::NotDetermined, PermissionState::Unknown),
        (PermissionStatus::Restricted, PermissionState::Restricted),
        (PermissionStatus::NotApplicable, PermissionState::Unsupported),
        (PermissionStatus::NoDevice, PermissionState::NoDevice),
    ];

    for (legacy, core) in cases {
        assert_eq!(map_permission_state(legacy), core);
    }
}

#[test]
fn both_permissions_are_shown() {
    let shown =
        current_permission_snapshot(PermissionStatus::Denied, PermissionStatus::NotApplicable);
    assert_eq!(shown.microphone, PermissionState::Denied);
    assert_eq!(shown.accessibility, PermissionState::Unsupported);
}

#[test]
fn recorder_failures_keep_their_class() {
    assert_eq!(
        map_recorder_error(&RecorderError::PermissionDenied, "no").code,
        BackendErrorCode::PermissionDenied
    );
    assert_eq!(
        map_recorder_error(&RecorderError::EngineFailed("x".into()), "no").code,
        BackendErrorCode::Platform
    );
    assert_eq!(
        map_recorder_error(&RecorderError::NoInputDevice, "none").message,
        "none"
    );
    assert_eq!(
        recorder_step_error(RecorderStep::ResolvePath, "x").message,
        "resolve dictation recording path: x"
    );
    assert_eq!(
        recorder_step_error(RecorderStep::StopTask, "x").code,
        BackendErrorCode::Internal
    );
}

#[test]
fn microphones_are_known_by_their_names() {
    let found = vec![InputDevice { name: "USB".into(), is_default: true }];
    let offered = microphone_devices(false, Ok(found)).unwrap();
    assert_eq!(offered.len(), 1);
    assert_eq!((offered[0].id.as_str(), offered[0].is_default), ("USB", true));
    assert!(microphone_devices(true, Ok(Vec::new())).unwrap().is_empty());
}

#[test]
fn mobile_devices_have_no_global_keys() {
    let current = || HotkeyStatus {
        available: true,
        failed: false,
        message: None,
        error_code: None,
        error_message: None,
    };
    assert!(hotkey_status(false, current()).available);
    let mobile = hotkey_status(true, current());
    assert!(mobile.failed);
    assert_eq!(mobile.error_code.as_deref(), Some("unavailable"));
}

#[test]
fn a_kept_recording_is_discarded_once() {
    let mut archive = TauriRecordingArchive::new("/a.wav".into(), true);
    assert_eq!(archive.file_to_discard().as_deref(), Some("/a.wav"));
    let error = archive.discard(Removal::Failed("busy".into())).unwrap_err();
    assert_eq!(error.message, "discard dictation recording archive: busy");
    assert!(archive.is_available());
    archive.discard(Removal::NotFound).unwrap();
    assert!(!archive.is_available());
    archive.discard(Removal::Failed("ignored".into())).unwrap();
    assert_eq!(archive.file_to_discard(), None);
}

#[test]
fn a_recorder_is_stopped_once() {
    let call = || recorder_call(Some("Desk".into()), Ok("/a.wav".into())).unwrap();
    assert_eq!(call().microphone.as_deref(), Some("Desk"));
    assert_eq!(
        recorder_call(None, Err("disk".into())).unwrap_err().message,
        "resolve dictation recording path: disk"
    );
    match recorder_started(call(), Ok((3, true))) {
        RecorderStarted::Running { mut recording, archive } => {
            assert!(archive.is_available());
            assert_eq!(archive.path, "/a.wav");
            assert_eq!(recording.stop().unwrap(), 3);
            assert_eq!(
                recording.stop().unwrap_err().message,
                "Tauri recorder was already stopped"
            );
        }
        RecorderStarted::RemoveFile { .. } => panic!("the recorder runs"),
    }
    let failed = recorder_started(call(), Err(BackendError::new(BackendErrorCode::Platform, "x")));
    assert!(matches!(
        failed,
        RecorderStarted::RemoveFile { path, error } if path == "/a.wav" && error.message == "x"
    ));
    assert!(recorder_stopped(None).is_ok());
    let lost = recorder_stopped(Some((RecorderError::PermissionDenied, "no".into()))).unwrap_err();
    assert_eq!(lost.code, BackendErrorCode::PermissionDenied);
    assert_eq!(lost.message, "no");
    assert!(TauriActiveRecording { recorder: None }.stop().is_err());
}

#[test]
fn requests_of_the_backend_reach_the_windows() {
    let nothing = || PanelTargets { external: None, focused: None, front_app: None };
    let mut qa = TauriQaHostContext::new();
    let ready = WindowFacts { app_bound: true, capsule_exists: false };
    let bare = WindowFacts { app_bound: false, capsule_exists: false };
    assert_eq!(
        request(&mut qa, HostAction::ShowMain, bare, nothing()).unwrap_err().message,
        "Tauri AppHandle is not bound yet"
    );
    assert_eq!(
        request(&mut qa, HostAction::ShowDictationFeedback, ready, nothing()).unwrap_err().message,
        "Tauri capsule window is unavailable"
    );
    let hide = request(&mut qa, HostAction::HideDictationFeedback, ready, nothing()).unwrap();
    assert!(matches!(hide, WindowStep::Nothing));

    let found =
        PanelTargets { external: None, focused: Some(1), front_app: Some("Mail".into()) };
    let show = request(&mut qa, HostAction::ShowQa, ready, found).unwrap();
    assert!(matches!(show, WindowStep::ShowQa));
    assert!(qa.is_panel_visible());
    assert_eq!((qa.focus_target, qa.front_app.as_deref()), (Some(1), Some("Mail")));
    request(&mut qa, HostAction::ShowQa, bare, nothing()).unwrap_err();
    request(&mut qa, HostAction::HideQa, ready, nothing()).unwrap();
    assert!(!qa.is_panel_visible());
    assert_eq!((qa.focus_target, qa.front_app.as_deref()), (None, None));
    let open = request(&mut qa, HostAction::OpenExternalUrl("u".into()), ready, nothing()).unwrap();
    assert!(matches!(open, WindowStep::OpenUrl(u) if u == "u"));
    assert!(window_step_taken(Ok(())).is_ok());
    let refused = window_step_taken(Err("no browser".into())).unwrap_err();
    assert_eq!((refused.code, refused.message.as_str()), (BackendErrorCode::Platform, "no browser"));
}

#[test]
fn the_server_for_remote_input_is_replaced_only_by_a_running_one() {
    let mut remote = TauriRemoteInputRuntimeAdapter::new();
    let bound = RemoteFacts { app_bound: true, backend_bound: true };
    let url = || vec!["https://host".to_string()];
    let binding = remote.start_server(bound, Ok((1, 8443, url()))).unwrap();
    assert_eq!(binding.port, 8443);
    assert!(!binding.urls_stale);
    remote.start_server(bound, Err("port taken".into())).unwrap_err();
    assert_eq!(remote.server, Some(1));
    let unbound = RemoteFacts { app_bound: true, backend_bound: false };
    assert_eq!(
        remote_backend(unbound).unwrap_err().message,
        "core backend state is unavailable"
    );
    assert_eq!(remote.stop_server(), Some(1));
    assert_eq!(remote.stop_server(), None);
    assert_eq!(pairing_pin_error("x").message, "persist pairing PIN failed: x");
}

#[test]
fn provider_kinds_are_read_by_name() {
    assert_eq!(parse_provider_kind("asr").unwrap(), ProviderKind::Asr);
    assert_eq!(parse_provider_kind("llm").unwrap(), ProviderKind::Llm);
    assert_eq!(parse_provider_kind("omni").unwrap(), ProviderKind::Omni);
    assert_eq!(parse_provider_kind("ASR").unwrap_err(), "unknown provider kind: ASR");
}

#[test]
fn android_is_told_from_linux() {
    assert_eq!(target_os("aarch64-linux-android"), TargetOs::Android);
    assert_eq!(target_os("x86_64-unknown-linux-gnu"), TargetOs::Linux);
    assert_eq!(target_os("aarch64-apple-darwin"), TargetOs::MacOs);
    assert_eq!(target_os("x86_64-pc-windows-msvc"), TargetOs::Other);
    assert!(!builds_qwen_asr(TargetOs::Android));
    assert!(builds_qwen_asr(TargetOs::Linux));
}
