use openless::fcitx::{
    atomic_write, available, commit_text, commit_text_reply, dbus_error, ensure_plugin_installed,
    selection_text, set_custom_dictation_trigger, set_hotkeys, set_less_computer_hotkey_raw,
    set_raw_hotkey, staging_name, system_library_paths, system_plugin_available,
    user_plugin_available, write_step_error, Fcitx5TextInserter, FcitxArguments,
    FcitxPluginInstallPlan, FcitxPluginStatus, InsertStep, InstallFindings, LinuxPackageKind,
    LinuxResourceLayout, TargetRead, WriteStep,
};
use openless::linux_fcitx;
use openless::linux_fcitx::{
    call_result, dictation_signal_event, set_hotkey, set_hotkey_raw, sync_binding_to_plugin,
    CallOutcome, HotkeyEvent, HotkeyTrigger,
};
use openless::selection::InsertOutcome;
use openless::types::{BackendError, BackendErrorCode, Platform};

#[test]
fn appimage_plan_copies_only_from_the_versioned_resource_contract() {
    let layout = LinuxResourceLayout {
        package_kind: LinuxPackageKind::AppImage,
        resource_root: "/app/usr/lib/openless/resources".into(),
    };
    let plan = FcitxPluginInstallPlan::for_layout(&layout, "/home/test", Ok(())).unwrap();
    assert!(plan.copy_required);
    assert_eq!(
        plan.source_library.unwrap(),
        "/app/usr/lib/openless/resources/linux-fcitx5-plugin/libopenless.so"
    );
    assert_eq!(plan.target_config, "/home/test/.local/share/fcitx5/addon/openless.conf");
}

#[test]
fn system_packages_never_copy_bundled_plugins_into_home() {
    let layout = LinuxResourceLayout {
        package_kind: LinuxPackageKind::SystemPackage,
        resource_root: "/usr/lib/openless/resources".into(),
    };
    let plan = FcitxPluginInstallPlan::for_layout(&layout, "/home/test", Ok(())).unwrap();
    assert!(!plan.copy_required);
    assert!(plan.source_library.is_none());
    assert!(plan.source_config.is_none());
}

fn plan(kind: LinuxPackageKind) -> FcitxPluginInstallPlan {
    let layout = LinuxResourceLayout { package_kind: kind, resource_root: "/r".into() };
    FcitxPluginInstallPlan::for_layout(&layout, "/h", Ok(())).unwrap()
}

#[test]
fn resources_that_cannot_be_reached_matter_only_to_an_appimage() {
    let layout = |package_kind| LinuxResourceLayout { package_kind, resource_root: "/r".into() };
    let lost = || Err(BackendError::new(BackendErrorCode::InvalidArgument, "no resources"));
    let refused =
        FcitxPluginInstallPlan::for_layout(&layout(LinuxPackageKind::AppImage), "/h", lost());
    assert_eq!(refused.unwrap_err().message, "no resources");
    let system = layout(LinuxPackageKind::SystemPackage);
    assert!(FcitxPluginInstallPlan::for_layout(&system, "/h", lost()).is_ok());
    let bare = FcitxPluginInstallPlan::for_layout(&system, "", Ok(())).unwrap();
    assert_eq!(bare.target_library, ".local/lib/fcitx5/libopenless.so");
    let slashed = FcitxPluginInstallPlan::for_layout(&system, "/h/", Ok(())).unwrap();
    assert_eq!(slashed.target_library, "/h/.local/lib/fcitx5/libopenless.so");
}

fn findings(library: &[u8], target: TargetRead) -> InstallFindings {
    InstallFindings {
        system_available: false,
        user_available: false,
        bundled_library: Ok(library.to_vec()),
        bundled_config: Ok(vec![9]),
        target_library: target,
        target_config: TargetRead::Bytes(vec![9]),
    }
}

#[test]
fn only_what_changed_is_written() {
    let same = findings(&[1, 2], TargetRead::Bytes(vec![1, 2]));
    let ready = ensure_plugin_installed(&plan(LinuxPackageKind::AppImage), same).unwrap();
    assert_eq!(ready.status, FcitxPluginStatus::Ready);
    assert!(ready.write_library.is_none());

    let newer = findings(&[1, 3], TargetRead::Bytes(vec![1, 2]));
    let updated = ensure_plugin_installed(&plan(LinuxPackageKind::AppImage), newer).unwrap();
    assert_eq!(updated.status, FcitxPluginStatus::Updated);
    assert_eq!(updated.write_library, Some(vec![1, 3]));
    assert!(updated.write_config.is_none());

    let fresh = findings(&[1], TargetRead::Missing);
    let installed = ensure_plugin_installed(&plan(LinuxPackageKind::AppImage), fresh).unwrap();
    assert_eq!(installed.write_library, Some(vec![1]));
}

#[test]
fn a_broken_bundle_is_reported() {
    let empty = findings(&[], TargetRead::Missing);
    let error = ensure_plugin_installed(&plan(LinuxPackageKind::AppImage), empty).unwrap_err();
    assert_eq!(error.code, BackendErrorCode::Platform);
    assert_eq!(error.message, "fcitx5 resource /r/linux-fcitx5-plugin/libopenless.so is empty");

    let unreadable = findings(&[1], TargetRead::Failed("denied".into()));
    let error = ensure_plugin_installed(&plan(LinuxPackageKind::AppImage), unreadable).unwrap_err();
    assert_eq!(
        error.message,
        "failed to read existing fcitx5 file /h/.local/lib/fcitx5/libopenless.so: denied"
    );

    let mut torn = plan(LinuxPackageKind::AppImage);
    torn.source_library = None;
    let error = ensure_plugin_installed(&torn, findings(&[1], TargetRead::Missing)).unwrap_err();
    assert_eq!(error.code, BackendErrorCode::InvalidArgument);
    let mut torn = plan(LinuxPackageKind::AppImage);
    torn.source_config = None;
    let error = ensure_plugin_installed(&torn, findings(&[1], TargetRead::Missing)).unwrap_err();
    assert_eq!(error.message, "AppImage plugin plan is missing the bundled config");
}

#[test]
fn a_plan_without_a_copy_only_looks() {
    let mut found = findings(&[1], TargetRead::Missing);
    let missing = ensure_plugin_installed(&plan(LinuxPackageKind::Development), found).unwrap();
    assert_eq!(missing.status, FcitxPluginStatus::Missing);
    found = findings(&[1], TargetRead::Missing);
    found.system_available = true;
    let ready = ensure_plugin_installed(&plan(LinuxPackageKind::Development), found).unwrap();
    assert_eq!(ready.status, FcitxPluginStatus::Ready);
    assert!(system_plugin_available(&vec![false, true, false], true));
    assert!(!system_plugin_available(&vec![false, true, false], false));
    assert!(!user_plugin_available(true, false));
    assert_eq!(system_library_paths().len(), 3);
}

#[test]
fn a_file_gets_its_name_last() {
    assert_eq!(
        atomic_write(true, true, true).unwrap(),
        vec![
            WriteStep::CreateDirectory,
            WriteStep::Stage,
            WriteStep::MakeExecutable,
            WriteStep::RemoveOld,
            WriteStep::Commit,
        ]
    );
    assert_eq!(atomic_write(true, false, false).unwrap().len(), 3);
    assert_eq!(
        atomic_write(false, false, false).unwrap_err().message,
        "fcitx5 target has no parent directory"
    );
    assert_eq!(staging_name(Some("openless.conf"), 42), ".openless.conf.42.tmp");
    assert_eq!(staging_name(None, 7), ".openless.7.tmp");
    assert_eq!(
        write_step_error(WriteStep::Commit, "full").message,
        "failed to commit fcitx5 resource: full"
    );
}

#[test]
fn the_clipboard_stands_behind_the_plugin() {
    let lost = || Err(BackendError::new(BackendErrorCode::Platform, "no focus"));
    let with = Fcitx5TextInserter::new(true);
    let without = Fcitx5TextInserter::new(false);
    assert!(matches!(
        with.commit_tried(Platform::Linux, "hi", lost()),
        InsertStep::Copy(text) if text == "hi"
    ));
    let done = with.commit_tried(Platform::Linux, "hi", Ok(()));
    assert!(matches!(done, InsertStep::Finished(Ok(InsertOutcome::Inserted))));
    let given_up = without.commit_tried(Platform::Linux, "hi", lost());
    assert!(matches!(given_up, InsertStep::Finished(Err(e)) if e.message == "no focus"));
    let elsewhere = with.commit_tried(Platform::Windows, "hi", lost());
    assert!(matches!(elsewhere, InsertStep::Finished(Err(_))));
    assert_eq!(Fcitx5TextInserter::copy_tried(lost()).unwrap_err().message, "no focus");
    assert_eq!(with.insert(Platform::Linux, "hi", Ok(()), lost()).unwrap(), InsertOutcome::Inserted);
    assert_eq!(
        with.insert(Platform::Linux, "hi", lost(), Ok(())).unwrap(),
        InsertOutcome::CopiedFallback
    );
    assert_eq!(without.insert(Platform::Linux, "hi", lost(), Ok(())).unwrap_err().message, "no focus");
    assert_eq!(
        with.insert(Platform::MacOs, "hi", Ok(()), Ok(())).unwrap_err().code,
        BackendErrorCode::Unsupported
    );
}

#[test]
fn the_plugin_is_asked_only_on_linux() {
    let call = commit_text(Platform::Linux, "hi".into()).unwrap();
    assert_eq!(call.method, "CommitText");
    assert!(matches!(call.arguments, FcitxArguments::Text(t) if t == "hi"));
    assert_eq!(set_hotkeys(Platform::Linux, vec!["a".into()]).unwrap().method, "SetHotkey");
    let raw = set_less_computer_hotkey_raw(Platform::Linux, 5, 1).unwrap();
    assert!(matches!(raw.arguments, FcitxArguments::Key { symbol: 5, states: 1 }));
    assert_eq!(set_raw_hotkey(Platform::Linux, "SetHotkeyRaw", 1, 0).unwrap().method, "SetHotkeyRaw");
    assert_eq!(
        set_custom_dictation_trigger(Platform::Linux, "F9".into()).unwrap().method,
        "SetCustomDictationTrigger"
    );
    assert_eq!(selection_text(Platform::Linux).unwrap().method, "GetSelectionText");
    assert_eq!(
        selection_text(Platform::Windows).unwrap_err().message,
        "fcitx5 is only available on Linux"
    );
    assert!(available(Platform::Linux, true));
    assert!(!available(Platform::MacOs, true));
    assert!(commit_text_reply(Ok(true)).is_ok());
    assert_eq!(
        commit_text_reply(Ok(false)).unwrap_err().message,
        "fcitx5 has no focused input context for text insertion"
    );
    assert_eq!(dbus_error("gone").message, "fcitx5 DBus service is unavailable: gone");
}

fn key_of(trigger: HotkeyTrigger) -> Option<(u32, u32)> {
    sync_binding_to_plugin(trigger).map(|call| match call.arguments {
        FcitxArguments::Key { symbol, states } => {
            assert_eq!(call.method, "SetHotkeyRaw");
            (symbol, states)
        }
        other => panic!("{other:?}"),
    })
}

#[test]
fn modifiers_go_to_the_plugin_by_number() {
    assert_eq!(key_of(HotkeyTrigger::RightControl), Some((0xffe4, 0)));
    assert_eq!(key_of(HotkeyTrigger::LeftControl), Some((0xffe3, 0)));
    assert_eq!(key_of(HotkeyTrigger::RightAlt), key_of(HotkeyTrigger::RightOption));
    assert_eq!(key_of(HotkeyTrigger::LeftOption), Some((0xffe9, 0)));
    assert_eq!(key_of(HotkeyTrigger::RightCommand), Some((0xffec, 0)));
    assert_eq!(key_of(HotkeyTrigger::Fn), Some((0xffeb, 0)));
    assert_eq!(key_of(HotkeyTrigger::Custom), None);
    assert_eq!(dictation_signal_event(true), HotkeyEvent::Pressed);
    assert_eq!(dictation_signal_event(false), HotkeyEvent::Released);
}

#[test]
fn calls_of_the_windowed_host_say_what_went_wrong() {
    let call = linux_fcitx::commit_text("hi");
    assert!(matches!(&call.arguments, FcitxArguments::Text(t) if t == "hi"));
    assert!(call_result(&call, CallOutcome::Answered).is_ok());
    let failed = |outcome| call_result(&call, outcome).unwrap_err();
    assert_eq!(failed(CallOutcome::NoSession("x".into())), "dbus session: x");
    assert_eq!(failed(CallOutcome::NotBuilt("x".into())), "build msg: x");
    assert_eq!(failed(CallOutcome::NoReply("x".into())), "CommitText: x");
    let keys = set_hotkey(vec!["Control+space".into()]);
    assert_eq!(keys.method, "SetHotkey");
    assert_eq!(
        call_result(&keys, CallOutcome::NoReply("x".into())).unwrap_err(),
        "SetHotkey: x"
    );
    assert!(linux_fcitx::available(&CallOutcome::Answered));
    assert!(!linux_fcitx::available(&CallOutcome::NoReply("x".into())));
    assert_eq!(set_hotkey_raw(1, 2).method, "SetHotkeyRaw");
}
