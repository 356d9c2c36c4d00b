use openless::insertion::{
    insert, insert_call, keystrokes_after, InsertCall, InsertDevice, InsertMoment, InsertSettings,
    NewlineMode, TauriTextInserter, TsfResult, WayResults, WindowsInsertionMode,
};
use openless::selection::{InsertOutcome, PastePreferences};
use openless::types::{BackendErrorCode, InsertStatus, Platform};
use openless::windows_ime::{
    describe_snapshot, map_ime_status_to_insert_status, restore_attempted, restore_decision,
    run_restore_flow, should_fallback_after_ime_result, ImeProfileSnapshot, ImeSubmitStatus,
    PrepareStep, PreparedWindowsImeSession, ProfileRestoreDecision, RestoreOutcome, RestoreStep,
    WindowsImeSessionController, WindowsImeSessionError,
};

/// Performs the flow with a restore that is counted and a look whose answer
/// is always `openless_active`.
fn perform(saved: &ImeProfileSnapshot, openless_active: Option<bool>) -> (RestoreOutcome, u32) {
    let mut restore_calls = 0;
    let mut step = run_restore_flow(saved);
    loop {
        match step {
            RestoreStep::Finished(outcome) => return (outcome, restore_calls),
            RestoreStep::Restore { profile, attempt, .. } => {
                assert_eq!(describe_snapshot(&profile), describe_snapshot(saved));
                restore_calls += 1;
                step = restore_attempted(profile, attempt, openless_active);
            }
        }
    }
}

fn keyboard() -> ImeProfileSnapshot {
    ImeProfileSnapshot::keyboard_layout(0x0409, 0x0409_0409)
}

#[test]
fn committed_ime_result_maps_to_inserted() {
    assert_eq!(
        map_ime_status_to_insert_status(ImeSubmitStatus::Committed),
        InsertStatus::Inserted
    );
}

#[test]
fn rejected_ime_result_requests_fallback() {
    assert!(should_fallback_after_ime_result(ImeSubmitStatus::Rejected));
    assert!(should_fallback_after_ime_result(ImeSubmitStatus::Failed));
    assert!(!should_fallback_after_ime_result(ImeSubmitStatus::Committed));
}

#[test]
fn submit_prepared_reports_unavailable_session() {
    let result = WindowsImeSessionController::submit_prepared(
        &PreparedWindowsImeSession::unavailable(),
        Ok(ImeSubmitStatus::Committed),
    );

    assert!(
        matches!(result, Err(WindowsImeSessionError::Ipc(message)) if message == "OpenLess IME session is not active")
    );
}

#[test]
fn restore_decision_uses_confirmed_activation_state_only() {
    let activated =
        PreparedWindowsImeSession { saved_profile: Some(keyboard()), openless_activated: true };
    assert_eq!(
        restore_decision(
            activated.has_saved_profile(),
            activated.openless_was_activated(),
            activated.activation_failed_with_saved_profile(),
        ),
        ProfileRestoreDecision::RestoreSavedProfile
    );

    let unavailable = PreparedWindowsImeSession::unavailable();
    assert_eq!(
        restore_decision(
            unavailable.has_saved_profile(),
            unavailable.openless_was_activated(),
            unavailable.activation_failed_with_saved_profile(),
        ),
        ProfileRestoreDecision::KeepCurrentProfile
    );
}

#[test]
fn activation_failed_session_keeps_snapshot_but_cannot_submit() {
    let prepared = PreparedWindowsImeSession::activation_failed(keyboard());

    assert!(prepared.has_saved_profile());
    assert!(!prepared.openless_was_activated());
    assert!(!prepared.is_ready_for_tsf_submit());
    assert!(prepared.activation_failed_with_saved_profile());
}

#[test]
fn restore_flow_skips_when_saved_profile_is_openless_itself() {
    let (outcome, restore_calls) = perform(
        &ImeProfileSnapshot::text_service(
            0x0804,
            "{6b9f3f4f-5ee7-42d6-9c61-9f80b03a5d7d}".to_string(),
            "{9b5f5e04-23f6-47da-9a26-d221f6c3f02e}".to_string(),
        ),
        Some(false),
    );

    assert_eq!(outcome, RestoreOutcome::SkippedSticky);
    assert_eq!(restore_calls, 0);
}

#[test]
fn restore_flow_verifies_without_retry_when_openless_no_longer_active() {
    let (outcome, restore_calls) = perform(&keyboard(), Some(false));

    assert_eq!(outcome, RestoreOutcome::Verified);
    assert_eq!(restore_calls, 1);
}

#[test]
fn restore_flow_retries_once_when_openless_stays_active() {
    let (outcome, restore_calls) = perform(&keyboard(), Some(true));

    assert_eq!(outcome, RestoreOutcome::FailedAfterRetry);
    assert_eq!(restore_calls, 2);
}

#[test]
fn restore_flow_treats_restore_error_with_verified_profile_as_success() {
    // Whether the restore reported an error plays no part: the look decides.
    let (outcome, _) = perform(&keyboard(), Some(false));

    assert_eq!(outcome, RestoreOutcome::Verified);
}

#[test]
fn restore_flow_retries_when_verification_check_errors() {
    let (outcome, restore_calls) = perform(&keyboard(), None);

    assert_eq!(outcome, RestoreOutcome::FailedAfterRetry);
    assert_eq!(restore_calls, 2);
}

#[test]
fn snapshots_are_described_for_the_log() {
    assert_eq!(
        describe_snapshot(&keyboard()),
        "kind=KeyboardLayout lang=0x0409 clsid=none profile=none"
    );
}

#[test]
fn only_windows_prepares_and_both_steps_must_succeed() {
    let linux = WindowsImeSessionController::new(Platform::Linux);
    assert!(!linux.prepare_session(Ok(keyboard()), Ok(())).has_saved_profile());
    let windows = WindowsImeSessionController::new(Platform::Windows);
    assert!(windows.prepare_session(Ok(keyboard()), Ok(())).is_ready_for_tsf_submit());
    assert!(windows
        .prepare_session(Ok(keyboard()), Err("no".to_string()))
        .activation_failed_with_saved_profile());
    assert!(!windows.prepare_session(Err("no".to_string()), Ok(())).has_saved_profile());

    assert!(matches!(windows.profile_captured(Ok(keyboard())), PrepareStep::Activate { .. }));
    let failed = windows.profile_captured(Err("no".to_string()));
    assert!(matches!(failed, PrepareStep::Finished(p) if !p.has_saved_profile()));
    let elsewhere = linux.profile_captured(Ok(keyboard()));
    assert!(matches!(elsewhere, PrepareStep::Finished(p) if !p.openless_was_activated()));
    let taken = WindowsImeSessionController::openless_activated(keyboard(), Ok(()));
    assert!(taken.is_ready_for_tsf_submit());
}

fn ways(tsf: TsfResult) -> WayResults {
    WayResults {
        tsf,
        typed: InsertStatus::Failed,
        copied: InsertStatus::CopiedFallback,
        pasted: InsertStatus::PasteSent,
    }
}

#[test]
fn an_unknown_outcome_is_not_repeated() {
    let tsf = WindowsInsertionMode::Tsf;
    let unknown = insert(Platform::Windows, tsf, true, ways(TsfResult::OutcomeUnknown));
    assert_eq!(unknown.unwrap(), InsertOutcome::Unknown);
    let failed = insert(Platform::Windows, tsf, true, ways(TsfResult::Failed));
    assert_eq!(failed.unwrap(), InsertOutcome::CopiedFallback);
    let refused = insert(Platform::Windows, tsf, false, ways(TsfResult::NotPrepared));
    assert_eq!(refused.unwrap_err().code, BackendErrorCode::Platform);
}

#[test]
fn every_way_gets_the_text_that_was_asked_for() {
    let settings = |mode| InsertSettings {
        mode,
        allow_fallback: true,
        newline_mode: NewlineMode::ShiftEnter,
        paste: PastePreferences { restore_clipboard: true, shortcut: 2 },
        android_strategy: 5,
    };
    let moment = InsertMoment { secs: 0, nanos: 0, target: Some(3) };
    let windows = InsertDevice::Desktop(Platform::Windows);
    let call = |device, mode, prepared| {
        insert_call(1, "hi".into(), device, settings(mode), prepared, moment)
    };
    match call(windows, WindowsInsertionMode::Tsf, true) {
        InsertCall::Submit(request) => {
            assert_eq!(request.session_id, "00000000-0000-0000-0000-000000000001");
            assert_eq!((request.text.as_str(), request.target), ("hi", Some(3)));
            assert_eq!(request.created_at.as_deref(), Some("1970-01-01T00:00:00+00:00"));
        }
        other => panic!("{other:?}"),
    }
    assert!(matches!(call(windows, WindowsInsertionMode::Tsf, false), InsertCall::Nothing));
    let typed = call(windows, WindowsInsertionMode::SendInput, true);
    assert!(matches!(
        typed,
        InsertCall::Keystrokes { text, options }
            if text == "hi" && options.newline_mode == NewlineMode::ShiftEnter
    ));
    let mac = InsertDevice::Desktop(Platform::MacOs);
    let pasted = call(mac, WindowsInsertionMode::Tsf, true);
    assert!(matches!(pasted, InsertCall::Paste(p) if p.text == "hi" && p.preferences.shortcut == 2));
    let android = call(InsertDevice::Android, WindowsInsertionMode::Paste, true);
    assert!(matches!(android, InsertCall::Android { text, strategy: 5 } if text == "hi"));
    let tsf = settings(WindowsInsertionMode::Tsf);
    let again = keystrokes_after(TsfResult::Failed, "hi".into(), tsf);
    assert!(matches!(again, Some(InsertCall::Keystrokes { text, .. }) if text == "hi"));
    assert!(keystrokes_after(TsfResult::OutcomeUnknown, "hi".into(), tsf).is_none());
}

#[test]
fn a_cancel_during_preparation_gives_the_input_method_back_once() {
    let mut inserter = TauriTextInserter::new();
    assert!(inserter.prepare(7, Platform::Windows, WindowsInsertionMode::Tsf));
    assert!(inserter.take(7).is_none());
    let late = PreparedWindowsImeSession::activation_failed(keyboard());
    assert!(inserter.finish_prepare(7, late).is_some());
    assert!(inserter.take(7).is_none());
    assert!(!inserter.prepare(8, Platform::Windows, WindowsInsertionMode::Paste));

    assert!(inserter.prepare(9, Platform::Windows, WindowsInsertionMode::Tsf));
    let ready = PreparedWindowsImeSession::activation_failed(keyboard());
    assert!(inserter.finish_prepare(9, ready).is_none());
    assert!(inserter.take(9).is_some());
    assert!(inserter.take(9).is_none());
}

#[test]
fn only_an_input_method_that_was_taken_is_given_back() {
    let controller = WindowsImeSessionController::new(Platform::Windows);
    let taken = controller.prepare_session(Ok(keyboard()), Ok(()));
    let first = WindowsImeSessionController::restore_session(&taken).unwrap();
    assert!(matches!(
        first,
        RestoreStep::Restore {
            profile: ImeProfileSnapshot::KeyboardLayout { lang_id: 0x0409, .. },
            attempt: 0,
            wait_ms: 0,
        }
    ));
    let failed = controller.prepare_session(Ok(keyboard()), Err("busy".into()));
    assert!(WindowsImeSessionController::restore_session(&failed).is_none());
    let unseen = controller.prepare_session(Err("no profile".into()), Ok(()));
    assert!(WindowsImeSessionController::restore_session(&unseen).is_none());
}
