use openless::selection::PastePreferences;
use openless::selection_voice::{
    apply_selection_voice_preview_ticket, begin_selection_voice_session,
    check_selection_voice_target, confirm_selection_voice_preview,
    continue_confirmed_selection_voice_intent, core_error, end_selection_voice_session,
    finish_selection_voice_preview, handle_selection_voice_recorder_error, replacement_outcome,
    selection_voice_blocks_other_recording, selection_voice_end_message,
    selection_voice_user_message, target_for_session, target_to_check, voice_disposition,
    voice_press_done, voice_processing_marked, voice_transcript_ready, ApplyError, Disposition,
    IntentPrompt, SelectionVoiceApplyOutcome, SelectionVoiceApplyTicket,
    SelectionVoiceHostState, SelectionVoicePhase, VoiceEndNext, VoiceKeyAction, VoiceRefusal,
};
use openless::selection_voice_run::{
    capsule_words, edit_done, finish_cancelled_selection_voice_host, question_asked,
    run_selection_voice_edit, run_selection_voice_question, start_selection_voice_edit,
    voice_empty_cancelled,
    voice_recorder_started, EditAction, EditNext, PanelStep, VoiceCapsule,
};
use openless::types::{BackendError, BackendErrorCode, InsertStatus};
use openless::voice_transcript::{
    finish_selection_voice_transcript, start_selection_voice_recorder, voice_recorder_broke,
    voice_recorder_muted, voice_stream_opened, RecorderNext, VoiceAsrKind, VoiceEffect,
    VoiceError,
};

fn recording(id: u128) -> SelectionVoiceHostState {
    let mut host = SelectionVoiceHostState::new();
    let (begun, capsule) = begin_selection_voice_session(&mut host, Ok(id), Some(3)).unwrap();
    assert_eq!(begun, id);
    assert!(matches!(capsule, VoiceCapsule::Recording));
    host
}

fn busy() -> BackendError {
    BackendError::new(BackendErrorCode::Busy, "x")
}

#[test]
fn a_spoken_session_takes_selection_and_microphone() {
    let host = recording(7);
    assert!(selection_voice_blocks_other_recording(&host));
    assert_eq!(target_for_session(&host, 7).unwrap(), Some(3));
    assert_eq!(target_for_session(&host, 8).unwrap_err(), VoiceRefusal::TargetUnavailable);
    let mut free = SelectionVoiceHostState::new();
    let refused = begin_selection_voice_session(&mut free, Err(busy()), Some(3)).unwrap_err();
    assert_eq!(refused, "selectionVoiceBusy");
    assert_eq!(free, SelectionVoiceHostState::new());
}

#[test]
fn a_recorder_that_fails_frees_everything() {
    let mut host = recording(7);
    assert!(handle_selection_voice_recorder_error(&mut host, 8, "late").is_none());
    assert_eq!(host.recorder_session_id, Some(7));
    let failure = handle_selection_voice_recorder_error(&mut host, 7, "unplugged").unwrap();
    assert_eq!(failure.cancel_session, Some(7));
    assert_eq!((failure.message.as_str(), failure.hide_after_ms), ("unplugged", 2500));
    assert_eq!(host, SelectionVoiceHostState::new());

    let mut host = recording(7);
    assert!(voice_recorder_broke(&mut host, 8, "late").is_none());
    let (effects, failure) = voice_recorder_broke(&mut host, 7, "unplugged").unwrap();
    assert_eq!(effects, vec![VoiceEffect::StopRecorder, VoiceEffect::CancelAsr]);
    assert_eq!(failure.message, "录音设备异常: unplugged");
    assert_eq!(host, SelectionVoiceHostState::new());

    let mut host = recording(7);
    assert!(voice_recorder_started(&mut host, 7, Ok(())).is_ok());
    let failure = voice_recorder_started(&mut host, 7, Err("no mic".into())).unwrap_err();
    assert_eq!((failure.cancel_session, failure.error.as_str()), (7, "no mic"));
    assert_eq!(host, SelectionVoiceHostState::new());
}

#[test]
fn what_was_said_goes_to_the_backend() {
    let mut host = recording(7);
    let ready = voice_transcript_ready(&mut host, 7, Ok("make it short".into()));
    assert!(matches!(ready, VoiceEndNext::ProcessTranscript { session_id: 7, text } if text == "make it short"));
    assert!(!host.blocks_recording);
    assert_eq!(host.target_session_id, Some(7));

    let mut host = recording(7);
    assert!(matches!(voice_transcript_ready(&mut host, 7, Ok("  ".into())), VoiceEndNext::CancelEmpty(7)));
    let shown = voice_empty_cancelled(&mut host, 7, Ok(())).unwrap();
    assert_eq!(capsule_words(&shown), Some("未识别到指令"));
    assert!(matches!(shown, VoiceCapsule::NothingSaid { hide_after_ms: 2000 }));
    assert_eq!(host, SelectionVoiceHostState::new());
    let failure = voice_empty_cancelled(&mut host, 7, Err(busy())).unwrap_err();
    assert_eq!(failure.message, "选区语音会话进行中");

    let mut host = recording(7);
    let failed = voice_transcript_ready(&mut host, 7, Err("whisper global timeout".into()));
    assert!(matches!(failed, VoiceEndNext::Failed(f) if f.message == "语音识别超时，请重试"));
    assert_eq!(host, SelectionVoiceHostState::new());
}

#[test]
fn a_stop_ends_only_a_recording() {
    let end = end_selection_voice_session;
    assert!(matches!(end(SelectionVoicePhase::Preview, Some(1)), VoiceEndNext::Nothing));
    assert!(matches!(end(SelectionVoicePhase::Recording, Some(1)), VoiceEndNext::MarkProcessing(1)));
    assert!(matches!(
        end(SelectionVoicePhase::Recording, None),
        VoiceEndNext::Refused(VoiceRefusal::SessionUnavailable)
    ));
    assert!(matches!(voice_processing_marked(Ok(())), Ok(VoiceCapsule::Hidden)));
    assert_eq!(voice_processing_marked(Err(busy())).unwrap_err(), "selectionVoiceBusy");
}

#[test]
fn the_backend_says_what_is_meant() {
    let mut host = recording(7);
    let asks = || Disposition::Question { session_id: 7, instruction: "why".into() };
    let asked = voice_disposition(&mut host, 7, Ok(Disposition::AwaitingIntent));
    assert!(matches!(asked, VoiceEndNext::ShowIntentPrompt));
    let question = voice_disposition(&mut host, 7, Ok(asks()));
    assert!(matches!(
        question,
        VoiceEndNext::AskQuestion { session_id: 7, instruction } if instruction == "why"
    ));
    let (prompt, confirmed) =
        continue_confirmed_selection_voice_intent(&mut host, 7, Disposition::Edit(7));
    assert_eq!(prompt, IntentPrompt::Hide);
    assert!(matches!(confirmed, VoiceEndNext::Edit(7)));
    assert_eq!(host.target_session_id, Some(7));
    let (_, again) =
        continue_confirmed_selection_voice_intent(&mut host, 7, Disposition::AwaitingIntent);
    assert!(matches!(again, VoiceEndNext::Failed(f) if f.message == "selectionVoiceIntentPromptUnavailable"));
    assert_eq!(host.target_session_id, None);
    let mut host = recording(7);
    let failed = voice_disposition(&mut host, 7, Err(busy()));
    assert!(matches!(failed, VoiceEndNext::Failed(f) if f.cancel_session == Some(7)));
}

#[test]
fn questions_and_changes_take_their_steps() {
    let steps = run_selection_voice_question(7, "why".into());
    assert_eq!(steps.len(), 4);
    assert!(matches!(steps[1], PanelStep::SetEditMode(false)));
    assert!(matches!(&steps[2], PanelStep::Submit(t) if t == "why"));
    assert!(matches!(steps[3], PanelStep::Complete(7)));
    let mut host = recording(7);
    assert!(question_asked(&mut host, 7, Ok(())).is_ok());
    assert_eq!(host, SelectionVoiceHostState::new());
    assert!(question_asked(&mut recording(7), 7, Err(busy())).is_err());

    let mut host = recording(7);
    let start = start_selection_voice_edit(7);
    assert!(start.session_id == 7 && start.instruction.is_none());
    assert!(matches!(start.capsule, VoiceCapsule::Working));
    let open = EditAction::OpenConversation { instruction: "shorter".into() };
    match run_selection_voice_edit(&mut host, 7, Ok(open)).unwrap() {
        EditNext::Panel(steps) => assert!(matches!(steps[1], PanelStep::SetEditMode(true))),
        other => panic!("{other:?}"),
    }
    let apply = EditAction::ReadyToApply { text: "short".into() };
    let next = run_selection_voice_edit(&mut host, 7, Ok(apply)).unwrap();
    assert!(matches!(next, EditNext::Confirm(t) if t == "short"));
    assert!(matches!(edit_done(&mut host, 7, Ok(())).unwrap(), VoiceCapsule::Hidden));
    assert_eq!(host.target_session_id, Some(7));
    let failure = edit_done(&mut host, 7, Err("edit plan has no operations".into())).unwrap_err();
    assert_eq!(failure.message, "未能生成有效编辑方案，请重试");
    assert_eq!(host.target_session_id, None);
    assert!(run_selection_voice_edit(&mut host, 7, Err(busy())).is_err());
    let mut host = recording(7);
    finish_cancelled_selection_voice_host(&mut host, None);
    assert_eq!(host.target_session_id, Some(7));
    finish_cancelled_selection_voice_host(&mut host, Some(7));
    assert_eq!(host, SelectionVoiceHostState::new());
    assert_eq!(capsule_words(&VoiceCapsule::Working), Some("正在生成编辑…"));
    assert_eq!(capsule_words(&VoiceCapsule::Recording), None);
}

fn ticket(session_id: u128) -> SelectionVoiceApplyTicket {
    SelectionVoiceApplyTicket {
        ticket_id: 70,
        session_id,
        source_text: "old".into(),
        replacement_text: "new".into(),
    }
}

#[test]
fn a_change_is_applied_to_its_own_selection() {
    let apply = confirm_selection_voice_preview("  new ", None, false).unwrap();
    assert_eq!((apply.text.as_str(), apply.owner), ("new", None));
    let apply = confirm_selection_voice_preview("new", Some(3), true).unwrap();
    assert_eq!(apply.owner, Some(3));
    assert_eq!(
        confirm_selection_voice_preview(" ", Some(3), true).unwrap_err(),
        VoiceRefusal::EmptyOutput
    );
    assert_eq!(
        confirm_selection_voice_preview("new", Some(3), false).unwrap_err(),
        VoiceRefusal::PreviewUnavailable
    );
    let mut host = recording(7);
    let preferences = PastePreferences { restore_clipboard: true, shortcut: 2 };
    let check = |host: &SelectionVoiceHostState, id, reactivated, problem| {
        check_selection_voice_target(host, &ticket(id), reactivated, problem, preferences)
    };
    let looked_at = target_to_check(&host, &ticket(7)).unwrap();
    assert_eq!(looked_at.source_text, "old");
    assert_eq!(looked_at.target, host.insertion_target);
    assert!(target_to_check(&host, &ticket(8)).is_err());
    let paste = check(&host, 7, true, None).unwrap();
    assert_eq!((paste.text.as_str(), paste.preferences), ("new", preferences));
    assert!(check(&host, 7, false, None).is_err());
    let stale = check(&host, 8, true, None).unwrap_err();
    assert_eq!(stale.text(), "selectionVoiceTargetUnavailable");
    let changed = check(&host, 7, true, Some("changed".into())).unwrap_err();
    assert!(matches!(&changed, ApplyError::Invalid(c) if c == "changed"));
    assert!(apply_selection_voice_preview_ticket(Err(changed)).is_err());
    let failed = apply_selection_voice_preview_ticket(Ok(InsertStatus::Failed));
    let report = replacement_outcome(&ticket(7), &failed);
    assert_eq!(report.ticket_id, 70);
    assert_eq!(report.outcome, SelectionVoiceApplyOutcome::Failed);
    let error = finish_selection_voice_preview(&mut host, &ticket(7), failed, Ok(())).unwrap_err();
    assert_eq!(error.text(), "selectionVoiceInsertFailed");
    assert_eq!(host.target_session_id, Some(7));
    let sent = || apply_selection_voice_preview_ticket(Ok(InsertStatus::PasteSent));
    assert_eq!(
        replacement_outcome(&ticket(7), &sent()).outcome,
        SelectionVoiceApplyOutcome::PasteSent
    );
    let unrecorded =
        finish_selection_voice_preview(&mut host, &ticket(7), sent(), Err(busy())).unwrap_err();
    assert_eq!(unrecorded.text(), "selectionVoiceBusy");
    assert_eq!(host.target_session_id, Some(7));
    let capsule = finish_selection_voice_preview(&mut host, &ticket(7), sent(), Ok(())).unwrap();
    assert!(matches!(capsule, VoiceCapsule::Hidden));
    assert_eq!(host, SelectionVoiceHostState::new());
}

#[test]
fn a_press_that_is_done_frees_the_key() {
    let mut host = recording(7);
    host.auto_press_at_ms = Some(1);
    let mut busy = true;
    assert_eq!(voice_press_done(&mut host, &mut busy, VoiceKeyAction::Begin, None), None);
    assert_eq!((busy, host.auto_press_at_ms), (false, Some(1)));
    let words = voice_press_done(
        &mut host,
        &mut busy,
        VoiceKeyAction::Begin,
        Some("dictationActive".into()),
    );
    assert_eq!(words.as_deref(), Some("正在听写，请先结束录音"));
    assert_eq!(host.auto_press_at_ms, None);
    assert_eq!(voice_press_done(&mut host, &mut busy, VoiceKeyAction::End, None), None);
}

#[test]
fn failures_are_put_into_words() {
    assert_eq!(selection_voice_user_message("selectionVoiceNoSelection"), "请先选中文字");
    assert_eq!(selection_voice_user_message("other"), "other");
    assert_eq!(
        selection_voice_end_message("parse: invalid EditPlan JSON at 3"),
        "编辑方案解析失败，请重试"
    );
    assert_eq!(selection_voice_end_message("translation unchanged"), "翻译结果与原文相同，请重试或调整指令");
    let core = |code, message: &str| core_error(BackendError::new(code, message));
    assert_eq!(
        core(BackendErrorCode::InvalidArgument, "unknown intent: dance "),
        "selectionVoiceInvalidIntent:dance"
    );
    assert_eq!(
        core(BackendErrorCode::InvalidArgument, "bad intent"),
        "selectionVoiceInvalidIntent"
    );
    assert_eq!(
        core(BackendErrorCode::InvalidState, "no preview"),
        "selectionVoicePreviewUnavailable"
    );
    assert_eq!(core(BackendErrorCode::Internal, "plain"), "plain");
}

#[test]
fn the_recorder_of_a_spoken_session_is_stopped_when_given_up() {
    let (effects, next) = voice_recorder_muted(false, None);
    assert_eq!(effects.len(), 2);
    assert!(matches!(next, RecorderNext::Finished(Ok(()))));
    assert!(matches!(
        voice_recorder_muted(true, Some("Desk".into())).1,
        RecorderNext::StartRecorder { microphone: Some(m) } if m == "Desk"
    ));
    let (effects, next) = start_selection_voice_recorder(true, Ok(true));
    assert!(matches!(effects[0], VoiceEffect::SetArchiveActive(true)));
    assert!(matches!(next, RecorderNext::OpenStream));
    let (effects, _) = start_selection_voice_recorder(false, Ok(true));
    assert!(matches!(effects[0], VoiceEffect::DropRecorder));
    let (_, next) = start_selection_voice_recorder(true, Err("busy".into()));
    assert!(matches!(next, RecorderNext::Finished(Err(VoiceError::Message(m))) if m == "busy"));
    assert!(voice_stream_opened(None).1.is_ok());
    let (effects, failed) = voice_stream_opened(Some("net".into()));
    assert_eq!(effects.len(), 2);
    assert!(failed.is_err());
    let (effects, wait) = finish_selection_voice_transcript(Some(VoiceAsrKind::Xfyun));
    assert_eq!(effects, vec![VoiceEffect::StopRecorder]);
    assert!(wait.unwrap().send_last_frame);
    assert!(matches!(
        finish_selection_voice_transcript(None).1.unwrap_err(),
        VoiceError::AsrUnavailable
    ));
}
