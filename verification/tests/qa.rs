use openless::qa::{
    binding_result, qa_error, AnswerPlan, LinuxQaRuntime, PanelTargets, QaContext, QaFault, QaHost, QaInput,
    QaMessage, QaSession, QaTable, QaTurnRequest, RecordingStart, TauriQaHostCapture,
    TauriQaHostContext, TauriQaRuntimeAdapter,
    VoiceResult,
};
use openless::selection::SelectionCapture;
use openless::types::{BackendError, BackendErrorCode};

fn context(multimodal: bool) -> QaContext {
    QaContext { multimodal, front_app: Some("Editor".into()) }
}

fn found(selection: Option<&str>) -> TauriQaHostCapture {
    TauriQaHostCapture {
        selection_text: selection.map(str::to_string),
        selection_target: Some(5),
        front_app: Some("Editor".into()),
    }
}

fn runtime_session(stamp: u64) -> QaSession {
    QaSession {
        stamp,
        context: Some(context(false)),
        capture: None,
        audio_wav: None,
        selection_text: None,
        selection_target: Some(0),
        front_app: None,
        duration_ms: 0,
        voice_turn: false,
        edit_apply_available: false,
        edit_revert_available: false,
    }
}

fn failure() -> BackendError {
    BackendError::new(BackendErrorCode::Platform, "broken")
}

fn question(id: u128) -> QaTurnRequest {
    QaTurnRequest {
        session_id: id,
        conversation_id: 77,
        input: QaInput { text: "why".into(), selection_text: None },
        messages: vec![QaMessage { role: "user".into(), content: "why".into() }],
        edit_instruction_mode: false,
    }
}

fn edit(selection: &str) -> QaTurnRequest {
    QaTurnRequest {
        input: QaInput { text: "shorten".into(), selection_text: Some(selection.into()) },
        edit_instruction_mode: true,
        ..question(1)
    }
}

#[test]
fn duplicate_session_is_rejected_without_replacing_the_original_owner() {
    let mut sessions = QaTable::new(QaHost::Tauri);
    sessions.insert_session(9, runtime_session(1)).unwrap();
    let error = sessions.insert_session(9, runtime_session(2)).unwrap_err();

    assert_eq!(error.code, BackendErrorCode::Busy);
    assert_eq!(sessions.sessions.get(&9).unwrap().stamp, 1);
}

fn targets(external: Option<u64>, focused: Option<u64>, front_app: Option<&str>) -> PanelTargets {
    PanelTargets { external, focused, front_app: front_app.map(str::to_string) }
}

#[test]
fn host_visibility_follows_show_and_clear() {
    let mut context = TauriQaHostContext::new();
    assert!(!context.is_panel_visible());

    context.prepare_show(targets(None, None, None));
    assert!(context.is_panel_visible());

    context.clear();
    assert!(!context.is_panel_visible());
}

#[test]
fn selection_target_binding_uses_the_narrow_host_callback() {
    let mut context = TauriQaHostContext::new();
    let mut calls = Vec::new();
    context.set_selection_voice_target_binder();

    let request = context.bind_selection_voice_target(77, 0).unwrap();
    calls.push(request.session_id);
    binding_result(Ok(())).unwrap();

    assert_eq!(calls, vec![77]);
}

#[test]
fn without_a_binder_nothing_is_bound() {
    let context = TauriQaHostContext::new();
    let error = context.bind_selection_voice_target(1, 0).unwrap_err();
    assert_eq!(error.code, BackendErrorCode::Unsupported);
    let error = binding_result(Err("gone".into())).unwrap_err();
    assert_eq!((error.code, error.message.as_str()), (BackendErrorCode::Platform, "gone"));
}

#[test]
fn the_window_to_return_to_survives_a_second_show() {
    let mut context = TauriQaHostContext::new();
    context.prepare_show(targets(None, Some(3), Some("Mail")));
    assert_eq!(context.focus_target, Some(3));
    context.prepare_show(targets(None, Some(4), None));
    assert_eq!(context.focus_target, Some(3));
    context.prepare_show(targets(Some(8), Some(4), None));
    assert_eq!(context.focus_target, Some(8));
    assert_eq!(context.refocus_target(None), Some(8));
    let turn = context.capture_turn(None, 2);
    assert_eq!(turn.front_app.as_deref(), Some("Mail"));
    let selected = SelectionCapture { text: "t".into(), source_app: Some("Word".into()) };
    let turn = context.capture_turn(Some(selected), 2);
    assert_eq!(turn.front_app.as_deref(), Some("Word"));
    assert_eq!(turn.selection_text.as_deref(), Some("t"));
}

#[test]
fn a_recording_is_finished_once() {
    let mut qa = TauriQaRuntimeAdapter::new();
    let start = qa.table.begin_recording(1, 10, found(Some("s"))).unwrap();
    assert_eq!(start.session_id, 1);
    assert_eq!(start.selection_text.as_deref(), Some("s"));
    assert_eq!(start.front_app, found(None).front_app);
    assert_eq!(
        qa.table.finish_recording(1).unwrap_err().message,
        "QA recording is not ready"
    );
    let start = RecordingStart::Started { context: context(true), capture: 4 };
    assert!(qa.start_recording(1, 10, start, false).is_ok());
    let lease = qa.table.finish_recording(1).unwrap();
    assert_eq!(lease.capture, 4);
    assert!(qa.table.finish_recording(1).is_err());
    let heard = VoiceResult { duration_ms: 900, audio_wav: Some(vec![1]), transcript: None };
    let input = qa.table.recording_finished(1, lease, Ok(heard), false).unwrap();
    assert_eq!(input.text, "（语音问题）");
    assert_eq!(input.selection_text.as_deref(), Some("s"));
    let done = qa.complete(1).unwrap();
    assert_eq!(done.duration_ms, Some(900));
    assert_eq!(done.raw_transcript_override.as_deref(), Some(""));
    assert_eq!(
        qa.complete(1).unwrap_err().message,
        "QA runtime session is no longer active"
    );
}

#[test]
fn a_cancelled_turn_gives_no_question() {
    let mut qa = TauriQaRuntimeAdapter::new();
    qa.table.begin_recording(1, 10, found(None)).unwrap();
    let start = RecordingStart::Started { context: context(false), capture: 4 };
    qa.start_recording(1, 10, start, false).unwrap();
    let lease = qa.table.finish_recording(1).unwrap();
    assert_eq!(qa.table.cancel(1), None);
    let heard = VoiceResult { duration_ms: 9, audio_wav: None, transcript: Some("late".into()) };
    let error = qa.table.recording_finished(1, lease, Ok(heard), true).unwrap_err();
    assert_eq!(error.message, "QA runtime session was cancelled");
    assert!(qa.table.sessions.is_empty());
}

#[test]
fn a_start_that_was_cancelled_stops_its_recording() {
    let mut qa = TauriQaRuntimeAdapter::new();
    qa.table.begin_recording(1, 10, found(None)).unwrap();
    let start = RecordingStart::Started { context: context(false), capture: 4 };
    let error = qa.start_recording(1, 10, start, true).unwrap_err();
    assert_eq!(error.stop_capture, Some(4));
    assert!(qa.table.sessions.is_empty());
}

#[test]
fn a_successor_is_not_given_up_in_anothers_stead() {
    let mut qa = TauriQaRuntimeAdapter::new();
    qa.table.begin_recording(1, 11, found(None)).unwrap();
    let error = qa.start_recording(1, 10, RecordingStart::CaptureFailed(failure()), false);
    assert_eq!(error.unwrap_err().error.message, "broken");
    assert_eq!(qa.table.sessions.get(&1).unwrap().stamp, 11);
    qa.start_recording(1, 11, RecordingStart::NoBackend, false).unwrap_err();
    assert!(qa.table.sessions.is_empty());
}

#[test]
fn an_edit_takes_its_place_once() {
    let mut qa = TauriQaRuntimeAdapter::new();
    qa.table.prepare_text(1, 10, "shorten".into(), found(Some("long")), Ok(context(false))).unwrap();
    let blank = qa.answer(edit("  "), false, true).unwrap_err();
    assert_eq!(blank.code, BackendErrorCode::InvalidArgument);
    let plan = qa.answer(edit("long"), false, true).unwrap();
    let AnswerPlan::Edit { request, target } = plan else { panic!("an edit was asked for") };
    assert_eq!(target, 5);
    assert_eq!(request.owner, 77);
    assert_eq!(request.selection_text, "long");
    assert_eq!(request.instruction, "shorten");
    assert_eq!(request.source_app.as_deref(), Some("Editor"));
    let again = qa.answer(edit("long"), false, true).unwrap_err();
    assert_eq!(again.message, "selection edit target is unavailable");
    assert_eq!(qa.edit_answered(1, 10, Ok(()), true, "done".into()).unwrap(), "done");
    let completion = qa.complete(1).unwrap();
    assert!(completion.edit_apply_available && completion.edit_revert_available);
    assert_eq!(completion.duration_ms, None);
    assert_eq!(completion.front_app.as_deref(), Some("Editor"));
}

#[test]
fn linux_keeps_a_turn_whose_selection_could_not_be_shown() {
    let mut qa = LinuxQaRuntime::new();
    qa.table.begin_recording(1, 10, found(None)).unwrap();
    qa.start_recording(1, 10, RecordingStart::PublishFailed(failure())).unwrap_err();
    assert!(qa.table.sessions.contains_key(&1));
    qa.start_recording(1, 10, RecordingStart::CaptureFailed(failure())).unwrap_err();
    assert!(qa.table.sessions.is_empty());
    let error = qa.answer(question(1), false).unwrap_err();
    assert_eq!(error.message, "Linux QA runtime session is no longer active");
    assert_eq!(LinuxQaRuntime::selection_text(Ok("  ".into())), None);
    assert_eq!(LinuxQaRuntime::selection_text(Ok("x".into())).as_deref(), Some("x"));
}

#[test]
fn a_question_goes_to_the_model_under_its_own_id() {
    let mut qa = TauriQaRuntimeAdapter::new();
    qa.table.prepare_text(1, 10, "why".into(), found(Some("long")), Ok(context(false))).unwrap();
    let AnswerPlan::Chat(asked) = qa.answer(question(1), false, false).unwrap() else {
        panic!("no edit was asked for")
    };
    assert_eq!(asked.session_id, 1);
    assert!(!asked.context.multimodal);
    assert_eq!(asked.messages[0].content, "why");
    assert_eq!(asked.audio_wav, None);
    let other = qa.answer(question(2), false, false).unwrap_err();
    assert_eq!(other.code, BackendErrorCode::Cancelled);
    let unbound = qa.answer(edit("long"), false, false).unwrap_err();
    assert_eq!(unbound.message, "core backend state is unavailable");
}

#[test]
fn linux_answers_with_the_recording() {
    let mut qa = LinuxQaRuntime::new();
    qa.table.begin_recording(1, 10, found(None)).unwrap();
    let start = RecordingStart::Started { context: context(false), capture: 2 };
    qa.start_recording(1, 10, start).unwrap();
    let lease = qa.table.finish_recording(1).unwrap();
    let heard =
        VoiceResult { duration_ms: 5, audio_wav: Some(vec![7]), transcript: Some("why".into()) };
    assert_eq!(qa.table.recording_finished(1, lease, Ok(heard), false).unwrap().text, "why");
    let asked = qa.answer(question(1), false).unwrap();
    assert_eq!(asked.session_id, 1);
    assert_eq!(asked.audio_wav, Some(vec![7]));
    assert_eq!(asked.messages.len(), 1);
    assert_eq!(asked.messages[0].role, "user");
    assert_eq!(asked.messages[0].content, "why");
    assert_eq!(qa.answer(question(1), false).unwrap().audio_wav, None);
    assert_eq!(qa.answer(question(1), true).unwrap_err().code, BackendErrorCode::Cancelled);
    let completion = qa.complete(1).unwrap();
    assert_eq!(completion.duration_ms, Some(5));
    assert_eq!(completion.raw_transcript_override, None);
}

#[test]
fn a_turn_without_settings_cannot_be_completed() {
    let mut qa = TauriQaRuntimeAdapter::new();
    qa.table.begin_recording(1, 10, found(None)).unwrap();
    assert_eq!(qa.complete(1).unwrap_err().message, "QA session context is not ready");
    assert_eq!(
        qa_error(QaHost::Linux, QaFault::NoBackend).message,
        "Linux Core backend is not bound yet"
    );
}
