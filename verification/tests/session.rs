use openless::begin::{
    asr_kind_of, asr_opened, begin_session, credentials_checked, finish_starting_session,
    language_hint, level_arrived, microphone_checked, model_loaded, recorder_failed,
    request_stop_during_starting, start_recorder_for_starting, BeginNext, RecogniserSetup,
};
use openless::edges;
use openless::effects::{Effect, HistoryLimits, Notice, SessionError};
use openless::end::{
    cancel_session, correction_rules, end_session, inserted, inspect_transcript, landed, polished,
    transcribed, EmptyRecord, EndNext, EndRun, FinishedSession, RawTranscript, TranscribeEnd,
};
use openless::linux_host::DictationHotkeyEdge;
use openless::polish::TextOrigin;
use openless::providers::AsrRequestFormat;
use openless::session::{
    handle_pressed_edge, handle_released_edge, EdgeAction, KeyMemory, SessionState,
};
use openless::types::{
    AsrKind, BackendError, BackendErrorCode, CapsuleState, ChineseScriptPreference, HotkeyMode,
    InsertStatus, Platform, PolishMode, SessionPhase,
};

fn setup(kind: AsrKind) -> RecogniserSetup {
    RecogniserSetup {
        kind,
        model_alias: None,
        language_hint: None,
        runtime_source: None,
        chunk_limit_ms: None,
        verbose_json: false,
        request_format: AsrRequestFormat::Multipart,
        phrases: Vec::new(),
        hotwords: Vec::new(),
    }
}

fn starting(id: u128) -> SessionState {
    let mut state = SessionState::new();
    let (_, next) = begin_session(&mut state, id, 100, Some(3), None, Platform::Linux, false);
    assert!(matches!(next, BeginNext::CheckCredentials));
    state
}

fn listening(id: u128) -> SessionState {
    let mut state = starting(id);
    let (_, next) = finish_starting_session(&mut state, id);
    assert!(matches!(next, BeginNext::Finished(Ok(()))));
    assert_eq!(state.phase, SessionPhase::Listening);
    state
}

fn processing(id: u128) -> (SessionState, EndRun) {
    let mut state = listening(id);
    let (_, next) = end_session(&mut state, 1_100, true, Some(AsrKind::Whisper), 900);
    match next {
        EndNext::Transcribe { run, send_last_frame, .. } => {
            assert!(!send_last_frame);
            (state, run)
        }
        _ => panic!("a listening session waits for its transcript"),
    }
}

const LIMITS: HistoryLimits = HistoryLimits { retention_days: 30, max_entries: 200 };

fn empty_record() -> EmptyRecord {
    EmptyRecord {
        id: "id".into(),
        created_at: "now".into(),
        mode: PolishMode::Light,
        vocabulary_size: 0,
        archive_active: false,
        limits: LIMITS,
    }
}

fn origin() -> TextOrigin {
    TextOrigin {
        translation_active: false,
        polish_failed: false,
    }
}

fn restores(effects: &[Effect], id: u128) -> bool {
    effects.iter().any(|e| matches!(e, Effect::RestoreIme(i) if *i == id))
}

#[test]
fn a_dictation_runs_from_key_to_text() {
    let (mut state, run) = processing(7);
    assert_eq!(run.elapsed_ms, 1_000);
    let (effects, next) = transcribed(&mut state, run, AsrKind::Whisper, TranscribeEnd::Text);
    assert!(effects.is_empty());
    assert!(matches!(next, EndNext::Inspect(_)));
    let raw = RawTranscript { text: "hello".into(), duration_ms: 900 };
    let (_, next) = inspect_transcript(&mut state, run, raw, None, empty_record(), &vec![]);
    let text = match next {
        EndNext::Polish { text, .. } => text,
        _ => panic!("a transcript is polished"),
    };
    let (_, next) = polished(
        &mut state,
        run,
        text,
        origin(),
        ChineseScriptPreference::Auto,
        &vec![],
        false,
    );
    let focus = state.focus_target;
    assert!(matches!(next, EndNext::Insert { text, focus_target, .. }
        if text == "hello" && focus_target == focus));
    assert_eq!(state.phase, SessionPhase::Inserting);
    let (effects, next) = landed(run, "hello");
    assert!(restores(&effects, 7));
    assert!(matches!(next, EndNext::CountHits { text, .. } if text == "hello"));
    let mut cooldown = None;
    let finished = FinishedSession {
        run,
        created_at: "now".into(),
        raw_text: "hello".into(),
        final_text: "hello".into(),
        mode: PolishMode::Light,
        style_pack_id: "pack".into(),
        translation_active: false,
        polish_source: None,
        polish_failed: false,
        duration_ms: 900,
        vocabulary_hits: Ok(2),
        archive_active: false,
        limits: LIMITS,
        status: InsertStatus::Inserted,
        focus_ready: true,
        allow_fallback: true,
    };
    let (effects, _) = inserted(&mut state, &mut cooldown, finished, Platform::Linux, 2_000);
    assert_eq!(state.phase, SessionPhase::Idle);
    assert_eq!(cooldown, Some(2_450));
    assert!(matches!(effects[0], Effect::PublishVocabularyHits(2)));
    let entry = effects.iter().find_map(|e| match e {
        Effect::AppendHistory(entry, limits) => Some((entry, *limits)),
        _ => None,
    });
    let (entry, limits) = entry.expect("the history is written");
    assert_eq!(limits, LIMITS);
    assert_eq!(entry.dictionary_entry_count, Some(2));
    assert_eq!(entry.id, "00000000-0000-0000-0000-000000000007");
    assert_eq!(entry.error_code, None);
    assert!(effects.iter().any(|e| matches!(
        e,
        Effect::Capsule { state: CapsuleState::Done, inserted_chars: Some(5), .. }
    )));
}

#[test]
fn a_cancel_while_waiting_gives_no_text() {
    let (mut state, run) = processing(7);
    let mut cooldown = None;
    let effects = cancel_session(&mut state, &mut cooldown, 1_200);
    assert!(restores(&effects, 7));
    assert_eq!(state.phase, SessionPhase::Processing);
    assert_eq!(cooldown, None);
    let (effects, next) = transcribed(&mut state, run, AsrKind::Whisper, TranscribeEnd::Text);
    assert!(matches!(next, EndNext::Finished(Ok(()))));
    assert!(restores(&effects, 7));
    assert_eq!(state.phase, SessionPhase::Idle);
}

#[test]
fn a_cancel_never_interrupts_insertion() {
    let (mut state, _) = processing(7);
    state.phase = SessionPhase::Inserting;
    let mut cooldown = None;
    assert!(cancel_session(&mut state, &mut cooldown, 5).is_empty());
    assert_eq!(state.phase, SessionPhase::Inserting);
    assert!(!state.cancelled);
}

#[test]
fn a_cancel_while_listening_frees_the_program() {
    let mut state = listening(7);
    let mut cooldown = None;
    cancel_session(&mut state, &mut cooldown, 1_000);
    assert_eq!(state.phase, SessionPhase::Idle);
    assert_eq!(cooldown, Some(1_450));
}

#[test]
fn failures_are_reported_and_end_idle() {
    let (mut state, run) = processing(7);
    let failed = TranscribeEnd::Failed("net".into());
    let (effects, next) = transcribed(&mut state, run, AsrKind::Whisper, failed);
    assert!(matches!(next, EndNext::Finished(Err(SessionError::Reported(e))) if e == "net"));
    assert!(restores(&effects, 7));
    assert_eq!(state.phase, SessionPhase::Idle);

    let (mut state, run) = processing(8);
    let (effects, next) =
        transcribed(&mut state, run, AsrKind::Volcengine, TranscribeEnd::TimedOut);
    assert!(matches!(next, EndNext::Finished(Err(SessionError::TimedOut(AsrKind::Volcengine)))));
    assert!(matches!(effects[0], Effect::CancelAsr(8)));
    assert_eq!(state.phase, SessionPhase::Idle);

    let (mut state, run) = processing(9);
    let silence = RawTranscript { text: "  ".into(), duration_ms: 1 };
    let (effects, next) =
        inspect_transcript(&mut state, run, silence, None, empty_record(), &vec![]);
    assert!(matches!(next, EndNext::Finished(Err(SessionError::EmptyTranscript))));
    assert!(restores(&effects, 9));
    assert!(matches!(&effects[0], Effect::AppendHistory(e, LIMITS) if e.error_code.as_deref() == Some("emptyTranscript")));
}

#[test]
fn start_up_failures_end_idle() {
    let mut state = starting(1);
    let (effects, next) = credentials_checked(&mut state, 1, Some("no key".into()));
    assert!(matches!(next, BeginNext::Finished(Err(SessionError::Reported(m))) if m == "no key"));
    assert!(restores(&effects, 1));
    assert_eq!(state.phase, SessionPhase::Idle);

    let mut state = starting(2);
    let problem = Some("denied".to_string());
    let (effects, _) = microphone_checked(&mut state, 2, problem, setup(AsrKind::Whisper));
    assert!(restores(&effects, 2));
    assert_eq!(state.phase, SessionPhase::Idle);

    let mut state = starting(3);
    let (_, next) =
        model_loaded(&mut state, 3, setup(AsrKind::SherpaOnnxLocal), Some("corrupt".into()));
    assert!(matches!(next, BeginNext::Finished(Err(SessionError::SherpaInit(_)))));
    assert_eq!(state.phase, SessionPhase::Idle);

    let mut state = starting(4);
    let broken = Err("busy".to_string());
    let (effects, _) = start_recorder_for_starting(&mut state, 4, AsrKind::Whisper, broken, 0);
    assert!(restores(&effects, 4));
    assert!(effects.iter().any(|e| matches!(e, Effect::ReleaseMute)));

    let mut state = starting(5);
    let (effects, next) = asr_opened(&mut state, 5, AsrKind::Bailian, Some("refused".into()));
    assert!(matches!(next, BeginNext::Finished(Err(_))));
    assert!(restores(&effects, 5));
    assert_eq!(state.phase, SessionPhase::Idle);
}

#[test]
fn an_early_stop_is_kept() {
    let mut state = starting(1);
    let effects = request_stop_during_starting(&mut state, 150);
    assert!(effects.iter().any(|e| matches!(e, Effect::StopRecorder(1))));
    let (_, next) = finish_starting_session(&mut state, 1);
    assert!(matches!(next, BeginNext::EndSession));
    assert_eq!(state.phase, SessionPhase::Listening);
    assert!(!state.pending_stop);
}

#[test]
fn a_cancelled_or_stale_start_never_listens() {
    let mut state = starting(1);
    cancel_session(&mut state, &mut None, 0);
    let (_, _) = finish_starting_session(&mut state, 1);
    assert_eq!(state.phase, SessionPhase::Idle);
    let mut state = starting(2);
    let (effects, _) = asr_opened(&mut state, 1, AsrKind::Volcengine, None);
    assert!(effects.iter().any(|e| matches!(e, Effect::DiscardStartup(1))));
    assert_eq!((state.phase, state.session_id), (SessionPhase::Starting, 2));
}

#[test]
fn recorder_failures_hit_only_their_own_session() {
    let mut state = listening(2);
    assert!(recorder_failed(&mut state, 1, "x".into(), 5).is_empty());
    assert_eq!(state.phase, SessionPhase::Listening);
    let effects = recorder_failed(&mut state, 2, "unplugged".into(), 600);
    assert!(restores(&effects, 2));
    assert!(effects.iter().any(|e| matches!(
        e,
        Effect::Capsule { notice: Some(Notice::RecordingInterrupted(m)), .. } if m == "unplugged"
    )));
    assert_eq!(state.phase, SessionPhase::Idle);
}

#[test]
fn levels_are_thinned_out() {
    let state = listening(1);
    let mut last = None;
    assert!(level_arrived(&state, &mut last, 200).is_some());
    assert!(level_arrived(&state, &mut last, 220).is_none());
    assert!(level_arrived(&state, &mut last, 233).is_some());
    assert!(level_arrived(&SessionState::new(), &mut None, 0).is_none());
}

#[test]
fn only_an_idle_program_begins() {
    let mut state = listening(1);
    let (effects, _) = begin_session(&mut state, 2, 0, None, None, Platform::Windows, false);
    assert!(effects.is_empty());
    assert_eq!(state.session_id, 1);
    let mut dry = SessionState::new();
    let (effects, _) = begin_session(&mut dry, 2, 0, None, None, Platform::Windows, true);
    assert!(matches!(effects[0], Effect::PrepareIme(2)));
    assert_eq!(dry.phase, SessionPhase::Listening);
}

#[test]
fn typed_text_is_finished_in_spite_of_a_cancel() {
    let (mut state, run) = processing(7);
    cancel_session(&mut state, &mut None, 0);
    let auto = ChineseScriptPreference::Auto;
    let (_, next) = polished(&mut state, run, "t".into(), origin(), auto, &vec![], true);
    assert!(matches!(next, EndNext::Insert { .. }));
    let (mut state, run) = processing(7);
    cancel_session(&mut state, &mut None, 0);
    let (_, next) = polished(&mut state, run, "t".into(), origin(), auto, &vec![], false);
    assert!(matches!(next, EndNext::Finished(Ok(()))));
    assert_eq!(state.phase, SessionPhase::Idle);
}

#[test]
fn recognisers_belong_to_their_platform() {
    assert_eq!(
        asr_kind_of(Platform::Windows, "foundry-local-whisper"),
        AsrKind::FoundryLocalWhisper
    );
    assert_eq!(asr_kind_of(Platform::MacOs, "local-qwen3"), AsrKind::LocalQwen);
    assert_eq!(asr_kind_of(Platform::Linux, "who-knows"), AsrKind::Volcengine);
    assert_eq!(language_hint("  "), None);
}

#[test]
fn the_key_toggles_and_holds() {
    let mut key = KeyMemory { held: false, last_dispatch_ms: None };
    let toggle = HotkeyMode::Toggle;
    let idle = SessionPhase::Idle;
    assert_eq!(handle_pressed_edge(&mut key, toggle, idle, false, None, 0), EdgeAction::Begin);
    assert_eq!(handle_pressed_edge(&mut key, toggle, idle, false, None, 900), EdgeAction::Nothing);
    assert_eq!(handle_released_edge(&mut key, toggle, idle, false), EdgeAction::Nothing);
    assert_eq!(handle_pressed_edge(&mut key, toggle, idle, false, None, 100), EdgeAction::Nothing);
    handle_released_edge(&mut key, toggle, idle, false);
    assert_eq!(
        handle_pressed_edge(&mut key, toggle, idle, false, Some(1_000), 900),
        EdgeAction::Nothing
    );
    handle_released_edge(&mut key, toggle, idle, false);
    assert_eq!(handle_pressed_edge(&mut key, toggle, idle, true, None, 2_000), EdgeAction::Qa);
    let mut key = KeyMemory { held: false, last_dispatch_ms: None };
    let hold = HotkeyMode::Hold;
    assert_eq!(handle_pressed_edge(&mut key, hold, idle, false, None, 0), EdgeAction::Begin);
    assert_eq!(
        handle_released_edge(&mut key, hold, SessionPhase::Listening, false),
        EdgeAction::End
    );
}

#[test]
fn the_shared_backend_hears_each_press_once() {
    let mut state = edges::TriggerState::new();
    let dispatch = edges::PressStep::Dispatch(DictationHotkeyEdge::Pressed { at: 3 });
    assert_eq!(edges::handle_pressed_edge(&mut state, 3, 0, 1, false, true), dispatch);
    assert_eq!(
        edges::handle_pressed_edge(&mut state, 3, 900, 2, false, true),
        edges::PressStep::Ignored
    );
    edges::press_dispatched(&mut state, 1, edges::DispatchOutcome::DictationStarted, 5);
    assert_eq!(
        edges::handle_trigger_combined(&mut state, 1),
        Some(DictationHotkeyEdge::Combined)
    );
    let cancelled = state;
    edges::combination_dispatched(&mut state, edges::DispatchOutcome::Failed, 100);
    assert_eq!(state.cooldown_until_ms, Some(550));
    assert!(!state.translation_active);
    state = cancelled;
    assert_eq!(edges::handle_trigger_combined(&mut state, 1), None);
    assert_eq!(edges::handle_released_edge(&mut state, 4), None);
    assert_eq!(
        edges::handle_pressed_edge(&mut state, 3, 200, 3, false, true),
        edges::PressStep::Ignored
    );
    let released = DictationHotkeyEdge::Released { at: 5 };
    assert_eq!(edges::handle_released_edge(&mut state, 5), Some(released));
    assert_eq!(
        edges::handle_pressed_edge(&mut state, 3, 900, 4, true, true),
        edges::PressStep::Qa
    );
    state.translation_active = true;
    let options = edges::dispatch(&state, released, false);
    assert_eq!(options.edge, released);
    assert!(options.start_backend && options.start_translation);
    assert_eq!(options.stop_translation, Some(true));
    edges::release_dispatched(&mut state, edges::DispatchOutcome::DictationCompleted, 1_000);
    assert!(!state.translation_active);
    assert_eq!(state.cooldown_until_ms, Some(1_450));
}

#[test]
fn a_cancel_reaches_one_session() {
    let active = edges::ActiveSessions {
        less_computer: false,
        selection_voice: Some(4),
        qa: Some(Some(5)),
        dictation: Some(6),
    };
    assert_eq!(
        edges::cancel_active_session(Platform::Windows, active),
        edges::CancelStep::SelectionVoice(4)
    );
    assert_eq!(
        edges::cancel_active_session(Platform::Linux, active),
        edges::CancelStep::Qa(Some(5))
    );
    let only = edges::ActiveSessions { qa: None, ..active };
    let step = edges::cancel_active_session(Platform::Linux, only);
    assert_eq!(step, edges::CancelStep::Dictation(Some(6)));
    let mut state = edges::TriggerState::new();
    let idle = || Err(BackendError::new(BackendErrorCode::InvalidState, "idle"));
    assert!(!edges::session_cancelled(&mut state, step, idle(), 0));
    assert_eq!(state.cooldown_until_ms, None);
    assert!(edges::session_cancelled(&mut state, step, Ok(()), 0));
    assert_eq!(state.cooldown_until_ms, Some(450));
    assert!(!edges::cancel_failure_is_logged(&idle().unwrap_err()));
}

fn entry(kind: &str, fresh: Option<bool>, event: u64) -> Option<edges::LessComputerEntry> {
    Some(edges::LessComputerEntry { kind: kind.into(), fresh, event })
}

#[test]
fn a_late_panel_sees_the_last_conversation() {
    let events = vec![
        entry("user", Some(true), 1),
        entry("delta", None, 2),
        None,
        entry("user", Some(true), 3),
        entry("user", Some(false), 4),
        entry("delta", None, 5),
    ];
    let replay = edges::less_computer_event_replay_after(events, Some(1), 9, true);
    let shown: Vec<u64> = replay.events.iter().map(|e| e.event).collect();
    assert_eq!(shown, vec![3, 4, 5]);
    assert_eq!((replay.oldest_sequence, replay.latest_sequence, replay.truncated), (Some(1), 9, true));
    let old = vec![entry("delta", None, 1), None, entry("delta", None, 2)];
    let replay = edges::less_computer_event_replay_after(old, None, 2, false);
    assert_eq!(replay.events.len(), 2);
}

#[test]
fn a_local_recogniser_is_let_go_on_behalf_of_its_session() {
    let (mut state, run) = processing(7);
    let (effects, _) = transcribed(&mut state, run, AsrKind::SherpaOnnxLocal, TranscribeEnd::Text);
    assert!(matches!(
        effects[0],
        Effect::ScheduleRelease { kind: AsrKind::SherpaOnnxLocal, session: Some(7) }
    ));
    let (mut state, run) = processing(8);
    let (effects, _) = transcribed(&mut state, run, AsrKind::LocalQwen, TranscribeEnd::Text);
    assert!(matches!(
        effects[0],
        Effect::ScheduleRelease { kind: AsrKind::LocalQwen, session: None }
    ));
}

#[test]
fn rules_that_cannot_be_read_correct_nothing() {
    assert!(correction_rules(Err("disk".into())).is_empty());
    assert!(correction_rules(Ok(vec![])).is_empty());
}
