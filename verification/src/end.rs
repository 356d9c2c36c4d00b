//! The end of a dictation session, from the stop to the text at the cursor.
//!
//! Each function takes what the host has found out and answers with the
//! effects to perform and with the next thing to find out. The host performs
//! the effects before it reports the next finding; a cancel may arrive in
//! between and shows in the state.

use crate::begin::{
    abort_effects, drop_effects, error_capsule, failure_effects, finished_state, opened_effects,
};
use crate::effects::{Effect, HistoryLimits, Notice, SessionError};
use crate::history::{
    created_at, id_text, law_own_ids_are_valid, new_session_id, session_id_text, utc_rfc3339,
    valid_id,
};
use crate::polish::{
    apply_correction_rules, corrected, default_done_message, dictation_error_code, done_notice,
    error_code_name, error_code_of, finalize_polished_text, finalized, DictationErrorCode,
    TextOrigin,
};
use crate::selection::PastePreferences;
use crate::session::{
    begin_cancel_session_state, begin_outcome, cancellable, elapsed_spec,
    finish_cancel_session_state, race_status, set_phase_idle_if_session_matches,
    start_processing_if_listening, with_phase, BeginOutcome, SessionState, StartupRaceStatus,
    POST_SESSION_COOLDOWN_MS,
};
use crate::text::{blank, is_blank};
use crate::types::{
    opt_text, AsrKind, CapsuleState, ChineseScriptPreference, CorrectionRule, DictationSession,
    InsertStatus, Platform, PolishMode, SessionPhase,
};
use vstd::prelude::*;

verus! {

/// How long a recogniser may take.
#[derive(Clone, Copy, PartialEq, Eq, Structural, Debug)]
pub enum TimeLimit {
    /// The limit that holds for all services.
    Global,
    Seconds(u64),
    /// The recogniser keeps time itself.
    Own,
}

/// The time a local model gets for `audio_ms` of audio: six tenths of the
/// audio, rounded up to seconds, and ten seconds on top; at least fifteen.
pub open spec fn local_limit_seconds(audio_ms: u64) -> int {
    let s = (audio_ms as int * 3 + 4999) / 5000 + 10;
    if s < 15 {
        15
    } else {
        s
    }
}

/// The time a local model gets for `audio_ms` of audio, in seconds.
pub fn local_qwen_transcribe_timeout(audio_ms: u64) -> (r: u64)
    ensures
        r == local_limit_seconds(audio_ms),
{
    let s: u64 = ((audio_ms as u128 * 3 + 4999) / 5000 + 10) as u64;
    if s < 15 {
        15
    } else {
        s
    }
}

/// The limit for a recogniser.
pub open spec fn limit_of(kind: AsrKind, audio_ms: u64) -> TimeLimit {
    match kind {
        AsrKind::FoundryLocalWhisper | AsrKind::SherpaOnnxLocal => TimeLimit::Own,
        AsrKind::LocalQwen => TimeLimit::Seconds(local_limit_seconds(audio_ms) as u64),
        _ => TimeLimit::Global,
    }
}

/// The recogniser is not timed from outside.
pub open spec fn keeps_own_time(kind: AsrKind) -> bool {
    kind == AsrKind::FoundryLocalWhisper || kind == AsrKind::SherpaOnnxLocal
}

/// Whether a recogniser is timed from outside.
pub fn asr_transcribe_uses_global_timeout(kind: AsrKind) -> (r: bool)
    ensures
        r == !keeps_own_time(kind),
{
    kind != AsrKind::FoundryLocalWhisper && kind != AsrKind::SherpaOnnxLocal
}

/// The recogniser runs on this machine.
pub open spec fn is_local(kind: AsrKind) -> bool {
    keeps_own_time(kind) || kind == AsrKind::LocalQwen
}

/// The audio is sent while it is recorded, and its end has to be marked.
pub open spec fn streams_audio(kind: AsrKind) -> bool {
    kind == AsrKind::Volcengine || kind == AsrKind::Bailian
}

/// The session that is being ended.
#[derive(Clone, Copy, PartialEq, Eq, Structural, Debug)]
pub struct EndRun {
    pub session_id: u128,
    pub elapsed_ms: u64,
}

/// What the host has to do next on behalf of an ending session.
#[derive(Debug)]
pub enum EndNext {
    /// Mark the end of the audio where asked, and wait for the transcript.
    Transcribe { run: EndRun, kind: AsrKind, send_last_frame: bool, limit: TimeLimit },
    /// Look at the transcript.
    Inspect(EndRun),
    /// Hand the text to the agent.
    RunAgent { run: EndRun, text: String },
    /// Make the final text.
    Polish { run: EndRun, text: String },
    /// Bring the window back that the session began in, and the text to its
    /// cursor.
    Insert { run: EndRun, text: String, focus_target: Option<u64> },
    /// Count the words of the vocabulary in the text.
    CountHits { run: EndRun, text: String },
    Finished(Result<(), SessionError>),
}

/// The capsule while speech is recognised.
pub open spec fn transcribing_capsule(elapsed_ms: u64) -> Effect {
    Effect::Capsule {
        state: CapsuleState::Transcribing,
        elapsed_ms,
        notice: None,
        inserted_chars: None,
    }
}

/// The effects with which a session ends.
pub open spec fn closing_effects(id: u128, elapsed_ms: u64, has_recorder: bool) -> Seq<Effect> {
    if has_recorder {
        seq![transcribing_capsule(elapsed_ms), Effect::StopRecorder(id), Effect::ReleaseMute]
    } else {
        seq![transcribing_capsule(elapsed_ms)]
    }
}

/// Ends a listening session; in any other phase this does nothing. Without a
/// recogniser there is nothing to wait for.
pub fn end_session(
    state: &mut SessionState,
    now_ms: u64,
    has_recorder: bool,
    asr: Option<AsrKind>,
    audio_ms: u64,
) -> (r: (Vec<Effect>, EndNext))
    ensures
        old(state).phase != SessionPhase::Listening ==> {
            &&& *final(state) == *old(state)
            &&& r.0@ == Seq::<Effect>::empty()
            &&& r.1 == EndNext::Finished(Ok(()))
        },
        old(state).phase == SessionPhase::Listening ==> {
            let id = old(state).session_id;
            let elapsed = elapsed_spec(old(state).started_at_ms, now_ms);
            match asr {
                None => {
                    &&& *final(state) == with_phase(*old(state), SessionPhase::Idle)
                    &&& r.0@ == closing_effects(id, elapsed, has_recorder).push(
                        Effect::RestoreIme(id),
                    )
                    &&& r.1 == EndNext::Finished(Ok(()))
                },
                Some(kind) => {
                    &&& *final(state) == with_phase(*old(state), SessionPhase::Processing)
                    &&& r.0@ == closing_effects(id, elapsed, has_recorder)
                    &&& r.1 == (EndNext::Transcribe {
                        run: EndRun { session_id: id, elapsed_ms: elapsed },
                        kind,
                        send_last_frame: streams_audio(kind),
                        limit: limit_of(kind, audio_ms),
                    })
                },
            }
        },
{
    let id: u128 = match start_processing_if_listening(state) {
        None => return (Vec::new(), EndNext::Finished(Ok(()))),
        Some(id) => id,
    };
    let elapsed: u64 = crate::session::elapsed_ms(state.started_at_ms, now_ms);
    let mut effects: Vec<Effect> = Vec::new();
    effects.push(
        Effect::Capsule {
            state: CapsuleState::Transcribing,
            elapsed_ms: elapsed,
            notice: None,
            inserted_chars: None,
        },
    );
    if has_recorder {
        effects.push(Effect::StopRecorder(id));
        effects.push(Effect::ReleaseMute);
    }
    match asr {
        None => {
            effects.push(Effect::RestoreIme(id));
            state.phase = SessionPhase::Idle;
            (effects, EndNext::Finished(Ok(())))
        },
        Some(kind) => {
            let limit: TimeLimit = match kind {
                AsrKind::FoundryLocalWhisper | AsrKind::SherpaOnnxLocal => TimeLimit::Own,
                AsrKind::LocalQwen => TimeLimit::Seconds(local_qwen_transcribe_timeout(audio_ms)),
                _ => TimeLimit::Global,
            };
            let next: EndNext = EndNext::Transcribe {
                run: EndRun { session_id: id, elapsed_ms: elapsed },
                kind,
                send_last_frame: kind == AsrKind::Volcengine || kind == AsrKind::Bailian,
                limit,
            };
            (effects, next)
        },
    }
}

/// How the wait for a transcript ended.
#[derive(Debug)]
pub enum TranscribeEnd {
    Text,
    Failed(String),
    TimedOut,
}

/// Letting a local model go. Those of Windows are held by the session.
pub open spec fn release_of(kind: AsrKind, id: u128) -> Effect {
    Effect::ScheduleRelease {
        kind,
        session: if keeps_own_time(kind) {
            Some(id)
        } else {
            None
        },
    }
}

/// A local model that was in use may be let go after a while.
pub open spec fn release_effects(kind: AsrKind, id: u128) -> Seq<Effect> {
    if is_local(kind) {
        seq![release_of(kind, id)]
    } else {
        Seq::empty()
    }
}

/// The message for a recogniser that failed.
pub open spec fn failed_notice(kind: AsrKind, e: String) -> Notice {
    if is_local(kind) {
        Notice::LocalRecognitionFailed(e)
    } else {
        Notice::RecognitionFailed(e)
    }
}

/// The effects of a failed or timed-out transcription.
pub open spec fn transcribe_failure_effects(run: EndRun, kind: AsrKind, end: TranscribeEnd) -> Seq<
    Effect,
> {
    let tail = seq![Effect::RestoreIme(run.session_id), Effect::HideCapsuleLater];
    match end {
        TranscribeEnd::Text => Seq::empty(),
        TranscribeEnd::Failed(e) => release_effects(kind, run.session_id).push(
            error_capsule(run.elapsed_ms, failed_notice(kind, e)),
        ) + tail,
        TranscribeEnd::TimedOut => (if streams_audio(kind) {
            seq![Effect::CancelAsr(run.session_id)]
        } else {
            release_effects(kind, run.session_id)
        }).push(error_capsule(run.elapsed_ms, Notice::RecognitionTimedOut)) + tail,
    }
}

/// A local recogniser of Windows fails because the session was cancelled.
pub open spec fn failed_by_cancel(s: SessionState, kind: AsrKind, end: TranscribeEnd) -> bool {
    keeps_own_time(kind) && s.cancelled && end is Failed
}

/// The session after the wait for its transcript.
pub open spec fn after_transcript(
    s: SessionState,
    run: EndRun,
    kind: AsrKind,
    end: TranscribeEnd,
) -> SessionState {
    if failed_by_cancel(s, kind, end) {
        if s.session_id == run.session_id {
            with_phase(s, SessionPhase::Idle)
        } else {
            s
        }
    } else if !(end is Text) {
        with_phase(s, SessionPhase::Idle)
    } else if s.cancelled {
        SessionState { phase: SessionPhase::Idle, focus_target: None, ..s }
    } else {
        s
    }
}

/// What follows the wait for a transcript.
pub open spec fn transcript_next(
    s: SessionState,
    run: EndRun,
    kind: AsrKind,
    end: TranscribeEnd,
) -> EndNext {
    if failed_by_cancel(s, kind, end) {
        EndNext::Finished(Ok(()))
    } else {
        match end {
            TranscribeEnd::Text => if s.cancelled {
                EndNext::Finished(Ok(()))
            } else {
                EndNext::Inspect(run)
            },
            TranscribeEnd::Failed(e) => EndNext::Finished(Err(SessionError::Reported(e))),
            TranscribeEnd::TimedOut => EndNext::Finished(Err(SessionError::TimedOut(kind))),
        }
    }
}

/// The effects of the end of that wait.
pub open spec fn transcript_effects(
    s: SessionState,
    run: EndRun,
    kind: AsrKind,
    end: TranscribeEnd,
) -> Seq<Effect> {
    if failed_by_cancel(s, kind, end) {
        seq![release_of(kind, run.session_id), Effect::RestoreIme(run.session_id)]
    } else if !(end is Text) {
        transcribe_failure_effects(run, kind, end)
    } else if s.cancelled {
        release_effects(kind, run.session_id).push(Effect::RestoreIme(run.session_id))
    } else {
        release_effects(kind, run.session_id)
    }
}

/// The wait for the transcript is over. A cancel during the wait goes before
/// everything the transcript could lead to.
pub fn transcribed(state: &mut SessionState, run: EndRun, kind: AsrKind, end: TranscribeEnd) -> (r: (
    Vec<Effect>,
    EndNext,
))
    ensures
        *final(state) == after_transcript(*old(state), run, kind, end),
        r.0@ == transcript_effects(*old(state), run, kind, end),
        r.1 == transcript_next(*old(state), run, kind, end),
{
    let own_time: bool = !asr_transcribe_uses_global_timeout(kind);
    let local: bool = own_time || kind == AsrKind::LocalQwen;
    let streams: bool = kind == AsrKind::Volcengine || kind == AsrKind::Bailian;
    let id: u128 = run.session_id;
    let session: Option<u128> = if own_time {
        Some(id)
    } else {
        None
    };
    let mut effects: Vec<Effect> = Vec::new();
    match end {
        TranscribeEnd::Text => {
            if local {
                effects.push(Effect::ScheduleRelease { kind, session });
            }
            if state.cancelled {
                effects.push(Effect::RestoreIme(id));
                state.phase = SessionPhase::Idle;
                state.focus_target = None;
                return (effects, EndNext::Finished(Ok(())));
            }
            (effects, EndNext::Inspect(run))
        },
        TranscribeEnd::Failed(e) => {
            if local {
                effects.push(Effect::ScheduleRelease { kind, session });
            }
            if own_time && state.cancelled {
                effects.push(Effect::RestoreIme(id));
                set_phase_idle_if_session_matches(state, id);
                return (effects, EndNext::Finished(Ok(())));
            }
            let notice: Notice = if local {
                Notice::LocalRecognitionFailed(e.clone())
            } else {
                Notice::RecognitionFailed(e.clone())
            };
            effects.push(
                Effect::Capsule {
                    state: CapsuleState::Error,
                    elapsed_ms: run.elapsed_ms,
                    notice: Some(notice),
                    inserted_chars: None,
                },
            );
            effects.push(Effect::RestoreIme(id));
            effects.push(Effect::HideCapsuleLater);
            state.phase = SessionPhase::Idle;
            (effects, EndNext::Finished(Err(SessionError::Reported(e))))
        },
        TranscribeEnd::TimedOut => {
            if streams {
                effects.push(Effect::CancelAsr(id));
            } else if local {
                effects.push(Effect::ScheduleRelease { kind, session });
            }
            effects.push(
                Effect::Capsule {
                    state: CapsuleState::Error,
                    elapsed_ms: run.elapsed_ms,
                    notice: Some(Notice::RecognitionTimedOut),
                    inserted_chars: None,
                },
            );
            effects.push(Effect::RestoreIme(id));
            effects.push(Effect::HideCapsuleLater);
            state.phase = SessionPhase::Idle;
            (effects, EndNext::Finished(Err(SessionError::TimedOut(kind))))
        },
    }
}

/// A transcript as the recogniser returns it.
#[derive(Debug)]
pub struct RawTranscript {
    pub text: String,
    pub duration_ms: u64,
}

/// What goes into the history entry of a session in which nothing was heard.
#[derive(Debug)]
pub struct EmptyRecord {
    pub id: String,
    pub created_at: String,
    pub mode: PolishMode,
    pub vocabulary_size: u32,
    pub archive_active: bool,
    pub limits: HistoryLimits,
}

/// What goes into the history entry of a session in which nothing was heard,
/// under an id of its own and with the time that the host's clock shows. A
/// time that is no date gives no entry.
pub fn empty_record(
    secs: i64,
    nanos: u32,
    mode: PolishMode,
    vocabulary_size: u32,
    archive_active: bool,
    limits: HistoryLimits,
) -> (r: Option<EmptyRecord>)
    ensures
        match r {
            Some(rec) => {
                &&& utc_rfc3339(secs, nanos) == Some(rec.created_at@)
                &&& valid_id(rec.id@)
                &&& rec.mode == mode
                &&& rec.vocabulary_size == vocabulary_size
                &&& rec.archive_active == archive_active
                &&& rec.limits == limits
            },
            None => utc_rfc3339(secs, nanos) is None,
        },
{
    match created_at(secs, nanos) {
        None => None,
        Some(created_at) => {
            let (number, id): (u128, String) = new_session_id();
            proof {
                law_own_ids_are_valid(number);
            }
            Some(EmptyRecord { id, created_at, mode, vocabulary_size, archive_active, limits })
        },
    }
}

/// The history entry of a session in which nothing was heard.
pub open spec fn is_empty_entry(s: DictationSession, rec: EmptyRecord, raw: Seq<char>, duration_ms: u64) -> bool {
    &&& s.id == rec.id
    &&& s.created_at == rec.created_at
    &&& s.raw_transcript@ == raw
    &&& s.final_text@.len() == 0
    &&& s.mode == rec.mode
    &&& s.style_pack_id is None
    &&& !s.translation_active
    &&& s.polish_source is None
    &&& s.app_bundle_id is None
    &&& s.app_name is None
    &&& s.insert_status == InsertStatus::Failed
    &&& opt_text(s.error_code) == Some(error_code_name(DictationErrorCode::EmptyTranscript))
    &&& s.duration_ms == Some(duration_ms)
    &&& s.dictionary_entry_count == Some(rec.vocabulary_size)
    &&& s.has_audio_recording == Some(rec.archive_active)
}

/// The transcript after the stand-in for tests, which counts only where
/// nothing was heard.
pub open spec fn heard(raw: RawTranscript, stand_in: Option<String>) -> Seq<char> {
    if blank(raw.text@) && stand_in is Some {
        stand_in->0@
    } else {
        raw.text@
    }
}

/// The correction rules to go by. Rules that cannot be read give none.
pub fn correction_rules(loaded: Result<Vec<CorrectionRule>, String>) -> (r: Vec<CorrectionRule>)
    ensures
        match loaded {
            Ok(rules) => r == rules,
            Err(_) => r@.len() == 0,
        },
{
    match loaded {
        Ok(rules) => rules,
        Err(_) => Vec::new(),
    }
}

/// Looks at a transcript. Where nothing was heard the history says so and the
/// session fails; otherwise the corrected text goes to the agent or on to the
/// model.
pub fn inspect_transcript(
    state: &mut SessionState,
    run: EndRun,
    raw: RawTranscript,
    stand_in: Option<String>,
    rec: EmptyRecord,
    rules: &Vec<CorrectionRule>,
) -> (r: (Vec<Effect>, EndNext))
    ensures
        ({
            let text = heard(raw, stand_in);
            if blank(text) {
                &&& r.0@.len() == 4
                &&& r.0@[0] is AppendHistory
                &&& is_empty_entry(r.0@[0]->AppendHistory_0, rec, text, raw.duration_ms)
                &&& r.0@[0]->AppendHistory_1 == rec.limits
                &&& r.0@[1] == error_capsule(run.elapsed_ms, Notice::NothingHeard)
                &&& r.0@[2] == Effect::RestoreIme(run.session_id)
                &&& r.0@[3] == Effect::HideCapsuleLater
                &&& *final(state) == with_phase(*old(state), SessionPhase::Idle)
                &&& r.1 == EndNext::Finished(Err(SessionError::EmptyTranscript))
            } else {
                &&& *final(state) == *old(state)
                &&& if old(state).voice_agent {
                    &&& r.0@ == Seq::<Effect>::empty()
                    &&& r.1 is RunAgent
                    &&& r.1->RunAgent_run == run
                    &&& r.1->RunAgent_text@ == corrected(text, rules@)
                } else {
                    &&& r.0@ == seq![
                        Effect::Capsule {
                            state: CapsuleState::Polishing,
                            elapsed_ms: run.elapsed_ms,
                            notice: None,
                            inserted_chars: None,
                        },
                    ]
                    &&& r.1 is Polish
                    &&& r.1->Polish_run == run
                    &&& r.1->Polish_text@ == corrected(text, rules@)
                }
            }
        }),
{
    let duration_ms: u64 = raw.duration_ms;
    let text: String = match stand_in {
        Some(s) => if is_blank(raw.text.as_str()) {
            s
        } else {
            raw.text
        },
        None => raw.text,
    };
    if is_blank(text.as_str()) {
        let limits: HistoryLimits = rec.limits;
        let entry: DictationSession = DictationSession {
            id: rec.id,
            created_at: rec.created_at,
            raw_transcript: text,
            final_text: String::new(),
            mode: rec.mode,
            style_pack_id: None,
            translation_active: false,
            polish_source: None,
            app_bundle_id: None,
            app_name: None,
            insert_status: InsertStatus::Failed,
            error_code: Some(DictationErrorCode::EmptyTranscript.name().to_owned()),
            duration_ms: Some(duration_ms),
            dictionary_entry_count: Some(rec.vocabulary_size),
            has_audio_recording: Some(rec.archive_active),
        };
        state.phase = SessionPhase::Idle;
        let effects: Vec<Effect> = vec![
            Effect::AppendHistory(entry, limits),
            Effect::Capsule {
                state: CapsuleState::Error,
                elapsed_ms: run.elapsed_ms,
                notice: Some(Notice::NothingHeard),
                inserted_chars: None,
            },
            Effect::RestoreIme(run.session_id),
            Effect::HideCapsuleLater,
        ];
        return (effects, EndNext::Finished(Err(SessionError::EmptyTranscript)));
    }
    let fixed: String = apply_correction_rules(text.as_str(), rules);
    if state.voice_agent {
        return (Vec::new(), EndNext::RunAgent { run, text: fixed });
    }
    let effects: Vec<Effect> = vec![
        Effect::Capsule {
            state: CapsuleState::Polishing,
            elapsed_ms: run.elapsed_ms,
            notice: None,
            inserted_chars: None,
        },
    ];
    (effects, EndNext::Polish { run, text: fixed })
}

/// The cancel counts: nothing of the text has been typed yet.
pub open spec fn still_stoppable(s: SessionState, already_streamed: bool) -> bool {
    s.cancelled && !already_streamed
}

/// The session once its final text is there.
pub open spec fn after_polish(s: SessionState, already_streamed: bool) -> SessionState {
    if still_stoppable(s, already_streamed) {
        with_phase(s, SessionPhase::Idle)
    } else {
        with_phase(s, SessionPhase::Inserting)
    }
}

/// The final text is there. This is the last moment at which a cancel counts:
/// from here on the session inserts. Text that was typed while it streamed in
/// cannot be taken back, so then the session goes on in any case.
pub fn polished(
    state: &mut SessionState,
    run: EndRun,
    text: String,
    origin: TextOrigin,
    pref: ChineseScriptPreference,
    rules: &Vec<CorrectionRule>,
    already_streamed: bool,
) -> (r: (Vec<Effect>, EndNext))
    ensures
        *final(state) == after_polish(*old(state), already_streamed),
        still_stoppable(*old(state), already_streamed) ==> {
            &&& r.0@ == seq![Effect::RestoreIme(run.session_id)]
            &&& r.1 == EndNext::Finished(Ok(()))
        },
        !still_stoppable(*old(state), already_streamed) ==> {
            &&& r.0@ == Seq::<Effect>::empty()
            &&& r.1 is Insert
            &&& r.1->Insert_run == run
            &&& r.1->focus_target == old(state).focus_target
            &&& r.1->Insert_text@ == finalized(text@, origin, pref, rules@, already_streamed)
        },
{
    let text: String = finalize_polished_text(text, origin, pref, rules, already_streamed);
    if state.cancelled && !already_streamed {
        state.phase = SessionPhase::Idle;
        return (vec![Effect::RestoreIme(run.session_id)], EndNext::Finished(Ok(())));
    }
    state.phase = SessionPhase::Inserting;
    (Vec::new(), EndNext::Insert { run, text, focus_target: state.focus_target })
}

/// How a text reaches the cursor.
#[derive(Clone, Copy, PartialEq, Eq, Structural, Debug)]
pub enum InsertRoute {
    /// It is there already.
    AlreadyTyped,
    /// Through the input method, with other ways behind it.
    WindowsImeFirst,
    /// Through the inserter of the platform.
    Inserter,
    /// Only into the clipboard.
    CopyOnly,
    /// Not at all.
    Refuse,
}

/// How a text reaches the cursor. Without the focus of the original window
/// only Linux can still insert; elsewhere the text is at most copied.
pub fn insert_route(
    platform: Platform,
    already_streamed: bool,
    focus_ready: bool,
    allow_fallback: bool,
) -> (r: InsertRoute)
    ensures
        r == (if already_streamed {
            InsertRoute::AlreadyTyped
        } else if focus_ready {
            if platform == Platform::Windows {
                InsertRoute::WindowsImeFirst
            } else {
                InsertRoute::Inserter
            }
        } else if platform == Platform::Linux {
            InsertRoute::Inserter
        } else if allow_fallback {
            InsertRoute::CopyOnly
        } else {
            InsertRoute::Refuse
        }),
{
    if already_streamed {
        InsertRoute::AlreadyTyped
    } else if focus_ready {
        if platform == Platform::Windows {
            InsertRoute::WindowsImeFirst
        } else {
            InsertRoute::Inserter
        }
    } else if platform == Platform::Linux {
        InsertRoute::Inserter
    } else if allow_fallback {
        InsertRoute::CopyOnly
    } else {
        InsertRoute::Refuse
    }
}

/// What the host does to bring a text to the cursor.
#[derive(Debug)]
pub enum InsertAction {
    Nothing,
    WindowsImeFirst {
        session_id: u128,
        text: String,
        preferences: PastePreferences,
        allow_fallback: bool,
    },
    Inserter { text: String, preferences: PastePreferences },
    Copy(String),
}

/// What is done on a route, and with which text.
pub open spec fn does(
    a: InsertAction,
    route: InsertRoute,
    id: u128,
    text: Seq<char>,
    preferences: PastePreferences,
    allow_fallback: bool,
) -> bool {
    match route {
        InsertRoute::AlreadyTyped | InsertRoute::Refuse => a is Nothing,
        InsertRoute::WindowsImeFirst => {
            &&& a is WindowsImeFirst
            &&& a->session_id == id
            &&& a->WindowsImeFirst_text@ == text
            &&& a->WindowsImeFirst_preferences == preferences
            &&& a->allow_fallback == allow_fallback
        },
        InsertRoute::Inserter => {
            &&& a is Inserter
            &&& a->Inserter_text@ == text
            &&& a->Inserter_preferences == preferences
        },
        InsertRoute::CopyOnly => a is Copy && a->Copy_0@ == text,
    }
}

/// What the host does on a route.
pub fn insert_action(
    route: InsertRoute,
    run: EndRun,
    text: &str,
    preferences: PastePreferences,
    allow_fallback: bool,
) -> (r: InsertAction)
    ensures
        does(r, route, run.session_id, text@, preferences, allow_fallback),
{
    match route {
        InsertRoute::AlreadyTyped | InsertRoute::Refuse => InsertAction::Nothing,
        InsertRoute::WindowsImeFirst => InsertAction::WindowsImeFirst {
            session_id: run.session_id,
            text: text.to_owned(),
            preferences,
            allow_fallback,
        },
        InsertRoute::Inserter => InsertAction::Inserter { text: text.to_owned(), preferences },
        InsertRoute::CopyOnly => InsertAction::Copy(text.to_owned()),
    }
}

/// The text has been dealt with: the input method goes back, and the words of
/// the vocabulary are counted in what the user sees.
pub fn landed(run: EndRun, text: &str) -> (r: (Vec<Effect>, EndNext))
    ensures
        r.0@ == seq![Effect::RestoreIme(run.session_id)],
        r.1 is CountHits,
        r.1->CountHits_run == run,
        r.1->CountHits_text@ == text@,
{
    (
        vec![Effect::RestoreIme(run.session_id)],
        EndNext::CountHits { run, text: text.to_owned() },
    )
}

/// The status of a route. `performed` is what the host reports of a route
/// that it has to perform.
pub fn route_status(route: InsertRoute, performed: InsertStatus) -> (r: InsertStatus)
    ensures
        r == (match route {
            InsertRoute::AlreadyTyped => InsertStatus::Inserted,
            InsertRoute::Refuse => InsertStatus::Failed,
            _ => performed,
        }),
{
    match route {
        InsertRoute::AlreadyTyped => InsertStatus::Inserted,
        InsertRoute::Refuse => InsertStatus::Failed,
        _ => performed,
    }
}

/// What is known of a session once its text has been dealt with.
#[derive(Debug)]
pub struct FinishedSession {
    pub run: EndRun,
    pub created_at: String,
    pub raw_text: String,
    pub final_text: String,
    pub mode: PolishMode,
    pub style_pack_id: String,
    pub translation_active: bool,
    pub polish_source: Option<String>,
    pub polish_failed: bool,
    pub duration_ms: u64,
    /// The words of the vocabulary in the text. A count that failed is none.
    pub vocabulary_hits: Result<u64, String>,
    pub archive_active: bool,
    pub limits: HistoryLimits,
    pub status: InsertStatus,
    pub focus_ready: bool,
    pub allow_fallback: bool,
}

/// The words of the vocabulary that were counted.
pub open spec fn counted(hits: Result<u64, String>) -> u64 {
    match hits {
        Ok(n) => n,
        Err(_) => 0,
    }
}

/// `n`, or the largest number that fits.
pub open spec fn capped(n: u64) -> u32 {
    if n <= u32::MAX {
        n as u32
    } else {
        u32::MAX
    }
}

/// The history entry of a finished session.
pub open spec fn is_entry_of(s: DictationSession, f: FinishedSession, platform: Platform) -> bool {
    &&& s.id@ == id_text(f.run.session_id)
    &&& s.created_at == f.created_at
    &&& s.raw_transcript == f.raw_text
    &&& s.final_text@ == f.final_text@
    &&& s.mode == f.mode
    &&& s.style_pack_id == Some(f.style_pack_id)
    &&& s.translation_active == f.translation_active
    &&& s.polish_source == f.polish_source
    &&& s.app_bundle_id is None
    &&& s.app_name is None
    &&& s.insert_status == f.status
    &&& opt_text(s.error_code) == (match error_code_of(
        platform,
        f.status,
        f.polish_failed,
        f.focus_ready,
        f.allow_fallback,
    ) {
        Some(code) => Some(error_code_name(code)),
        None => None,
    })
    &&& s.duration_ms == Some(f.duration_ms)
    &&& s.dictionary_entry_count == Some(capped(counted(f.vocabulary_hits)))
    &&& s.has_audio_recording == Some(f.archive_active)
}

/// The message on the capsule of a finished session.
pub open spec fn final_notice(f: FinishedSession, platform: Platform) -> Option<Notice> {
    if error_code_of(platform, f.status, f.polish_failed, f.focus_ready, f.allow_fallback) == Some(
        DictationErrorCode::WindowsImeTsfRequired,
    ) {
        Some(Notice::TsfRequired)
    } else {
        done_notice(f.status, f.polish_failed)
    }
}

/// The deadline `ms` after `now`.
pub open spec fn deadline(now: u64, ms: u64) -> u64 {
    if now + ms <= u64::MAX {
        (now + ms) as u64
    } else {
        u64::MAX
    }
}

fn deadline_after(now: u64, ms: u64) -> (r: u64)
    ensures
        r == deadline(now, ms),
{
    if now <= u64::MAX - ms {
        now + ms
    } else {
        u64::MAX
    }
}

/// The words have been counted: the history is written, the capsule says how it
/// went, and the next toggle press has to wait for a moment.
pub fn inserted(
    state: &mut SessionState,
    cooldown_until: &mut Option<u64>,
    f: FinishedSession,
    platform: Platform,
    now_ms: u64,
) -> (r: (Vec<Effect>, EndNext))
    ensures
        *final(state) == (SessionState {
            phase: SessionPhase::Idle,
            focus_target: None,
            ..*old(state)
        }),
        *final(cooldown_until) == Some(deadline(now_ms, POST_SESSION_COOLDOWN_MS)),
        r.1 == EndNext::Finished(Ok(())),
        ({
            let hits = counted(f.vocabulary_hits);
            let n = if hits > 0 {
                1int
            } else {
                0
            };
            &&& r.0@.len() == 3 + n
            &&& hits > 0 ==> r.0@[0] == Effect::PublishVocabularyHits(hits)
            &&& r.0@[n] is AppendHistory
            &&& is_entry_of(r.0@[n]->AppendHistory_0, f, platform)
            &&& r.0@[n]->AppendHistory_1 == f.limits
            &&& r.0@[1 + n] == (Effect::Capsule {
                state: CapsuleState::Done,
                elapsed_ms: f.run.elapsed_ms,
                notice: final_notice(f, platform),
                inserted_chars: Some(f.final_text@.len() as u32),
            })
            &&& r.0@[2 + n] == Effect::HideCapsuleLater
        }),
{
    let code: Option<DictationErrorCode> = dictation_error_code(
        platform,
        f.status,
        f.polish_failed,
        f.focus_ready,
        f.allow_fallback,
    );
    let tsf_required: bool = match code {
        Some(DictationErrorCode::WindowsImeTsfRequired) => true,
        _ => false,
    };
    let inserted_chars: u32 = f.final_text.as_str().unicode_len() as u32;
    let hits: u64 = match f.vocabulary_hits {
        Ok(n) => n,
        Err(_) => 0,
    };
    let limits: HistoryLimits = f.limits;
    let notice: Option<Notice> = if tsf_required {
        Some(Notice::TsfRequired)
    } else {
        default_done_message(f.status, f.polish_failed)
    };
    let entry: DictationSession = DictationSession {
        id: session_id_text(f.run.session_id),
        created_at: f.created_at,
        raw_transcript: f.raw_text,
        final_text: f.final_text,
        mode: f.mode,
        style_pack_id: Some(f.style_pack_id),
        translation_active: f.translation_active,
        polish_source: f.polish_source,
        app_bundle_id: None,
        app_name: None,
        insert_status: f.status,
        error_code: match code {
            Some(c) => Some(c.name().to_owned()),
            None => None,
        },
        duration_ms: Some(f.duration_ms),
        dictionary_entry_count: Some(
            if hits <= u32::MAX as u64 {
                hits as u32
            } else {
                u32::MAX
            },
        ),
        has_audio_recording: Some(f.archive_active),
    };
    let mut effects: Vec<Effect> = Vec::new();
    if hits > 0 {
        effects.push(Effect::PublishVocabularyHits(hits));
    }
    effects.push(Effect::AppendHistory(entry, limits));
    effects.push(
        Effect::Capsule {
            state: CapsuleState::Done,
            elapsed_ms: f.run.elapsed_ms,
            notice,
            inserted_chars: Some(inserted_chars),
        },
    );
    effects.push(Effect::HideCapsuleLater);
    state.phase = SessionPhase::Idle;
    state.focus_target = None;
    *cooldown_until = Some(deadline_after(now_ms, POST_SESSION_COOLDOWN_MS));
    (effects, EndNext::Finished(Ok(())))
}

/// The effects of a cancel.
pub open spec fn cancel_effects(id: u128) -> Seq<Effect> {
    seq![
        Effect::StopRecorder(id),
        Effect::CancelAsr(id),
        Effect::RestoreIme(id),
        Effect::Capsule {
            state: CapsuleState::Cancelled,
            elapsed_ms: 0,
            notice: None,
            inserted_chars: None,
        },
        Effect::HideCapsuleLater,
        Effect::HideAgentGlow,
    ]
}

/// The session after a cancel.
pub open spec fn after_cancel(s: SessionState) -> SessionState {
    if !cancellable(s.phase) {
        s
    } else {
        let marked = SessionState { cancelled: true, pending_stop: false, ..s };
        if s.phase == SessionPhase::Processing {
            marked
        } else {
            SessionState { phase: SessionPhase::Idle, focus_target: None, ..marked }
        }
    }
}

/// The user cancels. A session that waits for its transcript is only marked
/// and ends itself; any other session that can be cancelled is idle at once.
pub fn cancel_session(state: &mut SessionState, cooldown_until: &mut Option<u64>, now_ms: u64) -> (r:
    Vec<Effect>)
    ensures
        *final(state) == after_cancel(*old(state)),
        r@ == (if cancellable(old(state).phase) {
            cancel_effects(old(state).session_id)
        } else {
            Seq::<Effect>::empty()
        }),
        *final(cooldown_until) == (if cancellable(old(state).phase) && old(state).phase
            != SessionPhase::Processing {
            Some(deadline(now_ms, POST_SESSION_COOLDOWN_MS))
        } else {
            *old(cooldown_until)
        }),
{
    let decision: crate::session::CancelDecision = match begin_cancel_session_state(state) {
        None => return Vec::new(),
        Some(d) => d,
    };
    if decision.phase != SessionPhase::Processing {
        finish_cancel_session_state(state, decision);
        *cooldown_until = Some(deadline_after(now_ms, POST_SESSION_COOLDOWN_MS));
    }
    vec![
        Effect::StopRecorder(decision.session_id),
        Effect::CancelAsr(decision.session_id),
        Effect::RestoreIme(decision.session_id),
        Effect::Capsule {
            state: CapsuleState::Cancelled,
            elapsed_ms: 0,
            notice: None,
            inserted_chars: None,
        },
        Effect::HideCapsuleLater,
        Effect::HideAgentGlow,
    ]
}

/// A longer recording never gets less time, and fifteen seconds are certain.
pub proof fn law_local_limit_grows(a: u64, b: u64)
    requires
        a <= b,
    ensures
        15 <= local_limit_seconds(a) <= local_limit_seconds(b) <= u64::MAX,
{
}

/// Text that goes to the cursor cannot be cancelled, and an idle program has
/// nothing to cancel.
pub proof fn law_cancel_never_interrupts_insertion(s: SessionState)
    requires
        s.phase == SessionPhase::Inserting || s.phase == SessionPhase::Idle,
    ensures
        after_cancel(s) == s,
{
}

/// A session that was cancelled while it waited for its transcript ends idle
/// without a text, whatever the recogniser says.
pub proof fn law_cancelled_wait_gives_no_text(
    s: SessionState,
    run: EndRun,
    kind: AsrKind,
    end: TranscribeEnd,
)
    requires
        s.phase == SessionPhase::Processing,
        s.session_id == run.session_id,
    ensures
        ({
            let marked = after_cancel(s);
            &&& after_transcript(marked, run, kind, end).phase == SessionPhase::Idle
            &&& transcript_next(marked, run, kind, end) is Finished
        }),
{
}

/// A session that was cancelled while its text was polished inserts nothing,
/// unless it has typed some of it already.
pub proof fn law_cancelled_polish_inserts_nothing(s: SessionState)
    requires
        s.phase == SessionPhase::Processing,
    ensures
        after_polish(after_cancel(s), false).phase == SessionPhase::Idle,
        after_polish(after_cancel(s), true).phase == SessionPhase::Inserting,
{
}

/// A cancel in any other phase that can be cancelled leaves the program idle
/// at once.
pub proof fn law_cancel_frees_the_program(s: SessionState)
    requires
        cancellable(s.phase),
        s.phase != SessionPhase::Processing,
    ensures
        after_cancel(s).phase == SessionPhase::Idle,
        after_cancel(after_cancel(s)) == after_cancel(s),
{
}

/// A stop that came while the session was starting is not lost: the session
/// listens, and ends at once.
pub proof fn law_early_stop_is_kept(s: SessionState, id: u128)
    requires
        s.session_id == id,
        s.phase == SessionPhase::Starting,
        !s.cancelled,
    ensures
        ({
            let asked = SessionState { pending_stop: true, ..s };
            &&& begin_outcome(asked, id) == BeginOutcome::PendingStop
            &&& finished_state(asked, id).phase == SessionPhase::Listening
        }),
{
}

/// Every way in which a session ends gives the input method back.
pub proof fn law_input_method_comes_back(
    s: SessionState,
    run: EndRun,
    kind: AsrKind,
    end: TranscribeEnd,
    notice: Notice,
    elapsed_ms: u64,
    error: String,
)
    ensures
        transcript_next(s, run, kind, end) is Finished ==> transcript_effects(
            s,
            run,
            kind,
            end,
        ).contains(Effect::RestoreIme(run.session_id)),
        cancel_effects(s.session_id).contains(Effect::RestoreIme(s.session_id)),
        failure_effects(s.session_id, elapsed_ms, notice).contains(
            Effect::RestoreIme(s.session_id),
        ),
        drop_effects(s.session_id).contains(Effect::RestoreIme(s.session_id)),
        abort_effects(s, error, elapsed_ms).contains(Effect::RestoreIme(s.session_id)),
        opened_effects(s, s.session_id, kind, Some(error)).contains(
            Effect::RestoreIme(s.session_id),
        ),
{
    let restore = Effect::RestoreIme(s.session_id);
    assert(cancel_effects(s.session_id)[2] == restore);
    assert(failure_effects(s.session_id, elapsed_ms, notice)[1] == restore);
    assert(drop_effects(s.session_id)[1] == restore);
    assert(abort_effects(s, error, elapsed_ms)[1] == restore);
    let opened = opened_effects(s, s.session_id, kind, Some(error));
    if race_status(s, s.session_id) == StartupRaceStatus::ActiveStarting {
        assert(opened[opened.len() - 2] == restore);
    } else {
        assert(opened[2] == restore);
    }
    if transcript_next(s, run, kind, end) is Finished {
        let effects = transcript_effects(s, run, kind, end);
        let back = Effect::RestoreIme(run.session_id);
        if failed_by_cancel(s, kind, end) {
            assert(effects[1] == back);
        } else if end is Text {
            assert(effects[effects.len() - 1] == back);
        } else {
            assert(effects[effects.len() - 2] == back);
        }
    }
}

/// The time for a local model covers six tenths of the recording and ten seconds
/// on top, never less than fifteen seconds and never a full second more than that.
pub proof fn law_local_limit_covers_the_recording(audio_ms: u64, r: u64)
    requires
        call_ensures(local_qwen_transcribe_timeout, (audio_ms,), r),
    ensures
        r >= 15,
        (r - 10) * 1000 * 10 >= audio_ms * 6,
        r > 15 ==> (r - 11) * 1000 * 10 < audio_ms * 6,
{
}

/// The recognisers of Windows keep time themselves, and they alone.
pub proof fn law_who_keeps_time(kind: AsrKind, r: bool)
    requires
        call_ensures(asr_transcribe_uses_global_timeout, (kind,), r),
    ensures
        r <==> kind != AsrKind::FoundryLocalWhisper && kind != AsrKind::SherpaOnnxLocal,
        kind == AsrKind::Whisper || kind == AsrKind::Volcengine || kind == AsrKind::Bailian || kind
            == AsrKind::Mimo || kind == AsrKind::LocalQwen ==> r,
{
}

/// Only a listening session is ended. With a recogniser it is processed from then
/// on, under its own id; without one it is idle and the input method goes back. A
/// recorder that runs is stopped, and the end of the audio is marked for those who
/// get it while it is recorded.
pub proof fn law_end_belongs_to_a_listening_session(
    state: &mut SessionState,
    now_ms: u64,
    has_recorder: bool,
    asr: Option<AsrKind>,
    audio_ms: u64,
    own_time: bool,
    seconds: u64,
    r: (Vec<Effect>, EndNext),
)
    requires
        call_ensures(end_session, (state, now_ms, has_recorder, asr, audio_ms), r),
        asr matches Some(kind) ==> call_ensures(
            asr_transcribe_uses_global_timeout,
            (kind,),
            !own_time,
        ),
        call_ensures(local_qwen_transcribe_timeout, (audio_ms,), seconds),
    ensures
        old(state).phase != SessionPhase::Listening ==> *final(state) == *old(state) && r.0@.len() == 0 && r.1
            == EndNext::Finished(Ok(())),
        old(state).phase == SessionPhase::Listening ==> {
            &&& r.0@[0] is Capsule && r.0@[0]->state == CapsuleState::Transcribing
            &&& r.0@.contains(Effect::StopRecorder(old(state).session_id)) <==> has_recorder
            &&& r.0@.contains(Effect::ReleaseMute) <==> has_recorder
            &&& r.0@.contains(Effect::RestoreIme(old(state).session_id)) <==> asr is None
            &&& final(state).session_id == old(state).session_id
            &&& final(state).focus_target == old(state).focus_target
            &&& asr is None ==> final(state).phase == SessionPhase::Idle && r.1
                == EndNext::Finished(Ok(()))
            &&& asr is Some ==> {
                &&& final(state).phase == SessionPhase::Processing
                &&& r.1 is Transcribe
                &&& r.1->kind == asr->0
                &&& r.1->Transcribe_run.session_id == old(state).session_id
                &&& old(state).started_at_ms <= now_ms ==> r.1->Transcribe_run.elapsed_ms == now_ms
                    - old(state).started_at_ms
                &&& r.1->send_last_frame <==> asr->0 == AsrKind::Volcengine || asr->0
                    == AsrKind::Bailian
                &&& r.1->limit == TimeLimit::Own <==> own_time
                &&& asr->0 == AsrKind::LocalQwen <==> r.1->limit is Seconds
                &&& r.1->limit is Seconds ==> r.1->limit->Seconds_0 == seconds
            }
        },
{
    if old(state).phase == SessionPhase::Listening {
        law_local_limit_grows(audio_ms, audio_ms);
        if has_recorder {
            assert(r.0@[1] == Effect::StopRecorder(old(state).session_id));
            assert(r.0@[2] == Effect::ReleaseMute);
        }
        if asr is None {
            assert(r.0@.last() == Effect::RestoreIme(old(state).session_id));
        }
    }
}

/// A text that was recognised is looked at, under the same run, exactly if the
/// session was not cancelled meanwhile; then nothing of the session changes. What
/// fails or takes too long ends the session with the error that says so; a session
/// that was cancelled ends without one where a text came.
pub proof fn law_recognised_text_is_looked_at(
    state: &mut SessionState,
    run: EndRun,
    kind: AsrKind,
    end: TranscribeEnd,
    r: (Vec<Effect>, EndNext),
)
    requires
        call_ensures(transcribed, (state, run, kind, end), r),
    ensures
        r.1 is Inspect <==> end is Text && !old(state).cancelled,
        r.1 is Inspect ==> r.1->Inspect_0 == run && *final(state) == *old(state),
        !(r.1 is Inspect) ==> r.1 is Finished && r.0@.contains(Effect::RestoreIme(run.session_id)),
        !(r.1 is Inspect) && old(state).session_id == run.session_id ==> final(state).phase
            == SessionPhase::Idle,
        end is Text && old(state).cancelled ==> r.1 == EndNext::Finished(Ok(())),
        end is TimedOut ==> r.1 == EndNext::Finished(Err(SessionError::TimedOut(kind))),
        end is Failed && !old(state).cancelled ==> r.1 == EndNext::Finished(
            Err(SessionError::Reported(end->Failed_0)),
        ),
        end is Failed && old(state).cancelled && (kind == AsrKind::FoundryLocalWhisper || kind
            == AsrKind::SherpaOnnxLocal) ==> r.1 == EndNext::Finished(Ok(())),
        r.1 is Finished && r.1->Finished_0 is Err ==> r.0@.contains(Effect::HideCapsuleLater),
        end is TimedOut && (kind == AsrKind::Volcengine || kind == AsrKind::Bailian)
            ==> r.0@.contains(Effect::CancelAsr(run.session_id)),
        kind == AsrKind::FoundryLocalWhisper || kind == AsrKind::SherpaOnnxLocal ==> r.0@.contains(
            Effect::ScheduleRelease { kind, session: Some(run.session_id) },
        ),
        kind == AsrKind::LocalQwen ==> r.0@.contains(Effect::ScheduleRelease { kind, session: None }),
        kind == AsrKind::Whisper || kind == AsrKind::Mimo || kind == AsrKind::Volcengine || kind
            == AsrKind::Bailian ==> !(r.0@.len() > 0 && r.0@[0] is ScheduleRelease),
{
    let id = run.session_id;
    let back = Effect::RestoreIme(id);
    let n = r.0@.len();
    if failed_by_cancel(*old(state), kind, end) {
        assert(r.0@[1] == back);
        assert(r.0@[0] == release_of(kind, id));
    } else if end is Text {
        if old(state).cancelled {
            assert(r.0@[n - 1] == back);
        }
    } else {
        assert(r.0@[n - 2] == back);
        assert(r.0@[n - 1] == Effect::HideCapsuleLater);
    }
    if end is TimedOut && (kind == AsrKind::Volcengine || kind == AsrKind::Bailian) {
        assert(r.0@[0] == Effect::CancelAsr(id));
    }
    if is_local(kind) {
        assert(r.0@[0] == release_of(kind, id));
    }
}

/// A failure is shown in the words that belong to it: those of the recogniser, on
/// this machine or elsewhere, or that it took too long.
pub proof fn law_failed_recognition_is_shown(
    state: &mut SessionState,
    run: EndRun,
    kind: AsrKind,
    end: TranscribeEnd,
    r: (Vec<Effect>, EndNext),
)
    requires
        call_ensures(transcribed, (state, run, kind, end), r),
        !state.cancelled,
        !(end is Text),
    ensures
        r.0@.len() >= 3,
        ({
            let shown = r.0@[r.0@.len() - 3];
            &&& shown is Capsule
            &&& shown->state == CapsuleState::Error
            &&& shown->elapsed_ms == run.elapsed_ms
            &&& end is TimedOut ==> shown->notice == Some(Notice::RecognitionTimedOut)
            &&& end is Failed && (kind == AsrKind::Whisper || kind == AsrKind::Mimo || kind
                == AsrKind::Volcengine || kind == AsrKind::Bailian) ==> shown->notice == Some(
                Notice::RecognitionFailed(end->Failed_0),
            )
            &&& end is Failed && (kind == AsrKind::LocalQwen || kind == AsrKind::FoundryLocalWhisper
                || kind == AsrKind::SherpaOnnxLocal) ==> shown->notice == Some(
                Notice::LocalRecognitionFailed(end->Failed_0),
            )
        }),
{
}

/// Where nothing was heard, the session ends: the history has an entry that says
/// so, with the length of the recording, and the error is told.
pub proof fn law_silence_ends_the_session(
    state: &mut SessionState,
    run: EndRun,
    raw: RawTranscript,
    stand_in: Option<String>,
    rec: EmptyRecord,
    rules: &Vec<CorrectionRule>,
    name: &'static str,
    r: (Vec<Effect>, EndNext),
)
    requires
        call_ensures(inspect_transcript, (state, run, raw, stand_in, rec, rules), r),
        call_ensures(DictationErrorCode::name, (DictationErrorCode::EmptyTranscript,), name),
        blank(raw.text@),
        stand_in is None || blank(stand_in->0@),
    ensures
        r.1 == EndNext::Finished(Err(SessionError::EmptyTranscript)),
        final(state).phase == SessionPhase::Idle,
        final(state).session_id == old(state).session_id,
        r.0@.contains(Effect::RestoreIme(run.session_id)),
        r.0@.contains(Effect::HideCapsuleLater),
        r.0@[0] is AppendHistory,
        r.0@[0]->AppendHistory_1 == rec.limits,
        ({
            let entry = r.0@[0]->AppendHistory_0;
            &&& entry.id == rec.id
            &&& entry.created_at == rec.created_at
            &&& entry.insert_status == InsertStatus::Failed
            &&& entry.final_text@.len() == 0
            &&& blank(entry.raw_transcript@)
            &&& entry.error_code is Some && entry.error_code->0@ == name@
            &&& entry.duration_ms == Some(raw.duration_ms)
            &&& entry.has_audio_recording == Some(rec.archive_active)
            &&& entry.dictionary_entry_count == Some(rec.vocabulary_size)
            &&& entry.mode == rec.mode
        }),
{
    assert(r.0@[2] == Effect::RestoreIme(run.session_id));
    assert(r.0@[3] == Effect::HideCapsuleLater);
}

/// What was heard goes on, corrected by the user's rules: to the agent if the
/// session is one for it, and else to be polished. The stand-in for tests counts
/// only where nothing was heard. The session stays as it is.
pub proof fn law_heard_text_goes_on_corrected(
    state: &mut SessionState,
    run: EndRun,
    raw: RawTranscript,
    stand_in: Option<String>,
    rec: EmptyRecord,
    rules: &Vec<CorrectionRule>,
    text: &str,
    fixed: String,
    r: (Vec<Effect>, EndNext),
)
    requires
        call_ensures(inspect_transcript, (state, run, raw, stand_in, rec, rules), r),
        !blank(raw.text@) ==> text@ == raw.text@,
        blank(raw.text@) ==> stand_in is Some && text@ == stand_in->0@ && !blank(text@),
        call_ensures(apply_correction_rules, (text, rules), fixed),
    ensures
        *final(state) == *old(state),
        r.1 is RunAgent <==> old(state).voice_agent,
        r.1 is Polish <==> !old(state).voice_agent,
        r.1 is RunAgent ==> r.1->RunAgent_text@ == fixed@ && r.1->RunAgent_run == run
            && r.0@.len() == 0,
        r.1 is Polish ==> r.1->Polish_text@ == fixed@ && r.1->Polish_run == run && r.0@.len() == 1
            && r.0@[0] is Capsule && r.0@[0]->state == CapsuleState::Polishing,
{
}

/// A record of silence needs a date, has an id that is one, and keeps the settings.
pub proof fn law_empty_record_keeps_the_settings(
    secs: i64,
    nanos: u32,
    mode: PolishMode,
    size: u32,
    archive: bool,
    limits: HistoryLimits,
    date: Option<String>,
    r: Option<EmptyRecord>,
)
    requires
        call_ensures(created_at, (secs, nanos), date),
        call_ensures(empty_record, (secs, nanos, mode, size, archive, limits), r),
    ensures
        r is Some <==> date is Some,
        r matches Some(rec) ==> rec.created_at@ == date->0@ && rec.mode == mode
            && rec.vocabulary_size == size && rec.archive_active == archive && rec.limits == limits
            && rec.id@.len() == 36,
{
}

/// Rules that can be read are all used, and those that cannot are none.
pub proof fn law_rules_are_used_as_read(
    loaded: Result<Vec<CorrectionRule>, String>,
    r: Vec<CorrectionRule>,
)
    requires
        call_ensures(correction_rules, (loaded,), r),
    ensures
        loaded is Ok ==> r@ == loaded->Ok_0@,
        loaded is Err ==> r@.len() == 0,
{
}

/// The final text goes to the cursor, in the window that the session began in,
/// unless the session was cancelled before any of it was typed. From then on the
/// session inserts.
pub proof fn law_final_text_goes_to_the_cursor(
    state: &mut SessionState,
    run: EndRun,
    text: String,
    origin: TextOrigin,
    pref: ChineseScriptPreference,
    rules: &Vec<CorrectionRule>,
    streamed: bool,
    last: String,
    r: (Vec<Effect>, EndNext),
)
    requires
        call_ensures(finalize_polished_text, (text, origin, pref, rules, streamed), last),
        call_ensures(polished, (state, run, text, origin, pref, rules, streamed), r),
    ensures
        r.1 is Insert <==> !old(state).cancelled || streamed,
        r.1 is Insert ==> r.1->Insert_text@ == last@ && r.1->Insert_run == run
            && r.1->Insert_focus_target == old(state).focus_target && r.0@.len() == 0
            && final(state).phase == SessionPhase::Inserting,
        !(r.1 is Insert) ==> r.1 == EndNext::Finished(Ok(())) && final(state).phase
            == SessionPhase::Idle && r.0@.len() == 1 && r.0@[0] == Effect::RestoreIme(
            run.session_id,
        ),
        final(state).session_id == old(state).session_id,
        final(state).cancelled == old(state).cancelled,
{
}

/// A text takes the way that is open to it: none if it is there already, the input
/// method or the inserter while the window has the focus, on Linux the inserter in
/// any case. Without the focus it is copied where that is allowed and refused where
/// it is not.
pub proof fn law_which_way_a_text_takes(
    platform: Platform,
    streamed: bool,
    focus: bool,
    fallback: bool,
    r: InsertRoute,
)
    requires
        call_ensures(insert_route, (platform, streamed, focus, fallback), r),
    ensures
        r == InsertRoute::AlreadyTyped <==> streamed,
        r == InsertRoute::WindowsImeFirst <==> !streamed && focus && platform == Platform::Windows,
        r == InsertRoute::Inserter <==> !streamed && (platform == Platform::Linux || (focus
            && platform == Platform::MacOs)),
        r == InsertRoute::Refuse ==> !focus && !fallback && platform != Platform::Linux,
        r == InsertRoute::CopyOnly ==> !focus && fallback && platform != Platform::Linux,
{
}

/// On every way that carries a text it is the text that was given, with the user's
/// preferences; nothing is done for one that is there or that is refused. What the
/// host reports is the status, except that a typed text counts as inserted and a
/// refused one as failed.
pub proof fn law_way_carries_the_text(
    route: InsertRoute,
    run: EndRun,
    text: &str,
    preferences: PastePreferences,
    fallback: bool,
    performed: InsertStatus,
    a: InsertAction,
    status: InsertStatus,
    next: (Vec<Effect>, EndNext),
)
    requires
        call_ensures(insert_action, (route, run, text, preferences, fallback), a),
        call_ensures(route_status, (route, performed), status),
        call_ensures(landed, (run, text), next),
    ensures
        a is Nothing <==> route == InsertRoute::AlreadyTyped || route == InsertRoute::Refuse,
        a is WindowsImeFirst <==> route == InsertRoute::WindowsImeFirst,
        a is Inserter <==> route == InsertRoute::Inserter,
        a is Copy <==> route == InsertRoute::CopyOnly,
        a is WindowsImeFirst ==> a->WindowsImeFirst_text@ == text@ && a->session_id
            == run.session_id && a->allow_fallback == fallback && a->WindowsImeFirst_preferences
            == preferences,
        a is Inserter ==> a->Inserter_text@ == text@ && a->Inserter_preferences == preferences,
        a is Copy ==> a->Copy_0@ == text@,
        route == InsertRoute::AlreadyTyped ==> status == InsertStatus::Inserted,
        route == InsertRoute::Refuse ==> status == InsertStatus::Failed,
        !(a is Nothing) ==> status == performed,
        next.1 is CountHits && next.1->CountHits_text@ == text@ && next.1->CountHits_run == run,
        next.0@.contains(Effect::RestoreIme(run.session_id)),
{
    assert(next.0@[0] == Effect::RestoreIme(run.session_id));
}

/// The history gets what became of the session: its own id, what was said, what
/// came of it, how it was made and how it ended. Words of the vocabulary are told
/// to their page only if there are any.
pub proof fn law_history_keeps_the_session(
    state: &mut SessionState,
    cooldown: &mut Option<u64>,
    f: FinishedSession,
    platform: Platform,
    now_ms: u64,
    code: Option<DictationErrorCode>,
    r: (Vec<Effect>, EndNext),
    k: int,
)
    requires
        call_ensures(inserted, (state, cooldown, f, platform, now_ms), r),
        call_ensures(
            dictation_error_code,
            (platform, f.status, f.polish_failed, f.focus_ready, f.allow_fallback),
            code,
        ),
        0 <= k < r.0@.len(),
        r.0@[k] is AppendHistory,
    ensures
        r.0@[k]->AppendHistory_1 == f.limits,
        ({
            let entry = r.0@[k]->AppendHistory_0;
            &&& entry.id@ == id_text(f.run.session_id)
            &&& entry.created_at == f.created_at
            &&& entry.raw_transcript == f.raw_text
            &&& entry.final_text@ == f.final_text@
            &&& entry.mode == f.mode
            &&& entry.style_pack_id == Some(f.style_pack_id)
            &&& entry.translation_active == f.translation_active
            &&& entry.polish_source == f.polish_source
            &&& entry.insert_status == f.status
            &&& entry.duration_ms == Some(f.duration_ms)
            &&& entry.has_audio_recording == Some(f.archive_active)
            &&& entry.error_code is Some <==> code is Some
            &&& f.vocabulary_hits is Err ==> entry.dictionary_entry_count == Some(0u32)
            &&& f.vocabulary_hits is Ok && f.vocabulary_hits->Ok_0 <= 0xffff_ffff
                ==> entry.dictionary_entry_count is Some && entry.dictionary_entry_count->0
                == f.vocabulary_hits->Ok_0
        }),
        f.vocabulary_hits is Ok && f.vocabulary_hits->Ok_0 > 0 ==> k == 1 && r.0@[0]
            == Effect::PublishVocabularyHits(f.vocabulary_hits->Ok_0),
        f.vocabulary_hits is Err ==> k == 0,
{
}

/// However it went, a session that has inserted is over: the program is idle, the
/// window is forgotten, the next toggle press has to wait, and the capsule says
/// that it is done, with what the user should know.
pub proof fn law_inserted_session_is_over(
    state: &mut SessionState,
    cooldown: &mut Option<u64>,
    f: FinishedSession,
    platform: Platform,
    now_ms: u64,
    message: Option<Notice>,
    r: (Vec<Effect>, EndNext),
)
    requires
        call_ensures(inserted, (state, cooldown, f, platform, now_ms), r),
        call_ensures(default_done_message, (f.status, f.polish_failed), message),
        now_ms < 0xffff_ffff_ffff_0000,
    ensures
        r.1 == EndNext::Finished(Ok(())),
        final(state).phase == SessionPhase::Idle,
        final(state).focus_target is None,
        final(state).session_id == old(state).session_id,
        *final(cooldown) is Some && final(cooldown)->0 > now_ms,
        final(cooldown)->0 == now_ms + 450,
        r.0@.len() >= 3,
        r.0@.last() == Effect::HideCapsuleLater,
        ({
            let done = r.0@[r.0@.len() - 2];
            &&& done is Capsule
            &&& done->state == CapsuleState::Done
            &&& done->elapsed_ms == f.run.elapsed_ms
            &&& f.final_text@.len() <= 0xffff_ffff ==> done->inserted_chars is Some
                && done->inserted_chars->0 == f.final_text@.len()
            &&& f.status != InsertStatus::Failed ==> done->notice == message
            &&& f.status == InsertStatus::Failed && platform == Platform::Windows && f.focus_ready
                && !f.allow_fallback ==> done->notice == Some(Notice::TsfRequired)
        }),
        exists|k: int| 0 <= k < r.0@.len() && (#[trigger] r.0@[k]) is AppendHistory,
{
    let n = if counted(f.vocabulary_hits) > 0 {
        1int
    } else {
        0
    };
    assert(r.0@[n] is AppendHistory);
}

/// A cancel reaches every session that has not come to its insertion, undoes what
/// was set up for it and says so. A session that waits for its transcript is only
/// marked; any other is idle at once, and then the next toggle press has to wait.
pub proof fn law_cancel_undoes_the_session(
    state: &mut SessionState,
    cooldown: &mut Option<u64>,
    now_ms: u64,
    r: Vec<Effect>,
)
    requires
        call_ensures(cancel_session, (state, cooldown, now_ms), r),
        now_ms < 0xffff_ffff_ffff_0000,
    ensures
        ({
            let reached = old(state).phase == SessionPhase::Starting || old(state).phase
                == SessionPhase::Listening || old(state).phase == SessionPhase::Processing;
            &&& r@.len() > 0 <==> reached
            &&& !reached ==> *final(state) == *old(state) && *final(cooldown) == *old(cooldown)
            &&& reached ==> final(state).cancelled && !final(state).pending_stop
                && final(state).session_id == old(state).session_id
            &&& reached ==> r@.contains(Effect::StopRecorder(old(state).session_id)) && r@.contains(
                Effect::CancelAsr(old(state).session_id),
            ) && r@.contains(Effect::RestoreIme(old(state).session_id)) && r@.contains(
                Effect::HideAgentGlow,
            ) && r@.contains(Effect::HideCapsuleLater)
            &&& reached ==> exists|k: int|
                0 <= k < r@.len() && (#[trigger] r@[k]) is Capsule && r@[k]->state
                    == CapsuleState::Cancelled && r@[k]->elapsed_ms == 0 && r@[k]->notice is None
                    && r@[k]->inserted_chars is None
            &&& old(state).phase == SessionPhase::Processing ==> final(state).phase
                == SessionPhase::Processing && *final(cooldown) == *old(cooldown)
            &&& reached && old(state).phase != SessionPhase::Processing ==> final(state).phase
                == SessionPhase::Idle && *final(cooldown) is Some && final(cooldown)->0 == now_ms
                + 450
        }),
{
    if r@.len() > 0 {
        assert(r@[0] == Effect::StopRecorder(old(state).session_id));
        assert(r@[1] == Effect::CancelAsr(old(state).session_id));
        assert(r@[2] == Effect::RestoreIme(old(state).session_id));
        assert(r@[3]->state == CapsuleState::Cancelled);
        assert(r@[4] == Effect::HideCapsuleLater);
        assert(r@[5] == Effect::HideAgentGlow);
    }
}

} // verus!
