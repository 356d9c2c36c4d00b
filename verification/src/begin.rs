//! The start of a dictation session, from the key press to `Listening`.
//!
//! Each function takes what the host has found out and answers with the
//! effects to perform and with the next thing to find out. The host performs
//! the effects before it reports the next finding; a cancel or a new session
//! may come in between and shows in the state.

use crate::effects::{Effect, Notice, SessionError};
use crate::providers::{
    batch_asr_chunk_limit_ms, chunk_limit_of, enabled_hotwords, enabled_of, enabled_phrases,
    is_bailian_provider, is_mimo_provider, is_whisper_compatible_provider, request_format_of, texts,
    verbose_json_supported, whisper_compatible, whisper_request_format,
    whisper_supports_verbose_json, AsrRequestFormat, VocabularyEntry,
};
use crate::session::{
    begin_outcome, begin_recording_abort_before_restore, begin_session_state, elapsed_spec,
    finish_starting_session_state, publish_abort_idle_after_restore, race_status,
    request_stop_during_starting_state, set_phase_idle_if_session_matches,
    startup_race_status_for_starting, with_phase, BeginOutcome, SessionState, StartupRaceStatus,
};
use crate::sherpa::{catalogue_files, model_alias_is_known, DEFAULT_MODEL_ALIAS, PROVIDER_ID};
use crate::text::{str_eq, trim, trimmed};
use crate::types::{opt_text, AsrKind, CapsuleState, Platform, SessionPhase};
use vstd::prelude::*;

verus! {

/// Levels are shown at most once in this time.
pub const LEVEL_EMIT_MIN_INTERVAL_MS: u64 = 33;

/// The local Whisper of Foundry.
pub const FOUNDRY_PROVIDER_ID: &'static str = "foundry-local-whisper";

pub const FOUNDRY_DEFAULT_MODEL_ALIAS: &'static str = "whisper-large-v3-turbo";

/// What the host has to do next on behalf of a starting session.
#[derive(Debug)]
pub enum BeginNext {
    CheckCredentials,
    CheckMicrophone,
    /// Load the model of a local recogniser, then report it.
    LoadModel(RecogniserSetup),
    /// Keep the recogniser under the session and start the recorder.
    StartRecorder(RecogniserSetup),
    /// Connect the recogniser.
    OpenAsr(AsrKind),
    /// Enter `Listening`.
    FinishStarting,
    /// A stop is waiting: end the session at once.
    EndSession,
    Finished(Result<(), SessionError>),
}

/// The recogniser to build for a session.
#[derive(Debug)]
pub struct RecogniserSetup {
    pub kind: AsrKind,
    /// The model of a local recogniser.
    pub model_alias: Option<String>,
    pub language_hint: Option<String>,
    /// Where the Foundry runtime comes from.
    pub runtime_source: Option<String>,
    /// The request parameters of a Whisper-style service.
    pub chunk_limit_ms: Option<u64>,
    pub verbose_json: bool,
    pub request_format: AsrRequestFormat,
    /// What a Whisper-style service is prompted with.
    pub phrases: Vec<String>,
    /// The vocabulary that Volcengine is given.
    pub hotwords: Vec<VocabularyEntry>,
}

/// What the preferences say of a local recogniser.
#[derive(Debug)]
pub struct LocalModelPrefs {
    pub model_alias: String,
    pub language_hint: String,
}

/// The recogniser has to connect before audio can flow into it.
pub open spec fn connects(kind: AsrKind) -> bool {
    kind == AsrKind::Bailian || kind == AsrKind::Volcengine
}

/// The recogniser has a model to load before recording may begin.
pub open spec fn loads_first(kind: AsrKind) -> bool {
    kind == AsrKind::SherpaOnnxLocal || kind == AsrKind::LocalQwen
}

/// One of the local Qwen recognisers of macOS.
pub open spec fn local_qwen_id(id: Seq<char>) -> bool {
    id == "local-qwen3"@ || id == "local-qwen3-mlx"@ || id == "local-qwen3-c"@
}

/// The recogniser behind a provider id. A local recogniser counts only on
/// the platform that has it; an id nobody knows means Volcengine.
pub open spec fn kind_of(platform: Platform, id: Seq<char>) -> AsrKind {
    if platform == Platform::Windows && id == FOUNDRY_PROVIDER_ID@ {
        AsrKind::FoundryLocalWhisper
    } else if platform == Platform::Windows && id == PROVIDER_ID@ {
        AsrKind::SherpaOnnxLocal
    } else if platform == Platform::MacOs && local_qwen_id(id) {
        AsrKind::LocalQwen
    } else if id == "bailian"@ {
        AsrKind::Bailian
    } else if id == "mimo"@ {
        AsrKind::Mimo
    } else if whisper_compatible(id) {
        AsrKind::Whisper
    } else {
        AsrKind::Volcengine
    }
}

pub fn asr_kind_of(platform: Platform, id: &str) -> (r: AsrKind)
    ensures
        r == kind_of(platform, id@),
{
    if platform == Platform::Windows && str_eq(id, FOUNDRY_PROVIDER_ID) {
        AsrKind::FoundryLocalWhisper
    } else if platform == Platform::Windows && str_eq(id, PROVIDER_ID) {
        AsrKind::SherpaOnnxLocal
    } else if platform == Platform::MacOs && (str_eq(id, "local-qwen3") || str_eq(
        id,
        "local-qwen3-mlx",
    ) || str_eq(id, "local-qwen3-c")) {
        AsrKind::LocalQwen
    } else if is_bailian_provider(id) {
        AsrKind::Bailian
    } else if is_mimo_provider(id) {
        AsrKind::Mimo
    } else if is_whisper_compatible_provider(id) {
        AsrKind::Whisper
    } else {
        AsrKind::Volcengine
    }
}

/// The hint without blanks around it; a blank one is no hint.
pub open spec fn hint_of(hint: Seq<char>) -> Option<Seq<char>> {
    if trimmed(hint).len() == 0 {
        None
    } else {
        Some(trimmed(hint))
    }
}

/// The hint without blanks around it; a blank one is no hint.
pub fn language_hint(hint: &str) -> (r: Option<String>)
    ensures
        match r {
            Some(h) => hint_of(hint@) == Some(h@),
            None => hint_of(hint@) is None,
        },
{
    let t: String = trim(hint);
    if t.as_str().is_empty() {
        None
    } else {
        Some(t)
    }
}

/// `setup` is the recogniser for provider `active_asr`.
pub open spec fn setup_matches(
    setup: RecogniserSetup,
    platform: Platform,
    active_asr: Seq<char>,
    foundry: LocalModelPrefs,
    foundry_alias_known: bool,
    foundry_source: Seq<char>,
    sherpa: LocalModelPrefs,
    vocabulary: Seq<VocabularyEntry>,
) -> bool {
    &&& setup.kind == kind_of(platform, active_asr)
    &&& match setup.kind {
        AsrKind::FoundryLocalWhisper => {
            &&& setup.model_alias is Some
            &&& setup.model_alias->0@ == (if foundry_alias_known {
                foundry.model_alias@
            } else {
                FOUNDRY_DEFAULT_MODEL_ALIAS@
            })
            &&& match setup.language_hint {
                Some(h) => hint_of(foundry.language_hint@) == Some(h@),
                None => hint_of(foundry.language_hint@) is None,
            }
        },
        AsrKind::SherpaOnnxLocal => {
            &&& setup.model_alias is Some
            &&& setup.model_alias->0@ == (if catalogue_files(sherpa.model_alias@) is Some {
                sherpa.model_alias@
            } else {
                DEFAULT_MODEL_ALIAS@
            })
            &&& match setup.language_hint {
                Some(h) => hint_of(sherpa.language_hint@) == Some(h@),
                None => hint_of(sherpa.language_hint@) is None,
            }
        },
        _ => setup.model_alias is None && setup.language_hint is None,
    }
    &&& opt_text(setup.runtime_source) == (if setup.kind == AsrKind::FoundryLocalWhisper {
        Some(foundry_source)
    } else {
        None
    })
    &&& setup.kind == AsrKind::Whisper ==> {
        &&& setup.chunk_limit_ms == chunk_limit_of(active_asr)
        &&& setup.verbose_json == verbose_json_supported(active_asr)
        &&& setup.request_format == request_format_of(active_asr)
    }
    &&& setup.kind != AsrKind::Whisper ==> {
        &&& setup.chunk_limit_ms is None
        &&& !setup.verbose_json
        &&& setup.request_format == AsrRequestFormat::Multipart
    }
    &&& texts(setup.phrases@) == (if setup.kind == AsrKind::Whisper {
        enabled_of(vocabulary)
    } else {
        Seq::empty()
    })
    &&& setup.hotwords@ == (if setup.kind == AsrKind::Volcengine {
        vocabulary
    } else {
        Seq::empty()
    })
}

/// Chooses and parameterises the recogniser of a session. A Whisper-style
/// service hears of the phrases that count, Volcengine of the whole vocabulary.
pub fn choose_recogniser(
    platform: Platform,
    active_asr: &str,
    foundry: &LocalModelPrefs,
    foundry_alias_known: bool,
    foundry_source: &str,
    sherpa: &LocalModelPrefs,
    vocabulary: &Vec<VocabularyEntry>,
) -> (r: RecogniserSetup)
    ensures
        setup_matches(
            r,
            platform,
            active_asr@,
            *foundry,
            foundry_alias_known,
            foundry_source@,
            *sherpa,
            vocabulary@,
        ),
{
    let kind: AsrKind = asr_kind_of(platform, active_asr);
    let mut setup: RecogniserSetup = RecogniserSetup {
        kind,
        model_alias: None,
        language_hint: None,
        runtime_source: None,
        chunk_limit_ms: None,
        verbose_json: false,
        request_format: AsrRequestFormat::Multipart,
        phrases: Vec::new(),
        hotwords: Vec::new(),
    };
    proof {
        assert(texts(setup.phrases@) =~= Seq::<Seq<char>>::empty());
    }
    match kind {
        AsrKind::FoundryLocalWhisper => {
            setup.model_alias = Some(
                if foundry_alias_known {
                    foundry.model_alias.clone()
                } else {
                    FOUNDRY_DEFAULT_MODEL_ALIAS.to_owned()
                },
            );
            setup.language_hint = language_hint(foundry.language_hint.as_str());
            setup.runtime_source = Some(foundry_source.to_owned());
        },
        AsrKind::SherpaOnnxLocal => {
            setup.model_alias = Some(
                if model_alias_is_known(sherpa.model_alias.as_str()) {
                    sherpa.model_alias.clone()
                } else {
                    DEFAULT_MODEL_ALIAS.to_owned()
                },
            );
            setup.language_hint = language_hint(sherpa.language_hint.as_str());
        },
        AsrKind::Whisper => {
            setup.chunk_limit_ms = batch_asr_chunk_limit_ms(active_asr);
            setup.verbose_json = whisper_supports_verbose_json(active_asr);
            setup.request_format = whisper_request_format(active_asr);
            setup.phrases = enabled_phrases(vocabulary);
        },
        AsrKind::Volcengine => {
            setup.hotwords = enabled_hotwords(vocabulary);
        },
        _ => {},
    }
    setup
}

/// The capsule shows an error.
pub open spec fn error_capsule(elapsed_ms: u64, notice: Notice) -> Effect {
    Effect::Capsule {
        state: CapsuleState::Error,
        elapsed_ms,
        notice: Some(notice),
        inserted_chars: None,
    }
}

fn show_error(elapsed_ms: u64, notice: Notice) -> (r: Effect)
    ensures
        r == error_capsule(elapsed_ms, notice),
{
    Effect::Capsule {
        state: CapsuleState::Error,
        elapsed_ms,
        notice: Some(notice),
        inserted_chars: None,
    }
}

/// The capsule shows that recording runs.
pub open spec fn recording_capsule(elapsed_ms: u64) -> Effect {
    Effect::Capsule {
        state: CapsuleState::Recording,
        elapsed_ms,
        notice: None,
        inserted_chars: None,
    }
}

/// The effects with which a session opens.
pub open spec fn opening_effects(platform: Platform, id: u128) -> Seq<Effect> {
    if platform == Platform::Windows {
        seq![Effect::PrepareIme(id), Effect::ClearTranslationFlag]
    } else {
        seq![Effect::ClearTranslationFlag]
    }
}

/// Opens session `id`. While another session runs this does nothing. In a dry
/// run the session listens at once, without recording anything.
pub fn begin_session(
    state: &mut SessionState,
    id: u128,
    now_ms: u64,
    focus_target: Option<u64>,
    front_app: Option<String>,
    platform: Platform,
    dry_run: bool,
) -> (r: (Vec<Effect>, BeginNext))
    ensures
        old(state).phase != SessionPhase::Idle ==> {
            &&& *final(state) == *old(state)
            &&& r.0@ == Seq::<Effect>::empty()
            &&& r.1 == BeginNext::Finished(Ok(()))
        },
        old(state).phase == SessionPhase::Idle ==> {
            &&& *final(state) == (SessionState {
                phase: if dry_run {
                    SessionPhase::Listening
                } else {
                    SessionPhase::Starting
                },
                session_id: id,
                cancelled: false,
                pending_stop: false,
                started_at_ms: now_ms,
                focus_target,
                front_app,
                voice_agent: false,
            })
            &&& r.0@ == (if dry_run {
                opening_effects(platform, id).push(recording_capsule(0))
            } else {
                opening_effects(platform, id)
            })
            &&& r.1 == (if dry_run {
                BeginNext::Finished(Ok(()))
            } else {
                BeginNext::CheckCredentials
            })
        },
{
    if begin_session_state(state, id, now_ms, focus_target, front_app).is_none() {
        return (Vec::new(), BeginNext::Finished(Ok(())));
    }
    let mut effects: Vec<Effect> = Vec::new();
    if platform == Platform::Windows {
        effects.push(Effect::PrepareIme(id));
    }
    effects.push(Effect::ClearTranslationFlag);
    if dry_run {
        effects.push(
            Effect::Capsule {
                state: CapsuleState::Recording,
                elapsed_ms: 0,
                notice: None,
                inserted_chars: None,
            },
        );
        state.phase = SessionPhase::Listening;
        return (effects, BeginNext::Finished(Ok(())));
    }
    (effects, BeginNext::CheckCredentials)
}

/// The credentials of the recogniser were looked at; `problem` says what is
/// wrong with them.
pub fn credentials_checked(state: &mut SessionState, id: u128, problem: Option<String>) -> (r: (
    Vec<Effect>,
    BeginNext,
))
    ensures
        match problem {
            None => {
                &&& *final(state) == *old(state)
                &&& r.0@ == Seq::<Effect>::empty()
                &&& r.1 == BeginNext::CheckMicrophone
            },
            Some(m) => {
                &&& *final(state) == with_phase(*old(state), SessionPhase::Idle)
                &&& r.0@ == seq![error_capsule(0, Notice::Text(m)), Effect::RestoreIme(id)]
                &&& r.1 == BeginNext::Finished(Err(SessionError::Reported(m)))
            },
        },
{
    match problem {
        None => (Vec::new(), BeginNext::CheckMicrophone),
        Some(m) => {
            state.phase = SessionPhase::Idle;
            let effects: Vec<Effect> = vec![
                show_error(0, Notice::Text(m.clone())),
                Effect::RestoreIme(id),
            ];
            (effects, BeginNext::Finished(Err(SessionError::Reported(m))))
        },
    }
}

/// The effects that report a failed start under the session's own name.
pub open spec fn failure_effects(id: u128, elapsed_ms: u64, notice: Notice) -> Seq<Effect> {
    seq![error_capsule(elapsed_ms, notice), Effect::RestoreIme(id), Effect::HideCapsuleLater]
}

fn report_failure(id: u128, elapsed_ms: u64, notice: Notice) -> (r: Vec<Effect>)
    ensures
        r@ == failure_effects(id, elapsed_ms, notice),
{
    vec![show_error(elapsed_ms, notice), Effect::RestoreIme(id), Effect::HideCapsuleLater]
}

/// What follows the choice of a recogniser.
pub open spec fn after_choice(setup: RecogniserSetup) -> BeginNext {
    if loads_first(setup.kind) {
        BeginNext::LoadModel(setup)
    } else {
        BeginNext::StartRecorder(setup)
    }
}

/// The microphone permission was looked at; `problem` says what is wrong
/// with it. With the permission given, `setup` is the recogniser to use.
pub fn microphone_checked(
    state: &mut SessionState,
    id: u128,
    problem: Option<String>,
    setup: RecogniserSetup,
) -> (r: (Vec<Effect>, BeginNext))
    ensures
        match problem {
            None => {
                &&& *final(state) == *old(state)
                &&& r.0@ == Seq::<Effect>::empty()
                &&& r.1 == after_choice(setup)
            },
            Some(m) => {
                &&& *final(state) == with_phase(*old(state), SessionPhase::Idle)
                &&& r.0@ == failure_effects(id, 0, Notice::Text(m))
                &&& r.1 == BeginNext::Finished(Err(SessionError::Reported(m)))
            },
        },
{
    match problem {
        None => {
            if setup.kind == AsrKind::SherpaOnnxLocal || setup.kind == AsrKind::LocalQwen {
                (Vec::new(), BeginNext::LoadModel(setup))
            } else {
                (Vec::new(), BeginNext::StartRecorder(setup))
            }
        },
        Some(m) => {
            state.phase = SessionPhase::Idle;
            (
                report_failure(id, 0, Notice::Text(m.clone())),
                BeginNext::Finished(Err(SessionError::Reported(m))),
            )
        },
    }
}

/// The error of a local model that could not be loaded.
pub open spec fn load_error(kind: AsrKind, e: String) -> SessionError {
    if kind == AsrKind::SherpaOnnxLocal {
        SessionError::SherpaInit(e)
    } else {
        SessionError::LocalAsrInit(e)
    }
}

/// The model of a local recogniser was loaded, or failed to.
pub fn model_loaded(
    state: &mut SessionState,
    id: u128,
    setup: RecogniserSetup,
    problem: Option<String>,
) -> (r: (Vec<Effect>, BeginNext))
    ensures
        match problem {
            None => {
                &&& *final(state) == *old(state)
                &&& r.0@ == Seq::<Effect>::empty()
                &&& r.1 == BeginNext::StartRecorder(setup)
            },
            Some(e) => {
                &&& *final(state) == with_phase(*old(state), SessionPhase::Idle)
                &&& r.0@ == failure_effects(id, 0, Notice::LocalModelFailed(e))
                &&& r.1 == BeginNext::Finished(Err(load_error(setup.kind, e)))
            },
        },
{
    match problem {
        None => (Vec::new(), BeginNext::StartRecorder(setup)),
        Some(e) => {
            state.phase = SessionPhase::Idle;
            let effects: Vec<Effect> = report_failure(id, 0, Notice::LocalModelFailed(e.clone()));
            let error: SessionError = if setup.kind == AsrKind::SherpaOnnxLocal {
                SessionError::SherpaInit(e)
            } else {
                SessionError::LocalAsrInit(e)
            };
            (effects, BeginNext::Finished(Err(error)))
        },
    }
}

/// The effects that start the recorder. Where the sound is kept, old
/// recordings make room first, and the file is named after the session.
pub fn recorder_preparation(
    id: u128,
    microphone: Option<String>,
    keep_sound: bool,
    retention_days: u32,
    max_entries: u32,
) -> (r: Vec<Effect>)
    ensures
        r@ == (if keep_sound {
            seq![
                Effect::StopMicrophonePreview,
                Effect::AcquireMute,
                Effect::PruneRecordings { retention_days, max_entries },
                Effect::ArchiveSound(id),
                Effect::StartRecorder { microphone },
            ]
        } else {
            seq![
                Effect::StopMicrophonePreview,
                Effect::AcquireMute,
                Effect::StartRecorder { microphone },
            ]
        }),
{
    if keep_sound {
        vec![
            Effect::StopMicrophonePreview,
            Effect::AcquireMute,
            Effect::PruneRecordings { retention_days, max_entries },
            Effect::ArchiveSound(id),
            Effect::StartRecorder { microphone },
        ]
    } else {
        vec![
            Effect::StopMicrophonePreview,
            Effect::AcquireMute,
            Effect::StartRecorder { microphone },
        ]
    }
}

/// What a waiting stop does to the recorder of a starting session.
pub open spec fn pending_stop_effects(s: SessionState, now_ms: u64) -> Seq<Effect> {
    if s.phase == SessionPhase::Starting && s.pending_stop {
        seq![
            Effect::StopRecorder(s.session_id),
            Effect::ReleaseMute,
            Effect::Capsule {
                state: CapsuleState::Transcribing,
                elapsed_ms: elapsed_spec(s.started_at_ms, now_ms),
                notice: None,
                inserted_chars: None,
            },
        ]
    } else {
        Seq::empty()
    }
}

/// Stops the recorder of a starting session for which a stop is waiting, so
/// that nothing said after the stop is recorded.
pub fn stop_recorder_if_pending_start_stop(state: &SessionState, now_ms: u64) -> (r: Vec<Effect>)
    ensures
        r@ == pending_stop_effects(*state, now_ms),
{
    if state.phase == SessionPhase::Starting && state.pending_stop {
        vec![
            Effect::StopRecorder(state.session_id),
            Effect::ReleaseMute,
            Effect::Capsule {
                state: CapsuleState::Transcribing,
                elapsed_ms: crate::session::elapsed_ms(state.started_at_ms, now_ms),
                notice: None,
                inserted_chars: None,
            },
        ]
    } else {
        Vec::new()
    }
}

/// A stop arrives while the session is starting.
pub fn request_stop_during_starting(state: &mut SessionState, now_ms: u64) -> (r: Vec<Effect>)
    ensures
        old(state).phase == SessionPhase::Starting && !old(state).cancelled ==> *final(state) == (
        SessionState { pending_stop: true, ..*old(state) }) && r@ == pending_stop_effects(
            *final(state),
            now_ms,
        ),
        !(old(state).phase == SessionPhase::Starting && !old(state).cancelled) ==> *final(state)
            == *old(state) && r@ == Seq::<Effect>::empty(),
{
    if !request_stop_during_starting_state(state) {
        return Vec::new();
    }
    stop_recorder_if_pending_start_stop(state, now_ms)
}

/// The recorder runs, with or without an archive of its audio, or failed to
/// start.
pub fn start_recorder_for_starting(
    state: &mut SessionState,
    id: u128,
    kind: AsrKind,
    outcome: Result<bool, String>,
    now_ms: u64,
) -> (r: (Vec<Effect>, BeginNext))
    ensures
        match outcome {
            Ok(archive_active) => {
                &&& *final(state) == *old(state)
                &&& r.0@ == seq![
                    Effect::SetArchiveActive(archive_active),
                    Effect::StoreRecorder(id),
                    Effect::MonitorRecorder(old(state).session_id),
                ] + pending_stop_effects(*old(state), now_ms)
                &&& r.1 == (if connects(kind) {
                    BeginNext::OpenAsr(kind)
                } else {
                    BeginNext::FinishStarting
                })
            },
            Err(e) => {
                &&& *final(state) == with_phase(*old(state), SessionPhase::Idle)
                &&& r.0@ == seq![
                    Effect::CancelAsr(id),
                    error_capsule(0, Notice::RecorderFailed(e)),
                    Effect::RestoreIme(id),
                    Effect::ReleaseMute,
                    Effect::HideCapsuleLater,
                ]
                &&& r.1 == BeginNext::Finished(Err(SessionError::Reported(e)))
            },
        },
{
    match outcome {
        Ok(archive_active) => {
            let mut effects: Vec<Effect> = vec![
                Effect::SetArchiveActive(archive_active),
                Effect::StoreRecorder(id),
                Effect::MonitorRecorder(state.session_id),
            ];
            let mut stop: Vec<Effect> = stop_recorder_if_pending_start_stop(state, now_ms);
            effects.append(&mut stop);
            if kind == AsrKind::Bailian || kind == AsrKind::Volcengine {
                (effects, BeginNext::OpenAsr(kind))
            } else {
                (effects, BeginNext::FinishStarting)
            }
        },
        Err(e) => {
            state.phase = SessionPhase::Idle;
            let effects: Vec<Effect> = vec![
                Effect::CancelAsr(id),
                show_error(0, Notice::RecorderFailed(e.clone())),
                Effect::RestoreIme(id),
                Effect::ReleaseMute,
                Effect::HideCapsuleLater,
            ];
            (effects, BeginNext::Finished(Err(SessionError::Reported(e))))
        },
    }
}

/// The effects that drop a start-up nobody waits for any more.
pub open spec fn drop_effects(id: u128) -> Seq<Effect> {
    seq![Effect::DiscardStartup(id), Effect::RestoreIme(id)]
}

/// The effects of a connection attempt.
pub open spec fn opened_effects(s: SessionState, id: u128, kind: AsrKind, failed: Option<String>) -> Seq<
    Effect,
> {
    match race_status(s, id) {
        StartupRaceStatus::ActiveStarting => match failed {
            None => seq![Effect::AttachBufferedAudio(id)],
            Some(e) => (if kind == AsrKind::Bailian {
                seq![Effect::CancelAsr(id)]
            } else {
                Seq::<Effect>::empty()
            }) + seq![
                Effect::DiscardStartup(id),
                error_capsule(0, Notice::AsrConnectFailed(e)),
                Effect::RestoreIme(id),
                Effect::HideCapsuleLater,
            ],
        },
        _ => seq![Effect::CancelAsr(id), Effect::DiscardStartup(id), Effect::RestoreIme(id)],
    }
}

/// The session after a connection attempt: idle when it was cancelled or the
/// attempt failed, untouched when another session has taken its place.
pub open spec fn opened_state(s: SessionState, id: u128, failed: Option<String>) -> SessionState {
    match race_status(s, id) {
        StartupRaceStatus::ActiveStarting => if failed is Some {
            with_phase(s, SessionPhase::Idle)
        } else {
            s
        },
        StartupRaceStatus::CancelRaced => with_phase(s, SessionPhase::Idle),
        StartupRaceStatus::StaleContinuation => s,
    }
}

/// The recogniser has connected, or failed to. Meanwhile the session may have
/// been cancelled or replaced; then the attempt is dropped without a word.
pub fn asr_opened(state: &mut SessionState, id: u128, kind: AsrKind, failed: Option<String>) -> (r: (
    Vec<Effect>,
    BeginNext,
))
    ensures
        *final(state) == opened_state(*old(state), id, failed),
        r.0@ == opened_effects(*old(state), id, kind, failed),
        r.1 == (match (race_status(*old(state), id), failed) {
            (StartupRaceStatus::ActiveStarting, None) => BeginNext::FinishStarting,
            (StartupRaceStatus::ActiveStarting, Some(e)) => BeginNext::Finished(
                Err(SessionError::Reported(e)),
            ),
            _ => BeginNext::Finished(Ok(())),
        }),
{
    match startup_race_status_for_starting(state, id) {
        StartupRaceStatus::ActiveStarting => match failed {
            None => (vec![Effect::AttachBufferedAudio(id)], BeginNext::FinishStarting),
            Some(e) => {
                let mut effects: Vec<Effect> = Vec::new();
                if kind == AsrKind::Bailian {
                    effects.push(Effect::CancelAsr(id));
                }
                effects.push(Effect::DiscardStartup(id));
                effects.push(show_error(0, Notice::AsrConnectFailed(e.clone())));
                effects.push(Effect::RestoreIme(id));
                effects.push(Effect::HideCapsuleLater);
                set_phase_idle_if_session_matches(state, id);
                (effects, BeginNext::Finished(Err(SessionError::Reported(e))))
            },
        },
        StartupRaceStatus::CancelRaced => {
            set_phase_idle_if_session_matches(state, id);
            (
                vec![Effect::CancelAsr(id), Effect::DiscardStartup(id), Effect::RestoreIme(id)],
                BeginNext::Finished(Ok(())),
            )
        },
        StartupRaceStatus::StaleContinuation => (
            vec![Effect::CancelAsr(id), Effect::DiscardStartup(id), Effect::RestoreIme(id)],
            BeginNext::Finished(Ok(())),
        ),
    }
}

/// The session after its start-up has come to an end.
pub open spec fn finished_state(s: SessionState, id: u128) -> SessionState {
    match race_status(s, id) {
        StartupRaceStatus::ActiveStarting => SessionState {
            phase: SessionPhase::Listening,
            pending_stop: false,
            ..s
        },
        StartupRaceStatus::CancelRaced => with_phase(s, SessionPhase::Idle),
        StartupRaceStatus::StaleContinuation => s,
    }
}

/// Recorder and recogniser are ready: the session listens, unless it was
/// cancelled or replaced meanwhile.
pub fn finish_starting_session(state: &mut SessionState, id: u128) -> (r: (Vec<Effect>, BeginNext))
    ensures
        *final(state) == finished_state(*old(state), id),
        r.0@ == (match race_status(*old(state), id) {
            StartupRaceStatus::ActiveStarting => Seq::<Effect>::empty(),
            _ => drop_effects(id),
        }),
        r.1 == (if begin_outcome(*old(state), id) == BeginOutcome::PendingStop {
            BeginNext::EndSession
        } else {
            BeginNext::Finished(Ok(()))
        }),
{
    match finish_starting_session_state(state, id) {
        BeginOutcome::StaleContinuation => (
            vec![Effect::DiscardStartup(id), Effect::RestoreIme(id)],
            BeginNext::Finished(Ok(())),
        ),
        BeginOutcome::CancelRaced => {
            set_phase_idle_if_session_matches(state, id);
            (
                vec![Effect::DiscardStartup(id), Effect::RestoreIme(id)],
                BeginNext::Finished(Ok(())),
            )
        },
        BeginOutcome::Started => (Vec::new(), BeginNext::Finished(Ok(()))),
        BeginOutcome::PendingStop => (Vec::new(), BeginNext::EndSession),
    }
}

/// A level of the microphone arrives. It is shown while the session records,
/// at most once per `LEVEL_EMIT_MIN_INTERVAL_MS`.
pub fn level_arrived(state: &SessionState, last_emit_ms: &mut Option<u64>, now_ms: u64) -> (r: Option<
    Effect,
>)
    ensures
        ({
            let shown = (state.phase == SessionPhase::Listening || state.phase
                == SessionPhase::Starting) && !(*old(last_emit_ms) is Some && elapsed_spec(
                old(last_emit_ms)->0,
                now_ms,
            ) < LEVEL_EMIT_MIN_INTERVAL_MS);
            &&& shown ==> r == Some(recording_capsule(elapsed_spec(state.started_at_ms, now_ms)))
                && *final(last_emit_ms) == Some(now_ms)
            &&& !shown ==> r is None && *final(last_emit_ms) == *old(last_emit_ms)
        }),
{
    if state.phase != SessionPhase::Listening && state.phase != SessionPhase::Starting {
        return None;
    }
    if let Some(prev) = *last_emit_ms {
        if crate::session::elapsed_ms(prev, now_ms) < LEVEL_EMIT_MIN_INTERVAL_MS {
            return None;
        }
    }
    *last_emit_ms = Some(now_ms);
    Some(
        Effect::Capsule {
            state: CapsuleState::Recording,
            elapsed_ms: crate::session::elapsed_ms(state.started_at_ms, now_ms),
            notice: None,
            inserted_chars: None,
        },
    )
}

/// What the failure `e` of session `s.session_id`'s recorder leads to.
pub open spec fn abort_effects(s: SessionState, e: String, now_ms: u64) -> Seq<Effect> {
    seq![
        Effect::DiscardStartup(s.session_id),
        Effect::RestoreIme(s.session_id),
        error_capsule(
            elapsed_spec(s.started_at_ms, now_ms),
            Notice::RecordingInterrupted(e),
        ),
        Effect::HideCapsuleLater,
    ]
}

/// The recorder that was started under `captured_id` fails. A failure of an
/// earlier session is dropped, and so is one that comes after recording.
pub fn recorder_failed(state: &mut SessionState, captured_id: u128, e: String, now_ms: u64) -> (r:
    Vec<Effect>)
    ensures
        ({
            let hits = old(state).session_id == captured_id && (old(state).phase
                == SessionPhase::Starting || old(state).phase == SessionPhase::Listening);
            &&& hits ==> r@ == abort_effects(*old(state), e, now_ms) && *final(state) == (
            SessionState {
                phase: SessionPhase::Idle,
                cancelled: true,
                focus_target: None,
                ..*old(state)
            })
            &&& !hits ==> r@ == Seq::<Effect>::empty() && *final(state) == *old(state)
        }),
{
    if state.session_id != captured_id {
        return Vec::new();
    }
    match begin_recording_abort_before_restore(state, now_ms) {
        None => Vec::new(),
        Some(abort) => {
            publish_abort_idle_after_restore(state, abort.session_id);
            vec![
                Effect::DiscardStartup(abort.session_id),
                Effect::RestoreIme(abort.session_id),
                show_error(abort.elapsed_ms, Notice::RecordingInterrupted(e)),
                Effect::HideCapsuleLater,
            ]
        },
    }
}

/// A continuation of a session that is no longer the current one changes
/// nothing of the current one, whatever it reports.
pub proof fn law_stale_start_changes_nothing(s: SessionState, id: u128, failed: Option<String>)
    requires
        s.session_id != id,
    ensures
        opened_state(s, id, failed) == s,
        finished_state(s, id) == s,
{
}

/// A cancel that arrives while a session starts is never lost: the start-up
/// ends in `Idle`, never in `Listening`.
pub proof fn law_cancelled_start_never_listens(s: SessionState, id: u128, failed: Option<String>)
    requires
        s.session_id == id,
        s.cancelled,
    ensures
        opened_state(s, id, failed).phase == SessionPhase::Idle,
        finished_state(s, id).phase == SessionPhase::Idle,
{
}

/// Every provider id leads to its own recogniser: the services on every platform,
/// the local recognisers on the platform that has them, and any other id to
/// Volcengine.
pub proof fn law_each_provider_has_its_recogniser(platform: Platform, id: &str, kind: AsrKind)
    requires
        call_ensures(asr_kind_of, (platform, id), kind),
    ensures
        kind == AsrKind::Whisper <==> id@ == "whisper"@ || id@ == "siliconflow"@ || id@ == "zhipu"@
            || id@ == "groq"@ || id@ == "openrouter"@,
        kind == AsrKind::Bailian <==> id@ == "bailian"@,
        kind == AsrKind::Mimo <==> id@ == "mimo"@,
        kind == AsrKind::FoundryLocalWhisper <==> platform == Platform::Windows && id@
            == "foundry-local-whisper"@,
        kind == AsrKind::SherpaOnnxLocal <==> platform == Platform::Windows && id@
            == "sherpa-onnx-local"@,
        kind == AsrKind::LocalQwen <==> platform == Platform::MacOs && (id@ == "local-qwen3"@ || id@
            == "local-qwen3-mlx"@ || id@ == "local-qwen3-c"@),
        id@ == "volcengine"@ ==> kind == AsrKind::Volcengine,
{
    reveal_strlit("whisper");
    reveal_strlit("siliconflow");
    reveal_strlit("zhipu");
    reveal_strlit("groq");
    reveal_strlit("openrouter");
    reveal_strlit("bailian");
    reveal_strlit("mimo");
    reveal_strlit("volcengine");
    reveal_strlit("foundry-local-whisper");
    reveal_strlit("sherpa-onnx-local");
    reveal_strlit("local-qwen3");
    reveal_strlit("local-qwen3-mlx");
    reveal_strlit("local-qwen3-c");
    assert(PROVIDER_ID@ == "sherpa-onnx-local"@);
    assert("whisper"@.len() == 7 && "whisper"@[0] == 'w');
    assert("siliconflow"@.len() == 11 && "siliconflow"@[0] == 's');
    assert("zhipu"@.len() == 5 && "zhipu"@[0] == 'z');
    assert("groq"@.len() == 4 && "groq"@[0] == 'g');
    assert("openrouter"@.len() == 10 && "openrouter"@[0] == 'o');
    assert("bailian"@.len() == 7 && "bailian"@[0] == 'b');
    assert("mimo"@.len() == 4 && "mimo"@[0] == 'm');
    assert("volcengine"@.len() == 10 && "volcengine"@[0] == 'v');
    assert("foundry-local-whisper"@.len() == 21 && "foundry-local-whisper"@[0] == 'f');
    assert("sherpa-onnx-local"@.len() == 17 && "sherpa-onnx-local"@[0] == 's');
    assert("local-qwen3"@.len() == 11 && "local-qwen3"@[0] == 'l');
    assert("local-qwen3-mlx"@.len() == 15 && "local-qwen3-mlx"@[0] == 'l');
    assert("local-qwen3-c"@.len() == 13 && "local-qwen3-c"@[0] == 'l');
    let text = id@;
    if text == "whisper"@ {
        assert(text.len() == 7 && text[0] == 'w');
    }
    if text == "siliconflow"@ {
        assert(text.len() == 11 && text[0] == 's');
    }
    if text == "zhipu"@ {
        assert(text.len() == 5 && text[0] == 'z');
    }
    if text == "groq"@ {
        assert(text.len() == 4 && text[0] == 'g');
    }
    if text == "openrouter"@ {
        assert(text.len() == 10 && text[0] == 'o');
    }
    if text == "bailian"@ {
        assert(text.len() == 7 && text[0] == 'b');
    }
    if text == "mimo"@ {
        assert(text.len() == 4 && text[0] == 'm');
    }
    if text == "volcengine"@ {
        assert(text.len() == 10 && text[0] == 'v');
    }
    if text == "foundry-local-whisper"@ {
        assert(text.len() == 21 && text[0] == 'f');
    }
    if text == "sherpa-onnx-local"@ {
        assert(text.len() == 17 && text[0] == 's');
    }
    if text == "local-qwen3"@ {
        assert(text.len() == 11 && text[0] == 'l');
    }
    if text == "local-qwen3-mlx"@ {
        assert(text.len() == 15 && text[0] == 'l');
    }
    if text == "local-qwen3-c"@ {
        assert(text.len() == 13 && text[0] == 'l');
    }
}

/// The recogniser of a session is the one that its provider stands for, and it is
/// told what belongs to it: a Whisper-style service the phrase of every entry that
/// counts, Volcengine the whole vocabulary, a local recogniser the model and the
/// language of the preferences.
pub proof fn law_recogniser_is_told_what_belongs_to_it(
    platform: Platform,
    id: &str,
    foundry: &LocalModelPrefs,
    foundry_known: bool,
    source: &str,
    sherpa: &LocalModelPrefs,
    alias: &str,
    sherpa_known: bool,
    vocabulary: &Vec<VocabularyEntry>,
    kind: AsrKind,
    setup: RecogniserSetup,
)
    requires
        call_ensures(asr_kind_of, (platform, id), kind),
        alias@ == sherpa.model_alias@,
        call_ensures(model_alias_is_known, (alias,), sherpa_known),
        call_ensures(
            choose_recogniser,
            (platform, id, foundry, foundry_known, source, sherpa, vocabulary),
            setup,
        ),
    ensures
        setup.kind == kind,
        kind == AsrKind::Whisper ==> {
            &&& setup.phrases@.len() == crate::providers::enabled_count(vocabulary@)
            &&& forall|k: int|
                0 <= k < vocabulary@.len() && (#[trigger] vocabulary@[k]).enabled ==> exists|j: int|
                    0 <= j < setup.phrases@.len() && #[trigger] setup.phrases@[j]@
                        == vocabulary@[k].phrase@
            &&& setup.request_format == AsrRequestFormat::OpenRouterJson <==> id@ == "openrouter"@
            &&& setup.verbose_json <==> id@ == "whisper"@ || id@ == "groq"@
            &&& setup.chunk_limit_ms is Some <==> id@ == "zhipu"@ || id@ == "openrouter"@
        },
        kind != AsrKind::Whisper ==> {
            &&& setup.phrases@.len() == 0
            &&& setup.request_format == AsrRequestFormat::Multipart
            &&& !setup.verbose_json
            &&& setup.chunk_limit_ms is None
        },
        setup.chunk_limit_ms matches Some(ms) ==> ms == 30000,
        kind == AsrKind::Volcengine ==> setup.hotwords@ == vocabulary@,
        kind != AsrKind::Volcengine ==> setup.hotwords@.len() == 0,
        setup.model_alias is Some <==> kind == AsrKind::FoundryLocalWhisper || kind
            == AsrKind::SherpaOnnxLocal,
        setup.runtime_source is Some <==> kind == AsrKind::FoundryLocalWhisper,
        setup.runtime_source matches Some(s) ==> s@ == source@,
        kind == AsrKind::FoundryLocalWhisper ==> {
            &&& foundry_known ==> setup.model_alias->0@ == foundry.model_alias@
            &&& !foundry_known ==> setup.model_alias->0@ == "whisper-large-v3-turbo"@
            &&& setup.language_hint is None <==> trimmed(foundry.language_hint@).len() == 0
            &&& setup.language_hint is Some ==> setup.language_hint->0@ == trimmed(
                foundry.language_hint@,
            )
        },
        kind == AsrKind::SherpaOnnxLocal ==> {
            &&& sherpa_known ==> setup.model_alias->0@ == sherpa.model_alias@
            &&& !sherpa_known ==> setup.model_alias->0@ == "sense-voice-small-zh"@
            &&& setup.language_hint is None <==> trimmed(sherpa.language_hint@).len() == 0
            &&& setup.language_hint is Some ==> setup.language_hint->0@ == trimmed(
                sherpa.language_hint@,
            )
        },
{
    if kind == AsrKind::Whisper {
        crate::providers::lemma_enabled_of(vocabulary@);
        let all = enabled_of(vocabulary@);
        assert(texts(setup.phrases@).len() == setup.phrases@.len());
        assert forall|k: int|
            0 <= k < vocabulary@.len() && (#[trigger] vocabulary@[k]).enabled implies exists|j: int|
            0 <= j < setup.phrases@.len() && #[trigger] setup.phrases@[j]@
                == vocabulary@[k].phrase@ by {
            let j = choose|j: int| 0 <= j < all.len() && all[j] == vocabulary@[k].phrase@;
            assert(texts(setup.phrases@)[j] == setup.phrases@[j]@);
        }
    } else {
        assert(texts(setup.phrases@).len() == setup.phrases@.len());
    }
}

/// A hint is what is left of the preference when the whitespace around it is cut
/// off; where nothing is left there is none.
pub proof fn law_hint_is_the_trimmed_preference(hint: &str, cut: String, r: Option<String>)
    requires
        call_ensures(trim, (hint,), cut),
        call_ensures(language_hint, (hint,), r),
    ensures
        r is None <==> cut@.len() == 0,
        r matches Some(h) ==> h@ == cut@,
{
}

/// A session opens only from `Idle`, and then it is the one that was asked for,
/// fresh and with the place of the cursor. Only on Windows an input method is
/// prepared for it. In a dry run it listens at once, otherwise it starts.
pub proof fn law_only_an_idle_host_opens_a_session(
    state: &mut SessionState,
    id: u128,
    now_ms: u64,
    focus: Option<u64>,
    app: Option<String>,
    platform: Platform,
    dry_run: bool,
    r: (Vec<Effect>, BeginNext),
)
    requires
        call_ensures(begin_session, (state, id, now_ms, focus, app, platform, dry_run), r),
    ensures
        old(state).phase != SessionPhase::Idle ==> *final(state) == *old(state) && r.0@.len() == 0 && r.1
            == BeginNext::Finished(Ok(())),
        old(state).phase == SessionPhase::Idle ==> {
            &&& final(state).session_id == id
            &&& !final(state).cancelled
            &&& !final(state).pending_stop
            &&& final(state).started_at_ms == now_ms
            &&& final(state).focus_target == focus
            &&& final(state).front_app == app
            &&& !final(state).voice_agent
            &&& final(state).phase == SessionPhase::Listening <==> dry_run
            &&& final(state).phase == SessionPhase::Starting <==> !dry_run
            &&& r.1 == BeginNext::CheckCredentials <==> !dry_run
            &&& r.0@.contains(Effect::ClearTranslationFlag)
            &&& r.0@.contains(Effect::PrepareIme(id)) <==> platform == Platform::Windows
            &&& r.0@.len() == 1 + (if dry_run {
                1int
            } else {
                0
            }) + (if platform == Platform::Windows {
                1int
            } else {
                0
            })
        },
{
    if old(state).phase == SessionPhase::Idle {
        if platform == Platform::Windows {
            assert(r.0@[0] == Effect::PrepareIme(id));
            assert(r.0@[1] == Effect::ClearTranslationFlag);
        } else {
            assert(r.0@[0] == Effect::ClearTranslationFlag);
        }
    }
}

/// On its way to the recorder a start meets up to three gates, and each either
/// lets it pass untouched or ends it: the session is idle again, the input method
/// is given back, the capsule shows an error, and the problem is handed on.
pub proof fn law_every_gate_passes_or_ends_the_start(
    cred: &mut SessionState,
    mic: &mut SessionState,
    load: &mut SessionState,
    id: u128,
    problem: Option<String>,
    setup: RecogniserSetup,
    a: (Vec<Effect>, BeginNext),
    b: (Vec<Effect>, BeginNext),
    c: (Vec<Effect>, BeginNext),
)
    requires
        call_ensures(credentials_checked, (cred, id, problem), a),
        call_ensures(microphone_checked, (mic, id, problem, setup), b),
        call_ensures(model_loaded, (load, id, setup, problem), c),
    ensures
        problem is None ==> {
            &&& *final(cred) == *old(cred) && *final(mic) == *old(mic) && *final(load) == *old(load)
            &&& a.0@.len() == 0 && b.0@.len() == 0 && c.0@.len() == 0
            &&& a.1 == BeginNext::CheckMicrophone
            &&& b.1 == BeginNext::LoadModel(setup) <==> setup.kind == AsrKind::SherpaOnnxLocal
                || setup.kind == AsrKind::LocalQwen
            &&& b.1 == BeginNext::LoadModel(setup) || b.1 == BeginNext::StartRecorder(setup)
            &&& c.1 == BeginNext::StartRecorder(setup)
        },
        problem matches Some(m) ==> {
            &&& final(cred).phase == SessionPhase::Idle
            &&& final(mic).phase == SessionPhase::Idle
            &&& final(load).phase == SessionPhase::Idle
            &&& final(cred).session_id == old(cred).session_id
            &&& final(cred).started_at_ms == old(cred).started_at_ms
            &&& final(mic).session_id == old(mic).session_id
            &&& final(load).session_id == old(load).session_id
            &&& a.0@.contains(Effect::RestoreIme(id))
            &&& b.0@.contains(Effect::RestoreIme(id))
            &&& c.0@.contains(Effect::RestoreIme(id))
            &&& b.0@.contains(Effect::HideCapsuleLater)
            &&& c.0@.contains(Effect::HideCapsuleLater)
            &&& a.0@[0] is Capsule && a.0@[0]->state == CapsuleState::Error
            &&& b.0@[0] is Capsule && b.0@[0]->state == CapsuleState::Error
            &&& c.0@[0] is Capsule && c.0@[0]->state == CapsuleState::Error
            &&& a.0@[0]->notice == Some(Notice::Text(m))
            &&& b.0@[0]->notice == Some(Notice::Text(m))
            &&& c.0@[0]->notice == Some(Notice::LocalModelFailed(m))
            &&& a.1 == BeginNext::Finished(Err(SessionError::Reported(m)))
            &&& b.1 == BeginNext::Finished(Err(SessionError::Reported(m)))
            &&& c.1 == BeginNext::Finished(
                Err(
                    if setup.kind == AsrKind::SherpaOnnxLocal {
                        SessionError::SherpaInit(m)
                    } else {
                        SessionError::LocalAsrInit(m)
                    },
                ),
            )
        },
{
    if problem is Some {
        assert(a.0@[1] == Effect::RestoreIme(id));
        assert(b.0@[1] == Effect::RestoreIme(id));
        assert(c.0@[1] == Effect::RestoreIme(id));
        assert(b.0@[2] == Effect::HideCapsuleLater);
        assert(c.0@[2] == Effect::HideCapsuleLater);
    }
}

/// The recorder starts last, on the microphone that was asked for, after the
/// preview was stopped and the loudspeakers were muted. The sound is kept, and old
/// recordings make room for it, exactly where that is wanted.
pub proof fn law_recorder_starts_last(
    id: u128,
    microphone: Option<String>,
    keep: bool,
    days: u32,
    entries: u32,
    r: Vec<Effect>,
)
    requires
        call_ensures(recorder_preparation, (id, microphone, keep, days, entries), r),
    ensures
        r@.len() > 2,
        r@[0] == Effect::StopMicrophonePreview,
        r@.contains(Effect::AcquireMute),
        r@.last() == (Effect::StartRecorder { microphone }),
        r@.contains(Effect::ArchiveSound(id)) <==> keep,
        r@.contains(Effect::PruneRecordings { retention_days: days, max_entries: entries }) <==> keep,
        keep ==> r@.index_of(
            Effect::PruneRecordings { retention_days: days, max_entries: entries },
        ) < r@.index_of(Effect::ArchiveSound(id)),
{
    assert(r@[1] == Effect::AcquireMute);
    if keep {
        let prune = Effect::PruneRecordings { retention_days: days, max_entries: entries };
        assert(r@[2] == prune);
        assert(r@[3] == Effect::ArchiveSound(id));
        let i = r@.index_of(prune);
        let j = r@.index_of(Effect::ArchiveSound(id));
        assert(r@[i] == prune && 0 <= i < 5);
        assert(r@[j] == Effect::ArchiveSound(id) && 0 <= j < 5);
        assert(i == 2 && j == 3);
    }
}

/// A stop that arrives while a session starts is remembered, and the recorder is
/// stopped at once, so that nothing that is said afterwards is recorded. At any
/// other time, and for a cancelled session, nothing happens.
pub proof fn law_stop_during_a_start_stops_the_recorder(
    state: &mut SessionState,
    now_ms: u64,
    r: Vec<Effect>,
    again: Vec<Effect>,
)
    requires
        call_ensures(request_stop_during_starting, (state, now_ms), r),
        call_ensures(stop_recorder_if_pending_start_stop, (&*final(state), now_ms), again),
    ensures
        old(state).phase == SessionPhase::Starting && !old(state).cancelled ==> {
            &&& final(state).pending_stop
            &&& final(state).phase == SessionPhase::Starting
            &&& final(state).session_id == old(state).session_id
            &&& r@.contains(Effect::StopRecorder(old(state).session_id))
            &&& r@.contains(Effect::ReleaseMute)
            &&& r@.last() is Capsule && r@.last()->state == CapsuleState::Transcribing
            &&& again@ == r@
        },
        old(state).phase != SessionPhase::Starting || old(state).cancelled ==> r@.len() == 0 && *final(state)
            == *old(state),
        old(state).phase != SessionPhase::Starting ==> again@.len() == 0,
{
    if old(state).phase == SessionPhase::Starting && !old(state).cancelled {
        assert(r@[0] == Effect::StopRecorder(old(state).session_id));
        assert(r@[1] == Effect::ReleaseMute);
    }
}

/// A recorder that runs is kept and watched, and its session stays as it is; the
/// recognisers that have to connect are connected next, the others are ready. A
/// recorder that fails ends the start: everything that was set up for the session
/// is undone.
pub proof fn law_recorder_runs_or_everything_is_undone(
    state: &mut SessionState,
    id: u128,
    kind: AsrKind,
    outcome: Result<bool, String>,
    now_ms: u64,
    r: (Vec<Effect>, BeginNext),
)
    requires
        call_ensures(start_recorder_for_starting, (state, id, kind, outcome, now_ms), r),
    ensures
        outcome matches Ok(archive) ==> {
            &&& *final(state) == *old(state)
            &&& r.0@.contains(Effect::SetArchiveActive(archive))
            &&& r.0@.contains(Effect::StoreRecorder(id))
            &&& r.0@.contains(Effect::MonitorRecorder(old(state).session_id))
            &&& r.1 == BeginNext::OpenAsr(kind) <==> kind == AsrKind::Bailian || kind
                == AsrKind::Volcengine
            &&& r.1 == BeginNext::FinishStarting <==> kind != AsrKind::Bailian && kind
                != AsrKind::Volcengine
            &&& r.0@.contains(Effect::StopRecorder(old(state).session_id)) <==> old(state).phase
                == SessionPhase::Starting && old(state).pending_stop
        },
        outcome matches Err(e) ==> {
            &&& final(state).phase == SessionPhase::Idle
            &&& final(state).session_id == old(state).session_id
            &&& r.0@.contains(Effect::CancelAsr(id))
            &&& r.0@.contains(Effect::RestoreIme(id))
            &&& r.0@.contains(Effect::ReleaseMute)
            &&& r.0@.contains(Effect::HideCapsuleLater)
            &&& r.1 == BeginNext::Finished(Err(SessionError::Reported(e)))
            &&& exists|k: int|
                0 <= k < r.0@.len() && (#[trigger] r.0@[k]) is Capsule && r.0@[k]->notice == Some(
                    Notice::RecorderFailed(e),
                )
        },
{
    if outcome is Ok {
        assert(r.0@[0] == Effect::SetArchiveActive(outcome->Ok_0));
        assert(r.0@[1] == Effect::StoreRecorder(id));
        assert(r.0@[2] == Effect::MonitorRecorder(old(state).session_id));
        if old(state).phase == SessionPhase::Starting && old(state).pending_stop {
            assert(r.0@[3] == Effect::StopRecorder(old(state).session_id));
        }
    } else {
        assert(r.0@[0] == Effect::CancelAsr(id));
        assert(r.0@[1]->notice == Some(Notice::RecorderFailed(outcome->Err_0)));
        assert(r.0@[2] == Effect::RestoreIme(id));
        assert(r.0@[3] == Effect::ReleaseMute);
        assert(r.0@[4] == Effect::HideCapsuleLater);
    }
}

/// A connection that stands leads on, with the buffered audio, while its session
/// is the current one and still starting. One that failed ends the session with
/// the error. Where the session was cancelled or replaced meanwhile, what was set
/// up is dropped without a word, and a successor stays as it is.
pub proof fn law_connection_counts_only_for_its_session(
    state: &mut SessionState,
    id: u128,
    kind: AsrKind,
    failed: Option<String>,
    r: (Vec<Effect>, BeginNext),
)
    requires
        call_ensures(asr_opened, (state, id, kind, failed), r),
    ensures
        ({
            let live = old(state).session_id == id && old(state).phase == SessionPhase::Starting
                && !old(state).cancelled;
            &&& r.1 == BeginNext::FinishStarting <==> live && failed is None
            &&& r.0@.contains(Effect::AttachBufferedAudio(id)) <==> live && failed is None
            &&& live && failed is None ==> *final(state) == *old(state)
            &&& live && failed is Some ==> final(state).phase == SessionPhase::Idle && r.1
                == BeginNext::Finished(Err(SessionError::Reported(failed->0)))
            &&& live && failed is Some ==> (r.0@.contains(Effect::CancelAsr(id)) <==> kind
                == AsrKind::Bailian)
            &&& live && failed is Some ==> r.0@.contains(Effect::HideCapsuleLater)
            &&& !live || failed is Some ==> r.0@.contains(Effect::DiscardStartup(id))
                && r.0@.contains(Effect::RestoreIme(id))
            &&& !live ==> r.0@.contains(Effect::CancelAsr(id)) && r.1 == BeginNext::Finished(Ok(()))
            &&& !live ==> r.0@.len() == 3
            &&& old(state).session_id != id ==> *final(state) == *old(state)
            &&& old(state).session_id == id && old(state).cancelled ==> final(state).phase
                == SessionPhase::Idle
        }),
{
    let live = old(state).session_id == id && old(state).phase == SessionPhase::Starting && !old(state).cancelled;
    let n = if live && failed is Some && kind != AsrKind::Bailian {
        0int
    } else {
        1int
    };
    if live && failed is None {
        assert(r.0@[0] == Effect::AttachBufferedAudio(id));
    } else if live {
        if kind == AsrKind::Bailian {
            assert(r.0@[0] == Effect::CancelAsr(id));
        }
        assert(r.0@[n] == Effect::DiscardStartup(id));
        assert(r.0@[n + 2] == Effect::RestoreIme(id));
        assert(r.0@[n + 3] == Effect::HideCapsuleLater);
    } else {
        assert(r.0@[0] == Effect::CancelAsr(id));
        assert(r.0@[1] == Effect::DiscardStartup(id));
        assert(r.0@[2] == Effect::RestoreIme(id));
    }
}

/// A start that comes to its end listens, and a stop that was waiting ends it at
/// once and waits no longer. A start that was cancelled or replaced is dropped.
pub proof fn law_finished_start_listens(
    state: &mut SessionState,
    id: u128,
    r: (Vec<Effect>, BeginNext),
)
    requires
        call_ensures(finish_starting_session, (state, id), r),
    ensures
        ({
            let live = old(state).session_id == id && old(state).phase == SessionPhase::Starting
                && !old(state).cancelled;
            &&& live ==> final(state).phase == SessionPhase::Listening
            &&& live ==> !final(state).pending_stop && r.0@.len() == 0
            &&& live ==> final(state).session_id == id && final(state).started_at_ms
                == old(state).started_at_ms && final(state).focus_target == old(state).focus_target
            &&& r.1 == BeginNext::EndSession <==> live && old(state).pending_stop
            &&& r.1 == BeginNext::Finished(Ok(())) <==> !(live && old(state).pending_stop)
            &&& !live ==> r.0@.contains(Effect::DiscardStartup(id)) && r.0@.contains(
                Effect::RestoreIme(id),
            )
            &&& old(state).session_id != id ==> *final(state) == *old(state)
            &&& old(state).session_id == id && old(state).cancelled ==> final(state).phase
                == SessionPhase::Idle
        }),
{
    let live = old(state).session_id == id && old(state).phase == SessionPhase::Starting && !old(state).cancelled;
    if !live {
        assert(r.0@[0] == Effect::DiscardStartup(id));
        assert(r.0@[1] == Effect::RestoreIme(id));
    }
}

/// A level is shown while a session records, unless the last one was shown less
/// than a thirtieth of a second ago; what is shown is remembered.
pub proof fn law_levels_are_shown_now_and_then(
    state: &SessionState,
    last: &mut Option<u64>,
    now_ms: u64,
    r: Option<Effect>,
)
    requires
        call_ensures(level_arrived, (state, last, now_ms), r),
    ensures
        r is Some ==> state.phase == SessionPhase::Listening || state.phase
            == SessionPhase::Starting,
        r is Some <==> *final(last) == Some(now_ms) && (state.phase == SessionPhase::Listening
            || state.phase == SessionPhase::Starting) && (*old(last) matches Some(t) ==> t + 33
            <= now_ms),
        r is None ==> *final(last) == *old(last),
        state.phase == SessionPhase::Listening && *old(last) is None ==> r is Some,
        r matches Some(e) ==> e is Capsule && e->state == CapsuleState::Recording && (
        state.started_at_ms <= now_ms ==> e->elapsed_ms == now_ms - state.started_at_ms),
{
}

/// A recorder that fails takes its own session down while that records, and gives
/// back what the session held; a session that took its place is spared.
pub proof fn law_failing_recorder_ends_its_session(
    state: &mut SessionState,
    id: u128,
    e: String,
    now_ms: u64,
    r: Vec<Effect>,
)
    requires
        call_ensures(recorder_failed, (state, id, e, now_ms), r),
    ensures
        ({
            let hit = old(state).session_id == id && (old(state).phase == SessionPhase::Starting
                || old(state).phase == SessionPhase::Listening);
            &&& hit ==> final(state).phase == SessionPhase::Idle && final(state).cancelled
                && final(state).focus_target is None && final(state).session_id == id
            &&& hit ==> r@.contains(Effect::DiscardStartup(id)) && r@.contains(
                Effect::RestoreIme(id),
            ) && r@.contains(Effect::HideCapsuleLater)
            &&& hit ==> exists|k: int|
                0 <= k < r@.len() && (#[trigger] r@[k]) is Capsule && r@[k]->notice == Some(
                    Notice::RecordingInterrupted(e),
                ) && r@[k]->state == CapsuleState::Error
            &&& !hit ==> r@.len() == 0 && *final(state) == *old(state)
        }),
{
    if old(state).session_id == id && (old(state).phase == SessionPhase::Starting || old(state).phase
        == SessionPhase::Listening) {
        assert(r@[0] == Effect::DiscardStartup(id));
        assert(r@[1] == Effect::RestoreIme(id));
        assert(r@[2]->notice == Some(Notice::RecordingInterrupted(e)));
        assert(r@[3] == Effect::HideCapsuleLater);
    }
}

} // verus!
