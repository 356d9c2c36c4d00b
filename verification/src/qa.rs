//! The host's side of questions and answers: who owns a turn, what a turn
//! holds, and what is handed on when it ends.

use crate::selection::SelectionCapture;
use crate::text::{blank, is_blank};
use crate::types::{BackendError, BackendErrorCode};
use std::collections::HashMap;
use vstd::prelude::*;

verus! {

broadcast use vstd::std_specs::hash::group_hash_axioms;

/// The two hosts, which word their errors differently.
#[derive(Clone, Copy, PartialEq, Eq, Structural, Debug)]
pub enum QaHost {
    Tauri,
    Linux,
}

/// What can be wrong with a turn.
#[derive(Clone, Copy, PartialEq, Eq, Structural, Debug)]
pub enum QaFault {
    /// The turn exists already.
    Exists,
    /// The turn has ended or was never there.
    Inactive,
    /// The turn was cancelled while something was under way.
    Cancelled,
    NoContext,
    RecordingNotReady,
    NoBackend,
    NothingSelected,
    NoEditTarget,
}

/// The class of a fault.
pub open spec fn fault_code(f: QaFault) -> BackendErrorCode {
    match f {
        QaFault::Exists => BackendErrorCode::Busy,
        QaFault::Inactive => BackendErrorCode::Cancelled,
        QaFault::Cancelled => BackendErrorCode::Cancelled,
        QaFault::NoContext => BackendErrorCode::InvalidState,
        QaFault::RecordingNotReady => BackendErrorCode::InvalidState,
        QaFault::NoBackend => BackendErrorCode::InvalidState,
        QaFault::NothingSelected => BackendErrorCode::InvalidArgument,
        QaFault::NoEditTarget => BackendErrorCode::Platform,
    }
}

/// The words of a fault.
pub open spec fn fault_text(host: QaHost, f: QaFault) -> Seq<char> {
    match (host, f) {
        (QaHost::Tauri, QaFault::Exists) => "QA runtime session already exists"@,
        (QaHost::Linux, QaFault::Exists) => "Linux QA runtime session already exists"@,
        (QaHost::Tauri, QaFault::Inactive) => "QA runtime session is no longer active"@,
        (QaHost::Linux, QaFault::Inactive) => "Linux QA runtime session is no longer active"@,
        (QaHost::Tauri, QaFault::Cancelled) => "QA runtime session was cancelled"@,
        (QaHost::Linux, QaFault::Cancelled) => "Linux QA runtime session was cancelled"@,
        (QaHost::Tauri, QaFault::NoContext) => "QA session context is not ready"@,
        (QaHost::Linux, QaFault::NoContext) => "Linux QA session context is unavailable"@,
        (QaHost::Tauri, QaFault::RecordingNotReady) => "QA recording is not ready"@,
        (QaHost::Linux, QaFault::RecordingNotReady) => "Linux QA recording is not ready"@,
        (QaHost::Tauri, QaFault::NoBackend) => "core backend state is unavailable"@,
        (QaHost::Linux, QaFault::NoBackend) => "Linux Core backend is not bound yet"@,
        (_, QaFault::NothingSelected) => "no selection is available for editing"@,
        (_, QaFault::NoEditTarget) => "selection edit target is unavailable"@,
    }
}

/// `e` reports the fault.
pub open spec fn reports(e: BackendError, host: QaHost, f: QaFault) -> bool {
    e.is(fault_code(f), fault_text(host, f))
}

/// The error that reports a fault.
pub fn qa_error(host: QaHost, fault: QaFault) -> (r: BackendError)
    ensures
        reports(r, host, fault),
{
    let linux: bool = host == QaHost::Linux;
    match fault {
        QaFault::Exists => BackendError::new(
            BackendErrorCode::Busy,
            if linux {
                "Linux QA runtime session already exists"
            } else {
                "QA runtime session already exists"
            },
        ),
        QaFault::Inactive => BackendError::new(
            BackendErrorCode::Cancelled,
            if linux {
                "Linux QA runtime session is no longer active"
            } else {
                "QA runtime session is no longer active"
            },
        ),
        QaFault::Cancelled => BackendError::new(
            BackendErrorCode::Cancelled,
            if linux {
                "Linux QA runtime session was cancelled"
            } else {
                "QA runtime session was cancelled"
            },
        ),
        QaFault::NoContext => BackendError::new(
            BackendErrorCode::InvalidState,
            if linux {
                "Linux QA session context is unavailable"
            } else {
                "QA session context is not ready"
            },
        ),
        QaFault::RecordingNotReady => BackendError::new(
            BackendErrorCode::InvalidState,
            if linux {
                "Linux QA recording is not ready"
            } else {
                "QA recording is not ready"
            },
        ),
        QaFault::NoBackend => BackendError::new(
            BackendErrorCode::InvalidState,
            if linux {
                "Linux Core backend is not bound yet"
            } else {
                "core backend state is unavailable"
            },
        ),
        QaFault::NothingSelected => BackendError::new(
            BackendErrorCode::InvalidArgument,
            "no selection is available for editing",
        ),
        QaFault::NoEditTarget => BackendError::new(
            BackendErrorCode::Platform,
            "selection edit target is unavailable",
        ),
    }
}

/// What a turn knows of the settings it runs under.
#[derive(Debug)]
pub struct QaContext {
    /// One model hears and answers.
    pub multimodal: bool,
    pub front_app: Option<String>,
}

/// What the host finds when a turn begins.
#[derive(Debug)]
pub struct TauriQaHostCapture {
    pub selection_text: Option<String>,
    /// The place to put an edit, by the host's number for it.
    pub selection_target: Option<u64>,
    pub front_app: Option<String>,
}

/// A turn.
#[derive(Debug)]
pub struct QaSession {
    /// Tells this turn from another one under the same id.
    pub stamp: u64,
    pub context: Option<QaContext>,
    /// The recording under way, by the host's number for it.
    pub capture: Option<u64>,
    pub audio_wav: Option<Vec<u8>>,
    pub selection_text: Option<String>,
    pub selection_target: Option<u64>,
    pub front_app: Option<String>,
    pub duration_ms: u64,
    pub voice_turn: bool,
    pub edit_apply_available: bool,
    pub edit_revert_available: bool,
}

/// A turn as it begins.
pub open spec fn fresh_session(
    stamp: u64,
    context: Option<QaContext>,
    found: TauriQaHostCapture,
    voice_turn: bool,
) -> QaSession {
    QaSession {
        stamp,
        context,
        capture: None,
        audio_wav: None,
        selection_text: found.selection_text,
        selection_target: found.selection_target,
        front_app: found.front_app,
        duration_ms: 0,
        voice_turn,
        edit_apply_available: false,
        edit_revert_available: false,
    }
}

fn new_session(
    stamp: u64,
    context: Option<QaContext>,
    found: TauriQaHostCapture,
    voice_turn: bool,
) -> (r: QaSession)
    ensures
        r == fresh_session(stamp, context, found, voice_turn),
{
    QaSession {
        stamp,
        context,
        capture: None,
        audio_wav: None,
        selection_text: found.selection_text,
        selection_target: found.selection_target,
        front_app: found.front_app,
        duration_ms: 0,
        voice_turn,
        edit_apply_available: false,
        edit_revert_available: false,
    }
}

/// The question that a turn puts.
#[derive(Debug)]
pub struct QaInput {
    pub text: String,
    pub selection_text: Option<String>,
}

/// The right to finish a recording. There is one for each recording.
#[derive(Debug)]
pub struct RecordingLease {
    pub stamp: u64,
    pub capture: u64,
    pub selection_text: Option<String>,
}

/// A spoken turn as it begins: the selection to show, and what the recording is
/// started with.
#[derive(Debug)]
pub struct SpokenStart {
    pub session_id: u128,
    pub selection_text: Option<String>,
    pub front_app: Option<String>,
}

/// What a recording gave.
#[derive(Debug)]
pub struct VoiceResult {
    pub duration_ms: u64,
    pub audio_wav: Option<Vec<u8>>,
    /// Absent where the model hears the recording itself.
    pub transcript: Option<String>,
}

/// The words that stand for a question that was only heard.
pub const SPOKEN_QUESTION: &'static str = "（语音问题）";

fn copy_text(text: &Option<String>) -> (r: Option<String>)
    ensures
        r == *text,
{
    match text {
        Some(s) => Some(s.clone()),
        None => None,
    }
}

fn copy_context(context: &QaContext) -> (r: QaContext)
    ensures
        r == *context,
{
    QaContext { multimodal: context.multimodal, front_app: copy_text(&context.front_app) }
}

/// The turns that are under way.
#[derive(Debug)]
pub struct QaTable {
    pub host: QaHost,
    pub sessions: HashMap<u128, QaSession>,
}

impl QaTable {
    pub fn new(host: QaHost) -> (r: Self)
        ensures
            r.host == host,
            r.sessions@ == Map::<u128, QaSession>::empty(),
    {
        QaTable { host, sessions: HashMap::new() }
    }

    /// The turn under `id` is the one with this stamp.
    pub open spec fn is_current(self, id: u128, stamp: u64) -> bool {
        self.sessions@.contains_key(id) && self.sessions@[id].stamp == stamp
    }

    /// Takes a turn up. A turn that is under way is never replaced.
    pub fn insert_session(&mut self, id: u128, session: QaSession) -> (r: Result<(), BackendError>)
        ensures
            final(self).host == old(self).host,
            match r {
                Ok(()) => !old(self).sessions@.contains_key(id) && final(self).sessions@ == old(self).sessions@.insert(id, session),
                Err(e) => old(self).sessions@.contains_key(id) && final(self).sessions@ == old(self).sessions@ && reports(e, old(self).host, QaFault::Exists),
            },
    {
        if self.sessions.contains_key(&id) {
            return Err(qa_error(self.host, QaFault::Exists));
        }
        self.sessions.insert(id, session);
        Ok(())
    }

    /// Gives a turn up.
    pub fn remove(&mut self, id: u128) -> (r: Option<QaSession>)
        ensures
            final(self).host == old(self).host,
            final(self).sessions@ == old(self).sessions@.remove(id),
            r == (if old(self).sessions@.contains_key(id) {
                Some(old(self).sessions@[id])
            } else {
                None
            }),
    {
        let r: Option<QaSession> = self.sessions.remove(&id);
        proof {
            assert(self.sessions@ =~= old(self).sessions@.remove(id));
        }
        r
    }

    /// Gives a turn up, unless another one took its place.
    pub fn remove_if_current(&mut self, id: u128, stamp: u64)
        ensures
            final(self).host == old(self).host,
            final(self).sessions@ == (if old(self).is_current(id, stamp) {
                old(self).sessions@.remove(id)
            } else {
                old(self).sessions@
            }),
    {
        if let Some(session) = self.remove(id) {
            if session.stamp != stamp {
                self.sessions.insert(id, session);
            }
        }
        proof {
            assert(self.sessions@ =~= (if old(self).is_current(id, stamp) {
                old(self).sessions@.remove(id)
            } else {
                old(self).sessions@
            }));
        }
    }

    /// Begins a typed turn, once its settings are known.
    pub fn prepare_text(
        &mut self,
        id: u128,
        stamp: u64,
        text: String,
        found: TauriQaHostCapture,
        context: Result<QaContext, BackendError>,
    ) -> (r: Result<QaInput, BackendError>)
        ensures
            final(self).host == old(self).host,
            match context {
                Err(e) => r == Err::<QaInput, BackendError>(e) && final(self).sessions@ == old(self).sessions@,
                Ok(c) => if old(self).sessions@.contains_key(id) {
                    &&& r matches Err(e)
                    &&& reports(e, old(self).host, QaFault::Exists)
                    &&& final(self).sessions@ == old(self).sessions@
                } else {
                    &&& r == Ok::<QaInput, BackendError>(
                        (QaInput { text, selection_text: found.selection_text }),
                    )
                    &&& final(self).sessions@ == old(self).sessions@.insert(
                        id,
                        fresh_session(stamp, Some(c), found, false),
                    )
                },
            },
    {
        let c: QaContext = match context {
            Ok(c) => c,
            Err(e) => return Err(e),
        };
        let selection_text: Option<String> = copy_text(&found.selection_text);
        match self.insert_session(id, new_session(stamp, Some(c), found, false)) {
            Ok(()) => Ok(QaInput { text, selection_text }),
            Err(e) => Err(e),
        }
    }

    /// Begins a spoken turn. What comes back says what to show and what to
    /// record for.
    pub fn begin_recording(&mut self, id: u128, stamp: u64, found: TauriQaHostCapture) -> (r: Result<
        SpokenStart,
        BackendError,
    >)
        ensures
            final(self).host == old(self).host,
            match r {
                Ok(start) => {
                    &&& !old(self).sessions@.contains_key(id)
                    &&& start == (SpokenStart {
                        session_id: id,
                        selection_text: found.selection_text,
                        front_app: found.front_app,
                    })
                    &&& final(self).sessions@ == old(self).sessions@.insert(
                        id,
                        fresh_session(stamp, None, found, true),
                    )
                },
                Err(e) => {
                    &&& old(self).sessions@.contains_key(id)
                    &&& reports(e, old(self).host, QaFault::Exists)
                    &&& final(self).sessions@ == old(self).sessions@
                },
            },
    {
        let start: SpokenStart = SpokenStart {
            session_id: id,
            selection_text: copy_text(&found.selection_text),
            front_app: copy_text(&found.front_app),
        };
        match self.insert_session(id, new_session(stamp, None, found, true)) {
            Ok(()) => Ok(start),
            Err(e) => Err(e),
        }
    }

    /// Takes the recording of a turn, to finish it. Only one caller gets it.
    pub fn finish_recording(&mut self, id: u128) -> (r: Result<RecordingLease, BackendError>)
        ensures
            final(self).host == old(self).host,
            match r {
                Ok(lease) => {
                    &&& old(self).sessions@.contains_key(id)
                    &&& old(self).sessions@[id].capture == Some(lease.capture)
                    &&& lease.stamp == old(self).sessions@[id].stamp
                    &&& lease.selection_text == old(self).sessions@[id].selection_text
                    &&& final(self).sessions@ == leased(old(self).sessions@, id)
                },
                Err(e) => {
                    &&& final(self).sessions@ == old(self).sessions@
                    &&& if old(self).sessions@.contains_key(id) {
                        old(self).sessions@[id].capture is None && reports(
                            e,
                            old(self).host,
                            QaFault::RecordingNotReady,
                        )
                    } else {
                        reports(e, old(self).host, QaFault::Inactive)
                    }
                },
            },
    {
        match self.remove(id) {
            None => {
                proof {
                    assert(self.sessions@ =~= old(self).sessions@);
                }
                Err(qa_error(self.host, QaFault::Inactive))
            },
            Some(session) => {
                let mut session = session;
                match session.capture {
                    None => {
                        self.sessions.insert(id, session);
                        proof {
                            assert(self.sessions@ =~= old(self).sessions@);
                        }
                        Err(qa_error(self.host, QaFault::RecordingNotReady))
                    },
                    Some(capture) => {
                        let lease: RecordingLease = RecordingLease {
                            stamp: session.stamp,
                            capture,
                            selection_text: copy_text(&session.selection_text),
                        };
                        session.capture = None;
                        self.sessions.insert(id, session);
                        proof {
                            assert(self.sessions@ =~= leased(old(self).sessions@, id));
                        }
                        Ok(lease)
                    },
                }
            },
        }
    }

    /// The recording was finished. A turn that was cancelled meanwhile gives
    /// no question, however good the recording was.
    pub fn recording_finished(
        &mut self,
        id: u128,
        lease: RecordingLease,
        result: Result<VoiceResult, BackendError>,
        cancelled: bool,
    ) -> (r: Result<QaInput, BackendError>)
        ensures
            final(self).host == old(self).host,
            match result {
                Err(e) => r == Err::<QaInput, BackendError>(e) && final(self).sessions@ == old(self).sessions@,
                Ok(v) => if cancelled {
                    &&& r matches Err(e)
                    &&& reports(e, old(self).host, QaFault::Cancelled)
                    &&& final(self).sessions@ == old(self).sessions@
                } else {
                    &&& r matches Ok(input)
                    &&& input.selection_text == lease.selection_text
                    &&& match v.transcript {
                        Some(t) => input.text == t,
                        None => input.text@ == SPOKEN_QUESTION@,
                    }
                    &&& final(self).sessions@ == (if old(self).is_current(id, lease.stamp) {
                        old(self).sessions@.insert(
                            id,
                            (QaSession {
                                duration_ms: v.duration_ms,
                                audio_wav: v.audio_wav,
                                ..old(self).sessions@[id]
                            }),
                        )
                    } else {
                        old(self).sessions@
                    })
                },
            },
    {
        let voice: VoiceResult = match result {
            Ok(v) => v,
            Err(e) => return Err(e),
        };
        if cancelled {
            return Err(qa_error(self.host, QaFault::Cancelled));
        }
        if let Some(session) = self.remove(id) {
            let mut session = session;
            if session.stamp == lease.stamp {
                session.duration_ms = voice.duration_ms;
                session.audio_wav = voice.audio_wav;
            }
            self.sessions.insert(id, session);
        }
        proof {
            assert(self.sessions@ =~= (if old(self).is_current(id, lease.stamp) {
                old(self).sessions@.insert(
                    id,
                    QaSession {
                        duration_ms: result->Ok_0.duration_ms,
                        audio_wav: result->Ok_0.audio_wav,
                        ..old(self).sessions@[id]
                    },
                )
            } else {
                old(self).sessions@
            }));
        }
        let text: String = match voice.transcript {
            Some(t) => t,
            None => SPOKEN_QUESTION.to_owned(),
        };
        Ok(QaInput { text, selection_text: lease.selection_text })
    }

    /// Cancels a turn. The recording that comes back has to be stopped; the
    /// host marks the turn as cancelled first, so that whoever holds a lease
    /// learns of it.
    pub fn cancel(&mut self, id: u128) -> (r: Option<u64>)
        ensures
            final(self).host == old(self).host,
            final(self).sessions@ == old(self).sessions@.remove(id),
            r == (if old(self).sessions@.contains_key(id) {
                old(self).sessions@[id].capture
            } else {
                None
            }),
    {
        match self.remove(id) {
            Some(session) => session.capture,
            None => None,
        }
    }
}

/// The turns after the recording of `id` was taken.
pub open spec fn leased(sessions: Map<u128, QaSession>, id: u128) -> Map<u128, QaSession> {
    sessions.insert(id, QaSession { capture: None, ..sessions[id] })
}

/// What became of a recording that was to start.
#[derive(Debug)]
pub enum RecordingStart {
    /// The selection could not be shown.
    PublishFailed(BackendError),
    NoBackend,
    CaptureFailed(BackendError),
    Started { context: QaContext, capture: u64 },
}

/// Why a spoken turn did not begin, and the recording to stop.
#[derive(Debug)]
pub struct QaStartError {
    pub error: BackendError,
    pub stop_capture: Option<u64>,
}

/// The turns with the recording of the turn `id` entered, if it is still the
/// one with this stamp.
pub open spec fn recording(
    table: QaTable,
    id: u128,
    stamp: u64,
    context: QaContext,
    capture: u64,
) -> Map<u128, QaSession> {
    if table.is_current(id, stamp) {
        table.sessions@.insert(
            id,
            QaSession { context: Some(context), capture: Some(capture), ..table.sessions@[id] },
        )
    } else {
        table.sessions@
    }
}

/// The turns without the turn `id`, if it is still the one with this stamp.
pub open spec fn without_current(table: QaTable, id: u128, stamp: u64) -> Map<u128, QaSession> {
    if table.is_current(id, stamp) {
        table.sessions@.remove(id)
    } else {
        table.sessions@
    }
}

fn enter_recording(table: &mut QaTable, id: u128, stamp: u64, context: QaContext, capture: u64)
    ensures
        final(table).host == old(table).host,
        final(table).sessions@ == recording(*old(table), id, stamp, context, capture),
{
    if let Some(session) = table.remove(id) {
        let mut session = session;
        if session.stamp == stamp {
            session.context = Some(context);
            session.capture = Some(capture);
        }
        table.sessions.insert(id, session);
    }
    proof {
        assert(table.sessions@ =~= recording(*old(table), id, stamp, context, capture));
    }
}

/// What an answer needs.
#[derive(Debug)]
pub enum AnswerPlan {
    /// Change the selection as the question says.
    Edit { request: EditRequest, target: u64 },
    /// Ask the model.
    Chat(ChatRequest),
}

/// What a question is answered from.
#[derive(Debug)]
pub struct QaTurnRequest {
    pub session_id: u128,
    pub conversation_id: u128,
    pub input: QaInput,
    pub messages: Vec<QaMessage>,
    /// The question says how to change the selection.
    pub edit_instruction_mode: bool,
}

/// A message of a conversation.
#[derive(Debug)]
pub struct QaMessage {
    pub role: String,
    pub content: String,
}

/// What an edit is asked for with.
#[derive(Debug)]
pub struct EditRequest {
    /// The conversation that the edit belongs to.
    pub owner: u128,
    pub selection_text: String,
    pub source_app: Option<String>,
    pub instruction: String,
}

/// What the model is asked with. The recording is there where the model hears
/// for itself.
#[derive(Debug)]
pub struct ChatRequest {
    pub session_id: u128,
    pub context: QaContext,
    pub messages: Vec<QaMessage>,
    pub audio_wav: Option<Vec<u8>>,
}

/// What is handed on when a turn ends.
#[derive(Debug)]
pub struct QaRuntimeCompletion {
    pub duration_ms: Option<u64>,
    pub front_app: Option<String>,
    /// The transcript to keep in place of the question's words.
    pub raw_transcript_override: Option<String>,
    pub edit_apply_available: bool,
    pub edit_revert_available: bool,
}

/// The duration to keep: that of a spoken turn.
pub open spec fn kept_duration(s: QaSession) -> Option<u64> {
    if s.voice_turn {
        Some(s.duration_ms)
    } else {
        None
    }
}

/// A turn that was heard by the model itself has no transcript to keep.
pub open spec fn drops_transcript(s: QaSession) -> bool {
    s.voice_turn && s.context->0.multimodal
}

/// Questions and answers in the windowed host.
#[derive(Debug)]
pub struct TauriQaRuntimeAdapter {
    pub table: QaTable,
}

impl TauriQaRuntimeAdapter {
    pub fn new() -> (r: Self)
        ensures
            r.table.host == QaHost::Tauri,
            r.table.sessions@ == Map::<u128, QaSession>::empty(),
    {
        TauriQaRuntimeAdapter { table: QaTable::new(QaHost::Tauri) }
    }

    /// Goes on with a spoken turn that `begin_recording` took up. Whatever
    /// goes wrong, the turn is given up, unless another took its place.
    pub fn start_recording(&mut self, id: u128, stamp: u64, start: RecordingStart, cancelled: bool)
        -> (r: Result<(), QaStartError>)
        requires
            old(self).table.host == QaHost::Tauri,
        ensures
            final(self).table.host == QaHost::Tauri,
            match start {
                RecordingStart::PublishFailed(e) => {
                    &&& r == Err::<(), QaStartError>(
                        (QaStartError { error: e, stop_capture: None }),
                    )
                    &&& final(self).table.sessions@ == without_current(old(self).table, id, stamp)
                },
                RecordingStart::NoBackend => {
                    &&& r matches Err(q)
                    &&& reports(q.error, QaHost::Tauri, QaFault::NoBackend)
                    &&& q.stop_capture is None
                    &&& final(self).table.sessions@ == without_current(old(self).table, id, stamp)
                },
                RecordingStart::CaptureFailed(e) => {
                    &&& r == Err::<(), QaStartError>(
                        (QaStartError { error: e, stop_capture: None }),
                    )
                    &&& final(self).table.sessions@ == without_current(old(self).table, id, stamp)
                },
                RecordingStart::Started { context, capture } => if cancelled {
                    &&& r matches Err(q)
                    &&& reports(q.error, QaHost::Tauri, QaFault::Cancelled)
                    &&& q.stop_capture == Some(capture)
                    &&& final(self).table.sessions@ == without_current(old(self).table, id, stamp)
                } else {
                    &&& r is Ok
                    &&& final(self).table.sessions@ == recording(
                        old(self).table,
                        id,
                        stamp,
                        context,
                        capture,
                    )
                },
            },
    {
        match start {
            RecordingStart::PublishFailed(e) => {
                self.table.remove_if_current(id, stamp);
                Err(QaStartError { error: e, stop_capture: None })
            },
            RecordingStart::NoBackend => {
                self.table.remove_if_current(id, stamp);
                Err(
                    QaStartError {
                        error: qa_error(QaHost::Tauri, QaFault::NoBackend),
                        stop_capture: None,
                    },
                )
            },
            RecordingStart::CaptureFailed(e) => {
                self.table.remove_if_current(id, stamp);
                Err(QaStartError { error: e, stop_capture: None })
            },
            RecordingStart::Started { context, capture } => {
                if cancelled {
                    self.table.remove_if_current(id, stamp);
                    return Err(
                        QaStartError {
                            error: qa_error(QaHost::Tauri, QaFault::Cancelled),
                            stop_capture: Some(capture),
                        },
                    );
                }
                enter_recording(&mut self.table, id, stamp, context, capture);
                Ok(())
            },
        }
    }

    /// The words to edit, if there are any.
    pub open spec fn edit_text(input_selection: Option<String>) -> bool {
        input_selection is Some && !blank(input_selection->0@)
    }

    /// What an answer needs. The place of an edit and the recording are taken
    /// out of the turn, so that no second answer uses them.
    pub fn answer(
        &mut self,
        request: QaTurnRequest,
        cancelled: bool,
        backend_bound: bool,
    ) -> (r: Result<AnswerPlan, BackendError>)
        requires
            old(self).table.host == QaHost::Tauri,
        ensures
            final(self).table.host == QaHost::Tauri,
            ({
                let before = old(self).table.sessions@;
                let after = final(self).table.sessions@;
                let id = request.session_id;
                let s = before[id];
                if !before.contains_key(id) {
                    after == before && r is Err && reports(
                        r->Err_0,
                        QaHost::Tauri,
                        QaFault::Inactive,
                    )
                } else if cancelled {
                    after == before && r is Err && reports(
                        r->Err_0,
                        QaHost::Tauri,
                        QaFault::Cancelled,
                    )
                } else if s.context is None {
                    after == before && r is Err && reports(
                        r->Err_0,
                        QaHost::Tauri,
                        QaFault::NoContext,
                    )
                } else if !request.edit_instruction_mode {
                    &&& after == before.insert(id, (QaSession { audio_wav: None, ..s }))
                    &&& r == Ok::<AnswerPlan, BackendError>(
                        AnswerPlan::Chat(
                            (ChatRequest {
                                session_id: id,
                                context: s.context->0,
                                messages: request.messages,
                                audio_wav: s.audio_wav,
                            }),
                        ),
                    )
                } else if !Self::edit_text(request.input.selection_text) {
                    after == before && r is Err && reports(
                        r->Err_0,
                        QaHost::Tauri,
                        QaFault::NothingSelected,
                    )
                } else if s.selection_target is None {
                    after == before && r is Err && reports(
                        r->Err_0,
                        QaHost::Tauri,
                        QaFault::NoEditTarget,
                    )
                } else {
                    &&& after == before.insert(id, (QaSession { selection_target: None, ..s }))
                    &&& if backend_bound {
                        r == Ok::<AnswerPlan, BackendError>(
                            (AnswerPlan::Edit {
                                request: EditRequest {
                                    owner: request.conversation_id,
                                    selection_text: request.input.selection_text->0,
                                    source_app: s.context->0.front_app,
                                    instruction: request.input.text,
                                },
                                target: s.selection_target->0,
                            }),
                        )
                    } else {
                        r is Err && reports(r->Err_0, QaHost::Tauri, QaFault::NoBackend)
                    }
                }
            }),
    {
        let id: u128 = request.session_id;
        let mut session: QaSession = match self.table.remove(id) {
            Some(s) => s,
            None => {
                proof {
                    assert(self.table.sessions@ =~= old(self).table.sessions@);
                }
                return Err(qa_error(QaHost::Tauri, QaFault::Inactive));
            },
        };
        let ghost before = session;
        let plan: Result<AnswerPlan, QaFault> = if cancelled {
            Err(QaFault::Cancelled)
        } else {
            match &session.context {
                None => Err(QaFault::NoContext),
                Some(context) => if request.edit_instruction_mode {
                    match request.input.selection_text {
                        Some(text) => if is_blank(text.as_str()) {
                            Err(QaFault::NothingSelected)
                        } else {
                            match session.selection_target {
                                None => Err(QaFault::NoEditTarget),
                                Some(target) => {
                                    let asked: EditRequest = EditRequest {
                                        owner: request.conversation_id,
                                        selection_text: text,
                                        source_app: copy_text(&context.front_app),
                                        instruction: request.input.text,
                                    };
                                    session.selection_target = None;
                                    if backend_bound {
                                        Ok(AnswerPlan::Edit { request: asked, target })
                                    } else {
                                        Err(QaFault::NoBackend)
                                    }
                                },
                            }
                        },
                        None => Err(QaFault::NothingSelected),
                    }
                } else {
                    let context: QaContext = copy_context(context);
                    let audio_wav: Option<Vec<u8>> = session.audio_wav.take();
                    Ok(
                        AnswerPlan::Chat(
                            ChatRequest {
                                session_id: id,
                                context,
                                messages: request.messages,
                                audio_wav,
                            },
                        ),
                    )
                },
            }
        };
        let ghost after = session;
        self.table.sessions.insert(id, session);
        proof {
            if after == before {
                assert(self.table.sessions@ =~= old(self).table.sessions@);
            }
            assert(self.table.sessions@ =~= old(self).table.sessions@.insert(id, after));
        }
        match plan {
            Ok(plan) => Ok(plan),
            Err(fault) => Err(qa_error(QaHost::Tauri, fault)),
        }
    }

    /// An edit was made. Once its place is bound, it can be applied, and taken
    /// back if it replaced an earlier one.
    pub fn edit_answered(
        &mut self,
        id: u128,
        stamp: u64,
        bound: Result<(), BackendError>,
        replaced_existing: bool,
        answer: String,
    ) -> (r: Result<String, BackendError>)
        ensures
            final(self).table.host == old(self).table.host,
            match bound {
                Err(e) => r == Err::<String, BackendError>(e) && final(self).table.sessions@ == old(self).table.sessions@,
                Ok(()) => {
                    &&& r == Ok::<String, BackendError>(answer)
                    &&& final(self).table.sessions@ == (if old(self).table.is_current(id, stamp) {
                        old(self).table.sessions@.insert(
                            id,
                            (QaSession {
                                edit_apply_available: true,
                                edit_revert_available: replaced_existing,
                                ..old(self).table.sessions@[id]
                            }),
                        )
                    } else {
                        old(self).table.sessions@
                    })
                },
            },
    {
        if let Err(e) = bound {
            return Err(e);
        }
        if let Some(session) = self.table.remove(id) {
            let mut session = session;
            if session.stamp == stamp {
                session.edit_apply_available = true;
                session.edit_revert_available = replaced_existing;
            }
            self.table.sessions.insert(id, session);
        }
        proof {
            assert(self.table.sessions@ =~= (if old(self).table.is_current(id, stamp) {
                old(self).table.sessions@.insert(
                    id,
                    QaSession {
                        edit_apply_available: true,
                        edit_revert_available: replaced_existing,
                        ..old(self).table.sessions@[id]
                    },
                )
            } else {
                old(self).table.sessions@
            }));
        }
        Ok(answer)
    }

    /// Ends a turn and hands on what it holds.
    pub fn complete(&mut self, id: u128) -> (r: Result<QaRuntimeCompletion, BackendError>)
        requires
            old(self).table.host == QaHost::Tauri,
        ensures
            final(self).table.host == QaHost::Tauri,
            final(self).table.sessions@ == old(self).table.sessions@.remove(id),
            ({
                let s = old(self).table.sessions@[id];
                if !old(self).table.sessions@.contains_key(id) {
                    r is Err && reports(r->Err_0, QaHost::Tauri, QaFault::Inactive)
                } else if s.context is None {
                    r is Err && reports(r->Err_0, QaHost::Tauri, QaFault::NoContext)
                } else {
                    &&& r matches Ok(c)
                    &&& c.duration_ms == kept_duration(s)
                    &&& c.front_app == s.front_app
                    &&& c.raw_transcript_override is Some == drops_transcript(s)
                    &&& c.raw_transcript_override is Some ==> c.raw_transcript_override->0@ == ""@
                    &&& c.edit_apply_available == s.edit_apply_available
                    &&& c.edit_revert_available == s.edit_revert_available
                }
            }),
    {
        let session: QaSession = match self.table.remove(id) {
            Some(s) => s,
            None => return Err(qa_error(QaHost::Tauri, QaFault::Inactive)),
        };
        let multimodal: bool = match &session.context {
            Some(c) => c.multimodal,
            None => return Err(qa_error(QaHost::Tauri, QaFault::NoContext)),
        };
        Ok(
            QaRuntimeCompletion {
                duration_ms: if session.voice_turn {
                    Some(session.duration_ms)
                } else {
                    None
                },
                front_app: session.front_app,
                raw_transcript_override: if session.voice_turn && multimodal {
                    Some("".to_owned())
                } else {
                    None
                },
                edit_apply_available: session.edit_apply_available,
                edit_revert_available: session.edit_revert_available,
            },
        )
    }
}

/// Questions and answers in the Linux host.
#[derive(Debug)]
pub struct LinuxQaRuntime {
    pub table: QaTable,
}

impl LinuxQaRuntime {
    pub fn new() -> (r: Self)
        ensures
            r.table.host == QaHost::Linux,
            r.table.sessions@ == Map::<u128, QaSession>::empty(),
    {
        LinuxQaRuntime { table: QaTable::new(QaHost::Linux) }
    }

    /// The selection, if there is one with more than white space in it.
    pub fn selection_text(read: Result<String, BackendError>) -> (r: Option<String>)
        ensures
            r == (match read {
                Ok(text) => if blank(text@) {
                    None
                } else {
                    Some(text)
                },
                Err(_) => None,
            }),
    {
        match read {
            Ok(text) => if is_blank(text.as_str()) {
                None
            } else {
                Some(text)
            },
            Err(_) => None,
        }
    }

    /// Goes on with a spoken turn that `begin_recording` took up. A recording
    /// that could not be started ends the turn; the two failures before that
    /// leave it to be cancelled.
    pub fn start_recording(&mut self, id: u128, stamp: u64, start: RecordingStart) -> (r: Result<
        (),
        BackendError,
    >)
        requires
            old(self).table.host == QaHost::Linux,
        ensures
            final(self).table.host == QaHost::Linux,
            match start {
                RecordingStart::PublishFailed(e) => r == Err::<(), BackendError>(e) && final(self).table.sessions@ == old(self).table.sessions@,
                RecordingStart::NoBackend => {
                    &&& r matches Err(e)
                    &&& reports(e, QaHost::Linux, QaFault::NoBackend)
                    &&& final(self).table.sessions@ == old(self).table.sessions@
                },
                RecordingStart::CaptureFailed(e) => r == Err::<(), BackendError>(e) && final(self).table.sessions@ == old(self).table.sessions@.remove(id),
                RecordingStart::Started { context, capture } => {
                    &&& r is Ok
                    &&& final(self).table.sessions@ == recording(
                        old(self).table,
                        id,
                        stamp,
                        context,
                        capture,
                    )
                },
            },
    {
        match start {
            RecordingStart::PublishFailed(e) => Err(e),
            RecordingStart::NoBackend => Err(qa_error(QaHost::Linux, QaFault::NoBackend)),
            RecordingStart::CaptureFailed(e) => {
                let _ = self.table.remove(id);
                Err(e)
            },
            RecordingStart::Started { context, capture } => {
                enter_recording(&mut self.table, id, stamp, context, capture);
                Ok(())
            },
        }
    }

    /// What the model is asked with. The recording is taken out of the turn
    /// before anything else is asked of it.
    pub fn answer(&mut self, request: QaTurnRequest, cancelled: bool) -> (r: Result<
        ChatRequest,
        BackendError,
    >)
        requires
            old(self).table.host == QaHost::Linux,
        ensures
            final(self).table.host == QaHost::Linux,
            ({
                let before = old(self).table.sessions@;
                let after = final(self).table.sessions@;
                let id = request.session_id;
                let s = before[id];
                if !before.contains_key(id) {
                    after == before && r is Err && reports(
                        r->Err_0,
                        QaHost::Linux,
                        QaFault::Inactive,
                    )
                } else if cancelled {
                    after == before && r is Err && reports(
                        r->Err_0,
                        QaHost::Linux,
                        QaFault::Cancelled,
                    )
                } else {
                    &&& after == before.insert(id, (QaSession { audio_wav: None, ..s }))
                    &&& if s.context is None {
                        r is Err && reports(r->Err_0, QaHost::Linux, QaFault::NoContext)
                    } else {
                        r == Ok::<ChatRequest, BackendError>(
                            (ChatRequest {
                                session_id: id,
                                context: s.context->0,
                                messages: request.messages,
                                audio_wav: s.audio_wav,
                            }),
                        )
                    }
                }
            }),
    {
        let id: u128 = request.session_id;
        let mut session: QaSession = match self.table.remove(id) {
            Some(s) => s,
            None => {
                proof {
                    assert(self.table.sessions@ =~= old(self).table.sessions@);
                }
                return Err(qa_error(QaHost::Linux, QaFault::Inactive));
            },
        };
        if cancelled {
            self.table.sessions.insert(id, session);
            proof {
                assert(self.table.sessions@ =~= old(self).table.sessions@);
            }
            return Err(qa_error(QaHost::Linux, QaFault::Cancelled));
        }
        let audio_wav: Option<Vec<u8>> = session.audio_wav.take();
        let context: Option<QaContext> = match &session.context {
            Some(context) => Some(copy_context(context)),
            None => None,
        };
        let ghost after = session;
        self.table.sessions.insert(id, session);
        proof {
            assert(self.table.sessions@ =~= old(self).table.sessions@.insert(id, after));
        }
        match context {
            Some(context) => Ok(
                ChatRequest { session_id: id, context, messages: request.messages, audio_wav },
            ),
            None => Err(qa_error(QaHost::Linux, QaFault::NoContext)),
        }
    }

    /// Ends a turn and hands on what it holds.
    pub fn complete(&mut self, id: u128) -> (r: Result<QaRuntimeCompletion, BackendError>)
        requires
            old(self).table.host == QaHost::Linux,
        ensures
            final(self).table.host == QaHost::Linux,
            final(self).table.sessions@ == old(self).table.sessions@.remove(id),
            ({
                let s = old(self).table.sessions@[id];
                if !old(self).table.sessions@.contains_key(id) {
                    r is Err && reports(r->Err_0, QaHost::Linux, QaFault::Inactive)
                } else if s.context is None {
                    r is Err && reports(r->Err_0, QaHost::Linux, QaFault::NoContext)
                } else {
                    &&& r matches Ok(c)
                    &&& c.duration_ms == kept_duration(s)
                    &&& c.front_app is None
                    &&& c.raw_transcript_override is Some == drops_transcript(s)
                    &&& c.raw_transcript_override is Some ==> c.raw_transcript_override->0@ == ""@
                    &&& !c.edit_apply_available
                    &&& !c.edit_revert_available
                }
            }),
    {
        let session: QaSession = match self.table.remove(id) {
            Some(s) => s,
            None => return Err(qa_error(QaHost::Linux, QaFault::Inactive)),
        };
        let multimodal: bool = match &session.context {
            Some(c) => c.multimodal,
            None => return Err(qa_error(QaHost::Linux, QaFault::NoContext)),
        };
        Ok(
            QaRuntimeCompletion {
                duration_ms: if session.voice_turn {
                    Some(session.duration_ms)
                } else {
                    None
                },
                front_app: None,
                raw_transcript_override: if session.voice_turn && multimodal {
                    Some("".to_owned())
                } else {
                    None
                },
                edit_apply_available: false,
                edit_revert_available: false,
            },
        )
    }
}

/// A place to bind to a preview.
#[derive(Clone, Copy, PartialEq, Eq, Structural, Debug)]
pub struct BindRequest {
    pub session_id: u128,
    pub target: u64,
}

/// What the windowed host remembers about the question panel.
#[derive(Debug)]
pub struct TauriQaHostContext {
    /// The window that had the focus, by the host's number for it.
    pub focus_target: Option<u64>,
    pub front_app: Option<String>,
    pub panel_visible: bool,
    /// Somebody binds places to previews.
    pub binder_installed: bool,
}

/// What the host finds before it shows the question panel.
#[derive(Debug)]
pub struct PanelTargets {
    /// The focused window, if it is outside the program.
    pub external: Option<u64>,
    /// The focused window, whichever it is.
    pub focused: Option<u64>,
    pub front_app: Option<String>,
}

impl TauriQaHostContext {
    /// What is remembered once the panel is shown. A window outside the
    /// program always becomes the one to return to; one of our own only if the
    /// panel was hidden.
    pub open spec fn shown(self, found: PanelTargets) -> TauriQaHostContext {
        TauriQaHostContext {
            panel_visible: true,
            focus_target: if found.external is Some {
                found.external
            } else if !self.panel_visible {
                found.focused
            } else {
                self.focus_target
            },
            front_app: if found.front_app is Some {
                found.front_app
            } else {
                self.front_app
            },
            ..self
        }
    }

    /// What is remembered once the panel is hidden.
    pub open spec fn hidden(self) -> TauriQaHostContext {
        TauriQaHostContext { focus_target: None, front_app: None, panel_visible: false, ..self }
    }

    pub fn new() -> (r: Self)
        ensures
            r == (TauriQaHostContext {
                focus_target: None,
                front_app: None,
                panel_visible: false,
                binder_installed: false,
            }),
    {
        TauriQaHostContext {
            focus_target: None,
            front_app: None,
            panel_visible: false,
            binder_installed: false,
        }
    }

    pub fn is_panel_visible(&self) -> (r: bool)
        ensures
            r == self.panel_visible,
    {
        self.panel_visible
    }

    /// The panel is about to be shown.
    pub fn prepare_show(&mut self, found: PanelTargets)
        ensures
            *final(self) == old(self).shown(found),
    {
        let was_visible: bool = self.panel_visible;
        self.panel_visible = true;
        if found.external.is_some() {
            self.focus_target = found.external;
        } else if !was_visible {
            self.focus_target = found.focused;
        }
        if found.front_app.is_some() {
            self.front_app = found.front_app;
        }
    }

    /// The panel was hidden.
    pub fn clear(&mut self)
        ensures
            *final(self) == old(self).hidden(),
    {
        self.panel_visible = false;
        self.focus_target = None;
        self.front_app = None;
    }

    /// Somebody binds places to previews from now on.
    pub fn set_selection_voice_target_binder(&mut self)
        ensures
            *final(self) == (TauriQaHostContext { binder_installed: true, ..*old(self) }),
    {
        self.binder_installed = true;
    }

    /// What to ask of whoever binds places to previews.
    pub fn bind_selection_voice_target(&self, session_id: u128, target: u64) -> (r: Result<
        BindRequest,
        BackendError,
    >)
        ensures
            match r {
                Ok(b) => self.binder_installed && b == (BindRequest { session_id, target }),
                Err(e) => !self.binder_installed && e.is(
                    BackendErrorCode::Unsupported,
                    "selection voice target binding is unavailable"@,
                ),
            },
    {
        if !self.binder_installed {
            return Err(
                BackendError::new(
                    BackendErrorCode::Unsupported,
                    "selection voice target binding is unavailable",
                ),
            );
        }
        Ok(BindRequest { session_id, target })
    }

    /// The window to give the focus back to before the selection is read.
    pub fn refocus_target(&mut self, external: Option<u64>) -> (r: Option<u64>)
        ensures
            r == (if external is Some {
                external
            } else {
                old(self).focus_target
            }),
            *final(self) == (TauriQaHostContext { focus_target: r, ..*old(self) }),
    {
        if external.is_some() {
            self.focus_target = external;
        }
        self.focus_target
    }

    /// What a turn begins with: the selection, and the program it stands in
    /// or, failing that, the one that was in front.
    pub fn capture_turn(&self, selection: Option<SelectionCapture>, target: u64) -> (r:
        TauriQaHostCapture)
        ensures
            r.selection_target == Some(target),
            match selection {
                Some(s) => r.selection_text == Some(s.text) && r.front_app == (
                if s.source_app is Some {
                    s.source_app
                } else {
                    self.front_app
                }),
                None => r.selection_text is None && r.front_app == self.front_app,
            },
    {
        match selection {
            Some(s) => {
                let front_app: Option<String> = if s.source_app.is_some() {
                    s.source_app
                } else {
                    copy_text(&self.front_app)
                };
                TauriQaHostCapture {
                    selection_text: Some(s.text),
                    selection_target: Some(target),
                    front_app,
                }
            },
            None => TauriQaHostCapture {
                selection_text: None,
                selection_target: Some(target),
                front_app: copy_text(&self.front_app),
            },
        }
    }
}

/// What the binding of a place came to.
pub fn binding_result(outcome: Result<(), String>) -> (r: Result<(), BackendError>)
    ensures
        match outcome {
            Ok(()) => r is Ok,
            Err(m) => r matches Err(e) && e.is(BackendErrorCode::Platform, m@),
        },
{
    match outcome {
        Ok(()) => Ok(()),
        Err(m) => Err(BackendError::new(BackendErrorCode::Platform, m.as_str())),
    }
}

/// A recording is handed out once: after it was taken, the turn has none.
pub proof fn law_recording_is_leased_once(sessions: Map<u128, QaSession>, id: u128)
    requires
        sessions.contains_key(id),
    ensures
        leased(sessions, id)[id].capture is None,
        leased(leased(sessions, id), id) == leased(sessions, id),
{
    assert(leased(leased(sessions, id), id) =~= leased(sessions, id));
}

/// Giving up one turn, or entering its recording, touches no other turn.
pub proof fn law_turns_are_separate(
    table: QaTable,
    id: u128,
    other: u128,
    stamp: u64,
    context: QaContext,
    capture: u64,
)
    requires
        id != other,
        table.sessions@.contains_key(other),
    ensures
        without_current(table, id, stamp).contains_key(other),
        without_current(table, id, stamp)[other] == table.sessions@[other],
        recording(table, id, stamp, context, capture)[other] == table.sessions@[other],
        leased(table.sessions@, id)[other] == table.sessions@[other],
{
}

/// A turn that took another's place is not given up in its stead.
pub proof fn law_successor_is_safe(table: QaTable, id: u128, stamp: u64)
    requires
        table.sessions@.contains_key(id),
        table.sessions@[id].stamp != stamp,
    ensures
        without_current(table, id, stamp) == table.sessions@,
{
}

/// A spoken turn that began with a place for an edit still has it when its answer
/// is asked for: through the start of the recording, its end and the transcript,
/// so that an edit instruction on a selection that is not blank is made an edit at
/// that very place, in the words that were spoken.
pub proof fn law_spoken_edit_goes_to_its_place(
    begun: &mut QaTable,
    started: &mut TauriQaRuntimeAdapter,
    leased_out: &mut QaTable,
    heard: &mut QaTable,
    answered: &mut TauriQaRuntimeAdapter,
    id: u128,
    stamp: u64,
    found: TauriQaHostCapture,
    context: QaContext,
    capture: u64,
    voice: VoiceResult,
    request: QaTurnRequest,
    spoken: SpokenStart,
    lease: RecordingLease,
    input: QaInput,
    plan: Result<AnswerPlan, BackendError>,
)
    requires
        call_ensures(QaTable::begin_recording, (begun, id, stamp, found), Ok(spoken)),
        started.table.sessions@ == final(begun).sessions@,
        call_ensures(
            TauriQaRuntimeAdapter::start_recording,
            (started, id, stamp, RecordingStart::Started { context, capture }, false),
            Ok(()),
        ),
        leased_out.sessions@ == final(started).table.sessions@,
        call_ensures(QaTable::finish_recording, (leased_out, id), Ok(lease)),
        heard.sessions@ == final(leased_out).sessions@,
        call_ensures(QaTable::recording_finished, (heard, id, lease, Ok(voice), false), Ok(input)),
        answered.table.sessions@ == final(heard).sessions@,
        request.session_id == id,
        request.input == input,
        request.edit_instruction_mode,
        call_ensures(TauriQaRuntimeAdapter::answer, (answered, request, false, true), plan),
    ensures
        spoken.selection_text == found.selection_text,
        spoken.front_app == found.front_app,
        spoken.session_id == id,
        lease.capture == capture,
        lease.stamp == stamp,
        input.selection_text == found.selection_text,
        (found.selection_text matches Some(text) && !blank(text@)) && found.selection_target is Some
            ==> {
            &&& plan is Ok
            &&& plan->Ok_0 is Edit
            &&& plan->Ok_0->target == found.selection_target->0
            &&& plan->Ok_0->request.selection_text == found.selection_text->0
            &&& plan->Ok_0->request.owner == request.conversation_id
            &&& plan->Ok_0->request.source_app == context.front_app
            &&& voice.transcript is Some ==> plan->Ok_0->request.instruction == voice.transcript->0
        },
        (found.selection_text matches Some(text) && !blank(text@)) && found.selection_target is None
            ==> plan is Err && plan->Err_0.code == BackendErrorCode::Platform,
        (found.selection_text matches Some(text) ==> blank(text@)) ==> plan is Err
            && plan->Err_0.code == BackendErrorCode::InvalidArgument,
{
}

/// A typed turn keeps what it began with in the same way.
pub proof fn law_typed_edit_goes_to_its_place(
    begun: &mut QaTable,
    answered: &mut TauriQaRuntimeAdapter,
    id: u128,
    stamp: u64,
    text: String,
    found: TauriQaHostCapture,
    context: QaContext,
    request: QaTurnRequest,
    input: QaInput,
    plan: Result<AnswerPlan, BackendError>,
)
    requires
        call_ensures(QaTable::prepare_text, (begun, id, stamp, text, found, Ok(context)), Ok(input)),
        answered.table.sessions@ == final(begun).sessions@,
        request.session_id == id,
        request.input == input,
        call_ensures(TauriQaRuntimeAdapter::answer, (answered, request, false, true), plan),
    ensures
        input.text == text,
        input.selection_text == found.selection_text,
        request.edit_instruction_mode && (found.selection_text matches Some(s) && !blank(s@))
            && found.selection_target is Some ==> {
            &&& plan is Ok
            &&& plan->Ok_0 is Edit
            &&& plan->Ok_0->target == found.selection_target->0
            &&& plan->Ok_0->request.instruction == text
            &&& plan->Ok_0->request.selection_text == found.selection_text->0
        },
        !request.edit_instruction_mode ==> {
            &&& plan is Ok
            &&& plan->Ok_0 is Chat
            &&& plan->Ok_0->0.session_id == id
            &&& plan->Ok_0->0.context == context
            &&& plan->Ok_0->0.messages == request.messages
            &&& plan->Ok_0->0.audio_wav is None
        },
{
}

/// A question that was spoken is put to the model with the recording, once: a
/// second answer has it no more. When the turn ends, its length and the program it
/// was asked in are handed on, and there is no transcript to keep where the model
/// heard for itself.
pub proof fn law_spoken_question_carries_its_recording(
    begun: &mut QaTable,
    started: &mut TauriQaRuntimeAdapter,
    leased_out: &mut QaTable,
    heard: &mut QaTable,
    answered: &mut TauriQaRuntimeAdapter,
    again: &mut TauriQaRuntimeAdapter,
    ended: &mut TauriQaRuntimeAdapter,
    id: u128,
    stamp: u64,
    found: TauriQaHostCapture,
    context: QaContext,
    capture: u64,
    voice: VoiceResult,
    request: QaTurnRequest,
    spoken: SpokenStart,
    lease: RecordingLease,
    input: QaInput,
    first: Result<AnswerPlan, BackendError>,
    second: Result<AnswerPlan, BackendError>,
    end: Result<QaRuntimeCompletion, BackendError>,
)
    requires
        call_ensures(QaTable::begin_recording, (begun, id, stamp, found), Ok(spoken)),
        started.table.sessions@ == final(begun).sessions@,
        call_ensures(
            TauriQaRuntimeAdapter::start_recording,
            (started, id, stamp, RecordingStart::Started { context, capture }, false),
            Ok(()),
        ),
        leased_out.sessions@ == final(started).table.sessions@,
        call_ensures(QaTable::finish_recording, (leased_out, id), Ok(lease)),
        heard.sessions@ == final(leased_out).sessions@,
        call_ensures(QaTable::recording_finished, (heard, id, lease, Ok(voice), false), Ok(input)),
        answered.table.sessions@ == final(heard).sessions@,
        request.session_id == id,
        !request.edit_instruction_mode,
        call_ensures(TauriQaRuntimeAdapter::answer, (answered, request, false, true), first),
        again.table.sessions@ == final(answered).table.sessions@,
        call_ensures(TauriQaRuntimeAdapter::answer, (again, request, false, true), second),
        ended.table.sessions@ == final(again).table.sessions@,
        call_ensures(TauriQaRuntimeAdapter::complete, (ended, id), end),
    ensures
        voice.transcript is Some ==> input.text == voice.transcript->0,
        voice.transcript is None ==> input.text@ == "（语音问题）"@,
        first is Ok && first->Ok_0 is Chat,
        first->Ok_0->0.audio_wav == voice.audio_wav,
        first->Ok_0->0.context == context,
        first->Ok_0->0.messages == request.messages,
        second is Ok && second->Ok_0 is Chat && second->Ok_0->0.audio_wav is None,
        end is Ok,
        end->Ok_0.duration_ms == Some(voice.duration_ms),
        end->Ok_0.front_app == found.front_app,
        end->Ok_0.raw_transcript_override is Some <==> context.multimodal,
        !end->Ok_0.edit_apply_available && !end->Ok_0.edit_revert_available,
        !final(ended).table.sessions@.contains_key(id),
{
}

/// The same in the Linux host, which has no place for an edit.
pub proof fn law_linux_question_carries_its_recording(
    begun: &mut QaTable,
    started: &mut LinuxQaRuntime,
    leased_out: &mut QaTable,
    heard: &mut QaTable,
    answered: &mut LinuxQaRuntime,
    again: &mut LinuxQaRuntime,
    ended: &mut LinuxQaRuntime,
    id: u128,
    stamp: u64,
    found: TauriQaHostCapture,
    context: QaContext,
    capture: u64,
    voice: VoiceResult,
    request: QaTurnRequest,
    spoken: SpokenStart,
    lease: RecordingLease,
    input: QaInput,
    first: Result<ChatRequest, BackendError>,
    second: Result<ChatRequest, BackendError>,
    end: Result<QaRuntimeCompletion, BackendError>,
)
    requires
        call_ensures(QaTable::begin_recording, (begun, id, stamp, found), Ok(spoken)),
        started.table.sessions@ == final(begun).sessions@,
        call_ensures(
            LinuxQaRuntime::start_recording,
            (started, id, stamp, RecordingStart::Started { context, capture }),
            Ok(()),
        ),
        leased_out.sessions@ == final(started).table.sessions@,
        call_ensures(QaTable::finish_recording, (leased_out, id), Ok(lease)),
        heard.sessions@ == final(leased_out).sessions@,
        call_ensures(QaTable::recording_finished, (heard, id, lease, Ok(voice), false), Ok(input)),
        answered.table.sessions@ == final(heard).sessions@,
        request.session_id == id,
        call_ensures(LinuxQaRuntime::answer, (answered, request, false), first),
        again.table.sessions@ == final(answered).table.sessions@,
        call_ensures(LinuxQaRuntime::answer, (again, request, false), second),
        ended.table.sessions@ == final(again).table.sessions@,
        call_ensures(LinuxQaRuntime::complete, (ended, id), end),
    ensures
        lease.capture == capture && lease.stamp == stamp,
        input.selection_text == found.selection_text,
        first is Ok && first->Ok_0.audio_wav == voice.audio_wav && first->Ok_0.context == context
            && first->Ok_0.messages == request.messages && first->Ok_0.session_id == id,
        second is Ok && second->Ok_0.audio_wav is None,
        end is Ok,
        end->Ok_0.duration_ms == Some(voice.duration_ms),
        end->Ok_0.front_app is None,
        end->Ok_0.raw_transcript_override is Some <==> context.multimodal,
        !end->Ok_0.edit_apply_available && !end->Ok_0.edit_revert_available,
        !final(ended).table.sessions@.contains_key(id),
{
}

/// An edit whose place could be bound can be applied from then on, and taken back
/// exactly if it replaced an earlier one; that is what the end of the turn hands
/// on. An edit whose place could not be bound changes nothing.
pub proof fn law_answered_edit_can_be_applied(
    edited: &mut TauriQaRuntimeAdapter,
    ended: &mut TauriQaRuntimeAdapter,
    id: u128,
    stamp: u64,
    bound: Result<(), BackendError>,
    replaced: bool,
    answer: String,
    r: Result<String, BackendError>,
    end: Result<QaRuntimeCompletion, BackendError>,
)
    requires
        call_ensures(
            TauriQaRuntimeAdapter::edit_answered,
            (edited, id, stamp, bound, replaced, answer),
            r,
        ),
        ended.table.sessions@ == final(edited).table.sessions@,
        call_ensures(TauriQaRuntimeAdapter::complete, (ended, id), end),
        edited.table.sessions@.contains_key(id),
        edited.table.sessions@[id].stamp == stamp,
        edited.table.sessions@[id].context is Some,
    ensures
        bound is Ok ==> {
            &&& r == Ok::<String, BackendError>(answer)
            &&& end is Ok
            &&& end->Ok_0.edit_apply_available
            &&& end->Ok_0.edit_revert_available == replaced
            &&& end->Ok_0.duration_ms is Some == old(edited).table.sessions@[id].voice_turn
            &&& end->Ok_0.front_app == old(edited).table.sessions@[id].front_app
        },
        bound is Err ==> {
            &&& r is Err && r->Err_0 == bound->Err_0
            &&& final(edited).table.sessions@ == old(edited).table.sessions@
        },
{
}

/// A turn that is under way is never replaced, neither by a typed nor by a spoken
/// one, and whoever finds it there is told that the host is busy.
pub proof fn law_turn_is_never_replaced(
    typed: &mut QaTable,
    spoken: &mut QaTable,
    id: u128,
    stamp: u64,
    text: String,
    found: TauriQaHostCapture,
    context: Result<QaContext, BackendError>,
    r: Result<QaInput, BackendError>,
    q: Result<SpokenStart, BackendError>,
)
    requires
        call_ensures(QaTable::prepare_text, (typed, id, stamp, text, found, context), r),
        call_ensures(QaTable::begin_recording, (spoken, id, stamp, found), q),
    ensures
        r is Ok <==> context is Ok && !old(typed).sessions@.contains_key(id),
        r is Err ==> final(typed).sessions@ == old(typed).sessions@,
        context is Err ==> r->Err_0 == context->Err_0,
        r is Err && context is Ok ==> r->Err_0.code == BackendErrorCode::Busy,
        r is Ok ==> final(typed).sessions@.contains_key(id) && final(typed).sessions@[id].stamp
            == stamp && !final(typed).sessions@[id].voice_turn && final(typed).sessions@[id].front_app
            == found.front_app,
        q is Ok <==> !old(spoken).sessions@.contains_key(id),
        q is Err ==> final(spoken).sessions@ == old(spoken).sessions@ && q->Err_0.code
            == BackendErrorCode::Busy,
        q is Ok ==> final(spoken).sessions@.contains_key(id) && final(spoken).sessions@[id].voice_turn
            && final(spoken).sessions@[id].stamp == stamp
            && final(spoken).sessions@[id].capture is None,
        forall|other: u128|
            other != id ==> (#[trigger] final(spoken).sessions@.contains_key(other)
                <==> old(spoken).sessions@.contains_key(other)),
{
}

/// A cancelled turn is gone, and the recording that runs for it comes back to be
/// stopped. Whoever finishes that recording afterwards gets no question out of it,
/// and an answer that is asked for is refused as cancelled.
pub proof fn law_cancelled_turn_gives_nothing(
    cancelled: &mut QaTable,
    leased_out: &mut QaTable,
    heard: &mut QaTable,
    answered: &mut TauriQaRuntimeAdapter,
    id: u128,
    lease: RecordingLease,
    result: Result<VoiceResult, BackendError>,
    request: QaTurnRequest,
    bound: bool,
    stop: Option<u64>,
    taken: Result<RecordingLease, BackendError>,
    question: Result<QaInput, BackendError>,
    plan: Result<AnswerPlan, BackendError>,
)
    requires
        call_ensures(QaTable::cancel, (cancelled, id), stop),
        leased_out.sessions@ == final(cancelled).sessions@,
        call_ensures(QaTable::finish_recording, (leased_out, id), taken),
        call_ensures(QaTable::recording_finished, (heard, id, lease, result, true), question),
        request.session_id == id,
        answered.table.sessions@ == final(cancelled).sessions@,
        call_ensures(TauriQaRuntimeAdapter::answer, (answered, request, false, bound), plan),
    ensures
        stop == (if old(cancelled).sessions@.contains_key(id) {
            old(cancelled).sessions@[id].capture
        } else {
            None
        }),
        !final(cancelled).sessions@.contains_key(id),
        taken is Err && taken->Err_0.code == BackendErrorCode::Cancelled,
        question is Err,
        result is Ok ==> question->Err_0.code == BackendErrorCode::Cancelled,
        result is Err ==> question->Err_0 == result->Err_0,
        final(heard).sessions@ == old(heard).sessions@,
        plan is Err && plan->Err_0.code == BackendErrorCode::Cancelled,
        forall|other: u128|
            other != id && old(cancelled).sessions@.contains_key(other) ==> #[trigger] final(cancelled).sessions@.contains_key(other),
{
}

/// There is one lease for a recording: the second caller finds it not ready.
pub proof fn law_second_lease_is_refused(
    once: &mut QaTable,
    twice: &mut QaTable,
    id: u128,
    first: Result<RecordingLease, BackendError>,
    second: Result<RecordingLease, BackendError>,
)
    requires
        call_ensures(QaTable::finish_recording, (once, id), first),
        twice.sessions@ == final(once).sessions@,
        call_ensures(QaTable::finish_recording, (twice, id), second),
    ensures
        first is Ok <==> old(once).sessions@.contains_key(id) && old(once).sessions@[id].capture is Some,
        first matches Ok(lease) ==> old(once).sessions@[id].capture == Some(lease.capture),
        first is Err && old(once).sessions@.contains_key(id) ==> first->Err_0.code
            == BackendErrorCode::InvalidState,
        second is Err,
        first is Ok ==> second->Err_0.code == BackendErrorCode::InvalidState
            && final(once).sessions@[id].selection_target == old(once).sessions@[id].selection_target
            && final(once).sessions@[id].context == old(once).sessions@[id].context
            && final(once).sessions@[id].stamp == old(once).sessions@[id].stamp,
{
}

/// Whatever keeps a recording from starting gives the turn up in the windowed
/// host, unless another took its place; a recording that runs for a cancelled turn
/// comes back to be stopped.
pub proof fn law_failed_start_gives_the_turn_up(
    rt: &mut TauriQaRuntimeAdapter,
    id: u128,
    stamp: u64,
    start: RecordingStart,
    cancelled: bool,
    r: Result<(), QaStartError>,
)
    requires
        call_ensures(TauriQaRuntimeAdapter::start_recording, (rt, id, stamp, start, cancelled), r),
    ensures
        r is Ok <==> start is Started && !cancelled,
        r is Err ==> (final(rt).table.sessions@.contains_key(id) <==> old(rt).table.sessions@.contains_key(
            id,
        ) && old(rt).table.sessions@[id].stamp != stamp),
        r is Err && old(rt).table.sessions@.contains_key(id) && old(rt).table.sessions@[id].stamp != stamp
            ==> final(rt).table.sessions@ == old(rt).table.sessions@,
        r matches Err(q) ==> {
            &&& q.stop_capture is Some <==> start is Started
            &&& q.stop_capture is Some ==> q.stop_capture->0 == start->capture && q.error.code
                == BackendErrorCode::Cancelled
            &&& start is NoBackend ==> q.error.code == BackendErrorCode::InvalidState
            &&& (start matches RecordingStart::PublishFailed(e) ==> q.error == e)
            &&& (start matches RecordingStart::CaptureFailed(e) ==> q.error == e)
        },
        r is Ok && old(rt).table.sessions@.contains_key(id) && old(rt).table.sessions@[id].stamp == stamp ==> {
            &&& final(rt).table.sessions@[id].context == Some(start->context)
            &&& final(rt).table.sessions@[id].capture == Some(start->capture)
            &&& final(rt).table.sessions@[id].selection_target
                == old(rt).table.sessions@[id].selection_target
            &&& final(rt).table.sessions@[id].selection_text == old(rt).table.sessions@[id].selection_text
        },
{
}

/// In the Linux host only a recorder that fails ends the turn; the two failures
/// before it leave the turn to be cancelled.
pub proof fn law_linux_start_failures(
    rt: &mut LinuxQaRuntime,
    id: u128,
    stamp: u64,
    start: RecordingStart,
    r: Result<(), BackendError>,
)
    requires
        call_ensures(LinuxQaRuntime::start_recording, (rt, id, stamp, start), r),
        rt.table.sessions@.contains_key(id),
    ensures
        r is Ok <==> start is Started,
        final(rt).table.sessions@.contains_key(id) <==> !(start is CaptureFailed),
        start is PublishFailed || start is NoBackend ==> final(rt).table.sessions@
            == old(rt).table.sessions@,
        (start matches RecordingStart::PublishFailed(e) ==> r->Err_0 == e),
        (start matches RecordingStart::CaptureFailed(e) ==> r->Err_0 == e),
        start is NoBackend ==> r->Err_0.code == BackendErrorCode::InvalidState,
{
}

/// What can keep an answer back, in this order: the turn is gone, it was
/// cancelled, its settings are unknown; for an edit that nothing is selected, that
/// there is no place for it, that nobody can make it. A chat answer is held back
/// by the first three alone.
pub proof fn law_answer_is_owed(
    rt: &mut TauriQaRuntimeAdapter,
    linux: &mut LinuxQaRuntime,
    request: QaTurnRequest,
    cancelled: bool,
    bound: bool,
    plan: Result<AnswerPlan, BackendError>,
    chat: Result<ChatRequest, BackendError>,
)
    requires
        call_ensures(TauriQaRuntimeAdapter::answer, (rt, request, cancelled, bound), plan),
        call_ensures(LinuxQaRuntime::answer, (linux, request, cancelled), chat),
    ensures
        ({
            let there = old(rt).table.sessions@.contains_key(request.session_id);
            let turn = old(rt).table.sessions@[request.session_id];
            let selected = request.input.selection_text is Some && !blank(
                request.input.selection_text->0@,
            );
            let ready = there && !cancelled && turn.context is Some;
            &&& plan is Ok && plan->Ok_0 is Chat <==> ready && !request.edit_instruction_mode
            &&& plan is Ok && plan->Ok_0 is Edit <==> ready && request.edit_instruction_mode
                && selected && turn.selection_target is Some && bound
            &&& !there || cancelled ==> plan->Err_0.code == BackendErrorCode::Cancelled
            &&& there && !cancelled && !ready ==> plan->Err_0.code == BackendErrorCode::InvalidState
            &&& !(ready && (!request.edit_instruction_mode || (selected
                && turn.selection_target is Some))) ==> final(rt).table.sessions@
                == old(rt).table.sessions@
            &&& ready && !request.edit_instruction_mode ==> final(rt).table.sessions@[request.session_id].selection_target == turn.selection_target
        }),
        ({
            let there = old(linux).table.sessions@.contains_key(request.session_id);
            let turn = old(linux).table.sessions@[request.session_id];
            &&& chat is Ok <==> there && !cancelled && turn.context is Some
            &&& !there || cancelled ==> chat->Err_0.code == BackendErrorCode::Cancelled
            &&& there && !cancelled && turn.context is None ==> chat->Err_0.code
                == BackendErrorCode::InvalidState
        }),
{
}

/// A turn ends once. Of a typed one no length is handed on and no transcript is
/// dropped; a turn whose settings were never known ends with an error, but it ends.
pub proof fn law_turn_ends_once(
    once: &mut TauriQaRuntimeAdapter,
    twice: &mut TauriQaRuntimeAdapter,
    linux: &mut LinuxQaRuntime,
    id: u128,
    first: Result<QaRuntimeCompletion, BackendError>,
    second: Result<QaRuntimeCompletion, BackendError>,
    third: Result<QaRuntimeCompletion, BackendError>,
)
    requires
        call_ensures(TauriQaRuntimeAdapter::complete, (once, id), first),
        twice.table.sessions@ == final(once).table.sessions@,
        call_ensures(TauriQaRuntimeAdapter::complete, (twice, id), second),
        linux.table.sessions@ == once.table.sessions@,
        call_ensures(LinuxQaRuntime::complete, (linux, id), third),
    ensures
        first is Ok <==> old(once).table.sessions@.contains_key(id)
            && old(once).table.sessions@[id].context is Some,
        third is Ok <==> first is Ok,
        second is Err && second->Err_0.code == BackendErrorCode::Cancelled,
        first is Ok && !old(once).table.sessions@[id].voice_turn ==> first->Ok_0.duration_ms is None
            && first->Ok_0.raw_transcript_override is None && third->Ok_0.duration_ms is None
            && third->Ok_0.raw_transcript_override is None,
        first is Ok ==> first->Ok_0.edit_apply_available
            == old(once).table.sessions@[id].edit_apply_available,
        !final(once).table.sessions@.contains_key(id),
        !final(linux).table.sessions@.contains_key(id),
        forall|other: u128|
            other != id && old(once).table.sessions@.contains_key(other) ==> #[trigger] final(once).table.sessions@.contains_key(other),
{
}

/// The panel remembers the window it was opened from: one outside the program
/// always, one of its own only when the panel was hidden before. While it is shown
/// again without one, the earlier window stays; once hidden, nothing is remembered
/// but whether somebody binds places.
pub proof fn law_panel_remembers_its_window(
    shown: &mut TauriQaHostContext,
    hidden: &mut TauriQaHostContext,
    focus: &mut TauriQaHostContext,
    found: PanelTargets,
    external: Option<u64>,
    back: Option<u64>,
    visible: bool,
)
    requires
        call_ensures(TauriQaHostContext::prepare_show, (shown, found), ()),
        call_ensures(TauriQaHostContext::clear, (hidden,), ()),
        call_ensures(TauriQaHostContext::refocus_target, (focus, external), back),
        call_ensures(TauriQaHostContext::is_panel_visible, (&*final(shown),), visible),
    ensures
        visible,
        final(shown).panel_visible,
        found.external is Some ==> final(shown).focus_target == found.external,
        found.external is None && old(shown).panel_visible ==> final(shown).focus_target
            == old(shown).focus_target,
        found.external is None && !old(shown).panel_visible ==> final(shown).focus_target
            == found.focused,
        found.front_app is Some ==> final(shown).front_app == found.front_app,
        found.front_app is None ==> final(shown).front_app == old(shown).front_app,
        final(shown).binder_installed == old(shown).binder_installed,
        !final(hidden).panel_visible && final(hidden).focus_target is None
            && final(hidden).front_app is None,
        final(hidden).binder_installed == old(hidden).binder_installed,
        external is Some ==> back == external,
        external is None ==> back == old(focus).focus_target,
        final(focus).focus_target == back,
        final(focus).front_app == old(focus).front_app && final(focus).panel_visible
            == old(focus).panel_visible,
{
}

/// A turn begins with the selection, its program and always with a place; and a
/// place is bound exactly when somebody binds places.
pub proof fn law_turn_begins_with_its_place(
    host: &TauriQaHostContext,
    told: &mut TauriQaHostContext,
    selection: Option<SelectionCapture>,
    target: u64,
    session_id: u128,
    captured: TauriQaHostCapture,
    bound: Result<BindRequest, BackendError>,
    later: Result<BindRequest, BackendError>,
)
    requires
        call_ensures(TauriQaHostContext::capture_turn, (host, selection, target), captured),
        call_ensures(
            TauriQaHostContext::bind_selection_voice_target,
            (host, session_id, target),
            bound,
        ),
        call_ensures(TauriQaHostContext::set_selection_voice_target_binder, (told,), ()),
        call_ensures(
            TauriQaHostContext::bind_selection_voice_target,
            (&*final(told), session_id, target),
            later,
        ),
    ensures
        captured.selection_target == Some(target),
        captured.selection_text is Some <==> selection is Some,
        selection matches Some(s) ==> captured.selection_text == Some(s.text) && (
        s.source_app is Some ==> captured.front_app == s.source_app) && (s.source_app is None
            ==> captured.front_app == host.front_app),
        selection is None ==> captured.front_app == host.front_app,
        bound is Ok <==> host.binder_installed,
        bound matches Ok(b) ==> b.session_id == session_id && b.target == target,
        bound matches Err(e) ==> e.code == BackendErrorCode::Unsupported,
        later is Ok && later->Ok_0.session_id == session_id && later->Ok_0.target == target,
        final(told).focus_target == old(told).focus_target,
{
}

/// A selection counts on Linux exactly if it could be read and is not blank.
pub proof fn law_linux_selection_counts(read: Result<String, BackendError>, r: Option<String>)
    requires
        call_ensures(LinuxQaRuntime::selection_text, (read,), r),
    ensures
        r is Some ==> read is Ok && r->0 == read->Ok_0 && !blank(r->0@),
        read is Ok && !blank(read->Ok_0@) ==> r is Some,
{
}

/// A binding that failed is reported in the words it came with.
pub proof fn law_binding_reports_its_failure(
    outcome: Result<(), String>,
    r: Result<(), BackendError>,
)
    requires
        call_ensures(binding_result, (outcome,), r),
    ensures
        r is Ok <==> outcome is Ok,
        r matches Err(e) ==> e.message@ == outcome->Err_0@ && e.code == BackendErrorCode::Platform,
{
}

/// A turn is given up by its own stamp alone.
pub proof fn law_removal_needs_the_stamp(table: &mut QaTable, id: u128, stamp: u64, other: u128)
    requires
        call_ensures(QaTable::remove_if_current, (table, id, stamp), ()),
    ensures
        final(table).sessions@.contains_key(other) <==> old(table).sessions@.contains_key(other) && !(
        other == id && old(table).sessions@[id].stamp == stamp),
        final(table).sessions@.contains_key(other) ==> final(table).sessions@[other]
            == old(table).sessions@[other],
{
}

/// A turn is taken up once: the first time it is there as it was given, and a second
/// time it is refused as busy and left alone, like every other turn.
pub proof fn law_turn_is_taken_up_once(
    table: &mut QaTable,
    later: &mut QaTable,
    id: u128,
    other: u128,
    session: QaSession,
    another: QaSession,
    r: Result<(), BackendError>,
    q: Result<(), BackendError>,
)
    requires
        call_ensures(QaTable::insert_session, (table, id, session), r),
        *later == *final(table),
        call_ensures(QaTable::insert_session, (later, id, another), q),
        other != id,
    ensures
        r is Ok <==> !old(table).sessions@.contains_key(id),
        r is Ok ==> final(later).sessions@[id] == session,
        r is Err ==> r->Err_0.code == BackendErrorCode::Busy && final(later).sessions@
            == old(table).sessions@,
        q is Err && q->Err_0.code == BackendErrorCode::Busy,
        final(later).sessions@.contains_key(other) <==> old(table).sessions@.contains_key(other),
        old(table).sessions@.contains_key(other) ==> final(later).sessions@[other]
            == old(table).sessions@[other],
{
}

/// Each fault is told by its class on every host: a turn that exists as busy, one that
/// is over as cancelled, and what is missing as a wrong state or argument.
pub proof fn law_faults_have_their_class(host: QaHost, fault: QaFault, r: BackendError)
    requires
        call_ensures(qa_error, (host, fault), r),
    ensures
        !r.retryable,
        r.code == BackendErrorCode::Busy <==> fault is Exists,
        r.code == BackendErrorCode::Cancelled <==> fault is Inactive || fault is Cancelled,
        r.code == BackendErrorCode::InvalidState <==> fault is NoContext || fault
            is RecordingNotReady || fault is NoBackend,
        r.code == BackendErrorCode::InvalidArgument <==> fault is NothingSelected,
        r.code == BackendErrorCode::Platform <==> fault is NoEditTarget,
{
}

/// At first there is no turn on any host, the panel is hidden and remembers nothing.
pub proof fn law_no_turn_at_first(
    host: QaHost,
    table: QaTable,
    desk: TauriQaRuntimeAdapter,
    linux: LinuxQaRuntime,
    panel: TauriQaHostContext,
    visible: bool,
    id: u128,
)
    requires
        call_ensures(QaTable::new, (host,), table),
        call_ensures(TauriQaRuntimeAdapter::new, (), desk),
        call_ensures(LinuxQaRuntime::new, (), linux),
        call_ensures(TauriQaHostContext::new, (), panel),
        call_ensures(TauriQaHostContext::is_panel_visible, (&panel,), visible),
    ensures
        table.host == host && !table.sessions@.contains_key(id),
        desk.table.host == QaHost::Tauri && !desk.table.sessions@.contains_key(id),
        linux.table.host == QaHost::Linux && !linux.table.sessions@.contains_key(id),
        !visible && !panel.panel_visible && !panel.binder_installed,
        panel.focus_target is None && panel.front_app is None,
{
}

} // verus!
