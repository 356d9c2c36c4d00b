//! Editing selected text by voice: who owns the selection, what the key does,
//! and how a session ends.

use crate::selection::{PastePreferences, PasteRequest, SelectionCapture};
use crate::selection_voice_run::VoiceCapsule;
use crate::session::elapsed_spec;
use crate::text::{
    after_last, blank, contains, contains_text, is_blank, join2, str_eq, text_after_last, trim,
    trimmed,
};
use crate::types::{BackendError, BackendErrorCode, HotkeyMode, InsertStatus, SessionPhase};
use vstd::prelude::*;

verus! {

/// A press shorter than this toggles, a longer one holds.
pub const AUTO_HOLD_THRESHOLD_MS: u64 = 350;

/// The words for an error that the user can act on; other errors speak for
/// themselves.
pub open spec fn user_message(error: Seq<char>) -> Seq<char> {
    if error == "dictationActive"@ {
        "正在听写，请先结束录音"@
    } else if error == "selectionVoiceNoSelection"@ {
        "请先选中文字"@
    } else if error == "selectionVoiceTargetUnavailable"@ {
        "无法定位选区，请重试"@
    } else if error == "selectionVoiceBusy"@ {
        "选区语音会话进行中"@
    } else {
        error
    }
}

pub fn selection_voice_user_message(error: &str) -> (r: String)
    ensures
        r@ == user_message(error@),
{
    if str_eq(error, "dictationActive") {
        "正在听写，请先结束录音".to_owned()
    } else if str_eq(error, "selectionVoiceNoSelection") {
        "请先选中文字".to_owned()
    } else if str_eq(error, "selectionVoiceTargetUnavailable") {
        "无法定位选区，请重试".to_owned()
    } else if str_eq(error, "selectionVoiceBusy") {
        "选区语音会话进行中".to_owned()
    } else {
        error.to_owned()
    }
}

/// The words for an error at the end of a session.
pub open spec fn end_message(error: Seq<char>) -> Seq<char> {
    if contains_text(error, "invalid EditPlan XML"@) || contains_text(
        error,
        "invalid EditPlan JSON"@,
    ) {
        "编辑方案解析失败，请重试"@
    } else if contains_text(error, "edit plan has no operations"@) {
        "未能生成有效编辑方案，请重试"@
    } else if contains_text(error, "edit plan has too many operations"@) {
        "编辑方案过于复杂，请缩短指令"@
    } else if contains_text(error, "edit operation exceeds size limit"@) {
        "编辑内容过长，请缩短选区或拆步操作"@
    } else if contains_text(error, "global timeout"@) {
        "语音识别超时，请重试"@
    } else if contains_text(error, "selectionVoiceAsrUnavailable"@) {
        "语音识别不可用，请重试"@
    } else if contains_text(error, "translation unchanged"@) {
        "翻译结果与原文相同，请重试或调整指令"@
    } else {
        user_message(error)
    }
}

pub fn selection_voice_end_message(error: &str) -> (r: String)
    ensures
        r@ == end_message(error@),
{
    if contains(error, "invalid EditPlan XML") || contains(error, "invalid EditPlan JSON") {
        return "编辑方案解析失败，请重试".to_owned();
    }
    if contains(error, "edit plan has no operations") {
        return "未能生成有效编辑方案，请重试".to_owned();
    }
    if contains(error, "edit plan has too many operations") {
        return "编辑方案过于复杂，请缩短指令".to_owned();
    }
    if contains(error, "edit operation exceeds size limit") {
        return "编辑内容过长，请缩短选区或拆步操作".to_owned();
    }
    if contains(error, "global timeout") {
        return "语音识别超时，请重试".to_owned();
    }
    if contains(error, "selectionVoiceAsrUnavailable") {
        return "语音识别不可用，请重试".to_owned();
    }
    if contains(error, "translation unchanged") {
        return "翻译结果与原文相同，请重试或调整指令".to_owned();
    }
    selection_voice_user_message(error)
}

/// The name under which a failure of the backend reaches the user interface.
pub open spec fn core_error_name(error: BackendError) -> Seq<char> {
    match error.code {
        BackendErrorCode::Busy => "selectionVoiceBusy"@,
        BackendErrorCode::Cancelled => "selectionVoicePreviewUnavailable"@,
        BackendErrorCode::InvalidArgument => if contains_text(error.message@, "intent"@) {
            match after_last(error.message@, ':') {
                Some(intent) => "selectionVoiceInvalidIntent:"@ + trimmed(intent),
                None => "selectionVoiceInvalidIntent"@,
            }
        } else {
            error.message@
        },
        BackendErrorCode::InvalidState => if contains_text(error.message@, "intent prompt"@) {
            "selectionVoiceIntentPromptUnavailable"@
        } else if contains_text(error.message@, "preview"@) {
            "selectionVoicePreviewUnavailable"@
        } else {
            error.message@
        },
        _ => error.message@,
    }
}

pub fn core_error(error: BackendError) -> (r: String)
    ensures
        r@ == core_error_name(error),
{
    match error.code {
        BackendErrorCode::Busy => "selectionVoiceBusy".to_owned(),
        BackendErrorCode::Cancelled => "selectionVoicePreviewUnavailable".to_owned(),
        BackendErrorCode::InvalidArgument => {
            if contains(error.message.as_str(), "intent") {
                match text_after_last(error.message.as_str(), ':') {
                    Some(intent) => {
                        let name: String = trim(intent.as_str());
                        join2("selectionVoiceInvalidIntent:", name.as_str())
                    },
                    None => "selectionVoiceInvalidIntent".to_owned(),
                }
            } else {
                error.message
            }
        },
        BackendErrorCode::InvalidState => {
            if contains(error.message.as_str(), "intent prompt") {
                "selectionVoiceIntentPromptUnavailable".to_owned()
            } else if contains(error.message.as_str(), "preview") {
                "selectionVoicePreviewUnavailable".to_owned()
            } else {
                error.message
            }
        },
        _ => error.message,
    }
}

/// What the host holds for a session: the place of the selection and the
/// microphone. The texts belong to the backend.
#[derive(Clone, Copy, PartialEq, Eq, Structural, Debug)]
pub struct SelectionVoiceHostState {
    pub target_session_id: Option<u128>,
    /// The window and place of the selection, as the platform names it.
    pub insertion_target: Option<u64>,
    /// The session that records.
    pub recorder_session_id: Option<u128>,
    /// No other recording may start.
    pub blocks_recording: bool,
    /// When the key went down, for telling a tap from a hold.
    pub auto_press_at_ms: Option<u64>,
}

/// The host holds nothing.
pub open spec fn empty_host() -> SelectionVoiceHostState {
    SelectionVoiceHostState {
        target_session_id: None,
        insertion_target: None,
        recorder_session_id: None,
        blocks_recording: false,
        auto_press_at_ms: None,
    }
}

impl SelectionVoiceHostState {
    pub fn new() -> (r: Self)
        ensures
            r == empty_host(),
    {
        SelectionVoiceHostState {
            target_session_id: None,
            insertion_target: None,
            recorder_session_id: None,
            blocks_recording: false,
            auto_press_at_ms: None,
        }
    }

    /// The host state after session `id` has let go of it.
    pub open spec fn cleared(self, id: u128) -> SelectionVoiceHostState {
        if self.target_session_id == Some(id) {
            empty_host()
        } else {
            self
        }
    }
}

/// Why a session cannot start, go on, or apply its text.
#[derive(Clone, Copy, PartialEq, Eq, Structural, Debug)]
pub enum VoiceRefusal {
    DictationActive,
    Busy,
    NoSelection,
    TargetUnavailable,
    SessionUnavailable,
    IntentPromptUnavailable,
    PreviewUnavailable,
    EmptyOutput,
    InsertFailed,
}

/// The name of a refusal.
pub open spec fn refusal_name(r: VoiceRefusal) -> Seq<char> {
    match r {
        VoiceRefusal::DictationActive => "dictationActive"@,
        VoiceRefusal::Busy => "selectionVoiceBusy"@,
        VoiceRefusal::NoSelection => "selectionVoiceNoSelection"@,
        VoiceRefusal::TargetUnavailable => "selectionVoiceTargetUnavailable"@,
        VoiceRefusal::SessionUnavailable => "selectionVoiceSessionUnavailable"@,
        VoiceRefusal::IntentPromptUnavailable => "selectionVoiceIntentPromptUnavailable"@,
        VoiceRefusal::PreviewUnavailable => "selectionVoicePreviewUnavailable"@,
        VoiceRefusal::EmptyOutput => "selectionVoiceEmptyOutput"@,
        VoiceRefusal::InsertFailed => "selectionVoiceInsertFailed"@,
    }
}

impl VoiceRefusal {
    pub fn name(self) -> (r: &'static str)
        ensures
            r@ == refusal_name(self),
    {
        match self {
            VoiceRefusal::DictationActive => "dictationActive",
            VoiceRefusal::Busy => "selectionVoiceBusy",
            VoiceRefusal::NoSelection => "selectionVoiceNoSelection",
            VoiceRefusal::TargetUnavailable => "selectionVoiceTargetUnavailable",
            VoiceRefusal::SessionUnavailable => "selectionVoiceSessionUnavailable",
            VoiceRefusal::IntentPromptUnavailable => "selectionVoiceIntentPromptUnavailable",
            VoiceRefusal::PreviewUnavailable => "selectionVoicePreviewUnavailable",
            VoiceRefusal::EmptyOutput => "selectionVoiceEmptyOutput",
            VoiceRefusal::InsertFailed => "selectionVoiceInsertFailed",
        }
    }
}

/// The place of the selection of session `id`.
pub fn target_for_session(host: &SelectionVoiceHostState, id: u128) -> (r: Result<
    Option<u64>,
    VoiceRefusal,
>)
    ensures
        r == (if host.target_session_id == Some(id) {
            Ok::<Option<u64>, VoiceRefusal>(host.insertion_target)
        } else {
            Err(VoiceRefusal::TargetUnavailable)
        }),
{
    match host.target_session_id {
        Some(t) => if t == id {
            Ok(host.insertion_target)
        } else {
            Err(VoiceRefusal::TargetUnavailable)
        },
        None => Err(VoiceRefusal::TargetUnavailable),
    }
}

/// Session `id` lets go of what the host holds for it.
pub fn clear_host_session(host: &mut SelectionVoiceHostState, id: u128)
    ensures
        *final(host) == old(host).cleared(id),
{
    let owns: bool = match host.target_session_id {
        Some(t) => t == id,
        None => false,
    };
    if owns {
        *host = SelectionVoiceHostState::new();
    }
}

/// Hands a captured selection over to session `id`, which does not record.
pub fn bind_selection_voice_target_state(
    host: &mut SelectionVoiceHostState,
    id: u128,
    insertion_target: Option<u64>,
) -> (r: Result<(), VoiceRefusal>)
    ensures
        insertion_target is None ==> r == Err::<(), VoiceRefusal>(VoiceRefusal::TargetUnavailable)
            && *final(host) == *old(host),
        insertion_target is Some ==> r == Ok::<(), VoiceRefusal>(()) && *final(host) == (
        SelectionVoiceHostState {
            target_session_id: Some(id),
            insertion_target,
            recorder_session_id: None,
            blocks_recording: false,
            ..*old(host)
        }),
{
    if insertion_target.is_none() {
        return Err(VoiceRefusal::TargetUnavailable);
    }
    host.target_session_id = Some(id);
    host.insertion_target = insertion_target;
    host.recorder_session_id = None;
    host.blocks_recording = false;
    Ok(())
}

/// Whether session `id` is the one that records.
pub fn selection_voice_recording_active(host: &SelectionVoiceHostState, id: u128) -> (r: bool)
    ensures
        r == (host.recorder_session_id == Some(id)),
{
    match host.recorder_session_id {
        Some(t) => t == id,
        None => false,
    }
}

/// Whether dictation and questions have to wait for the microphone.
pub fn selection_voice_blocks_other_recording(host: &SelectionVoiceHostState) -> (r: bool)
    ensures
        r == host.blocks_recording,
{
    host.blocks_recording
}

/// A failure that ends a session: the session to cancel and the words to
/// show.
#[derive(Debug)]
pub struct VoiceFailure {
    pub cancel_session: Option<u128>,
    pub message: String,
    pub hide_after_ms: u64,
}

/// The recorder of `recorder_session_id` fails. A failure of an earlier
/// session is dropped.
pub fn handle_selection_voice_recorder_error(
    host: &mut SelectionVoiceHostState,
    recorder_session_id: u128,
    message: &str,
) -> (r: Option<VoiceFailure>)
    ensures
        old(host).recorder_session_id == Some(recorder_session_id) ==> {
            &&& *final(host) == empty_host()
            &&& r is Some
            &&& r->0.cancel_session == old(host).target_session_id
            &&& r->0.message@ == end_message(message@)
            &&& r->0.hide_after_ms == 2500
        },
        old(host).recorder_session_id != Some(recorder_session_id) ==> r is None && *final(host)
            == *old(host),
{
    if !selection_voice_recording_active(host, recorder_session_id) {
        return None;
    }
    let cancel_session: Option<u128> = host.target_session_id;
    *host = SelectionVoiceHostState::new();
    Some(
        VoiceFailure {
            cancel_session,
            message: selection_voice_end_message(message),
            hide_after_ms: 2500,
        },
    )
}

/// Where a voice session stands.
#[derive(Clone, Copy, PartialEq, Eq, Structural, Debug)]
pub enum SelectionVoicePhase {
    Idle,
    Recording,
    Processing,
    AwaitingIntent,
    Preview,
}

/// What the voice key asks for.
#[derive(Clone, Copy, PartialEq, Eq, Structural, Debug)]
pub enum VoiceKeyAction {
    Nothing,
    Begin,
    End,
}

/// What a press asks for. The press that stops a session is never held up by
/// another one in progress.
pub open spec fn voice_press_action(
    enabled: bool,
    mode: HotkeyMode,
    phase: Option<SelectionVoicePhase>,
    busy: bool,
) -> VoiceKeyAction {
    match phase {
        None => VoiceKeyAction::Nothing,
        Some(p) => if !enabled {
            VoiceKeyAction::Nothing
        } else if p == SelectionVoicePhase::Recording && mode != HotkeyMode::Hold {
            VoiceKeyAction::End
        } else if !busy && p == SelectionVoicePhase::Idle {
            VoiceKeyAction::Begin
        } else {
            VoiceKeyAction::Nothing
        },
    }
}

/// The voice key goes down. `phase` is `None` where the backend could not say.
pub fn handle_selection_voice_pressed(
    host: &mut SelectionVoiceHostState,
    busy: &mut bool,
    enabled: bool,
    mode: HotkeyMode,
    phase: Option<SelectionVoicePhase>,
    now_ms: u64,
) -> (r: VoiceKeyAction)
    ensures
        r == voice_press_action(enabled, mode, phase, *old(busy)),
        *final(busy) == (*old(busy) || r == VoiceKeyAction::Begin),
        *final(host) == (if r == VoiceKeyAction::Begin && mode == HotkeyMode::Auto {
            SelectionVoiceHostState { auto_press_at_ms: Some(now_ms), ..*old(host) }
        } else {
            *old(host)
        }),
{
    if !enabled {
        return VoiceKeyAction::Nothing;
    }
    let phase: SelectionVoicePhase = match phase {
        None => return VoiceKeyAction::Nothing,
        Some(p) => p,
    };
    if phase == SelectionVoicePhase::Recording && mode != HotkeyMode::Hold {
        return VoiceKeyAction::End;
    }
    if *busy || phase != SelectionVoicePhase::Idle {
        return VoiceKeyAction::Nothing;
    }
    *busy = true;
    if mode == HotkeyMode::Auto {
        host.auto_press_at_ms = Some(now_ms);
    }
    VoiceKeyAction::Begin
}

/// What a press asked for has been done. The words are those of a session
/// that could not begin.
pub fn voice_press_done(
    host: &mut SelectionVoiceHostState,
    busy: &mut bool,
    action: VoiceKeyAction,
    begin_error: Option<String>,
) -> (r: Option<String>)
    ensures
        *final(busy) == (*old(busy) && action == VoiceKeyAction::Nothing),
        *final(host) == (if action == VoiceKeyAction::End || (action == VoiceKeyAction::Begin
            && begin_error is Some) {
            SelectionVoiceHostState { auto_press_at_ms: None, ..*old(host) }
        } else {
            *old(host)
        }),
        match r {
            Some(m) => action == VoiceKeyAction::Begin && begin_error is Some && m@ == user_message(
                begin_error->0@,
            ),
            None => !(action == VoiceKeyAction::Begin && begin_error is Some),
        },
{
    match action {
        VoiceKeyAction::Nothing => None,
        VoiceKeyAction::End => {
            *busy = false;
            host.auto_press_at_ms = None;
            None
        },
        VoiceKeyAction::Begin => {
            *busy = false;
            match begin_error {
                Some(e) => {
                    host.auto_press_at_ms = None;
                    Some(selection_voice_user_message(e.as_str()))
                },
                None => None,
            }
        },
    }
}

/// The key was held long enough to count as a hold.
pub open spec fn held_long(pressed_at: Option<u64>, now: u64) -> bool {
    match pressed_at {
        Some(t) => elapsed_spec(t, now) >= AUTO_HOLD_THRESHOLD_MS,
        None => false,
    }
}

/// What a release asks for.
pub open spec fn voice_release_action(
    enabled: bool,
    mode: HotkeyMode,
    phase: Option<SelectionVoicePhase>,
    pressed_at: Option<u64>,
    now: u64,
) -> VoiceKeyAction {
    if enabled && phase == Some(SelectionVoicePhase::Recording) && (mode == HotkeyMode::Hold || (
    mode == HotkeyMode::Auto && held_long(pressed_at, now))) {
        VoiceKeyAction::End
    } else {
        VoiceKeyAction::Nothing
    }
}

/// The voice key goes up. A toggle key does nothing on release; an automatic
/// one ends the session only after a hold and otherwise keeps it running.
pub fn handle_selection_voice_released(
    host: &mut SelectionVoiceHostState,
    busy: &mut bool,
    enabled: bool,
    mode: HotkeyMode,
    phase: Option<SelectionVoicePhase>,
    now_ms: u64,
) -> (r: VoiceKeyAction)
    ensures
        r == voice_release_action(enabled, mode, phase, old(host).auto_press_at_ms, now_ms),
        *final(busy) == (*old(busy) && (!enabled || mode == HotkeyMode::Toggle || phase is None)),
        *final(host) == (if enabled && mode == HotkeyMode::Auto && phase == Some(
            SelectionVoicePhase::Recording,
        ) {
            SelectionVoiceHostState { auto_press_at_ms: None, ..*old(host) }
        } else {
            *old(host)
        }),
{
    if !enabled || mode == HotkeyMode::Toggle {
        return VoiceKeyAction::Nothing;
    }
    let phase: SelectionVoicePhase = match phase {
        None => return VoiceKeyAction::Nothing,
        Some(p) => p,
    };
    *busy = false;
    if phase != SelectionVoicePhase::Recording {
        return VoiceKeyAction::Nothing;
    }
    if mode == HotkeyMode::Hold {
        return VoiceKeyAction::End;
    }
    let long: bool = match host.auto_press_at_ms {
        Some(t) => crate::session::elapsed_ms(t, now_ms) >= AUTO_HOLD_THRESHOLD_MS,
        None => false,
    };
    host.auto_press_at_ms = None;
    if long {
        VoiceKeyAction::End
    } else {
        VoiceKeyAction::Nothing
    }
}

/// What a session is begun with: the selection. The first problem that stands
/// in the way is reported.
pub fn gate_selection_voice(
    dictation_phase: SessionPhase,
    host: &SelectionVoiceHostState,
    selection: Option<SelectionCapture>,
    target_captured: bool,
) -> (r: Result<SelectionCapture, VoiceRefusal>)
    ensures
        r == (if dictation_phase != SessionPhase::Idle {
            Err::<SelectionCapture, VoiceRefusal>(VoiceRefusal::DictationActive)
        } else if host.blocks_recording {
            Err(VoiceRefusal::Busy)
        } else if selection is None {
            Err(VoiceRefusal::NoSelection)
        } else if !target_captured {
            Err(VoiceRefusal::TargetUnavailable)
        } else {
            Ok(selection->0)
        }),
{
    if dictation_phase != SessionPhase::Idle {
        return Err(VoiceRefusal::DictationActive);
    }
    if host.blocks_recording {
        return Err(VoiceRefusal::Busy);
    }
    match selection {
        None => Err(VoiceRefusal::NoSelection),
        Some(capture) => if target_captured {
            Ok(capture)
        } else {
            Err(VoiceRefusal::TargetUnavailable)
        },
    }
}

/// The backend was to open a session. It takes the selection and the
/// microphone, and the capsule shows that it records.
pub fn begin_selection_voice_session(
    host: &mut SelectionVoiceHostState,
    begun: Result<u128, BackendError>,
    insertion_target: Option<u64>,
) -> (r: Result<(u128, VoiceCapsule), String>)
    ensures
        match begun {
            Ok(id) => {
                &&& *final(host) == (SelectionVoiceHostState {
                    target_session_id: Some(id),
                    insertion_target,
                    recorder_session_id: Some(id),
                    blocks_recording: true,
                    ..*old(host)
                })
                &&& r == Ok::<(u128, VoiceCapsule), String>((id, VoiceCapsule::Recording))
            },
            Err(e) => {
                &&& *final(host) == *old(host)
                &&& r matches Err(name)
                &&& name@ == core_error_name(e)
            },
        },
{
    let id: u128 = match begun {
        Ok(id) => id,
        Err(e) => return Err(core_error(e)),
    };
    host.target_session_id = Some(id);
    host.insertion_target = insertion_target;
    host.recorder_session_id = Some(id);
    host.blocks_recording = true;
    Ok((id, VoiceCapsule::Recording))
}

/// What the host has to do next on behalf of an ending session.
#[derive(Debug)]
pub enum VoiceEndNext {
    /// There is nothing to end.
    Nothing,
    Refused(VoiceRefusal),
    /// Tell the backend that the recording is over, then wait for the words.
    MarkProcessing(u128),
    /// Hand the words to the backend.
    ProcessTranscript { session_id: u128, text: String },
    /// Nothing was said: cancel with the backend and say so.
    CancelEmpty(u128),
    ShowIntentPrompt,
    /// Put the instruction to the assistant as a question.
    AskQuestion { session_id: u128, instruction: String },
    /// Show that the model works, and let it edit the selection as the session
    /// says.
    Edit(u128),
    Failed(VoiceFailure),
}

/// A stop arrives. `session_id` is the backend's own.
pub fn end_selection_voice_session(phase: SelectionVoicePhase, session_id: Option<u128>) -> (r:
    VoiceEndNext)
    ensures
        r == (if phase != SelectionVoicePhase::Recording {
            VoiceEndNext::Nothing
        } else {
            match session_id {
                Some(id) => VoiceEndNext::MarkProcessing(id),
                None => VoiceEndNext::Refused(VoiceRefusal::SessionUnavailable),
            }
        }),
{
    if phase != SelectionVoicePhase::Recording {
        return VoiceEndNext::Nothing;
    }
    match session_id {
        Some(id) => VoiceEndNext::MarkProcessing(id),
        None => VoiceEndNext::Refused(VoiceRefusal::SessionUnavailable),
    }
}

/// The backend was told that the recording is over. The capsule goes at once.
pub fn voice_processing_marked(marked: Result<(), BackendError>) -> (r: Result<VoiceCapsule, String>)
    ensures
        match marked {
            Ok(()) => r == Ok::<VoiceCapsule, String>(VoiceCapsule::Hidden),
            Err(e) => r matches Err(name) && name@ == core_error_name(e),
        },
{
    match marked {
        Ok(()) => Ok(VoiceCapsule::Hidden),
        Err(e) => Err(core_error(e)),
    }
}

/// `next` reports the failure `error` of session `id`.
pub open spec fn reports_failure(next: VoiceEndNext, id: u128, error: Seq<char>) -> bool {
    &&& next is Failed
    &&& next->Failed_0.cancel_session == Some(id)
    &&& next->Failed_0.message@ == end_message(error)
    &&& next->Failed_0.hide_after_ms == 2500
}

/// A step of session `id` failed: the session lets go and is cancelled.
pub fn voice_end_failed(host: &mut SelectionVoiceHostState, id: u128, error: &str) -> (r:
    VoiceEndNext)
    ensures
        *final(host) == old(host).cleared(id),
        reports_failure(r, id, error@),
{
    clear_host_session(host, id);
    VoiceEndNext::Failed(
        VoiceFailure {
            cancel_session: Some(id),
            message: selection_voice_end_message(error),
            hide_after_ms: 2500,
        },
    )
}

/// The host state once the words are there: the microphone is free again.
pub open spec fn heard_host(host: SelectionVoiceHostState) -> SelectionVoiceHostState {
    SelectionVoiceHostState { recorder_session_id: None, blocks_recording: false, ..host }
}

/// The words of session `id` are there, or could not be had.
pub fn voice_transcript_ready(
    host: &mut SelectionVoiceHostState,
    id: u128,
    transcript: Result<String, String>,
) -> (r: VoiceEndNext)
    ensures
        match transcript {
            Err(e) => *final(host) == old(host).cleared(id) && reports_failure(r, id, e@),
            Ok(t) => if blank(t@) {
                &&& *final(host) == heard_host(*old(host)).cleared(id)
                &&& r == VoiceEndNext::CancelEmpty(id)
            } else {
                &&& *final(host) == heard_host(*old(host))
                &&& r == (VoiceEndNext::ProcessTranscript { session_id: id, text: t })
            },
        },
{
    match transcript {
        Err(e) => voice_end_failed(host, id, e.as_str()),
        Ok(t) => {
            host.recorder_session_id = None;
            host.blocks_recording = false;
            if is_blank(t.as_str()) {
                clear_host_session(host, id);
                VoiceEndNext::CancelEmpty(id)
            } else {
                VoiceEndNext::ProcessTranscript { session_id: id, text: t }
            }
        },
    }
}

/// What the backend made of the words.
#[derive(Debug)]
pub enum Disposition {
    AwaitingIntent,
    Question { session_id: u128, instruction: String },
    Edit(u128),
}

/// The backend has looked at the words of session `id`. While a session ends
/// it may still have to ask what is meant.
pub fn voice_disposition(
    host: &mut SelectionVoiceHostState,
    id: u128,
    disposition: Result<Disposition, BackendError>,
) -> (r: VoiceEndNext)
    ensures
        match disposition {
            Err(e) => *final(host) == old(host).cleared(id) && reports_failure(
                r,
                id,
                core_error_name(e),
            ),
            Ok(d) => *final(host) == *old(host) && r == (match d {
                Disposition::AwaitingIntent => VoiceEndNext::ShowIntentPrompt,
                Disposition::Question { session_id, instruction } => VoiceEndNext::AskQuestion {
                    session_id,
                    instruction,
                },
                Disposition::Edit(s) => VoiceEndNext::Edit(s),
            }),
        },
{
    match disposition {
        Err(e) => {
            let name: String = core_error(e);
            voice_end_failed(host, id, name.as_str())
        },
        Ok(d) => match d {
            Disposition::AwaitingIntent => VoiceEndNext::ShowIntentPrompt,
            Disposition::Question { session_id, instruction } => VoiceEndNext::AskQuestion {
                session_id,
                instruction,
            },
            Disposition::Edit(s) => VoiceEndNext::Edit(s),
        },
    }
}

/// What becomes of the window that asks what is meant.
#[derive(Clone, Copy, PartialEq, Eq, Structural, Debug)]
pub enum IntentPrompt {
    Hide,
}

/// The user has said what is meant. Now it may not be asked again.
pub fn continue_confirmed_selection_voice_intent(
    host: &mut SelectionVoiceHostState,
    id: u128,
    disposition: Disposition,
) -> (r: (IntentPrompt, VoiceEndNext))
    ensures
        r.0 == IntentPrompt::Hide,
        match disposition {
            Disposition::AwaitingIntent => *final(host) == old(host).cleared(id)
                && reports_failure(r.1, id, refusal_name(VoiceRefusal::IntentPromptUnavailable)),
            Disposition::Question { session_id, instruction } => *final(host) == *old(host) && r.1
                == (VoiceEndNext::AskQuestion { session_id, instruction }),
            Disposition::Edit(s) => *final(host) == *old(host) && r.1 == VoiceEndNext::Edit(s),
        },
{
    let next: VoiceEndNext = match disposition {
        Disposition::AwaitingIntent => voice_end_failed(
            host,
            id,
            VoiceRefusal::IntentPromptUnavailable.name(),
        ),
        Disposition::Question { session_id, instruction } => VoiceEndNext::AskQuestion {
            session_id,
            instruction,
        },
        Disposition::Edit(s) => VoiceEndNext::Edit(s),
    };
    (IntentPrompt::Hide, next)
}

/// What became of a replacement.
#[derive(Clone, Copy, PartialEq, Eq, Structural, Debug)]
pub enum SelectionVoiceApplyOutcome {
    Inserted,
    PasteSent,
    CopiedFallback,
    Failed,
}

/// The replacement that the backend is asked to apply, and the conversation
/// that it belongs to, if it belongs to one.
#[derive(Debug)]
pub struct PreviewApply {
    pub owner: Option<u128>,
    pub text: String,
}

/// The replacement to apply: the trimmed text. A preview of the question
/// panel, `panel`, counts only while the panel is open.
pub fn confirm_selection_voice_preview(text: &str, panel: Option<u128>, panel_visible: bool) -> (r:
    Result<PreviewApply, VoiceRefusal>)
    ensures
        match r {
            Ok(a) => !blank(text@) && (panel is None || panel_visible) && a.text@ == trimmed(text@)
                && a.owner == panel,
            Err(e) => if blank(text@) {
                e == VoiceRefusal::EmptyOutput
            } else {
                panel is Some && !panel_visible && e == VoiceRefusal::PreviewUnavailable
            },
        },
{
    if is_blank(text) {
        return Err(VoiceRefusal::EmptyOutput);
    }
    if panel.is_some() && !panel_visible {
        return Err(VoiceRefusal::PreviewUnavailable);
    }
    Ok(PreviewApply { owner: panel, text: trim(text) })
}

/// The backend's leave to replace a selection.
#[derive(Debug)]
pub struct SelectionVoiceApplyTicket {
    /// The backend's number for it.
    pub ticket_id: u128,
    pub session_id: u128,
    /// The words that have to be selected.
    pub source_text: String,
    pub replacement_text: String,
}

/// Why a replacement was not applied.
#[derive(Debug)]
pub enum ApplyError {
    Refused(VoiceRefusal),
    /// The selection is no longer what it was, in the platform's words.
    Invalid(String),
    /// The backend did not take note of it.
    Unrecorded(String),
}

/// The selection to look at before a replacement: the window to bring back, and
/// the words that have to be selected in it.
#[derive(Debug)]
pub struct TargetCheck {
    pub target: Option<u64>,
    pub source_text: String,
}

/// The selection to look at before a replacement.
pub fn target_to_check(host: &SelectionVoiceHostState, ticket: &SelectionVoiceApplyTicket) -> (r:
    Result<TargetCheck, ApplyError>)
    ensures
        if host.target_session_id == Some(ticket.session_id) {
            r matches Ok(c) && c.target == host.insertion_target && c.source_text@
                == ticket.source_text@
        } else {
            r == Err::<TargetCheck, ApplyError>(ApplyError::Refused(VoiceRefusal::TargetUnavailable))
        },
{
    match target_for_session(host, ticket.session_id) {
        Ok(target) => Ok(TargetCheck { target, source_text: ticket.source_text.clone() }),
        Err(refusal) => Err(ApplyError::Refused(refusal)),
    }
}

/// What is inserted after a look at the selection: the replacement, the way the
/// user wants texts to be pasted.
pub fn check_selection_voice_target(
    host: &SelectionVoiceHostState,
    ticket: &SelectionVoiceApplyTicket,
    reactivated: bool,
    validation_error: Option<String>,
    preferences: PastePreferences,
) -> (r: Result<PasteRequest, ApplyError>)
    ensures
        if host.target_session_id != Some(ticket.session_id) || !reactivated {
            r == Err::<PasteRequest, ApplyError>(
                ApplyError::Refused(VoiceRefusal::TargetUnavailable),
            )
        } else if validation_error is Some {
            r == Err::<PasteRequest, ApplyError>(ApplyError::Invalid(validation_error->0))
        } else {
            r matches Ok(paste) && paste.text@ == ticket.replacement_text@ && paste.preferences
                == preferences
        },
{
    if target_for_session(host, ticket.session_id).is_err() || !reactivated {
        return Err(ApplyError::Refused(VoiceRefusal::TargetUnavailable));
    }
    match validation_error {
        Some(code) => Err(ApplyError::Invalid(code)),
        None => Ok(PasteRequest { text: ticket.replacement_text.clone(), preferences }),
    }
}

/// What an insertion means for a replacement.
pub fn apply_selection_voice_preview_ticket(inserted: Result<InsertStatus, ApplyError>) -> (r: Result<
    SelectionVoiceApplyOutcome,
    ApplyError,
>)
    ensures
        r == (match inserted {
            Err(e) => Err::<SelectionVoiceApplyOutcome, ApplyError>(e),
            Ok(status) => match status {
                InsertStatus::Inserted => Ok(SelectionVoiceApplyOutcome::Inserted),
                InsertStatus::PasteSent => Ok(SelectionVoiceApplyOutcome::PasteSent),
                InsertStatus::CopiedFallback => Ok(SelectionVoiceApplyOutcome::CopiedFallback),
                InsertStatus::Failed => Err(ApplyError::Refused(VoiceRefusal::InsertFailed)),
            },
        }),
{
    match inserted {
        Err(e) => Err(e),
        Ok(status) => match status {
            InsertStatus::Inserted => Ok(SelectionVoiceApplyOutcome::Inserted),
            InsertStatus::PasteSent => Ok(SelectionVoiceApplyOutcome::PasteSent),
            InsertStatus::CopiedFallback => Ok(SelectionVoiceApplyOutcome::CopiedFallback),
            InsertStatus::Failed => Err(ApplyError::Refused(VoiceRefusal::InsertFailed)),
        },
    }
}

/// What the backend is told of a replacement that was tried.
#[derive(Clone, Copy, PartialEq, Eq, Structural, Debug)]
pub struct ApplyReport {
    pub ticket_id: u128,
    pub outcome: SelectionVoiceApplyOutcome,
}

/// What the backend is told of a replacement that was tried.
pub fn replacement_outcome(
    ticket: &SelectionVoiceApplyTicket,
    outcome: &Result<SelectionVoiceApplyOutcome, ApplyError>,
) -> (r: ApplyReport)
    ensures
        r == (ApplyReport {
            ticket_id: ticket.ticket_id,
            outcome: match *outcome {
                Ok(o) => o,
                Err(_) => SelectionVoiceApplyOutcome::Failed,
            },
        }),
{
    ApplyReport {
        ticket_id: ticket.ticket_id,
        outcome: match outcome {
            Ok(o) => *o,
            Err(_) => SelectionVoiceApplyOutcome::Failed,
        },
    }
}

/// A replacement has been tried, and `recorded` says whether the backend took
/// note of it. The session lets go of the selection, and the capsule goes, only
/// where it was applied and noted, so that the user can try again.
pub fn finish_selection_voice_preview(
    host: &mut SelectionVoiceHostState,
    ticket: &SelectionVoiceApplyTicket,
    outcome: Result<SelectionVoiceApplyOutcome, ApplyError>,
    recorded: Result<(), BackendError>,
) -> (r: Result<VoiceCapsule, ApplyError>)
    ensures
        match (outcome, recorded) {
            (Err(e), _) => *final(host) == *old(host) && r == Err::<VoiceCapsule, ApplyError>(e),
            (Ok(_), Err(e)) => *final(host) == *old(host) && (r matches Err(ApplyError::Unrecorded(m))
                && m@ == core_error_name(e)),
            (Ok(_), Ok(())) => *final(host) == old(host).cleared(ticket.session_id) && r == Ok::<
                VoiceCapsule,
                ApplyError,
            >(VoiceCapsule::Hidden),
        },
{
    match outcome {
        Err(e) => Err(e),
        Ok(_) => match recorded {
            Err(e) => Err(ApplyError::Unrecorded(core_error(e))),
            Ok(()) => {
                clear_host_session(host, ticket.session_id);
                Ok(VoiceCapsule::Hidden)
            },
        },
    }
}

/// The words of a replacement that was not applied.
pub open spec fn apply_error_text(e: ApplyError) -> Seq<char> {
    match e {
        ApplyError::Refused(r) => refusal_name(r),
        ApplyError::Invalid(m) => m@,
        ApplyError::Unrecorded(m) => m@,
    }
}

impl ApplyError {
    pub fn text(self) -> (r: String)
        ensures
            r@ == apply_error_text(self),
    {
        match self {
            ApplyError::Refused(r) => r.name().to_owned(),
            ApplyError::Invalid(m) => m,
            ApplyError::Unrecorded(m) => m,
        }
    }
}

/// A session can only ever let go of what is its own: what another session
/// holds is left alone.
pub proof fn law_clear_respects_ownership(host: SelectionVoiceHostState, owner: u128, other: u128)
    requires
        host.target_session_id == Some(owner),
        owner != other,
    ensures
        host.cleared(other) == host,
        host.cleared(owner) == empty_host(),
        host.cleared(owner).cleared(owner) == host.cleared(owner),
{
}

/// With an automatic key, a tap leaves the session running and the next press
/// ends it; a hold ends it on release.
pub proof fn law_auto_key_tap_or_hold(pressed_at: u64, released_at: u64, busy: bool)
    requires
        pressed_at <= released_at,
    ensures
        ({
            let recording = Some(SelectionVoicePhase::Recording);
            let released = voice_release_action(
                true,
                HotkeyMode::Auto,
                recording,
                Some(pressed_at),
                released_at,
            );
            if released_at - pressed_at < AUTO_HOLD_THRESHOLD_MS {
                &&& released == VoiceKeyAction::Nothing
                &&& voice_press_action(true, HotkeyMode::Auto, recording, busy)
                    == VoiceKeyAction::End
            } else {
                released == VoiceKeyAction::End
            }
        }),
{
}

/// The four errors that the user can act on have words of their own, all different,
/// and any other error speaks for itself.
pub proof fn law_actionable_errors_have_words(error: &str, r: String)
    requires
        call_ensures(selection_voice_user_message, (error,), r),
    ensures
        error@ == "dictationActive"@ ==> r@ == "正在听写，请先结束录音"@,
        error@ == "selectionVoiceNoSelection"@ ==> r@ == "请先选中文字"@,
        error@ == "selectionVoiceTargetUnavailable"@ ==> r@ == "无法定位选区，请重试"@,
        error@ == "selectionVoiceBusy"@ ==> r@ == "选区语音会话进行中"@,
        error@ != "dictationActive"@ && error@ != "selectionVoiceNoSelection"@ && error@
            != "selectionVoiceTargetUnavailable"@ && error@ != "selectionVoiceBusy"@ ==> r@
            == error@,
{
    reveal_strlit("dictationActive");
    reveal_strlit("selectionVoiceNoSelection");
    reveal_strlit("selectionVoiceTargetUnavailable");
    reveal_strlit("selectionVoiceBusy");
    assert("dictationActive"@.len() == 15);
    assert("selectionVoiceNoSelection"@.len() == 25);
    assert("selectionVoiceTargetUnavailable"@.len() == 31);
    assert("selectionVoiceBusy"@.len() == 18);
}

/// At the end of a session an error of the edit plan, of the recogniser or of the
/// translation is told in its own words, wherever its name stands in the report; an
/// error without such a name is told as during the session.
pub proof fn law_end_tells_what_went_wrong(error: &str, during: String, r: String)
    requires
        call_ensures(selection_voice_user_message, (error,), during),
        call_ensures(selection_voice_end_message, (error,), r),
    ensures
        contains_text(error@, "invalid EditPlan XML"@) || contains_text(
            error@,
            "invalid EditPlan JSON"@,
        ) ==> r@ == "编辑方案解析失败，请重试"@,
        ({
            let plan = contains_text(error@, "invalid EditPlan XML"@) || contains_text(
                error@,
                "invalid EditPlan JSON"@,
            );
            let none = contains_text(error@, "edit plan has no operations"@);
            let many = contains_text(error@, "edit plan has too many operations"@);
            let large = contains_text(error@, "edit operation exceeds size limit"@);
            let late = contains_text(error@, "global timeout"@);
            let deaf = contains_text(error@, "selectionVoiceAsrUnavailable"@);
            let same = contains_text(error@, "translation unchanged"@);
            &&& !plan && none ==> r@ == "未能生成有效编辑方案，请重试"@
            &&& !plan && !none && many ==> r@ == "编辑方案过于复杂，请缩短指令"@
            &&& !plan && !none && !many && large ==> r@ == "编辑内容过长，请缩短选区或拆步操作"@
            &&& !plan && !none && !many && !large && late ==> r@ == "语音识别超时，请重试"@
            &&& !plan && !none && !many && !large && !late && deaf ==> r@ == "语音识别不可用，请重试"@
            &&& !plan && !none && !many && !large && !late && !deaf && same ==> r@
                == "翻译结果与原文相同，请重试或调整指令"@
            &&& !plan && !none && !many && !large && !late && !deaf && !same ==> r@ == during@
        }),
{
}

/// A failure of the backend reaches the user under the name of what failed: a busy
/// or a cancelled session by that, an unknown intent with the intent, and any other
/// failure in the words it came with.
pub proof fn law_backend_failures_have_names(error: BackendError, r: String)
    requires
        call_ensures(core_error, (error,), r),
    ensures
        error.code == BackendErrorCode::Busy ==> r@ == "selectionVoiceBusy"@,
        error.code == BackendErrorCode::Cancelled ==> r@ == "selectionVoicePreviewUnavailable"@,
        error.code == BackendErrorCode::InvalidArgument && !contains_text(
            error.message@,
            "intent"@,
        ) ==> r@ == error.message@,
        error.code == BackendErrorCode::InvalidArgument && contains_text(error.message@, "intent"@)
            && !error.message@.contains(':') ==> r@ == "selectionVoiceInvalidIntent"@,
        error.code == BackendErrorCode::InvalidArgument && contains_text(error.message@, "intent"@)
            && error.message@.contains(':') ==> crate::text::starts_with(
            r@,
            "selectionVoiceInvalidIntent:"@,
        ),
        error.code == BackendErrorCode::InvalidState && contains_text(
            error.message@,
            "intent prompt"@,
        ) ==> r@ == "selectionVoiceIntentPromptUnavailable"@,
        error.code == BackendErrorCode::InvalidState && !contains_text(
            error.message@,
            "intent prompt"@,
        ) && contains_text(error.message@, "preview"@) ==> r@
            == "selectionVoicePreviewUnavailable"@,
        error.code == BackendErrorCode::Platform || error.code == BackendErrorCode::Provider
            || error.code == BackendErrorCode::Internal || error.code == BackendErrorCode::NotFound
            || error.code == BackendErrorCode::Unsupported || error.code
            == BackendErrorCode::PermissionDenied || error.code == BackendErrorCode::Persistence
            ==> r@ == error.message@,
{
    if error.code == BackendErrorCode::InvalidArgument && contains_text(error.message@, "intent"@)
        && error.message@.contains(':') {
        crate::text::lemma_last_exists(error.message@, ':');
        let head = "selectionVoiceInvalidIntent:"@;
        let i = choose|i: int| crate::text::last_at(error.message@, ':', i);
        let rest = trimmed(error.message@.skip(i + 1));
        assert((head + rest).subrange(0, head.len() as int) =~= head);
    }
}

/// The place of a selection is told to the session that holds it, and to no other;
/// whoever lets go of it without holding it changes nothing.
pub proof fn law_place_is_told_to_its_session(
    host: &mut SelectionVoiceHostState,
    id: u128,
    before: Result<Option<u64>, VoiceRefusal>,
    after: Result<Option<u64>, VoiceRefusal>,
)
    requires
        call_ensures(target_for_session, (&*host, id), before),
        call_ensures(clear_host_session, (host, id), ()),
        call_ensures(target_for_session, (&*final(host), id), after),
    ensures
        before is Ok <==> old(host).target_session_id == Some(id),
        before is Ok ==> before->Ok_0 == old(host).insertion_target,
        before is Err ==> before->Err_0 == VoiceRefusal::TargetUnavailable && *final(host) == *old(host),
        after is Err,
        before is Ok ==> final(host).target_session_id is None && final(host).insertion_target is None
            && final(host).recorder_session_id is None && !final(host).blocks_recording
            && final(host).auto_press_at_ms is None,
{
}

/// A selection is handed over with its place or not at all; the session that gets it
/// does not record, and it alone finds the place there.
pub proof fn law_handed_over_selection_is_found(
    host: &mut SelectionVoiceHostState,
    id: u128,
    other: u128,
    place: Option<u64>,
    r: Result<(), VoiceRefusal>,
    own: Result<Option<u64>, VoiceRefusal>,
    foreign: Result<Option<u64>, VoiceRefusal>,
    records: bool,
    blocks: bool,
)
    requires
        other != id,
        call_ensures(bind_selection_voice_target_state, (host, id, place), r),
        call_ensures(target_for_session, (&*final(host), id), own),
        call_ensures(target_for_session, (&*final(host), other), foreign),
        call_ensures(selection_voice_recording_active, (&*final(host), id), records),
        call_ensures(selection_voice_blocks_other_recording, (&*final(host),), blocks),
    ensures
        r is Ok <==> place is Some,
        r is Ok ==> own == Ok::<Option<u64>, VoiceRefusal>(place) && foreign is Err && !records
            && !blocks && final(host).auto_press_at_ms == old(host).auto_press_at_ms,
        r is Err ==> *final(host) == *old(host) && r->Err_0 == VoiceRefusal::TargetUnavailable,
        blocks == final(host).blocks_recording,
        records == (final(host).recorder_session_id == Some(id)),
{
}

/// A session that begins holds the selection and the microphone, so nothing else is
/// recorded meanwhile; and its recorder's failure gives up both.
pub proof fn law_begun_session_holds_the_microphone(
    begun: &mut SelectionVoiceHostState,
    broken: &mut SelectionVoiceHostState,
    id: u128,
    recorder: u128,
    place: Option<u64>,
    message: &str,
    r: Result<(u128, VoiceCapsule), String>,
    records: bool,
    blocks: bool,
    own: Result<Option<u64>, VoiceRefusal>,
    failure: Option<VoiceFailure>,
    words: String,
)
    requires
        call_ensures(begin_selection_voice_session, (begun, Ok(id), place), r),
        call_ensures(selection_voice_recording_active, (&*final(begun), id), records),
        call_ensures(selection_voice_blocks_other_recording, (&*final(begun),), blocks),
        call_ensures(target_for_session, (&*final(begun), id), own),
        *broken == *final(begun),
        call_ensures(
            handle_selection_voice_recorder_error,
            (broken, recorder, message),
            failure,
        ),
        call_ensures(selection_voice_end_message, (message,), words),
    ensures
        r == Ok::<(u128, VoiceCapsule), String>((id, VoiceCapsule::Recording)),
        records && blocks,
        own == Ok::<Option<u64>, VoiceRefusal>(place),
        failure is Some <==> recorder == id,
        failure matches Some(f) ==> f.cancel_session == Some(id) && f.message@ == words@
            && f.hide_after_ms == 2500 && final(broken).target_session_id is None
            && !final(broken).blocks_recording && final(broken).recorder_session_id is None,
        failure is None ==> *final(broken) == *final(begun),
{
}

/// A session that the backend does not open holds nothing.
pub proof fn law_refused_session_holds_nothing(
    host: &mut SelectionVoiceHostState,
    e: BackendError,
    place: Option<u64>,
    name: String,
    r: Result<(u128, VoiceCapsule), String>,
)
    requires
        call_ensures(core_error, (e,), name),
        call_ensures(begin_selection_voice_session, (host, Err(e), place), r),
    ensures
        *final(host) == *old(host),
        r is Err && r->Err_0@ == name@,
{
}

/// What the voice key does when it goes down. With the function switched off, or
/// where the backend cannot say how things stand, nothing. While a session records,
/// a press ends it unless the key has to be held; from idle a press begins one,
/// unless another is being begun. An automatic key remembers when it went down.
pub proof fn law_voice_key_goes_down(
    host: &mut SelectionVoiceHostState,
    busy: &mut bool,
    enabled: bool,
    mode: HotkeyMode,
    phase: Option<SelectionVoicePhase>,
    now: u64,
    r: VoiceKeyAction,
)
    requires
        call_ensures(handle_selection_voice_pressed, (host, busy, enabled, mode, phase, now), r),
    ensures
        r == VoiceKeyAction::End <==> enabled && phase == Some(SelectionVoicePhase::Recording) && (
        mode == HotkeyMode::Toggle || mode == HotkeyMode::Auto),
        r == VoiceKeyAction::Begin <==> enabled && phase == Some(SelectionVoicePhase::Idle)
            && !*old(busy),
        r == VoiceKeyAction::Begin ==> *final(busy),
        r != VoiceKeyAction::Begin ==> *final(busy) == *old(busy) && *final(host) == *old(host),
        r == VoiceKeyAction::Begin && mode == HotkeyMode::Auto ==> final(host).auto_press_at_ms
            == Some(now),
        r == VoiceKeyAction::Begin && mode != HotkeyMode::Auto ==> *final(host) == *old(host),
        final(host).target_session_id == old(host).target_session_id,
{
}

/// What it does when it goes up. A key that has to be held ends the session that
/// records, an automatic one only if it was down for a third of a second or more,
/// and a toggle key does nothing.
pub proof fn law_voice_key_goes_up(
    host: &mut SelectionVoiceHostState,
    busy: &mut bool,
    enabled: bool,
    mode: HotkeyMode,
    phase: Option<SelectionVoicePhase>,
    now: u64,
    r: VoiceKeyAction,
)
    requires
        call_ensures(handle_selection_voice_released, (host, busy, enabled, mode, phase, now), r),
    ensures
        r != VoiceKeyAction::Begin,
        mode == HotkeyMode::Toggle || !enabled ==> r == VoiceKeyAction::Nothing && *final(busy)
            == *old(busy) && *final(host) == *old(host),
        mode == HotkeyMode::Hold && enabled ==> (r == VoiceKeyAction::End <==> phase == Some(
            SelectionVoicePhase::Recording,
        )),
        mode == HotkeyMode::Auto && enabled ==> (r == VoiceKeyAction::End <==> phase == Some(
            SelectionVoicePhase::Recording,
        ) && (old(host).auto_press_at_ms matches Some(t) && t + 350 <= now)),
        enabled && mode != HotkeyMode::Toggle && phase is Some ==> !*final(busy),
        mode == HotkeyMode::Auto && enabled && phase == Some(SelectionVoicePhase::Recording)
            ==> final(host).auto_press_at_ms is None,
        final(host).target_session_id == old(host).target_session_id,
        final(host).recorder_session_id == old(host).recorder_session_id,
{
}

/// Once a press has been dealt with, the key is free for the next one. Only of a
/// session that could not begin there is something to tell.
pub proof fn law_dealt_with_press_frees_the_key(
    host: &mut SelectionVoiceHostState,
    busy: &mut bool,
    action: VoiceKeyAction,
    error: Option<String>,
    text: &str,
    words: String,
    r: Option<String>,
)
    requires
        call_ensures(voice_press_done, (host, busy, action, error), r),
        error matches Some(e) ==> text@ == e@,
        call_ensures(selection_voice_user_message, (text,), words),
    ensures
        action == VoiceKeyAction::Begin || action == VoiceKeyAction::End ==> !*final(busy),
        action == VoiceKeyAction::Nothing ==> *final(busy) == *old(busy) && *final(host) == *old(host),
        r is Some <==> action == VoiceKeyAction::Begin && error is Some,
        r matches Some(m) ==> m@ == words@,
        action == VoiceKeyAction::End || r is Some ==> final(host).auto_press_at_ms is None,
        action == VoiceKeyAction::Begin && error is None ==> *final(host) == *old(host),
{
}

/// A session begins with the selection that was found, and the first thing that
/// stands in the way is told: dictation, another session, no selection, no place.
pub proof fn law_first_refusal_is_told(
    dictation: SessionPhase,
    host: &SelectionVoiceHostState,
    selection: Option<SelectionCapture>,
    captured: bool,
    r: Result<SelectionCapture, VoiceRefusal>,
)
    requires
        call_ensures(gate_selection_voice, (dictation, host, selection, captured), r),
    ensures
        r is Ok <==> dictation == SessionPhase::Idle && !host.blocks_recording && selection is Some
            && captured,
        r is Ok ==> r->Ok_0 == selection->0,
        r == Err::<SelectionCapture, VoiceRefusal>(VoiceRefusal::DictationActive) <==> dictation
            != SessionPhase::Idle,
        r == Err::<SelectionCapture, VoiceRefusal>(VoiceRefusal::Busy) <==> dictation
            == SessionPhase::Idle && host.blocks_recording,
        r == Err::<SelectionCapture, VoiceRefusal>(VoiceRefusal::NoSelection) <==> dictation
            == SessionPhase::Idle && !host.blocks_recording && selection is None,
{
}

/// Only a session that records is ended, and it is the backend's own.
pub proof fn law_stop_ends_a_recording_session(
    phase: SelectionVoicePhase,
    id: Option<u128>,
    marked: Result<(), BackendError>,
    r: VoiceEndNext,
    capsule: Result<VoiceCapsule, String>,
)
    requires
        call_ensures(end_selection_voice_session, (phase, id), r),
        call_ensures(voice_processing_marked, (marked,), capsule),
    ensures
        r is Nothing <==> phase != SelectionVoicePhase::Recording,
        r is MarkProcessing <==> phase == SelectionVoicePhase::Recording && id is Some,
        r is MarkProcessing ==> Some(r->MarkProcessing_0) == id,
        r is Refused ==> r->Refused_0 == VoiceRefusal::SessionUnavailable,
        capsule is Ok <==> marked is Ok,
        capsule is Ok ==> capsule->Ok_0 is Hidden,
{
}

/// Words that were said are handed to the backend as they are, under their session,
/// and the microphone is free again while the selection is still held. Where
/// nothing was said, or the words could not be had, the session lets go of it all.
pub proof fn law_words_are_handed_to_the_backend(
    host: &mut SelectionVoiceHostState,
    id: u128,
    transcript: Result<String, String>,
    r: VoiceEndNext,
)
    requires
        host.target_session_id == Some(id),
        call_ensures(voice_transcript_ready, (host, id, transcript), r),
    ensures
        r is ProcessTranscript <==> transcript is Ok && !blank(transcript->Ok_0@),
        r is ProcessTranscript ==> r->ProcessTranscript_session_id == id && r->text
            == transcript->Ok_0 && final(host).target_session_id == Some(id)
            && final(host).insertion_target == old(host).insertion_target,
        r is CancelEmpty <==> transcript is Ok && blank(transcript->Ok_0@),
        r is CancelEmpty ==> r->CancelEmpty_0 == id,
        r is Failed <==> transcript is Err,
        r is Failed ==> r->Failed_0.cancel_session == Some(id),
        !(r is ProcessTranscript) ==> final(host).target_session_id is None,
        !final(host).blocks_recording,
        final(host).recorder_session_id is None,
{
}

/// What the backend made of the words is done: it is asked what is meant, a question
/// is asked, or the selection is edited, in the words and under the session that the
/// backend gave. Once the user has said what is meant, it is not asked again.
pub proof fn law_backend_decides_what_follows(
    asked: &mut SelectionVoiceHostState,
    told: &mut SelectionVoiceHostState,
    id: u128,
    disposition: Disposition,
    r: VoiceEndNext,
    q: (IntentPrompt, VoiceEndNext),
)
    requires
        call_ensures(voice_disposition, (asked, id, Ok(disposition)), r),
        call_ensures(continue_confirmed_selection_voice_intent, (told, id, disposition), q),
    ensures
        *final(asked) == *old(asked),
        r is ShowIntentPrompt <==> disposition is AwaitingIntent,
        r is AskQuestion <==> disposition is Question,
        r is AskQuestion ==> r->AskQuestion_session_id == disposition->session_id && r->instruction
            == disposition->instruction,
        r is Edit <==> disposition is Edit,
        r is Edit ==> r->Edit_0 == disposition->Edit_0,
        q.0 == IntentPrompt::Hide,
        disposition is AwaitingIntent ==> q.1 is Failed && q.1->Failed_0.cancel_session == Some(id),
        !(disposition is AwaitingIntent) ==> q.1 == r && *final(told) == *old(told),
{
}

/// A session that fails at its end is cancelled with the backend, lets go of what it
/// holds, and the user reads why.
pub proof fn law_failed_end_lets_go(
    failed: &mut SelectionVoiceHostState,
    refused: &mut SelectionVoiceHostState,
    id: u128,
    error: &str,
    e: BackendError,
    words: String,
    r: VoiceEndNext,
    q: VoiceEndNext,
)
    requires
        failed.target_session_id == Some(id),
        refused.target_session_id == Some(id),
        call_ensures(voice_end_failed, (failed, id, error), r),
        call_ensures(voice_disposition, (refused, id, Err(e)), q),
        call_ensures(selection_voice_end_message, (error,), words),
    ensures
        r is Failed && r->Failed_0.cancel_session == Some(id) && r->Failed_0.message@ == words@
            && r->Failed_0.hide_after_ms == 2500,
        q is Failed && q->Failed_0.cancel_session == Some(id),
        final(failed).target_session_id is None && !final(failed).blocks_recording,
        final(refused).target_session_id is None && !final(refused).blocks_recording,
{
}

/// What is applied is the text without the whitespace around it, for the
/// conversation it belongs to. A blank text is refused, and so is a preview of a
/// panel that is closed.
pub proof fn law_preview_is_applied_trimmed(
    text: &str,
    cut: String,
    panel: Option<u128>,
    visible: bool,
    r: Result<PreviewApply, VoiceRefusal>,
)
    requires
        call_ensures(trim, (text,), cut),
        call_ensures(confirm_selection_voice_preview, (text, panel, visible), r),
    ensures
        r is Ok <==> cut@.len() > 0 && (panel is Some ==> visible),
        r is Ok ==> r->Ok_0.text@ == cut@ && r->Ok_0.owner == panel,
        r == Err::<PreviewApply, VoiceRefusal>(VoiceRefusal::EmptyOutput) <==> cut@.len() == 0,
{
    crate::text::lemma_blank_iff_trimmed_empty(text@);
}

/// A replacement goes where its session holds the selection, the window could be
/// brought back and the selection is as it was; what is pasted is the replacement.
/// Nothing else is ever pasted.
pub proof fn law_replacement_needs_its_session(
    host: &SelectionVoiceHostState,
    ticket: &SelectionVoiceApplyTicket,
    reactivated: bool,
    error: Option<String>,
    preferences: PastePreferences,
    look: Result<TargetCheck, ApplyError>,
    r: Result<PasteRequest, ApplyError>,
)
    requires
        call_ensures(target_to_check, (host, ticket), look),
        call_ensures(
            check_selection_voice_target,
            (host, ticket, reactivated, error, preferences),
            r,
        ),
    ensures
        look is Ok <==> host.target_session_id == Some(ticket.session_id),
        look is Ok ==> look->Ok_0.target == host.insertion_target && look->Ok_0.source_text@
            == ticket.source_text@,
        r is Ok <==> look is Ok && reactivated && error is None,
        r is Ok ==> r->Ok_0.text@ == ticket.replacement_text@ && r->Ok_0.preferences == preferences,
        look is Ok && reactivated && error is Some ==> r->Err_0 == ApplyError::Invalid(error->0),
        !(look is Ok && reactivated) ==> r->Err_0 == ApplyError::Refused(
            VoiceRefusal::TargetUnavailable,
        ),
{
}

/// What became of a replacement is told to the backend under its ticket, and a
/// failed insertion as failed. The session lets go of the selection only once the
/// replacement was applied and noted, so that it can be tried again otherwise.
pub proof fn law_failed_replacement_can_be_tried_again(
    host: &mut SelectionVoiceHostState,
    ticket: &SelectionVoiceApplyTicket,
    inserted: Result<InsertStatus, ApplyError>,
    outcome: Result<SelectionVoiceApplyOutcome, ApplyError>,
    report: ApplyReport,
    recorded: Result<(), BackendError>,
    r: Result<VoiceCapsule, ApplyError>,
)
    requires
        host.target_session_id == Some(ticket.session_id),
        call_ensures(apply_selection_voice_preview_ticket, (inserted,), outcome),
        call_ensures(replacement_outcome, (ticket, &outcome), report),
        call_ensures(finish_selection_voice_preview, (host, ticket, outcome, recorded), r),
    ensures
        outcome is Ok <==> inserted is Ok && inserted->Ok_0 != InsertStatus::Failed,
        outcome == Ok::<SelectionVoiceApplyOutcome, ApplyError>(SelectionVoiceApplyOutcome::Inserted)
            <==> inserted == Ok::<InsertStatus, ApplyError>(InsertStatus::Inserted),
        outcome == Ok::<SelectionVoiceApplyOutcome, ApplyError>(
            SelectionVoiceApplyOutcome::PasteSent,
        ) <==> inserted == Ok::<InsertStatus, ApplyError>(InsertStatus::PasteSent),
        outcome != Ok::<SelectionVoiceApplyOutcome, ApplyError>(SelectionVoiceApplyOutcome::Failed),
        inserted is Err ==> outcome->Err_0 == inserted->Err_0,
        report.ticket_id == ticket.ticket_id,
        report.outcome == SelectionVoiceApplyOutcome::Failed <==> outcome is Err,
        outcome is Ok ==> report.outcome == outcome->Ok_0,
        r is Ok <==> outcome is Ok && recorded is Ok,
        r is Ok ==> r->Ok_0 is Hidden && final(host).target_session_id is None,
        r is Err ==> *final(host) == *old(host),
        outcome is Err ==> r->Err_0 == outcome->Err_0,
        outcome is Ok && recorded is Err ==> r->Err_0 is Unrecorded,
{
}

/// At first the host belongs to no session, and recording is free.
pub proof fn law_host_is_free_at_first(r: SelectionVoiceHostState)
    requires
        call_ensures(SelectionVoiceHostState::new, (), r),
    ensures
        r.target_session_id is None && r.insertion_target is None && r.recorder_session_id is None,
        !r.blocks_recording,
        r.auto_press_at_ms is None,
{
}

} // verus!
