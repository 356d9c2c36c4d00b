//! What a spoken instruction leads to: a question to the assistant, or a
//! change of the selection.

use crate::selection_voice::{
    clear_host_session, core_error, core_error_name, end_message, selection_voice_end_message,
    IntentPrompt, SelectionVoiceHostState, VoiceFailure,
};
use crate::types::BackendError;
use vstd::prelude::*;

verus! {

/// What the capsule shows of a spoken instruction.
#[derive(Debug)]
pub enum VoiceCapsule {
    Recording,
    /// Out of sight at once.
    Hidden,
    /// The model works on the change.
    Working,
    /// Nothing was said. It goes by itself.
    NothingSaid { hide_after_ms: u64 },
}

/// The words on the capsule.
pub fn capsule_words(capsule: &VoiceCapsule) -> (r: Option<&'static str>)
    ensures
        match *capsule {
            VoiceCapsule::Working => r matches Some(w) && w@ == "正在生成编辑…"@,
            VoiceCapsule::NothingSaid { .. } => r matches Some(w) && w@ == "未识别到指令"@,
            _ => r is None,
        },
{
    match capsule {
        VoiceCapsule::Working => Some("正在生成编辑…"),
        VoiceCapsule::NothingSaid { .. } => Some("未识别到指令"),
        _ => None,
    }
}

/// A session that could not begin: it is cancelled with the backend, and the
/// words go to the user.
#[derive(Debug)]
pub struct VoiceBeginFailure {
    pub cancel_session: u128,
    pub error: String,
}

/// The recorder of session `id` was to start. Without it the session lets go
/// of everything.
pub fn voice_recorder_started(
    host: &mut SelectionVoiceHostState,
    id: u128,
    started: Result<(), String>,
) -> (r: Result<(), VoiceBeginFailure>)
    ensures
        match started {
            Ok(()) => r is Ok && *final(host) == *old(host),
            Err(e) => *final(host) == old(host).cleared(id) && r == Err::<(), VoiceBeginFailure>(
                VoiceBeginFailure { cancel_session: id, error: e },
            ),
        },
{
    match started {
        Ok(()) => Ok(()),
        Err(error) => {
            clear_host_session(host, id);
            Err(VoiceBeginFailure { cancel_session: id, error })
        },
    }
}

/// `f` ends session `id` with the failure `error`.
pub open spec fn fails_with(f: VoiceFailure, id: u128, error: Seq<char>) -> bool {
    &&& f.cancel_session == Some(id)
    &&& f.message@ == end_message(error)
    &&& f.hide_after_ms == 2500
}

fn backend_failure(host: &mut SelectionVoiceHostState, id: u128, error: BackendError) -> (r:
    VoiceFailure)
    ensures
        *final(host) == old(host).cleared(id),
        fails_with(r, id, core_error_name(error)),
{
    clear_host_session(host, id);
    let name: String = core_error(error);
    VoiceFailure {
        cancel_session: Some(id),
        message: selection_voice_end_message(name.as_str()),
        hide_after_ms: 2500,
    }
}

/// Nothing was said, and the backend was asked to cancel.
pub fn voice_empty_cancelled(
    host: &mut SelectionVoiceHostState,
    id: u128,
    cancelled: Result<(), BackendError>,
) -> (r: Result<VoiceCapsule, VoiceFailure>)
    ensures
        *final(host) == old(host).cleared(id),
        match cancelled {
            Ok(()) => r == Ok::<VoiceCapsule, VoiceFailure>(
                VoiceCapsule::NothingSaid { hide_after_ms: 2000 },
            ),
            Err(e) => r matches Err(f) && fails_with(f, id, core_error_name(e)),
        },
{
    match cancelled {
        Ok(()) => {
            clear_host_session(host, id);
            Ok(VoiceCapsule::NothingSaid { hide_after_ms: 2000 })
        },
        Err(e) => Err(backend_failure(host, id, e)),
    }
}

/// One thing that the backend is asked for. The steps go in order, and the
/// first that fails ends the session.
#[derive(Debug)]
pub enum PanelStep {
    Show,
    /// Whether what is typed changes the selection.
    SetEditMode(bool),
    Submit(String),
    /// The spoken session is over.
    Complete(u128),
}

/// The instruction is a question: the assistant gets it, and the spoken
/// session is over.
pub fn run_selection_voice_question(id: u128, instruction: String) -> (r: Vec<PanelStep>)
    ensures
        r@ == seq![
            PanelStep::Show,
            PanelStep::SetEditMode(false),
            PanelStep::Submit(instruction),
            PanelStep::Complete(id),
        ],
{
    vec![
        PanelStep::Show,
        PanelStep::SetEditMode(false),
        PanelStep::Submit(instruction),
        PanelStep::Complete(id),
    ]
}

/// The steps of a question have been taken, or one has failed.
pub fn question_asked(
    host: &mut SelectionVoiceHostState,
    id: u128,
    outcome: Result<(), BackendError>,
) -> (r: Result<(), VoiceFailure>)
    ensures
        *final(host) == old(host).cleared(id),
        match outcome {
            Ok(()) => r is Ok,
            Err(e) => r matches Err(f) && fails_with(f, id, core_error_name(e)),
        },
{
    match outcome {
        Ok(()) => {
            clear_host_session(host, id);
            Ok(())
        },
        Err(e) => Err(backend_failure(host, id, e)),
    }
}

/// What the backend makes of an instruction to change the selection.
#[derive(Debug)]
pub enum EditAction {
    /// The user wants to talk it over.
    OpenConversation { instruction: String },
    ReadyToApply { text: String },
}

/// What a change of the selection leads to.
#[derive(Debug)]
pub enum EditNext {
    Panel(Vec<PanelStep>),
    /// Apply this text, as the user's own confirmation would.
    Confirm(String),
}

/// What the backend is asked for to change the selection as session `id` says,
/// while the capsule shows that the model works.
#[derive(Debug)]
pub struct EditStart {
    pub session_id: u128,
    /// Words that stand in for what was said.
    pub instruction: Option<String>,
    pub capsule: VoiceCapsule,
}

/// Begins a change of the selection, in the words that were said.
pub fn start_selection_voice_edit(id: u128) -> (r: EditStart)
    ensures
        r == (EditStart {
            session_id: id,
            instruction: None,
            capsule: VoiceCapsule::Working,
        }),
{
    EditStart { session_id: id, instruction: None, capsule: VoiceCapsule::Working }
}

/// The backend has prepared a change of the selection. While it is talked
/// over, the session keeps the selection.
pub fn run_selection_voice_edit(
    host: &mut SelectionVoiceHostState,
    id: u128,
    action: Result<EditAction, BackendError>,
) -> (r: Result<EditNext, VoiceFailure>)
    ensures
        match action {
            Err(e) => *final(host) == old(host).cleared(id) && (r matches Err(f) && fails_with(
                f,
                id,
                core_error_name(e),
            )),
            Ok(EditAction::OpenConversation { instruction }) => {
                &&& *final(host) == *old(host)
                &&& r matches Ok(EditNext::Panel(steps))
                &&& steps@ == seq![
                    PanelStep::Show,
                    PanelStep::SetEditMode(true),
                    PanelStep::Submit(instruction),
                ]
            },
            Ok(EditAction::ReadyToApply { text }) => *final(host) == *old(host) && r == Ok::<
                EditNext,
                VoiceFailure,
            >(EditNext::Confirm(text)),
        },
{
    match action {
        Err(e) => Err(backend_failure(host, id, e)),
        Ok(EditAction::OpenConversation { instruction }) => Ok(
            EditNext::Panel(
                vec![
                    PanelStep::Show,
                    PanelStep::SetEditMode(true),
                    PanelStep::Submit(instruction),
                ],
            ),
        ),
        Ok(EditAction::ReadyToApply { text }) => Ok(EditNext::Confirm(text)),
    }
}

/// The change has been put to the panel, or applied, or it has failed in these
/// words.
pub fn edit_done(host: &mut SelectionVoiceHostState, id: u128, outcome: Result<(), String>) -> (r: Result<
    VoiceCapsule,
    VoiceFailure,
>)
    ensures
        match outcome {
            Ok(()) => *final(host) == *old(host) && r == Ok::<VoiceCapsule, VoiceFailure>(
                VoiceCapsule::Hidden,
            ),
            Err(e) => *final(host) == old(host).cleared(id) && (r matches Err(f) && fails_with(
                f,
                id,
                e@,
            )),
        },
{
    match outcome {
        Ok(()) => Ok(VoiceCapsule::Hidden),
        Err(e) => {
            clear_host_session(host, id);
            Err(
                VoiceFailure {
                    cancel_session: Some(id),
                    message: selection_voice_end_message(e.as_str()),
                    hide_after_ms: 2500,
                },
            )
        },
    }
}

/// The session was cancelled with the backend: the host lets go of what was
/// its own, and no longer asks what is meant.
pub fn finish_cancelled_selection_voice_host(
    host: &mut SelectionVoiceHostState,
    session_id: Option<u128>,
) -> (r: IntentPrompt)
    ensures
        r == IntentPrompt::Hide,
        *final(host) == (match session_id {
            Some(id) => old(host).cleared(id),
            None => *old(host),
        }),
{
    if let Some(id) = session_id {
        clear_host_session(host, id);
    }
    IntentPrompt::Hide
}

/// However a session fails, the microphone is free afterwards and the
/// selection is nobody's.
pub proof fn law_failed_session_frees_the_microphone(host: SelectionVoiceHostState, id: u128)
    requires
        host.target_session_id == Some(id),
    ensures
        !host.cleared(id).blocks_recording,
        host.cleared(id).recorder_session_id is None,
        host.cleared(id).target_session_id is None,
{
}

/// The capsule has words while the model works and where nothing was said, and
/// these differ; otherwise it has none.
pub proof fn law_capsule_has_words(capsule: &VoiceCapsule, r: Option<&'static str>)
    requires
        call_ensures(capsule_words, (capsule,), r),
    ensures
        r is Some <==> *capsule is Working || *capsule is NothingSaid,
        *capsule is Working ==> r->0@ == "正在生成编辑…"@,
        *capsule is NothingSaid ==> r->0@ == "未识别到指令"@,
{
}

/// A session whose recorder runs keeps what it holds; without a recorder it lets go
/// of everything, is cancelled with the backend, and the reason is told.
pub proof fn law_session_needs_its_recorder(
    host: &mut SelectionVoiceHostState,
    id: u128,
    started: Result<(), String>,
    r: Result<(), VoiceBeginFailure>,
)
    requires
        host.target_session_id == Some(id),
        call_ensures(voice_recorder_started, (host, id, started), r),
    ensures
        r is Ok <==> started is Ok,
        r is Ok ==> *final(host) == *old(host),
        r is Err ==> r->Err_0.cancel_session == id && r->Err_0.error == started->Err_0
            && final(host).target_session_id is None && !final(host).blocks_recording,
{
}

/// Where nothing was said, the session is over either way and the user is told: that
/// nothing was heard, or why the backend could not cancel.
pub proof fn law_silence_is_told(
    host: &mut SelectionVoiceHostState,
    id: u128,
    cancelled: Result<(), BackendError>,
    r: Result<VoiceCapsule, VoiceFailure>,
)
    requires
        host.target_session_id == Some(id),
        call_ensures(voice_empty_cancelled, (host, id, cancelled), r),
    ensures
        final(host).target_session_id is None,
        !final(host).blocks_recording,
        r is Ok <==> cancelled is Ok,
        r is Ok ==> r->Ok_0 is NothingSaid && r->Ok_0->hide_after_ms == 2000,
        r is Err ==> r->Err_0.cancel_session == Some(id) && r->Err_0.hide_after_ms == 2500,
{
}

/// A question goes to the assistant in the words that were spoken, with the panel
/// open and not as an edit, and then the spoken session is over.
pub proof fn law_question_goes_to_the_assistant(
    id: u128,
    instruction: String,
    host: &mut SelectionVoiceHostState,
    outcome: Result<(), BackendError>,
    steps: Vec<PanelStep>,
    r: Result<(), VoiceFailure>,
)
    requires
        call_ensures(run_selection_voice_question, (id, instruction), steps),
        host.target_session_id == Some(id),
        call_ensures(question_asked, (host, id, outcome), r),
    ensures
        steps@.len() > 0,
        steps@[0] == PanelStep::Show,
        steps@.contains(PanelStep::SetEditMode(false)),
        !steps@.contains(PanelStep::SetEditMode(true)),
        steps@.contains(PanelStep::Submit(instruction)),
        steps@.last() == PanelStep::Complete(id),
        r is Ok <==> outcome is Ok,
        r is Err ==> r->Err_0.cancel_session == Some(id),
        final(host).target_session_id is None,
{
    assert(steps@[1] == PanelStep::SetEditMode(false));
    assert(steps@[2] == PanelStep::Submit(instruction));
}

/// A change of the selection is begun in the words that were said, while the capsule
/// shows that the model works. What is ready is applied as it is; what the user wants
/// to talk over goes to the panel as an edit, and the selection is kept for it.
pub proof fn law_edit_is_applied_or_talked_over(
    id: u128,
    host: &mut SelectionVoiceHostState,
    action: Result<EditAction, BackendError>,
    start: EditStart,
    r: Result<EditNext, VoiceFailure>,
)
    requires
        call_ensures(start_selection_voice_edit, (id,), start),
        host.target_session_id == Some(id),
        call_ensures(run_selection_voice_edit, (host, id, action), r),
    ensures
        start.session_id == id && start.instruction is None && start.capsule is Working,
        r is Ok <==> action is Ok,
        r is Ok ==> *final(host) == *old(host),
        r is Err ==> final(host).target_session_id is None && r->Err_0.cancel_session == Some(id),
        r is Ok && r->Ok_0 is Confirm <==> action is Ok && action->Ok_0 is ReadyToApply,
        r is Ok && r->Ok_0 is Confirm ==> r->Ok_0->Confirm_0 == action->Ok_0->text,
        r is Ok && r->Ok_0 is Panel ==> {
            let steps = r->Ok_0->Panel_0@;
            &&& steps[0] == PanelStep::Show
            &&& steps.contains(PanelStep::SetEditMode(true))
            &&& steps.contains(PanelStep::Submit(action->Ok_0->instruction))
            &&& !steps.contains(PanelStep::Complete(id))
        },
{
    if r is Ok && r->Ok_0 is Panel {
        let steps = r->Ok_0->Panel_0@;
        assert(steps[1] == PanelStep::SetEditMode(true));
        assert(steps[2] == PanelStep::Submit(action->Ok_0->instruction));
    }
}

/// A change that was dealt with leaves the session as it is and hides the capsule; a
/// failed one ends the session. A cancelled session lets go of its own, and nobody
/// is asked any more.
pub proof fn law_done_edit_keeps_the_selection(
    done: &mut SelectionVoiceHostState,
    cancelled: &mut SelectionVoiceHostState,
    id: u128,
    of: Option<u128>,
    outcome: Result<(), String>,
    r: Result<VoiceCapsule, VoiceFailure>,
    prompt: IntentPrompt,
)
    requires
        done.target_session_id == Some(id),
        cancelled.target_session_id == Some(id),
        call_ensures(edit_done, (done, id, outcome), r),
        call_ensures(finish_cancelled_selection_voice_host, (cancelled, of), prompt),
    ensures
        r is Ok <==> outcome is Ok,
        r is Ok ==> r->Ok_0 is Hidden && *final(done) == *old(done),
        r is Err ==> final(done).target_session_id is None && r->Err_0.cancel_session == Some(id)
            && r->Err_0.hide_after_ms == 2500,
        prompt == IntentPrompt::Hide,
        final(cancelled).target_session_id is None <==> of == Some(id),
        of != Some(id) ==> *final(cancelled) == *old(cancelled),
{
}

} // verus!
