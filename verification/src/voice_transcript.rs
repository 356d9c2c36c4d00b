//! Recording and recognising a spoken instruction for selected text.

use crate::selection_voice::{
    empty_host, end_message, handle_selection_voice_recorder_error, SelectionVoiceHostState,
    VoiceFailure,
};
use crate::text::join2;
use vstd::prelude::*;

verus! {

/// The recognisers that can hear an instruction.
#[derive(Clone, Copy, PartialEq, Eq, Structural, Debug)]
pub enum VoiceAsrKind {
    Volcengine,
    Bailian,
    Qwen3Realtime,
    StepfunRealtime,
    Xfyun,
    Whisper,
    Mimo,
    DashScopeMultimodal,
    ElevenLabs,
    FoundryLocalWhisper,
    SherpaOnnxLocal,
}

/// The audio is sent while it is recorded.
pub open spec fn is_realtime(kind: VoiceAsrKind) -> bool {
    kind == VoiceAsrKind::Volcengine || kind == VoiceAsrKind::Bailian || kind
        == VoiceAsrKind::Qwen3Realtime || kind == VoiceAsrKind::StepfunRealtime || kind
        == VoiceAsrKind::Xfyun
}

/// A cancel interrupts the wait for the transcript.
pub open spec fn watches_cancel(kind: VoiceAsrKind) -> bool {
    kind == VoiceAsrKind::DashScopeMultimodal || kind == VoiceAsrKind::ElevenLabs || kind
        == VoiceAsrKind::FoundryLocalWhisper
}

/// Who keeps the time.
#[derive(Clone, Copy, PartialEq, Eq, Structural, Debug)]
pub enum VoiceLimit {
    /// The limit that holds for all services.
    Global,
    /// A limit that grows with the audio.
    ByAudio,
    /// The recogniser itself, with a limit that grows with the audio.
    Own,
}

/// How to wait for a transcript.
#[derive(Clone, Copy, PartialEq, Eq, Structural, Debug)]
pub struct VoiceWait {
    pub send_last_frame: bool,
    pub limit: VoiceLimit,
    pub watch_cancel: bool,
}

/// How to wait for a transcript.
pub open spec fn wait_of(kind: VoiceAsrKind) -> VoiceWait {
    VoiceWait {
        send_last_frame: is_realtime(kind),
        limit: match kind {
            VoiceAsrKind::DashScopeMultimodal | VoiceAsrKind::ElevenLabs => VoiceLimit::ByAudio,
            VoiceAsrKind::FoundryLocalWhisper | VoiceAsrKind::SherpaOnnxLocal => VoiceLimit::Own,
            _ => VoiceLimit::Global,
        },
        watch_cancel: watches_cancel(kind),
    }
}

pub fn voice_wait(kind: VoiceAsrKind) -> (r: VoiceWait)
    ensures
        r == wait_of(kind),
{
    match kind {
        VoiceAsrKind::Volcengine
        | VoiceAsrKind::Bailian
        | VoiceAsrKind::Qwen3Realtime
        | VoiceAsrKind::StepfunRealtime
        | VoiceAsrKind::Xfyun => VoiceWait {
            send_last_frame: true,
            limit: VoiceLimit::Global,
            watch_cancel: false,
        },
        VoiceAsrKind::Whisper | VoiceAsrKind::Mimo => VoiceWait {
            send_last_frame: false,
            limit: VoiceLimit::Global,
            watch_cancel: false,
        },
        VoiceAsrKind::DashScopeMultimodal | VoiceAsrKind::ElevenLabs => VoiceWait {
            send_last_frame: false,
            limit: VoiceLimit::ByAudio,
            watch_cancel: true,
        },
        VoiceAsrKind::FoundryLocalWhisper => VoiceWait {
            send_last_frame: false,
            limit: VoiceLimit::Own,
            watch_cancel: true,
        },
        VoiceAsrKind::SherpaOnnxLocal => VoiceWait {
            send_last_frame: false,
            limit: VoiceLimit::Own,
            watch_cancel: false,
        },
    }
}

/// How a wait ended.
#[derive(Debug)]
pub enum VoiceWaitEnd {
    Text(String),
    Failed(String),
    TimedOut,
    /// The session was given up during the wait.
    Interrupted,
}

/// A wait of this kind can end like that.
pub open spec fn can_end(kind: VoiceAsrKind, end: VoiceWaitEnd) -> bool {
    &&& end is TimedOut ==> wait_of(kind).limit != VoiceLimit::Own
    &&& end is Interrupted ==> watches_cancel(kind)
}

/// Why there is no instruction, or no recording.
#[derive(Debug)]
pub enum VoiceError {
    Message(String),
    TimedOut(VoiceAsrKind),
    Cancelled,
    AsrUnavailable,
    OmniUnsupported,
    MissingCredentials(String),
    AsrInit(String),
    AsrConnect(String),
}

/// The name of a recogniser's time-out.
pub open spec fn voice_timeout_label(kind: VoiceAsrKind) -> Seq<char> {
    match kind {
        VoiceAsrKind::Volcengine => "global timeout"@,
        VoiceAsrKind::Bailian => "bailian global timeout"@,
        VoiceAsrKind::Qwen3Realtime => "qwen3 realtime global timeout"@,
        VoiceAsrKind::StepfunRealtime => "stepfun realtime global timeout"@,
        VoiceAsrKind::Xfyun => "xfyun global timeout"@,
        VoiceAsrKind::Whisper => "whisper global timeout"@,
        VoiceAsrKind::Mimo => "mimo global timeout"@,
        VoiceAsrKind::DashScopeMultimodal => "dashscope multimodal global timeout"@,
        VoiceAsrKind::ElevenLabs => "elevenlabs dynamic timeout"@,
        VoiceAsrKind::FoundryLocalWhisper | VoiceAsrKind::SherpaOnnxLocal => "global timeout"@,
    }
}

fn timeout_label_text(kind: VoiceAsrKind) -> (r: &'static str)
    ensures
        r@ == voice_timeout_label(kind),
{
    match kind {
        VoiceAsrKind::Volcengine => "global timeout",
        VoiceAsrKind::Bailian => "bailian global timeout",
        VoiceAsrKind::Qwen3Realtime => "qwen3 realtime global timeout",
        VoiceAsrKind::StepfunRealtime => "stepfun realtime global timeout",
        VoiceAsrKind::Xfyun => "xfyun global timeout",
        VoiceAsrKind::Whisper => "whisper global timeout",
        VoiceAsrKind::Mimo => "mimo global timeout",
        VoiceAsrKind::DashScopeMultimodal => "dashscope multimodal global timeout",
        VoiceAsrKind::ElevenLabs => "elevenlabs dynamic timeout",
        VoiceAsrKind::FoundryLocalWhisper | VoiceAsrKind::SherpaOnnxLocal => "global timeout",
    }
}

/// The words of a voice error.
pub open spec fn voice_error_text(e: VoiceError) -> Seq<char> {
    match e {
        VoiceError::Message(s) => s@,
        VoiceError::TimedOut(kind) => voice_timeout_label(kind),
        VoiceError::Cancelled => "selectionVoiceCancelled"@,
        VoiceError::AsrUnavailable => "selectionVoiceAsrUnavailable"@,
        VoiceError::OmniUnsupported => "selectionVoiceOmniUnsupported"@,
        VoiceError::MissingCredentials(s) => "缺少 ASR 凭据："@ + s@,
        VoiceError::AsrInit(s) => "ASR 初始化失败: "@ + s@,
        VoiceError::AsrConnect(s) => "ASR 连接失败: "@ + s@,
    }
}

impl VoiceError {
    pub fn text(&self) -> (r: String)
        ensures
            r@ == voice_error_text(*self),
    {
        match self {
            VoiceError::Message(s) => s.clone(),
            VoiceError::TimedOut(kind) => timeout_label_text(*kind).to_owned(),
            VoiceError::Cancelled => "selectionVoiceCancelled".to_owned(),
            VoiceError::AsrUnavailable => "selectionVoiceAsrUnavailable".to_owned(),
            VoiceError::OmniUnsupported => "selectionVoiceOmniUnsupported".to_owned(),
            VoiceError::MissingCredentials(s) => join2("缺少 ASR 凭据：", s.as_str()),
            VoiceError::AsrInit(s) => join2("ASR 初始化失败: ", s.as_str()),
            VoiceError::AsrConnect(s) => join2("ASR 连接失败: ", s.as_str()),
        }
    }
}

/// One thing the host has to do for a spoken instruction.
#[derive(Clone, Copy, PartialEq, Eq, Structural, Debug)]
pub enum VoiceEffect {
    /// Keep the recogniser under the session.
    StoreAsr,
    CancelAsr,
    /// Let the local model go after a while; with `recovery`, the host's number
    /// for a model that fell back, after that model has been put in place again.
    ScheduleRelease { recovery: Option<u64> },
    StopMicrophonePreview,
    AcquireMute,
    ReleaseMute,
    /// Stop the recorder that has just started.
    DropRecorder,
    StopRecorder,
    SetArchiveActive(bool),
    StoreRecorder,
    MonitorRecorder,
}

/// The outcome of a wait, as the session sees it.
pub open spec fn transcript_of(kind: VoiceAsrKind, end: VoiceWaitEnd, still_active: bool) -> Result<
    String,
    VoiceError,
> {
    match end {
        VoiceWaitEnd::Text(t) => if kind == VoiceAsrKind::FoundryLocalWhisper && !still_active {
            Err(VoiceError::Cancelled)
        } else {
            Ok(t)
        },
        VoiceWaitEnd::Failed(e) => Err(VoiceError::Message(e)),
        VoiceWaitEnd::TimedOut => Err(VoiceError::TimedOut(kind)),
        VoiceWaitEnd::Interrupted => Err(VoiceError::Cancelled),
    }
}

/// What a wait leaves to be done.
pub open spec fn wait_effects(
    kind: VoiceAsrKind,
    end: VoiceWaitEnd,
    still_active: bool,
    recovery: Option<u64>,
) -> Seq<VoiceEffect> {
    let release = VoiceEffect::ScheduleRelease { recovery: None };
    if kind == VoiceAsrKind::SherpaOnnxLocal {
        seq![release]
    } else if kind == VoiceAsrKind::FoundryLocalWhisper {
        match end {
            VoiceWaitEnd::Text(_) => if still_active {
                seq![VoiceEffect::ScheduleRelease { recovery }]
            } else {
                seq![VoiceEffect::CancelAsr, release]
            },
            VoiceWaitEnd::Interrupted => seq![VoiceEffect::CancelAsr, release],
            _ => seq![release],
        }
    } else {
        match end {
            VoiceWaitEnd::Interrupted => seq![VoiceEffect::CancelAsr],
            VoiceWaitEnd::TimedOut => if is_realtime(kind) {
                seq![VoiceEffect::CancelAsr]
            } else {
                Seq::empty()
            },
            _ => Seq::empty(),
        }
    }
}

/// The wait for the transcript is over. `still_active` says whether the
/// session still records, `recovery` which local model fell back.
pub fn transcribe_selection_voice_asr(
    kind: VoiceAsrKind,
    end: VoiceWaitEnd,
    still_active: bool,
    recovery: Option<u64>,
) -> (r: (Vec<VoiceEffect>, Result<String, VoiceError>))
    requires
        can_end(kind, end),
    ensures
        r.0@ == wait_effects(kind, end, still_active, recovery),
        r.1 == transcript_of(kind, end, still_active),
{
    let mut effects: Vec<VoiceEffect> = Vec::new();
    let local: bool = kind == VoiceAsrKind::FoundryLocalWhisper;
    let realtime: bool = voice_wait(kind).send_last_frame;
    if kind == VoiceAsrKind::SherpaOnnxLocal {
        effects.push(VoiceEffect::ScheduleRelease { recovery: None });
    }
    match end {
        VoiceWaitEnd::Text(t) => {
            if local && !still_active {
                effects.push(VoiceEffect::CancelAsr);
                effects.push(VoiceEffect::ScheduleRelease { recovery: None });
                return (effects, Err(VoiceError::Cancelled));
            }
            if local {
                effects.push(VoiceEffect::ScheduleRelease { recovery });
            }
            (effects, Ok(t))
        },
        VoiceWaitEnd::Failed(e) => {
            if local {
                effects.push(VoiceEffect::ScheduleRelease { recovery: None });
            }
            (effects, Err(VoiceError::Message(e)))
        },
        VoiceWaitEnd::TimedOut => {
            if realtime {
                effects.push(VoiceEffect::CancelAsr);
            }
            (effects, Err(VoiceError::TimedOut(kind)))
        },
        VoiceWaitEnd::Interrupted => {
            effects.push(VoiceEffect::CancelAsr);
            if local {
                effects.push(VoiceEffect::ScheduleRelease { recovery: None });
            }
            (effects, Err(VoiceError::Cancelled))
        },
    }
}

/// What has to hold before an instruction can be recorded; the first problem
/// is reported. Without one the recogniser is kept and the loudspeakers are
/// muted.
pub fn gate_selection_voice_recorder(
    multimodal: bool,
    credentials_problem: Option<String>,
    asr_problem: Option<String>,
    microphone_problem: Option<String>,
) -> (r: Result<Vec<VoiceEffect>, VoiceError>)
    ensures
        if multimodal {
            r == Err::<Vec<VoiceEffect>, VoiceError>(VoiceError::OmniUnsupported)
        } else if credentials_problem is Some {
            r == Err::<Vec<VoiceEffect>, VoiceError>(
                VoiceError::MissingCredentials(credentials_problem->0),
            )
        } else if asr_problem is Some {
            r == Err::<Vec<VoiceEffect>, VoiceError>(VoiceError::AsrInit(asr_problem->0))
        } else if microphone_problem is Some {
            r == Err::<Vec<VoiceEffect>, VoiceError>(VoiceError::Message(microphone_problem->0))
        } else {
            r is Ok && r->Ok_0@ == seq![
                VoiceEffect::StoreAsr,
                VoiceEffect::StopMicrophonePreview,
                VoiceEffect::AcquireMute,
            ]
        },
{
    if multimodal {
        return Err(VoiceError::OmniUnsupported);
    }
    if let Some(m) = credentials_problem {
        return Err(VoiceError::MissingCredentials(m));
    }
    if let Some(m) = asr_problem {
        return Err(VoiceError::AsrInit(m));
    }
    if let Some(m) = microphone_problem {
        return Err(VoiceError::Message(m));
    }
    Ok(
        vec![
            VoiceEffect::StoreAsr,
            VoiceEffect::StopMicrophonePreview,
            VoiceEffect::AcquireMute,
        ],
    )
}

/// What follows a step of the recorder's start.
#[derive(Debug)]
pub enum RecorderNext {
    /// Start a recorder on this microphone, or on the usual one. The sound is
    /// not kept.
    StartRecorder { microphone: Option<String> },
    OpenStream,
    Finished(Result<(), VoiceError>),
}

/// The loudspeakers are muted. A session that was given up meanwhile starts
/// no recorder.
pub fn voice_recorder_muted(still_active: bool, microphone: Option<String>) -> (r: (
    Vec<VoiceEffect>,
    RecorderNext,
))
    ensures
        still_active ==> r.0@ == Seq::<VoiceEffect>::empty() && r.1 == (RecorderNext::StartRecorder {
            microphone,
        }),
        !still_active ==> r.0@ == seq![VoiceEffect::CancelAsr, VoiceEffect::ReleaseMute] && r.1
            == RecorderNext::Finished(Ok(())),
{
    if still_active {
        (Vec::new(), RecorderNext::StartRecorder { microphone })
    } else {
        (
            vec![VoiceEffect::CancelAsr, VoiceEffect::ReleaseMute],
            RecorderNext::Finished(Ok(())),
        )
    }
}

/// The recorder runs, with or without an archive, or failed to start.
pub fn start_selection_voice_recorder(still_active: bool, outcome: Result<bool, String>) -> (r: (
    Vec<VoiceEffect>,
    RecorderNext,
))
    ensures
        match outcome {
            Ok(archive) => if still_active {
                &&& r.0@ == seq![
                    VoiceEffect::SetArchiveActive(archive),
                    VoiceEffect::StoreRecorder,
                    VoiceEffect::MonitorRecorder,
                ]
                &&& r.1 == RecorderNext::OpenStream
            } else {
                &&& r.0@ == seq![
                    VoiceEffect::DropRecorder,
                    VoiceEffect::CancelAsr,
                    VoiceEffect::ReleaseMute,
                ]
                &&& r.1 == RecorderNext::Finished(Ok(()))
            },
            Err(e) => {
                &&& r.0@ == seq![VoiceEffect::CancelAsr, VoiceEffect::ReleaseMute]
                &&& r.1 == RecorderNext::Finished(Err(VoiceError::Message(e)))
            },
        },
{
    match outcome {
        Ok(archive) => if still_active {
            (
                vec![
                    VoiceEffect::SetArchiveActive(archive),
                    VoiceEffect::StoreRecorder,
                    VoiceEffect::MonitorRecorder,
                ],
                RecorderNext::OpenStream,
            )
        } else {
            (
                vec![VoiceEffect::DropRecorder, VoiceEffect::CancelAsr, VoiceEffect::ReleaseMute],
                RecorderNext::Finished(Ok(())),
            )
        },
        Err(e) => (
            vec![VoiceEffect::CancelAsr, VoiceEffect::ReleaseMute],
            RecorderNext::Finished(Err(VoiceError::Message(e))),
        ),
    }
}

/// The recogniser has connected, or failed to.
pub fn voice_stream_opened(problem: Option<String>) -> (r: (Vec<VoiceEffect>, Result<(), VoiceError>))
    ensures
        match problem {
            None => r.0@ == Seq::<VoiceEffect>::empty() && r.1 == Ok::<(), VoiceError>(()),
            Some(e) => r.0@ == seq![VoiceEffect::StopRecorder, VoiceEffect::CancelAsr] && r.1
                == Err::<(), VoiceError>(VoiceError::AsrConnect(e)),
        },
{
    match problem {
        None => (Vec::new(), Ok(())),
        Some(e) => (
            vec![VoiceEffect::StopRecorder, VoiceEffect::CancelAsr],
            Err(VoiceError::AsrConnect(e)),
        ),
    }
}

/// The recorder of session `id` has reported `error`. What comes late from an
/// earlier session is dropped; otherwise the session ends with the error.
pub fn voice_recorder_broke(host: &mut SelectionVoiceHostState, id: u128, error: &str) -> (r: Option<
    (Vec<VoiceEffect>, VoiceFailure),
>)
    ensures
        old(host).recorder_session_id != Some(id) ==> r is None && *final(host) == *old(host),
        old(host).recorder_session_id == Some(id) ==> {
            &&& *final(host) == empty_host()
            &&& r matches Some((effects, failure))
            &&& effects@ == seq![VoiceEffect::StopRecorder, VoiceEffect::CancelAsr]
            &&& failure.cancel_session == old(host).target_session_id
            &&& failure.message@ == end_message("录音设备异常: "@ + error@)
            &&& failure.hide_after_ms == 2500
        },
{
    let message: String = join2("录音设备异常: ", error);
    match handle_selection_voice_recorder_error(host, id, message.as_str()) {
        None => None,
        Some(failure) => Some(
            (vec![VoiceEffect::StopRecorder, VoiceEffect::CancelAsr], failure),
        ),
    }
}

/// The user has said what to do: the recorder stops, and the transcript is
/// waited for. Without a recogniser there is none.
pub fn finish_selection_voice_transcript(asr: Option<VoiceAsrKind>) -> (r: (
    Vec<VoiceEffect>,
    Result<VoiceWait, VoiceError>,
))
    ensures
        r.0@ == seq![VoiceEffect::StopRecorder],
        r.1 == (match asr {
            None => Err::<VoiceWait, VoiceError>(VoiceError::AsrUnavailable),
            Some(kind) => Ok(wait_of(kind)),
        }),
{
    let wait: Result<VoiceWait, VoiceError> = match asr {
        None => Err(VoiceError::AsrUnavailable),
        Some(kind) => Ok(voice_wait(kind)),
    };
    (vec![VoiceEffect::StopRecorder], wait)
}

/// A session that was given up never yields an instruction through a
/// recogniser that watches for it.
pub proof fn law_interrupted_voice_is_silent(kind: VoiceAsrKind, still_active: bool)
    ensures
        transcript_of(kind, VoiceWaitEnd::Interrupted, still_active) == Err::<String, VoiceError>(
            VoiceError::Cancelled,
        ),
        forall|t: String|
            #[trigger] transcript_of(
                VoiceAsrKind::FoundryLocalWhisper,
                VoiceWaitEnd::Text(t),
                false,
            ) == Err::<String, VoiceError>(VoiceError::Cancelled),
{
}

/// The end of the audio is marked for the five recognisers that hear it while it is
/// recorded. Three watch for a cancel, those of this machine keep time themselves,
/// and two get time by the length of the audio.
pub proof fn law_how_recognisers_are_waited_for(kind: VoiceAsrKind, r: VoiceWait)
    requires
        call_ensures(voice_wait, (kind,), r),
    ensures
        r.send_last_frame <==> kind == VoiceAsrKind::Volcengine || kind == VoiceAsrKind::Bailian
            || kind == VoiceAsrKind::Qwen3Realtime || kind == VoiceAsrKind::StepfunRealtime || kind
            == VoiceAsrKind::Xfyun,
        r.limit == VoiceLimit::Own <==> kind == VoiceAsrKind::FoundryLocalWhisper || kind
            == VoiceAsrKind::SherpaOnnxLocal,
        r.limit == VoiceLimit::ByAudio <==> kind == VoiceAsrKind::DashScopeMultimodal || kind
            == VoiceAsrKind::ElevenLabs,
        r.watch_cancel <==> r.limit == VoiceLimit::ByAudio || kind
            == VoiceAsrKind::FoundryLocalWhisper,
        r.send_last_frame ==> r.limit == VoiceLimit::Global && !r.watch_cancel,
{
}

/// What was heard is the instruction, in just these words, unless the session was
/// given up while the local Whisper listened. A failure is told in its own words, a
/// time-out by the recogniser, and an interrupted wait as a cancel.
pub proof fn law_heard_words_are_the_instruction(
    kind: VoiceAsrKind,
    end: VoiceWaitEnd,
    active: bool,
    recovery: Option<u64>,
    r: (Vec<VoiceEffect>, Result<String, VoiceError>),
)
    requires
        call_ensures(transcribe_selection_voice_asr, (kind, end, active, recovery), r),
    ensures
        r.1 is Ok <==> end is Text && (active || kind != VoiceAsrKind::FoundryLocalWhisper),
        r.1 is Ok ==> r.1->Ok_0 == end->Text_0,
        end is Failed ==> r.1 == Err::<String, VoiceError>(VoiceError::Message(end->Failed_0)),
        end is TimedOut ==> r.1 == Err::<String, VoiceError>(VoiceError::TimedOut(kind)),
        end is Interrupted || (end is Text && r.1 is Err) ==> r.1 == Err::<String, VoiceError>(
            VoiceError::Cancelled,
        ),
{
}

/// A local model is let go after every wait, and what was interrupted, given up or
/// timed out while it streamed is cancelled. Nothing else is left to do.
pub proof fn law_wait_cleans_up(
    kind: VoiceAsrKind,
    end: VoiceWaitEnd,
    active: bool,
    recovery: Option<u64>,
    r: (Vec<VoiceEffect>, Result<String, VoiceError>),
    wait: VoiceWait,
)
    requires
        call_ensures(transcribe_selection_voice_asr, (kind, end, active, recovery), r),
        call_ensures(voice_wait, (kind,), wait),
        end is TimedOut ==> wait.limit != VoiceLimit::Own,
        end is Interrupted ==> wait.watch_cancel,
    ensures
        ({
            let local = kind == VoiceAsrKind::FoundryLocalWhisper || kind
                == VoiceAsrKind::SherpaOnnxLocal;
            &&& local ==> r.0@.len() > 0 && r.0@.last() is ScheduleRelease
            &&& !local ==> forall|i: int|
                0 <= i < r.0@.len() ==> !((#[trigger] r.0@[i]) is ScheduleRelease)
            &&& r.0@.contains(VoiceEffect::CancelAsr) <==> end is Interrupted || (end is TimedOut
                && wait.send_last_frame) || (end is Text && !active && kind
                == VoiceAsrKind::FoundryLocalWhisper)
            &&& local && r.0@.last() != (VoiceEffect::ScheduleRelease { recovery: None }) ==> kind
                == VoiceAsrKind::FoundryLocalWhisper && end is Text && active && r.0@.last() == (
            VoiceEffect::ScheduleRelease { recovery })
        }),
{
    if r.0@.len() > 0 && r.0@[0] == VoiceEffect::CancelAsr {
        assert(r.0@.contains(VoiceEffect::CancelAsr));
    }
}

/// Nothing is recorded while one of four things stands in the way, and the first of
/// them is told; without any the loudspeakers are muted.
pub proof fn law_first_obstacle_is_told(
    multimodal: bool,
    credentials: Option<String>,
    asr: Option<String>,
    microphone: Option<String>,
    r: Result<Vec<VoiceEffect>, VoiceError>,
)
    requires
        call_ensures(gate_selection_voice_recorder, (multimodal, credentials, asr, microphone), r),
    ensures
        r is Ok <==> !multimodal && credentials is None && asr is None && microphone is None,
        r is Err && r->Err_0 is OmniUnsupported <==> multimodal,
        !multimodal && credentials is Some ==> r->Err_0 == VoiceError::MissingCredentials(
            credentials->0,
        ),
        !multimodal && credentials is None && asr is Some ==> r->Err_0 == VoiceError::AsrInit(asr->0),
        !multimodal && credentials is None && asr is None && microphone is Some ==> r->Err_0
            == VoiceError::Message(microphone->0),
        r is Ok ==> r->Ok_0@.contains(VoiceEffect::AcquireMute) && r->Ok_0@.contains(
            VoiceEffect::StoreAsr,
        ) && r->Ok_0@.contains(VoiceEffect::StopMicrophonePreview),
{
    if r is Ok {
        assert(r->Ok_0@[0] == VoiceEffect::StoreAsr);
        assert(r->Ok_0@[1] == VoiceEffect::StopMicrophonePreview);
        assert(r->Ok_0@[2] == VoiceEffect::AcquireMute);
    }
}

/// At every step of its start a recorder goes on only for a session that is still
/// there; otherwise the recogniser is cancelled and the loudspeakers are heard
/// again, without a word of error.
pub proof fn law_given_up_session_starts_no_recorder(
    active: bool,
    microphone: Option<String>,
    outcome: Result<bool, String>,
    problem: Option<String>,
    muted: (Vec<VoiceEffect>, RecorderNext),
    started: (Vec<VoiceEffect>, RecorderNext),
    opened: (Vec<VoiceEffect>, Result<(), VoiceError>),
)
    requires
        call_ensures(voice_recorder_muted, (active, microphone), muted),
        call_ensures(start_selection_voice_recorder, (active, outcome), started),
        call_ensures(voice_stream_opened, (problem,), opened),
    ensures
        muted.1 is StartRecorder <==> active,
        muted.1 is StartRecorder ==> muted.1->microphone == microphone && muted.0@.len() == 0,
        !active ==> muted.1 == RecorderNext::Finished(Ok(())) && muted.0@.contains(
            VoiceEffect::CancelAsr,
        ) && muted.0@.contains(VoiceEffect::ReleaseMute),
        started.1 == RecorderNext::OpenStream <==> active && outcome is Ok,
        active && outcome is Ok ==> started.0@.contains(VoiceEffect::StoreRecorder)
            && started.0@.contains(VoiceEffect::MonitorRecorder) && started.0@.contains(
            VoiceEffect::SetArchiveActive(outcome->Ok_0),
        ),
        !active || outcome is Err ==> started.0@.contains(VoiceEffect::CancelAsr)
            && started.0@.contains(VoiceEffect::ReleaseMute),
        !active && outcome is Ok ==> started.0@.contains(VoiceEffect::DropRecorder) && started.1
            == RecorderNext::Finished(Ok(())),
        outcome is Err ==> started.1 == RecorderNext::Finished(
            Err(VoiceError::Message(outcome->Err_0)),
        ),
        opened.1 is Ok <==> problem is None,
        problem is None ==> opened.0@.len() == 0,
        problem is Some ==> opened.1 == Err::<(), VoiceError>(VoiceError::AsrConnect(problem->0))
            && opened.0@.contains(VoiceEffect::StopRecorder) && opened.0@.contains(
            VoiceEffect::CancelAsr,
        ),
{
    if !active {
        assert(muted.0@[0] == VoiceEffect::CancelAsr);
        assert(muted.0@[1] == VoiceEffect::ReleaseMute);
    }
    if outcome is Err {
        assert(started.0@[0] == VoiceEffect::CancelAsr);
        assert(started.0@[1] == VoiceEffect::ReleaseMute);
    } else if active {
        assert(started.0@[0] == VoiceEffect::SetArchiveActive(outcome->Ok_0));
        assert(started.0@[1] == VoiceEffect::StoreRecorder);
        assert(started.0@[2] == VoiceEffect::MonitorRecorder);
    } else {
        assert(started.0@[0] == VoiceEffect::DropRecorder);
        assert(started.0@[1] == VoiceEffect::CancelAsr);
        assert(started.0@[2] == VoiceEffect::ReleaseMute);
    }
    if problem is Some {
        assert(opened.0@[0] == VoiceEffect::StopRecorder);
        assert(opened.0@[1] == VoiceEffect::CancelAsr);
    }
}

/// A recorder that breaks ends the session it records for, and no other.
pub proof fn law_broken_recorder_ends_its_session(
    host: &mut SelectionVoiceHostState,
    id: u128,
    error: &str,
    r: Option<(Vec<VoiceEffect>, VoiceFailure)>,
)
    requires
        call_ensures(voice_recorder_broke, (host, id, error), r),
    ensures
        r is Some <==> old(host).recorder_session_id == Some(id),
        r is None ==> *final(host) == *old(host),
        r matches Some((effects, failure)) ==> {
            &&& failure.cancel_session == old(host).target_session_id
            &&& effects@.contains(VoiceEffect::StopRecorder)
            &&& effects@.contains(VoiceEffect::CancelAsr)
            &&& final(host).target_session_id is None
            &&& final(host).recorder_session_id is None
            &&& !final(host).blocks_recording
        },
{
    if let Some((effects, failure)) = r {
        assert(effects@[0] == VoiceEffect::StopRecorder);
        assert(effects@[1] == VoiceEffect::CancelAsr);
    }
}

/// The recorder stops at the end in any case; the transcript is waited for as the
/// recogniser needs it, and without a recogniser there is none.
pub proof fn law_end_stops_the_recorder(
    asr: Option<VoiceAsrKind>,
    wait: VoiceWait,
    r: (Vec<VoiceEffect>, Result<VoiceWait, VoiceError>),
)
    requires
        call_ensures(finish_selection_voice_transcript, (asr,), r),
        asr matches Some(kind) ==> call_ensures(voice_wait, (kind,), wait),
    ensures
        r.0@.contains(VoiceEffect::StopRecorder),
        r.1 is Ok <==> asr is Some,
        r.1 is Ok ==> r.1->Ok_0 == wait,
        r.1 is Err ==> r.1->Err_0 is AsrUnavailable,
{
    assert(r.0@[0] == VoiceEffect::StopRecorder);
}

} // verus!
