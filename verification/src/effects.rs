//! What the dictation core asks of its host, and the words it shows.

use crate::text::join2;
use crate::types::{AsrKind, CapsuleState, DictationSession};
use vstd::prelude::*;

verus! {

/// A message under the capsule.
#[derive(Debug)]
pub enum Notice {
    /// A message that came with its own words.
    Text(String),
    LocalModelFailed(String),
    AsrConnectFailed(String),
    RecorderFailed(String),
    RecordingInterrupted(String),
    RecognitionFailed(String),
    LocalRecognitionFailed(String),
    RecognitionTimedOut,
    NothingHeard,
    PasteAttempted,
    PolishFailed,
    TsfRequired,
}

/// The words of a notice.
pub open spec fn notice_text(n: Notice) -> Seq<char> {
    match n {
        Notice::Text(s) => s@,
        Notice::LocalModelFailed(e) => "本地模型初始化失败: "@ + e@,
        Notice::AsrConnectFailed(e) => "ASR 连接失败: "@ + e@,
        Notice::RecorderFailed(e) => "录音启动失败: "@ + e@,
        Notice::RecordingInterrupted(e) => "录音中断: "@ + e@,
        Notice::RecognitionFailed(e) => "识别失败: "@ + e@,
        Notice::LocalRecognitionFailed(e) => "本地识别失败: "@ + e@,
        Notice::RecognitionTimedOut => "识别超时"@,
        Notice::NothingHeard => "没有识别到语音"@,
        Notice::PasteAttempted => "已尝试粘贴"@,
        Notice::PolishFailed => "润色失败，已插入原文"@,
        Notice::TsfRequired => "TSF 未上屏，已禁止非 TSF 兜底"@,
    }
}

impl Notice {
    /// The words of this notice.
    pub fn text(&self) -> (r: String)
        ensures
            r@ == notice_text(*self),
    {
        match self {
            Notice::Text(s) => s.clone(),
            Notice::LocalModelFailed(e) => join2("本地模型初始化失败: ", e.as_str()),
            Notice::AsrConnectFailed(e) => join2("ASR 连接失败: ", e.as_str()),
            Notice::RecorderFailed(e) => join2("录音启动失败: ", e.as_str()),
            Notice::RecordingInterrupted(e) => join2("录音中断: ", e.as_str()),
            Notice::RecognitionFailed(e) => join2("识别失败: ", e.as_str()),
            Notice::LocalRecognitionFailed(e) => join2("本地识别失败: ", e.as_str()),
            Notice::RecognitionTimedOut => "识别超时".to_owned(),
            Notice::NothingHeard => "没有识别到语音".to_owned(),
            Notice::PasteAttempted => "已尝试粘贴".to_owned(),
            Notice::PolishFailed => "润色失败，已插入原文".to_owned(),
            Notice::TsfRequired => "TSF 未上屏，已禁止非 TSF 兜底".to_owned(),
        }
    }
}

/// Why a session ended without text.
#[derive(Debug)]
pub enum SessionError {
    /// A gate or a service that came with its own words.
    Reported(String),
    SherpaInit(String),
    LocalAsrInit(String),
    TimedOut(AsrKind),
    EmptyTranscript,
}

/// The name of a recogniser's time-out. The local recognisers of Windows keep
/// time themselves and report in their own words.
pub open spec fn timeout_label(kind: AsrKind) -> Seq<char> {
    match kind {
        AsrKind::Volcengine => "global timeout"@,
        AsrKind::Whisper => "whisper global timeout"@,
        AsrKind::Mimo => "mimo global timeout"@,
        AsrKind::Bailian => "bailian global timeout"@,
        AsrKind::LocalQwen => "local global timeout"@,
        AsrKind::FoundryLocalWhisper => "local global timeout"@,
        AsrKind::SherpaOnnxLocal => "local global timeout"@,
    }
}

/// The words of a session error.
pub open spec fn session_error_text(e: SessionError) -> Seq<char> {
    match e {
        SessionError::Reported(s) => s@,
        SessionError::SherpaInit(s) => "sherpa-onnx init failed: "@ + s@,
        SessionError::LocalAsrInit(s) => "local ASR init failed: "@ + s@,
        SessionError::TimedOut(kind) => timeout_label(kind),
        SessionError::EmptyTranscript => "ASR returned empty transcript"@,
    }
}

impl SessionError {
    /// The words of this error.
    pub fn text(&self) -> (r: String)
        ensures
            r@ == session_error_text(*self),
    {
        match self {
            SessionError::Reported(s) => s.clone(),
            SessionError::SherpaInit(s) => join2("sherpa-onnx init failed: ", s.as_str()),
            SessionError::LocalAsrInit(s) => join2("local ASR init failed: ", s.as_str()),
            SessionError::TimedOut(kind) => match kind {
                AsrKind::Volcengine => "global timeout".to_owned(),
                AsrKind::Whisper => "whisper global timeout".to_owned(),
                AsrKind::Mimo => "mimo global timeout".to_owned(),
                AsrKind::Bailian => "bailian global timeout".to_owned(),
                AsrKind::LocalQwen => "local global timeout".to_owned(),
                AsrKind::FoundryLocalWhisper => "local global timeout".to_owned(),
                AsrKind::SherpaOnnxLocal => "local global timeout".to_owned(),
            },
            SessionError::EmptyTranscript => "ASR returned empty transcript".to_owned(),
        }
    }
}

/// How much of the history is kept.
#[derive(Clone, Copy, PartialEq, Eq, Structural, Debug)]
pub struct HistoryLimits {
    pub retention_days: u32,
    pub max_entries: u32,
}

/// One thing the host has to do. Lists of effects are performed in order.
#[derive(Debug)]
pub enum Effect {
    /// Show the capsule.
    Capsule {
        state: CapsuleState,
        elapsed_ms: u64,
        notice: Option<Notice>,
        inserted_chars: Option<u32>,
    },
    /// Let the capsule fade after its usual delay.
    HideCapsuleLater,
    /// Switch the input method over to OpenLess and remember the old one.
    PrepareIme(u128),
    /// Give the input method back.
    RestoreIme(u128),
    /// Forget that the translation modifier was seen.
    ClearTranslationFlag,
    StopMicrophonePreview,
    AcquireMute,
    ReleaseMute,
    /// Delete recordings that are too old or too many.
    PruneRecordings { retention_days: u32, max_entries: u32 },
    /// Keep the sound in the file of the session, if there can be one.
    ArchiveSound(u128),
    /// Start a recorder on this microphone, or on the usual one.
    StartRecorder { microphone: Option<String> },
    /// Remember whether this session's audio is being archived.
    SetArchiveActive(bool),
    /// Keep the running recorder under the session.
    StoreRecorder(u128),
    /// Watch the recorder for failures.
    MonitorRecorder(u128),
    /// Stop the recorder of the session, if it has one.
    StopRecorder(u128),
    /// Cancel the recogniser of the session, if it has one.
    CancelAsr(u128),
    /// Stop the recorder, cancel the recogniser and release the mute.
    DiscardStartup(u128),
    /// Let buffered audio flow into the recogniser that has connected.
    AttachBufferedAudio(u128),
    /// Let the local recogniser go once it has been idle for a while, on behalf
    /// of the session where the recogniser tells its sessions apart.
    ScheduleRelease { kind: AsrKind, session: Option<u128> },
    /// Append to the history, and keep no more of it than the limits allow.
    AppendHistory(DictationSession, HistoryLimits),
    /// Tell the vocabulary page how many entries were hit.
    PublishVocabularyHits(u64),
    HideAgentGlow,
}

/// A notice carries the detail that it came with, at its end, and one that has its
/// own words is told in these. No notice is empty that has words of its own.
pub proof fn law_notice_carries_its_detail(n: &Notice, detail: String, r: String)
    requires
        call_ensures(Notice::text, (n,), r),
    ensures
        *n == Notice::Text(detail) ==> r@ == detail@,
        *n == Notice::LocalModelFailed(detail) || *n == Notice::AsrConnectFailed(detail) || *n
            == Notice::RecorderFailed(detail) || *n == Notice::RecordingInterrupted(detail) || *n
            == Notice::RecognitionFailed(detail) || *n == Notice::LocalRecognitionFailed(detail)
            ==> r@.len() > detail@.len() && r@.skip(r@.len() - detail@.len()) == detail@,
        *n is RecognitionTimedOut ==> r@ == "识别超时"@,
        *n is NothingHeard ==> r@ == "没有识别到语音"@,
        *n is PasteAttempted ==> r@ == "已尝试粘贴"@,
        *n is PolishFailed ==> r@ == "润色失败，已插入原文"@,
        *n is TsfRequired ==> r@ == "TSF 未上屏，已禁止非 TSF 兜底"@,
{
    reveal_strlit("本地模型初始化失败: ");
    reveal_strlit("ASR 连接失败: ");
    reveal_strlit("录音启动失败: ");
    reveal_strlit("录音中断: ");
    reveal_strlit("识别失败: ");
    reveal_strlit("本地识别失败: ");
    if *n == Notice::LocalModelFailed(detail) || *n == Notice::AsrConnectFailed(detail) || *n
        == Notice::RecorderFailed(detail) || *n == Notice::RecordingInterrupted(detail) || *n
        == Notice::RecognitionFailed(detail) || *n == Notice::LocalRecognitionFailed(detail) {
        assert(r@.skip(r@.len() - detail@.len()) =~= detail@);
    }
}

/// An error is told in the words it came with, after the name of what failed where it
/// has one; a time-out is told by the recogniser.
pub proof fn law_session_error_carries_its_detail(e: &SessionError, detail: String, r: String)
    requires
        call_ensures(SessionError::text, (e,), r),
    ensures
        *e == SessionError::Reported(detail) ==> r@ == detail@,
        *e == SessionError::SherpaInit(detail) ==> r@ == "sherpa-onnx init failed: "@ + detail@,
        *e == SessionError::LocalAsrInit(detail) ==> r@ == "local ASR init failed: "@ + detail@,
        *e is EmptyTranscript ==> r@ == "ASR returned empty transcript"@,
        *e == SessionError::TimedOut(AsrKind::Volcengine) ==> r@ == "global timeout"@,
        *e == SessionError::TimedOut(AsrKind::Whisper) ==> r@ == "whisper global timeout"@,
        *e == SessionError::TimedOut(AsrKind::Mimo) ==> r@ == "mimo global timeout"@,
        *e == SessionError::TimedOut(AsrKind::Bailian) ==> r@ == "bailian global timeout"@,
        *e == SessionError::TimedOut(AsrKind::LocalQwen) ==> r@ == "local global timeout"@,
{
}

} // verus!
