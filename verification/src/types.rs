//! Plain data shared by the modules of the crate.

use vstd::prelude::*;

verus! {

/// The operating system the host runs on.
#[derive(Clone, Copy, PartialEq, Eq, Structural, Debug)]
pub enum Platform {
    Windows,
    MacOs,
    Linux,
}

/// What became of the text at the cursor.
#[derive(Clone, Copy, PartialEq, Eq, Structural, Debug)]
pub enum InsertStatus {
    Inserted,
    PasteSent,
    CopiedFallback,
    Failed,
}

/// How much a style pack rewrites the transcript.
#[derive(Clone, Copy, PartialEq, Eq, Structural, Debug)]
pub enum PolishMode {
    Raw,
    Light,
    Structured,
}

/// Which Chinese script the user wants to read.
#[derive(Clone, Copy, PartialEq, Eq, Structural, Debug)]
pub enum ChineseScriptPreference {
    Auto,
    Simplified,
    Traditional,
}

/// How the dictation key starts and stops a session.
#[derive(Clone, Copy, PartialEq, Eq, Structural, Debug)]
pub enum HotkeyMode {
    /// One press starts, the next press stops.
    Toggle,
    /// Recording lasts while the key is held.
    Hold,
    /// A short press toggles, a long one holds.
    Auto,
}

/// Where a dictation session stands.
#[derive(Clone, Copy, PartialEq, Eq, Structural, Debug)]
pub enum SessionPhase {
    Idle,
    Starting,
    Listening,
    Processing,
    Inserting,
}

/// The speech recogniser that serves a session.
#[derive(Clone, Copy, PartialEq, Eq, Structural, Debug)]
pub enum AsrKind {
    Volcengine,
    Whisper,
    Mimo,
    Bailian,
    FoundryLocalWhisper,
    SherpaOnnxLocal,
    LocalQwen,
}

/// What the floating capsule shows.
#[derive(Clone, Copy, PartialEq, Eq, Structural, Debug)]
pub enum CapsuleState {
    Recording,
    Transcribing,
    Polishing,
    Done,
    Error,
    Cancelled,
}

/// A replacement the user wants in every transcript.
#[derive(Debug)]
pub struct CorrectionRule {
    pub id: String,
    pub pattern: String,
    pub replacement: String,
    pub enabled: bool,
    pub created_at: String,
}

/// One line of the dictation history.
#[derive(Debug)]
pub struct DictationSession {
    pub id: String,
    pub created_at: String,
    pub raw_transcript: String,
    pub final_text: String,
    pub mode: PolishMode,
    pub style_pack_id: Option<String>,
    pub translation_active: bool,
    pub polish_source: Option<String>,
    pub app_bundle_id: Option<String>,
    pub app_name: Option<String>,
    pub insert_status: InsertStatus,
    pub error_code: Option<String>,
    pub duration_ms: Option<u64>,
    pub dictionary_entry_count: Option<u32>,
    pub has_audio_recording: Option<bool>,
}

/// The class of a failure reported to the user interface.
#[derive(Clone, Copy, PartialEq, Eq, Structural, Debug)]
pub enum BackendErrorCode {
    Busy,
    Cancelled,
    InvalidArgument,
    InvalidState,
    NotFound,
    PermissionDenied,
    Unsupported,
    Platform,
    Provider,
    Persistence,
    Internal,
}

/// A failure reported to the user interface.
#[derive(Debug)]
pub struct BackendError {
    pub code: BackendErrorCode,
    pub message: String,
    pub retryable: bool,
}

impl BackendError {
    /// A failure that trying again will not mend.
    pub fn new(code: BackendErrorCode, message: &str) -> (r: BackendError)
        ensures
            r.code == code,
            r.message@ == message@,
            !r.retryable,
    {
        BackendError { code, message: message.to_owned(), retryable: false }
    }

    /// A failure whose text ends in a reported detail.
    pub fn detailed(code: BackendErrorCode, prefix: &str, detail: &str) -> (r: BackendError)
        ensures
            r.is(code, prefix@ + detail@),
    {
        BackendError { code, message: prefix.to_owned().concat(detail), retryable: false }
    }

    /// This is the failure `code` with the text `message`, not worth a retry.
    pub open spec fn is(self, code: BackendErrorCode, message: Seq<char>) -> bool {
        self.code == code && self.message@ == message && !self.retryable
    }
}

/// The view of an optional text.
pub open spec fn opt_text(o: Option<String>) -> Option<Seq<char>> {
    match o {
        Some(s) => Some(s@),
        None => None,
    }
}

/// A failure is what it was made of, with the detail behind the words before it, and is
/// not worth a retry.
pub proof fn law_failure_is_what_it_was_made_of(
    code: BackendErrorCode,
    words: &str,
    detail: &str,
    plain: BackendError,
    longer: BackendError,
)
    requires
        call_ensures(BackendError::new, (code, words), plain),
        call_ensures(BackendError::detailed, (code, words, detail), longer),
    ensures
        plain.code == code && longer.code == code,
        !plain.retryable && !longer.retryable,
        plain.message@ == words@,
        longer.message@ == plain.message@ + detail@,
{
}

} // verus!
