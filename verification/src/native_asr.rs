//! Recognisers that run on this machine: which one serves a request, what it
//! is fed, and when its model is let go.

use crate::begin::{local_qwen_id, FOUNDRY_DEFAULT_MODEL_ALIAS, FOUNDRY_PROVIDER_ID};
use crate::sherpa::{catalogue_files, model_alias_is_known, DEFAULT_MODEL_ALIAS, PROVIDER_ID};
use crate::text::str_eq;
use crate::types::{opt_text, BackendError, BackendErrorCode, Platform};
use vstd::prelude::*;

verus! {

pub const LOCAL_WHISPER_PROVIDER_ID: &'static str = "local-whisper";

pub const APPLE_SPEECH_PROVIDER_ID: &'static str = "apple-speech";

/// A language the user works in.
#[derive(Debug)]
pub struct WorkingLanguage {
    pub name: String,
    /// The locale that Apple's recogniser has for it.
    pub apple_locale: Option<String>,
}

/// What the settings say of the recogniser.
#[derive(Debug)]
pub struct AsrContext {
    pub provider_type: String,
    pub model: Option<String>,
    pub runtime: Option<String>,
    pub language: Option<String>,
    pub keep_loaded_secs: Option<u32>,
    /// The languages the user works in, the main one first.
    pub working_languages: Vec<WorkingLanguage>,
}

/// What the host's catalogue says of the configured model.
#[derive(Clone, Copy, PartialEq, Eq, Structural, Debug)]
pub struct ModelFacts {
    pub foundry_alias_known: bool,
    pub is_qwen: bool,
    pub is_whisper: bool,
    /// A Qwen engine exists for the provider type.
    pub qwen_backend_available: bool,
}

/// The recogniser to set up.
#[derive(Debug)]
pub enum NativeLoad {
    Foundry { model: String, runtime: String, language: Option<String> },
    Sherpa { model: String, language: Option<String> },
    Qwen { model: String },
    Whisper { model: String, spoken: String },
    AppleSpeech { locale: Option<String> },
}

/// The family of a local recogniser.
#[derive(Clone, Copy, PartialEq, Eq, Structural, Debug)]
pub enum NativeKind {
    Foundry,
    Sherpa,
    Qwen,
    Whisper,
    AppleSpeech,
}

/// The family that a provider type means on a platform.
pub open spec fn native_kind(platform: Platform, provider: Seq<char>) -> Option<NativeKind> {
    match platform {
        Platform::Windows => if provider == FOUNDRY_PROVIDER_ID@ || provider == "foundry-local"@
            || provider == "foundry-whisper"@ {
            Some(NativeKind::Foundry)
        } else if provider == PROVIDER_ID@ || provider == "sherpa-onnx"@ {
            Some(NativeKind::Sherpa)
        } else {
            None
        },
        Platform::MacOs => if local_qwen_id(provider) {
            Some(NativeKind::Qwen)
        } else if provider == LOCAL_WHISPER_PROVIDER_ID@ {
            Some(NativeKind::Whisper)
        } else if provider == APPLE_SPEECH_PROVIDER_ID@ {
            Some(NativeKind::AppleSpeech)
        } else {
            None
        },
        Platform::Linux => if local_qwen_id(provider) {
            Some(NativeKind::Qwen)
        } else {
            None
        },
    }
}

/// The family that a provider type means on a platform.
pub fn native_kind_of(platform: Platform, provider: &str) -> (r: Option<NativeKind>)
    ensures
        r == native_kind(platform, provider@),
{
    let qwen: bool = str_eq(provider, "local-qwen3") || str_eq(provider, "local-qwen3-mlx")
        || str_eq(provider, "local-qwen3-c");
    match platform {
        Platform::Windows => if str_eq(provider, FOUNDRY_PROVIDER_ID) || str_eq(
            provider,
            "foundry-local",
        ) || str_eq(provider, "foundry-whisper") {
            Some(NativeKind::Foundry)
        } else if str_eq(provider, PROVIDER_ID) || str_eq(provider, "sherpa-onnx") {
            Some(NativeKind::Sherpa)
        } else {
            None
        },
        Platform::MacOs => if qwen {
            Some(NativeKind::Qwen)
        } else if str_eq(provider, LOCAL_WHISPER_PROVIDER_ID) {
            Some(NativeKind::Whisper)
        } else if str_eq(provider, APPLE_SPEECH_PROVIDER_ID) {
            Some(NativeKind::AppleSpeech)
        } else {
            None
        },
        Platform::Linux => if qwen {
            Some(NativeKind::Qwen)
        } else {
            None
        },
    }
}

/// The text of `o`, or `default`.
pub open spec fn text_or(o: Option<String>, default: Seq<char>) -> Seq<char> {
    match o {
        Some(s) => s@,
        None => default,
    }
}

fn clone_or(o: &Option<String>, default: &str) -> (r: String)
    ensures
        r@ == text_or(*o, default@),
{
    match o {
        Some(s) => s.clone(),
        None => default.to_owned(),
    }
}

fn clone_opt(o: &Option<String>) -> (r: Option<String>)
    ensures
        r == *o,
{
    match o {
        Some(s) => Some(s.clone()),
        None => None,
    }
}

/// The model in use: the configured one where `usable`, else `default`.
pub open spec fn model_or(model: Option<String>, usable: bool, default: Seq<char>) -> Seq<char> {
    if usable {
        text_or(model, default)
    } else {
        default
    }
}

/// The locale of the first working language. A later one is never asked.
pub open spec fn main_locale(languages: Seq<WorkingLanguage>) -> Option<String> {
    if languages.len() == 0 {
        None
    } else {
        languages[0].apple_locale
    }
}

/// `load` is what the settings ask for.
pub open spec fn load_matches(
    load: NativeLoad,
    kind: NativeKind,
    ctx: AsrContext,
    facts: ModelFacts,
    default_whisper: Seq<char>,
) -> bool {
    match (kind, load) {
        (NativeKind::Foundry, NativeLoad::Foundry { model, runtime, language }) => {
            &&& model@ == model_or(
                ctx.model,
                facts.foundry_alias_known,
                FOUNDRY_DEFAULT_MODEL_ALIAS@,
            )
            &&& runtime@ == text_or(ctx.runtime, "auto"@)
            &&& language == ctx.language
        },
        (NativeKind::Sherpa, NativeLoad::Sherpa { model, language }) => {
            &&& model@ == model_or(
                ctx.model,
                ctx.model is Some && catalogue_files(ctx.model->0@) is Some,
                DEFAULT_MODEL_ALIAS@,
            )
            &&& language == ctx.language
        },
        (NativeKind::Qwen, NativeLoad::Qwen { model }) => {
            &&& facts.qwen_backend_available && facts.is_qwen
            &&& ctx.model == Some(model)
        },
        (NativeKind::Whisper, NativeLoad::Whisper { model, spoken }) => {
            &&& model@ == model_or(ctx.model, facts.is_whisper, default_whisper)
            &&& spoken@ == text_or(ctx.language, "auto"@)
        },
        (NativeKind::AppleSpeech, NativeLoad::AppleSpeech { locale }) => locale == main_locale(
            ctx.working_languages@,
        ),
        _ => false,
    }
}

/// Counts the requests, so that a late release can tell whether its own
/// request is still the latest.
#[derive(Debug)]
pub struct TauriNativeTranscriptionEngine {
    pub generation: u64,
}

/// How a call of a recogniser is named in the records.
#[derive(Debug)]
pub struct AsrCallLabel {
    pub provider_type: String,
    pub model: Option<String>,
}

/// The model that serves a request. Apple's recogniser has none.
pub open spec fn model_of(load: NativeLoad) -> Option<Seq<char>> {
    match load {
        NativeLoad::Foundry { model, .. } => Some(model@),
        NativeLoad::Sherpa { model, .. } => Some(model@),
        NativeLoad::Qwen { model } => Some(model@),
        NativeLoad::Whisper { model, .. } => Some(model@),
        NativeLoad::AppleSpeech { .. } => None,
    }
}

fn label_model(load: &NativeLoad) -> (r: Option<String>)
    ensures
        opt_text(r) == model_of(*load),
{
    match load {
        NativeLoad::Foundry { model, .. } => Some(model.clone()),
        NativeLoad::Sherpa { model, .. } => Some(model.clone()),
        NativeLoad::Qwen { model } => Some(model.clone()),
        NativeLoad::Whisper { model, .. } => Some(model.clone()),
        NativeLoad::AppleSpeech { .. } => None,
    }
}

/// A request that has been accepted.
#[derive(Debug)]
pub struct NativeStart {
    pub label: AsrCallLabel,
    pub generation: u64,
    pub keep_loaded_secs: u32,
    pub load: NativeLoad,
}

impl TauriNativeTranscriptionEngine {
    pub fn new() -> (r: Self)
        ensures
            r.generation == 0,
    {
        TauriNativeTranscriptionEngine { generation: 0 }
    }

    /// Accepts a request, or says why no local recogniser can serve it. Either
    /// way the request is counted.
    pub fn start(
        &mut self,
        platform: Platform,
        ctx: &AsrContext,
        facts: ModelFacts,
        default_whisper_model: &str,
    ) -> (r: Result<NativeStart, BackendError>)
        ensures
            final(self).generation as int == (old(self).generation + 1) % 0x1_0000_0000_0000_0000,
            match (native_kind(platform, ctx.provider_type@), r) {
                (None, Err(e)) => e.is(
                    BackendErrorCode::Unsupported,
                    "native ASR provider is unavailable: "@ + ctx.provider_type@,
                ),
                (Some(kind), Ok(s)) => {
                    &&& s.generation == final(self).generation
                    &&& s.keep_loaded_secs == (match ctx.keep_loaded_secs {
                        Some(n) => n,
                        None => 0,
                    })
                    &&& load_matches(s.load, kind, *ctx, facts, default_whisper_model@)
                    &&& s.label.provider_type@ == ctx.provider_type@
                    &&& opt_text(s.label.model) == model_of(s.load)
                },
                (Some(kind), Err(e)) => {
                    &&& kind == NativeKind::Qwen
                    &&& if !facts.qwen_backend_available {
                        e.is(
                            BackendErrorCode::Unsupported,
                            "Qwen backend is unavailable: "@ + ctx.provider_type@,
                        )
                    } else {
                        &&& ctx.model is None || !facts.is_qwen
                        &&& e.is(BackendErrorCode::Provider, "local Qwen model is not configured"@)
                    }
                },
                (None, Ok(_)) => false,
            },
    {
        self.generation = self.generation.wrapping_add(1);
        let generation: u64 = self.generation;
        let keep_loaded_secs: u32 = match ctx.keep_loaded_secs {
            Some(n) => n,
            None => 0,
        };
        let kind: NativeKind = match native_kind_of(platform, ctx.provider_type.as_str()) {
            None => return Err(
                BackendError::detailed(
                    BackendErrorCode::Unsupported,
                    "native ASR provider is unavailable: ",
                    ctx.provider_type.as_str(),
                ),
            ),
            Some(kind) => kind,
        };
        let load: NativeLoad = match kind {
            NativeKind::Foundry => NativeLoad::Foundry {
                model: if facts.foundry_alias_known {
                    clone_or(&ctx.model, FOUNDRY_DEFAULT_MODEL_ALIAS)
                } else {
                    FOUNDRY_DEFAULT_MODEL_ALIAS.to_owned()
                },
                runtime: clone_or(&ctx.runtime, "auto"),
                language: clone_opt(&ctx.language),
            },
            NativeKind::Sherpa => {
                let known: bool = match &ctx.model {
                    Some(m) => model_alias_is_known(m.as_str()),
                    None => false,
                };
                NativeLoad::Sherpa {
                    model: if known {
                        clone_or(&ctx.model, DEFAULT_MODEL_ALIAS)
                    } else {
                        DEFAULT_MODEL_ALIAS.to_owned()
                    },
                    language: clone_opt(&ctx.language),
                }
            },
            NativeKind::Qwen => {
                if !facts.qwen_backend_available {
                    return Err(
                        BackendError::detailed(
                            BackendErrorCode::Unsupported,
                            "Qwen backend is unavailable: ",
                            ctx.provider_type.as_str(),
                        ),
                    );
                }
                match &ctx.model {
                    Some(m) => {
                        if !facts.is_qwen {
                            return Err(
                                BackendError::new(
                                    BackendErrorCode::Provider,
                                    "local Qwen model is not configured",
                                ),
                            );
                        }
                        NativeLoad::Qwen { model: m.clone() }
                    },
                    None => return Err(
                        BackendError::new(
                            BackendErrorCode::Provider,
                            "local Qwen model is not configured",
                        ),
                    ),
                }
            },
            NativeKind::Whisper => NativeLoad::Whisper {
                model: if facts.is_whisper {
                    clone_or(&ctx.model, default_whisper_model)
                } else {
                    default_whisper_model.to_owned()
                },
                spoken: clone_or(&ctx.language, "auto"),
            },
            NativeKind::AppleSpeech => NativeLoad::AppleSpeech {
                locale: if ctx.working_languages.len() == 0 {
                    None
                } else {
                    clone_opt(&ctx.working_languages[0].apple_locale)
                },
            },
        };
        let label: AsrCallLabel = AsrCallLabel {
            provider_type: ctx.provider_type.clone(),
            model: label_model(&load),
        };
        Ok(NativeStart { label, generation, keep_loaded_secs, load })
    }
}

/// The recogniser is fed from a buffer of ours.
pub open spec fn buffers(kind: NativeKind) -> bool {
    kind == NativeKind::Qwen || kind == NativeKind::Whisper
}

/// A request that is being served.
#[derive(Debug)]
pub struct TauriNativeTranscriptionSession {
    pub kind: NativeKind,
    pub label: AsrCallLabel,
    /// The language that is spoken, for a recogniser that is told at the end.
    pub spoken: String,
    /// The engine's number for the request, for an engine that gives one.
    pub operation_id: u64,
    pub generation: u64,
    pub keep_loaded_secs: u32,
    /// The audio so far, for a recogniser that is fed at the end.
    pub pcm: Vec<u8>,
    /// How long that audio was when it was handed over.
    pub duration_ms: u64,
    pub cancelled: bool,
    /// Where the next piece of partial text begins, in characters.
    pub next_offset: u64,
}

/// The family of a recogniser.
pub open spec fn kind_of(load: NativeLoad) -> NativeKind {
    match load {
        NativeLoad::Foundry { .. } => NativeKind::Foundry,
        NativeLoad::Sherpa { .. } => NativeKind::Sherpa,
        NativeLoad::Qwen { .. } => NativeKind::Qwen,
        NativeLoad::Whisper { .. } => NativeKind::Whisper,
        NativeLoad::AppleSpeech { .. } => NativeKind::AppleSpeech,
    }
}

/// What the recogniser is asked at the end of a recording.
#[derive(Debug)]
pub enum NativeRun {
    /// It has the audio, and gets so many seconds.
    Timed { timeout_secs: u64 },
    Qwen { operation_id: u64, pcm: Vec<u8> },
    Whisper { pcm: Vec<u8>, spoken: String },
    /// It has the audio, and keeps its own time.
    Own,
}

/// Who is told of a cancel.
#[derive(Clone, Copy, PartialEq, Eq, Structural, Debug)]
pub enum NativeCancel {
    Recogniser,
    /// The engine, for this operation alone.
    Operation(u64),
    Nobody,
}

/// A piece of partial text.
#[derive(Debug)]
pub struct TextStreamChunk {
    pub text: String,
    pub offset: u64,
}

/// What the recogniser of a session reported at the end.
#[derive(Debug)]
pub enum NativeReply {
    Text { text: String, duration_ms: u64 },
    /// The fall-back of the Foundry runtime gave up for good.
    TerminalFallback,
    Failed(String),
}

/// A transcript.
#[derive(Debug)]
pub struct TranscriptOutput {
    pub text: String,
    pub duration_ms: u64,
}

/// A request that gave no transcript.
#[derive(Debug)]
pub struct NativeFailure {
    pub error: BackendError,
    /// What has given up for good, where something has.
    pub terminal: Option<&'static str>,
}

/// When the model of a session may go.
#[derive(Clone, Copy, PartialEq, Eq, Structural, Debug)]
pub enum ReleasePlan {
    Never,
    /// After the wait, unless a newer request has come.
    IfLatest { generation: u64, wait_secs: u32 },
    /// After the wait, if the model has been idle for as long.
    IfIdle { wait_secs: u32 },
}

/// The plan for the model of a session that has ended well.
pub open spec fn release_plan(kind: NativeKind, generation: u64, keep: u32) -> ReleasePlan {
    match kind {
        NativeKind::Foundry | NativeKind::Sherpa => ReleasePlan::IfLatest {
            generation,
            wait_secs: keep,
        },
        NativeKind::Qwen | NativeKind::Whisper => ReleasePlan::IfIdle { wait_secs: keep },
        NativeKind::AppleSpeech => ReleasePlan::Never,
    }
}

/// Milliseconds of 16 kHz mono 16-bit audio in `len` bytes.
pub open spec fn pcm_ms(len: nat) -> nat {
    (len / 2) * 1000 / 16000
}

/// Milliseconds of audio in a buffer of 16 kHz mono 16-bit samples.
pub fn pcm_duration_ms(bytes: &Vec<u8>) -> (r: u64)
    ensures
        (bytes@.len() / 2) * 1000 <= u64::MAX ==> r as nat == pcm_ms(bytes@.len()),
        (bytes@.len() / 2) * 1000 > u64::MAX ==> r == u64::MAX / 16000,
{
    let samples: u64 = (bytes.len() / 2) as u64;
    let scaled: u64 = if samples <= u64::MAX / 1000 {
        samples * 1000
    } else {
        u64::MAX
    };
    scaled / 16000
}

/// Seconds that a local recogniser of Windows gets for `duration_ms` of
/// audio: as long as the audio and twenty seconds more, at least thirty.
pub open spec fn windows_limit(duration_ms: u64) -> int {
    let s = (duration_ms as int + 999) / 1000 + 20;
    if s < 30 {
        30
    } else {
        s
    }
}

pub fn windows_native_asr_timeout(duration_ms: u64) -> (r: u64)
    ensures
        r == windows_limit(duration_ms),
{
    let whole: u64 = duration_ms / 1000;
    let seconds: u64 = if duration_ms % 1000 == 0 {
        whole
    } else {
        whole + 1
    };
    let s: u64 = seconds + 20;
    if s < 30 {
        30
    } else {
        s
    }
}

/// A failure of a local recogniser.
pub fn map_native_asr_error(error: &str) -> (r: BackendError)
    ensures
        r.is(BackendErrorCode::Provider, "native ASR provider failed: "@ + error@),
{
    BackendError::detailed(BackendErrorCode::Provider, "native ASR provider failed: ", error)
}

impl TauriNativeTranscriptionSession {
    /// The recogniser has been set up, or could not be. An engine that numbers
    /// its operations gives the number.
    pub fn opened(start: NativeStart, engine: Result<u64, String>) -> (r: Result<Self, BackendError>)
        ensures
            match engine {
                Err(why) => r matches Err(e) && e.is(
                    BackendErrorCode::Provider,
                    "native ASR provider failed: "@ + why@,
                ),
                Ok(operation_id) => {
                    &&& r matches Ok(s)
                    &&& s.kind == kind_of(start.load)
                    &&& s.label == start.label
                    &&& start.load is Whisper ==> s.spoken == start.load->spoken
                    &&& s.operation_id == operation_id
                    &&& s.generation == start.generation
                    &&& s.keep_loaded_secs == start.keep_loaded_secs
                    &&& s.pcm@.len() == 0
                    &&& s.duration_ms == 0
                    &&& !s.cancelled
                    &&& s.next_offset == 0
                },
            },
    {
        let operation_id: u64 = match engine {
            Ok(n) => n,
            Err(why) => return Err(map_native_asr_error(why.as_str())),
        };
        let mut spoken: String = String::new();
        let kind: NativeKind = match start.load {
            NativeLoad::Foundry { .. } => NativeKind::Foundry,
            NativeLoad::Sherpa { .. } => NativeKind::Sherpa,
            NativeLoad::Qwen { .. } => NativeKind::Qwen,
            NativeLoad::Whisper { spoken: language, .. } => {
                spoken = language;
                NativeKind::Whisper
            },
            NativeLoad::AppleSpeech { .. } => NativeKind::AppleSpeech,
        };
        Ok(
            TauriNativeTranscriptionSession {
                kind,
                label: start.label,
                spoken,
                operation_id,
                generation: start.generation,
                keep_loaded_secs: start.keep_loaded_secs,
                pcm: Vec::new(),
                duration_ms: 0,
                cancelled: false,
                next_offset: 0,
            },
        )
    }

    /// The same request, served by the same recogniser.
    pub open spec fn same_request(self, other: Self) -> bool {
        &&& self.kind == other.kind
        &&& self.label == other.label
        &&& self.spoken == other.spoken
        &&& self.operation_id == other.operation_id
        &&& self.generation == other.generation
        &&& self.keep_loaded_secs == other.keep_loaded_secs
        &&& self.next_offset == other.next_offset
    }

    /// How the call is named in the records.
    pub fn asr_call_label(&self) -> (r: Option<AsrCallLabel>)
        ensures
            r is Some,
            r->0 == self.label,
    {
        Some(
            AsrCallLabel {
                provider_type: self.label.provider_type.clone(),
                model: clone_opt(&self.label.model),
            },
        )
    }

    /// Audio arrives. The answer says whether the recogniser takes it itself.
    pub fn consume_pcm_chunk(&mut self, pcm: &[u8]) -> (forward: bool)
        ensures
            forward == !buffers(old(self).kind),
            final(self).pcm@ == (if buffers(old(self).kind) {
                old(self).pcm@ + pcm@
            } else {
                old(self).pcm@
            }),
            final(self).same_request(*old(self)),
            final(self).duration_ms == old(self).duration_ms,
            final(self).cancelled == old(self).cancelled,
    {
        if self.kind == NativeKind::Qwen || self.kind == NativeKind::Whisper {
            let ghost before = self.pcm@;
            self.pcm.extend_from_slice(pcm);
            proof {
                assert(self.pcm@ =~= before + pcm@);
            }
            false
        } else {
            true
        }
    }

    /// The recording is over. Audio that was buffered is handed over and
    /// measured; a recogniser that has the audio already counts `heard_ms`.
    pub fn begin_finish(&mut self, heard_ms: u64) -> (r: NativeRun)
        ensures
            final(self).same_request(*old(self)),
            final(self).cancelled == old(self).cancelled,
            buffers(old(self).kind) ==> {
                &&& final(self).pcm@.len() == 0
                &&& (old(self).pcm@.len() / 2) * 1000 <= u64::MAX ==> final(self).duration_ms as nat
                    == pcm_ms(old(self).pcm@.len())
            },
            !buffers(old(self).kind) ==> *final(self) == *old(self),
            match old(self).kind {
                NativeKind::Foundry | NativeKind::Sherpa => r is Timed && r->timeout_secs
                    == windows_limit(heard_ms),
                NativeKind::Qwen => {
                    &&& r is Qwen
                    &&& r->operation_id == old(self).operation_id
                    &&& r->Qwen_pcm@ == old(self).pcm@
                },
                NativeKind::Whisper => {
                    &&& r is Whisper
                    &&& r->Whisper_pcm@ == old(self).pcm@
                    &&& r->spoken == old(self).spoken
                },
                NativeKind::AppleSpeech => r is Own,
            },
    {
        match self.kind {
            NativeKind::Foundry | NativeKind::Sherpa => NativeRun::Timed {
                timeout_secs: windows_native_asr_timeout(heard_ms),
            },
            NativeKind::AppleSpeech => NativeRun::Own,
            NativeKind::Qwen | NativeKind::Whisper => {
                let mut pcm: Vec<u8> = Vec::new();
                std::mem::swap(&mut pcm, &mut self.pcm);
                self.duration_ms = pcm_duration_ms(&pcm);
                if self.kind == NativeKind::Qwen {
                    NativeRun::Qwen { operation_id: self.operation_id, pcm }
                } else {
                    NativeRun::Whisper { pcm, spoken: self.spoken.clone() }
                }
            },
        }
    }

    /// A piece of partial text arrives. Pieces follow each other without gaps;
    /// after a cancel none is shown.
    pub fn partial(&mut self, piece: String) -> (r: Option<TextStreamChunk>)
        ensures
            old(self).cancelled ==> r is None && *final(self) == *old(self),
            !old(self).cancelled ==> {
                &&& r == Some(TextStreamChunk { text: piece, offset: old(self).next_offset })
                &&& *final(self) == (TauriNativeTranscriptionSession {
                    next_offset: ((old(self).next_offset + piece@.len()) % 0x1_0000_0000_0000_0000) as u64,
                    ..*old(self)
                })
            },
    {
        if self.cancelled {
            return None;
        }
        let offset: u64 = self.next_offset;
        let n: u64 = piece.as_str().unicode_len() as u64;
        self.next_offset = self.next_offset.wrapping_add(n);
        Some(TextStreamChunk { text: piece, offset })
    }

    /// Cancels the request. The answer says who has to be told.
    pub fn cancel(&mut self) -> (tell: NativeCancel)
        ensures
            tell == (match old(self).kind {
                NativeKind::Whisper => NativeCancel::Nobody,
                NativeKind::Qwen => NativeCancel::Operation(old(self).operation_id),
                _ => NativeCancel::Recogniser,
            }),
            final(self).cancelled == (old(self).cancelled || buffers(old(self).kind)),
            buffers(old(self).kind) ==> final(self).pcm@.len() == 0,
            !buffers(old(self).kind) ==> final(self).pcm@ == old(self).pcm@,
            final(self).same_request(*old(self)),
            final(self).duration_ms == old(self).duration_ms,
    {
        if self.kind == NativeKind::Qwen || self.kind == NativeKind::Whisper {
            self.cancelled = true;
            self.pcm.clear();
        }
        match self.kind {
            NativeKind::Whisper => NativeCancel::Nobody,
            NativeKind::Qwen => NativeCancel::Operation(self.operation_id),
            _ => NativeCancel::Recogniser,
        }
    }

    /// The recogniser has ended. A request of a buffered recogniser that was
    /// cancelled meanwhile yields no text, and its audio is as long as it was
    /// when it was handed over.
    pub fn finish(&self, reply: NativeReply, terminal_message: &str) -> (r: (
        Result<TranscriptOutput, NativeFailure>,
        ReleasePlan,
    ))
        ensures
            match reply {
                NativeReply::Text { text, duration_ms } => if buffers(self.kind)
                    && self.cancelled {
                    &&& r.0 matches Err(f)
                    &&& f.error.is(BackendErrorCode::Cancelled, "native ASR request cancelled"@)
                    &&& f.terminal is None
                    &&& r.1 == ReleasePlan::Never
                } else {
                    &&& r.0 == Ok::<TranscriptOutput, NativeFailure>(
                        TranscriptOutput {
                            text,
                            duration_ms: if buffers(self.kind) {
                                self.duration_ms
                            } else {
                                duration_ms
                            },
                        },
                    )
                    &&& r.1 == release_plan(self.kind, self.generation, self.keep_loaded_secs)
                },
                NativeReply::TerminalFallback => {
                    &&& r.0 matches Err(f)
                    &&& f.error.is(BackendErrorCode::Provider, terminal_message@)
                    &&& f.terminal matches Some(t)
                    &&& t@ == "foundry_fallback"@
                    &&& r.1 == ReleasePlan::Never
                },
                NativeReply::Failed(why) => {
                    &&& r.0 matches Err(f)
                    &&& f.error.code == BackendErrorCode::Provider
                    &&& f.error.message@ == "native ASR provider failed: "@ + why@
                    &&& f.error.retryable == (self.kind == NativeKind::Foundry)
                    &&& f.terminal is None
                    &&& r.1 == ReleasePlan::Never
                },
            },
    {
        match reply {
            NativeReply::Text { text, duration_ms } => {
                let buffered: bool = self.kind == NativeKind::Qwen || self.kind
                    == NativeKind::Whisper;
                if buffered && self.cancelled {
                    return (
                        Err(
                            NativeFailure {
                                error: BackendError::new(
                                    BackendErrorCode::Cancelled,
                                    "native ASR request cancelled",
                                ),
                                terminal: None,
                            },
                        ),
                        ReleasePlan::Never,
                    );
                }
                let plan: ReleasePlan = match self.kind {
                    NativeKind::Foundry | NativeKind::Sherpa => ReleasePlan::IfLatest {
                        generation: self.generation,
                        wait_secs: self.keep_loaded_secs,
                    },
                    NativeKind::Qwen | NativeKind::Whisper => ReleasePlan::IfIdle {
                        wait_secs: self.keep_loaded_secs,
                    },
                    NativeKind::AppleSpeech => ReleasePlan::Never,
                };
                let duration_ms: u64 = if buffered {
                    self.duration_ms
                } else {
                    duration_ms
                };
                (Ok(TranscriptOutput { text, duration_ms }), plan)
            },
            NativeReply::TerminalFallback => (
                Err(
                    NativeFailure {
                        error: BackendError::new(BackendErrorCode::Provider, terminal_message),
                        terminal: Some("foundry_fallback"),
                    },
                ),
                ReleasePlan::Never,
            ),
            NativeReply::Failed(why) => {
                let mut e: BackendError = map_native_asr_error(why.as_str());
                e.retryable = self.kind == NativeKind::Foundry;
                (Err(NativeFailure { error: e, terminal: None }), ReleasePlan::Never)
            },
        }
    }
}

/// What the end of a wait leads to.
#[derive(Clone, Copy, PartialEq, Eq, Structural, Debug)]
pub enum ReleaseAction {
    Keep,
    /// Release the model that was restored after a fall-back.
    ReleasePrimary,
    ReleaseNow,
}

/// Before the wait: after a fall-back, a model that is to be kept has to be
/// put back first.
pub fn restore_before_wait(has_recovery: bool, keep_loaded_secs: u32) -> (r: bool)
    ensures
        r == (has_recovery && keep_loaded_secs > 0),
{
    has_recovery && keep_loaded_secs > 0
}

/// After the wait: only the latest request may let the model go, and not
/// where putting it back had failed.
pub fn schedule_foundry_release(
    has_recovery: bool,
    keep_loaded_secs: u32,
    restored: bool,
    generation: u64,
    current_generation: u64,
) -> (r: ReleaseAction)
    ensures
        r == (if (has_recovery && keep_loaded_secs > 0 && !restored) || current_generation
            != generation {
            ReleaseAction::Keep
        } else if has_recovery {
            ReleaseAction::ReleasePrimary
        } else {
            ReleaseAction::ReleaseNow
        }),
{
    if restore_before_wait(has_recovery, keep_loaded_secs) && !restored {
        return ReleaseAction::Keep;
    }
    if current_generation != generation {
        return ReleaseAction::Keep;
    }
    if has_recovery {
        ReleaseAction::ReleasePrimary
    } else {
        ReleaseAction::ReleaseNow
    }
}

/// After the wait: only the latest request may let the model go.
pub fn schedule_sherpa_release(generation: u64, current_generation: u64) -> (r: ReleaseAction)
    ensures
        r == (if current_generation == generation {
            ReleaseAction::ReleaseNow
        } else {
            ReleaseAction::Keep
        }),
{
    if current_generation == generation {
        ReleaseAction::ReleaseNow
    } else {
        ReleaseAction::Keep
    }
}

/// More audio never gets less time, and thirty seconds are certain.
pub proof fn law_windows_limit_grows(a: u64, b: u64)
    requires
        a <= b,
    ensures
        30 <= windows_limit(a) <= windows_limit(b),
        windows_limit(a) * 1000 >= a + 20000,
{
}

/// More audio never counts as shorter.
pub proof fn law_pcm_duration_grows(a: nat, b: nat)
    requires
        a <= b,
    ensures
        pcm_ms(a) <= pcm_ms(b),
{
}

/// Each platform serves its own recognisers under their names and nobody else's:
/// Windows those of Foundry and sherpa-onnx, macOS Qwen, Whisper and Apple's own,
/// Linux Qwen.
pub proof fn law_platforms_have_their_recognisers(
    platform: Platform,
    provider: &str,
    r: Option<NativeKind>,
)
    requires
        call_ensures(native_kind_of, (platform, provider), r),
    ensures
        r == Some(NativeKind::Foundry) <==> platform == Platform::Windows && (provider@
            == "foundry-local-whisper"@ || provider@ == "foundry-local"@ || provider@
            == "foundry-whisper"@),
        r == Some(NativeKind::Sherpa) ==> platform == Platform::Windows,
        platform == Platform::Windows && provider@ == "sherpa-onnx-local"@ ==> r == Some(
            NativeKind::Sherpa,
        ),
        platform == Platform::Windows && provider@ == "sherpa-onnx"@ ==> r == Some(
            NativeKind::Sherpa,
        ),
        r == Some(NativeKind::Qwen) <==> platform != Platform::Windows && (provider@
            == "local-qwen3"@ || provider@ == "local-qwen3-mlx"@ || provider@ == "local-qwen3-c"@),
        r == Some(NativeKind::Whisper) <==> platform == Platform::MacOs && provider@
            == "local-whisper"@,
        r == Some(NativeKind::AppleSpeech) <==> platform == Platform::MacOs && provider@
            == "apple-speech"@,
{
    reveal_strlit("foundry-local-whisper");
    reveal_strlit("foundry-local");
    reveal_strlit("foundry-whisper");
    reveal_strlit("sherpa-onnx-local");
    reveal_strlit("sherpa-onnx");
    reveal_strlit("local-qwen3");
    reveal_strlit("local-qwen3-mlx");
    reveal_strlit("local-qwen3-c");
    reveal_strlit("local-whisper");
    reveal_strlit("apple-speech");
    assert(PROVIDER_ID@ == "sherpa-onnx-local"@);
    assert(FOUNDRY_PROVIDER_ID@ == "foundry-local-whisper"@);
    assert("foundry-local-whisper"@.len() == 21);
    assert("foundry-local"@.len() == 13 && "foundry-local"@[0] == 'f');
    assert("foundry-whisper"@.len() == 15 && "foundry-whisper"@[0] == 'f');
    assert("sherpa-onnx-local"@.len() == 17);
    assert("sherpa-onnx"@.len() == 11 && "sherpa-onnx"@[0] == 's');
    assert("local-qwen3"@.len() == 11);
    assert("local-qwen3-mlx"@.len() == 15);
    assert("local-qwen3-c"@.len() == 13 && "local-qwen3-c"@[6] == 'q');
    assert("local-whisper"@.len() == 13 && "local-whisper"@[6] == 'w');
    assert("apple-speech"@.len() == 12);
}

/// A request is served by the recogniser of its provider, with the model that was
/// configured as far as it is one of that recogniser's own; each request gets the
/// next number, also one that is refused.
pub proof fn law_request_is_served_by_its_recogniser(
    engine: &mut TauriNativeTranscriptionEngine,
    platform: Platform,
    ctx: &AsrContext,
    provider: &str,
    facts: ModelFacts,
    whisper: &str,
    kind: Option<NativeKind>,
    r: Result<NativeStart, BackendError>,
)
    requires
        provider@ == ctx.provider_type@,
        call_ensures(native_kind_of, (platform, provider), kind),
        call_ensures(
            TauriNativeTranscriptionEngine::start,
            (engine, platform, ctx, facts, whisper),
            r,
        ),
    ensures
        old(engine).generation < 0xffff_ffff_ffff_ffff ==> final(engine).generation == old(engine).generation
            + 1,
        r is Ok <==> kind is Some && (kind == Some(NativeKind::Qwen) ==> facts.qwen_backend_available
            && facts.is_qwen && ctx.model is Some),
        kind is None ==> r->Err_0.code == BackendErrorCode::Unsupported,
        r matches Ok(s) ==> {
            &&& s.generation == final(engine).generation
            &&& ctx.keep_loaded_secs is Some ==> s.keep_loaded_secs == ctx.keep_loaded_secs->0
            &&& ctx.keep_loaded_secs is None ==> s.keep_loaded_secs == 0
            &&& s.label.provider_type@ == ctx.provider_type@
            &&& kind == Some(NativeKind::Foundry) <==> s.load is Foundry
            &&& kind == Some(NativeKind::Sherpa) <==> s.load is Sherpa
            &&& kind == Some(NativeKind::Qwen) <==> s.load is Qwen
            &&& kind == Some(NativeKind::Whisper) <==> s.load is Whisper
            &&& kind == Some(NativeKind::AppleSpeech) <==> s.load is AppleSpeech
            &&& s.load is Qwen ==> Some(s.load->Qwen_model) == ctx.model
            &&& s.load is Foundry && facts.foundry_alias_known && ctx.model is Some
                ==> s.load->Foundry_model@ == ctx.model->0@
            &&& s.load is Foundry && !facts.foundry_alias_known ==> s.load->Foundry_model@
                == "whisper-large-v3-turbo"@
            &&& s.load is Foundry ==> s.load->Foundry_language == ctx.language
            &&& s.load is Foundry && ctx.runtime is Some ==> s.load->runtime@ == ctx.runtime->0@
            &&& s.load is Foundry && ctx.runtime is None ==> s.load->runtime@ == "auto"@
            &&& s.load is Sherpa ==> s.load->Sherpa_language == ctx.language
            &&& s.load is Sherpa && ctx.model is None ==> s.load->Sherpa_model@
                == "sense-voice-small-zh"@
            &&& s.load is Whisper && facts.is_whisper && ctx.model is Some ==> s.load->Whisper_model@
                == ctx.model->0@
            &&& s.load is Whisper && !facts.is_whisper ==> s.load->Whisper_model@ == whisper@
            &&& s.load is Whisper && ctx.language is Some ==> s.load->spoken@ == ctx.language->0@
            &&& s.load is Whisper && ctx.language is None ==> s.load->spoken@ == "auto"@
            &&& s.load is AppleSpeech && ctx.working_languages@.len() > 0 ==> s.load->locale
                == ctx.working_languages@[0].apple_locale
            &&& s.load is AppleSpeech && ctx.working_languages@.len() == 0 ==> s.load->locale is None
            &&& s.label.model is None <==> s.load is AppleSpeech
            &&& s.load is Qwen ==> s.label.model->0@ == s.load->Qwen_model@
            &&& s.load is Foundry ==> s.label.model->0@ == s.load->Foundry_model@
            &&& s.load is Sherpa ==> s.label.model->0@ == s.load->Sherpa_model@
            &&& s.load is Whisper ==> s.label.model->0@ == s.load->Whisper_model@
        },
{
}

/// A session that is opened stands for its request: the same recogniser, the same
/// number, nothing heard yet. Without an engine there is none.
pub proof fn law_opened_session_stands_for_its_request(
    start: NativeStart,
    engine: Result<u64, String>,
    r: Result<TauriNativeTranscriptionSession, BackendError>,
)
    requires
        call_ensures(TauriNativeTranscriptionSession::opened, (start, engine), r),
    ensures
        r is Ok <==> engine is Ok,
        r matches Err(e) ==> e.code == BackendErrorCode::Provider,
        r matches Ok(s) ==> {
            &&& s.generation == start.generation
            &&& s.keep_loaded_secs == start.keep_loaded_secs
            &&& s.operation_id == engine->Ok_0
            &&& s.label == start.label
            &&& s.pcm@.len() == 0 && s.next_offset == 0 && !s.cancelled
            &&& s.kind == NativeKind::Foundry <==> start.load is Foundry
            &&& s.kind == NativeKind::Sherpa <==> start.load is Sherpa
            &&& s.kind == NativeKind::Qwen <==> start.load is Qwen
            &&& s.kind == NativeKind::Whisper <==> start.load is Whisper
            &&& s.kind == NativeKind::Whisper ==> s.spoken == start.load->spoken
        },
{
}

/// All that was heard reaches the recogniser, in order: it takes the sound itself,
/// or gets the whole of it at the end, with its length.
pub proof fn law_all_sound_reaches_the_recogniser(
    first: &mut TauriNativeTranscriptionSession,
    second: &mut TauriNativeTranscriptionSession,
    ended: &mut TauriNativeTranscriptionSession,
    a: &[u8],
    b: &[u8],
    heard: u64,
    forward: bool,
    again: bool,
    run: NativeRun,
)
    requires
        first.pcm@.len() == 0,
        call_ensures(TauriNativeTranscriptionSession::consume_pcm_chunk, (first, a), forward),
        *second == *final(first),
        call_ensures(TauriNativeTranscriptionSession::consume_pcm_chunk, (second, b), again),
        *ended == *final(second),
        call_ensures(TauriNativeTranscriptionSession::begin_finish, (ended, heard), run),
        a@.len() + b@.len() < 0x100_0000_0000,
    ensures
        forward == again,
        forward <==> old(first).kind != NativeKind::Qwen && old(first).kind != NativeKind::Whisper,
        run is Qwen <==> old(first).kind == NativeKind::Qwen,
        run is Qwen ==> run->Qwen_pcm@ == a@ + b@ && run->operation_id == old(first).operation_id,
        run is Whisper <==> old(first).kind == NativeKind::Whisper,
        run is Whisper ==> run->Whisper_pcm@ == a@ + b@ && run->spoken == old(first).spoken,
        run is Own <==> old(first).kind == NativeKind::AppleSpeech,
        run is Timed ==> run->timeout_secs >= 30 && run->timeout_secs * 1000 >= heard + 20000,
        !forward ==> final(ended).pcm@.len() == 0 && final(ended).duration_ms as int == ((a@.len()
            + b@.len()) / 2) / 16,
{
    assert(old(first).pcm@ + a@ =~= a@);
    assert(old(second).pcm@ + b@ =~= (if forward {
        old(first).pcm@
    } else {
        a@
    }) + b@);
    let n = a@.len() + b@.len();
    assert(((n / 2) * 1000) / 16000 == (n / 2) / 16);
}

/// Partial texts follow each other without gaps: each begins where the one before
/// old(ended). After a cancel none is shown.
pub proof fn law_partial_texts_follow_each_other(
    first: &mut TauriNativeTranscriptionSession,
    second: &mut TauriNativeTranscriptionSession,
    a: String,
    b: String,
    one: Option<TextStreamChunk>,
    two: Option<TextStreamChunk>,
)
    requires
        call_ensures(TauriNativeTranscriptionSession::partial, (first, a), one),
        *second == *final(first),
        call_ensures(TauriNativeTranscriptionSession::partial, (second, b), two),
        first.next_offset + a@.len() < 0x1_0000_0000_0000_0000,
    ensures
        one is Some <==> !old(first).cancelled,
        two is Some <==> !old(first).cancelled,
        one is Some ==> one->0.text == a && one->0.offset == old(first).next_offset,
        two is Some ==> two->0.text == b && two->0.offset == one->0.offset + a@.len(),
{
}

/// A cancel is told to whoever works on the request. What was buffered is dropped,
/// and a text that still arrives for it counts for nothing.
pub proof fn law_cancelled_request_yields_no_text(
    s: &mut TauriNativeTranscriptionSession,
    text: String,
    duration_ms: u64,
    terminal: &str,
    tell: NativeCancel,
    r: (Result<TranscriptOutput, NativeFailure>, ReleasePlan),
)
    requires
        call_ensures(TauriNativeTranscriptionSession::cancel, (s,), tell),
        call_ensures(
            TauriNativeTranscriptionSession::finish,
            (&*final(s), NativeReply::Text { text, duration_ms }, terminal),
            r,
        ),
    ensures
        tell == NativeCancel::Nobody <==> old(s).kind == NativeKind::Whisper,
        tell == NativeCancel::Operation(old(s).operation_id) <==> old(s).kind == NativeKind::Qwen,
        old(s).kind == NativeKind::Qwen || old(s).kind == NativeKind::Whisper ==> final(s).cancelled
            && final(s).pcm@.len() == 0 && r.0 is Err && r.0->Err_0.error.code
            == BackendErrorCode::Cancelled && r.1 == ReleasePlan::Never,
        old(s).kind == NativeKind::Foundry || old(s).kind == NativeKind::Sherpa || old(s).kind
            == NativeKind::AppleSpeech ==> tell == NativeCancel::Recogniser && final(s).cancelled
            == old(s).cancelled,
{
}

/// What the recogniser reports is the transcript. A model is let go only after a
/// request that ended well, and Apple's recogniser has none; a failure is told, and
/// only that of Foundry is worth another try.
pub proof fn law_reply_is_the_transcript(
    s: &TauriNativeTranscriptionSession,
    reply: NativeReply,
    terminal: &str,
    r: (Result<TranscriptOutput, NativeFailure>, ReleasePlan),
)
    requires
        call_ensures(TauriNativeTranscriptionSession::finish, (s, reply, terminal), r),
        !s.cancelled,
    ensures
        r.0 is Ok <==> reply is Text,
        r.0 is Ok ==> r.0->Ok_0.text == reply->text,
        r.0 is Ok && (s.kind == NativeKind::Qwen || s.kind == NativeKind::Whisper)
            ==> r.0->Ok_0.duration_ms == s.duration_ms && r.1 == (ReleasePlan::IfIdle {
            wait_secs: s.keep_loaded_secs,
        }),
        r.0 is Ok && (s.kind == NativeKind::Foundry || s.kind == NativeKind::Sherpa)
            ==> r.0->Ok_0.duration_ms == reply->duration_ms && r.1 == (ReleasePlan::IfLatest {
            generation: s.generation,
            wait_secs: s.keep_loaded_secs,
        }),
        r.0 is Err || s.kind == NativeKind::AppleSpeech ==> r.1 == ReleasePlan::Never,
        reply is Failed ==> r.0->Err_0.error.code == BackendErrorCode::Provider
            && r.0->Err_0.terminal is None && (r.0->Err_0.error.retryable <==> s.kind
            == NativeKind::Foundry),
        reply is TerminalFallback ==> r.0->Err_0.terminal is Some && r.0->Err_0.error.message@
            == terminal@ && !r.0->Err_0.error.retryable,
{
}

/// Only the latest request lets a model go. After a fall-back a model that is to be
/// kept is put back first, and it stays where that failed.
pub proof fn law_only_the_latest_request_releases(
    recovery: bool,
    keep: u32,
    restored: bool,
    generation: u64,
    current: u64,
    first: bool,
    r: ReleaseAction,
    q: ReleaseAction,
)
    requires
        call_ensures(restore_before_wait, (recovery, keep), first),
        call_ensures(schedule_foundry_release, (recovery, keep, restored, generation, current), r),
        call_ensures(schedule_sherpa_release, (generation, current), q),
    ensures
        first <==> recovery && keep > 0,
        generation != current ==> r == ReleaseAction::Keep && q == ReleaseAction::Keep,
        generation == current ==> q == ReleaseAction::ReleaseNow,
        generation == current && !recovery ==> r == ReleaseAction::ReleaseNow,
        generation == current && recovery ==> (r == ReleaseAction::ReleasePrimary <==> restored
            || keep == 0),
        generation == current && recovery && !(restored || keep == 0) ==> r == ReleaseAction::Keep,
{
}

/// The length of a recording is that of its samples: two bytes each, sixteen in a
/// millisecond. A recogniser of Windows gets twenty seconds more than that, and
/// half a minute at least, but no full second beyond.
pub proof fn law_time_for_a_recording(bytes: &Vec<u8>, ms: u64, audio_ms: u64, secs: u64)
    requires
        call_ensures(pcm_duration_ms, (bytes,), ms),
        bytes@.len() < 0x100_0000_0000,
        call_ensures(windows_native_asr_timeout, (audio_ms,), secs),
    ensures
        ms as int == (bytes@.len() / 2) / 16,
        secs >= 30,
        (secs - 20) * 1000 >= audio_ms,
        secs > 30 ==> (secs - 21) * 1000 < audio_ms,
{
    let n = bytes@.len();
    assert(((n / 2) * 1000) / 16000 == (n / 2) / 16);
}

/// The call is named in the records as it was accepted.
pub proof fn law_records_name_the_call(
    s: &TauriNativeTranscriptionSession,
    r: Option<AsrCallLabel>,
)
    requires
        call_ensures(TauriNativeTranscriptionSession::asr_call_label, (s,), r),
    ensures
        r is Some,
        r->0.provider_type@ == s.label.provider_type@,
        opt_text(r->0.model) == opt_text(s.label.model),
{
}

/// A failure of a local recogniser is one of the provider, in its own words.
pub proof fn law_recogniser_failure_is_told(error: &str, r: BackendError)
    requires
        call_ensures(map_native_asr_error, (error,), r),
    ensures
        r.code == BackendErrorCode::Provider && !r.retryable,
        crate::text::ends_with(r.message@, error@),
{
    let told = r.message@;
    assert(told.subrange(told.len() - error@.len(), told.len() as int) =~= error@);
}

/// At first no request is counted.
pub proof fn law_no_request_is_counted_at_first(r: TauriNativeTranscriptionEngine)
    requires
        call_ensures(TauriNativeTranscriptionEngine::new, (), r),
    ensures
        r.generation == 0,
{
}

} // verus!
