//! The catalogue of the local sherpa-onnx recogniser.

use crate::paths::{below, path_below, windows_below, windows_path_below};
use crate::text::{join2, str_eq};
use crate::types::Platform;
use vstd::prelude::*;

verus! {

pub const PROVIDER_ID: &'static str = "sherpa-onnx-local";

pub const DEFAULT_MODEL_ALIAS: &'static str = "sense-voice-small-zh";

pub const DEFAULT_ONLINE_MODEL_ALIAS: &'static str = "zipformer-bilingual-zh-en-streaming";

#[derive(Clone, Copy, PartialEq, Eq, Structural, Debug)]
pub enum SherpaFamily {
    SenseVoice,
    Paraformer,
    Whisper,
    Qwen3Asr,
    Zipformer,
}

#[derive(Clone, Copy, PartialEq, Eq, Structural, Debug)]
pub enum SherpaMode {
    /// The whole recording is recognised once it has stopped.
    Offline,
    /// Speech is recognised while it is recorded.
    Online,
}

#[derive(Clone, Copy, PartialEq, Eq, Structural, Debug)]
pub enum SherpaPreparePhase {
    Runtime,
    Model,
    Load,
    Finished,
    Failed,
}

/// The name of a phase in messages to the window.
pub open spec fn phase_name(phase: SherpaPreparePhase) -> Seq<char> {
    match phase {
        SherpaPreparePhase::Runtime => "runtime"@,
        SherpaPreparePhase::Model => "model"@,
        SherpaPreparePhase::Load => "load"@,
        SherpaPreparePhase::Finished => "finished"@,
        SherpaPreparePhase::Failed => "failed"@,
    }
}

impl SherpaPreparePhase {
    /// The name of this phase in messages to the window.
    pub fn name(self) -> (r: &'static str)
        ensures
            r@ == phase_name(self),
    {
        match self {
            SherpaPreparePhase::Runtime => "runtime",
            SherpaPreparePhase::Model => "model",
            SherpaPreparePhase::Load => "load",
            SherpaPreparePhase::Finished => "finished",
            SherpaPreparePhase::Failed => "failed",
        }
    }
}

/// The alias is not in the catalogue.
#[derive(Debug)]
pub struct UnknownAlias {
    pub alias: String,
}

impl UnknownAlias {
    pub fn text(&self) -> (r: String)
        ensures
            r@ == "unknown sherpa-onnx model alias: "@ + self.alias@,
    {
        join2("unknown sherpa-onnx model alias: ", self.alias.as_str())
    }
}

/// The files a model of the catalogue consists of.
pub open spec fn catalogue_files(alias: Seq<char>) -> Option<Seq<Seq<char>>> {
    if alias == "sense-voice-small-zh"@ || alias == "paraformer-zh"@ {
        Some(seq!["model.int8.onnx"@, "tokens.txt"@])
    } else if alias == "whisper-small-multi"@ || alias == "whisper-large-v3-multi"@ {
        Some(seq!["encoder.int8.onnx"@, "decoder.int8.onnx"@, "tokens.txt"@])
    } else if alias == "qwen3-asr-0.6b-int8"@ {
        Some(
            seq!["conv_frontend.onnx"@, "encoder.int8.onnx"@, "decoder.int8.onnx"@, "tokenizer"@],
        )
    } else if alias == "zipformer-bilingual-zh-en-streaming"@ {
        Some(
            seq![
                "encoder-epoch-99-avg-1.int8.onnx"@,
                "decoder-epoch-99-avg-1.onnx"@,
                "joiner-epoch-99-avg-1.int8.onnx"@,
                "tokens.txt"@,
            ],
        )
    } else {
        None
    }
}

/// The views of a list of names.
pub open spec fn names(v: Seq<&'static str>) -> Seq<Seq<char>> {
    v.map_values(|s: &'static str| s@)
}

/// The files a model of the catalogue consists of.
pub fn required_files_for_alias(alias: &str) -> (r: Result<Vec<&'static str>, UnknownAlias>)
    ensures
        match r {
            Ok(files) => catalogue_files(alias@) == Some(names(files@)),
            Err(e) => catalogue_files(alias@) is None && e.alias@ == alias@,
        },
{
    let files: Vec<&'static str> = if str_eq(alias, "sense-voice-small-zh") || str_eq(
        alias,
        "paraformer-zh",
    ) {
        vec!["model.int8.onnx", "tokens.txt"]
    } else if str_eq(alias, "whisper-small-multi") || str_eq(alias, "whisper-large-v3-multi") {
        vec!["encoder.int8.onnx", "decoder.int8.onnx", "tokens.txt"]
    } else if str_eq(alias, "qwen3-asr-0.6b-int8") {
        vec!["conv_frontend.onnx", "encoder.int8.onnx", "decoder.int8.onnx", "tokenizer"]
    } else if str_eq(alias, "zipformer-bilingual-zh-en-streaming") {
        vec![
            "encoder-epoch-99-avg-1.int8.onnx",
            "decoder-epoch-99-avg-1.onnx",
            "joiner-epoch-99-avg-1.int8.onnx",
            "tokens.txt",
        ]
    } else {
        return Err(UnknownAlias { alias: alias.to_owned() });
    };
    proof {
        assert(names(files@) =~= catalogue_files(alias@)->0);
    }
    Ok(files)
}

/// Whether the catalogue has a model of this alias.
pub fn model_alias_is_known(alias: &str) -> (r: bool)
    ensures
        r == (catalogue_files(alias@) is Some),
{
    required_files_for_alias(alias).is_ok()
}

/// How the model of an alias recognises speech.
pub open spec fn catalogue_mode(alias: Seq<char>) -> Option<SherpaMode> {
    if alias == DEFAULT_ONLINE_MODEL_ALIAS@ {
        Some(SherpaMode::Online)
    } else if catalogue_files(alias) is Some {
        Some(SherpaMode::Offline)
    } else {
        None
    }
}

/// How the model of an alias recognises speech.
pub fn mode_for_alias(alias: &str) -> (r: Result<SherpaMode, UnknownAlias>)
    ensures
        match r {
            Ok(mode) => catalogue_mode(alias@) == Some(mode),
            Err(e) => catalogue_mode(alias@) is None && e.alias@ == alias@,
        },
{
    if str_eq(alias, DEFAULT_ONLINE_MODEL_ALIAS) {
        Ok(SherpaMode::Online)
    } else if model_alias_is_known(alias) {
        Ok(SherpaMode::Offline)
    } else {
        Err(UnknownAlias { alias: alias.to_owned() })
    }
}

/// Whether the model of an alias recognises speech while it is recorded.
pub fn alias_is_online(alias: &str) -> (r: bool)
    ensures
        r == (catalogue_mode(alias@) == Some(SherpaMode::Online)),
{
    match mode_for_alias(alias) {
        Ok(SherpaMode::Online) => true,
        _ => false,
    }
}

/// What the host finds at the path of a required file.
#[derive(Clone, Copy, PartialEq, Eq, Structural, Debug)]
pub struct PathFacts {
    pub is_file: bool,
    /// The path holds a file `tokenizer.json`.
    pub has_tokenizer_json: bool,
    /// The path holds a file `vocab.json`.
    pub has_vocab_json: bool,
    /// The path holds a file `merges.txt`.
    pub has_merges_txt: bool,
}

/// The required entry is a directory.
pub open spec fn is_required_dir(alias: Seq<char>, required: Seq<char>) -> bool {
    alias == "qwen3-asr-0.6b-int8"@ && required == "tokenizer"@
}

/// A tokenizer directory holds one file, or the two older ones.
pub open spec fn dir_complete(facts: PathFacts) -> bool {
    facts.has_tokenizer_json || (facts.has_vocab_json && facts.has_merges_txt)
}

pub fn required_path_is_dir(alias: &str, required: &str) -> (r: bool)
    ensures
        r == is_required_dir(alias@, required@),
{
    str_eq(alias, "qwen3-asr-0.6b-int8") && str_eq(required, "tokenizer")
}

pub fn required_dir_is_valid(alias: &str, required: &str, facts: PathFacts) -> (r: bool)
    ensures
        r == (is_required_dir(alias@, required@) && dir_complete(facts)),
{
    required_path_is_dir(alias, required) && (facts.has_tokenizer_json || (facts.has_vocab_json
        && facts.has_merges_txt))
}

/// Whether what stands at a required path will do.
pub fn required_path_is_valid(alias: &str, required: &str, facts: PathFacts) -> (r: bool)
    ensures
        r == (if is_required_dir(alias@, required@) {
            dir_complete(facts)
        } else {
            facts.is_file
        }),
{
    if required_path_is_dir(alias, required) {
        required_dir_is_valid(alias, required, facts)
    } else {
        facts.is_file
    }
}

/// The directory of a model. `base` is the root of all models on Windows and
/// the directory for temporary files elsewhere.
pub open spec fn alias_dir(platform: Platform, base: Seq<char>, alias: Seq<char>) -> Seq<char> {
    if platform == Platform::Windows {
        windows_below(base, alias)
    } else {
        below(below(base, "openless-sherpa-onnx"@), alias)
    }
}

/// The directory of a model of the catalogue.
pub fn model_dir_for_alias(platform: Platform, base: &str, alias: &str) -> (r: Result<
    String,
    UnknownAlias,
>)
    ensures
        match r {
            Ok(dir) => catalogue_files(alias@) is Some && dir@ == alias_dir(
                platform,
                base@,
                alias@,
            ),
            Err(e) => catalogue_files(alias@) is None && e.alias@ == alias@,
        },
{
    if !model_alias_is_known(alias) {
        return Err(UnknownAlias { alias: alias.to_owned() });
    }
    if platform == Platform::Windows {
        Ok(windows_path_below(base, alias))
    } else {
        Ok(path_below(path_below(base, "openless-sherpa-onnx").as_str(), alias))
    }
}

/// Progress of a model's preparation. The share done is in hundredths of a
/// percent.
#[derive(Debug)]
pub struct SherpaPrepareProgressPayload {
    pub phase: SherpaPreparePhase,
    pub model_alias: String,
    pub label: String,
    pub percent_hundredths: Option<u32>,
    pub error: Option<String>,
}

/// A share of the work, never above the whole.
pub open spec fn clamped_percent(p: Option<u32>) -> Option<u32> {
    match p {
        Some(v) => Some(if v > 10000 {
            10000
        } else {
            v
        }),
        None => None,
    }
}

impl SherpaPrepareProgressPayload {
    pub fn new(
        phase: SherpaPreparePhase,
        model_alias: String,
        label: String,
        percent_hundredths: Option<u32>,
        error: Option<String>,
    ) -> (r: Self)
        ensures
            r.phase == phase,
            r.model_alias == model_alias,
            r.label == label,
            r.percent_hundredths == clamped_percent(percent_hundredths),
            r.error == error,
    {
        let percent_hundredths: Option<u32> = match percent_hundredths {
            Some(v) => Some(if v > 10000 {
                10000
            } else {
                v
            }),
            None => None,
        };
        SherpaPrepareProgressPayload { phase, model_alias, label, percent_hundredths, error }
    }

    pub fn failed(model_alias: String, label: String, error: String) -> (r: Self)
        ensures
            r.phase == SherpaPreparePhase::Failed,
            r.model_alias == model_alias,
            r.label == label,
            r.percent_hundredths is None,
            r.error == Some(error),
    {
        Self::new(SherpaPreparePhase::Failed, model_alias, label, None, Some(error))
    }
}

#[derive(Debug)]
pub struct SherpaRuntimeStatus {
    pub provider_id: String,
    /// This platform can run the recogniser.
    pub available: bool,
    /// The model is loaded.
    pub runtime_ready: bool,
    pub active_model: String,
    pub loaded_model_id: Option<String>,
    pub error: Option<String>,
    pub last_prepare_ms: Option<u64>,
    pub last_transcribe_ms: Option<u64>,
    pub last_audio_ms: Option<u64>,
    pub last_error: Option<String>,
}

impl SherpaRuntimeStatus {
    /// The recogniser cannot be used, for the reason given.
    pub fn unavailable(active_model: String, error: &str) -> (r: Self)
        ensures
            r.provider_id@ == PROVIDER_ID@,
            !r.available,
            !r.runtime_ready,
            r.active_model == active_model,
            r.loaded_model_id is None,
            r.error is Some && r.error->0@ == error@,
            r.last_prepare_ms is None,
            r.last_transcribe_ms is None,
            r.last_audio_ms is None,
            r.last_error is Some && r.last_error->0@ == error@,
    {
        SherpaRuntimeStatus {
            provider_id: PROVIDER_ID.to_owned(),
            available: false,
            runtime_ready: false,
            active_model,
            loaded_model_id: None,
            error: Some(error.to_owned()),
            last_prepare_ms: None,
            last_transcribe_ms: None,
            last_audio_ms: None,
            last_error: Some(error.to_owned()),
        }
    }
}

/// Each model of the catalogue has a mode, and no other alias has one.
pub proof fn law_mode_known_iff_catalogued(alias: Seq<char>)
    ensures
        catalogue_mode(alias) is Some <==> catalogue_files(alias) is Some,
{
    assert(catalogue_files(DEFAULT_ONLINE_MODEL_ALIAS@) is Some);
}

/// The six models of the catalogue, each with its files; no other alias is known.
/// One of them recognises while it listens, and the others afterwards.
pub proof fn law_catalogue_of_models(
    alias: &str,
    files: Result<Vec<&'static str>, UnknownAlias>,
    known: bool,
    mode: Result<SherpaMode, UnknownAlias>,
    online: bool,
)
    requires
        call_ensures(required_files_for_alias, (alias,), files),
        call_ensures(model_alias_is_known, (alias,), known),
        call_ensures(mode_for_alias, (alias,), mode),
        call_ensures(alias_is_online, (alias,), online),
    ensures
        known <==> alias@ == "sense-voice-small-zh"@ || alias@ == "paraformer-zh"@ || alias@
            == "whisper-small-multi"@ || alias@ == "whisper-large-v3-multi"@ || alias@
            == "qwen3-asr-0.6b-int8"@ || alias@ == "zipformer-bilingual-zh-en-streaming"@,
        files is Ok <==> known,
        mode is Ok <==> known,
        files matches Err(e) ==> e.alias@ == alias@,
        mode matches Err(e) ==> e.alias@ == alias@,
        online <==> alias@ == "zipformer-bilingual-zh-en-streaming"@,
        online <==> mode == Ok::<SherpaMode, UnknownAlias>(SherpaMode::Online),
        alias@ == "sense-voice-small-zh"@ || alias@ == "paraformer-zh"@ ==> names(files->Ok_0@)
            == seq!["model.int8.onnx"@, "tokens.txt"@],
        alias@ == "whisper-small-multi"@ || alias@ == "whisper-large-v3-multi"@ ==> names(
            files->Ok_0@,
        ) == seq!["encoder.int8.onnx"@, "decoder.int8.onnx"@, "tokens.txt"@],
        alias@ == "qwen3-asr-0.6b-int8"@ ==> names(files->Ok_0@) == seq![
            "conv_frontend.onnx"@,
            "encoder.int8.onnx"@,
            "decoder.int8.onnx"@,
            "tokenizer"@,
        ],
        alias@ == "zipformer-bilingual-zh-en-streaming"@ ==> names(files->Ok_0@).len() == 4
            && names(files->Ok_0@)[3] == "tokens.txt"@,
{
    reveal_strlit("sense-voice-small-zh");
    reveal_strlit("paraformer-zh");
    reveal_strlit("whisper-small-multi");
    reveal_strlit("whisper-large-v3-multi");
    reveal_strlit("qwen3-asr-0.6b-int8");
    reveal_strlit("zipformer-bilingual-zh-en-streaming");
    assert("sense-voice-small-zh"@.len() == 20);
    assert("paraformer-zh"@.len() == 13);
    assert("whisper-small-multi"@.len() == 19 && "whisper-small-multi"@[0] == 'w');
    assert("whisper-large-v3-multi"@.len() == 22);
    assert("qwen3-asr-0.6b-int8"@.len() == 19 && "qwen3-asr-0.6b-int8"@[0] == 'q');
    assert("zipformer-bilingual-zh-en-streaming"@.len() == 35);
    law_mode_known_iff_catalogued(alias@);
}

/// What is required is a file, except for the tokenizer of Qwen, which is a
/// directory with one file in it or with the two older ones.
pub proof fn law_what_will_do_at_a_path(
    alias: &str,
    required: &str,
    facts: PathFacts,
    is_dir: bool,
    dir_ok: bool,
    ok: bool,
)
    requires
        call_ensures(required_path_is_dir, (alias, required), is_dir),
        call_ensures(required_dir_is_valid, (alias, required, facts), dir_ok),
        call_ensures(required_path_is_valid, (alias, required, facts), ok),
    ensures
        is_dir <==> alias@ == "qwen3-asr-0.6b-int8"@ && required@ == "tokenizer"@,
        !is_dir ==> !dir_ok && (ok <==> facts.is_file),
        is_dir ==> (ok <==> dir_ok),
        is_dir && facts.has_tokenizer_json ==> ok,
        is_dir && facts.has_vocab_json && facts.has_merges_txt ==> ok,
        is_dir && ok && !facts.has_tokenizer_json ==> facts.has_vocab_json && facts.has_merges_txt,
{
}

/// A model has a directory exactly if the catalogue has it, and the directory ends in
/// its alias; two models never share one.
pub proof fn law_models_have_their_own_directories(
    platform: Platform,
    base: &str,
    alias: &str,
    known: bool,
    r: Result<String, UnknownAlias>,
)
    requires
        call_ensures(model_alias_is_known, (alias,), known),
        call_ensures(model_dir_for_alias, (platform, base, alias), r),
    ensures
        r is Ok <==> known,
        r matches Ok(dir) ==> dir@.len() >= alias@.len() && dir@.skip(dir@.len() - alias@.len())
            == alias@,
        r matches Ok(dir) ==> platform == Platform::Windows ==> dir@.take(base@.len() as int)
            == base@,
{
    if r is Ok {
        let dir = r->Ok_0@;
        assert(dir.skip(dir.len() - alias@.len()) =~= alias@);
        if platform == Platform::Windows {
            assert(dir.take(base@.len() as int) =~= base@);
        }
    }
}

/// Progress is told as it is, only never beyond the whole; a failure has a reason
/// and no share.
pub proof fn law_progress_never_exceeds_the_whole(
    phase: SherpaPreparePhase,
    alias: String,
    label: String,
    percent: Option<u32>,
    error: Option<String>,
    why: String,
    r: SherpaPrepareProgressPayload,
    f: SherpaPrepareProgressPayload,
)
    requires
        call_ensures(SherpaPrepareProgressPayload::new, (phase, alias, label, percent, error), r),
        call_ensures(SherpaPrepareProgressPayload::failed, (alias, label, why), f),
    ensures
        r.phase == phase && r.model_alias == alias && r.label == label && r.error == error,
        r.percent_hundredths is Some <==> percent is Some,
        percent matches Some(p) ==> r.percent_hundredths->0 <= 10000 && (p <= 10000
            ==> r.percent_hundredths == percent) && (p > 10000 ==> r.percent_hundredths->0
            == 10000),
        f.phase == SherpaPreparePhase::Failed && f.error == Some(why) && f.model_alias == alias
            && f.percent_hundredths is None,
{
}

/// The phases have names of their own.
pub proof fn law_phases_have_their_own_names(
    a: SherpaPreparePhase,
    b: SherpaPreparePhase,
    of_a: &'static str,
    of_b: &'static str,
)
    requires
        call_ensures(SherpaPreparePhase::name, (a,), of_a),
        call_ensures(SherpaPreparePhase::name, (b,), of_b),
    ensures
        of_a@ == of_b@ ==> a == b,
        a == SherpaPreparePhase::Failed ==> of_a@ == "failed"@,
        a == SherpaPreparePhase::Finished ==> of_a@ == "finished"@,
{
    reveal_strlit("runtime");
    reveal_strlit("model");
    reveal_strlit("load");
    reveal_strlit("finished");
    reveal_strlit("failed");
    assert("runtime"@.len() == 7);
    assert("model"@.len() == 5);
    assert("load"@.len() == 4);
    assert("finished"@.len() == 8);
    assert("failed"@.len() == 6);
}

/// A recogniser that cannot be used says why, and has nothing loaded.
pub proof fn law_unusable_recogniser_says_why(
    model: String,
    error: &str,
    r: SherpaRuntimeStatus,
)
    requires
        call_ensures(SherpaRuntimeStatus::unavailable, (model, error), r),
    ensures
        !r.available && !r.runtime_ready && r.loaded_model_id is None,
        r.active_model == model,
        r.error is Some && r.error->0@ == error@,
        r.last_error is Some && r.last_error->0@ == error@,
        r.last_prepare_ms is None && r.last_transcribe_ms is None && r.last_audio_ms is None,
{
}

} // verus!
