//! The local recognisers as the settings page sees them: what each runtime
//! can do, how its models and its state are listed, and how the model store
//! is moved.

use crate::begin::{local_qwen_id, FOUNDRY_PROVIDER_ID};
use crate::native_asr::{
    native_kind, APPLE_SPEECH_PROVIDER_ID, LOCAL_WHISPER_PROVIDER_ID,
};
use crate::sherpa::{
    SherpaFamily, SherpaMode, SherpaPreparePhase, SherpaPrepareProgressPayload,
    SherpaRuntimeStatus, PROVIDER_ID,
};
use crate::text::{str_eq, trim, trimmed};
use crate::types::{opt_text, BackendError, BackendErrorCode, Platform};
use vstd::prelude::*;

verus! {

/// The families of local runtimes.
#[derive(Clone, Copy, PartialEq, Eq, Structural, Debug)]
pub enum LocalAsrRuntime {
    Generic,
    Foundry,
    SherpaOnnx,
}

/// Whether a runtime exists on a platform.
pub fn engine_available(runtime: LocalAsrRuntime, platform: Platform) -> (r: bool)
    ensures
        r == (if runtime == LocalAsrRuntime::Generic {
            platform != Platform::Windows
        } else {
            platform == Platform::Windows
        }),
{
    match runtime {
        LocalAsrRuntime::Generic => platform != Platform::Windows,
        _ => platform == Platform::Windows,
    }
}

/// Where models can be downloaded from.
#[derive(Clone, Copy, PartialEq, Eq, Structural, Debug)]
pub enum LocalAsrMirror {
    Huggingface,
    HfMirror,
    GithubRelease,
}

/// Where the downloaders can fetch from.
#[derive(Clone, Copy, PartialEq, Eq, Structural, Debug)]
pub enum Mirror {
    Huggingface,
    HfMirror,
}

/// The place a downloader fetches from; a release page is served from the
/// main site.
pub fn native_local_asr_mirror(mirror: LocalAsrMirror) -> (r: Mirror)
    ensures
        r == (if mirror == LocalAsrMirror::HfMirror {
            Mirror::HfMirror
        } else {
            Mirror::Huggingface
        }),
{
    match mirror {
        LocalAsrMirror::HfMirror => Mirror::HfMirror,
        _ => Mirror::Huggingface,
    }
}

/// Whether `list` holds the text `s`.
pub open spec fn lists(list: Seq<&'static str>, s: Seq<char>) -> bool {
    exists|i: int| 0 <= i < list.len() && (#[trigger] list[i])@ == s
}

/// The provider types that are served on this machine, in the order in which
/// they are entered.
pub open spec fn native_types(platform: Platform) -> Seq<&'static str> {
    match platform {
        Platform::Windows => seq![
            FOUNDRY_PROVIDER_ID,
            "foundry-local",
            "foundry-whisper",
            PROVIDER_ID,
            "sherpa-onnx",
        ],
        Platform::MacOs => seq![
            "local-qwen3",
            "local-qwen3-mlx",
            "local-qwen3-c",
            LOCAL_WHISPER_PROVIDER_ID,
            APPLE_SPEECH_PROVIDER_ID,
        ],
        Platform::Linux => seq!["local-qwen3", "local-qwen3-mlx", "local-qwen3-c"],
    }
}

/// The provider types that are served on this machine: those, and only those,
/// that stand for a local recogniser.
pub fn native_provider_types(platform: Platform) -> (r: Vec<&'static str>)
    ensures
        r@ == native_types(platform),
        forall|s: Seq<char>| #[trigger] lists(r@, s) <==> native_kind(platform, s) is Some,
{
    let v: Vec<&'static str> = match platform {
        Platform::Windows => vec![
            FOUNDRY_PROVIDER_ID,
            "foundry-local",
            "foundry-whisper",
            PROVIDER_ID,
            "sherpa-onnx",
        ],
        Platform::MacOs => vec![
            "local-qwen3",
            "local-qwen3-mlx",
            "local-qwen3-c",
            LOCAL_WHISPER_PROVIDER_ID,
            APPLE_SPEECH_PROVIDER_ID,
        ],
        Platform::Linux => vec!["local-qwen3", "local-qwen3-mlx", "local-qwen3-c"],
    };
    proof {
        assert(v@ =~= native_types(platform));
        assert forall|s: Seq<char>| #[trigger] lists(v@, s) <==> native_kind(platform, s) is Some by {
            if native_kind(platform, s) is Some {
                assert(v@[0]@ == s || v@[1]@ == s || v@[2]@ == s || v@[3]@ == s || v@[4]@ == s);
            }
        }
    }
    v
}

/// What the settings page asks of a runtime.
#[derive(Clone, Copy, PartialEq, Eq, Structural, Debug)]
pub enum LocalAsrOp {
    RemoteInfo,
    ModelCard,
    StartDownload,
    CancelDownload,
    Prepare,
    CancelPrepare,
    Release,
    Preload,
    DeleteModel,
    ModelDir,
    TestModel,
}

/// Why a runtime does not do what is asked; `None` where it does.
pub open spec fn unsupported(op: LocalAsrOp, runtime: LocalAsrRuntime) -> Option<Seq<char>> {
    match (op, runtime) {
        (LocalAsrOp::RemoteInfo, LocalAsrRuntime::Foundry) => Some(
            "Foundry manages its model catalog through the native runtime"@,
        ),
        (LocalAsrOp::ModelCard, LocalAsrRuntime::Foundry) => Some(
            "model cards are only available for generic local ASR models"@,
        ),
        (LocalAsrOp::ModelCard, LocalAsrRuntime::SherpaOnnx) => Some(
            "model cards are only available for generic local ASR models"@,
        ),
        (LocalAsrOp::StartDownload, LocalAsrRuntime::Foundry) => Some(
            "Foundry downloads models during prepare"@,
        ),
        (LocalAsrOp::CancelDownload, LocalAsrRuntime::Foundry) => Some(
            "Foundry downloads are cancelled through prepare cancellation"@,
        ),
        (LocalAsrOp::Prepare, LocalAsrRuntime::Generic) => Some(
            "generic local ASR uses preload rather than explicit prepare"@,
        ),
        (LocalAsrOp::CancelPrepare, LocalAsrRuntime::Generic) => Some(
            "generic local ASR preload has no separate prepare cancellation"@,
        ),
        (LocalAsrOp::Preload, LocalAsrRuntime::Foundry) => Some(
            "Foundry and Sherpa require an explicit model for prepare"@,
        ),
        (LocalAsrOp::Preload, LocalAsrRuntime::SherpaOnnx) => Some(
            "Foundry and Sherpa require an explicit model for prepare"@,
        ),
        (LocalAsrOp::TestModel, LocalAsrRuntime::Foundry) => Some(
            "native model smoke test is only available for generic local ASR"@,
        ),
        (LocalAsrOp::TestModel, LocalAsrRuntime::SherpaOnnx) => Some(
            "native model smoke test is only available for generic local ASR"@,
        ),
        _ => None,
    }
}

/// Whether a runtime does what is asked.
pub fn check_supported(op: LocalAsrOp, runtime: LocalAsrRuntime) -> (r: Result<(), BackendError>)
    ensures
        match r {
            Ok(()) => unsupported(op, runtime) is None,
            Err(e) => unsupported(op, runtime) is Some && e.is(
                BackendErrorCode::Unsupported,
                unsupported(op, runtime)->0,
            ),
        },
{
    let why: &'static str = match (op, runtime) {
        (LocalAsrOp::RemoteInfo, LocalAsrRuntime::Foundry) =>
            "Foundry manages its model catalog through the native runtime",
        (LocalAsrOp::ModelCard, LocalAsrRuntime::Foundry) =>
            "model cards are only available for generic local ASR models",
        (LocalAsrOp::ModelCard, LocalAsrRuntime::SherpaOnnx) =>
            "model cards are only available for generic local ASR models",
        (LocalAsrOp::StartDownload, LocalAsrRuntime::Foundry) =>
            "Foundry downloads models during prepare",
        (LocalAsrOp::CancelDownload, LocalAsrRuntime::Foundry) =>
            "Foundry downloads are cancelled through prepare cancellation",
        (LocalAsrOp::Prepare, LocalAsrRuntime::Generic) =>
            "generic local ASR uses preload rather than explicit prepare",
        (LocalAsrOp::CancelPrepare, LocalAsrRuntime::Generic) =>
            "generic local ASR preload has no separate prepare cancellation",
        (LocalAsrOp::Preload, LocalAsrRuntime::Foundry) =>
            "Foundry and Sherpa require an explicit model for prepare",
        (LocalAsrOp::Preload, LocalAsrRuntime::SherpaOnnx) =>
            "Foundry and Sherpa require an explicit model for prepare",
        (LocalAsrOp::TestModel, LocalAsrRuntime::Foundry) =>
            "native model smoke test is only available for generic local ASR",
        (LocalAsrOp::TestModel, LocalAsrRuntime::SherpaOnnx) =>
            "native model smoke test is only available for generic local ASR",
        _ => return Ok(()),
    };
    Err(BackendError::new(BackendErrorCode::Unsupported, why))
}

/// The request names a model of the generic catalogue by its id, and can only
/// be served if the catalogue has it.
pub open spec fn names_generic_model(op: LocalAsrOp) -> bool {
    op != LocalAsrOp::CancelPrepare && op != LocalAsrOp::Release && op != LocalAsrOp::Preload
        && op != LocalAsrOp::Prepare
}

/// Whether a request can be passed on to a runtime. `known` says whether the
/// generic catalogue has the model.
pub fn route_request(op: LocalAsrOp, runtime: LocalAsrRuntime, model_id: &str, known: bool) -> (r:
    Result<(), BackendError>)
    ensures
        match unsupported(op, runtime) {
            Some(why) => r matches Err(e) && e.is(BackendErrorCode::Unsupported, why),
            None => if runtime == LocalAsrRuntime::Generic && names_generic_model(op) && !known {
                r matches Err(e) && e.is(
                    BackendErrorCode::InvalidArgument,
                    "unknown generic local ASR model: "@ + model_id@,
                )
            } else {
                r is Ok
            },
        },
{
    if let Err(e) = check_supported(op, runtime) {
        return Err(e);
    }
    let by_id: bool = match op {
        LocalAsrOp::CancelPrepare
        | LocalAsrOp::Release
        | LocalAsrOp::Preload
        | LocalAsrOp::Prepare => false,
        _ => true,
    };
    if runtime == LocalAsrRuntime::Generic && by_id && !known {
        return Err(
            BackendError::detailed(
                BackendErrorCode::InvalidArgument,
                "unknown generic local ASR model: ",
                model_id,
            ),
        );
    }
    Ok(())
}

/// Every runtime can be released, deleted from and located; each other
/// request is refused by at least one runtime, and none by all of them.
pub proof fn law_every_request_has_a_runtime(op: LocalAsrOp)
    ensures
        exists|runtime: LocalAsrRuntime| #[trigger] unsupported(op, runtime) is None,
        (op == LocalAsrOp::Release || op == LocalAsrOp::DeleteModel || op == LocalAsrOp::ModelDir)
            <==> forall|runtime: LocalAsrRuntime| #[trigger] unsupported(op, runtime) is None,
{
    assert(unsupported(op, LocalAsrRuntime::Generic) is None || unsupported(
        op,
        LocalAsrRuntime::SherpaOnnx,
    ) is None);
    assert(unsupported(op, LocalAsrRuntime::Foundry) is None || unsupported(
        op,
        LocalAsrRuntime::Foundry,
    ) is Some);
}

/// A line of the model list.
#[derive(Debug)]
pub struct LocalAsrModel {
    pub runtime: LocalAsrRuntime,
    pub model_id: String,
    pub display_name: String,
    pub family: String,
    pub mode: String,
    pub repository: Option<String>,
    pub languages: Vec<String>,
    pub installed: bool,
    pub downloaded_bytes: u64,
    pub size_bytes: Option<u64>,
}

/// A model of the generic catalogue.
#[derive(Debug)]
pub struct GenericModelStatus {
    pub id: String,
    pub is_whisper: bool,
    pub repository: String,
    pub is_downloaded: bool,
    pub downloaded_bytes: u64,
}

/// A model of the Foundry catalogue.
#[derive(Debug)]
pub struct FoundryCatalogModel {
    pub alias: String,
    pub display_name: String,
    pub cached: bool,
    pub file_size_mb: Option<u64>,
}

/// A model of the sherpa-onnx catalogue.
#[derive(Debug)]
pub struct SherpaCatalogModel {
    pub alias: String,
    pub display_name: String,
    pub family: SherpaFamily,
    pub mode: SherpaMode,
    pub languages: Vec<String>,
    pub repository: Option<String>,
    pub cached: bool,
    pub downloaded_bytes: u64,
    pub file_size_mb: Option<u64>,
}

/// Megabytes in bytes.
pub open spec fn mb_in_bytes(mb: Option<u64>) -> Option<int> {
    match mb {
        Some(n) => Some(n * 1048576),
        None => None,
    }
}

/// The size in bytes fits in the list.
pub open spec fn size_fits(mb: Option<u64>) -> bool {
    match mb {
        Some(n) => n * 1048576 <= u64::MAX,
        None => true,
    }
}

fn size_in_bytes(mb: Option<u64>) -> (r: Option<u64>)
    requires
        size_fits(mb),
    ensures
        match r {
            Some(b) => mb_in_bytes(mb) == Some(b as int),
            None => mb is None,
        },
{
    match mb {
        Some(n) => Some(n * 1048576),
        None => None,
    }
}

/// `row` lists the model `m` of the generic catalogue.
pub open spec fn lists_generic(row: LocalAsrModel, m: GenericModelStatus) -> bool {
    &&& row.runtime == LocalAsrRuntime::Generic
    &&& row.model_id@ == m.id@
    &&& row.display_name@ == m.id@
    &&& row.family@ == (if m.is_whisper {
        "whisper"@
    } else {
        "qwen3"@
    })
    &&& row.mode@ == "offline"@
    &&& row.repository is Some && row.repository->0@ == m.repository@
    &&& row.languages@.len() == 0
    &&& row.installed == m.is_downloaded
    &&& row.downloaded_bytes == m.downloaded_bytes
    &&& row.size_bytes is None
}

/// The model list of the generic runtime.
pub fn list_generic_models(models: &Vec<GenericModelStatus>) -> (r: Vec<LocalAsrModel>)
    ensures
        r@.len() == models@.len(),
        forall|i: int| 0 <= i < r@.len() ==> lists_generic(#[trigger] r@[i], models@[i]),
{
    let mut out: Vec<LocalAsrModel> = Vec::new();
    let mut i: usize = 0;
    while i < models.len()
        invariant
            i <= models.len(),
            out@.len() == i,
            forall|k: int| 0 <= k < i ==> lists_generic(#[trigger] out@[k], models@[k]),
        decreases models.len() - i,
    {
        let m: &GenericModelStatus = &models[i];
        let row: LocalAsrModel = LocalAsrModel {
            runtime: LocalAsrRuntime::Generic,
            model_id: m.id.clone(),
            display_name: m.id.clone(),
            family: if m.is_whisper {
                "whisper".to_owned()
            } else {
                "qwen3".to_owned()
            },
            mode: "offline".to_owned(),
            repository: Some(m.repository.clone()),
            languages: Vec::new(),
            installed: m.is_downloaded,
            downloaded_bytes: m.downloaded_bytes,
            size_bytes: None,
        };
        out.push(row);
        i = i + 1;
    }
    out
}

/// `row` lists the model `m` of the Foundry catalogue.
pub open spec fn lists_foundry(row: LocalAsrModel, m: FoundryCatalogModel) -> bool {
    &&& row.runtime == LocalAsrRuntime::Foundry
    &&& row.model_id@ == m.alias@
    &&& row.display_name@ == m.display_name@
    &&& row.family@ == "whisper"@
    &&& row.mode@ == "offline"@
    &&& row.repository is None
    &&& row.languages@.len() == 0
    &&& row.installed == m.cached
    &&& row.downloaded_bytes == 0
    &&& row.size_bytes is Some <==> m.file_size_mb is Some
    &&& row.size_bytes is Some ==> mb_in_bytes(m.file_size_mb) == Some(row.size_bytes->0 as int)
}

/// The model list of the Foundry runtime.
pub fn list_foundry_models(models: &Vec<FoundryCatalogModel>) -> (r: Vec<LocalAsrModel>)
    requires
        forall|i: int| 0 <= i < models@.len() ==> size_fits((#[trigger] models@[i]).file_size_mb),
    ensures
        r@.len() == models@.len(),
        forall|i: int| 0 <= i < r@.len() ==> lists_foundry(#[trigger] r@[i], models@[i]),
{
    let mut out: Vec<LocalAsrModel> = Vec::new();
    let mut i: usize = 0;
    while i < models.len()
        invariant
            i <= models.len(),
            out@.len() == i,
            forall|k: int|
                0 <= k < models@.len() ==> size_fits((#[trigger] models@[k]).file_size_mb),
            forall|k: int| 0 <= k < i ==> lists_foundry(#[trigger] out@[k], models@[k]),
        decreases models.len() - i,
    {
        let m: &FoundryCatalogModel = &models[i];
        let row: LocalAsrModel = LocalAsrModel {
            runtime: LocalAsrRuntime::Foundry,
            model_id: m.alias.clone(),
            display_name: m.display_name.clone(),
            family: "whisper".to_owned(),
            mode: "offline".to_owned(),
            repository: None,
            languages: Vec::new(),
            installed: m.cached,
            downloaded_bytes: 0,
            size_bytes: size_in_bytes(m.file_size_mb),
        };
        out.push(row);
        i = i + 1;
    }
    out
}

/// The name of a sherpa-onnx family in the list.
pub open spec fn family_name(f: SherpaFamily) -> Seq<char> {
    match f {
        SherpaFamily::SenseVoice => "sense_voice"@,
        SherpaFamily::Paraformer => "paraformer"@,
        SherpaFamily::Whisper => "whisper"@,
        SherpaFamily::Qwen3Asr => "qwen3_asr"@,
        SherpaFamily::Zipformer => "zipformer"@,
    }
}

/// The name of a sherpa-onnx mode in the list.
pub open spec fn mode_name(m: SherpaMode) -> Seq<char> {
    match m {
        SherpaMode::Offline => "offline"@,
        SherpaMode::Online => "online"@,
    }
}

/// `row` lists the model `m` of the sherpa-onnx catalogue.
pub open spec fn lists_sherpa(row: LocalAsrModel, m: SherpaCatalogModel) -> bool {
    &&& row.runtime == LocalAsrRuntime::SherpaOnnx
    &&& row.model_id@ == m.alias@
    &&& row.display_name@ == m.display_name@
    &&& row.family@ == family_name(m.family)
    &&& row.mode@ == mode_name(m.mode)
    &&& opt_text(row.repository) == opt_text(m.repository)
    &&& row.languages@ == m.languages@
    &&& row.installed == m.cached
    &&& row.downloaded_bytes == m.downloaded_bytes
    &&& row.size_bytes is Some <==> m.file_size_mb is Some
    &&& row.size_bytes is Some ==> mb_in_bytes(m.file_size_mb) == Some(row.size_bytes->0 as int)
}

fn clone_texts(v: &Vec<String>) -> (r: Vec<String>)
    ensures
        r@ == v@,
{
    let mut out: Vec<String> = Vec::new();
    let mut i: usize = 0;
    while i < v.len()
        invariant
            i <= v.len(),
            out@ == v@.take(i as int),
        decreases v.len() - i,
    {
        out.push(v[i].clone());
        proof {
            assert(v@.take(i + 1) =~= v@.take(i as int).push(v@[i as int]));
        }
        i = i + 1;
    }
    proof {
        assert(v@.take(v@.len() as int) =~= v@);
    }
    out
}

fn sherpa_row(m: &SherpaCatalogModel) -> (row: LocalAsrModel)
    requires
        size_fits(m.file_size_mb),
    ensures
        lists_sherpa(row, *m),
{
    LocalAsrModel {
        runtime: LocalAsrRuntime::SherpaOnnx,
        model_id: m.alias.clone(),
        display_name: m.display_name.clone(),
        family: match m.family {
            SherpaFamily::SenseVoice => "sense_voice".to_owned(),
            SherpaFamily::Paraformer => "paraformer".to_owned(),
            SherpaFamily::Whisper => "whisper".to_owned(),
            SherpaFamily::Qwen3Asr => "qwen3_asr".to_owned(),
            SherpaFamily::Zipformer => "zipformer".to_owned(),
        },
        mode: match m.mode {
            SherpaMode::Offline => "offline".to_owned(),
            SherpaMode::Online => "online".to_owned(),
        },
        repository: match &m.repository {
            Some(s) => Some(s.clone()),
            None => None,
        },
        languages: clone_texts(&m.languages),
        installed: m.cached,
        downloaded_bytes: m.downloaded_bytes,
        size_bytes: size_in_bytes(m.file_size_mb),
    }
}

/// The model list of the sherpa-onnx runtime.
pub fn list_sherpa_models(models: &Vec<SherpaCatalogModel>) -> (r: Vec<LocalAsrModel>)
    requires
        forall|i: int| 0 <= i < models@.len() ==> size_fits((#[trigger] models@[i]).file_size_mb),
    ensures
        r@.len() == models@.len(),
        forall|i: int| 0 <= i < r@.len() ==> lists_sherpa(#[trigger] r@[i], models@[i]),
{
    let mut out: Vec<LocalAsrModel> = Vec::new();
    let mut i: usize = 0;
    while i < models.len()
        invariant
            i <= models.len(),
            out@.len() == i,
            forall|k: int|
                0 <= k < models@.len() ==> size_fits((#[trigger] models@[k]).file_size_mb),
            forall|k: int| 0 <= k < i ==> lists_sherpa(#[trigger] out@[k], models@[k]),
        decreases models.len() - i,
    {
        out.push(sherpa_row(&models[i]));
        i = i + 1;
    }
    out
}

/// What is set for a runtime.
#[derive(Debug)]
pub struct LocalAsrSettings {
    pub runtime: LocalAsrRuntime,
    pub provider_id: String,
    pub engine_available: bool,
    pub active_model: String,
    pub keep_loaded_secs: u32,
    /// Where the Foundry runtime comes from, where that was chosen.
    pub runtime_source: Option<String>,
}

/// Whom to ask for the state of a runtime, and about what.
#[derive(Debug)]
pub enum StatusCall {
    /// The caches of the generic runtime.
    Caches,
    Foundry { model: String, source: String },
    Sherpa { model: String },
}

/// Whom to ask for the state of a runtime. A source that was not chosen means
/// automatic.
pub fn runtime_status(settings: &LocalAsrSettings) -> (r: StatusCall)
    ensures
        match settings.runtime {
            LocalAsrRuntime::Generic => r is Caches,
            LocalAsrRuntime::Foundry => {
                &&& r is Foundry
                &&& r->Foundry_model@ == settings.active_model@
                &&& r->source@ == (match settings.runtime_source {
                    Some(source) => source@,
                    None => "auto"@,
                })
            },
            LocalAsrRuntime::SherpaOnnx => r is Sherpa && r->Sherpa_model@
                == settings.active_model@,
        },
{
    match settings.runtime {
        LocalAsrRuntime::Generic => StatusCall::Caches,
        LocalAsrRuntime::Foundry => StatusCall::Foundry {
            model: settings.active_model.clone(),
            source: match &settings.runtime_source {
                Some(source) => source.clone(),
                None => "auto".to_owned(),
            },
        },
        LocalAsrRuntime::SherpaOnnx => StatusCall::Sherpa { model: settings.active_model.clone() },
    }
}

/// The state of a runtime.
#[derive(Debug)]
pub struct LocalAsrRuntimeStatus {
    pub runtime: LocalAsrRuntime,
    pub provider_id: String,
    pub available: bool,
    pub loaded: bool,
    pub active_model: String,
    pub model_id: Option<String>,
    pub keep_loaded_secs: u32,
    pub runtime_source: Option<String>,
    pub endpoint: Option<String>,
    pub error: Option<String>,
    pub last_error: Option<String>,
    pub last_prepare_ms: Option<u64>,
    pub last_transcribe_ms: Option<u64>,
    pub last_audio_ms: Option<u64>,
}

/// What the Foundry runtime says of itself.
#[derive(Debug)]
pub struct FoundryStatus {
    pub provider_id: String,
    pub available: bool,
    pub runtime_ready: bool,
    pub active_model: String,
    pub loaded_model_id: Option<String>,
    pub runtime_source: String,
    pub endpoint: Option<String>,
    pub error: Option<String>,
}

/// The model that the generic runtime has loaded. Only macOS has a second
/// cache, which counts where the first one is empty.
pub open spec fn generic_loaded(
    platform: Platform,
    qwen: Option<String>,
    whisper: Option<String>,
) -> Option<String> {
    match platform {
        Platform::Windows => None,
        Platform::Linux => qwen,
        Platform::MacOs => if qwen is Some {
            qwen
        } else {
            whisper
        },
    }
}

/// The state of the generic runtime.
pub fn generic_runtime_status(
    settings: LocalAsrSettings,
    platform: Platform,
    qwen_loaded: Option<String>,
    whisper_loaded: Option<String>,
) -> (r: LocalAsrRuntimeStatus)
    ensures
        r.runtime == settings.runtime,
        r.provider_id == settings.provider_id,
        r.available == settings.engine_available,
        r.model_id == generic_loaded(platform, qwen_loaded, whisper_loaded),
        r.loaded == (r.model_id is Some),
        r.active_model == settings.active_model,
        r.keep_loaded_secs == settings.keep_loaded_secs,
        r.runtime_source is None,
        r.endpoint is None,
        r.error is None,
        r.last_error is None,
        r.last_prepare_ms is None,
        r.last_transcribe_ms is None,
        r.last_audio_ms is None,
{
    let model_id: Option<String> = match platform {
        Platform::Windows => None,
        Platform::Linux => qwen_loaded,
        Platform::MacOs => match qwen_loaded {
            Some(m) => Some(m),
            None => whisper_loaded,
        },
    };
    LocalAsrRuntimeStatus {
        runtime: settings.runtime,
        provider_id: settings.provider_id,
        available: settings.engine_available,
        loaded: model_id.is_some(),
        active_model: settings.active_model,
        model_id,
        keep_loaded_secs: settings.keep_loaded_secs,
        runtime_source: None,
        endpoint: None,
        error: None,
        last_error: None,
        last_prepare_ms: None,
        last_transcribe_ms: None,
        last_audio_ms: None,
    }
}

/// A runtime source that is not one of the two known ones means automatic.
pub open spec fn normal_source(value: Seq<char>) -> Seq<char> {
    if trimmed(value) == "nuget"@ || trimmed(value) == "ort-nightly"@ {
        trimmed(value)
    } else {
        "auto"@
    }
}

pub fn normalize_runtime_source_str(value: &str) -> (r: String)
    ensures
        r@ == normal_source(value@),
{
    let t: String = trim(value);
    if str_eq(t.as_str(), "nuget") || str_eq(t.as_str(), "ort-nightly") {
        t
    } else {
        "auto".to_owned()
    }
}

/// The state of the Foundry runtime.
pub fn foundry_runtime_status(settings: LocalAsrSettings, status: FoundryStatus) -> (r:
    LocalAsrRuntimeStatus)
    ensures
        r.runtime == settings.runtime,
        r.provider_id == status.provider_id,
        r.available == status.available,
        r.loaded == status.runtime_ready,
        r.active_model == status.active_model,
        r.model_id == status.loaded_model_id,
        r.keep_loaded_secs == settings.keep_loaded_secs,
        opt_text(r.runtime_source) == Some(normal_source(status.runtime_source@)),
        r.endpoint == status.endpoint,
        r.error == status.error,
        r.last_error is None,
        r.last_prepare_ms is None,
        r.last_transcribe_ms is None,
        r.last_audio_ms is None,
{
    LocalAsrRuntimeStatus {
        runtime: settings.runtime,
        provider_id: status.provider_id,
        available: status.available,
        loaded: status.runtime_ready,
        active_model: status.active_model,
        model_id: status.loaded_model_id,
        keep_loaded_secs: settings.keep_loaded_secs,
        runtime_source: Some(normalize_runtime_source_str(status.runtime_source.as_str())),
        endpoint: status.endpoint,
        error: status.error,
        last_error: None,
        last_prepare_ms: None,
        last_transcribe_ms: None,
        last_audio_ms: None,
    }
}

/// The state of the sherpa-onnx runtime.
pub fn sherpa_runtime_status(settings: LocalAsrSettings, status: SherpaRuntimeStatus) -> (r:
    LocalAsrRuntimeStatus)
    ensures
        r.runtime == settings.runtime,
        r.provider_id == status.provider_id,
        r.available == status.available,
        r.loaded == status.runtime_ready,
        r.active_model == status.active_model,
        r.model_id == status.loaded_model_id,
        r.keep_loaded_secs == settings.keep_loaded_secs,
        r.runtime_source is None,
        r.endpoint is None,
        r.error == status.error,
        r.last_error == status.last_error,
        r.last_prepare_ms == status.last_prepare_ms,
        r.last_transcribe_ms == status.last_transcribe_ms,
        r.last_audio_ms == status.last_audio_ms,
{
    LocalAsrRuntimeStatus {
        runtime: settings.runtime,
        provider_id: status.provider_id,
        available: status.available,
        loaded: status.runtime_ready,
        active_model: status.active_model,
        model_id: status.loaded_model_id,
        keep_loaded_secs: settings.keep_loaded_secs,
        runtime_source: None,
        endpoint: None,
        error: status.error,
        last_error: status.last_error,
        last_prepare_ms: status.last_prepare_ms,
        last_transcribe_ms: status.last_transcribe_ms,
        last_audio_ms: status.last_audio_ms,
    }
}

/// Progress of a model's preparation, as it is published.
#[derive(Debug)]
pub struct LocalAsrPrepareProgress {
    pub runtime: LocalAsrRuntime,
    pub phase: SherpaPreparePhase,
    pub model_alias: String,
    pub label: String,
    pub percent_hundredths: Option<u32>,
    pub error: Option<String>,
}

/// The progress that a runtime publishes while it prepares a model. The
/// generic runtime prepares nothing.
pub fn prepare_progress(runtime: LocalAsrRuntime, payload: SherpaPrepareProgressPayload) -> (r: Result<
    LocalAsrPrepareProgress,
    BackendError,
>)
    ensures
        match unsupported(LocalAsrOp::Prepare, runtime) {
            Some(why) => r matches Err(e) && e.is(BackendErrorCode::Unsupported, why),
            None => r == Ok::<LocalAsrPrepareProgress, BackendError>(
                LocalAsrPrepareProgress {
                    runtime,
                    phase: payload.phase,
                    model_alias: payload.model_alias,
                    label: payload.label,
                    percent_hundredths: payload.percent_hundredths,
                    error: payload.error,
                },
            ),
        },
{
    match check_supported(LocalAsrOp::Prepare, runtime) {
        Err(e) => Err(e),
        Ok(()) => Ok(
            LocalAsrPrepareProgress {
                runtime,
                phase: payload.phase,
                model_alias: payload.model_alias,
                label: payload.label,
                percent_hundredths: payload.percent_hundredths,
                error: payload.error,
            },
        ),
    }
}

/// What the generic runtime loads ahead of use.
#[derive(Debug)]
pub enum PreloadPlan {
    Nothing,
    Qwen(String),
    Whisper(String),
}

/// What is set for the generic runtime.
#[derive(Debug)]
pub struct PreloadSettings {
    pub active_provider: String,
    pub qwen_backend_available: bool,
    pub qwen_model: String,
    pub qwen_model_known: bool,
    pub whisper_model: String,
}

/// What the generic runtime loads ahead of use: the model of the active
/// provider, if that is one of its own.
pub fn plan_preload(runtime: LocalAsrRuntime, platform: Platform, s: PreloadSettings) -> (r: Result<
    PreloadPlan,
    BackendError,
>)
    ensures
        match unsupported(LocalAsrOp::Preload, runtime) {
            Some(why) => r matches Err(e) && e.is(BackendErrorCode::Unsupported, why),
            None => if platform == Platform::Windows {
                r == Ok::<PreloadPlan, BackendError>(PreloadPlan::Nothing)
            } else if local_qwen_id(s.active_provider@) {
                if !s.qwen_backend_available {
                    r matches Err(e) && e.is(
                        BackendErrorCode::Unsupported,
                        "Qwen backend is unavailable: "@ + s.active_provider@,
                    )
                } else if !s.qwen_model_known {
                    r matches Err(e) && e.is(
                        BackendErrorCode::InvalidArgument,
                        "local Qwen model is not configured"@,
                    )
                } else {
                    r == Ok::<PreloadPlan, BackendError>(PreloadPlan::Qwen(s.qwen_model))
                }
            } else if platform == Platform::MacOs && s.active_provider@
                == LOCAL_WHISPER_PROVIDER_ID@ {
                r == Ok::<PreloadPlan, BackendError>(PreloadPlan::Whisper(s.whisper_model))
            } else {
                r == Ok::<PreloadPlan, BackendError>(PreloadPlan::Nothing)
            },
        },
{
    if let Err(e) = check_supported(LocalAsrOp::Preload, runtime) {
        return Err(e);
    }
    if platform == Platform::Windows {
        return Ok(PreloadPlan::Nothing);
    }
    let provider: &str = s.active_provider.as_str();
    if str_eq(provider, "local-qwen3") || str_eq(provider, "local-qwen3-mlx") || str_eq(
        provider,
        "local-qwen3-c",
    ) {
        if !s.qwen_backend_available {
            return Err(
                BackendError::detailed(
                    BackendErrorCode::Unsupported,
                    "Qwen backend is unavailable: ",
                    provider,
                ),
            );
        }
        if !s.qwen_model_known {
            return Err(
                BackendError::new(
                    BackendErrorCode::InvalidArgument,
                    "local Qwen model is not configured",
                ),
            );
        }
        return Ok(PreloadPlan::Qwen(s.qwen_model));
    }
    if platform == Platform::MacOs && str_eq(provider, LOCAL_WHISPER_PROVIDER_ID) {
        return Ok(PreloadPlan::Whisper(s.whisper_model));
    }
    Ok(PreloadPlan::Nothing)
}

/// How often the end of the downloads is waited for, 100 ms each time.
pub const RELOCATE_ATTEMPTS: u32 = 50;

/// One thing to do before the model store is moved.
#[derive(Clone, Copy, PartialEq, Eq, Structural, Debug)]
pub enum RelocateEffect {
    CancelQwenDownloads,
    CancelSherpaDownloads,
    CancelFoundryPrepare,
    CancelSherpaPrepare,
    ReleaseQwenCache,
    ReleaseWhisperCache,
    ReleaseFoundry,
    ReleaseSherpa,
}

/// What is stopped and let go before the model store is moved.
pub open spec fn relocate_effects(platform: Platform) -> Seq<RelocateEffect> {
    seq![
        RelocateEffect::CancelQwenDownloads,
        RelocateEffect::CancelSherpaDownloads,
        RelocateEffect::CancelFoundryPrepare,
        RelocateEffect::CancelSherpaPrepare,
    ] + (match platform {
        Platform::Windows => Seq::<RelocateEffect>::empty(),
        Platform::Linux => seq![RelocateEffect::ReleaseQwenCache],
        Platform::MacOs => seq![
            RelocateEffect::ReleaseQwenCache,
            RelocateEffect::ReleaseWhisperCache,
        ],
    }) + seq![RelocateEffect::ReleaseFoundry, RelocateEffect::ReleaseSherpa]
}

/// A move of the model store that has begun.
#[derive(Debug)]
pub struct Relocation {
    pub effects: Vec<RelocateEffect>,
    pub from: String,
    pub to: String,
}

/// Begins to move the model store, once both places are known. A Foundry
/// runtime that is running keeps its place until the program restarts.
pub fn relocate_storage(
    platform: Platform,
    old_root: Result<String, String>,
    new_root: Result<String, String>,
    same_root: bool,
    foundry_locked: bool,
) -> (r: Result<Relocation, BackendError>)
    ensures
        match (old_root, new_root) {
            (Err(why), _) => r matches Err(e) && e.is(BackendErrorCode::Platform, why@),
            (Ok(_), Err(why)) => r matches Err(e) && e.is(BackendErrorCode::Platform, why@),
            (Ok(from), Ok(to)) => if !same_root && foundry_locked {
                r matches Err(e) && e.is(
                    BackendErrorCode::Busy,
                    "Foundry Local has already been initialized; restart OpenLess before changing model storage"@,
                )
            } else {
                &&& r matches Ok(plan)
                &&& plan.effects@ == relocate_effects(platform)
                &&& plan.from == from
                &&& plan.to == to
            },
        },
{
    let from: String = match old_root {
        Ok(root) => root,
        Err(why) => return Err(BackendError::new(BackendErrorCode::Platform, why.as_str())),
    };
    let to: String = match new_root {
        Ok(root) => root,
        Err(why) => return Err(BackendError::new(BackendErrorCode::Platform, why.as_str())),
    };
    if !same_root && foundry_locked {
        return Err(
            BackendError::new(
                BackendErrorCode::Busy,
                "Foundry Local has already been initialized; restart OpenLess before changing model storage",
            ),
        );
    }
    let mut effects: Vec<RelocateEffect> = vec![
        RelocateEffect::CancelQwenDownloads,
        RelocateEffect::CancelSherpaDownloads,
        RelocateEffect::CancelFoundryPrepare,
        RelocateEffect::CancelSherpaPrepare,
    ];
    match platform {
        Platform::Windows => {},
        Platform::Linux => {
            effects.push(RelocateEffect::ReleaseQwenCache);
        },
        Platform::MacOs => {
            effects.push(RelocateEffect::ReleaseQwenCache);
            effects.push(RelocateEffect::ReleaseWhisperCache);
        },
    }
    effects.push(RelocateEffect::ReleaseFoundry);
    effects.push(RelocateEffect::ReleaseSherpa);
    proof {
        assert(effects@ =~= relocate_effects(platform));
    }
    Ok(Relocation { effects, from, to })
}

/// What follows a look at the downloads.
#[derive(Debug)]
pub enum RelocateNext {
    Migrate { from: String, to: String },
    /// Look again after 100 ms.
    Wait { attempts_left: u32 },
    Failed(BackendError),
}

/// Looks at the downloads once more. With `attempts_left` looks left, this one
/// included, the store is moved as soon as none is running.
pub fn relocate_poll(plan: &Relocation, attempts_left: u32, downloads_active: bool) -> (r:
    RelocateNext)
    ensures
        match r {
            RelocateNext::Migrate { from, to } => attempts_left > 0 && !downloads_active && from@
                == plan.from@ && to@ == plan.to@,
            RelocateNext::Wait { attempts_left: n } => attempts_left > 1 && downloads_active && n
                == attempts_left - 1,
            RelocateNext::Failed(e) => (attempts_left == 0 || (attempts_left == 1
                && downloads_active)) && e.is(
                BackendErrorCode::Busy,
                "local ASR downloads are still stopping; retry after cancellation finishes"@,
            ),
        },
{
    if attempts_left > 0 && !downloads_active {
        return RelocateNext::Migrate { from: plan.from.clone(), to: plan.to.clone() };
    }
    if attempts_left > 1 {
        return RelocateNext::Wait { attempts_left: attempts_left - 1 };
    }
    RelocateNext::Failed(
        BackendError::new(
            BackendErrorCode::Busy,
            "local ASR downloads are still stopping; retry after cancellation finishes",
        ),
    )
}

/// Where the model store is.
#[derive(Debug)]
pub struct LocalAsrStorageSettings {
    pub models_base_dir: Option<String>,
    pub models_root_dir: String,
    pub is_default: bool,
}

/// Where the model store is, for the directory the user chose.
pub fn local_asr_storage_snapshot(base_dir: Option<String>, root: Result<String, String>) -> (r: Result<
    LocalAsrStorageSettings,
    BackendError,
>)
    ensures
        match (root, r) {
            (Ok(root), Ok(s)) => s.models_base_dir == base_dir && s.models_root_dir == root
                && s.is_default == (base_dir is None),
            (Err(why), Err(e)) => e.is(BackendErrorCode::Platform, why@),
            _ => false,
        },
{
    match root {
        Err(why) => Err(BackendError::new(BackendErrorCode::Platform, why.as_str())),
        Ok(root) => Ok(
            LocalAsrStorageSettings {
                is_default: base_dir.is_none(),
                models_base_dir: base_dir,
                models_root_dir: root,
            },
        ),
    }
}

/// The generic runtime is everywhere but on Windows, and the two others are there
/// alone.
pub proof fn law_where_runtimes_exist(runtime: LocalAsrRuntime, platform: Platform, r: bool)
    requires
        call_ensures(engine_available, (runtime, platform), r),
    ensures
        runtime == LocalAsrRuntime::Generic ==> (r <==> platform != Platform::Windows),
        runtime == LocalAsrRuntime::Foundry || runtime == LocalAsrRuntime::SherpaOnnx ==> (r
            <==> platform == Platform::Windows),
{
}

/// A mirror is asked where it was chosen, and the main site otherwise.
pub proof fn law_chosen_mirror_is_asked(mirror: LocalAsrMirror, r: Mirror)
    requires
        call_ensures(native_local_asr_mirror, (mirror,), r),
    ensures
        r == Mirror::HfMirror <==> mirror == LocalAsrMirror::HfMirror,
        r == Mirror::Huggingface <==> mirror == LocalAsrMirror::Huggingface || mirror
            == LocalAsrMirror::GithubRelease,
{
}

/// The provider types that a platform enters are those that its recognisers serve.
pub proof fn law_entered_types_are_served(
    platform: Platform,
    provider: &str,
    kind: Option<crate::native_asr::NativeKind>,
    r: Vec<&'static str>,
)
    requires
        call_ensures(native_provider_types, (platform,), r),
        call_ensures(crate::native_asr::native_kind_of, (platform, provider), kind),
    ensures
        (exists|i: int| 0 <= i < r@.len() && (#[trigger] r@[i])@ == provider@) <==> kind is Some,
        platform == Platform::Linux ==> r@.len() == 3,
        platform != Platform::Linux ==> r@.len() == 5,
{
    assert(lists(r@, provider@) <==> kind is Some);
}

/// Which runtime refuses what: Foundry has no catalogue, cards, downloads, preloading
/// or trials of its own here; sherpa-onnx has no cards, preloading or trials; the
/// generic runtime is not prepared. Everything else is done.
pub proof fn law_which_runtime_refuses_what(
    op: LocalAsrOp,
    runtime: LocalAsrRuntime,
    r: Result<(), BackendError>,
)
    requires
        call_ensures(check_supported, (op, runtime), r),
    ensures
        runtime == LocalAsrRuntime::Generic ==> (r is Err <==> op == LocalAsrOp::Prepare || op
            == LocalAsrOp::CancelPrepare),
        runtime == LocalAsrRuntime::SherpaOnnx ==> (r is Err <==> op == LocalAsrOp::ModelCard || op
            == LocalAsrOp::Preload || op == LocalAsrOp::TestModel),
        runtime == LocalAsrRuntime::Foundry ==> (r is Ok <==> op == LocalAsrOp::Prepare || op
            == LocalAsrOp::CancelPrepare || op == LocalAsrOp::Release || op
            == LocalAsrOp::DeleteModel || op == LocalAsrOp::ModelDir),
        r matches Err(e) ==> e.code == BackendErrorCode::Unsupported,
{
}

/// A request that a runtime serves is passed on, unless it names a model that the
/// generic catalogue does not have.
pub proof fn law_unknown_generic_model_is_refused(
    op: LocalAsrOp,
    runtime: LocalAsrRuntime,
    id: &str,
    known: bool,
    supported: Result<(), BackendError>,
    r: Result<(), BackendError>,
)
    requires
        call_ensures(check_supported, (op, runtime), supported),
        call_ensures(route_request, (op, runtime, id, known), r),
    ensures
        r is Ok ==> supported is Ok,
        supported is Err ==> r->Err_0.code == BackendErrorCode::Unsupported && r->Err_0.message@
            == supported->Err_0.message@,
        supported is Ok && known ==> r is Ok,
        supported is Ok && runtime != LocalAsrRuntime::Generic ==> r is Ok,
        supported is Ok && !known && runtime == LocalAsrRuntime::Generic ==> (r is Ok <==> op
            == LocalAsrOp::Release || op == LocalAsrOp::Preload),
        supported is Ok && r is Err ==> r->Err_0.code == BackendErrorCode::InvalidArgument,
{
}

/// Every model of a catalogue is listed, in its place, under its own name, with
/// whether it is there and how large it is.
pub proof fn law_every_model_is_listed(
    generic: &Vec<GenericModelStatus>,
    foundry: &Vec<FoundryCatalogModel>,
    sherpa: &Vec<SherpaCatalogModel>,
    of_generic: Vec<LocalAsrModel>,
    of_foundry: Vec<LocalAsrModel>,
    of_sherpa: Vec<LocalAsrModel>,
    k: int,
)
    requires
        call_ensures(list_generic_models, (generic,), of_generic),
        call_ensures(list_foundry_models, (foundry,), of_foundry),
        call_ensures(list_sherpa_models, (sherpa,), of_sherpa),
    ensures
        of_generic@.len() == generic@.len(),
        of_foundry@.len() == foundry@.len(),
        of_sherpa@.len() == sherpa@.len(),
        0 <= k < generic@.len() ==> {
            let row = of_generic@[k];
            let m = generic@[k];
            &&& row.runtime == LocalAsrRuntime::Generic
            &&& row.model_id@ == m.id@ && row.display_name@ == m.id@
            &&& row.family@ == "whisper"@ <==> m.is_whisper
            &&& row.installed == m.is_downloaded
            &&& row.downloaded_bytes == m.downloaded_bytes
            &&& row.repository is Some && row.repository->0@ == m.repository@
        },
        0 <= k < foundry@.len() ==> {
            let row = of_foundry@[k];
            let m = foundry@[k];
            &&& row.runtime == LocalAsrRuntime::Foundry
            &&& row.model_id@ == m.alias@ && row.display_name@ == m.display_name@
            &&& row.installed == m.cached
            &&& row.size_bytes is Some <==> m.file_size_mb is Some
            &&& row.size_bytes is Some ==> row.size_bytes->0 == m.file_size_mb->0 * 1024 * 1024
        },
        0 <= k < sherpa@.len() ==> {
            let row = of_sherpa@[k];
            let m = sherpa@[k];
            &&& row.runtime == LocalAsrRuntime::SherpaOnnx
            &&& row.model_id@ == m.alias@ && row.display_name@ == m.display_name@
            &&& row.installed == m.cached
            &&& row.downloaded_bytes == m.downloaded_bytes
            &&& row.languages@ == m.languages@
            &&& row.mode@ == "online"@ <==> m.mode == SherpaMode::Online
            &&& row.mode@ == "offline"@ <==> m.mode == SherpaMode::Offline
            &&& row.size_bytes is Some <==> m.file_size_mb is Some
            &&& row.size_bytes is Some ==> row.size_bytes->0 == m.file_size_mb->0 * 1024 * 1024
        },
{
    reveal_strlit("whisper");
    reveal_strlit("qwen3");
    reveal_strlit("online");
    reveal_strlit("offline");
    assert("whisper"@.len() == 7 && "qwen3"@.len() == 5);
    assert("online"@.len() == 6 && "offline"@.len() == 7);
    if 0 <= k < generic@.len() {
        assert(lists_generic(of_generic@[k], generic@[k]));
    }
    if 0 <= k < foundry@.len() {
        assert(lists_foundry(of_foundry@[k], foundry@[k]));
    }
    if 0 <= k < sherpa@.len() {
        assert(lists_sherpa(of_sherpa@[k], sherpa@[k]));
    }
}

/// Families of sherpa-onnx models are told apart in the list.
pub proof fn law_families_are_told_apart(
    models: &Vec<SherpaCatalogModel>,
    r: Vec<LocalAsrModel>,
    i: int,
    j: int,
)
    requires
        call_ensures(list_sherpa_models, (models,), r),
        0 <= i < models@.len(),
        0 <= j < models@.len(),
    ensures
        r@[i].family@ == r@[j].family@ <==> models@[i].family == models@[j].family,
{
    reveal_strlit("sense_voice");
    reveal_strlit("paraformer");
    reveal_strlit("whisper");
    reveal_strlit("qwen3_asr");
    reveal_strlit("zipformer");
    assert("sense_voice"@.len() == 11);
    assert("paraformer"@.len() == 10);
    assert("whisper"@.len() == 7);
    assert("qwen3_asr"@.len() == 9 && "qwen3_asr"@[0] == 'q');
    assert("zipformer"@.len() == 9 && "zipformer"@[0] == 'z');
    assert(lists_sherpa(r@[i], models@[i]));
    assert(lists_sherpa(r@[j], models@[j]));
}

/// Each runtime is asked for its own state, and about the model that is set.
pub proof fn law_state_is_asked_of_the_runtime(settings: &LocalAsrSettings, r: StatusCall)
    requires
        call_ensures(runtime_status, (settings,), r),
    ensures
        r is Caches <==> settings.runtime == LocalAsrRuntime::Generic,
        r is Foundry <==> settings.runtime == LocalAsrRuntime::Foundry,
        r is Sherpa <==> settings.runtime == LocalAsrRuntime::SherpaOnnx,
        r is Foundry ==> r->Foundry_model@ == settings.active_model@,
        r is Foundry && settings.runtime_source is Some ==> r->source@ == settings.runtime_source->0@,
        r is Foundry && settings.runtime_source is None ==> r->source@ == "auto"@,
        r is Sherpa ==> r->Sherpa_model@ == settings.active_model@,
{
}

/// The generic runtime counts as loaded exactly if a cache of the platform holds a
/// model: none on Windows, that of Qwen elsewhere, and on macOS also that of
/// Whisper, which counts where the first is empty.
pub proof fn law_loaded_model_is_shown(
    settings: LocalAsrSettings,
    platform: Platform,
    qwen: Option<String>,
    whisper: Option<String>,
    r: LocalAsrRuntimeStatus,
)
    requires
        call_ensures(generic_runtime_status, (settings, platform, qwen, whisper), r),
    ensures
        r.loaded <==> (platform != Platform::Windows && qwen is Some) || (platform
            == Platform::MacOs && whisper is Some),
        r.model_id is Some <==> r.loaded,
        platform != Platform::Windows && qwen is Some ==> r.model_id == qwen,
        platform == Platform::MacOs && qwen is None ==> r.model_id == whisper,
        r.runtime == settings.runtime && r.provider_id == settings.provider_id && r.active_model
            == settings.active_model && r.keep_loaded_secs == settings.keep_loaded_secs
            && r.available == settings.engine_available,
{
}

/// What Foundry and sherpa-onnx say of themselves is what is shown; how long a model
/// is kept is the user's own setting.
pub proof fn law_runtimes_speak_for_themselves(
    settings: LocalAsrSettings,
    f: FoundryStatus,
    s: SherpaRuntimeStatus,
    source: &str,
    normal: String,
    of_f: LocalAsrRuntimeStatus,
    of_s: LocalAsrRuntimeStatus,
)
    requires
        source@ == f.runtime_source@,
        call_ensures(normalize_runtime_source_str, (source,), normal),
        call_ensures(foundry_runtime_status, (settings, f), of_f),
        call_ensures(sherpa_runtime_status, (settings, s), of_s),
    ensures
        of_f.available == f.available && of_f.loaded == f.runtime_ready && of_f.model_id
            == f.loaded_model_id && of_f.active_model == f.active_model && of_f.endpoint
            == f.endpoint && of_f.error == f.error && of_f.provider_id == f.provider_id,
        of_f.keep_loaded_secs == settings.keep_loaded_secs && of_f.runtime == settings.runtime,
        of_f.runtime_source is Some && of_f.runtime_source->0@ == normal@,
        of_s.available == s.available && of_s.loaded == s.runtime_ready && of_s.model_id
            == s.loaded_model_id && of_s.active_model == s.active_model && of_s.error == s.error
            && of_s.provider_id == s.provider_id,
        of_s.keep_loaded_secs == settings.keep_loaded_secs && of_s.runtime == settings.runtime,
        of_s.last_error == s.last_error && of_s.last_prepare_ms == s.last_prepare_ms
            && of_s.last_transcribe_ms == s.last_transcribe_ms && of_s.last_audio_ms
            == s.last_audio_ms,
        of_s.runtime_source is None && of_s.endpoint is None,
{
}

/// A source is one of three: the two known ones, with or without whitespace around
/// them, and anything else means automatic. A normal source stays as it is.
pub proof fn law_runtime_source_is_one_of_three(
    value: &str,
    cut: String,
    again: &str,
    r: String,
    q: String,
)
    requires
        call_ensures(trim, (value,), cut),
        call_ensures(normalize_runtime_source_str, (value,), r),
        again@ == r@,
        call_ensures(normalize_runtime_source_str, (again,), q),
    ensures
        r@ == "nuget"@ || r@ == "ort-nightly"@ || r@ == "auto"@,
        cut@ == "nuget"@ ==> r@ == "nuget"@,
        cut@ == "ort-nightly"@ ==> r@ == "ort-nightly"@,
        cut@ != "nuget"@ && cut@ != "ort-nightly"@ ==> r@ == "auto"@,
        r@ == cut@ || r@ == "auto"@,
        r@ == "auto"@ ==> q@ == "auto"@,
{
    reveal_strlit("auto");
    reveal_strlit("nuget");
    reveal_strlit("ort-nightly");
    assert("auto"@.len() == 4 && "nuget"@.len() == 5 && "ort-nightly"@.len() == 11);
    if r@ == "auto"@ {
        assert(again@.len() == 4 && again@[0] == 'a' && again@[3] == 'o');
        crate::text::lemma_trimmed_fixed(again@);
    }
}

/// Progress is published as the runtime reports it, by the runtimes that prepare.
pub proof fn law_progress_is_published(
    runtime: LocalAsrRuntime,
    payload: SherpaPrepareProgressPayload,
    r: Result<LocalAsrPrepareProgress, BackendError>,
)
    requires
        call_ensures(prepare_progress, (runtime, payload), r),
    ensures
        r is Ok <==> runtime != LocalAsrRuntime::Generic,
        r is Err ==> r->Err_0.code == BackendErrorCode::Unsupported,
        r matches Ok(p) ==> p.runtime == runtime && p.phase == payload.phase && p.model_alias
            == payload.model_alias && p.label == payload.label && p.percent_hundredths
            == payload.percent_hundredths && p.error == payload.error,
{
}

/// What is loaded ahead of use is the model of the active provider: Qwen's where one
/// of its providers is active, Whisper's on macOS where that is, and nothing for any
/// other or on Windows.
pub proof fn law_active_model_is_preloaded(
    runtime: LocalAsrRuntime,
    platform: Platform,
    s: PreloadSettings,
    r: Result<PreloadPlan, BackendError>,
)
    requires
        call_ensures(plan_preload, (runtime, platform, s), r),
    ensures
        ({
            let qwen = s.active_provider@ == "local-qwen3"@ || s.active_provider@
                == "local-qwen3-mlx"@ || s.active_provider@ == "local-qwen3-c"@;
            let here = runtime == LocalAsrRuntime::Generic && platform != Platform::Windows;
            &&& r is Ok && r->Ok_0 is Qwen <==> here && qwen && s.qwen_backend_available
                && s.qwen_model_known
            &&& r is Ok && r->Ok_0 is Qwen ==> r->Ok_0->Qwen_0 == s.qwen_model
            &&& r is Ok && r->Ok_0 is Whisper ==> platform == Platform::MacOs && s.active_provider@
                == "local-whisper"@ && r->Ok_0->Whisper_0 == s.whisper_model
            &&& here && !qwen && platform == Platform::MacOs && s.active_provider@
                == "local-whisper"@ ==> r is Ok && r->Ok_0 is Whisper
            &&& runtime != LocalAsrRuntime::Generic ==> r is Err
            &&& runtime == LocalAsrRuntime::Generic && platform == Platform::Windows ==> r is Ok
                && r->Ok_0 is Nothing
            &&& here && qwen && !s.qwen_backend_available ==> r is Err && r->Err_0.code
                == BackendErrorCode::Unsupported
            &&& here && qwen && s.qwen_backend_available && !s.qwen_model_known ==> r is Err
                && r->Err_0.code == BackendErrorCode::InvalidArgument
            &&& here && !qwen && s.active_provider@ != "local-whisper"@ ==> r is Ok
                && r->Ok_0 is Nothing
        }),
{
}

/// Before the models are moved every download and every preparation is stopped and
/// every model is let go; the move goes from the old place to the new one, and it is
/// refused while Foundry runs at another place.
pub proof fn law_everything_stops_before_a_move(
    platform: Platform,
    from: Result<String, String>,
    to: Result<String, String>,
    same: bool,
    locked: bool,
    r: Result<Relocation, BackendError>,
)
    requires
        call_ensures(relocate_storage, (platform, from, to, same, locked), r),
    ensures
        r is Ok <==> from is Ok && to is Ok && (same || !locked),
        from is Ok && to is Ok && r is Err ==> r->Err_0.code == BackendErrorCode::Busy,
        from is Err ==> r->Err_0.code == BackendErrorCode::Platform && r->Err_0.message@
            == from->Err_0@,
        r matches Ok(plan) ==> {
            &&& plan.from == from->Ok_0
            &&& plan.to == to->Ok_0
            &&& plan.effects@.contains(RelocateEffect::CancelQwenDownloads)
            &&& plan.effects@.contains(RelocateEffect::CancelSherpaDownloads)
            &&& plan.effects@.contains(RelocateEffect::CancelFoundryPrepare)
            &&& plan.effects@.contains(RelocateEffect::CancelSherpaPrepare)
            &&& plan.effects@.contains(RelocateEffect::ReleaseFoundry)
            &&& plan.effects@.contains(RelocateEffect::ReleaseSherpa)
            &&& plan.effects@.contains(RelocateEffect::ReleaseQwenCache) <==> platform
                != Platform::Windows
            &&& plan.effects@.contains(RelocateEffect::ReleaseWhisperCache) <==> platform
                == Platform::MacOs
        },
{
    if r is Ok {
        let e = r->Ok_0.effects@;
        assert(e[0] == RelocateEffect::CancelQwenDownloads);
        assert(e[1] == RelocateEffect::CancelSherpaDownloads);
        assert(e[2] == RelocateEffect::CancelFoundryPrepare);
        assert(e[3] == RelocateEffect::CancelSherpaPrepare);
        assert(e[e.len() - 2] == RelocateEffect::ReleaseFoundry);
        assert(e[e.len() - 1] == RelocateEffect::ReleaseSherpa);
        if platform != Platform::Windows {
            assert(e[4] == RelocateEffect::ReleaseQwenCache);
        }
        if platform == Platform::MacOs {
            assert(e[5] == RelocateEffect::ReleaseWhisperCache);
        }
    }
}

/// The models are moved as soon as nothing is downloaded any more, never before, and
/// the wait for it has an end.
pub proof fn law_move_waits_for_the_downloads(
    plan: &Relocation,
    left: u32,
    active: bool,
    r: RelocateNext,
)
    requires
        call_ensures(relocate_poll, (plan, left, active), r),
    ensures
        r is Migrate <==> left > 0 && !active,
        r is Migrate ==> r->from@ == plan.from@ && r->to@ == plan.to@,
        r is Wait <==> left > 1 && active,
        r is Wait ==> r->attempts_left < left && r->attempts_left + 1 == left,
        r is Failed ==> r->Failed_0.code == BackendErrorCode::Busy,
{
}

/// The place of the models is the usual one exactly if the user chose none.
pub proof fn law_usual_place_of_the_models(
    base: Option<String>,
    root: Result<String, String>,
    r: Result<LocalAsrStorageSettings, BackendError>,
)
    requires
        call_ensures(local_asr_storage_snapshot, (base, root), r),
    ensures
        r is Ok <==> root is Ok,
        r matches Ok(s) ==> (s.is_default <==> base is None) && s.models_base_dir == base
            && s.models_root_dir == root->Ok_0,
        r matches Err(e) ==> e.code == BackendErrorCode::Platform && e.message@ == root->Err_0@,
{
}

} // verus!
