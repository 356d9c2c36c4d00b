//! What the settings page gets for its requests to the local recognisers.

use crate::local_asr::{
    native_local_asr_mirror, route_request, unsupported, LocalAsrMirror, LocalAsrOp,
    LocalAsrRuntime, LocalAsrStorageSettings, Mirror,
};
use crate::text::str_eq;
use crate::types::{opt_text, BackendError, BackendErrorCode, Platform};
use vstd::prelude::*;

verus! {

/// A model of one of the runtimes.
#[derive(Debug)]
pub struct LocalAsrTarget {
    pub runtime: LocalAsrRuntime,
    pub model_id: String,
    /// The generic catalogue has this model.
    pub known: bool,
}

/// `r` is the refusal of a request: the runtime does not serve it, or the
/// generic catalogue does not have the model.
pub open spec fn refuses<T>(
    op: LocalAsrOp,
    target: LocalAsrTarget,
    r: Result<T, BackendError>,
) -> bool {
    match unsupported(op, target.runtime) {
        Some(why) => r matches Err(e) && e.is(BackendErrorCode::Unsupported, why),
        None => r matches Err(e) && e.is(
            BackendErrorCode::InvalidArgument,
            "unknown generic local ASR model: "@ + target.model_id@,
        ),
    }
}

/// The request is passed on to the runtime.
pub open spec fn served(op: LocalAsrOp, target: LocalAsrTarget) -> bool {
    &&& unsupported(op, target.runtime) is None
    &&& target.runtime != LocalAsrRuntime::Generic || target.known
        || !crate::local_asr::names_generic_model(op)
}

/// Whether a request is passed on to the runtime.
pub fn check_request(op: LocalAsrOp, target: &LocalAsrTarget) -> (r: Result<(), BackendError>)
    ensures
        r is Ok == served(op, *target),
        r is Err ==> refuses(op, *target, r),
{
    route_request(op, target.runtime, target.model_id.as_str(), target.known)
}

/// What a runtime answered, with its failure as one of the given class.
pub fn answered<T>(code: BackendErrorCode, reply: Result<T, String>) -> (r: Result<T, BackendError>)
    ensures
        match reply {
            Ok(v) => r == Ok::<T, BackendError>(v),
            Err(m) => r == Err::<T, BackendError>(
                BackendError { code, message: m, retryable: false },
            ),
        },
{
    match reply {
        Ok(v) => Ok(v),
        Err(message) => Err(BackendError { code, message, retryable: false }),
    }
}

/// A file of a model, as its site lists it.
#[derive(Debug)]
pub struct ListedFile {
    pub path: String,
    pub size: u64,
    /// Where sherpa-onnx keeps the file.
    pub local_path: String,
    pub sha256: Option<String>,
}

/// A file of a model, as the settings page shows it.
#[derive(Debug)]
pub struct LocalAsrRemoteFile {
    pub path: String,
    pub local_path: Option<String>,
    pub size_bytes: u64,
    pub sha256: Option<String>,
}

/// The files of a model, as its site lists them.
#[derive(Debug)]
pub struct ListedModel {
    pub mirror: LocalAsrMirror,
    pub files: Vec<ListedFile>,
    pub total_bytes: u64,
}

/// The files of a model, as the settings page shows them.
#[derive(Debug)]
pub struct LocalAsrRemoteInfo {
    pub target: LocalAsrTarget,
    pub mirror: LocalAsrMirror,
    pub files: Vec<LocalAsrRemoteFile>,
    pub total_bytes: u64,
}

/// `shown` is `listed` as a runtime gives it: only sherpa-onnx says where the
/// file is kept and what it hashes to.
pub open spec fn shows_file(runtime: LocalAsrRuntime, listed: ListedFile, shown: LocalAsrRemoteFile) -> bool {
    &&& shown.path == listed.path
    &&& shown.size_bytes == listed.size
    &&& if runtime == LocalAsrRuntime::SherpaOnnx {
        shown.local_path == Some(listed.local_path) && shown.sha256 == listed.sha256
    } else {
        shown.local_path is None && shown.sha256 is None
    }
}

fn shown_file(runtime: LocalAsrRuntime, file: ListedFile) -> (r: LocalAsrRemoteFile)
    ensures
        shows_file(runtime, file, r),
{
    match runtime {
        LocalAsrRuntime::SherpaOnnx => LocalAsrRemoteFile {
            path: file.path,
            local_path: Some(file.local_path),
            size_bytes: file.size,
            sha256: file.sha256,
        },
        _ => LocalAsrRemoteFile {
            path: file.path,
            local_path: None,
            size_bytes: file.size,
            sha256: None,
        },
    }
}

fn shown_files(runtime: LocalAsrRuntime, listed: Vec<ListedFile>) -> (r: Vec<LocalAsrRemoteFile>)
    ensures
        r@.len() == listed@.len(),
        forall|i: int| 0 <= i < r@.len() ==> shows_file(runtime, listed@[i], #[trigger] r@[i]),
{
    let ghost all = listed@;
    let mut rest: Vec<ListedFile> = listed;
    let mut backwards: Vec<LocalAsrRemoteFile> = Vec::new();
    while rest.len() > 0
        invariant
            rest@.len() + backwards@.len() == all.len(),
            rest@ =~= all.take(rest@.len() as int),
            forall|i: int|
                0 <= i < backwards@.len() ==> shows_file(
                    runtime,
                    all[all.len() - 1 - i],
                    #[trigger] backwards@[i],
                ),
        decreases rest@.len(),
    {
        let ghost last = rest@.len() - 1;
        if let Some(file) = rest.pop() {
            assert(file == all[last]);
            backwards.push(shown_file(runtime, file));
        }
    }
    let mut out: Vec<LocalAsrRemoteFile> = Vec::new();
    let ghost turned = backwards@;
    while backwards.len() > 0
        invariant
            turned.len() == all.len(),
            backwards@.len() + out@.len() == all.len(),
            backwards@ =~= turned.take(backwards@.len() as int),
            forall|i: int|
                0 <= i < turned.len() ==> shows_file(
                    runtime,
                    all[all.len() - 1 - i],
                    #[trigger] turned[i],
                ),
            forall|i: int| 0 <= i < out@.len() ==> shows_file(runtime, all[i], #[trigger] out@[i]),
        decreases backwards@.len(),
    {
        let ghost last = backwards@.len() - 1;
        if let Some(file) = backwards.pop() {
            assert(file == turned[last]);
            out.push(file);
        }
    }
    out
}

/// The files that a site has of a model. The site is asked only where the
/// request is served.
pub fn remote_info(target: LocalAsrTarget, reply: Result<ListedModel, String>) -> (r: Result<
    LocalAsrRemoteInfo,
    BackendError,
>)
    ensures
        if served(LocalAsrOp::RemoteInfo, target) {
            match reply {
                Err(m) => r == Err::<LocalAsrRemoteInfo, BackendError>(
                    BackendError { code: BackendErrorCode::Provider, message: m, retryable: false },
                ),
                Ok(listed) => {
                    &&& r matches Ok(info)
                    &&& info.target == target
                    &&& info.mirror == listed.mirror
                    &&& info.total_bytes == listed.total_bytes
                    &&& info.files@.len() == listed.files@.len()
                    &&& forall|i: int|
                        0 <= i < info.files@.len() ==> shows_file(
                            target.runtime,
                            listed.files@[i],
                            #[trigger] info.files@[i],
                        )
                },
            }
        } else {
            refuses(LocalAsrOp::RemoteInfo, target, r)
        },
{
    if let Err(e) = check_request(LocalAsrOp::RemoteInfo, &target) {
        return Err(e);
    }
    let listed: ListedModel = match answered(BackendErrorCode::Provider, reply) {
        Ok(l) => l,
        Err(e) => return Err(e),
    };
    let files: Vec<LocalAsrRemoteFile> = shown_files(target.runtime, listed.files);
    Ok(
        LocalAsrRemoteInfo {
            target,
            mirror: listed.mirror,
            files,
            total_bytes: listed.total_bytes,
        },
    )
}

/// What a site says of a model.
#[derive(Debug)]
pub struct ModelCard {
    pub mirror: LocalAsrMirror,
    pub downloads: u64,
    pub likes: u64,
    pub description: Option<String>,
}

/// The card of a model, with the model it is of.
#[derive(Debug)]
pub struct LocalAsrModelCard {
    pub target: LocalAsrTarget,
    pub card: ModelCard,
}

/// The card of a model.
pub fn model_card(target: LocalAsrTarget, reply: Result<ModelCard, String>) -> (r: Result<
    LocalAsrModelCard,
    BackendError,
>)
    ensures
        if served(LocalAsrOp::ModelCard, target) {
            match reply {
                Err(m) => r == Err::<LocalAsrModelCard, BackendError>(
                    BackendError { code: BackendErrorCode::Provider, message: m, retryable: false },
                ),
                Ok(card) => r == Ok::<LocalAsrModelCard, BackendError>(
                    LocalAsrModelCard { target, card },
                ),
            }
        } else {
            refuses(LocalAsrOp::ModelCard, target, r)
        },
{
    if let Err(e) = check_request(LocalAsrOp::ModelCard, &target) {
        return Err(e);
    }
    match answered(BackendErrorCode::Provider, reply) {
        Ok(card) => Ok(LocalAsrModelCard { target, card }),
        Err(e) => Err(e),
    }
}

/// Whether a download is started. It needs a running program to report to,
/// which is looked at first.
pub fn start_download(app: Result<(), BackendError>, target: &LocalAsrTarget) -> (r: Result<
    (),
    BackendError,
>)
    ensures
        match app {
            Err(e) => r == Err::<(), BackendError>(e),
            Ok(()) => if served(LocalAsrOp::StartDownload, *target) {
                r is Ok
            } else {
                refuses(LocalAsrOp::StartDownload, *target, r)
            },
        },
{
    app?;
    check_request(LocalAsrOp::StartDownload, target)
}

/// What a runtime, or its downloader, is asked for.
#[derive(Debug)]
pub struct RuntimeCall {
    pub runtime: LocalAsrRuntime,
    pub model_id: String,
    /// Where to fetch from, for what comes over the network.
    pub mirror: Option<Mirror>,
    /// Where the runtime itself comes from, for a preparation by Foundry.
    pub runtime_source: Option<String>,
}

/// What the window has to be there for.
pub open spec fn needs_window(op: LocalAsrOp) -> bool {
    op is StartDownload || op is Prepare
}

/// What is fetched over the network.
pub open spec fn fetches(op: LocalAsrOp) -> bool {
    op is RemoteInfo || op is ModelCard || op is StartDownload
}

/// `call` is what `op` asks for.
pub open spec fn calls(
    call: RuntimeCall,
    op: LocalAsrOp,
    target: LocalAsrTarget,
    mirror: LocalAsrMirror,
    runtime_source: Seq<char>,
) -> bool {
    &&& call.runtime == target.runtime
    &&& call.model_id@ == target.model_id@
    &&& call.mirror == (if fetches(op) {
        Some(
            if mirror == LocalAsrMirror::HfMirror {
                Mirror::HfMirror
            } else {
                Mirror::Huggingface
            },
        )
    } else {
        None
    })
    &&& opt_text(call.runtime_source) == (if op is Prepare && target.runtime
        == LocalAsrRuntime::Foundry {
        Some(runtime_source)
    } else {
        None
    })
}

/// What a runtime is asked for on behalf of the settings page, or why it is
/// asked for nothing.
pub fn runtime_call(
    op: LocalAsrOp,
    app: Result<(), BackendError>,
    target: &LocalAsrTarget,
    mirror: LocalAsrMirror,
    runtime_source: &str,
) -> (r: Result<RuntimeCall, BackendError>)
    ensures
        if needs_window(op) && app is Err {
            r == Err::<RuntimeCall, BackendError>(app->Err_0)
        } else if served(op, *target) {
            r matches Ok(call) && calls(call, op, *target, mirror, runtime_source@)
        } else {
            refuses(op, *target, r)
        },
{
    let needs: bool = match op {
        LocalAsrOp::StartDownload | LocalAsrOp::Prepare => true,
        _ => false,
    };
    if needs {
        app?;
    }
    if let Err(e) = check_request(op, target) {
        return Err(e);
    }
    let from_foundry: bool = match op {
        LocalAsrOp::Prepare => target.runtime == LocalAsrRuntime::Foundry,
        _ => false,
    };
    Ok(
        RuntimeCall {
            runtime: target.runtime,
            model_id: target.model_id.clone(),
            mirror: match op {
                LocalAsrOp::RemoteInfo | LocalAsrOp::ModelCard | LocalAsrOp::StartDownload => Some(
                    native_local_asr_mirror(mirror),
                ),
                _ => None,
            },
            runtime_source: if from_foundry {
                Some(runtime_source.to_owned())
            } else {
                None
            },
        },
    )
}

/// A model is prepared for use by its own runtime, which the runtime reports
/// with the name it gave the model.
pub fn prepare(
    app: Result<(), BackendError>,
    target: &LocalAsrTarget,
    reply: Result<String, String>,
) -> (r: Result<String, BackendError>)
    ensures
        match app {
            Err(e) => r == Err::<String, BackendError>(e),
            Ok(()) => if served(LocalAsrOp::Prepare, *target) {
                match reply {
                    Ok(name) => r == Ok::<String, BackendError>(name),
                    Err(m) => r == Err::<String, BackendError>(
                        BackendError {
                            code: BackendErrorCode::Platform,
                            message: m,
                            retryable: false,
                        },
                    ),
                }
            } else {
                refuses(LocalAsrOp::Prepare, *target, r)
            },
        },
{
    app?;
    if let Err(e) = check_request(LocalAsrOp::Prepare, target) {
        return Err(e);
    }
    answered(BackendErrorCode::Platform, reply)
}

/// What the host lets go of.
#[derive(Clone, Copy, PartialEq, Eq, Structural, Debug)]
pub enum ReleaseStep {
    QwenCache,
    WhisperCache,
    Foundry,
    Sherpa,
}

/// What belongs to a runtime and is let go when it is released.
pub open spec fn release_steps(runtime: LocalAsrRuntime, platform: Platform) -> Seq<ReleaseStep> {
    match runtime {
        LocalAsrRuntime::Foundry => seq![ReleaseStep::Foundry],
        LocalAsrRuntime::SherpaOnnx => seq![ReleaseStep::Sherpa],
        LocalAsrRuntime::Generic => match platform {
            Platform::Windows => Seq::empty(),
            Platform::Linux => seq![ReleaseStep::QwenCache],
            Platform::MacOs => seq![ReleaseStep::QwenCache, ReleaseStep::WhisperCache],
        },
    }
}

pub fn release(runtime: LocalAsrRuntime, platform: Platform) -> (r: Vec<ReleaseStep>)
    ensures
        r@ == release_steps(runtime, platform),
{
    match runtime {
        LocalAsrRuntime::Foundry => vec![ReleaseStep::Foundry],
        LocalAsrRuntime::SherpaOnnx => vec![ReleaseStep::Sherpa],
        LocalAsrRuntime::Generic => match platform {
            Platform::Windows => Vec::new(),
            Platform::Linux => vec![ReleaseStep::QwenCache],
            Platform::MacOs => vec![ReleaseStep::QwenCache, ReleaseStep::WhisperCache],
        },
    }
}

/// The text `o` holds is `s`.
fn holds(o: &Option<String>, s: &str) -> (r: bool)
    ensures
        r == (opt_text(*o) == Some(s@)),
{
    match o {
        Some(t) => str_eq(t.as_str(), s),
        None => false,
    }
}

/// What is let go before the files of a model are deleted: the caches that
/// hold this model, as far as the platform has them.
pub open spec fn delete_steps(
    target: LocalAsrTarget,
    platform: Platform,
    qwen: Option<String>,
    whisper: Option<String>,
) -> Seq<ReleaseStep> {
    if target.runtime != LocalAsrRuntime::Generic {
        Seq::empty()
    } else {
        (if platform != Platform::Windows && opt_text(qwen) == Some(target.model_id@) {
            seq![ReleaseStep::QwenCache]
        } else {
            Seq::empty()
        }) + (if platform == Platform::MacOs && opt_text(whisper) == Some(target.model_id@) {
            seq![ReleaseStep::WhisperCache]
        } else {
            Seq::empty()
        })
    }
}

/// Begins to delete a model.
pub fn delete_model(
    target: &LocalAsrTarget,
    platform: Platform,
    qwen_loaded: &Option<String>,
    whisper_loaded: &Option<String>,
) -> (r: Result<Vec<ReleaseStep>, BackendError>)
    ensures
        if served(LocalAsrOp::DeleteModel, *target) {
            r matches Ok(steps) && steps@ == delete_steps(
                *target,
                platform,
                *qwen_loaded,
                *whisper_loaded,
            )
        } else {
            refuses(LocalAsrOp::DeleteModel, *target, r)
        },
{
    if let Err(e) = check_request(LocalAsrOp::DeleteModel, target) {
        return Err(e);
    }
    let mut steps: Vec<ReleaseStep> = Vec::new();
    if target.runtime == LocalAsrRuntime::Generic {
        let id: &str = target.model_id.as_str();
        if platform != Platform::Windows && holds(qwen_loaded, id) {
            steps.push(ReleaseStep::QwenCache);
        }
        if platform == Platform::MacOs && holds(whisper_loaded, id) {
            steps.push(ReleaseStep::WhisperCache);
        }
    }
    proof {
        assert(steps@ =~= delete_steps(*target, platform, *qwen_loaded, *whisper_loaded));
    }
    Ok(steps)
}

/// The directory of a model, as its runtime gives it.
pub fn model_dir(target: &LocalAsrTarget, reply: Result<String, String>) -> (r: Result<
    String,
    BackendError,
>)
    ensures
        if served(LocalAsrOp::ModelDir, *target) {
            match reply {
                Ok(dir) => r == Ok::<String, BackendError>(dir),
                Err(m) => r == Err::<String, BackendError>(
                    BackendError { code: BackendErrorCode::Platform, message: m, retryable: false },
                ),
            }
        } else {
            refuses(LocalAsrOp::ModelDir, *target, r)
        },
{
    if let Err(e) = check_request(LocalAsrOp::ModelDir, target) {
        return Err(e);
    }
    answered(BackendErrorCode::Platform, reply)
}

/// What a trial of a model gave.
#[derive(Debug)]
pub struct ModelTrial {
    pub backend: String,
    pub expected_text: String,
    pub transcribed_text: String,
    pub audio_ms: u64,
    pub load_ms: u64,
    pub transcribe_ms: u64,
}

/// What a trial of a model gave, with the model it was of.
#[derive(Debug)]
pub struct LocalAsrTestResult {
    pub target: LocalAsrTarget,
    pub trial: ModelTrial,
}

/// Tries a model out.
pub fn test_model(target: LocalAsrTarget, reply: Result<ModelTrial, String>) -> (r: Result<
    LocalAsrTestResult,
    BackendError,
>)
    ensures
        if served(LocalAsrOp::TestModel, target) {
            match reply {
                Ok(trial) => r == Ok::<LocalAsrTestResult, BackendError>(
                    LocalAsrTestResult { target, trial },
                ),
                Err(m) => r == Err::<LocalAsrTestResult, BackendError>(
                    BackendError { code: BackendErrorCode::Platform, message: m, retryable: false },
                ),
            }
        } else {
            refuses(LocalAsrOp::TestModel, target, r)
        },
{
    if let Err(e) = check_request(LocalAsrOp::TestModel, &target) {
        return Err(e);
    }
    match answered(BackendErrorCode::Platform, reply) {
        Ok(trial) => Ok(LocalAsrTestResult { target, trial }),
        Err(e) => Err(e),
    }
}

/// Whether the route of a runtime has to be built anew after its settings have
/// changed: only one keeps a route.
pub fn invalidate_route(runtime: LocalAsrRuntime) -> (r: bool)
    ensures
        r == (runtime == LocalAsrRuntime::Foundry),
{
    runtime == LocalAsrRuntime::Foundry
}

/// Whether the model store stays where it is. A place that cannot be resolved
/// counts as another one.
pub fn same_root(old_root: &Option<String>, new_root: &Option<String>) -> (r: bool)
    ensures
        r == (old_root is Some && new_root is Some && old_root->0@ == new_root->0@),
{
    match (old_root, new_root) {
        (Some(a), Some(b)) => str_eq(a.as_str(), b.as_str()),
        _ => false,
    }
}

/// The model store has been moved, or not.
pub fn relocated(next: Option<String>, new_root: String, migrated: Result<(), String>) -> (r: Result<
    LocalAsrStorageSettings,
    BackendError,
>)
    ensures
        match migrated {
            Err(m) => r == Err::<LocalAsrStorageSettings, BackendError>(
                BackendError { code: BackendErrorCode::Platform, message: m, retryable: false },
            ),
            Ok(()) => r == Ok::<LocalAsrStorageSettings, BackendError>(
                LocalAsrStorageSettings {
                    models_base_dir: next,
                    models_root_dir: new_root,
                    is_default: next is None,
                },
            ),
        },
{
    match migrated {
        Err(message) => Err(
            BackendError { code: BackendErrorCode::Platform, message, retryable: false },
        ),
        Ok(()) => Ok(
            LocalAsrStorageSettings {
                is_default: next.is_none(),
                models_base_dir: next,
                models_root_dir: new_root,
            },
        ),
    }
}

/// A model that is deleted is in no cache afterwards: every cache that held it
/// is let go.
pub proof fn law_deleted_model_is_not_loaded(
    target: LocalAsrTarget,
    platform: Platform,
    qwen: Option<String>,
    whisper: Option<String>,
)
    requires
        target.runtime == LocalAsrRuntime::Generic,
        platform != Platform::Windows,
    ensures
        ({
            let steps = delete_steps(target, platform, qwen, whisper);
            &&& opt_text(qwen) == Some(target.model_id@) <==> steps.contains(ReleaseStep::QwenCache)
            &&& platform == Platform::MacOs ==> (opt_text(whisper) == Some(target.model_id@)
                <==> steps.contains(ReleaseStep::WhisperCache))
        }),
{
    let steps = delete_steps(target, platform, qwen, whisper);
    if opt_text(qwen) == Some(target.model_id@) {
        assert(steps[0] == ReleaseStep::QwenCache);
    }
    if platform == Platform::MacOs && opt_text(whisper) == Some(target.model_id@) {
        assert(steps[steps.len() - 1] == ReleaseStep::WhisperCache);
    }
}

/// A request is passed on or refused, and what a runtime answers is what the page
/// gets, with a failure in its own words.
pub proof fn law_answers_are_passed_on(
    target: LocalAsrTarget,
    id: &str,
    card: Result<ModelCard, String>,
    dir: Result<String, String>,
    trial: Result<ModelTrial, String>,
    may_card: Result<(), BackendError>,
    may_dir: Result<(), BackendError>,
    may_test: Result<(), BackendError>,
    c: Result<LocalAsrModelCard, BackendError>,
    d: Result<String, BackendError>,
    t: Result<LocalAsrTestResult, BackendError>,
)
    requires
        id@ == target.model_id@,
        call_ensures(
            route_request,
            (LocalAsrOp::ModelCard, target.runtime, id, target.known),
            may_card,
        ),
        call_ensures(route_request, (LocalAsrOp::ModelDir, target.runtime, id, target.known), may_dir),
        call_ensures(
            route_request,
            (LocalAsrOp::TestModel, target.runtime, id, target.known),
            may_test,
        ),
        call_ensures(model_card, (target, card), c),
        call_ensures(model_dir, (&target, dir), d),
        call_ensures(test_model, (target, trial), t),
    ensures
        c is Ok <==> may_card is Ok && card is Ok,
        c is Ok ==> c->Ok_0.target == target && c->Ok_0.card == card->Ok_0,
        may_card is Ok && card is Err ==> c->Err_0.message == card->Err_0 && c->Err_0.code
            == BackendErrorCode::Provider,
        may_card is Err ==> c->Err_0.code == may_card->Err_0.code,
        d is Ok <==> may_dir is Ok && dir is Ok,
        d is Ok ==> d->Ok_0 == dir->Ok_0,
        may_dir is Ok && dir is Err ==> d->Err_0.message == dir->Err_0 && d->Err_0.code
            == BackendErrorCode::Platform,
        may_dir is Err ==> d->Err_0.code == may_dir->Err_0.code,
        t is Ok <==> may_test is Ok && trial is Ok,
        t is Ok ==> t->Ok_0.target == target && t->Ok_0.trial == trial->Ok_0,
        may_test is Ok && trial is Err ==> t->Err_0.message == trial->Err_0 && t->Err_0.code
            == BackendErrorCode::Platform,
        may_test is Err ==> t->Err_0.code == may_test->Err_0.code,
{
}

/// Every file that a site lists is shown, in its place, with its path and its size;
/// where it is kept and what it hashes to only sherpa-onnx says.
pub proof fn law_every_remote_file_is_shown(
    target: LocalAsrTarget,
    listed: ListedModel,
    id: &str,
    may: Result<(), BackendError>,
    r: Result<LocalAsrRemoteInfo, BackendError>,
    k: int,
)
    requires
        id@ == target.model_id@,
        call_ensures(route_request, (LocalAsrOp::RemoteInfo, target.runtime, id, target.known), may),
        call_ensures(remote_info, (target, Ok(listed)), r),
    ensures
        r is Ok <==> may is Ok,
        r matches Ok(info) ==> {
            &&& info.target == target
            &&& info.mirror == listed.mirror
            &&& info.total_bytes == listed.total_bytes
            &&& info.files@.len() == listed.files@.len()
            &&& 0 <= k < listed.files@.len() ==> {
                &&& info.files@[k].path == listed.files@[k].path
                &&& info.files@[k].size_bytes == listed.files@[k].size
                &&& target.runtime == LocalAsrRuntime::SherpaOnnx ==> info.files@[k].local_path
                    == Some(listed.files@[k].local_path) && info.files@[k].sha256
                    == listed.files@[k].sha256
                &&& target.runtime != LocalAsrRuntime::SherpaOnnx
                    ==> info.files@[k].local_path is None && info.files@[k].sha256 is None
            }
        },
{
    if r is Ok && 0 <= k < listed.files@.len() {
        assert(shows_file(target.runtime, listed.files@[k], r->Ok_0.files@[k]));
    }
}

/// A runtime is asked about the model that was named. What comes over the network is
/// fetched from the mirror that was chosen, and only a preparation by Foundry is told
/// where the runtime comes from. What needs the window waits for no refusal.
pub proof fn law_runtime_is_asked_about_the_model(
    op: LocalAsrOp,
    app: Result<(), BackendError>,
    target: &LocalAsrTarget,
    id: &str,
    mirror: LocalAsrMirror,
    site: Mirror,
    source: &str,
    may: Result<(), BackendError>,
    r: Result<RuntimeCall, BackendError>,
)
    requires
        id@ == target.model_id@,
        call_ensures(route_request, (op, target.runtime, id, target.known), may),
        call_ensures(native_local_asr_mirror, (mirror,), site),
        call_ensures(runtime_call, (op, app, target, mirror, source), r),
    ensures
        ({
            let window = op == LocalAsrOp::StartDownload || op == LocalAsrOp::Prepare;
            &&& r is Ok <==> may is Ok && (window ==> app is Ok)
            &&& window && app is Err ==> r->Err_0 == app->Err_0
            &&& !(window && app is Err) && may is Err ==> r->Err_0.code == may->Err_0.code
        }),
        r matches Ok(call) ==> {
            &&& call.runtime == target.runtime
            &&& call.model_id@ == target.model_id@
            &&& call.mirror is Some <==> op == LocalAsrOp::RemoteInfo || op == LocalAsrOp::ModelCard
                || op == LocalAsrOp::StartDownload
            &&& call.mirror is Some ==> call.mirror->0 == site
            &&& call.runtime_source is Some <==> op == LocalAsrOp::Prepare && target.runtime
                == LocalAsrRuntime::Foundry
            &&& call.runtime_source is Some ==> call.runtime_source->0@ == source@
        },
{
}

/// A download starts, and a preparation ends with the name of the model, only for a
/// running program and a request that is served.
pub proof fn law_download_needs_the_program(
    app: Result<(), BackendError>,
    target: &LocalAsrTarget,
    id: &str,
    reply: Result<String, String>,
    may_load: Result<(), BackendError>,
    may_prepare: Result<(), BackendError>,
    loaded: Result<(), BackendError>,
    prepared: Result<String, BackendError>,
)
    requires
        id@ == target.model_id@,
        call_ensures(
            route_request,
            (LocalAsrOp::StartDownload, target.runtime, id, target.known),
            may_load,
        ),
        call_ensures(
            route_request,
            (LocalAsrOp::Prepare, target.runtime, id, target.known),
            may_prepare,
        ),
        call_ensures(start_download, (app, target), loaded),
        call_ensures(prepare, (app, target, reply), prepared),
    ensures
        loaded is Ok <==> app is Ok && may_load is Ok,
        app is Err ==> loaded->Err_0 == app->Err_0 && prepared->Err_0 == app->Err_0,
        prepared is Ok <==> app is Ok && may_prepare is Ok && reply is Ok,
        prepared is Ok ==> prepared->Ok_0 == reply->Ok_0,
        app is Ok && may_prepare is Ok && reply is Err ==> prepared->Err_0.message == reply->Err_0
            && prepared->Err_0.code == BackendErrorCode::Platform,
{
}

/// A runtime that is released lets go of what is its own, on the platforms that have
/// it; a model that is deleted is let go first by every cache that holds it.
pub proof fn law_release_and_delete_let_go(
    runtime: LocalAsrRuntime,
    platform: Platform,
    target: &LocalAsrTarget,
    qwen: &Option<String>,
    whisper: &Option<String>,
    released: Vec<ReleaseStep>,
    deleted: Result<Vec<ReleaseStep>, BackendError>,
)
    requires
        call_ensures(release, (runtime, platform), released),
        call_ensures(delete_model, (target, platform, qwen, whisper), deleted),
    ensures
        released@.contains(ReleaseStep::Foundry) <==> runtime == LocalAsrRuntime::Foundry,
        released@.contains(ReleaseStep::Sherpa) <==> runtime == LocalAsrRuntime::SherpaOnnx,
        released@.contains(ReleaseStep::QwenCache) <==> runtime == LocalAsrRuntime::Generic
            && platform != Platform::Windows,
        released@.contains(ReleaseStep::WhisperCache) <==> runtime == LocalAsrRuntime::Generic
            && platform == Platform::MacOs,
        deleted is Ok <==> target.known || target.runtime != LocalAsrRuntime::Generic,
        deleted matches Ok(steps) ==> {
            &&& steps@.contains(ReleaseStep::QwenCache) <==> target.runtime
                == LocalAsrRuntime::Generic && platform != Platform::Windows && (
            qwen matches Some(m) && m@ == target.model_id@)
            &&& steps@.contains(ReleaseStep::WhisperCache) <==> target.runtime
                == LocalAsrRuntime::Generic && platform == Platform::MacOs && (
            whisper matches Some(m) && m@ == target.model_id@)
            &&& !steps@.contains(ReleaseStep::Foundry)
            &&& !steps@.contains(ReleaseStep::Sherpa)
        },
{
    if released@.len() > 0 {
        assert(released@.contains(released@[0]));
        assert(released@.contains(released@[released@.len() - 1]));
    }
    if deleted is Ok {
        let steps = deleted->Ok_0@;
        if steps.len() > 0 {
            assert(steps.contains(steps[0]));
            assert(steps.contains(steps[steps.len() - 1]));
        }
    }
}

/// Only Foundry keeps a route; a store stays where it is only if both places are
/// known and the same; and once it was moved, the new place is the one that is shown.
pub proof fn law_store_is_where_it_was_moved(
    runtime: LocalAsrRuntime,
    a: &Option<String>,
    b: &Option<String>,
    next: Option<String>,
    root: String,
    migrated: Result<(), String>,
    stale: bool,
    same: bool,
    r: Result<LocalAsrStorageSettings, BackendError>,
)
    requires
        call_ensures(invalidate_route, (runtime,), stale),
        call_ensures(same_root, (a, b), same),
        call_ensures(relocated, (next, root, migrated), r),
    ensures
        stale <==> runtime == LocalAsrRuntime::Foundry,
        same ==> a is Some && b is Some && a->0@ == b->0@,
        a is Some && b is Some && a->0@ == b->0@ ==> same,
        r is Ok <==> migrated is Ok,
        r matches Ok(s) ==> s.models_root_dir == root && s.models_base_dir == next && (s.is_default
            <==> next is None),
        r matches Err(e) ==> e.message == migrated->Err_0 && e.code == BackendErrorCode::Platform
            && !e.retryable,
{
}

/// A request about a model is judged like one that names it, and what a runtime
/// answered is what is passed on, with a failure in its own words.
pub proof fn law_request_is_judged_by_its_target(
    op: LocalAsrOp,
    target: &LocalAsrTarget,
    id: &str,
    code: BackendErrorCode,
    reply: Result<u64, String>,
    may: Result<(), BackendError>,
    r: Result<(), BackendError>,
    a: Result<u64, BackendError>,
)
    requires
        id@ == target.model_id@,
        call_ensures(route_request, (op, target.runtime, id, target.known), may),
        call_ensures(check_request, (op, target), r),
        call_ensures(answered::<u64>, (code, reply), a),
    ensures
        r is Ok <==> may is Ok,
        r is Err ==> r->Err_0.code == may->Err_0.code && r->Err_0.message@ == may->Err_0.message@,
        a is Ok <==> reply is Ok,
        a is Ok ==> a->Ok_0 == reply->Ok_0,
        a is Err ==> a->Err_0.code == code && a->Err_0.message == reply->Err_0,
{
}

} // verus!
