//! Local speech recognition on Linux: where the models live, which of them
//! the Qwen program serves, and what its output becomes.

use crate::local_asr::LocalAsrRuntime;
use crate::native_asr::TranscriptOutput;
use crate::paths::{below, path_below};
use crate::providers::texts;
use crate::text::{
    blank, contains, contains_text, has_prefix, is_blank, starts_with, trim, trimmed,
};
use crate::types::{opt_text, BackendError, BackendErrorCode};
use vstd::prelude::*;

verus! {

/// The program that recognises speech, unless another is configured.
pub const QWEN_PROGRAM: &'static str = "qwen_asr";

/// Where the models live, below some base.
pub open spec fn models_below(base: Seq<char>) -> Seq<char> {
    below(below(base, "OpenLess"@), "models"@)
}

/// The directories of the user, as the environment gives them.
#[derive(Debug)]
pub struct UserDirs {
    pub data_home: Option<String>,
    pub home: Option<String>,
    pub temporary: String,
}

/// Where the models live if nothing else is configured.
pub open spec fn default_models_root(dirs: UserDirs) -> Seq<char> {
    match dirs.data_home {
        Some(data) => models_below(data@),
        None => models_below(
            below(
                below(
                    match dirs.home {
                        Some(home) => home@,
                        None => dirs.temporary@,
                    },
                    ".local"@,
                ),
                "share"@,
            ),
        ),
    }
}

fn models_dir_below(base: &str) -> (r: String)
    ensures
        r@ == models_below(base@),
{
    path_below(path_below(base, "OpenLess").as_str(), "models")
}

pub fn default_root(dirs: &UserDirs) -> (r: String)
    ensures
        r@ == default_models_root(*dirs),
{
    match &dirs.data_home {
        Some(data) => models_dir_below(data.as_str()),
        None => {
            let base: &str = match &dirs.home {
                Some(home) => home.as_str(),
                None => dirs.temporary.as_str(),
            };
            let share: String = path_below(path_below(base, ".local").as_str(), "share");
            models_dir_below(share.as_str())
        },
    }
}

/// Where the models live. A configured base counts only if it is absolute.
pub fn configured_models_root(base: Option<String>, dirs: &UserDirs) -> (r: String)
    ensures
        r@ == (if base is Some && !blank(base->0@) && starts_with(base->0@, "/"@) {
            models_below(base->0@)
        } else {
            default_models_root(*dirs)
        }),
{
    match base {
        Some(base) => if !is_blank(base.as_str()) && has_prefix(base.as_str(), "/") {
            models_dir_below(base.as_str())
        } else {
            default_root(dirs)
        },
        None => default_root(dirs),
    }
}

/// The program to run.
pub fn executable(configured: Option<String>) -> (r: String)
    ensures
        r@ == (match configured {
            Some(c) => c@,
            None => QWEN_PROGRAM@,
        }),
{
    match configured {
        Some(c) => c,
        None => QWEN_PROGRAM.to_owned(),
    }
}

/// How to find out whether the program is there.
#[derive(Debug)]
pub enum QwenProbe {
    /// Look for the file.
    IsFile(String),
    /// Ask it for its version.
    AskVersion(String),
}

/// How to find out whether the program is there. Only a configured absolute
/// path is looked up as a file.
pub fn qwen_engine_available(configured: Option<String>) -> (r: QwenProbe)
    ensures
        match configured {
            Some(c) => r == (if starts_with(c@, "/"@) {
                QwenProbe::IsFile(c)
            } else {
                QwenProbe::AskVersion(c)
            }),
            None => r matches QwenProbe::AskVersion(p) && p@ == QWEN_PROGRAM@,
        },
{
    match configured {
        Some(c) => if has_prefix(c.as_str(), "/") {
            QwenProbe::IsFile(c)
        } else {
            QwenProbe::AskVersion(c)
        },
        None => QwenProbe::AskVersion(QWEN_PROGRAM.to_owned()),
    }
}

/// Where programs are searched once the directories come first in which a
/// user installs their own. `None` leaves the search as it is: without a home,
/// or with one that cannot stand in a list of directories.
pub open spec fn longer_path(home: Option<Seq<char>>, path: Seq<char>) -> Option<Seq<char>> {
    match home {
        None => None,
        Some(h) => if contains_text(h, ":"@) {
            None
        } else {
            Some(
                below(h, ".local/bin"@) + ":"@ + below(h, ".npm-global/bin"@) + ":"@ + below(
                    h,
                    ".bun/bin"@,
                ) + ":"@ + path,
            )
        },
    }
}

/// The list of directories in which a program is searched; `path` is the list
/// so far.
pub fn augment_linux_path(home: Option<&str>, path: &str) -> (r: Option<String>)
    ensures
        opt_text(r) == longer_path(
            match home {
                Some(h) => Some(h@),
                None => None,
            },
            path@,
        ),
{
    match home {
        None => None,
        Some(h) => {
            if contains(h, ":") {
                return None;
            }
            let local: String = path_below(h, ".local/bin");
            let npm: String = path_below(h, ".npm-global/bin");
            let bun: String = path_below(h, ".bun/bin");
            Some(
                local.concat(":").concat(npm.as_str()).concat(":").concat(bun.as_str()).concat(
                    ":",
                ).concat(path),
            )
        },
    }
}

/// A model to work with.
#[derive(Debug)]
pub struct LinuxAsrTarget {
    pub runtime: LocalAsrRuntime,
    pub model_id: String,
    /// The catalogue lists it among the Qwen models.
    pub is_qwen: bool,
}

/// Linux serves this model.
pub open spec fn served(target: LinuxAsrTarget) -> bool {
    target.runtime == LocalAsrRuntime::Generic && target.is_qwen
}

/// `e` says that Linux serves other models only.
pub open spec fn says_unserved(e: BackendError) -> bool {
    e.is(BackendErrorCode::Unsupported, "Linux local ASR currently supports Qwen models only"@)
}

pub fn ensure_qwen_target(target: &LinuxAsrTarget) -> (r: Result<(), BackendError>)
    ensures
        match r {
            Ok(()) => served(*target),
            Err(e) => !served(*target) && says_unserved(e),
        },
{
    if target.runtime == LocalAsrRuntime::Generic && target.is_qwen {
        return Ok(());
    }
    Err(
        BackendError::new(
            BackendErrorCode::Unsupported,
            "Linux local ASR currently supports Qwen models only",
        ),
    )
}

/// What the settings page shows of the program.
#[derive(Debug)]
pub struct LinuxAsrStatus {
    pub available: bool,
    pub loaded: bool,
    pub model_id: Option<String>,
    pub error: Option<String>,
}

/// What is known about a model's directory.
#[derive(Debug)]
pub struct ModelDir {
    pub parent: Option<String>,
    /// The download was completed.
    pub ready: bool,
}

/// The models of a running program.
#[derive(Debug)]
pub struct LinuxGenericLocalAsrRuntime {
    pub root: String,
    pub loaded_model: Option<String>,
    pub cancelled: bool,
}

/// Where the models live once the directory of one of them is known.
pub open spec fn root_after(root: String, dir: ModelDir) -> String {
    match dir.parent {
        Some(p) => p,
        None => root,
    }
}

impl LinuxGenericLocalAsrRuntime {
    pub fn from_models_root(root: String) -> (r: Self)
        ensures
            r == (LinuxGenericLocalAsrRuntime { root, loaded_model: None, cancelled: false }),
    {
        LinuxGenericLocalAsrRuntime { root, loaded_model: None, cancelled: false }
    }

    /// Whether a runtime can be used.
    pub fn engine_available(runtime: LocalAsrRuntime, program_found: bool) -> (r: bool)
        ensures
            r == (runtime == LocalAsrRuntime::Generic && program_found),
    {
        runtime == LocalAsrRuntime::Generic && program_found
    }

    pub fn supports_model(target: &LinuxAsrTarget) -> (r: bool)
        ensures
            r == served(*target),
    {
        ensure_qwen_target(target).is_ok()
    }

    /// The models were moved.
    pub fn rebind_storage(&mut self, models_root: String)
        ensures
            *final(self) == (LinuxGenericLocalAsrRuntime { root: models_root, ..*old(self) }),
    {
        self.root = models_root;
    }

    pub fn runtime_status(&self, available: bool) -> (r: LinuxAsrStatus)
        ensures
            r.available == available,
            r.loaded == (self.loaded_model is Some),
            r.model_id == self.loaded_model,
            available ==> r.error is None,
            !available ==> r.error is Some && r.error->0@
                == "qwen_asr executable is not available"@,
    {
        LinuxAsrStatus {
            available,
            loaded: self.loaded_model.is_some(),
            model_id: match &self.loaded_model {
                Some(m) => Some(m.clone()),
                None => None,
            },
            error: if available {
                None
            } else {
                Some("qwen_asr executable is not available".to_owned())
            },
        }
    }

    /// Takes a model into use. A wish to cancel from before is forgotten; one
    /// that arrived since is heeded.
    pub fn prepare(&mut self, target: LinuxAsrTarget, dir: ModelDir, cancelled_since: bool) -> (r:
        Result<String, BackendError>)
        ensures
            if !served(target) {
                &&& *final(self) == *old(self)
                &&& r matches Err(e)
                &&& says_unserved(e)
            } else {
                &&& final(self).root == root_after(old(self).root, dir)
                &&& final(self).cancelled == (dir.ready && cancelled_since)
                &&& if !dir.ready {
                    &&& final(self).loaded_model == old(self).loaded_model
                    &&& r matches Err(e)
                    &&& e.is(
                        BackendErrorCode::InvalidState,
                        "local ASR model is not downloaded: "@ + target.model_id@,
                    )
                } else if cancelled_since {
                    &&& final(self).loaded_model == old(self).loaded_model
                    &&& r matches Err(e)
                    &&& e.is(BackendErrorCode::Cancelled, "local ASR prepare cancelled"@)
                } else {
                    &&& final(self).loaded_model == Some(target.model_id)
                    &&& r matches Ok(id)
                    &&& id@ == target.model_id@
                }
            },
    {
        if let Err(e) = ensure_qwen_target(&target) {
            return Err(e);
        }
        if let Some(root) = dir.parent {
            self.root = root;
        }
        self.cancelled = false;
        if !dir.ready {
            return Err(
                BackendError::detailed(
                    BackendErrorCode::InvalidState,
                    "local ASR model is not downloaded: ",
                    target.model_id.as_str(),
                ),
            );
        }
        if cancelled_since {
            self.cancelled = true;
            return Err(
                BackendError::new(BackendErrorCode::Cancelled, "local ASR prepare cancelled"),
            );
        }
        let id: String = target.model_id.clone();
        self.loaded_model = Some(target.model_id);
        Ok(id)
    }

    /// Lets the model go. Other runtimes have none here.
    pub fn release(&mut self, runtime: LocalAsrRuntime)
        ensures
            *final(self) == (if runtime == LocalAsrRuntime::Generic {
                LinuxGenericLocalAsrRuntime { loaded_model: None, ..*old(self) }
            } else {
                *old(self)
            }),
    {
        if runtime == LocalAsrRuntime::Generic {
            self.loaded_model = None;
        }
    }

    /// Keeps a prepared model at hand.
    pub fn preload(&mut self, target: &LinuxAsrTarget, dir: ModelDir) -> (r: Result<
        (),
        BackendError,
    >)
        ensures
            if !served(*target) {
                &&& *final(self) == *old(self)
                &&& r matches Err(e)
                &&& says_unserved(e)
            } else {
                &&& *final(self) == (LinuxGenericLocalAsrRuntime {
                    root: root_after(old(self).root, dir),
                    ..*old(self)
                })
                &&& match r {
                    Ok(()) => old(self).loaded_model is Some,
                    Err(e) => old(self).loaded_model is None && e.is(
                        BackendErrorCode::InvalidState,
                        "prepare a local ASR model before preloading"@,
                    ),
                }
            },
    {
        if let Err(e) = ensure_qwen_target(target) {
            return Err(e);
        }
        if let Some(root) = dir.parent {
            self.root = root;
        }
        if self.loaded_model.is_none() {
            return Err(
                BackendError::new(
                    BackendErrorCode::InvalidState,
                    "prepare a local ASR model before preloading",
                ),
            );
        }
        Ok(())
    }

    /// Asks for a preparation to stop.
    pub fn cancel_prepare(&mut self, runtime: LocalAsrRuntime) -> (r: Result<(), BackendError>)
        ensures
            match r {
                Ok(()) => runtime == LocalAsrRuntime::Generic && *final(self) == (
                LinuxGenericLocalAsrRuntime { cancelled: true, ..*old(self) }),
                Err(e) => {
                    &&& runtime != LocalAsrRuntime::Generic
                    &&& *final(self) == *old(self)
                    &&& e.is(
                        BackendErrorCode::Unsupported,
                        "Linux Generic/Qwen runtime only supports generic models"@,
                    )
                },
            },
    {
        if runtime != LocalAsrRuntime::Generic {
            return Err(
                BackendError::new(
                    BackendErrorCode::Unsupported,
                    "Linux Generic/Qwen runtime only supports generic models",
                ),
            );
        }
        self.cancelled = true;
        Ok(())
    }
}

/// Whether a model can be tried out: it is served, it was downloaded, and
/// there is something to listen to.
pub fn check_test_model(target: &LinuxAsrTarget, ready: bool, audio_found: bool) -> (r: Result<
    (),
    BackendError,
>)
    ensures
        match r {
            Ok(()) => served(*target) && ready && audio_found,
            Err(e) => if !served(*target) {
                says_unserved(e)
            } else if !ready {
                e.is(BackendErrorCode::InvalidState, "local ASR model is not downloaded"@)
            } else {
                !audio_found && e.is(
                    BackendErrorCode::Unsupported,
                    "set OPENLESS_QWEN_ASR_TEST_AUDIO to an audio fixture for model testing"@,
                )
            },
        },
{
    if let Err(e) = ensure_qwen_target(target) {
        return Err(e);
    }
    if !ready {
        return Err(
            BackendError::new(BackendErrorCode::InvalidState, "local ASR model is not downloaded"),
        );
    }
    if !audio_found {
        return Err(
            BackendError::new(
                BackendErrorCode::Unsupported,
                "set OPENLESS_QWEN_ASR_TEST_AUDIO to an audio fixture for model testing",
            ),
        );
    }
    Ok(())
}

/// The arguments of the program when the model in `dir` is tried out on a
/// file of sound.
pub fn test_model_arguments(dir: &str, audio: &str) -> (r: Vec<String>)
    ensures
        texts(r@) == seq!["-d"@, dir@, audio@],
{
    let arguments: Vec<String> = vec!["-d".to_owned(), dir.to_owned(), audio.to_owned()];
    proof {
        assert(texts(arguments@) =~= seq!["-d"@, dir@, audio@]);
    }
    arguments
}

/// What the program printed when a model was tried out.
pub fn test_model_text(succeeded: bool, stdout: &str, stderr: &str) -> (r: Result<
    String,
    BackendError,
>)
    ensures
        match r {
            Ok(t) => succeeded && t@ == trimmed(stdout@),
            Err(e) => !succeeded && e.is(BackendErrorCode::Provider, trimmed(stderr@)),
        },
{
    if succeeded {
        return Ok(trim(stdout));
    }
    let message: String = trim(stderr);
    Err(BackendError::new(BackendErrorCode::Provider, message.as_str()))
}

/// How long some sound lasts, in milliseconds: two bytes a sample, sixteen
/// samples a millisecond. A product that does not fit is cut off.
pub open spec fn sound_ms(bytes: nat) -> nat {
    (if bytes * 1000 <= u64::MAX {
        bytes * 1000
    } else {
        u64::MAX as nat
    }) / 32000
}

/// What follows the end of a recording.
#[derive(Debug)]
pub enum LinuxFinish {
    /// Nothing was recorded.
    Silence(TranscriptOutput),
    /// Run the program with these arguments, and give it the recording.
    Run { pcm: Vec<u8>, duration_ms: u64, arguments: Vec<String> },
}

/// The arguments of the program for a recording: it listens to its standard
/// input, prints nothing but the text, and uses the model in `dir` if there is
/// one.
pub open spec fn run_arguments(dir: Option<Seq<char>>) -> Seq<Seq<char>> {
    match dir {
        Some(d) => seq!["--stdin"@, "--silent"@, "-d"@, d],
        None => seq!["--stdin"@, "--silent"@],
    }
}

/// A recording for the program.
#[derive(Debug)]
pub struct LinuxGenericAsrSession {
    pub model: Option<String>,
    pub pcm: Vec<u8>,
    pub cancelled: bool,
}

/// The directory of the chosen model, if one was chosen.
pub open spec fn chosen_dir(root: Seq<char>, model: Option<String>) -> Option<Seq<char>> {
    if model is Some && !blank(model->0@) {
        Some(below(root, model->0@))
    } else {
        None
    }
}

impl LinuxGenericAsrSession {
    pub fn start(model: Option<String>) -> (r: Self)
        ensures
            r.model == model,
            r.pcm@.len() == 0,
            !r.cancelled,
    {
        LinuxGenericAsrSession { model, pcm: Vec::new(), cancelled: false }
    }

    /// Some sound arrived. After a cancel it is not kept.
    pub fn consume_pcm_chunk(&mut self, pcm: &Vec<u8>)
        ensures
            final(self).model == old(self).model,
            final(self).cancelled == old(self).cancelled,
            final(self).pcm@ == (if old(self).cancelled {
                old(self).pcm@
            } else {
                old(self).pcm@ + pcm@
            }),
    {
        if self.cancelled {
            return;
        }
        let mut i: usize = 0;
        while i < pcm.len()
            invariant
                i <= pcm.len(),
                self.model == old(self).model,
                self.cancelled == old(self).cancelled,
                self.pcm@ == old(self).pcm@ + pcm@.take(i as int),
            decreases pcm.len() - i,
        {
            self.pcm.push(pcm[i]);
            proof {
                assert(self.pcm@ =~= old(self).pcm@ + pcm@.take(i + 1));
            }
            i = i + 1;
        }
        proof {
            assert(pcm@.take(pcm@.len() as int) =~= pcm@);
        }
    }

    /// The recording has ended. Its sound is taken out whatever follows.
    pub fn finish(&mut self, root: &str, model_dir_ready: bool) -> (r: Result<
        LinuxFinish,
        BackendError,
    >)
        ensures
            final(self).model == old(self).model,
            final(self).cancelled == old(self).cancelled,
            final(self).pcm@.len() == 0,
            ({
                let dir = chosen_dir(root@, old(self).model);
                if old(self).cancelled {
                    r matches Err(e) && e.is(BackendErrorCode::Cancelled, "ASR cancelled"@)
                } else if old(self).pcm@.len() == 0 {
                    &&& r matches Ok(LinuxFinish::Silence(t))
                    &&& t.text@ == ""@
                    &&& t.duration_ms == 0
                } else if dir is Some && !model_dir_ready {
                    r matches Err(e) && e.is(
                        BackendErrorCode::InvalidState,
                        "Linux local ASR model is not prepared: "@ + old(self).model->0@,
                    )
                } else {
                    &&& r matches Ok(LinuxFinish::Run { pcm, duration_ms, arguments })
                    &&& pcm@ == old(self).pcm@
                    &&& duration_ms == sound_ms(old(self).pcm@.len())
                    &&& texts(arguments@) == run_arguments(dir)
                }
            }),
    {
        let mut pcm: Vec<u8> = Vec::new();
        std::mem::swap(&mut pcm, &mut self.pcm);
        if self.cancelled {
            return Err(BackendError::new(BackendErrorCode::Cancelled, "ASR cancelled"));
        }
        if pcm.len() == 0 {
            return Ok(
                LinuxFinish::Silence(TranscriptOutput { text: "".to_owned(), duration_ms: 0 }),
            );
        }
        let len: u64 = pcm.len() as u64;
        let scaled: u64 = if len <= u64::MAX / 1000 {
            len * 1000
        } else {
            u64::MAX
        };
        let duration_ms: u64 = scaled / 32000;
        let mut arguments: Vec<String> = vec!["--stdin".to_owned(), "--silent".to_owned()];
        if let Some(model) = &self.model {
            if !is_blank(model.as_str()) {
                if !model_dir_ready {
                    return Err(
                        BackendError::detailed(
                            BackendErrorCode::InvalidState,
                            "Linux local ASR model is not prepared: ",
                            model.as_str(),
                        ),
                    );
                }
                arguments.push("-d".to_owned());
                arguments.push(path_below(root, model.as_str()));
            }
        }
        proof {
            assert(texts(arguments@) =~= run_arguments(chosen_dir(root@, self.model)));
        }
        Ok(LinuxFinish::Run { pcm, duration_ms, arguments })
    }

    /// The recording is of no use any more.
    pub fn cancel(&mut self)
        ensures
            final(self).model == old(self).model,
            final(self).cancelled,
            final(self).pcm@.len() == 0,
    {
        self.cancelled = true;
        self.pcm = Vec::new();
    }
}

/// The program could not be started.
pub fn program_unavailable(error: &str) -> (r: BackendError)
    ensures
        r.is(
            BackendErrorCode::Unsupported,
            "Linux Generic/Qwen ASR runtime unavailable: "@ + error@,
        ),
{
    BackendError::detailed(
        BackendErrorCode::Unsupported,
        "Linux Generic/Qwen ASR runtime unavailable: ",
        error,
    )
}

/// The transcript that the program printed.
pub fn transcribed(succeeded: bool, stdout: &str, stderr: &str, duration_ms: u64) -> (r: Result<
    TranscriptOutput,
    BackendError,
>)
    ensures
        match r {
            Ok(t) => succeeded && t.text@ == trimmed(stdout@) && t.duration_ms == duration_ms,
            Err(e) => !succeeded && e.is(
                BackendErrorCode::Provider,
                if trimmed(stderr@).len() == 0 {
                    "Linux Generic/Qwen ASR failed"@
                } else {
                    trimmed(stderr@)
                },
            ),
        },
{
    if succeeded {
        return Ok(TranscriptOutput { text: trim(stdout), duration_ms });
    }
    let message: String = trim(stderr);
    if message.as_str().is_empty() {
        return Err(BackendError::new(BackendErrorCode::Provider, "Linux Generic/Qwen ASR failed"));
    }
    Err(BackendError::new(BackendErrorCode::Provider, message.as_str()))
}

/// More sound lasts at least as long.
pub proof fn law_sound_duration_grows(a: nat, b: nat)
    requires
        a <= b,
    ensures
        sound_ms(a) <= sound_ms(b),
{
}

/// The models live below the base that the user chose, if that is an absolute path,
/// and below the user's own data otherwise. Below any base they live in the same
/// place.
pub proof fn law_models_live_below_their_base(
    base: Option<String>,
    dirs: &UserDirs,
    dir: &str,
    open: String,
    open_text: &str,
    below_base: String,
    usual: String,
    r: String,
)
    requires
        base matches Some(b) ==> dir@ == b@,
        call_ensures(path_below, (dir, "OpenLess"), open),
        open_text@ == open@,
        call_ensures(path_below, (open_text, "models"), below_base),
        call_ensures(default_root, (dirs,), usual),
        call_ensures(configured_models_root, (base, dirs), r),
    ensures
        base is None ==> r@ == usual@,
        base matches Some(b) ==> if !blank(b@) && starts_with(b@, "/"@) {
            r@ == below_base@
        } else {
            r@ == usual@
        },
        crate::text::ends_with(r@, "OpenLess/models"@),
        crate::text::ends_with(usual@, "OpenLess/models"@),
{
    if let Some(b) = base {
        lemma_models_end(b@);
    }
    if let Some(data) = dirs.data_home {
        lemma_models_end(data@);
    } else {
        let home = match dirs.home {
            Some(home) => home@,
            None => dirs.temporary@,
        };
        lemma_models_end(below(below(home, ".local"@), "share"@));
    }
}

proof fn lemma_models_end(base: Seq<char>)
    ensures
        crate::text::ends_with(models_below(base), "OpenLess/models"@),
{
    reveal_strlit("/");
    reveal_strlit("OpenLess");
    reveal_strlit("models");
    reveal_strlit("OpenLess/models");
    let open = "OpenLess"@;
    let models = "models"@;
    assert(!starts_with(open, "/"@)) by {
        assert(open.subrange(0, 1)[0] == 'O');
    }
    assert(!starts_with(models, "/"@)) by {
        assert(models.subrange(0, 1)[0] == 'm');
    }
    let inner = below(base, open);
    let n = inner.len() as int;
    assert(inner[n - 1] == 's');
    assert(!crate::text::ends_with(inner, "/"@)) by {
        assert(inner.subrange(n - 1, n)[0] == 's');
    }
    let all = inner + "/"@ + models;
    assert(all == models_below(base));
    assert(all.subrange(all.len() - 15, all.len() as int) =~= "OpenLess/models"@);
}

/// The user's own data comes before their home, and that before the directory for
/// temporary files.
pub proof fn law_whose_directory_counts(
    dirs: &UserDirs,
    base: &str,
    local: String,
    local_text: &str,
    share: String,
    share_text: &str,
    open: String,
    open_text: &str,
    expected: String,
    r: String,
)
    requires
        call_ensures(default_root, (dirs,), r),
        dirs.data_home is None ==> {
            &&& dirs.home matches Some(h) ==> base@ == h@
            &&& dirs.home is None ==> base@ == dirs.temporary@
            &&& call_ensures(path_below, (base, ".local"), local)
            &&& local_text@ == local@
            &&& call_ensures(path_below, (local_text, "share"), share)
            &&& share_text@ == share@
        },
        dirs.data_home matches Some(d) ==> share_text@ == d@,
        call_ensures(path_below, (share_text, "OpenLess"), open),
        open_text@ == open@,
        call_ensures(path_below, (open_text, "models"), expected),
    ensures
        r@ == expected@,
{
}

/// The program is the one that was configured, and only an absolute path is looked
/// up as a file; another is asked for its version.
pub proof fn law_configured_program_is_run(
    configured: Option<String>,
    program: String,
    probe: QwenProbe,
)
    requires
        call_ensures(executable, (configured,), program),
        call_ensures(qwen_engine_available, (configured,), probe),
    ensures
        configured matches Some(c) ==> program@ == c@,
        configured is None ==> program@ == "qwen_asr"@,
        probe is IsFile <==> (configured matches Some(c) && starts_with(c@, "/"@)),
        probe is IsFile ==> probe->IsFile_0@ == program@,
        probe is AskVersion ==> probe->AskVersion_0@ == program@,
{
}

/// The directories of the user come first in the search and what was searched before
/// is searched still. Without a home, or with one that holds a colon, the search
/// stays as it is.
pub proof fn law_search_begins_at_home(
    home: Option<&str>,
    path: &str,
    h: &str,
    local: String,
    npm: String,
    bun: String,
    r: Option<String>,
)
    requires
        home matches Some(t) ==> t@ == h@,
        call_ensures(path_below, (h, ".local/bin"), local),
        call_ensures(path_below, (h, ".npm-global/bin"), npm),
        call_ensures(path_below, (h, ".bun/bin"), bun),
        call_ensures(augment_linux_path, (home, path), r),
    ensures
        r is Some <==> home is Some && !contains_text(h@, ":"@),
        r matches Some(all) ==> all@ == local@ + ":"@ + npm@ + ":"@ + bun@ + ":"@ + path@,
{
}

/// Linux serves the Qwen models of the generic runtime and no others.
pub proof fn law_linux_serves_qwen_only(
    target: &LinuxAsrTarget,
    runtime: LocalAsrRuntime,
    found: bool,
    r: Result<(), BackendError>,
    supports: bool,
    available: bool,
)
    requires
        call_ensures(ensure_qwen_target, (target,), r),
        call_ensures(LinuxGenericLocalAsrRuntime::supports_model, (target,), supports),
        call_ensures(
            LinuxGenericLocalAsrRuntime::engine_available,
            (runtime, found),
            available,
        ),
    ensures
        r is Ok <==> target.runtime == LocalAsrRuntime::Generic && target.is_qwen,
        supports <==> r is Ok,
        r matches Err(e) ==> e.code == BackendErrorCode::Unsupported,
        available <==> found && runtime == LocalAsrRuntime::Generic,
{
}

/// A model that was prepared is the one in use, can be preloaded and is shown, until
/// it is let go.
pub proof fn law_prepared_model_is_in_use(
    prepared: &mut LinuxGenericLocalAsrRuntime,
    kept: &mut LinuxGenericLocalAsrRuntime,
    released: &mut LinuxGenericLocalAsrRuntime,
    again: &mut LinuxGenericLocalAsrRuntime,
    target: LinuxAsrTarget,
    dir: ModelDir,
    later: ModelDir,
    runtime: LocalAsrRuntime,
    r: Result<String, BackendError>,
    shown: LinuxAsrStatus,
    held: Result<(), BackendError>,
    gone: LinuxAsrStatus,
    lost: Result<(), BackendError>,
)
    requires
        target.runtime == LocalAsrRuntime::Generic,
        target.is_qwen,
        dir.ready,
        call_ensures(LinuxGenericLocalAsrRuntime::prepare, (prepared, target, dir, false), r),
        call_ensures(LinuxGenericLocalAsrRuntime::runtime_status, (&*final(prepared), true), shown),
        *kept == *final(prepared),
        call_ensures(LinuxGenericLocalAsrRuntime::preload, (kept, &target, later), held),
        *released == *final(kept),
        call_ensures(LinuxGenericLocalAsrRuntime::release, (released, runtime), ()),
        call_ensures(LinuxGenericLocalAsrRuntime::runtime_status, (&*final(released), false), gone),
        *again == *final(released),
        call_ensures(LinuxGenericLocalAsrRuntime::preload, (again, &target, later), lost),
    ensures
        r is Ok && r->Ok_0@ == target.model_id@,
        shown.loaded && shown.available && shown.model_id is Some && shown.model_id->0@
            == target.model_id@ && shown.error is None,
        !final(prepared).cancelled,
        dir.parent is Some ==> final(prepared).root == dir.parent->0,
        dir.parent is None ==> final(prepared).root == old(prepared).root,
        held is Ok,
        gone.loaded <==> runtime != LocalAsrRuntime::Generic,
        !gone.available && gone.error is Some,
        lost is Ok <==> runtime != LocalAsrRuntime::Generic,
        lost is Err ==> lost->Err_0.code == BackendErrorCode::InvalidState,
{
}

/// A model that was not downloaded, or whose preparation was cancelled, does not take
/// the place of the one in use; one that Linux does not serve changes nothing.
pub proof fn law_failed_preparation_changes_no_model(
    rt: &mut LinuxGenericLocalAsrRuntime,
    target: LinuxAsrTarget,
    dir: ModelDir,
    cancelled: bool,
    r: Result<String, BackendError>,
)
    requires
        call_ensures(LinuxGenericLocalAsrRuntime::prepare, (rt, target, dir, cancelled), r),
    ensures
        r is Ok <==> target.runtime == LocalAsrRuntime::Generic && target.is_qwen && dir.ready
            && !cancelled,
        r is Err ==> final(rt).loaded_model == old(rt).loaded_model,
        !(target.runtime == LocalAsrRuntime::Generic && target.is_qwen) ==> *final(rt) == *old(rt),
        r is Err && target.runtime == LocalAsrRuntime::Generic && target.is_qwen ==> (
        r->Err_0.code == BackendErrorCode::InvalidState <==> !dir.ready),
        r is Err && target.runtime == LocalAsrRuntime::Generic && target.is_qwen && dir.ready
            ==> r->Err_0.code == BackendErrorCode::Cancelled,
{
}

/// A wish to stop a preparation is noted for the generic runtime alone, and a store
/// that was moved is found at its new place.
pub proof fn law_cancel_and_move_are_noted(
    stopped: &mut LinuxGenericLocalAsrRuntime,
    moved: &mut LinuxGenericLocalAsrRuntime,
    runtime: LocalAsrRuntime,
    root: String,
    r: Result<(), BackendError>,
)
    requires
        call_ensures(LinuxGenericLocalAsrRuntime::cancel_prepare, (stopped, runtime), r),
        call_ensures(LinuxGenericLocalAsrRuntime::rebind_storage, (moved, root), ()),
    ensures
        r is Ok <==> runtime == LocalAsrRuntime::Generic,
        r is Ok ==> final(stopped).cancelled && final(stopped).loaded_model == old(stopped).loaded_model,
        r is Err ==> *final(stopped) == *old(stopped) && r->Err_0.code == BackendErrorCode::Unsupported,
        final(moved).root == root,
        final(moved).loaded_model == old(moved).loaded_model,
{
}

/// A model can be tried out exactly if it is served, was downloaded and there is
/// something to listen to; then the program gets its directory and the sound, and
/// what it prints is the text.
pub proof fn law_model_is_tried_out(
    target: &LinuxAsrTarget,
    ready: bool,
    audio: bool,
    dir: &str,
    file: &str,
    succeeded: bool,
    out: &str,
    err: &str,
    cut: String,
    complaint: String,
    may: Result<(), BackendError>,
    arguments: Vec<String>,
    text: Result<String, BackendError>,
)
    requires
        call_ensures(check_test_model, (target, ready, audio), may),
        call_ensures(test_model_arguments, (dir, file), arguments),
        call_ensures(trim, (out,), cut),
        call_ensures(trim, (err,), complaint),
        call_ensures(test_model_text, (succeeded, out, err), text),
    ensures
        may is Ok <==> target.runtime == LocalAsrRuntime::Generic && target.is_qwen && ready && audio,
        arguments@.len() == 3,
        arguments@[0]@ == "-d"@,
        arguments@[1]@ == dir@,
        arguments@[2]@ == file@,
        text is Ok <==> succeeded,
        text matches Ok(t) ==> t@ == cut@,
        text matches Err(e) ==> e.message@ == complaint@ && e.code == BackendErrorCode::Provider,
{
    assert(texts(arguments@).len() == arguments@.len());
    assert(texts(arguments@)[0] == arguments@[0]@);
    assert(texts(arguments@)[1] == arguments@[1]@);
    assert(texts(arguments@)[2] == arguments@[2]@);
}

/// All that was heard, and nothing else, is given to the program, with the model that
/// was chosen. Silence is not, and neither is a recording that was cancelled.
pub proof fn law_recording_is_given_to_the_program(
    first: &mut LinuxGenericAsrSession,
    second: &mut LinuxGenericAsrSession,
    ended: &mut LinuxGenericAsrSession,
    model: Option<String>,
    name: &str,
    a: &Vec<u8>,
    b: &Vec<u8>,
    root: &str,
    dir: String,
    ready: bool,
    r: Result<LinuxFinish, BackendError>,
)
    requires
        call_ensures(LinuxGenericAsrSession::start, (model,), *first),
        call_ensures(LinuxGenericAsrSession::consume_pcm_chunk, (first, a), ()),
        *second == *final(first),
        call_ensures(LinuxGenericAsrSession::consume_pcm_chunk, (second, b), ()),
        *ended == *final(second),
        model matches Some(m) ==> name@ == m@,
        call_ensures(path_below, (root, name), dir),
        call_ensures(LinuxGenericAsrSession::finish, (ended, root, ready), r),
        a@.len() + b@.len() < 0x100_0000_0000,
    ensures
        ({
            let chosen = model is Some && !blank(model->0@);
            let heard = a@ + b@;
            &&& r is Ok && r->Ok_0 is Silence <==> heard.len() == 0
            &&& r is Ok && r->Ok_0 is Run <==> heard.len() > 0 && (chosen ==> ready)
            &&& r is Err ==> r->Err_0.code == BackendErrorCode::InvalidState
            &&& r is Ok && r->Ok_0 is Run ==> {
                let arguments = r->Ok_0->arguments@;
                &&& r->Ok_0->pcm@ == heard
                &&& r->Ok_0->duration_ms == heard.len() / 32
                &&& arguments.len() == (if chosen {
                    4int
                } else {
                    2
                })
                &&& arguments[0]@ == "--stdin"@ && arguments[1]@ == "--silent"@
                &&& chosen ==> arguments[2]@ == "-d"@ && arguments[3]@ == dir@
            }
        }),
        final(ended).pcm@.len() == 0,
{
    assert(old(first).pcm@ + a@ =~= a@);
    assert(old(ended).pcm@ =~= a@ + b@);
    let n = (a@ + b@).len();
    assert(n * 1000 / 32000 == n / 32);
    if r is Ok && r->Ok_0 is Run {
        let arguments = r->Ok_0->arguments@;
        assert(texts(arguments).len() == arguments.len());
        assert(texts(arguments)[0] == arguments[0]@);
        assert(texts(arguments)[1] == arguments[1]@);
        if model is Some && !blank(model->0@) {
            assert(texts(arguments)[2] == arguments[2]@);
            assert(texts(arguments)[3] == arguments[3]@);
        }
    }
}

/// After a cancel nothing is kept of a recording, what arrives later is not heard,
/// and its end is the cancel.
pub proof fn law_cancelled_recording_is_not_heard(
    cancelled: &mut LinuxGenericAsrSession,
    late: &mut LinuxGenericAsrSession,
    ended: &mut LinuxGenericAsrSession,
    a: &Vec<u8>,
    root: &str,
    ready: bool,
    r: Result<LinuxFinish, BackendError>,
)
    requires
        call_ensures(LinuxGenericAsrSession::cancel, (cancelled,), ()),
        *late == *final(cancelled),
        call_ensures(LinuxGenericAsrSession::consume_pcm_chunk, (late, a), ()),
        *ended == *final(late),
        call_ensures(LinuxGenericAsrSession::finish, (ended, root, ready), r),
    ensures
        final(late).pcm@.len() == 0,
        r is Err && r->Err_0.code == BackendErrorCode::Cancelled,
{
}

/// What the program prints is the transcript, without whitespace around it; where it
/// fails, what it complains of is the error, and there is always one.
pub proof fn law_printed_text_is_the_transcript(
    succeeded: bool,
    out: &str,
    err: &str,
    duration_ms: u64,
    why: &str,
    cut: String,
    complaint: String,
    r: Result<TranscriptOutput, BackendError>,
    missing: BackendError,
)
    requires
        call_ensures(trim, (out,), cut),
        call_ensures(trim, (err,), complaint),
        call_ensures(transcribed, (succeeded, out, err, duration_ms), r),
        call_ensures(program_unavailable, (why,), missing),
    ensures
        r is Ok <==> succeeded,
        r matches Ok(t) ==> t.text@ == cut@ && t.duration_ms == duration_ms,
        r matches Err(e) ==> e.code == BackendErrorCode::Provider && e.message@.len() > 0,
        r is Err && complaint@.len() > 0 ==> r->Err_0.message@ == complaint@,
        missing.code == BackendErrorCode::Unsupported && crate::text::ends_with(
            missing.message@,
            why@,
        ),
{
    reveal_strlit("Linux Generic/Qwen ASR failed");
    let head = "Linux Generic/Qwen ASR runtime unavailable: "@;
    let all = head + why@;
    assert(all.subrange(all.len() - why@.len(), all.len() as int) =~= why@);
}

/// A runtime starts below its directory with nothing loaded and nothing cancelled.
pub proof fn law_runtime_starts_empty(root: String, r: LinuxGenericLocalAsrRuntime)
    requires
        call_ensures(LinuxGenericLocalAsrRuntime::from_models_root, (root,), r),
    ensures
        r.root == root,
        r.loaded_model is None && !r.cancelled,
{
}

} // verus!
