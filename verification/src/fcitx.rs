//! The fcitx5 plugin on Linux: how it gets installed, what it is asked over
//! D-Bus, and what its answers mean.

use crate::paths::{below, path_below};
use crate::selection::InsertOutcome;
use crate::text::{decimal, decimal_text, join2};
use crate::types::{BackendError, BackendErrorCode, Platform};
use vstd::prelude::*;

verus! {

/// The plugin's library below the resources of an AppImage.
pub const FCITX_PLUGIN_LIBRARY: &'static str = "linux-fcitx5-plugin/libopenless.so";

/// The plugin's configuration below the resources of an AppImage.
pub const FCITX_PLUGIN_CONFIG: &'static str = "linux-fcitx5-plugin/openless.conf";

/// How the program was installed.
#[derive(Clone, Copy, PartialEq, Eq, Structural, Debug)]
pub enum LinuxPackageKind {
    AppImage,
    SystemPackage,
    Development,
}

#[derive(Debug)]
pub struct LinuxResourceLayout {
    pub package_kind: LinuxPackageKind,
    pub resource_root: String,
}

/// Where the plugin comes from and where it goes.
#[derive(Debug)]
pub struct FcitxPluginInstallPlan {
    pub source_library: Option<String>,
    pub source_config: Option<String>,
    pub target_library: String,
    pub target_config: String,
    pub copy_required: bool,
}

impl FcitxPluginInstallPlan {
    /// The plan for an installation. Only an AppImage brings its own plugin
    /// into the home directory; `resolved` says whether its resources can be
    /// reached.
    pub fn for_layout(
        layout: &LinuxResourceLayout,
        home: &str,
        resolved: Result<(), BackendError>,
    ) -> (r: Result<Self, BackendError>)
        ensures
            layout.package_kind == LinuxPackageKind::AppImage && resolved is Err ==> r == Err::<
                Self,
                BackendError,
            >(resolved->Err_0),
            layout.package_kind != LinuxPackageKind::AppImage || resolved is Ok ==> {
                &&& r matches Ok(plan)
                &&& plan.target_library@ == below(home@, ".local/lib/fcitx5/libopenless.so"@)
                &&& plan.target_config@ == below(home@, ".local/share/fcitx5/addon/openless.conf"@)
                &&& plan.copy_required == (layout.package_kind == LinuxPackageKind::AppImage)
                &&& plan.copy_required ==> {
                    &&& plan.source_library is Some
                    &&& plan.source_library->0@ == below(
                        layout.resource_root@,
                        FCITX_PLUGIN_LIBRARY@,
                    )
                    &&& plan.source_config is Some
                    &&& plan.source_config->0@ == below(layout.resource_root@, FCITX_PLUGIN_CONFIG@)
                }
                &&& !plan.copy_required ==> plan.source_library is None && plan.source_config
                    is None
            },
    {
        if layout.package_kind == LinuxPackageKind::AppImage {
            if let Err(e) = resolved {
                return Err(e);
            }
        }
        let target_library: String = path_below(home, ".local/lib/fcitx5/libopenless.so");
        let target_config: String = path_below(home, ".local/share/fcitx5/addon/openless.conf");
        if layout.package_kind == LinuxPackageKind::AppImage {
            let root: &str = layout.resource_root.as_str();
            Ok(
                FcitxPluginInstallPlan {
                    source_library: Some(path_below(root, FCITX_PLUGIN_LIBRARY)),
                    source_config: Some(path_below(root, FCITX_PLUGIN_CONFIG)),
                    target_library,
                    target_config,
                    copy_required: true,
                },
            )
        } else {
            Ok(
                FcitxPluginInstallPlan {
                    source_library: None,
                    source_config: None,
                    target_library,
                    target_config,
                    copy_required: false,
                },
            )
        }
    }
}

#[derive(Clone, Copy, PartialEq, Eq, Structural, Debug)]
pub enum FcitxPluginStatus {
    Ready,
    Missing,
    Updated,
}

/// Whether the user has the plugin: library and configuration are files.
pub fn user_plugin_available(library_is_file: bool, config_is_file: bool) -> (r: bool)
    ensures
        r == (library_is_file && config_is_file),
{
    library_is_file && config_is_file
}

/// The places where a system package puts the library.
pub fn system_library_paths() -> (r: Vec<&'static str>)
    ensures
        r@.len() == 3,
        r@[0]@ == "/usr/lib/x86_64-linux-gnu/fcitx5/libopenless.so"@,
        r@[1]@ == "/usr/lib64/fcitx5/libopenless.so"@,
        r@[2]@ == "/usr/lib/fcitx5/libopenless.so"@,
{
    vec![
        "/usr/lib/x86_64-linux-gnu/fcitx5/libopenless.so",
        "/usr/lib64/fcitx5/libopenless.so",
        "/usr/lib/fcitx5/libopenless.so",
    ]
}

/// Whether the system has the plugin: the library in one of its places, and
/// the configuration.
pub fn system_plugin_available(library_found: &Vec<bool>, config_is_file: bool) -> (r: bool)
    ensures
        r == (config_is_file && exists|i: int|
            0 <= i < library_found@.len() && #[trigger] library_found@[i]),
        r == (config_is_file && library_found@.contains(true)),
{
    let mut i: usize = 0;
    while i < library_found.len()
        invariant
            i <= library_found.len(),
            forall|k: int| 0 <= k < i ==> !#[trigger] library_found@[k],
        decreases library_found.len() - i,
    {
        if library_found[i] {
            assert(library_found@[i as int]);
            assert(library_found@[i as int] == true);
            return config_is_file;
        }
        i = i + 1;
    }
    false
}

/// Reading a file of the bundle.
pub fn read_non_empty(path: &str, read: Result<Vec<u8>, String>) -> (r: Result<
    Vec<u8>,
    BackendError,
>)
    ensures
        match read {
            Ok(bytes) => if bytes@.len() == 0 {
                r matches Err(e) && e.is(
                    BackendErrorCode::Platform,
                    "fcitx5 resource "@ + path@ + " is empty"@,
                )
            } else {
                r == Ok::<Vec<u8>, BackendError>(bytes)
            },
            Err(why) => r matches Err(e) && e.is(
                BackendErrorCode::Platform,
                "failed to read fcitx5 resource "@ + path@ + ": "@ + why@,
            ),
        },
{
    match read {
        Err(why) => {
            let head: String = join2("failed to read fcitx5 resource ", path).concat(": ");
            Err(BackendError::detailed(BackendErrorCode::Platform, head.as_str(), why.as_str()))
        },
        Ok(bytes) => {
            if bytes.len() == 0 {
                let head: String = join2("fcitx5 resource ", path);
                return Err(
                    BackendError::detailed(
                        BackendErrorCode::Platform,
                        head.as_str(),
                        " is empty",
                    ),
                );
            }
            Ok(bytes)
        },
    }
}

/// What stands where a file is to go.
#[derive(Debug)]
pub enum TargetRead {
    Bytes(Vec<u8>),
    Missing,
    Failed(String),
}

fn same_bytes(a: &Vec<u8>, b: &Vec<u8>) -> (r: bool)
    ensures
        r == (a@ == b@),
{
    if a.len() != b.len() {
        return false;
    }
    let mut i: usize = 0;
    while i < a.len()
        invariant
            i <= a.len(),
            a.len() == b.len(),
            forall|k: int| 0 <= k < i ==> a@[k] == b@[k],
        decreases a.len() - i,
    {
        if a[i] != b[i] {
            return false;
        }
        i = i + 1;
    }
    proof {
        assert(a@ =~= b@);
    }
    true
}

/// Whether a file has to be written: it is missing or holds something else.
pub fn target_differs(path: &str, target: &TargetRead, expected: &Vec<u8>) -> (r: Result<
    bool,
    BackendError,
>)
    ensures
        match *target {
            TargetRead::Bytes(b) => r == Ok::<bool, BackendError>(b@ != expected@),
            TargetRead::Missing => r == Ok::<bool, BackendError>(true),
            TargetRead::Failed(why) => r matches Err(e) && e.is(
                BackendErrorCode::Platform,
                "failed to read existing fcitx5 file "@ + path@ + ": "@ + why@,
            ),
        },
{
    match target {
        TargetRead::Bytes(b) => Ok(!same_bytes(b, expected)),
        TargetRead::Missing => Ok(true),
        TargetRead::Failed(why) => {
            let head: String = join2("failed to read existing fcitx5 file ", path).concat(": ");
            Err(BackendError::detailed(BackendErrorCode::Platform, head.as_str(), why.as_str()))
        },
    }
}

/// What has to be written.
#[derive(Debug)]
pub struct InstallDecision {
    pub status: FcitxPluginStatus,
    /// The new library.
    pub write_library: Option<Vec<u8>>,
    /// The new configuration.
    pub write_config: Option<Vec<u8>>,
}

/// What the host finds at the paths of a plan.
#[derive(Debug)]
pub struct InstallFindings {
    pub system_available: bool,
    pub user_available: bool,
    pub bundled_library: Result<Vec<u8>, String>,
    pub bundled_config: Result<Vec<u8>, String>,
    pub target_library: TargetRead,
    pub target_config: TargetRead,
}

/// A read of the bundle that gives bytes.
pub open spec fn usable(read: Result<Vec<u8>, String>) -> bool {
    read is Ok && read->Ok_0@.len() > 0
}

/// What is said of a read of the bundle that gives none.
pub open spec fn unusable_text(path: Seq<char>, read: Result<Vec<u8>, String>) -> Seq<char> {
    match read {
        Ok(_) => "fcitx5 resource "@ + path + " is empty"@,
        Err(why) => "failed to read fcitx5 resource "@ + path + ": "@ + why@,
    }
}

/// A file has to be written.
pub open spec fn outdated(target: TargetRead, bytes: Seq<u8>) -> bool {
    match target {
        TargetRead::Bytes(b) => b@ != bytes,
        _ => true,
    }
}

/// Decides what has to be written so that the plugin is in place. A plan that
/// copies nothing only looks; one that copies writes what is missing or has
/// changed, and nothing else.
pub fn ensure_plugin_installed(plan: &FcitxPluginInstallPlan, found: InstallFindings) -> (r: Result<
    InstallDecision,
    BackendError,
>)
    ensures
        !plan.copy_required ==> (r matches Ok(d) && d.write_library is None && d.write_config is None
            && d.status == (if found.system_available || found.user_available {
            FcitxPluginStatus::Ready
        } else {
            FcitxPluginStatus::Missing
        })),
        plan.copy_required && plan.source_library is None ==> (r matches Err(e) && e.is(
            BackendErrorCode::InvalidArgument,
            "AppImage plugin plan is missing the bundled library"@,
        )),
        plan.copy_required && plan.source_library is Some && plan.source_config is None ==> (
        r matches Err(e) && e.is(
            BackendErrorCode::InvalidArgument,
            "AppImage plugin plan is missing the bundled config"@,
        )),
        plan.copy_required && plan.source_library is Some && plan.source_config is Some ==> {
            if !usable(found.bundled_library) {
                r matches Err(e) && e.is(
                    BackendErrorCode::Platform,
                    unusable_text(plan.source_library->0@, found.bundled_library),
                )
            } else if !usable(found.bundled_config) {
                r matches Err(e) && e.is(
                    BackendErrorCode::Platform,
                    unusable_text(plan.source_config->0@, found.bundled_config),
                )
            } else if found.target_library is Failed {
                r matches Err(e) && e.is(
                    BackendErrorCode::Platform,
                    "failed to read existing fcitx5 file "@ + plan.target_library@ + ": "@
                        + found.target_library->Failed_0@,
                )
            } else if found.target_config is Failed {
                r matches Err(e) && e.is(
                    BackendErrorCode::Platform,
                    "failed to read existing fcitx5 file "@ + plan.target_config@ + ": "@
                        + found.target_config->Failed_0@,
                )
            } else {
                let library = found.bundled_library->Ok_0;
                let config = found.bundled_config->Ok_0;
                let lib_old = outdated(found.target_library, library@);
                let conf_old = outdated(found.target_config, config@);
                &&& r matches Ok(d)
                &&& d.write_library == (if lib_old {
                    Some(library)
                } else {
                    None
                })
                &&& d.write_config == (if conf_old {
                    Some(config)
                } else {
                    None
                })
                &&& d.status == (if lib_old || conf_old {
                    FcitxPluginStatus::Updated
                } else {
                    FcitxPluginStatus::Ready
                })
            }
        },
{
    if !plan.copy_required {
        let status: FcitxPluginStatus = if found.system_available || found.user_available {
            FcitxPluginStatus::Ready
        } else {
            FcitxPluginStatus::Missing
        };
        return Ok(InstallDecision { status, write_library: None, write_config: None });
    }
    let source_library: &String = match &plan.source_library {
        Some(p) => p,
        None => return Err(
            BackendError::new(
                BackendErrorCode::InvalidArgument,
                "AppImage plugin plan is missing the bundled library",
            ),
        ),
    };
    let source_config: &String = match &plan.source_config {
        Some(p) => p,
        None => return Err(
            BackendError::new(
                BackendErrorCode::InvalidArgument,
                "AppImage plugin plan is missing the bundled config",
            ),
        ),
    };
    let library: Vec<u8> = match read_non_empty(source_library.as_str(), found.bundled_library) {
        Ok(b) => b,
        Err(e) => return Err(e),
    };
    let config: Vec<u8> = match read_non_empty(source_config.as_str(), found.bundled_config) {
        Ok(b) => b,
        Err(e) => return Err(e),
    };
    let library_changed: bool = match target_differs(
        plan.target_library.as_str(),
        &found.target_library,
        &library,
    ) {
        Ok(b) => b,
        Err(e) => return Err(e),
    };
    let config_changed: bool = match target_differs(
        plan.target_config.as_str(),
        &found.target_config,
        &config,
    ) {
        Ok(b) => b,
        Err(e) => return Err(e),
    };
    let status: FcitxPluginStatus = if library_changed || config_changed {
        FcitxPluginStatus::Updated
    } else {
        FcitxPluginStatus::Ready
    };
    Ok(
        InstallDecision {
            status,
            write_library: if library_changed {
                Some(library)
            } else {
                None
            },
            write_config: if config_changed {
                Some(config)
            } else {
                None
            },
        },
    )
}

/// The steps that put a file in place without ever leaving half of it there.
#[derive(Clone, Copy, PartialEq, Eq, Structural, Debug)]
pub enum WriteStep {
    CreateDirectory,
    /// Write the bytes under another name.
    Stage,
    MakeExecutable,
    RemoveOld,
    /// Give the file its name.
    Commit,
}

/// The steps in order.
pub open spec fn write_steps(executable: bool, exists_already: bool) -> Seq<WriteStep> {
    seq![WriteStep::CreateDirectory, WriteStep::Stage] + (if executable {
        seq![WriteStep::MakeExecutable]
    } else {
        Seq::<WriteStep>::empty()
    }) + (if exists_already {
        seq![WriteStep::RemoveOld]
    } else {
        Seq::<WriteStep>::empty()
    }) + seq![WriteStep::Commit]
}

/// The steps that put a file in place. A path without a parent is refused.
pub fn atomic_write(has_parent: bool, executable: bool, exists_already: bool) -> (r: Result<
    Vec<WriteStep>,
    BackendError,
>)
    ensures
        match r {
            Ok(steps) => has_parent && steps@ == write_steps(executable, exists_already),
            Err(e) => !has_parent && e.is(
                BackendErrorCode::InvalidArgument,
                "fcitx5 target has no parent directory"@,
            ),
        },
{
    if !has_parent {
        return Err(
            BackendError::new(
                BackendErrorCode::InvalidArgument,
                "fcitx5 target has no parent directory",
            ),
        );
    }
    let mut steps: Vec<WriteStep> = vec![WriteStep::CreateDirectory, WriteStep::Stage];
    if executable {
        steps.push(WriteStep::MakeExecutable);
    }
    if exists_already {
        steps.push(WriteStep::RemoveOld);
    }
    steps.push(WriteStep::Commit);
    proof {
        assert(steps@ =~= write_steps(executable, exists_already));
    }
    Ok(steps)
}

/// What is said of a step that failed.
pub open spec fn write_step_text(step: WriteStep) -> Seq<char> {
    match step {
        WriteStep::CreateDirectory => "failed to create fcitx5 target directory: "@,
        WriteStep::Stage => "failed to stage fcitx5 resource: "@,
        WriteStep::MakeExecutable => "failed to set fcitx5 plugin permissions: "@,
        WriteStep::RemoveOld => "failed to replace fcitx5 resource: "@,
        WriteStep::Commit => "failed to commit fcitx5 resource: "@,
    }
}

pub fn write_step_error(step: WriteStep, error: &str) -> (r: BackendError)
    ensures
        r.is(BackendErrorCode::Platform, write_step_text(step) + error@),
{
    let head: &'static str = match step {
        WriteStep::CreateDirectory => "failed to create fcitx5 target directory: ",
        WriteStep::Stage => "failed to stage fcitx5 resource: ",
        WriteStep::MakeExecutable => "failed to set fcitx5 plugin permissions: ",
        WriteStep::RemoveOld => "failed to replace fcitx5 resource: ",
        WriteStep::Commit => "failed to commit fcitx5 resource: ",
    };
    BackendError::detailed(BackendErrorCode::Platform, head, error)
}

/// The name under which a file is staged, next to its place.
pub fn staging_name(file_name: Option<&str>, process_id: u32) -> (r: String)
    ensures
        r@ == "."@ + (match file_name {
            Some(n) => n@,
            None => "openless"@,
        }) + "."@ + decimal(process_id as nat) + ".tmp"@,
{
    let name: &str = match file_name {
        Some(n) => n,
        None => "openless",
    };
    let digits: String = decimal_text(process_id as u64);
    join2(".", name).concat(".").concat(digits.as_str()).concat(".tmp")
}

/// Inserts text through the plugin, with the clipboard behind it if the user
/// wants that.
#[derive(Debug)]
pub struct Fcitx5TextInserter {
    pub clipboard_fallback: bool,
}

/// What follows an attempt of the plugin.
#[derive(Debug)]
pub enum InsertStep {
    /// Put this text into the clipboard.
    Copy(String),
    Finished(Result<InsertOutcome, BackendError>),
}

/// `step` follows the attempt: a copy is tried exactly on Linux, after a
/// failure, with the fallback on.
pub open spec fn insert_follows(
    step: InsertStep,
    platform: Platform,
    text: Seq<char>,
    committed: Result<(), BackendError>,
    clipboard_fallback: bool,
) -> bool {
    if platform != Platform::Linux {
        step matches InsertStep::Finished(Err(e)) && e.is(
            BackendErrorCode::Unsupported,
            "fcitx5 insertion is only available on Linux"@,
        )
    } else {
        match committed {
            Ok(()) => step == InsertStep::Finished(Ok(InsertOutcome::Inserted)),
            Err(e) => if clipboard_fallback {
                step matches InsertStep::Copy(t) && t@ == text
            } else {
                step == InsertStep::Finished(Err(e))
            },
        }
    }
}

impl Fcitx5TextInserter {
    pub fn new(clipboard_fallback: bool) -> (r: Self)
        ensures
            r.clipboard_fallback == clipboard_fallback,
    {
        Fcitx5TextInserter { clipboard_fallback }
    }

    /// The plugin was asked to insert the text. The copy is tried only where
    /// that failed and the user allows it.
    pub fn commit_tried(
        &self,
        platform: Platform,
        text: &str,
        committed: Result<(), BackendError>,
    ) -> (r: InsertStep)
        ensures
            insert_follows(r, platform, text@, committed, self.clipboard_fallback),
    {
        if platform != Platform::Linux {
            return InsertStep::Finished(
                Err(
                    BackendError::new(
                        BackendErrorCode::Unsupported,
                        "fcitx5 insertion is only available on Linux",
                    ),
                ),
            );
        }
        match committed {
            Ok(()) => InsertStep::Finished(Ok(InsertOutcome::Inserted)),
            Err(e) => if self.clipboard_fallback {
                InsertStep::Copy(text.to_owned())
            } else {
                InsertStep::Finished(Err(e))
            },
        }
    }

    /// The text was copied in place of the insertion, or could not be.
    pub fn copy_tried(copied: Result<(), BackendError>) -> (r: Result<InsertOutcome, BackendError>)
        ensures
            r == (match copied {
                Ok(()) => Ok::<InsertOutcome, BackendError>(InsertOutcome::CopiedFallback),
                Err(e) => Err::<InsertOutcome, BackendError>(e),
            }),
    {
        match copied {
            Ok(()) => Ok(InsertOutcome::CopiedFallback),
            Err(e) => Err(e),
        }
    }

    /// The outcome of an insertion. `copied` counts only where the first step
    /// asks for a copy.
    pub fn insert(
        &self,
        platform: Platform,
        text: &str,
        committed: Result<(), BackendError>,
        copied: Result<(), BackendError>,
    ) -> (r: Result<InsertOutcome, BackendError>)
        ensures
            if platform != Platform::Linux {
                r matches Err(e) && e.is(
                    BackendErrorCode::Unsupported,
                    "fcitx5 insertion is only available on Linux"@,
                )
            } else {
                match committed {
                    Ok(()) => r == Ok::<InsertOutcome, BackendError>(InsertOutcome::Inserted),
                    Err(e) => if !self.clipboard_fallback {
                        r == Err::<InsertOutcome, BackendError>(e)
                    } else {
                        match copied {
                            Ok(()) => r == Ok::<InsertOutcome, BackendError>(
                                InsertOutcome::CopiedFallback,
                            ),
                            Err(c) => r == Err::<InsertOutcome, BackendError>(c),
                        }
                    },
                }
            },
    {
        match self.commit_tried(platform, text, committed) {
            InsertStep::Finished(outcome) => outcome,
            InsertStep::Copy(_) => Self::copy_tried(copied),
        }
    }
}

/// The arguments of a call to the plugin.
#[derive(Debug)]
pub enum FcitxArguments {
    Text(String),
    TextList(Vec<String>),
    Key { symbol: u32, states: u32 },
    Nothing,
}

/// A call to the plugin.
#[derive(Debug)]
pub struct FcitxCall {
    pub method: String,
    pub arguments: FcitxArguments,
}

/// `r` is the call, or says that only Linux has the plugin.
pub open spec fn linux_call(
    r: Result<FcitxCall, BackendError>,
    platform: Platform,
    method: Seq<char>,
    arguments: FcitxArguments,
    elsewhere: Seq<char>,
) -> bool {
    match r {
        Ok(call) => platform == Platform::Linux && call.method@ == method && call.arguments
            == arguments,
        Err(e) => platform != Platform::Linux && e.is(BackendErrorCode::Unsupported, elsewhere),
    }
}

fn make_call(platform: Platform, method: &str, arguments: FcitxArguments, elsewhere: &str) -> (r: Result<
    FcitxCall,
    BackendError,
>)
    ensures
        linux_call(r, platform, method@, arguments, elsewhere@),
{
    if platform != Platform::Linux {
        return Err(BackendError::new(BackendErrorCode::Unsupported, elsewhere));
    }
    Ok(FcitxCall { method: method.to_owned(), arguments })
}

/// The call that commits `text` at the cursor.
pub fn commit_text(platform: Platform, text: String) -> (r: Result<FcitxCall, BackendError>)
    ensures
        linux_call(
            r,
            platform,
            "CommitText"@,
            FcitxArguments::Text(text),
            "fcitx5 is only available on Linux"@,
        ),
{
    make_call(
        platform,
        "CommitText",
        FcitxArguments::Text(text),
        "fcitx5 is only available on Linux",
    )
}

/// What the answer to a commit means: without a focused window there was
/// nowhere to put the text.
pub fn commit_text_reply(reply: Result<bool, BackendError>) -> (r: Result<(), BackendError>)
    ensures
        match reply {
            Ok(true) => r is Ok,
            Ok(false) => r matches Err(e) && e.is(
                BackendErrorCode::Platform,
                "fcitx5 has no focused input context for text insertion"@,
            ),
            Err(e) => r == Err::<(), BackendError>(e),
        },
{
    match reply {
        Err(e) => Err(e),
        Ok(committed) => if committed {
            Ok(())
        } else {
            Err(
                BackendError::new(
                    BackendErrorCode::Platform,
                    "fcitx5 has no focused input context for text insertion",
                ),
            )
        },
    }
}

/// The call that sets the dictation keys by name.
pub fn set_hotkeys(platform: Platform, keys: Vec<String>) -> (r: Result<FcitxCall, BackendError>)
    ensures
        linux_call(
            r,
            platform,
            "SetHotkey"@,
            FcitxArguments::TextList(keys),
            "fcitx5 is only available on Linux"@,
        ),
{
    make_call(
        platform,
        "SetHotkey",
        FcitxArguments::TextList(keys),
        "fcitx5 is only available on Linux",
    )
}

/// The call that sets the agent key by number.
pub fn set_less_computer_hotkey_raw(platform: Platform, symbol: u32, states: u32) -> (r: Result<
    FcitxCall,
    BackendError,
>)
    ensures
        linux_call(
            r,
            platform,
            "SetLessComputerHotkeyRaw"@,
            (FcitxArguments::Key { symbol, states }),
            "fcitx5 is only available on Linux"@,
        ),
{
    make_call(
        platform,
        "SetLessComputerHotkeyRaw",
        FcitxArguments::Key { symbol, states },
        "fcitx5 is only available on Linux",
    )
}

/// The call that sets some key by number.
pub fn set_raw_hotkey(platform: Platform, method: &str, symbol: u32, states: u32) -> (r: Result<
    FcitxCall,
    BackendError,
>)
    ensures
        linux_call(
            r,
            platform,
            method@,
            (FcitxArguments::Key { symbol, states }),
            "fcitx5 hotkey settings are only available on Linux"@,
        ),
{
    make_call(
        platform,
        method,
        FcitxArguments::Key { symbol, states },
        "fcitx5 hotkey settings are only available on Linux",
    )
}

/// The call that sets a dictation key of the user's own.
pub fn set_custom_dictation_trigger(platform: Platform, key: String) -> (r: Result<
    FcitxCall,
    BackendError,
>)
    ensures
        linux_call(
            r,
            platform,
            "SetCustomDictationTrigger"@,
            FcitxArguments::Text(key),
            "fcitx5 hotkey settings are only available on Linux"@,
        ),
{
    make_call(
        platform,
        "SetCustomDictationTrigger",
        FcitxArguments::Text(key),
        "fcitx5 hotkey settings are only available on Linux",
    )
}

/// The call that asks for the selected text.
pub fn selection_text(platform: Platform) -> (r: Result<FcitxCall, BackendError>)
    ensures
        linux_call(
            r,
            platform,
            "GetSelectionText"@,
            FcitxArguments::Nothing,
            "fcitx5 is only available on Linux"@,
        ),
{
    make_call(
        platform,
        "GetSelectionText",
        FcitxArguments::Nothing,
        "fcitx5 is only available on Linux",
    )
}

/// Whether the plugin can be reached: only on Linux, and only if it answered.
pub fn available(platform: Platform, answered: bool) -> (r: bool)
    ensures
        r == (platform == Platform::Linux && answered),
{
    platform == Platform::Linux && answered
}

/// The service behind the plugin cannot be reached.
pub fn dbus_error(error: &str) -> (r: BackendError)
    ensures
        r.is(BackendErrorCode::Unsupported, "fcitx5 DBus service is unavailable: "@ + error@),
{
    BackendError::detailed(
        BackendErrorCode::Unsupported,
        "fcitx5 DBus service is unavailable: ",
        error,
    )
}

/// The old file goes only after the new one is complete, and the new one gets
/// its name last.
pub proof fn law_write_is_staged(executable: bool, exists_already: bool)
    ensures
        ({
            let s = write_steps(executable, exists_already);
            &&& s[1] == WriteStep::Stage
            &&& s.last() == WriteStep::Commit
            &&& forall|i: int|
                0 <= i < s.len() && #[trigger] s[i] == WriteStep::RemoveOld ==> 1 < i < s.len() - 1
        }),
{
}

/// Only an AppImage brings its plugin along, from below its resources, and only there
/// can the resources be out of reach. The plugin goes to the same two places below
/// the home, whatever the installation.
pub proof fn law_appimage_brings_its_plugin(
    layout: &LinuxResourceLayout,
    other: &LinuxResourceLayout,
    home: &str,
    root: &str,
    resolved: Result<(), BackendError>,
    fine: Result<(), BackendError>,
    library: String,
    config: String,
    r: Result<FcitxPluginInstallPlan, BackendError>,
    q: Result<FcitxPluginInstallPlan, BackendError>,
)
    requires
        root@ == layout.resource_root@,
        call_ensures(path_below, (root, "linux-fcitx5-plugin/libopenless.so"), library),
        call_ensures(path_below, (root, "linux-fcitx5-plugin/openless.conf"), config),
        call_ensures(FcitxPluginInstallPlan::for_layout, (layout, home, resolved), r),
        call_ensures(FcitxPluginInstallPlan::for_layout, (other, home, fine), q),
        fine is Ok,
    ensures
        q is Ok,
        r is Err <==> layout.package_kind == LinuxPackageKind::AppImage && resolved is Err,
        r is Err ==> r->Err_0 == resolved->Err_0,
        r is Ok ==> {
            let plan = r->Ok_0;
            &&& plan.target_library@ == q->Ok_0.target_library@
            &&& plan.target_config@ == q->Ok_0.target_config@
            &&& plan.copy_required <==> layout.package_kind == LinuxPackageKind::AppImage
            &&& plan.source_library is Some <==> plan.copy_required
            &&& plan.source_config is Some <==> plan.copy_required
            &&& plan.copy_required ==> plan.source_library->0@ == library@
                && plan.source_config->0@ == config@
        },
{
}

/// The plugin is there if both of its files are; on the system the library may be in
/// any of its places.
pub proof fn law_both_files_make_a_plugin(
    library: bool,
    config: bool,
    found: &Vec<bool>,
    k: int,
    user: bool,
    system: bool,
)
    requires
        call_ensures(user_plugin_available, (library, config), user),
        call_ensures(system_plugin_available, (found, config), system),
        0 <= k < found@.len(),
    ensures
        user <==> library && config,
        found@[k] ==> (system <==> config),
        system ==> config && found@.contains(true),
{
    if found@[k] {
        assert(found@[k] == true);
    }
}

/// A file of the bundle counts as it is, unless it cannot be read or is empty.
pub proof fn law_bundle_file_counts_as_it_is(
    path: &str,
    read: Result<Vec<u8>, String>,
    r: Result<Vec<u8>, BackendError>,
)
    requires
        call_ensures(read_non_empty, (path, read), r),
    ensures
        r is Ok <==> read is Ok && read->Ok_0@.len() > 0,
        r is Ok ==> r->Ok_0 == read->Ok_0,
        r is Err ==> r->Err_0.code == BackendErrorCode::Platform,
{
}

/// What was written is not written again: a file that holds the expected bytes does
/// not differ, and one that is missing or holds others does.
pub proof fn law_written_file_does_not_differ(
    path: &str,
    target: &TargetRead,
    expected: &Vec<u8>,
    r: Result<bool, BackendError>,
)
    requires
        call_ensures(target_differs, (path, target, expected), r),
    ensures
        r is Err <==> *target is Failed,
        *target is Missing ==> r->Ok_0,
        (*target matches TargetRead::Bytes(b) ==> (r->Ok_0 <==> b@ != expected@)),
{
}

/// Nothing is written that is there already, and after what was decided is written,
/// the plugin is ready and there is nothing left to write.
pub proof fn law_installing_twice_writes_once(
    plan: &FcitxPluginInstallPlan,
    found: InstallFindings,
    later: InstallFindings,
    r: Result<InstallDecision, BackendError>,
    q: Result<InstallDecision, BackendError>,
)
    requires
        plan.copy_required,
        call_ensures(ensure_plugin_installed, (plan, found), r),
        r is Ok,
        later.bundled_library == found.bundled_library,
        later.bundled_config == found.bundled_config,
        later.target_library == (match r->Ok_0.write_library {
            Some(bytes) => TargetRead::Bytes(bytes),
            None => found.target_library,
        }),
        later.target_config == (match r->Ok_0.write_config {
            Some(bytes) => TargetRead::Bytes(bytes),
            None => found.target_config,
        }),
        call_ensures(ensure_plugin_installed, (plan, later), q),
    ensures
        (r->Ok_0.write_library matches Some(b) ==> found.bundled_library == Ok::<
            Vec<u8>,
            String,
        >(b)),
        (r->Ok_0.write_config matches Some(b) ==> found.bundled_config == Ok::<Vec<u8>, String>(b)),
        found.target_library is Missing ==> r->Ok_0.write_library is Some,
        found.target_config is Missing ==> r->Ok_0.write_config is Some,
        r->Ok_0.status == FcitxPluginStatus::Updated <==> r->Ok_0.write_library is Some
            || r->Ok_0.write_config is Some,
        q is Ok,
        q->Ok_0.status == FcitxPluginStatus::Ready,
        q->Ok_0.write_library is None && q->Ok_0.write_config is None,
        later.target_library is Bytes && later.target_library->Bytes_0@
            == found.bundled_library->Ok_0@,
        later.target_config is Bytes && later.target_config->Bytes_0@
            == found.bundled_config->Ok_0@,
{
}

/// A plan that brings nothing along only looks: the plugin of the system or that of
/// the user is enough. One that brings the plugin along fails exactly where a file of
/// it cannot be used or what is in its place cannot be read.
pub proof fn law_when_installing_fails(
    plan: &FcitxPluginInstallPlan,
    found: InstallFindings,
    r: Result<InstallDecision, BackendError>,
)
    requires
        call_ensures(ensure_plugin_installed, (plan, found), r),
    ensures
        !plan.copy_required ==> r is Ok && r->Ok_0.write_library is None && r->Ok_0.write_config
            is None,
        !plan.copy_required && (found.system_available || found.user_available)
            ==> r->Ok_0.status == FcitxPluginStatus::Ready,
        !plan.copy_required && !found.system_available && !found.user_available
            ==> r->Ok_0.status == FcitxPluginStatus::Missing,
        plan.copy_required ==> (r is Ok <==> plan.source_library is Some && plan.source_config
            is Some && found.bundled_library is Ok && found.bundled_library->Ok_0@.len() > 0
            && found.bundled_config is Ok && found.bundled_config->Ok_0@.len() > 0 && !(
        found.target_library is Failed) && !(found.target_config is Failed)),
{
}

/// The steps that put a file in place: the directory, the new file under another name,
/// its permission and the end of the old one where there is need, and last its name.
pub proof fn law_steps_that_put_a_file_in_place(
    has_parent: bool,
    executable: bool,
    exists_already: bool,
    r: Result<Vec<WriteStep>, BackendError>,
)
    requires
        call_ensures(atomic_write, (has_parent, executable, exists_already), r),
    ensures
        r is Ok <==> has_parent,
        r is Err ==> r->Err_0.code == BackendErrorCode::InvalidArgument,
        r is Ok ==> {
            let s = r->Ok_0@;
            &&& s.len() == 3 + (if executable {
                1int
            } else {
                0
            }) + (if exists_already {
                1int
            } else {
                0
            })
            &&& s[0] == WriteStep::CreateDirectory
            &&& s[1] == WriteStep::Stage
            &&& s.last() == WriteStep::Commit
            &&& executable ==> s[2] == WriteStep::MakeExecutable
            &&& exists_already ==> s[s.len() - 2] == WriteStep::RemoveOld
        },
{
}

/// A step that failed is told in the words of the failure, and no two steps alike.
pub proof fn law_failed_step_is_told(step: WriteStep, error: &str, r: BackendError, d: BackendError)
    requires
        call_ensures(write_step_error, (step, error), r),
        call_ensures(dbus_error, (error,), d),
    ensures
        r.code == BackendErrorCode::Platform && !r.retryable,
        crate::text::ends_with(r.message@, error@),
        d.code == BackendErrorCode::Unsupported && !d.retryable,
        crate::text::ends_with(d.message@, error@),
{
    let told = r.message@;
    assert(told.subrange(told.len() - error@.len(), told.len() as int) =~= error@);
    let said = d.message@;
    assert(said.subrange(said.len() - error@.len(), said.len() as int) =~= error@);
}

/// A file is staged under another name than its own, hidden and different for every
/// process.
pub proof fn law_files_are_staged_apart(name: &str, p: u32, q: u32, of_p: String, of_q: String)
    requires
        call_ensures(staging_name, (Some(name), p), of_p),
        call_ensures(staging_name, (Some(name), q), of_q),
    ensures
        of_p@ == of_q@ ==> p == q,
        of_p@[0] == '.',
        of_p@.len() > name@.len(),
        of_p@.subrange(1, 1 + name@.len() as int) == name@,
{
    reveal_strlit(".");
    reveal_strlit(".tmp");
    let n = name@.len() as int;
    crate::text::lemma_decimal(p as nat);
    crate::text::lemma_decimal(q as nat);
    assert(of_p@.subrange(1, 1 + n) =~= name@);
    assert(of_p@.subrange(n + 2, of_p@.len() - 4) =~= decimal(p as nat));
    assert(of_q@.subrange(n + 2, of_q@.len() - 4) =~= decimal(q as nat));
}

/// A text that the plugin committed is inserted, and is never copied too. After a
/// failure the text is copied as it is if the user allows that, and otherwise the
/// failure is told; nothing is done anywhere but on Linux.
pub proof fn law_committed_text_is_inserted(
    inserter: &Fcitx5TextInserter,
    platform: Platform,
    text: &str,
    committed: Result<(), BackendError>,
    copied: Result<(), BackendError>,
    step: InsertStep,
    r: Result<InsertOutcome, BackendError>,
)
    requires
        call_ensures(Fcitx5TextInserter::commit_tried, (inserter, platform, text, committed), step),
        call_ensures(Fcitx5TextInserter::insert, (inserter, platform, text, committed, copied), r),
    ensures
        platform == Platform::Linux && committed is Ok ==> r == Ok::<InsertOutcome, BackendError>(
            InsertOutcome::Inserted,
        ),
        step is Copy <==> platform == Platform::Linux && committed is Err
            && inserter.clipboard_fallback,
        step is Copy ==> step->Copy_0@ == text@,
        step is Copy ==> (r is Ok <==> copied is Ok),
        step is Copy && r is Ok ==> r->Ok_0 == InsertOutcome::CopiedFallback,
        step is Copy && r is Err ==> r->Err_0 == copied->Err_0,
        step is Finished && platform == Platform::Linux ==> step->Finished_0 == r,
        platform != Platform::Linux ==> r is Err && r->Err_0.code == BackendErrorCode::Unsupported,
        platform == Platform::Linux && committed is Err && !inserter.clipboard_fallback ==> r
            == Err::<InsertOutcome, BackendError>(committed->Err_0),
{
}

/// The plugin is asked for what was meant, with what was given, and only on Linux.
pub proof fn law_plugin_is_asked_for_what_was_meant(
    platform: Platform,
    text: String,
    keys: Vec<String>,
    method: &str,
    symbol: u32,
    states: u32,
    commit: Result<FcitxCall, BackendError>,
    hotkeys: Result<FcitxCall, BackendError>,
    agent: Result<FcitxCall, BackendError>,
    raw: Result<FcitxCall, BackendError>,
    custom: Result<FcitxCall, BackendError>,
    selection: Result<FcitxCall, BackendError>,
)
    requires
        call_ensures(commit_text, (platform, text), commit),
        call_ensures(set_hotkeys, (platform, keys), hotkeys),
        call_ensures(set_less_computer_hotkey_raw, (platform, symbol, states), agent),
        call_ensures(set_raw_hotkey, (platform, method, symbol, states), raw),
        call_ensures(set_custom_dictation_trigger, (platform, text), custom),
        call_ensures(selection_text, (platform,), selection),
    ensures
        platform != Platform::Linux ==> commit is Err && hotkeys is Err && agent is Err && raw is Err
            && custom is Err && selection is Err && commit->Err_0.code
            == BackendErrorCode::Unsupported && selection->Err_0.code
            == BackendErrorCode::Unsupported && raw->Err_0.code == BackendErrorCode::Unsupported,
        platform == Platform::Linux ==> {
            &&& commit is Ok && commit->Ok_0.method@ == "CommitText"@ && commit->Ok_0.arguments
                == FcitxArguments::Text(text)
            &&& hotkeys is Ok && hotkeys->Ok_0.method@ == "SetHotkey"@ && hotkeys->Ok_0.arguments
                == FcitxArguments::TextList(keys)
            &&& agent is Ok && agent->Ok_0.method@ == "SetLessComputerHotkeyRaw"@
                && agent->Ok_0.arguments is Key && agent->Ok_0.arguments->symbol == symbol
                && agent->Ok_0.arguments->states == states
            &&& raw is Ok && raw->Ok_0.method@ == method@ && raw->Ok_0.arguments
                == agent->Ok_0.arguments
            &&& custom is Ok && custom->Ok_0.method@ == "SetCustomDictationTrigger"@
                && custom->Ok_0.arguments == commit->Ok_0.arguments
            &&& selection is Ok && selection->Ok_0.method@ == "GetSelectionText"@
                && selection->Ok_0.arguments is Nothing
        },
{
}

/// A commit has succeeded only if the plugin says so, and the plugin can be reached
/// only on Linux.
pub proof fn law_only_a_yes_is_a_commit(
    reply: Result<bool, BackendError>,
    platform: Platform,
    answered: bool,
    r: Result<(), BackendError>,
    there: bool,
)
    requires
        call_ensures(commit_text_reply, (reply,), r),
        call_ensures(available, (platform, answered), there),
    ensures
        r is Ok <==> reply == Ok::<bool, BackendError>(true),
        reply is Err ==> r->Err_0 == reply->Err_0,
        r is Err && reply is Ok ==> r->Err_0.code == BackendErrorCode::Platform,
        there <==> platform == Platform::Linux && answered,
{
}

/// A copy in place of an insertion is told as one, and its failure is told; the system
/// keeps the library in one of three places of the same name.
pub proof fn law_copy_in_place_of_an_insertion(
    copied: Result<(), BackendError>,
    r: Result<InsertOutcome, BackendError>,
    paths: Vec<&'static str>,
)
    requires
        call_ensures(Fcitx5TextInserter::copy_tried, (copied,), r),
        call_ensures(system_library_paths, (), paths),
    ensures
        r is Ok <==> copied is Ok,
        r is Ok ==> r->Ok_0 == InsertOutcome::CopiedFallback,
        r is Err ==> r->Err_0 == copied->Err_0,
        paths@.len() == 3,
        forall|i: int|
            0 <= i < 3 ==> crate::text::ends_with(
                (#[trigger] paths@[i])@,
                "/fcitx5/libopenless.so"@,
            ),
{
    reveal_strlit("/fcitx5/libopenless.so");
    reveal_strlit("/usr/lib/x86_64-linux-gnu/fcitx5/libopenless.so");
    reveal_strlit("/usr/lib64/fcitx5/libopenless.so");
    reveal_strlit("/usr/lib/fcitx5/libopenless.so");
    let name = "/fcitx5/libopenless.so"@;
    assert forall|i: int| 0 <= i < 3 implies crate::text::ends_with(
        (#[trigger] paths@[i])@,
        name,
    ) by {
        let p = paths@[i]@;
        assert(p.subrange(p.len() - name.len(), p.len() as int) =~= name);
    }
}

} // verus!
