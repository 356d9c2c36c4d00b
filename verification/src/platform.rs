//! What the desktop's own services come to: permissions, microphones,
//! recordings, windows, and the server for remote input.

use crate::qa::{PanelTargets, TauriQaHostContext};
use crate::text::{contains, contains_text, ends_with, has_suffix, join2, str_eq};
use crate::types::{opt_text, BackendError, BackendErrorCode};
use crate::ui::HostAction;
use vstd::prelude::*;

verus! {

/// What the system says about a permission.
#[derive(Clone, Copy, PartialEq, Eq, Structural, Debug)]
pub enum PermissionStatus {
    Granted,
    Denied,
    NotDetermined,
    Restricted,
    NotApplicable,
    NoDevice,
}

/// What the settings page shows of a permission.
#[derive(Clone, Copy, PartialEq, Eq, Structural, Debug)]
pub enum PermissionState {
    Granted,
    Denied,
    Unknown,
    Restricted,
    Unsupported,
    NoDevice,
}

pub open spec fn shown_permission(status: PermissionStatus) -> PermissionState {
    match status {
        PermissionStatus::Granted => PermissionState::Granted,
        PermissionStatus::Denied => PermissionState::Denied,
        PermissionStatus::NotDetermined => PermissionState::Unknown,
        PermissionStatus::Restricted => PermissionState::Restricted,
        PermissionStatus::NotApplicable => PermissionState::Unsupported,
        PermissionStatus::NoDevice => PermissionState::NoDevice,
    }
}

pub fn map_permission_state(status: PermissionStatus) -> (r: PermissionState)
    ensures
        r == shown_permission(status),
{
    match status {
        PermissionStatus::Granted => PermissionState::Granted,
        PermissionStatus::Denied => PermissionState::Denied,
        PermissionStatus::NotDetermined => PermissionState::Unknown,
        PermissionStatus::Restricted => PermissionState::Restricted,
        PermissionStatus::NotApplicable => PermissionState::Unsupported,
        PermissionStatus::NoDevice => PermissionState::NoDevice,
    }
}

#[derive(Clone, Copy, PartialEq, Eq, Structural, Debug)]
pub struct PermissionSnapshot {
    pub microphone: PermissionState,
    pub accessibility: PermissionState,
}

/// Both permissions as they are shown.
pub fn current_permission_snapshot(
    microphone: PermissionStatus,
    accessibility: PermissionStatus,
) -> (r: PermissionSnapshot)
    ensures
        r.microphone == shown_permission(microphone),
        r.accessibility == shown_permission(accessibility),
{
    PermissionSnapshot {
        microphone: map_permission_state(microphone),
        accessibility: map_permission_state(accessibility),
    }
}

/// No two states of the system are shown alike.
pub proof fn law_permissions_stay_apart(a: PermissionStatus, b: PermissionStatus)
    requires
        a != b,
    ensures
        shown_permission(a) != shown_permission(b),
{
}

/// Why a recording failed.
#[derive(Debug)]
pub enum RecorderError {
    PermissionDenied,
    NoInputDevice,
    EngineFailed(String),
}

pub open spec fn recorder_error_code(e: RecorderError) -> BackendErrorCode {
    match e {
        RecorderError::PermissionDenied => BackendErrorCode::PermissionDenied,
        _ => BackendErrorCode::Platform,
    }
}

/// The failure of a recording as it is reported, with the words that the
/// recorder has for it.
pub fn map_recorder_error(error: &RecorderError, user_message: &str) -> (r: BackendError)
    ensures
        r.is(recorder_error_code(*error), user_message@),
{
    let code: BackendErrorCode = match error {
        RecorderError::PermissionDenied => BackendErrorCode::PermissionDenied,
        RecorderError::NoInputDevice => BackendErrorCode::Platform,
        RecorderError::EngineFailed(_) => BackendErrorCode::Platform,
    };
    BackendError::new(code, user_message)
}

/// A microphone as the system names it.
#[derive(Debug)]
pub struct InputDevice {
    pub name: String,
    pub is_default: bool,
}

/// A microphone as it is offered.
#[derive(Debug)]
pub struct MicrophoneDevice {
    pub id: String,
    pub name: String,
    pub is_default: bool,
}

/// The microphones to choose from: those of the system, each known by its
/// name. A mobile device offers no choice.
pub fn microphone_devices(mobile: bool, found: Result<Vec<InputDevice>, BackendError>) -> (r: Result<
    Vec<MicrophoneDevice>,
    BackendError,
>)
    ensures
        if mobile {
            r matches Ok(v) && v@.len() == 0
        } else {
            match found {
                Err(e) => r == Err::<Vec<MicrophoneDevice>, BackendError>(e),
                Ok(devices) => {
                    &&& r matches Ok(v)
                    &&& v@.len() == devices@.len()
                    &&& forall|i: int|
                        0 <= i < v@.len() ==> (#[trigger] v@[i]).id@ == devices@[i].name@
                            && v@[i].name@ == devices@[i].name@ && v@[i].is_default
                            == devices@[i].is_default
                },
            }
        },
{
    if mobile {
        return Ok(Vec::new());
    }
    let devices: Vec<InputDevice> = match found {
        Ok(d) => d,
        Err(e) => return Err(e),
    };
    let mut out: Vec<MicrophoneDevice> = Vec::new();
    let mut i: usize = 0;
    while i < devices.len()
        invariant
            i <= devices.len(),
            out@.len() == i,
            forall|k: int|
                0 <= k < i ==> (#[trigger] out@[k]).id@ == devices@[k].name@ && out@[k].name@
                    == devices@[k].name@ && out@[k].is_default == devices@[k].is_default,
        decreases devices.len() - i,
    {
        out.push(
            MicrophoneDevice {
                id: devices[i].name.clone(),
                name: devices[i].name.clone(),
                is_default: devices[i].is_default,
            },
        );
        i = i + 1;
    }
    Ok(out)
}

/// The state of the global keys.
#[derive(Debug)]
pub struct HotkeyStatus {
    pub available: bool,
    pub failed: bool,
    pub message: Option<String>,
    pub error_code: Option<String>,
    pub error_message: Option<String>,
}

/// The state of the global keys. A mobile device has none.
pub fn hotkey_status(mobile: bool, current: HotkeyStatus) -> (r: HotkeyStatus)
    ensures
        if mobile {
            &&& !r.available
            &&& r.failed
            &&& r.message is Some && r.message->0@ == "移动端不支持全局热键"@
            &&& r.error_code is Some && r.error_code->0@ == "unavailable"@
            &&& r.error_message is Some && r.error_message->0@
                == "Global hotkeys are not available on mobile"@
        } else {
            r == current
        },
{
    if !mobile {
        return current;
    }
    HotkeyStatus {
        available: false,
        failed: true,
        message: Some("移动端不支持全局热键".to_owned()),
        error_code: Some("unavailable".to_owned()),
        error_message: Some("Global hotkeys are not available on mobile".to_owned()),
    }
}

/// What became of a file that was to be deleted.
#[derive(Debug)]
pub enum Removal {
    Removed,
    NotFound,
    Failed(String),
}

/// The recording that is kept of a session.
#[derive(Debug)]
pub struct TauriRecordingArchive {
    pub path: String,
    pub available: bool,
}

impl TauriRecordingArchive {
    pub fn new(path: String, available: bool) -> (r: Self)
        ensures
            r == (TauriRecordingArchive { path, available }),
    {
        TauriRecordingArchive { path, available }
    }

    /// The file to delete, where there is one.
    pub fn file_to_discard(&self) -> (r: Option<String>)
        ensures
            opt_text(r) == (if self.available {
                Some(self.path@)
            } else {
                None
            }),
    {
        if self.available {
            Some(self.path.clone())
        } else {
            None
        }
    }

    pub fn is_available(&self) -> (r: bool)
        ensures
            r == self.available,
    {
        self.available
    }

    /// The file was to be deleted, which is tried only where there is one.
    /// After a failure it can be tried again.
    pub fn discard(&mut self, removal: Removal) -> (r: Result<(), BackendError>)
        ensures
            final(self).path == old(self).path,
            if !old(self).available {
                r is Ok && *final(self) == *old(self)
            } else {
                match removal {
                    Removal::Failed(why) => {
                        &&& final(self).available
                        &&& r matches Err(e)
                        &&& e.is(
                            BackendErrorCode::Persistence,
                            "discard dictation recording archive: "@ + why@,
                        )
                    },
                    _ => !final(self).available && r is Ok,
                }
            },
    {
        if !self.available {
            return Ok(());
        }
        match removal {
            Removal::Removed | Removal::NotFound => {
                self.available = false;
                Ok(())
            },
            Removal::Failed(why) => Err(
                BackendError::detailed(
                    BackendErrorCode::Persistence,
                    "discard dictation recording archive: ",
                    why.as_str(),
                ),
            ),
        }
    }
}

/// A recording under way, by the host's number for it.
#[derive(Clone, Copy, PartialEq, Eq, Structural, Debug)]
pub struct TauriActiveRecording {
    pub recorder: Option<u64>,
}

impl TauriActiveRecording {
    /// Takes the recorder, to stop it.
    pub fn stop(&mut self) -> (r: Result<u64, BackendError>)
        ensures
            final(self).recorder is None,
            match r {
                Ok(id) => old(self).recorder == Some(id),
                Err(e) => old(self).recorder is None && e.is(
                    BackendErrorCode::InvalidState,
                    "Tauri recorder was already stopped"@,
                ),
            },
    {
        let recorder: Option<u64> = self.recorder;
        self.recorder = None;
        match recorder {
            Some(id) => Ok(id),
            None => Err(
                BackendError::new(
                    BackendErrorCode::InvalidState,
                    "Tauri recorder was already stopped",
                ),
            ),
        }
    }
}

/// A step around the recorder that can fail in the host.
#[derive(Clone, Copy, PartialEq, Eq, Structural, Debug)]
pub enum RecorderStep {
    ResolvePath,
    StartTask,
    StopTask,
}

/// The failure of such a step as it is reported.
pub fn recorder_step_error(step: RecorderStep, error: &str) -> (r: BackendError)
    ensures
        match step {
            RecorderStep::ResolvePath => r.is(
                BackendErrorCode::Persistence,
                "resolve dictation recording path: "@ + error@,
            ),
            RecorderStep::StartTask => r.is(
                BackendErrorCode::Internal,
                "join Tauri recorder start task: "@ + error@,
            ),
            RecorderStep::StopTask => r.is(
                BackendErrorCode::Internal,
                "join Tauri recorder stop task: "@ + error@,
            ),
        },
{
    match step {
        RecorderStep::ResolvePath => BackendError::detailed(
            BackendErrorCode::Persistence,
            "resolve dictation recording path: ",
            error,
        ),
        RecorderStep::StartTask => BackendError::detailed(
            BackendErrorCode::Internal,
            "join Tauri recorder start task: ",
            error,
        ),
        RecorderStep::StopTask => BackendError::detailed(
            BackendErrorCode::Internal,
            "join Tauri recorder stop task: ",
            error,
        ),
    }
}

/// What a recorder is started with. What it hears goes into the file too.
#[derive(Debug)]
pub struct RecorderCall {
    pub microphone: Option<String>,
    pub archive_path: String,
}

/// What the recorder of a session is started with. `path` is the file that the
/// session's recording has.
pub fn recorder_call(microphone: Option<String>, path: Result<String, String>) -> (r: Result<
    RecorderCall,
    BackendError,
>)
    ensures
        match path {
            Ok(archive_path) => r == Ok::<RecorderCall, BackendError>(
                RecorderCall { microphone, archive_path },
            ),
            Err(why) => r matches Err(e) && e.is(
                BackendErrorCode::Persistence,
                "resolve dictation recording path: "@ + why@,
            ),
        },
{
    match path {
        Ok(archive_path) => Ok(RecorderCall { microphone, archive_path }),
        Err(why) => Err(recorder_step_error(RecorderStep::ResolvePath, why.as_str())),
    }
}

/// What to do with a recorder that was to start.
#[derive(Debug)]
pub enum RecorderStarted {
    /// It runs; the file it writes is kept.
    Running { recording: TauriActiveRecording, archive: TauriRecordingArchive },
    /// Delete the file that it may have begun.
    RemoveFile { path: String, error: BackendError },
}

/// What to do with a recorder that was to start: `started` is its number and
/// whether it writes the file.
pub fn recorder_started(call: RecorderCall, started: Result<(u64, bool), BackendError>) -> (r:
    RecorderStarted)
    ensures
        match started {
            Ok((id, archives)) => r == (RecorderStarted::Running {
                recording: TauriActiveRecording { recorder: Some(id) },
                archive: TauriRecordingArchive { path: call.archive_path, available: archives },
            }),
            Err(error) => r == (RecorderStarted::RemoveFile { path: call.archive_path, error }),
        },
{
    match started {
        Ok((id, archives)) => RecorderStarted::Running {
            recording: TauriActiveRecording { recorder: Some(id) },
            archive: TauriRecordingArchive { path: call.archive_path, available: archives },
        },
        Err(error) => RecorderStarted::RemoveFile { path: call.archive_path, error },
    }
}

/// The recorder has stopped. `reported` is the first failure that it had to
/// report meanwhile, with its words.
pub fn recorder_stopped(reported: Option<(RecorderError, String)>) -> (r: Result<(), BackendError>)
    ensures
        match reported {
            None => r is Ok,
            Some((error, message)) => r matches Err(e) && e.is(
                recorder_error_code(error),
                message@,
            ),
        },
{
    match reported {
        None => Ok(()),
        Some((error, message)) => Err(map_recorder_error(&error, message.as_str())),
    }
}

/// What the windowed host does about a request of the backend.
#[derive(Debug)]
pub enum WindowStep {
    ShowMain,
    ShowCapsule,
    HideCapsule,
    ShowPreview,
    HidePreview,
    ShowQa,
    HideQa,
    ShowLessComputer,
    OpenUrl(String),
    OpenSettings(String),
    Restart,
    Emit(String),
    Nothing,
}

/// What the windowed host does about a request.
pub open spec fn window_step(action: HostAction, capsule_exists: bool) -> WindowStep {
    match action {
        HostAction::ShowMain => WindowStep::ShowMain,
        HostAction::FocusMain => WindowStep::ShowMain,
        HostAction::ShowDictationFeedback => WindowStep::ShowCapsule,
        HostAction::HideDictationFeedback => if capsule_exists {
            WindowStep::HideCapsule
        } else {
            WindowStep::Nothing
        },
        HostAction::ShowSelectionPreview => WindowStep::ShowPreview,
        HostAction::HideSelectionPreview => WindowStep::HidePreview,
        HostAction::ShowQa => WindowStep::ShowQa,
        HostAction::HideQa => WindowStep::HideQa,
        HostAction::ShowLessComputer => WindowStep::ShowLessComputer,
        HostAction::OpenExternalUrl(u) => WindowStep::OpenUrl(u),
        HostAction::OpenSystemSettings(p) => WindowStep::OpenSettings(p),
        HostAction::RequestRestart => WindowStep::Restart,
        HostAction::Notify(m) => WindowStep::Emit(m),
    }
}

/// What the host must have before it can answer a request.
#[derive(Clone, Copy, PartialEq, Eq, Structural, Debug)]
pub struct WindowFacts {
    /// The program's windows can be reached.
    pub app_bound: bool,
    pub capsule_exists: bool,
}

/// Why a request cannot be answered.
pub open spec fn request_fault(action: HostAction, facts: WindowFacts) -> Option<Seq<char>> {
    if !facts.app_bound {
        Some("Tauri AppHandle is not bound yet"@)
    } else if action == HostAction::ShowDictationFeedback && !facts.capsule_exists {
        Some("Tauri capsule window is unavailable"@)
    } else {
        None
    }
}

/// What is remembered for the question panel once a request is answered.
pub open spec fn context_after(
    qa: TauriQaHostContext,
    action: HostAction,
    found: PanelTargets,
) -> TauriQaHostContext {
    match action {
        HostAction::ShowQa => qa.shown(found),
        HostAction::HideQa => qa.hidden(),
        _ => qa,
    }
}

/// Answers a request of the backend. Showing the question panel remembers the
/// windows that were found for it, and hiding it forgets them.
pub fn request(
    qa: &mut TauriQaHostContext,
    action: HostAction,
    facts: WindowFacts,
    found: PanelTargets,
) -> (r: Result<WindowStep, BackendError>)
    ensures
        match r {
            Ok(step) => {
                &&& request_fault(action, facts) is None
                &&& step == window_step(action, facts.capsule_exists)
                &&& *final(qa) == context_after(*old(qa), action, found)
            },
            Err(e) => {
                &&& request_fault(action, facts) is Some
                &&& e.is(BackendErrorCode::InvalidState, request_fault(action, facts)->0)
                &&& *final(qa) == *old(qa)
            },
        },
{
    if !facts.app_bound {
        return Err(
            BackendError::new(BackendErrorCode::InvalidState, "Tauri AppHandle is not bound yet"),
        );
    }
    match action {
        HostAction::ShowMain => Ok(WindowStep::ShowMain),
        HostAction::FocusMain => Ok(WindowStep::ShowMain),
        HostAction::ShowDictationFeedback => {
            if !facts.capsule_exists {
                return Err(
                    BackendError::new(
                        BackendErrorCode::InvalidState,
                        "Tauri capsule window is unavailable",
                    ),
                );
            }
            Ok(WindowStep::ShowCapsule)
        },
        HostAction::HideDictationFeedback => if facts.capsule_exists {
            Ok(WindowStep::HideCapsule)
        } else {
            Ok(WindowStep::Nothing)
        },
        HostAction::ShowSelectionPreview => Ok(WindowStep::ShowPreview),
        HostAction::HideSelectionPreview => Ok(WindowStep::HidePreview),
        HostAction::ShowQa => {
            qa.prepare_show(found);
            Ok(WindowStep::ShowQa)
        },
        HostAction::HideQa => {
            qa.clear();
            Ok(WindowStep::HideQa)
        },
        HostAction::ShowLessComputer => Ok(WindowStep::ShowLessComputer),
        HostAction::OpenExternalUrl(u) => Ok(WindowStep::OpenUrl(u)),
        HostAction::OpenSystemSettings(p) => Ok(WindowStep::OpenSettings(p)),
        HostAction::RequestRestart => Ok(WindowStep::Restart),
        HostAction::Notify(m) => Ok(WindowStep::Emit(m)),
    }
}

/// A step has been taken, or a window, the shell or the system has refused it.
pub fn window_step_taken(outcome: Result<(), String>) -> (r: Result<(), BackendError>)
    ensures
        match outcome {
            Ok(()) => r is Ok,
            Err(m) => r matches Err(e) && e.is(BackendErrorCode::Platform, m@),
        },
{
    match outcome {
        Ok(()) => Ok(()),
        Err(m) => Err(BackendError::new(BackendErrorCode::Platform, m.as_str())),
    }
}

/// The address at which the server for remote input can be reached.
#[derive(Debug)]
pub struct RemoteInputServerBinding {
    pub port: u16,
    pub urls: Vec<String>,
    pub urls_stale: bool,
}

/// The server for remote input, by the host's number for it.
#[derive(Clone, Copy, PartialEq, Eq, Structural, Debug)]
pub struct TauriRemoteInputRuntimeAdapter {
    pub server: Option<u64>,
}

/// What the server for remote input needs of the host.
#[derive(Clone, Copy, PartialEq, Eq, Structural, Debug)]
pub struct RemoteFacts {
    pub app_bound: bool,
    pub backend_bound: bool,
}

/// Why the backend cannot be reached.
pub open spec fn remote_fault(facts: RemoteFacts) -> Option<Seq<char>> {
    if !facts.app_bound {
        Some("Tauri app handle is not available"@)
    } else if !facts.backend_bound {
        Some("core backend state is unavailable"@)
    } else {
        None
    }
}

/// Whether the backend can be reached.
pub fn remote_backend(facts: RemoteFacts) -> (r: Result<(), BackendError>)
    ensures
        match r {
            Ok(()) => remote_fault(facts) is None,
            Err(e) => remote_fault(facts) is Some && e.is(
                BackendErrorCode::InvalidState,
                remote_fault(facts)->0,
            ),
        },
{
    if !facts.app_bound {
        return Err(
            BackendError::new(BackendErrorCode::InvalidState, "Tauri app handle is not available"),
        );
    }
    if !facts.backend_bound {
        return Err(
            BackendError::new(BackendErrorCode::InvalidState, "core backend state is unavailable"),
        );
    }
    Ok(())
}

/// The pairing number could not be kept.
pub fn pairing_pin_error(error: &str) -> (r: BackendError)
    ensures
        r.is(BackendErrorCode::Persistence, "persist pairing PIN failed: "@ + error@),
{
    BackendError::detailed(BackendErrorCode::Persistence, "persist pairing PIN failed: ", error)
}

impl TauriRemoteInputRuntimeAdapter {
    pub fn new() -> (r: Self)
        ensures
            r.server is None,
    {
        TauriRemoteInputRuntimeAdapter { server: None }
    }

    /// The server was to start; `started` is its number, its port and its
    /// addresses. One that failed leaves the former one in place.
    pub fn start_server(
        &mut self,
        facts: RemoteFacts,
        started: Result<(u64, u16, Vec<String>), String>,
    ) -> (r: Result<RemoteInputServerBinding, BackendError>)
        ensures
            if remote_fault(facts) is Some {
                &&& *final(self) == *old(self)
                &&& r matches Err(e)
                &&& e.is(BackendErrorCode::InvalidState, remote_fault(facts)->0)
            } else {
                match started {
                    Err(m) => {
                        &&& *final(self) == *old(self)
                        &&& r matches Err(e)
                        &&& e.is(BackendErrorCode::Platform, m@)
                    },
                    Ok((id, port, urls)) => {
                        &&& final(self).server == Some(id)
                        &&& r == Ok::<RemoteInputServerBinding, BackendError>(
                            (RemoteInputServerBinding { port, urls, urls_stale: false }),
                        )
                    },
                }
            },
    {
        if let Err(e) = remote_backend(facts) {
            return Err(e);
        }
        match started {
            Err(m) => Err(BackendError::new(BackendErrorCode::Platform, m.as_str())),
            Ok((id, port, urls)) => {
                self.server = Some(id);
                Ok(RemoteInputServerBinding { port, urls, urls_stale: false })
            },
        }
    }

    /// The server to shut down, if one runs.
    pub fn stop_server(&mut self) -> (r: Option<u64>)
        ensures
            r == old(self).server,
            final(self).server is None,
    {
        let server: Option<u64> = self.server;
        self.server = None;
        server
    }
}

/// What a provider is for.
#[derive(Clone, Copy, PartialEq, Eq, Structural, Debug)]
pub enum ProviderKind {
    Asr,
    Llm,
    Omni,
}

/// The kind of provider that a request names.
pub fn parse_provider_kind(value: &str) -> (r: Result<ProviderKind, String>)
    ensures
        match r {
            Ok(ProviderKind::Asr) => value@ == "asr"@,
            Ok(ProviderKind::Llm) => value@ == "llm"@,
            Ok(ProviderKind::Omni) => value@ == "omni"@,
            Err(e) => value@ != "asr"@ && value@ != "llm"@ && value@ != "omni"@ && e@
                == "unknown provider kind: "@ + value@,
        },
{
    proof {
        reveal_strlit("asr");
        reveal_strlit("llm");
        reveal_strlit("omni");
    }
    if str_eq(value, "asr") {
        Ok(ProviderKind::Asr)
    } else if str_eq(value, "llm") {
        Ok(ProviderKind::Llm)
    } else if str_eq(value, "omni") {
        Ok(ProviderKind::Omni)
    } else {
        Err(join2("unknown provider kind: ", value))
    }
}

/// The system that a program is built for.
#[derive(Clone, Copy, PartialEq, Eq, Structural, Debug)]
pub enum TargetOs {
    Android,
    MacOs,
    Linux,
    Other,
}

/// The system that a target triple means. Android comes first, because its
/// triples speak of Linux too.
pub open spec fn target_os_of(triple: Seq<char>) -> TargetOs {
    if ends_with(triple, "-android"@) {
        TargetOs::Android
    } else if ends_with(triple, "-apple-darwin"@) {
        TargetOs::MacOs
    } else if contains_text(triple, "-linux-"@) {
        TargetOs::Linux
    } else {
        TargetOs::Other
    }
}

pub fn target_os(triple: &str) -> (r: TargetOs)
    ensures
        r == target_os_of(triple@),
{
    if has_suffix(triple, "-android") {
        TargetOs::Android
    } else if has_suffix(triple, "-apple-darwin") {
        TargetOs::MacOs
    } else if contains(triple, "-linux-") {
        TargetOs::Linux
    } else {
        TargetOs::Other
    }
}

/// Whether the C recogniser is built in.
pub fn builds_qwen_asr(os: TargetOs) -> (r: bool)
    ensures
        r == (os == TargetOs::MacOs || os == TargetOs::Linux),
{
    os == TargetOs::MacOs || os == TargetOs::Linux
}

/// The C recogniser is never built into a program for Android.
pub proof fn law_android_has_no_c_recogniser(triple: Seq<char>)
    requires
        ends_with(triple, "-android"@),
    ensures
        target_os_of(triple) == TargetOs::Android,
{
}

/// A permission is shown as granted exactly if it is, as denied exactly if it is, and
/// no two states alike.
pub proof fn law_permission_is_shown_as_it_is(
    a: PermissionStatus,
    b: PermissionStatus,
    of_a: PermissionState,
    of_b: PermissionState,
    both: PermissionSnapshot,
)
    requires
        call_ensures(map_permission_state, (a,), of_a),
        call_ensures(map_permission_state, (b,), of_b),
        call_ensures(current_permission_snapshot, (a, b), both),
    ensures
        of_a == of_b <==> a == b,
        of_a is Granted <==> a is Granted,
        of_a is Denied <==> a is Denied,
        of_a is Restricted <==> a is Restricted,
        of_a is NoDevice <==> a is NoDevice,
        of_a is Unknown <==> a is NotDetermined,
        both.microphone == of_a && both.accessibility == of_b,
{
}

/// A recording that was not allowed is told as such, and any other failure as one of
/// the platform, always in the recorder's words. A recording without a failure has
/// ended well.
pub proof fn law_recording_failure_is_told(
    error: RecorderError,
    message: String,
    words: &str,
    e: BackendError,
    r: Result<(), BackendError>,
    fine: Result<(), BackendError>,
)
    requires
        words@ == message@,
        call_ensures(map_recorder_error, (&error, words), e),
        call_ensures(recorder_stopped, (Some((error, message)),), r),
        call_ensures(recorder_stopped, (None::<(RecorderError, String)>,), fine),
    ensures
        e.message@ == message@ && !e.retryable,
        e.code == BackendErrorCode::PermissionDenied <==> error is PermissionDenied,
        !(error is PermissionDenied) ==> e.code == BackendErrorCode::Platform,
        r is Err && r->Err_0.code == e.code && r->Err_0.message@ == e.message@,
        fine is Ok,
{
}

/// Every microphone of the system is offered, in the same order and under its own
/// name; a mobile device offers none, and never fails at it.
pub proof fn law_every_microphone_is_offered(
    found: Result<Vec<InputDevice>, BackendError>,
    desk: Result<Vec<MicrophoneDevice>, BackendError>,
    mobile: Result<Vec<MicrophoneDevice>, BackendError>,
    i: int,
)
    requires
        call_ensures(microphone_devices, (false, found), desk),
        call_ensures(microphone_devices, (true, found), mobile),
    ensures
        mobile is Ok && mobile->Ok_0@.len() == 0,
        desk is Ok <==> found is Ok,
        desk is Err ==> desk->Err_0 == found->Err_0,
        found is Ok ==> desk->Ok_0@.len() == found->Ok_0@.len(),
        found is Ok && 0 <= i < found->Ok_0@.len() ==> desk->Ok_0@[i].name@
            == found->Ok_0@[i].name@ && desk->Ok_0@[i].id@ == found->Ok_0@[i].name@
            && desk->Ok_0@[i].is_default == found->Ok_0@[i].is_default,
{
}

/// The global keys are as they are, but a mobile device has none and says so.
pub proof fn law_mobile_has_no_global_keys(
    current: HotkeyStatus,
    desk: HotkeyStatus,
    mobile: HotkeyStatus,
)
    requires
        call_ensures(hotkey_status, (false, current), desk),
        call_ensures(hotkey_status, (true, current), mobile),
    ensures
        desk == current,
        !mobile.available && mobile.failed,
        mobile.message is Some && mobile.error_code is Some && mobile.error_message is Some,
{
}

/// A recording is discarded once: after its file is gone, or was gone already, there
/// is nothing left to delete, and a second time succeeds whatever happens. A file that
/// could not be deleted is still there.
pub proof fn law_recording_is_discarded_once(
    archive: &mut TauriRecordingArchive,
    later: &mut TauriRecordingArchive,
    removal: Removal,
    again: Removal,
    file: Option<String>,
    r: Result<(), BackendError>,
    left: Option<String>,
    there: bool,
    q: Result<(), BackendError>,
)
    requires
        call_ensures(TauriRecordingArchive::file_to_discard, (&*archive,), file),
        call_ensures(TauriRecordingArchive::discard, (archive, removal), r),
        *later == *final(archive),
        call_ensures(TauriRecordingArchive::file_to_discard, (&*later,), left),
        call_ensures(TauriRecordingArchive::is_available, (&*later,), there),
        call_ensures(TauriRecordingArchive::discard, (later, again), q),
    ensures
        file is Some <==> old(archive).available,
        file is Some ==> file->0@ == old(archive).path@,
        r is Err <==> file is Some && removal is Failed,
        r is Err ==> left is Some && there && left->0@ == old(archive).path@ && r->Err_0.code
            == BackendErrorCode::Persistence,
        r is Ok ==> left is None && !there && q is Ok,
        final(archive).path == old(archive).path,
{
}

/// A new archive is what it was made of, and a recorder is stopped once.
pub proof fn law_recorder_is_stopped_once(
    path: String,
    there: bool,
    archive: TauriRecordingArchive,
    recording: &mut TauriActiveRecording,
    later: &mut TauriActiveRecording,
    r: Result<u64, BackendError>,
    q: Result<u64, BackendError>,
)
    requires
        call_ensures(TauriRecordingArchive::new, (path, there), archive),
        call_ensures(TauriActiveRecording::stop, (recording,), r),
        *later == *final(recording),
        call_ensures(TauriActiveRecording::stop, (later,), q),
    ensures
        archive.path == path && archive.available == there,
        r is Ok <==> old(recording).recorder is Some,
        r is Ok ==> r->Ok_0 == old(recording).recorder->0,
        q is Err && q->Err_0.code == BackendErrorCode::InvalidState,
{
}

/// The recorder that runs is the one that started and writes to the file of its
/// session; one that failed leaves that file to be deleted. Only a session without a
/// file cannot be recorded.
pub proof fn law_recorder_writes_its_session(
    microphone: Option<String>,
    path: Result<String, String>,
    started: Result<(u64, bool), BackendError>,
    call: Result<RecorderCall, BackendError>,
    r: RecorderStarted,
)
    requires
        call_ensures(recorder_call, (microphone, path), call),
        call is Ok ==> call_ensures(recorder_started, (call->Ok_0, started), r),
    ensures
        call is Ok <==> path is Ok,
        call is Err ==> call->Err_0.code == BackendErrorCode::Persistence
            && crate::text::ends_with(call->Err_0.message@, path->Err_0@),
        call is Ok ==> call->Ok_0.microphone == microphone && call->Ok_0.archive_path
            == path->Ok_0,
        call is Ok ==> {
            &&& r is Running <==> started is Ok
            &&& (started matches Ok((id, archives)) ==> {
                &&& r->recording.recorder == Some(id)
                &&& r->archive.path == path->Ok_0
                &&& r->archive.available == archives
            })
            &&& r is RemoveFile ==> r->path == path->Ok_0 && r->error == started->Err_0
        },
{
    if call is Err {
        let told = call->Err_0.message@;
        let why = path->Err_0@;
        assert(told.subrange(told.len() - why.len(), told.len() as int) =~= why);
    }
}

/// A step around the recorder that failed is told in its words: a path that cannot be
/// found as a matter of what is kept, the tasks as one of the program itself.
pub proof fn law_recorder_step_is_told(step: RecorderStep, error: &str, r: BackendError)
    requires
        call_ensures(recorder_step_error, (step, error), r),
    ensures
        r.code == BackendErrorCode::Persistence <==> step is ResolvePath,
        !(step is ResolvePath) ==> r.code == BackendErrorCode::Internal,
        crate::text::ends_with(r.message@, error@),
        !r.retryable,
{
    let told = r.message@;
    assert(told.subrange(told.len() - error@.len(), told.len() as int) =~= error@);
}

/// Every request of the backend has its step of the windows, and what it carries is
/// handed on. It fails only while the windows cannot be reached, or if the capsule is
/// to be shown and there is none; then nothing is remembered.
pub proof fn law_request_is_answered(
    qa: &mut TauriQaHostContext,
    action: HostAction,
    facts: WindowFacts,
    found: PanelTargets,
    r: Result<WindowStep, BackendError>,
)
    requires
        call_ensures(request, (qa, action, facts, found), r),
    ensures
        r is Ok <==> facts.app_bound && !(action is ShowDictationFeedback && !facts.capsule_exists),
        r is Err ==> *final(qa) == *old(qa) && r->Err_0.code == BackendErrorCode::InvalidState,
        r is Ok ==> {
            let step = r->Ok_0;
            &&& step is ShowMain <==> action is ShowMain || action is FocusMain
            &&& step is ShowCapsule <==> action is ShowDictationFeedback
            &&& step is HideCapsule <==> action is HideDictationFeedback && facts.capsule_exists
            &&& step is Nothing <==> action is HideDictationFeedback && !facts.capsule_exists
            &&& step is ShowPreview <==> action is ShowSelectionPreview
            &&& step is HidePreview <==> action is HideSelectionPreview
            &&& step is ShowQa <==> action is ShowQa
            &&& step is HideQa <==> action is HideQa
            &&& step is ShowLessComputer <==> action is ShowLessComputer
            &&& step is Restart <==> action is RequestRestart
            &&& (action matches HostAction::OpenExternalUrl(u) ==> step == WindowStep::OpenUrl(u))
            &&& (action matches HostAction::OpenSystemSettings(p) ==> step
                == WindowStep::OpenSettings(p))
            &&& (action matches HostAction::Notify(m) ==> step == WindowStep::Emit(m))
        },
{
}

/// The question panel is visible after it was shown and not after it was hidden; what
/// it would return to is remembered until then, and no other request touches it.
pub proof fn law_panel_is_remembered_while_it_shows(
    qa: &mut TauriQaHostContext,
    action: HostAction,
    facts: WindowFacts,
    found: PanelTargets,
    r: Result<WindowStep, BackendError>,
)
    requires
        call_ensures(request, (qa, action, facts, found), r),
        r is Ok,
    ensures
        action is ShowQa ==> final(qa).panel_visible,
        action is ShowQa && found.external is Some ==> final(qa).focus_target == found.external,
        action is ShowQa && found.external is None && old(qa).panel_visible
            ==> final(qa).focus_target == old(qa).focus_target,
        action is ShowQa && found.front_app is Some ==> final(qa).front_app == found.front_app,
        action is HideQa ==> !final(qa).panel_visible && final(qa).focus_target is None
            && final(qa).front_app is None,
        !(action is ShowQa) && !(action is HideQa) ==> *final(qa) == *old(qa),
        final(qa).binder_installed == old(qa).binder_installed,
{
}

/// A step that was refused is told in the words of the refusal.
pub proof fn law_refused_step_is_told(outcome: Result<(), String>, r: Result<(), BackendError>)
    requires
        call_ensures(window_step_taken, (outcome,), r),
    ensures
        r is Ok <==> outcome is Ok,
        r is Err ==> r->Err_0.message@ == outcome->Err_0@ && r->Err_0.code
            == BackendErrorCode::Platform,
{
}

/// The server that started is the one that is stopped, once, and its addresses are
/// those that it reported; a start that failed leaves the former server in place.
pub proof fn law_started_server_is_the_one_stopped(
    adapter: &mut TauriRemoteInputRuntimeAdapter,
    running: &mut TauriRemoteInputRuntimeAdapter,
    done: &mut TauriRemoteInputRuntimeAdapter,
    facts: RemoteFacts,
    started: Result<(u64, u16, Vec<String>), String>,
    reach: Result<(), BackendError>,
    r: Result<RemoteInputServerBinding, BackendError>,
    stopped: Option<u64>,
    again: Option<u64>,
)
    requires
        call_ensures(remote_backend, (facts,), reach),
        call_ensures(TauriRemoteInputRuntimeAdapter::start_server, (adapter, facts, started), r),
        *running == *final(adapter),
        call_ensures(TauriRemoteInputRuntimeAdapter::stop_server, (running,), stopped),
        *done == *final(running),
        call_ensures(TauriRemoteInputRuntimeAdapter::stop_server, (done,), again),
    ensures
        reach is Ok <==> facts.app_bound && facts.backend_bound,
        reach is Err ==> reach->Err_0.code == BackendErrorCode::InvalidState,
        r is Ok <==> reach is Ok && started is Ok,
        r is Err ==> stopped == old(adapter).server,
        reach is Ok && r is Err ==> r->Err_0.message@ == started->Err_0@ && r->Err_0.code
            == BackendErrorCode::Platform,
        reach is Err ==> r->Err_0.message@ == reach->Err_0.message@,
        (started matches Ok((id, port, urls)) ==> (r is Ok ==> stopped == Some(id)
            && r->Ok_0.port == port && r->Ok_0.urls == urls && !r->Ok_0.urls_stale)),
        again is None,
{
}

/// A new host has no server, and a pairing number that was not kept is told so.
pub proof fn law_new_host_has_no_server(
    adapter: TauriRemoteInputRuntimeAdapter,
    error: &str,
    e: BackendError,
)
    requires
        call_ensures(TauriRemoteInputRuntimeAdapter::new, (), adapter),
        call_ensures(pairing_pin_error, (error,), e),
    ensures
        adapter.server is None,
        e.code == BackendErrorCode::Persistence && !e.retryable,
        crate::text::ends_with(e.message@, error@),
{
    let told = e.message@;
    assert(told.subrange(told.len() - error@.len(), told.len() as int) =~= error@);
}

/// Each kind of provider is read from its own name, and nothing else is one.
pub proof fn law_provider_kinds_by_name(value: &str, r: Result<ProviderKind, String>)
    requires
        call_ensures(parse_provider_kind, (value,), r),
    ensures
        value@ == "asr"@ <==> r == Ok::<ProviderKind, String>(ProviderKind::Asr),
        value@ == "llm"@ <==> r == Ok::<ProviderKind, String>(ProviderKind::Llm),
        value@ == "omni"@ <==> r == Ok::<ProviderKind, String>(ProviderKind::Omni),
        r is Err ==> ends_with(r->Err_0@, value@),
{
    reveal_strlit("asr");
    reveal_strlit("llm");
    reveal_strlit("omni");
    assert("asr"@.len() == 3 && "asr"@[0] == 'a');
    assert("llm"@.len() == 3 && "llm"@[0] == 'l');
    assert("omni"@.len() == 4);
    if r is Err {
        let told = r->Err_0@;
        assert(told.subrange(told.len() - value@.len(), told.len() as int) =~= value@);
    }
}

/// The C recogniser is built in on macOS and Linux, and on Android never, though its
/// triples speak of Linux too.
pub proof fn law_where_the_c_recogniser_is_built(triple: &str, os: TargetOs, built: bool)
    requires
        call_ensures(target_os, (triple,), os),
        call_ensures(builds_qwen_asr, (os,), built),
    ensures
        ends_with(triple@, "-android"@) ==> os == TargetOs::Android && !built,
        !ends_with(triple@, "-android"@) && ends_with(triple@, "-apple-darwin"@) ==> os
            == TargetOs::MacOs && built,
        !ends_with(triple@, "-android"@) && !ends_with(triple@, "-apple-darwin"@)
            && contains_text(triple@, "-linux-"@) ==> os == TargetOs::Linux && built,
        built ==> ends_with(triple@, "-apple-darwin"@) || contains_text(triple@, "-linux-"@),
        os == TargetOs::Other ==> !built,
{
}

} // verus!
