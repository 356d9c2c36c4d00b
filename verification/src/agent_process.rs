//! Running the process of a coding agent, from its files to its exit.

use crate::history::{digit_of, random_session_id, simple_id_text, simple_text};
use crate::paths::{below, path_below};
use crate::text::join2;
use crate::types::{BackendError, BackendErrorCode};
use vstd::prelude::*;

verus! {

/// How an agent gets its prompt.
#[derive(Debug)]
pub enum PromptPayload {
    Argv(String),
    Stdin(String),
}

/// A file that an agent reads and that lives no longer than its run.
#[derive(Debug)]
pub struct TemporaryFile {
    pub name: String,
    pub contents: Vec<u8>,
}

/// The process to start for an agent.
#[derive(Debug)]
pub struct AgentCommand {
    pub executable: String,
    pub argv: Vec<String>,
    pub env: Vec<(String, String)>,
    pub prompt: PromptPayload,
    pub cwd: Option<String>,
    pub temporary_files: Vec<TemporaryFile>,
}

/// A temporary file and its place.
#[derive(Debug)]
pub struct PlacedFile {
    pub path: String,
    pub contents: Vec<u8>,
}

/// Where the temporary files of a command go, and its arguments once they name
/// those places. The backend works this out.
#[derive(Debug)]
pub struct AgentMaterializationPlan {
    pub files: Vec<PlacedFile>,
    pub argv: Vec<String>,
}

/// One step of putting the temporary files in place.
#[derive(Debug)]
pub enum MaterializeStep {
    CreateDirectory(String),
    /// Let nobody but the user into the directory.
    MakePrivate(String),
    WriteFile(PlacedFile),
}

/// A command whose temporary files are in place once the steps are taken.
#[derive(Debug)]
pub struct Materialization {
    pub command: AgentCommand,
    pub steps: Vec<MaterializeStep>,
    /// The directory to remove when the run is over.
    pub workspace: Option<String>,
}

/// The name of the directory with the number `id`.
pub open spec fn workspace_path(temporary: Seq<char>, id: u128) -> Seq<char> {
    below(temporary, "openless-agent-"@ + simple_text(id))
}

/// A new directory for temporary files. The number in its name is random; it
/// has the form of a random id.
pub fn new_workspace(temporary: &str) -> (r: String)
    ensures
        exists|id: u128|
            r@ == #[trigger] workspace_path(temporary@, id) && digit_of(id, 12) == 4 && 8
                <= digit_of(id, 16) <= 11,
{
    let id: u128 = random_session_id();
    let path: String = workspace_named(temporary, id);
    assert(path@ == workspace_path(temporary@, id));
    path
}

/// The directory for temporary files with the number `id`.
pub fn workspace_named(temporary: &str, id: u128) -> (r: String)
    ensures
        r@ == workspace_path(temporary@, id),
{
    let digits: String = simple_id_text(id);
    let name: String = join2("openless-agent-", digits.as_str());
    path_below(temporary, name.as_str())
}

/// The place and the contents that a step writes.
pub open spec fn writes(step: MaterializeStep, file: PlacedFile) -> bool {
    step == MaterializeStep::WriteFile(file)
}

/// `steps` puts `files` in place: first the directory, closed to others where
/// the system can do that, and then each file in its order.
pub open spec fn puts_in_place(
    steps: Seq<MaterializeStep>,
    directory: Seq<char>,
    private: bool,
    files: Seq<PlacedFile>,
) -> bool {
    let lead: int = if private {
        2
    } else {
        1
    };
    &&& steps.len() == lead + files.len()
    &&& steps[0] matches MaterializeStep::CreateDirectory(d) && d@ == directory
    &&& private ==> (steps[1] matches MaterializeStep::MakePrivate(d) && d@ == directory)
    &&& forall|i: int|
        #![trigger files[i]]
        0 <= i < files.len() ==> writes(steps[lead + i], files[i])
}

/// Plans how the temporary files of a command come into place in `directory`.
/// Without any there is nothing to do, and no directory is made. Otherwise the
/// arguments are those that name the files.
pub fn materialize_temporary_files(
    command: AgentCommand,
    directory: &str,
    planned: Result<AgentMaterializationPlan, BackendError>,
    private: bool,
) -> (r: Result<Materialization, BackendError>)
    ensures
        if command.temporary_files@.len() == 0 {
            &&& r matches Ok(m)
            &&& m.command == command
            &&& m.steps@.len() == 0
            &&& m.workspace is None
        } else {
            match planned {
                Err(e) => r == Err::<Materialization, BackendError>(e),
                Ok(plan) => {
                    &&& r matches Ok(m)
                    &&& m.command == (AgentCommand { argv: plan.argv, ..command })
                    &&& puts_in_place(m.steps@, directory@, private, plan.files@)
                    &&& m.workspace is Some
                    &&& m.workspace->0@ == directory@
                },
            }
        },
{
    if command.temporary_files.len() == 0 {
        return Ok(Materialization { command, steps: Vec::new(), workspace: None });
    }
    let plan: AgentMaterializationPlan = match planned {
        Ok(plan) => plan,
        Err(e) => return Err(e),
    };
    let mut steps: Vec<MaterializeStep> = vec![
        MaterializeStep::CreateDirectory(directory.to_owned()),
    ];
    if private {
        steps.push(MaterializeStep::MakePrivate(directory.to_owned()));
    }
    let ghost lead: int = if private {
        2
    } else {
        1
    };
    let ghost files = plan.files@;
    let ghost head = steps@;
    for file in it: plan.files
        invariant
            it.seq() == files,
            head.len() == lead,
            1 <= lead,
            steps@.len() == lead + it.index(),
            steps@.take(lead) == head,
            forall|i: int| 0 <= i < it.index() ==> #[trigger] writes(steps@[lead + i], files[i]),
    {
        let ghost before = steps@;
        steps.push(MaterializeStep::WriteFile(file));
        proof {
            assert(steps@.take(lead) =~= before.take(lead));
            assert forall|i: int| 0 <= i < it.index() + 1 implies #[trigger] writes(
                steps@[lead + i],
                files[i],
            ) by {
                if i < it.index() {
                    assert(writes(before[lead + i], files[i]));
                    assert(steps@[lead + i] == before[lead + i]);
                }
            }
        }
    }
    proof {
        assert(steps@[0] == head[0]);
        if private {
            assert(steps@[1] == head[1]);
        }
    }
    Ok(
        Materialization {
            command: AgentCommand { argv: plan.argv, ..command },
            steps,
            workspace: Some(directory.to_owned()),
        },
    )
}

/// A step failed. The first part of the result says whether the directory has
/// to go: it is removed once a file was to be written into it.
pub fn materialize_failed(step: &MaterializeStep, error: &str) -> (r: (bool, BackendError))
    ensures
        r.0 == (*step is WriteFile),
        r.1.is(BackendErrorCode::Platform, error@),
{
    let remove: bool = match step {
        MaterializeStep::WriteFile(_) => true,
        _ => false,
    };
    (remove, BackendError::new(BackendErrorCode::Platform, error))
}

/// A process as the host starts it.
#[derive(Debug)]
pub struct ProcessPlan {
    pub executable: String,
    pub arguments: Vec<String>,
    pub env: Vec<(String, String)>,
    /// What goes into the standard input before it is closed.
    pub stdin: Option<String>,
    pub cwd: Option<String>,
}

/// How a process ended.
#[derive(Clone, Copy, PartialEq, Eq, Structural, Debug)]
pub struct ProcessExit {
    pub code: Option<i32>,
    pub success: bool,
}

/// One attempt to ask the login shell where programs are.
#[derive(Debug)]
pub struct ShellAttempt {
    /// The shell ran to its end in time, and well.
    pub succeeded: bool,
    /// The path that its output names, if it names one.
    pub path: Option<String>,
}

/// An attempt that told the path.
pub open spec fn tells_path(a: ShellAttempt) -> bool {
    a.succeeded && a.path is Some
}

/// The path of the login shell: that of the first attempt that told one.
pub fn login_shell_path(attempts: &Vec<ShellAttempt>) -> (r: Option<String>)
    ensures
        match r {
            Some(p) => exists|i: int|
                {
                    &&& 0 <= i < attempts@.len()
                    &&& #[trigger] tells_path(attempts@[i])
                    &&& p@ == attempts@[i].path->0@
                    &&& forall|k: int| 0 <= k < i ==> !#[trigger] tells_path(attempts@[k])
                },
            None => forall|k: int| 0 <= k < attempts@.len() ==> !#[trigger] tells_path(attempts@[k]),
        },
{
    let mut i: usize = 0;
    while i < attempts.len()
        invariant
            i <= attempts@.len(),
            forall|k: int| 0 <= k < i ==> !#[trigger] tells_path(attempts@[k]),
        decreases attempts@.len() - i,
    {
        if attempts[i].succeeded {
            if let Some(path) = &attempts[i].path {
                assert(tells_path(attempts@[i as int]));
                return Some(path.clone());
            }
        }
        i = i + 1;
    }
    None
}

/// The text of an environment.
pub open spec fn env_views(env: Seq<(String, String)>) -> Seq<(Seq<char>, Seq<char>)> {
    env.map_values(|e: (String, String)| (e.0@, e.1@))
}

/// What a process gets of the user's environment: on Unix the home directory,
/// where there is one, and the path.
pub open spec fn user_env(unix: bool, home: Option<String>, path: Seq<char>) -> Seq<
    (Seq<char>, Seq<char>),
> {
    if !unix {
        Seq::empty()
    } else {
        match home {
            Some(h) => seq![("HOME"@, h@), ("PATH"@, path)],
            None => seq![("PATH"@, path)],
        }
    }
}

/// The environment to set for a process, in order: that of the user, then its
/// own, of which a later value counts. `path` is where programs are sought.
pub fn process_env(
    unix: bool,
    home: Option<String>,
    path: String,
    own: Vec<(String, String)>,
) -> (r: Vec<(String, String)>)
    ensures
        env_views(r@) == user_env(unix, home, path@) + env_views(own@),
{
    let ghost set = user_env(unix, home, path@);
    let ghost last = env_views(own@);
    let mut env: Vec<(String, String)> = Vec::new();
    if unix {
        if let Some(h) = home {
            env.push(("HOME".to_owned(), h));
        }
        env.push(("PATH".to_owned(), path));
    }
    proof {
        assert(env_views(env@) =~= set);
    }
    let ghost before = env@;
    let mut own: Vec<(String, String)> = own;
    let ghost all = own@;
    env.append(&mut own);
    proof {
        assert(env@ =~= before + all);
        assert(env_views(env@) =~= set + last);
    }
    env
}

/// Where the run of a process stands.
#[derive(Clone, Copy, PartialEq, Eq, Structural, Debug)]
pub enum ProcessPhase {
    /// The files that the agent reads are being written.
    Materializing,
    /// The login shell is asked where programs are.
    FindingPath,
    Starting,
    /// The prompt is on its way.
    Feeding,
    /// Its output is being taken up.
    Attaching,
    Waiting,
    /// It was cancelled, and all it has started is being ended.
    KillingGroup,
    /// The group could not be ended: the process alone is.
    KillingProcess,
    /// It was told to end.
    Dying,
    Ended,
}

/// What happened to a process.
#[derive(Debug)]
pub enum ProcessEvent {
    Materialized(Result<(), BackendError>),
    PathFound,
    /// The run was cancelled while the path was sought.
    PathCancelled,
    SpawnFailed { not_found: bool, error: String },
    Spawned,
    PromptGiven(Result<(), String>),
    Streams { stdout: bool, stderr: bool },
    /// It is still running.
    Tick { cancelled: bool },
    GroupKilled(bool),
    ProcessKilled(Result<(), String>),
    /// It is over, or waiting for it failed.
    Exited { status: Result<ProcessExit, String>, cancelled: bool },
}

/// What the host does next.
#[derive(Debug)]
pub enum ProcessAction {
    FindPath,
    Spawn,
    /// Write the prompt where it goes to the standard input, and close that.
    GivePrompt,
    TakeStreams,
    /// Wait for the exit, and look up now and again.
    Wait,
    KillGroup,
    KillProcess,
    Done(Result<ProcessExit, BackendError>),
    Nothing,
}

/// How long the host waits between two looks at a running process.
pub const WATCH_INTERVAL_MS: u64 = 20;

/// Where a run stands after an event. An event that the phase does not wait
/// for changes nothing.
pub open spec fn next_phase(phase: ProcessPhase, event: ProcessEvent) -> ProcessPhase {
    match (phase, event) {
        (ProcessPhase::Materializing, ProcessEvent::Materialized(r)) => if r is Ok {
            ProcessPhase::FindingPath
        } else {
            ProcessPhase::Ended
        },
        (ProcessPhase::FindingPath, ProcessEvent::PathFound) => ProcessPhase::Starting,
        (ProcessPhase::FindingPath, ProcessEvent::PathCancelled) => ProcessPhase::Ended,
        (ProcessPhase::Starting, ProcessEvent::SpawnFailed { .. }) => ProcessPhase::Ended,
        (ProcessPhase::Starting, ProcessEvent::Spawned) => ProcessPhase::Feeding,
        (ProcessPhase::Feeding, ProcessEvent::PromptGiven(r)) => if r is Ok {
            ProcessPhase::Attaching
        } else {
            ProcessPhase::Ended
        },
        (ProcessPhase::Attaching, ProcessEvent::Streams { stdout, stderr }) => if stdout && stderr {
            ProcessPhase::Waiting
        } else {
            ProcessPhase::Ended
        },
        (ProcessPhase::Waiting, ProcessEvent::Tick { cancelled }) => if cancelled {
            ProcessPhase::KillingGroup
        } else {
            ProcessPhase::Waiting
        },
        (ProcessPhase::Waiting, ProcessEvent::Exited { .. }) => ProcessPhase::Ended,
        (ProcessPhase::KillingGroup, ProcessEvent::GroupKilled(done)) => if done {
            ProcessPhase::Dying
        } else {
            ProcessPhase::KillingProcess
        },
        (ProcessPhase::KillingProcess, ProcessEvent::ProcessKilled(r)) => if r is Ok {
            ProcessPhase::Dying
        } else {
            ProcessPhase::Ended
        },
        (ProcessPhase::Dying, ProcessEvent::Exited { .. }) => ProcessPhase::Ended,
        _ => phase,
    }
}

/// `action` is how a run ends with the failure `code` and `message`.
pub open spec fn fails(action: ProcessAction, code: BackendErrorCode, message: Seq<char>) -> bool {
    action matches ProcessAction::Done(Err(e)) && e.is(code, message)
}

/// `action` is what an event asks for.
pub open spec fn asks(phase: ProcessPhase, event: ProcessEvent, action: ProcessAction) -> bool {
    match (phase, event) {
        (ProcessPhase::Materializing, ProcessEvent::Materialized(r)) => match r {
            Ok(()) => action is FindPath,
            Err(e) => action == ProcessAction::Done(Err(e)),
        },
        (ProcessPhase::FindingPath, ProcessEvent::PathFound) => action is Spawn,
        (ProcessPhase::FindingPath, ProcessEvent::PathCancelled) => action == ProcessAction::Done(
            Ok(ProcessExit { code: None, success: false }),
        ),
        (ProcessPhase::Starting, ProcessEvent::SpawnFailed { not_found, error }) => fails(
            action,
            if not_found {
                BackendErrorCode::Unsupported
            } else {
                BackendErrorCode::Platform
            },
            error@,
        ),
        (ProcessPhase::Starting, ProcessEvent::Spawned) => action is GivePrompt,
        (ProcessPhase::Feeding, ProcessEvent::PromptGiven(r)) => match r {
            Ok(()) => action is TakeStreams,
            Err(e) => fails(action, BackendErrorCode::Platform, e@),
        },
        (ProcessPhase::Attaching, ProcessEvent::Streams { stdout, stderr }) => if !stdout {
            fails(action, BackendErrorCode::InvalidArgument, "missing process stdout"@)
        } else if !stderr {
            fails(action, BackendErrorCode::InvalidArgument, "missing process stderr"@)
        } else {
            action is Wait
        },
        (ProcessPhase::Waiting, ProcessEvent::Tick { cancelled }) => if cancelled {
            action is KillGroup
        } else {
            action is Wait
        },
        (ProcessPhase::Waiting, ProcessEvent::Exited { status, cancelled }) => match status {
            Ok(s) => action == ProcessAction::Done(
                Ok(ProcessExit { code: s.code, success: s.success && !cancelled }),
            ),
            Err(e) => fails(action, BackendErrorCode::Platform, e@),
        },
        (ProcessPhase::KillingGroup, ProcessEvent::GroupKilled(done)) => if done {
            action is Wait
        } else {
            action is KillProcess
        },
        (ProcessPhase::KillingProcess, ProcessEvent::ProcessKilled(r)) => match r {
            Ok(()) => action is Wait,
            Err(e) => fails(action, BackendErrorCode::Platform, e@),
        },
        (ProcessPhase::Dying, ProcessEvent::Exited { status, cancelled }) => match status {
            Ok(s) => action == ProcessAction::Done(
                Ok(ProcessExit { code: s.code, success: false }),
            ),
            Err(e) => fails(action, BackendErrorCode::Platform, e@),
        },
        _ => action is Nothing,
    }
}

fn platform_error(error: String) -> (r: ProcessAction)
    ensures
        fails(r, BackendErrorCode::Platform, error@),
{
    ProcessAction::Done(
        Err(BackendError { code: BackendErrorCode::Platform, message: error, retryable: false }),
    )
}

fn invalid(message: &str) -> (r: ProcessAction)
    ensures
        fails(r, BackendErrorCode::InvalidArgument, message@),
{
    ProcessAction::Done(Err(BackendError::new(BackendErrorCode::InvalidArgument, message)))
}

/// Runs the process of one agent.
#[derive(Debug)]
pub struct TauriCodingAgentProcessAdapter {
    pub phase: ProcessPhase,
}

impl TauriCodingAgentProcessAdapter {
    pub fn new() -> (r: Self)
        ensures
            r.phase == ProcessPhase::Materializing,
    {
        TauriCodingAgentProcessAdapter { phase: ProcessPhase::Materializing }
    }

    /// The process to start. A prompt goes behind the other arguments, or into
    /// the standard input.
    pub fn plan(command: AgentCommand) -> (r: ProcessPlan)
        ensures
            r.executable == command.executable,
            r.env == command.env,
            r.cwd == command.cwd,
            match command.prompt {
                PromptPayload::Argv(p) => r.arguments@ == command.argv@.push(p) && r.stdin is None,
                PromptPayload::Stdin(p) => r.arguments@ == command.argv@ && r.stdin == Some(p),
            },
    {
        let mut arguments: Vec<String> = command.argv;
        let stdin: Option<String> = match command.prompt {
            PromptPayload::Argv(p) => {
                arguments.push(p);
                None
            },
            PromptPayload::Stdin(p) => Some(p),
        };
        ProcessPlan {
            executable: command.executable,
            arguments,
            env: command.env,
            stdin,
            cwd: command.cwd,
        }
    }

    /// Takes the run one step further.
    pub fn execute(&mut self, event: ProcessEvent) -> (r: ProcessAction)
        ensures
            final(self).phase == next_phase(old(self).phase, event),
            asks(old(self).phase, event, r),
    {
        match (self.phase, event) {
            (ProcessPhase::Materializing, ProcessEvent::Materialized(r)) => match r {
                Ok(()) => {
                    self.phase = ProcessPhase::FindingPath;
                    ProcessAction::FindPath
                },
                Err(e) => {
                    self.phase = ProcessPhase::Ended;
                    ProcessAction::Done(Err(e))
                },
            },
            (ProcessPhase::FindingPath, ProcessEvent::PathFound) => {
                self.phase = ProcessPhase::Starting;
                ProcessAction::Spawn
            },
            (ProcessPhase::FindingPath, ProcessEvent::PathCancelled) => {
                self.phase = ProcessPhase::Ended;
                ProcessAction::Done(Ok(ProcessExit { code: None, success: false }))
            },
            (ProcessPhase::Starting, ProcessEvent::SpawnFailed { not_found, error }) => {
                self.phase = ProcessPhase::Ended;
                let code: BackendErrorCode = if not_found {
                    BackendErrorCode::Unsupported
                } else {
                    BackendErrorCode::Platform
                };
                ProcessAction::Done(Err(BackendError { code, message: error, retryable: false }))
            },
            (ProcessPhase::Starting, ProcessEvent::Spawned) => {
                self.phase = ProcessPhase::Feeding;
                ProcessAction::GivePrompt
            },
            (ProcessPhase::Feeding, ProcessEvent::PromptGiven(r)) => match r {
                Ok(()) => {
                    self.phase = ProcessPhase::Attaching;
                    ProcessAction::TakeStreams
                },
                Err(e) => {
                    self.phase = ProcessPhase::Ended;
                    platform_error(e)
                },
            },
            (ProcessPhase::Attaching, ProcessEvent::Streams { stdout, stderr }) => {
                if !stdout {
                    self.phase = ProcessPhase::Ended;
                    invalid("missing process stdout")
                } else if !stderr {
                    self.phase = ProcessPhase::Ended;
                    invalid("missing process stderr")
                } else {
                    self.phase = ProcessPhase::Waiting;
                    ProcessAction::Wait
                }
            },
            (ProcessPhase::Waiting, ProcessEvent::Tick { cancelled }) => {
                if cancelled {
                    self.phase = ProcessPhase::KillingGroup;
                    ProcessAction::KillGroup
                } else {
                    ProcessAction::Wait
                }
            },
            (ProcessPhase::Waiting, ProcessEvent::Exited { status, cancelled }) => {
                self.phase = ProcessPhase::Ended;
                match status {
                    Ok(s) => ProcessAction::Done(
                        Ok(ProcessExit { code: s.code, success: s.success && !cancelled }),
                    ),
                    Err(e) => platform_error(e),
                }
            },
            (ProcessPhase::KillingGroup, ProcessEvent::GroupKilled(done)) => {
                if done {
                    self.phase = ProcessPhase::Dying;
                    ProcessAction::Wait
                } else {
                    self.phase = ProcessPhase::KillingProcess;
                    ProcessAction::KillProcess
                }
            },
            (ProcessPhase::KillingProcess, ProcessEvent::ProcessKilled(r)) => match r {
                Ok(()) => {
                    self.phase = ProcessPhase::Dying;
                    ProcessAction::Wait
                },
                Err(e) => {
                    self.phase = ProcessPhase::Ended;
                    platform_error(e)
                },
            },
            (ProcessPhase::Dying, ProcessEvent::Exited { status, cancelled }) => {
                self.phase = ProcessPhase::Ended;
                match status {
                    Ok(s) => ProcessAction::Done(Ok(ProcessExit { code: s.code, success: false })),
                    Err(e) => platform_error(e),
                }
            },
            _ => ProcessAction::Nothing,
        }
    }
}

/// Where a run stands after `events`.
pub open spec fn phase_after(phase: ProcessPhase, events: Seq<ProcessEvent>) -> ProcessPhase
    decreases events.len(),
{
    if events.len() == 0 {
        phase
    } else {
        next_phase(phase_after(phase, events.drop_last()), events.last())
    }
}

/// The run was cancelled while the process was there, or it is over.
pub open spec fn cancelled_or_over(phase: ProcessPhase) -> bool {
    phase == ProcessPhase::KillingGroup || phase == ProcessPhase::KillingProcess || phase
        == ProcessPhase::Dying || phase == ProcessPhase::Ended
}

/// A process that was found cancelled while it ran is told to end, and
/// whatever happens after that, the run is never reported as a success.
pub proof fn law_cancelled_process_never_succeeds(
    events: Seq<ProcessEvent>,
    event: ProcessEvent,
    action: ProcessAction,
)
    requires
        asks(phase_after(ProcessPhase::KillingGroup, events), event, action),
    ensures
        next_phase(ProcessPhase::Waiting, (ProcessEvent::Tick { cancelled: true }))
            == ProcessPhase::KillingGroup,
        asks(
            ProcessPhase::Waiting,
            (ProcessEvent::Tick { cancelled: true }),
            ProcessAction::KillGroup,
        ),
        action matches ProcessAction::Done(Ok(exit)) ==> !exit.success,
{
    lemma_stays_cancelled(events);
}

proof fn lemma_stays_cancelled(events: Seq<ProcessEvent>)
    ensures
        cancelled_or_over(phase_after(ProcessPhase::KillingGroup, events)),
    decreases events.len(),
{
    if events.len() > 0 {
        lemma_stays_cancelled(events.drop_last());
    }
}

/// A run that is over stays over and asks for nothing more.
pub proof fn law_ended_run_asks_for_nothing(event: ProcessEvent, action: ProcessAction)
    requires
        asks(ProcessPhase::Ended, event, action),
    ensures
        action is Nothing,
        next_phase(ProcessPhase::Ended, event) == ProcessPhase::Ended,
{
}

/// A command without temporary files is left as it is and makes no directory. With
/// some, the directory comes first, closed to others where that is wanted, then every
/// file in its order; the arguments are those that name the files, and nothing else
/// of the command changes.
pub proof fn law_files_are_put_in_place(
    command: AgentCommand,
    directory: &str,
    plan: AgentMaterializationPlan,
    private: bool,
    r: Result<Materialization, BackendError>,
    k: int,
)
    requires
        call_ensures(materialize_temporary_files, (command, directory, Ok(plan), private), r),
    ensures
        r is Ok,
        command.temporary_files@.len() == 0 ==> r->Ok_0.command == command && r->Ok_0.steps@.len()
            == 0 && r->Ok_0.workspace is None,
        command.temporary_files@.len() > 0 ==> {
            let m = r->Ok_0;
            let lead = if private {
                2int
            } else {
                1
            };
            &&& m.workspace is Some && m.workspace->0@ == directory@
            &&& m.command.argv == plan.argv
            &&& m.command.executable == command.executable
            &&& m.command.env == command.env
            &&& m.command.prompt == command.prompt
            &&& m.command.cwd == command.cwd
            &&& m.steps@.len() == plan.files@.len() + lead
            &&& m.steps@[0] is CreateDirectory && m.steps@[0]->CreateDirectory_0@ == directory@
            &&& private ==> m.steps@[1] is MakePrivate && m.steps@[1]->MakePrivate_0@ == directory@
            &&& 0 <= k < plan.files@.len() ==> m.steps@[lead + k] == MaterializeStep::WriteFile(
                plan.files@[k],
            )
        },
{
    if command.temporary_files@.len() > 0 && 0 <= k < plan.files@.len() {
        if private {
            assert(writes(r->Ok_0.steps@[2 + k], plan.files@[k]));
        } else {
            assert(writes(r->Ok_0.steps@[1 + k], plan.files@[k]));
        }
    }
}

/// A plan that could not be made is an error, where there are files to place. A step
/// that failed removes the directory only once a file was to be written into it.
pub proof fn law_failed_step_cleans_up(
    command: AgentCommand,
    directory: &str,
    e: BackendError,
    private: bool,
    step: &MaterializeStep,
    error: &str,
    r: Result<Materialization, BackendError>,
    q: (bool, BackendError),
)
    requires
        call_ensures(materialize_temporary_files, (command, directory, Err(e), private), r),
        call_ensures(materialize_failed, (step, error), q),
    ensures
        r is Err <==> command.temporary_files@.len() > 0,
        r is Err ==> r->Err_0 == e,
        q.0 <==> *step is WriteFile,
        q.1.message@ == error@ && q.1.code == BackendErrorCode::Platform,
{
}

/// The directory of a run lies below the one for temporary files, and its name shows
/// whose it is.
pub proof fn law_workspace_lies_below_the_temporary(
    temporary: &str,
    id: u128,
    name: &str,
    own: String,
    r: String,
)
    requires
        name@ == "openless-agent-"@ + simple_text(id),
        call_ensures(path_below, (temporary, name), own),
        call_ensures(workspace_named, (temporary, id), r),
    ensures
        r@ == own@,
        simple_text(id).len() == 32,
{
}

/// The path is that of the first attempt that succeeded and told one, and there is
/// none only if no attempt did.
pub proof fn law_first_told_path_counts(
    attempts: &Vec<ShellAttempt>,
    r: Option<String>,
    k: int,
)
    requires
        call_ensures(login_shell_path, (attempts,), r),
        0 <= k < attempts@.len(),
        attempts@[k].succeeded,
        attempts@[k].path is Some,
        forall|j: int|
            0 <= j < k ==> !((#[trigger] attempts@[j]).succeeded && attempts@[j].path is Some),
    ensures
        r is Some,
        r->0@ == attempts@[k].path->0@,
{
    assert(tells_path(attempts@[k]));
    if r is Some {
        let i = choose|i: int|
            {
                &&& 0 <= i < attempts@.len()
                &&& #[trigger] tells_path(attempts@[i])
                &&& r->0@ == attempts@[i].path->0@
                &&& forall|j: int| 0 <= j < i ==> !#[trigger] tells_path(attempts@[j])
            };
        if i < k {
            assert(attempts@[i].succeeded && attempts@[i].path is Some);
        }
        assert(i == k);
    }
}

/// On Unix a process gets the user's home, where there is one, and the path, and its
/// own values after these, so that they count. Elsewhere it gets its own alone.
pub proof fn law_own_environment_comes_last(
    unix: bool,
    home: Option<String>,
    path: String,
    own: Vec<(String, String)>,
    r: Vec<(String, String)>,
    k: int,
)
    requires
        call_ensures(process_env, (unix, home, path, own), r),
    ensures
        ({
            let lead = if !unix {
                0int
            } else if home is Some {
                2int
            } else {
                1int
            };
            &&& r@.len() == lead + own@.len()
            &&& 0 <= k < own@.len() ==> r@[lead + k].0@ == own@[k].0@ && r@[lead + k].1@ == own@[k].1@
            &&& unix ==> r@[lead - 1].0@ == "PATH"@ && r@[lead - 1].1@ == path@
            &&& unix && home is Some ==> r@[0].0@ == "HOME"@ && r@[0].1@ == home->0@
        }),
{
    let v = env_views(r@);
    let lead = if !unix {
        0int
    } else if home is Some {
        2int
    } else {
        1int
    };
    assert(v.len() == r@.len());
    assert(env_views(own@).len() == own@.len());
    if 0 <= k < own@.len() {
        assert(v[lead + k] == (r@[lead + k].0@, r@[lead + k].1@));
        assert(env_views(own@)[k] == (own@[k].0@, own@[k].1@));
    }
    if unix {
        assert(v[lead - 1] == (r@[lead - 1].0@, r@[lead - 1].1@));
        assert(v[0] == (r@[0].0@, r@[0].1@));
    }
}

/// The prompt reaches the agent one way: as its last argument, or through its
/// standard input. Everything else of the command goes along as it is.
pub proof fn law_prompt_reaches_the_agent(command: AgentCommand, r: ProcessPlan)
    requires
        call_ensures(TauriCodingAgentProcessAdapter::plan, (command,), r),
    ensures
        r.executable == command.executable && r.env == command.env && r.cwd == command.cwd,
        r.stdin is Some <==> command.prompt is Stdin,
        r.stdin is Some ==> r.stdin->0 == command.prompt->Stdin_0 && r.arguments@ == command.argv@,
        command.prompt is Argv ==> r.arguments@.len() == command.argv@.len() + 1
            && r.arguments@.last() == command.prompt->Argv_0 && r.arguments@.drop_last()
            == command.argv@,
{
    if command.prompt is Argv {
        assert(r.arguments@.drop_last() =~= command.argv@);
    }
}

/// A run that nothing goes wrong with: the files, the path, the start, the prompt, the
/// output, and then the wait for the exit, which is told as it is.
pub proof fn law_run_without_trouble(
    a: &mut TauriCodingAgentProcessAdapter,
    b: &mut TauriCodingAgentProcessAdapter,
    c: &mut TauriCodingAgentProcessAdapter,
    d: &mut TauriCodingAgentProcessAdapter,
    e: &mut TauriCodingAgentProcessAdapter,
    f: &mut TauriCodingAgentProcessAdapter,
    g: &mut TauriCodingAgentProcessAdapter,
    exit: ProcessExit,
    cancelled: bool,
    ra: ProcessAction,
    rb: ProcessAction,
    rc: ProcessAction,
    rd: ProcessAction,
    re: ProcessAction,
    rf: ProcessAction,
    rg: ProcessAction,
)
    requires
        call_ensures(TauriCodingAgentProcessAdapter::new, (), *a),
        call_ensures(
            TauriCodingAgentProcessAdapter::execute,
            (a, ProcessEvent::Materialized(Ok(()))),
            ra,
        ),
        *b == *final(a),
        call_ensures(TauriCodingAgentProcessAdapter::execute, (b, ProcessEvent::PathFound), rb),
        *c == *final(b),
        call_ensures(TauriCodingAgentProcessAdapter::execute, (c, ProcessEvent::Spawned), rc),
        *d == *final(c),
        call_ensures(
            TauriCodingAgentProcessAdapter::execute,
            (d, ProcessEvent::PromptGiven(Ok(()))),
            rd,
        ),
        *e == *final(d),
        call_ensures(
            TauriCodingAgentProcessAdapter::execute,
            (e, ProcessEvent::Streams { stdout: true, stderr: true }),
            re,
        ),
        *f == *final(e),
        call_ensures(
            TauriCodingAgentProcessAdapter::execute,
            (f, ProcessEvent::Tick { cancelled: false }),
            rf,
        ),
        *g == *final(f),
        call_ensures(
            TauriCodingAgentProcessAdapter::execute,
            (g, ProcessEvent::Exited { status: Ok(exit), cancelled }),
            rg,
        ),
    ensures
        ra is FindPath,
        rb is Spawn,
        rc is GivePrompt,
        rd is TakeStreams,
        re is Wait,
        rf is Wait,
        rg == ProcessAction::Done(
            Ok(ProcessExit { code: exit.code, success: exit.success && !cancelled }),
        ),
        final(g).phase == ProcessPhase::Ended,
{
}

/// A run that is cancelled while its process is there: all that it has started is
/// ended, or the process alone where that cannot be done, and the exit that follows
/// is never a success.
pub proof fn law_cancelled_run_is_ended(
    found: &mut TauriCodingAgentProcessAdapter,
    group: &mut TauriCodingAgentProcessAdapter,
    alone: &mut TauriCodingAgentProcessAdapter,
    gone: &mut TauriCodingAgentProcessAdapter,
    done: bool,
    exit: ProcessExit,
    cancelled: bool,
    ra: ProcessAction,
    rb: ProcessAction,
    rc: ProcessAction,
    rd: ProcessAction,
)
    requires
        found.phase == ProcessPhase::Waiting,
        call_ensures(
            TauriCodingAgentProcessAdapter::execute,
            (found, ProcessEvent::Tick { cancelled: true }),
            ra,
        ),
        *group == *final(found),
        call_ensures(
            TauriCodingAgentProcessAdapter::execute,
            (group, ProcessEvent::GroupKilled(done)),
            rb,
        ),
        *alone == *final(group),
        !done ==> call_ensures(
            TauriCodingAgentProcessAdapter::execute,
            (alone, ProcessEvent::ProcessKilled(Ok(()))),
            rc,
        ),
        done ==> *gone == *alone,
        !done ==> *gone == *final(alone),
        call_ensures(
            TauriCodingAgentProcessAdapter::execute,
            (gone, ProcessEvent::Exited { status: Ok(exit), cancelled }),
            rd,
        ),
    ensures
        ra is KillGroup,
        done ==> rb is Wait,
        !done ==> rb is KillProcess && rc is Wait,
        rd == ProcessAction::Done(Ok(ProcessExit { code: exit.code, success: false })),
        final(gone).phase == ProcessPhase::Ended,
{
}

/// What goes wrong at a step ends the run there, with the reason in its own words.
pub proof fn law_trouble_ends_the_run(
    m: &mut TauriCodingAgentProcessAdapter,
    p: &mut TauriCodingAgentProcessAdapter,
    s: &mut TauriCodingAgentProcessAdapter,
    f: &mut TauriCodingAgentProcessAdapter,
    t: &mut TauriCodingAgentProcessAdapter,
    w: &mut TauriCodingAgentProcessAdapter,
    e: BackendError,
    why: String,
    not_found: bool,
    out: bool,
    err: bool,
    cancelled: bool,
    rm: ProcessAction,
    rp: ProcessAction,
    rs: ProcessAction,
    rf: ProcessAction,
    rt: ProcessAction,
    rw: ProcessAction,
)
    requires
        m.phase == ProcessPhase::Materializing,
        call_ensures(
            TauriCodingAgentProcessAdapter::execute,
            (m, ProcessEvent::Materialized(Err(e))),
            rm,
        ),
        p.phase == ProcessPhase::FindingPath,
        call_ensures(TauriCodingAgentProcessAdapter::execute, (p, ProcessEvent::PathCancelled), rp),
        s.phase == ProcessPhase::Starting,
        call_ensures(
            TauriCodingAgentProcessAdapter::execute,
            (s, ProcessEvent::SpawnFailed { not_found, error: why }),
            rs,
        ),
        f.phase == ProcessPhase::Feeding,
        call_ensures(
            TauriCodingAgentProcessAdapter::execute,
            (f, ProcessEvent::PromptGiven(Err(why))),
            rf,
        ),
        t.phase == ProcessPhase::Attaching,
        !(out && err),
        call_ensures(
            TauriCodingAgentProcessAdapter::execute,
            (t, ProcessEvent::Streams { stdout: out, stderr: err }),
            rt,
        ),
        w.phase == ProcessPhase::Waiting,
        call_ensures(
            TauriCodingAgentProcessAdapter::execute,
            (w, ProcessEvent::Exited { status: Err(why), cancelled }),
            rw,
        ),
    ensures
        final(m).phase == ProcessPhase::Ended && final(p).phase == ProcessPhase::Ended
            && final(s).phase == ProcessPhase::Ended && final(f).phase == ProcessPhase::Ended
            && final(t).phase == ProcessPhase::Ended && final(w).phase == ProcessPhase::Ended,
        rm == ProcessAction::Done(Err(e)),
        rp == ProcessAction::Done(Ok(ProcessExit { code: None, success: false })),
        rs matches ProcessAction::Done(Err(x)) && x.message@ == why@ && (x.code
            == BackendErrorCode::Unsupported <==> not_found) && (x.code == BackendErrorCode::Platform
            <==> !not_found),
        rf matches ProcessAction::Done(Err(x)) && x.message@ == why@ && x.code
            == BackendErrorCode::Platform,
        rt matches ProcessAction::Done(Err(x)) && x.code == BackendErrorCode::InvalidArgument,
        rw matches ProcessAction::Done(Err(x)) && x.message@ == why@ && x.code
            == BackendErrorCode::Platform,
{
}

} // verus!
