use openless::agent::{
    agent_executable, agent_run_result, base_allowed_tools, check_lists_models, collect_approvals,
    detect, guard_file, guard_file_written, guard_kind, guard_settings,
    guard_write_error, known_servers, list_models, map_coding_agent_error, retain_deny_rules,
    AgentRunEnd, AgentRunKind, ApprovedPattern, CliProbe, CodingAgentError,
    CodingAgentProvider, CodingAgentRequest, CodingAgentTestRequest, GuardKind, RiskPattern,
    RunGuard, TauriCodingAgentApi, TestEnd, TestGuard,
};
use openless::agent_process::{
    process_env,
    login_shell_path, materialize_failed, materialize_temporary_files, new_workspace,
    workspace_named, AgentCommand, AgentMaterializationPlan, MaterializeStep, PlacedFile,
    TemporaryFile, ProcessAction, ProcessEvent, ProcessExit, ProcessPhase,
    PromptPayload, ShellAttempt, TauriCodingAgentProcessAdapter,
};
use openless::types::{BackendError, BackendErrorCode};

#[test]
fn coding_agent_cancel_is_idempotent_and_unsupported_model_lists_are_explicit() {
    let mut api = TauriCodingAgentApi::new();
    api.cancel_test();
    api.cancel_test();
    let error = check_lists_models(CodingAgentProvider::CodexCli).unwrap_err();
    assert_eq!(error.code, BackendErrorCode::Unsupported);
}

fn waiting() -> TauriCodingAgentProcessAdapter {
    let mut adapter = TauriCodingAgentProcessAdapter::new();
    assert!(matches!(adapter.execute(ProcessEvent::Materialized(Ok(()))), ProcessAction::FindPath));
    assert!(matches!(adapter.execute(ProcessEvent::PathFound), ProcessAction::Spawn));
    assert!(matches!(adapter.execute(ProcessEvent::Spawned), ProcessAction::GivePrompt));
    assert!(matches!(adapter.execute(ProcessEvent::PromptGiven(Ok(()))), ProcessAction::TakeStreams));
    let streams = ProcessEvent::Streams { stdout: true, stderr: true };
    assert!(matches!(adapter.execute(streams), ProcessAction::Wait));
    adapter
}

fn exited(code: Option<i32>, success: bool, cancelled: bool) -> ProcessEvent {
    ProcessEvent::Exited { status: Ok(ProcessExit { code, success }), cancelled }
}

fn exit(action: ProcessAction) -> ProcessExit {
    match action {
        ProcessAction::Done(Ok(exit)) => exit,
        other => panic!("the run goes on: {other:?}"),
    }
}

fn failure(action: ProcessAction) -> BackendError {
    match action {
        ProcessAction::Done(Err(error)) => error,
        other => panic!("the run goes on: {other:?}"),
    }
}

#[test]
fn cancellation_kills_a_running_child() {
    let mut adapter = waiting();
    let tick = |cancelled| ProcessEvent::Tick { cancelled };
    assert!(matches!(adapter.execute(tick(false)), ProcessAction::Wait));
    assert!(matches!(adapter.execute(tick(true)), ProcessAction::KillGroup));
    assert!(matches!(adapter.execute(ProcessEvent::GroupKilled(true)), ProcessAction::Wait));
    let result = exit(adapter.execute(exited(None, false, true)));
    assert!(!result.success);
    assert!(matches!(adapter.execute(tick(true)), ProcessAction::Nothing));
}

#[test]
fn cancellation_kills_a_windows_process_tree() {
    let mut adapter = waiting();
    adapter.execute(ProcessEvent::Tick { cancelled: true });
    assert!(matches!(adapter.execute(ProcessEvent::GroupKilled(false)), ProcessAction::KillProcess));
    assert!(matches!(adapter.execute(ProcessEvent::ProcessKilled(Ok(()))), ProcessAction::Wait));
    let result = exit(adapter.execute(exited(Some(0), true, true)));
    assert!(!result.success);
}

#[test]
fn coding_agent_runtime_reports_unavailable_cli_without_fake_success() {
    let spawn = |not_found| {
        let mut adapter = TauriCodingAgentProcessAdapter::new();
        adapter.execute(ProcessEvent::Materialized(Ok(())));
        adapter.execute(ProcessEvent::PathFound);
        failure(adapter.execute(ProcessEvent::SpawnFailed { not_found, error: "no such file".into() }))
    };
    assert_eq!(spawn(true).code, BackendErrorCode::Unsupported);
    assert_eq!(spawn(false).code, BackendErrorCode::Platform);
    assert_eq!(spawn(false).message, "no such file");
}

#[test]
fn a_request_that_was_cancelled_early_starts_nothing() {
    let mut adapter = TauriCodingAgentProcessAdapter::new();
    adapter.execute(ProcessEvent::Materialized(Ok(())));
    let result = exit(adapter.execute(ProcessEvent::PathCancelled));
    assert_eq!(result, ProcessExit { code: None, success: false });
    assert_eq!(adapter.phase, ProcessPhase::Ended);
}

#[test]
fn every_step_of_a_process_can_fail() {
    let mut adapter = TauriCodingAgentProcessAdapter::new();
    let disk = BackendError::new(BackendErrorCode::Platform, "disk full");
    assert_eq!(failure(adapter.execute(ProcessEvent::Materialized(Err(disk)))).message, "disk full");

    let mut adapter = waiting();
    adapter.phase = ProcessPhase::Feeding;
    let broken = ProcessEvent::PromptGiven(Err("broken pipe".into()));
    assert_eq!(failure(adapter.execute(broken)).message, "broken pipe");

    for (stdout, stderr, message) in
        [(false, false, "missing process stdout"), (true, false, "missing process stderr")]
    {
        let mut adapter = waiting();
        adapter.phase = ProcessPhase::Attaching;
        let error = failure(adapter.execute(ProcessEvent::Streams { stdout, stderr }));
        assert_eq!((error.code, error.message.as_str()), (BackendErrorCode::InvalidArgument, message));
    }

    let mut adapter = waiting();
    let lost = ProcessEvent::Exited { status: Err("no child".into()), cancelled: false };
    assert_eq!(failure(adapter.execute(lost)).code, BackendErrorCode::Platform);

    let mut adapter = waiting();
    assert!(exit(adapter.execute(exited(Some(0), true, false))).success);
    let mut adapter = waiting();
    assert!(!exit(adapter.execute(exited(Some(0), true, true))).success);
}

#[test]
fn the_first_shell_that_answers_tells_the_path() {
    let attempt = |succeeded, path: Option<&str>| ShellAttempt {
        succeeded,
        path: path.map(str::to_string),
    };
    let attempts = vec![
        attempt(false, Some("/failed")),
        attempt(true, None),
        attempt(true, Some("/usr/bin")),
        attempt(true, Some("/late")),
    ];
    assert_eq!(login_shell_path(&attempts).as_deref(), Some("/usr/bin"));
    assert_eq!(login_shell_path(&vec![]), None);
}

fn command(prompt: PromptPayload) -> AgentCommand {
    AgentCommand {
        executable: "agent".into(),
        argv: vec!["-p".into()],
        env: vec![("LANG".into(), "C".into())],
        prompt,
        cwd: Some("/work".into()),
        temporary_files: Vec::new(),
    }
}

#[test]
fn temporary_files_come_into_place_before_the_run() {
    let placed = || AgentMaterializationPlan {
        files: vec![PlacedFile { path: "/tmp/w/a".into(), contents: vec![1] }],
        argv: vec!["/tmp/w/a".into()],
    };
    let bare = command(PromptPayload::Stdin("hi".into()));
    let nothing = materialize_temporary_files(bare, "/tmp/w", Ok(placed()), true).unwrap();
    assert!(nothing.steps.is_empty() && nothing.workspace.is_none());
    assert_eq!(nothing.command.argv, vec!["-p"]);

    let with_file = || {
        let mut command = command(PromptPayload::Stdin("hi".into()));
        command.temporary_files =
            vec![TemporaryFile { name: "a".into(), contents: vec![1] }];
        command
    };
    let files = materialize_temporary_files(with_file(), "/tmp/w", Ok(placed()), true).unwrap();
    assert_eq!(files.command.argv, vec!["/tmp/w/a"]);
    assert_eq!(files.workspace.as_deref(), Some("/tmp/w"));
    assert_eq!(files.steps.len(), 3);
    assert!(matches!(&files.steps[0], MaterializeStep::CreateDirectory(d) if d == "/tmp/w"));
    assert!(matches!(&files.steps[1], MaterializeStep::MakePrivate(d) if d == "/tmp/w"));
    assert!(matches!(&files.steps[2], MaterializeStep::WriteFile(f) if f.contents == vec![1]));
    let open = materialize_temporary_files(with_file(), "/tmp/w", Ok(placed()), false).unwrap();
    assert_eq!(open.steps.len(), 2);
    let refused = BackendError::new(BackendErrorCode::InvalidArgument, "bad name");
    let failed = materialize_temporary_files(with_file(), "/tmp/w", Err(refused), true);
    assert_eq!(failed.unwrap_err().message, "bad name");
    let (remove, error) = materialize_failed(&files.steps[2], "disk full");
    assert!(remove);
    assert_eq!((error.code, error.message.as_str()), (BackendErrorCode::Platform, "disk full"));
    assert!(!materialize_failed(&files.steps[0], "exists").0);

    assert_eq!(
        workspace_named("/tmp", 0x1f),
        "/tmp/openless-agent-0000000000000000000000000000001f"
    );
    let name = new_workspace("/tmp");
    assert_eq!(name.len(), "/tmp/openless-agent-".len() + 32);
    assert_ne!(name, new_workspace("/tmp"));
}

#[test]
fn the_prompt_goes_where_the_agent_reads_it() {
    let argv = TauriCodingAgentProcessAdapter::plan(command(PromptPayload::Argv("do".into())));
    assert_eq!(argv.arguments, vec!["-p", "do"]);
    assert_eq!(argv.stdin, None);
    let stdin = TauriCodingAgentProcessAdapter::plan(command(PromptPayload::Stdin("do".into())));
    assert_eq!(stdin.arguments, vec!["-p"]);
    assert_eq!(stdin.stdin.as_deref(), Some("do"));
}

#[test]
fn a_process_gets_its_home_and_its_path_first() {
    let own = || vec![("PATH".to_string(), "/own".to_string())];
    let pair = |name: &str, value: &str| (name.to_string(), value.to_string());
    assert_eq!(
        process_env(true, Some("/home/u".into()), "/bin".into(), own()),
        vec![pair("HOME", "/home/u"), pair("PATH", "/bin"), pair("PATH", "/own")]
    );
    assert_eq!(
        process_env(true, None, "/bin".into(), vec![]),
        vec![pair("PATH", "/bin")]
    );
    assert_eq!(process_env(false, Some("/h".into()), "/bin".into(), own()), own());
}

fn test_request(provider: CodingAgentProvider) -> CodingAgentTestRequest {
    CodingAgentTestRequest {
        provider,
        executable: "/bin/agent".into(),
        prompt: "hello".into(),
        workdir: Some("/work".into()),
        model: None,
        permission_mode: "plan".into(),
        max_budget: None,
        timeout_secs: Some(60),
    }
}

#[test]
fn only_one_test_runs_and_it_can_be_cancelled() {
    let mut api = TauriCodingAgentApi::new();
    let plan = api.run_test(Ok(test_request(CodingAgentProvider::ClaudeCodeCli))).unwrap();
    assert_eq!(plan.request_id, "console-1");
    match &plan.guard {
        TestGuard::Settings { default_mode, approved_patterns } => {
            assert_eq!(default_mode, "plan");
            assert!(approved_patterns.is_empty());
        }
        other => panic!("{other:?}"),
    }
    assert_eq!(plan.snapshot.as_deref(), Some("/work"));
    assert!(!plan.session_persistence);
    assert_eq!(plan.allowed_tools, base_allowed_tools());
    let second = api.run_test(Ok(test_request(CodingAgentProvider::CodexCli))).unwrap_err();
    assert_eq!(second.code, BackendErrorCode::Busy);
    api.cancel_test();
    assert!(api.active_test.unwrap().cancelled);
    let (remove, status) = api.test_ended(
        plan.number,
        plan.request_id,
        &plan.guard,
        TestEnd::Ran(AgentRunEnd::Finished),
    );
    let status = status.unwrap();
    assert!(remove && !status.running);
    assert_eq!(status.request_id.as_deref(), Some("console-1"));
    assert!(api.active_test.is_none());
    let next = api.run_test(Ok(test_request(CodingAgentProvider::CodexCli))).unwrap();
    assert_eq!(next.request_id, "console-3");
    assert!(matches!(next.guard, TestGuard::Unguarded));
    api.clear_active_test(1);
    assert!(api.active_test.is_some());
    let (remove, status) = api.test_ended(3, "console-3".into(), &next.guard, TestEnd::GuardFailed("io".into()));
    assert!(!remove);
    assert_eq!(status.unwrap_err().message, "failed to write coding agent guard settings: io");
    let refused = BackendError::new(BackendErrorCode::InvalidArgument, "blank prompt");
    assert_eq!(api.run_test(Err(refused)).unwrap_err().message, "blank prompt");
    assert!(api.active_test.is_none());
}

fn run_request(provider: CodingAgentProvider) -> CodingAgentRequest {
    CodingAgentRequest {
        provider,
        prompt: "tidy up".into(),
        model: None,
        executable: None,
        cwd: Some("/work".into()),
        permission_mode: "acceptEdits".into(),
        approved_patterns: vec![ApprovedPattern {
            own: risk("sudo", Some("Bash(sudo:*)")),
            equivalents: vec![],
        }],
        allowed_tools: vec!["Own".into()],
    }
}

#[test]
fn a_run_is_guarded_as_its_agent_needs() {
    let deny = vec!["Bash(sudo:*)".to_string(), "Bash(rm:*)".to_string()];
    let plan = TauriCodingAgentApi::run(run_request(CodingAgentProvider::ClaudeCodeCli), &deny, "own");
    assert_eq!(plan.executable, "own");
    assert_eq!((plan.prompt.as_str(), plan.model), ("tidy up", None));
    assert_eq!(plan.snapshot.as_deref(), Some("/work"));
    match plan.guard {
        RunGuard::Settings { default_mode, deny } => {
            assert_eq!(default_mode, "acceptEdits");
            assert_eq!(deny, vec!["Bash(rm:*)"]);
        }
        other => panic!("{other:?}"),
    }
    assert_eq!(plan.allowed_tools.last().unwrap(), "Bash(sudo:*)");
    assert_eq!(plan.allowed_tools.len(), 8);
    let plan = TauriCodingAgentApi::run(run_request(CodingAgentProvider::OpenCodeCli), &deny, "own");
    assert!(matches!(plan.guard, RunGuard::Config { approved_patterns } if approved_patterns == vec!["sudo"]));
    assert_eq!(plan.allowed_tools, vec!["Own"]);
    let plan = TauriCodingAgentApi::run(run_request(CodingAgentProvider::DshCli), &deny, "own");
    assert!(matches!(plan.guard, RunGuard::Unguarded));
}

#[test]
fn an_agent_is_looked_up() {
    let probe = |installed| CliProbe { installed, version: Some("1.0".into()) };
    let servers = || vec!["computer-use".to_string()];
    let found = detect(CodingAgentProvider::ClaudeCodeCli, Ok("x".into()), probe(true), servers(), true).unwrap();
    assert!(found.installed && found.has_computer_use);
    assert_eq!(found.mcp_servers, servers());
    let missing = detect(CodingAgentProvider::ClaudeCodeCli, Ok("x".into()), probe(false), servers(), false).unwrap();
    assert!(!missing.has_computer_use);
    assert!(missing.mcp_servers.is_empty());
    let other = detect(CodingAgentProvider::CodexCli, Ok("x".into()), probe(true), servers(), false).unwrap();
    assert!(other.mcp_servers.is_empty());
    assert_eq!(known_servers(CodingAgentProvider::ClaudeCodeCli, true, servers()), servers());
    let failed = list_models(CodingAgentProvider::OpenCodeCli, Err("offline".into())).unwrap_err();
    assert!(failed.retryable);
    assert_eq!(failed.code, BackendErrorCode::Provider);
    assert_eq!(list_models(CodingAgentProvider::OpenCodeCli, Ok(servers())).unwrap(), servers());
    let unsupported = list_models(CodingAgentProvider::DshCli, Ok(servers())).unwrap_err();
    assert_eq!(unsupported.code, BackendErrorCode::Unsupported);
}

fn risk(pattern: &str, rule: Option<&str>) -> RiskPattern {
    RiskPattern { pattern: pattern.into(), deny_rule: rule.map(str::to_string) }
}

#[test]
fn an_approval_lifts_only_its_rules() {
    let approved = vec![ApprovedPattern {
        own: risk("git reset --hard", Some("Bash(git reset:*)")),
        equivalents: vec![
            risk("git reset --hard", Some("Bash(git reset:*)")),
            risk("git clean", Some("Bash(git clean:*)")),
        ],
    }];
    let approvals = collect_approvals(&approved);
    let deny = vec![
        "Bash(git reset:*)".to_string(),
        "Bash(sudo:*)".to_string(),
        "Bash(git clean:*)".to_string(),
    ];
    assert_eq!(retain_deny_rules(&deny, &approvals.rules), vec!["Bash(sudo:*)"]);
    let settings = guard_settings(&deny, approvals);
    assert_eq!(settings.deny, vec!["Bash(sudo:*)"]);
    for tool in base_allowed_tools() {
        assert!(settings.allowed_tools.contains(&tool));
    }
}

#[test]
fn agent_failures_keep_their_class() {
    let code = |e: CodingAgentError| map_coding_agent_error(&e, "m".to_string()).code;
    assert_eq!(code(CodingAgentError::Cancelled), BackendErrorCode::Cancelled);
    assert_eq!(
        code(CodingAgentError::ExecutableNotFound("x".into())),
        BackendErrorCode::InvalidArgument
    );
    assert_eq!(code(CodingAgentError::Timeout("x".into())), BackendErrorCode::Provider);
    assert!(agent_run_result(AgentRunKind::LessComputer, AgentRunEnd::Finished).is_ok());
    assert!(agent_run_result(AgentRunKind::ConsoleTest, AgentRunEnd::Lost("x".into())).is_err());
    let guard = guard_write_error(AgentRunKind::ConsoleTest, "disk full");
    assert!(guard.message.ends_with("disk full"));
    let settings = RunGuard::Settings { default_mode: "plan".into(), deny: Vec::new() };
    let lost = TestEnd::Ran(AgentRunEnd::Lost("x".into()));
    let (remove, result) = TauriCodingAgentApi::run_ended(&settings, lost);
    assert!(remove);
    assert_eq!(result.unwrap_err().message, "Less Computer runtime task failed: x");
    let unwritten = TestEnd::GuardFailed("disk full".into());
    let (remove, result) = TauriCodingAgentApi::run_ended(&settings, unwritten);
    assert!(!remove);
    assert_eq!(
        result.unwrap_err().message,
        "failed to write Less Computer guard settings: disk full"
    );
    let done = TestEnd::Ran(AgentRunEnd::Finished);
    let (remove, result) = TauriCodingAgentApi::run_ended(&RunGuard::Unguarded, done);
    assert!(!remove && result.is_ok());
    assert_eq!(agent_executable(None, "codex"), "codex");
    assert_eq!(agent_executable(Some("/bin/x".into()), "codex"), "/bin/x");
    assert_ne!(guard_kind(CodingAgentProvider::CodexCli), GuardKind::SettingsFile);
}

#[test]
fn the_settings_file_says_what_is_forbidden() {
    let deny = vec!["Bash(rm:*)".to_string(), "say \"no\"".to_string()];
    let bytes = guard_file("plan", &deny).unwrap();
    let text = String::from_utf8(bytes.clone()).unwrap();
    assert!(text.starts_with("{\n"));
    let value: serde_json::Value = serde_json::from_slice(&bytes).unwrap();
    assert_eq!(value["permissions"]["defaultMode"], "plan");
    assert_eq!(value["permissions"]["deny"][0], "Bash(rm:*)");
    assert_eq!(value["permissions"]["deny"][1], "say \"no\"");
    assert_eq!(value["permissions"]["deny"].as_array().unwrap().len(), 2);
    assert_eq!(guard_file_written(Err("x".into())).unwrap_err().code, BackendErrorCode::Internal);
}
