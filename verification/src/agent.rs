//! Running a coding agent: what it may do, which run is under way, and how its
//! end is reported.

use crate::providers::texts;
use crate::text::{decimal, decimal_text, join2, str_eq};
use crate::types::{opt_text, BackendError, BackendErrorCode};
use vstd::prelude::*;

verus! {

/// The agents that can be run.
#[derive(Clone, Copy, PartialEq, Eq, Structural, Debug)]
pub enum CodingAgentProvider {
    ClaudeCodeCli,
    OpenCodeCli,
    CodexCli,
    DshCli,
}

/// The program to start: the configured one, else the agent's own.
pub fn agent_executable(configured: Option<String>, own_program: &str) -> (r: String)
    ensures
        r@ == (match configured {
            Some(e) => e@,
            None => own_program@,
        }),
{
    match configured {
        Some(e) => e,
        None => own_program.to_owned(),
    }
}

/// How an agent is told what it may not do.
#[derive(Clone, Copy, PartialEq, Eq, Structural, Debug)]
pub enum GuardKind {
    /// A settings file that is removed after the run.
    SettingsFile,
    /// A configuration that is handed over at the start.
    Config,
    Unguarded,
}

pub open spec fn guard_of(provider: CodingAgentProvider) -> GuardKind {
    match provider {
        CodingAgentProvider::ClaudeCodeCli => GuardKind::SettingsFile,
        CodingAgentProvider::OpenCodeCli => GuardKind::Config,
        _ => GuardKind::Unguarded,
    }
}

pub fn guard_kind(provider: CodingAgentProvider) -> (r: GuardKind)
    ensures
        r == guard_of(provider),
{
    match provider {
        CodingAgentProvider::ClaudeCodeCli => GuardKind::SettingsFile,
        CodingAgentProvider::OpenCodeCli => GuardKind::Config,
        _ => GuardKind::Unguarded,
    }
}

/// Whether the servers of an agent are listed: only one agent can, and only
/// where it is installed.
pub fn lists_servers(provider: CodingAgentProvider, installed: bool) -> (r: bool)
    ensures
        r == (provider == CodingAgentProvider::ClaudeCodeCli && installed),
{
    provider == CodingAgentProvider::ClaudeCodeCli && installed
}

/// Whether the models of an agent can be listed.
pub fn check_lists_models(provider: CodingAgentProvider) -> (r: Result<(), BackendError>)
    ensures
        match r {
            Ok(()) => provider == CodingAgentProvider::OpenCodeCli,
            Err(e) => provider != CodingAgentProvider::OpenCodeCli && e.is(
                BackendErrorCode::Unsupported,
                "selected coding agent provider does not expose a model-list command"@,
            ),
        },
{
    if provider != CodingAgentProvider::OpenCodeCli {
        return Err(
            BackendError::new(
                BackendErrorCode::Unsupported,
                "selected coding agent provider does not expose a model-list command",
            ),
        );
    }
    Ok(())
}

/// What the models of an agent could not be listed for, in its words. The
/// listing can be tried again.
pub fn list_models(provider: CodingAgentProvider, listed: Result<Vec<String>, String>) -> (r: Result<
    Vec<String>,
    BackendError,
>)
    ensures
        if provider != CodingAgentProvider::OpenCodeCli {
            r matches Err(e) && e.is(
                BackendErrorCode::Unsupported,
                "selected coding agent provider does not expose a model-list command"@,
            )
        } else {
            match listed {
                Ok(models) => r == Ok::<Vec<String>, BackendError>(models),
                Err(m) => r == Err::<Vec<String>, BackendError>(
                    BackendError { code: BackendErrorCode::Provider, message: m, retryable: true },
                ),
            }
        },
{
    check_lists_models(provider)?;
    match listed {
        Ok(models) => Ok(models),
        Err(message) => Err(
            BackendError { code: BackendErrorCode::Provider, message, retryable: true },
        ),
    }
}

/// What a look at an agent's program showed.
#[derive(Debug)]
pub struct CliProbe {
    pub installed: bool,
    pub version: Option<String>,
}

/// Whether an agent can be used, and with which servers.
#[derive(Debug)]
pub struct CodingAgentAvailability {
    pub provider: CodingAgentProvider,
    pub installed: bool,
    pub executable: String,
    pub version: Option<String>,
    pub mcp_servers: Vec<String>,
    /// One of the servers lets the agent use the screen.
    pub has_computer_use: bool,
}

/// The servers of an agent: what it lists, where it can list them.
pub open spec fn servers_of(provider: CodingAgentProvider, installed: bool, listed: Seq<String>) -> Seq<
    String,
> {
    if provider == CodingAgentProvider::ClaudeCodeCli && installed {
        listed
    } else {
        Seq::empty()
    }
}

/// The servers that count, which the backend looks through for one that lets
/// the agent use the screen.
pub fn known_servers(provider: CodingAgentProvider, installed: bool, listed: Vec<String>) -> (r: Vec<
    String,
>)
    ensures
        r@ == servers_of(provider, installed, listed@),
{
    if lists_servers(provider, installed) {
        listed
    } else {
        Vec::new()
    }
}

/// Whether an agent can be used. `servers` is what it lists, and
/// `has_computer_use` what the backend finds in the servers that count. An
/// executable that cannot be used is an error.
pub fn detect(
    provider: CodingAgentProvider,
    executable: Result<String, BackendError>,
    probe: CliProbe,
    servers: Vec<String>,
    has_computer_use: bool,
) -> (r: Result<CodingAgentAvailability, BackendError>)
    ensures
        match executable {
            Err(e) => r == Err::<CodingAgentAvailability, BackendError>(e),
            Ok(program) => {
                &&& r matches Ok(a)
                &&& a.provider == provider
                &&& a.installed == probe.installed
                &&& a.executable == program
                &&& a.version == probe.version
                &&& a.mcp_servers@ == servers_of(provider, probe.installed, servers@)
                &&& a.has_computer_use == has_computer_use
            },
        },
{
    let program: String = executable?;
    let mcp_servers: Vec<String> = known_servers(provider, probe.installed, servers);
    Ok(
        CodingAgentAvailability {
            provider,
            installed: probe.installed,
            executable: program,
            version: probe.version,
            mcp_servers,
            has_computer_use,
        },
    )
}

/// The tools an agent may always use.
pub open spec fn base_tools() -> Seq<Seq<char>> {
    seq!["Bash"@, "Read"@, "Edit"@, "Write"@, "Glob"@, "Grep"@, "WebSearch"@]
}

pub fn base_allowed_tools() -> (r: Vec<String>)
    ensures
        texts(r@) == base_tools(),
{
    let v: Vec<String> = vec![
        "Bash".to_owned(),
        "Read".to_owned(),
        "Edit".to_owned(),
        "Write".to_owned(),
        "Glob".to_owned(),
        "Grep".to_owned(),
        "WebSearch".to_owned(),
    ];
    proof {
        assert(texts(v@) =~= base_tools());
    }
    v
}

/// A command pattern and the rule that forbids it, if there is one.
#[derive(Debug)]
pub struct RiskPattern {
    pub pattern: String,
    pub deny_rule: Option<String>,
}

/// A pattern that the user approved, with the patterns that mean the same.
#[derive(Debug)]
pub struct ApprovedPattern {
    pub own: RiskPattern,
    pub equivalents: Vec<RiskPattern>,
}

/// The rules that `list` lifts, in order.
pub open spec fn rules_of(list: Seq<RiskPattern>) -> Seq<Seq<char>>
    decreases list.len(),
{
    if list.len() == 0 {
        Seq::empty()
    } else {
        match list.last().deny_rule {
            Some(rule) => rules_of(list.drop_last()).push(rule@),
            None => rules_of(list.drop_last()),
        }
    }
}

/// The patterns of `list` that a rule forbids, in order.
pub open spec fn patterns_of(list: Seq<RiskPattern>) -> Seq<Seq<char>>
    decreases list.len(),
{
    if list.len() == 0 {
        Seq::empty()
    } else {
        match list.last().deny_rule {
            Some(_) => patterns_of(list.drop_last()).push(list.last().pattern@),
            None => patterns_of(list.drop_last()),
        }
    }
}

/// The patterns that an approval covers: all that mean the same, or else the
/// pattern itself.
pub open spec fn covered(a: ApprovedPattern) -> Seq<RiskPattern> {
    if a.equivalents@.len() == 0 {
        seq![a.own]
    } else {
        a.equivalents@
    }
}

/// The rules that all approvals together lift.
pub open spec fn lifted_rules(approved: Seq<ApprovedPattern>) -> Seq<Seq<char>>
    decreases approved.len(),
{
    if approved.len() == 0 {
        Seq::empty()
    } else {
        lifted_rules(approved.drop_last()) + rules_of(covered(approved.last()))
    }
}

/// The forbidden patterns that all approvals together cover.
pub open spec fn approved_patterns(approved: Seq<ApprovedPattern>) -> Seq<Seq<char>>
    decreases approved.len(),
{
    if approved.len() == 0 {
        Seq::empty()
    } else {
        approved_patterns(approved.drop_last()) + patterns_of(covered(approved.last()))
    }
}

/// What the approvals of a user allow.
#[derive(Debug)]
pub struct Approvals {
    pub patterns: Vec<String>,
    pub rules: Vec<String>,
}

/// Adds what one pattern allows.
fn approve_pattern(out: &mut Approvals, p: &RiskPattern)
    ensures
        match p.deny_rule {
            Some(rule) => texts(final(out).patterns@) == texts(old(out).patterns@).push(p.pattern@)
                && texts(final(out).rules@) == texts(old(out).rules@).push(rule@),
            None => *final(out) == *old(out),
        },
{
    if let Some(rule) = &p.deny_rule {
        let ghost ps = out.patterns@;
        let ghost rs = out.rules@;
        out.patterns.push(p.pattern.clone());
        out.rules.push(rule.clone());
        proof {
            assert(texts(out.patterns@) =~= texts(ps).push(p.pattern@));
            assert(texts(out.rules@) =~= texts(rs).push(rule@));
        }
    }
}

/// Adds what one approval allows.
fn approve_group(out: &mut Approvals, a: &ApprovedPattern)
    ensures
        texts(final(out).patterns@) == texts(old(out).patterns@) + patterns_of(covered(*a)),
        texts(final(out).rules@) == texts(old(out).rules@) + rules_of(covered(*a)),
{
    let ghost p0 = texts(out.patterns@);
    let ghost r0 = texts(out.rules@);
    if a.equivalents.len() == 0 {
        proof {
            let one = seq![a.own];
            assert(one.drop_last() =~= Seq::<RiskPattern>::empty());
            assert(one.last() == a.own);
            reveal_with_fuel(rules_of, 2);
            reveal_with_fuel(patterns_of, 2);
            assert(p0 + Seq::<Seq<char>>::empty() =~= p0);
            assert(r0 + Seq::<Seq<char>>::empty() =~= r0);
        }
        approve_pattern(out, &a.own);
        proof {
            assert(texts(out.patterns@) =~= p0 + patterns_of(covered(*a)));
            assert(texts(out.rules@) =~= r0 + rules_of(covered(*a)));
        }
        return;
    }
    let mut i: usize = 0;
    proof {
        assert(a.equivalents@.take(0) =~= Seq::<RiskPattern>::empty());
        assert(p0 + patterns_of(a.equivalents@.take(0)) =~= p0);
        assert(r0 + rules_of(a.equivalents@.take(0)) =~= r0);
    }
    while i < a.equivalents.len()
        invariant
            i <= a.equivalents.len(),
            texts(out.patterns@) == p0 + patterns_of(a.equivalents@.take(i as int)),
            texts(out.rules@) == r0 + rules_of(a.equivalents@.take(i as int)),
        decreases a.equivalents.len() - i,
    {
        let ghost t = a.equivalents@.take(i + 1);
        proof {
            assert(t.drop_last() =~= a.equivalents@.take(i as int));
            assert(t.last() == a.equivalents@[i as int]);
        }
        approve_pattern(out, &a.equivalents[i]);
        proof {
            assert(texts(out.patterns@) =~= p0 + patterns_of(t));
            assert(texts(out.rules@) =~= r0 + rules_of(t));
        }
        i = i + 1;
    }
    proof {
        assert(a.equivalents@.take(a.equivalents@.len() as int) =~= a.equivalents@);
    }
}

/// What the approvals of a user allow. A pattern that no rule forbids needs
/// no approval and is left out.
pub fn collect_approvals(approved: &Vec<ApprovedPattern>) -> (r: Approvals)
    ensures
        texts(r.patterns@) == approved_patterns(approved@),
        texts(r.rules@) == lifted_rules(approved@),
{
    let mut out: Approvals = Approvals { patterns: Vec::new(), rules: Vec::new() };
    let mut i: usize = 0;
    proof {
        assert(texts(out.patterns@) =~= Seq::<Seq<char>>::empty());
        assert(texts(out.rules@) =~= Seq::<Seq<char>>::empty());
    }
    while i < approved.len()
        invariant
            i <= approved.len(),
            texts(out.patterns@) == approved_patterns(approved@.take(i as int)),
            texts(out.rules@) == lifted_rules(approved@.take(i as int)),
        decreases approved.len() - i,
    {
        proof {
            assert(approved@.take(i + 1).drop_last() =~= approved@.take(i as int));
            assert(approved@.take(i + 1).last() == approved@[i as int]);
        }
        approve_group(&mut out, &approved[i]);
        i = i + 1;
    }
    proof {
        assert(approved@.take(approved@.len() as int) =~= approved@);
    }
    out
}

/// The rules of `deny` that `lifted` does not lift, in order.
pub open spec fn remaining_rules(deny: Seq<Seq<char>>, lifted: Seq<Seq<char>>) -> Seq<Seq<char>>
    decreases deny.len(),
{
    if deny.len() == 0 {
        Seq::empty()
    } else {
        let rest = remaining_rules(deny.drop_last(), lifted);
        if lifted.contains(deny.last()) {
            rest
        } else {
            rest.push(deny.last())
        }
    }
}

fn list_contains(list: &Vec<String>, s: &str) -> (r: bool)
    ensures
        r == texts(list@).contains(s@),
{
    let mut i: usize = 0;
    while i < list.len()
        invariant
            i <= list.len(),
            forall|k: int| 0 <= k < i ==> (#[trigger] texts(list@)[k]) != s@,
        decreases list.len() - i,
    {
        if str_eq(list[i].as_str(), s) {
            assert(texts(list@)[i as int] == s@);
            return true;
        }
        i = i + 1;
    }
    false
}

/// The rules that stay in force.
pub fn retain_deny_rules(deny: &Vec<String>, lifted: &Vec<String>) -> (r: Vec<String>)
    ensures
        texts(r@) == remaining_rules(texts(deny@), texts(lifted@)),
{
    let mut out: Vec<String> = Vec::new();
    let mut i: usize = 0;
    let ghost d = texts(deny@);
    proof {
        assert(d.take(0) =~= Seq::<Seq<char>>::empty());
        assert(texts(out@) =~= Seq::<Seq<char>>::empty());
    }
    while i < deny.len()
        invariant
            i <= deny.len(),
            d == texts(deny@),
            texts(out@) == remaining_rules(d.take(i as int), texts(lifted@)),
        decreases deny.len() - i,
    {
        proof {
            assert(d.take(i + 1).drop_last() =~= d.take(i as int));
            assert(d.take(i + 1).last() == deny@[i as int]@);
        }
        if !list_contains(lifted, deny[i].as_str()) {
            let ghost before = out@;
            out.push(deny[i].clone());
            proof {
                assert(texts(out@) =~= texts(before).push(deny@[i as int]@));
            }
        }
        i = i + 1;
    }
    proof {
        assert(d.take(d.len() as int) =~= d);
    }
    out
}

/// What an agent may and may not do in a run.
#[derive(Debug)]
pub struct GuardSettings {
    pub deny: Vec<String>,
    pub allowed_tools: Vec<String>,
}

/// The guard of a run: what the approvals lift is allowed, every other rule
/// stays in force.
pub fn guard_settings(default_deny: &Vec<String>, approvals: Approvals) -> (r: GuardSettings)
    ensures
        texts(r.deny@) == remaining_rules(texts(default_deny@), texts(approvals.rules@)),
        texts(r.allowed_tools@) == base_tools() + texts(approvals.rules@),
{
    let deny: Vec<String> = retain_deny_rules(default_deny, &approvals.rules);
    let mut tools: Vec<String> = base_allowed_tools();
    let ghost base = tools@;
    let ghost extra = approvals.rules@;
    let mut rules: Vec<String> = approvals.rules;
    tools.append(&mut rules);
    proof {
        assert(texts(tools@) =~= texts(base) + texts(extra));
    }
    GuardSettings { deny, allowed_tools: tools }
}

/// No rule is both lifted and in force, and every rule that was not lifted is
/// still in force.
pub proof fn law_approval_lifts_only_its_rules(deny: Seq<Seq<char>>, lifted: Seq<Seq<char>>, rule: Seq<char>)
    ensures
        remaining_rules(deny, lifted).contains(rule) <==> deny.contains(rule) && !lifted.contains(
            rule,
        ),
    decreases deny.len(),
{
    let all = remaining_rules(deny, lifted);
    if deny.len() > 0 {
        let init = deny.drop_last();
        let rest = remaining_rules(init, lifted);
        law_approval_lifts_only_its_rules(init, lifted, rule);
        if all.contains(rule) {
            let i = choose|i: int| 0 <= i < all.len() && all[i] == rule;
            if i < rest.len() {
                assert(rest[i] == rule);
                let j = choose|j: int| 0 <= j < init.len() && init[j] == rule;
                assert(deny[j] == rule);
            } else {
                assert(deny[deny.len() - 1] == rule);
            }
        }
        if deny.contains(rule) && !lifted.contains(rule) {
            let j = choose|j: int| 0 <= j < deny.len() && deny[j] == rule;
            if j == deny.len() - 1 {
                assert(all[all.len() - 1] == rule);
            } else {
                assert(init[j] == rule);
                let i = choose|i: int| 0 <= i < rest.len() && rest[i] == rule;
                assert(all[i] == rule);
            }
        }
    }
}

/// A run that the user asked the agent for.
#[derive(Debug)]
pub struct CodingAgentRequest {
    pub provider: CodingAgentProvider,
    pub prompt: String,
    pub model: Option<String>,
    pub executable: Option<String>,
    pub cwd: Option<String>,
    /// The word for how freely the agent may act.
    pub permission_mode: String,
    pub approved_patterns: Vec<ApprovedPattern>,
    pub allowed_tools: Vec<String>,
}

/// How the agent of a run is told what it may not do.
#[derive(Debug)]
pub enum RunGuard {
    /// A settings file, which is removed after the run.
    Settings { default_mode: String, deny: Vec<String> },
    /// A configuration that lifts these patterns.
    Config { approved_patterns: Vec<String> },
    Unguarded,
}

/// What the host does for a run.
#[derive(Debug)]
pub struct RunPlan {
    pub provider: CodingAgentProvider,
    pub prompt: String,
    pub model: Option<String>,
    /// The directory to secure before anything is changed in it.
    pub snapshot: Option<String>,
    pub executable: String,
    pub guard: RunGuard,
    pub allowed_tools: Vec<String>,
}

/// The guard of a run.
pub open spec fn guards(g: RunGuard, request: CodingAgentRequest, deny: Seq<Seq<char>>) -> bool {
    match request.provider {
        CodingAgentProvider::ClaudeCodeCli => {
            &&& g matches RunGuard::Settings { default_mode, deny: left }
            &&& default_mode == request.permission_mode
            &&& texts(left@) == remaining_rules(deny, lifted_rules(request.approved_patterns@))
        },
        CodingAgentProvider::OpenCodeCli => {
            &&& g matches RunGuard::Config { approved_patterns }
            &&& texts(approved_patterns@) == approved_patterns_of(request)
        },
        _ => g is Unguarded,
    }
}

/// The patterns that a run's user approved, with those that mean the same.
pub open spec fn approved_patterns_of(request: CodingAgentRequest) -> Seq<Seq<char>> {
    approved_patterns(request.approved_patterns@)
}

/// The bytes of a pretty-printed JSON object with one member, `section`. That
/// is an object with the text `mode` under `mode_key` and the list of texts
/// `deny` under `deny_key`. `Err` holds why it cannot be written.
pub uninterp spec fn pretty_json(
    section: Seq<char>,
    mode_key: Seq<char>,
    mode: Seq<char>,
    deny_key: Seq<char>,
    deny: Seq<Seq<char>>,
) -> Result<Seq<u8>, Seq<char>>;

/// `serde_json::to_vec_pretty` of the object that the arguments describe. The
/// outcome depends on them alone; the layout of the bytes is not spelled out.
#[verifier::external_body]
fn write_pretty_json(
    section: &str,
    mode_key: &str,
    mode: &str,
    deny_key: &str,
    deny: &Vec<String>,
) -> (r: Result<Vec<u8>, String>)
    ensures
        match r {
            Ok(bytes) => pretty_json(section@, mode_key@, mode@, deny_key@, texts(deny@)) == Ok::<
                Seq<u8>,
                Seq<char>,
            >(bytes@),
            Err(e) => pretty_json(section@, mode_key@, mode@, deny_key@, texts(deny@)) == Err::<
                Seq<u8>,
                Seq<char>,
            >(e@),
        },
{
    let mut inner = serde_json::Map::new();
    inner.insert(mode_key.to_owned(), serde_json::Value::from(mode));
    inner.insert(deny_key.to_owned(), serde_json::Value::from(deny.clone()));
    let mut outer = serde_json::Map::new();
    outer.insert(section.to_owned(), serde_json::Value::Object(inner));
    serde_json::to_vec_pretty(&serde_json::Value::Object(outer)).map_err(|e| e.to_string())
}

/// What the settings file of a run says.
pub open spec fn settings_json(default_mode: Seq<char>, deny: Seq<Seq<char>>) -> Result<
    Seq<u8>,
    Seq<char>,
> {
    pretty_json("permissions"@, "defaultMode"@, default_mode, "deny"@, deny)
}

/// The settings file of a run: how freely the agent may act, and what it may
/// not do.
pub fn guard_file(default_mode: &str, deny: &Vec<String>) -> (r: Result<Vec<u8>, BackendError>)
    ensures
        match settings_json(default_mode@, texts(deny@)) {
            Ok(bytes) => r matches Ok(b) && b@ == bytes,
            Err(m) => r matches Err(e) && e.is(BackendErrorCode::Internal, m),
        },
{
    guard_file_written(
        write_pretty_json("permissions", "defaultMode", default_mode, "deny", deny),
    )
}

/// A settings file that could be written out, or not.
pub fn guard_file_written(written: Result<Vec<u8>, String>) -> (r: Result<Vec<u8>, BackendError>)
    ensures
        match written {
            Ok(bytes) => r == Ok::<Vec<u8>, BackendError>(bytes),
            Err(m) => r == Err::<Vec<u8>, BackendError>(
                BackendError { code: BackendErrorCode::Internal, message: m, retryable: false },
            ),
        },
{
    match written {
        Ok(bytes) => Ok(bytes),
        Err(message) => Err(
            BackendError { code: BackendErrorCode::Internal, message, retryable: false },
        ),
    }
}

fn copy_text(o: &Option<String>) -> (r: Option<String>)
    ensures
        opt_text(r) == opt_text(*o),
{
    match o {
        Some(s) => Some(s.clone()),
        None => None,
    }
}

/// What an agent's run failed of.
#[derive(Debug)]
pub enum CodingAgentError {
    Cancelled,
    ExecutableNotFound(String),
    Spawn(String),
    ProcessExit(String),
    Protocol(String),
    Timeout(String),
    Io(String),
}

/// The class of a run's failure.
pub open spec fn agent_error_code(e: CodingAgentError) -> BackendErrorCode {
    match e {
        CodingAgentError::Cancelled => BackendErrorCode::Cancelled,
        CodingAgentError::ExecutableNotFound(_) => BackendErrorCode::InvalidArgument,
        _ => BackendErrorCode::Provider,
    }
}

/// `message` is how the agent itself puts the failure.
pub fn map_coding_agent_error(error: &CodingAgentError, message: String) -> (r: BackendError)
    ensures
        r.code == agent_error_code(*error),
        r.message == message,
        r.retryable == (*error is ProcessExit || *error is Timeout || *error is Io),
{
    let code: BackendErrorCode = match error {
        CodingAgentError::Cancelled => BackendErrorCode::Cancelled,
        CodingAgentError::ExecutableNotFound(_) => BackendErrorCode::InvalidArgument,
        _ => BackendErrorCode::Provider,
    };
    let retryable: bool = match error {
        CodingAgentError::ProcessExit(_)
        | CodingAgentError::Timeout(_)
        | CodingAgentError::Io(_) => true,
        _ => false,
    };
    BackendError { code, message, retryable }
}

/// How a run came to its end.
#[derive(Debug)]
pub enum AgentRunEnd {
    Finished,
    /// The run failed, in the agent's words.
    Failed(CodingAgentError, String),
    /// The task that ran it was lost.
    Lost(String),
}

/// Which kind of run it was.
#[derive(Clone, Copy, PartialEq, Eq, Structural, Debug)]
pub enum AgentRunKind {
    ConsoleTest,
    LessComputer,
}

/// `r` is how the end of a run is reported.
pub open spec fn reports_end(kind: AgentRunKind, end: AgentRunEnd, r: Result<(), BackendError>) -> bool {
    match end {
        AgentRunEnd::Finished => r is Ok,
        AgentRunEnd::Failed(e, m) => r matches Err(b) && b.code == agent_error_code(e) && b.message
            == m && b.retryable == (e is ProcessExit || e is Timeout || e is Io),
        AgentRunEnd::Lost(m) => r matches Err(b) && b.is(
            BackendErrorCode::Internal,
            (if kind == AgentRunKind::ConsoleTest {
                "coding agent task failed: "@
            } else {
                "Less Computer runtime task failed: "@
            }) + m@,
        ),
    }
}

/// How the end of a run is reported.
pub fn agent_run_result(kind: AgentRunKind, end: AgentRunEnd) -> (r: Result<(), BackendError>)
    ensures
        reports_end(kind, end, r),
{
    match end {
        AgentRunEnd::Finished => Ok(()),
        AgentRunEnd::Failed(e, m) => Err(map_coding_agent_error(&e, m)),
        AgentRunEnd::Lost(m) => Err(
            BackendError::detailed(
                BackendErrorCode::Internal,
                match kind {
                    AgentRunKind::ConsoleTest => "coding agent task failed: ",
                    AgentRunKind::LessComputer => "Less Computer runtime task failed: ",
                },
                m.as_str(),
            ),
        ),
    }
}

/// The guard settings could not be written.
pub fn guard_write_error(kind: AgentRunKind, error: &str) -> (r: BackendError)
    ensures
        r.is(
            BackendErrorCode::Platform,
            (if kind == AgentRunKind::ConsoleTest {
                "failed to write coding agent guard settings: "@
            } else {
                "failed to write Less Computer guard settings: "@
            }) + error@,
        ),
{
    BackendError::detailed(
        BackendErrorCode::Platform,
        match kind {
            AgentRunKind::ConsoleTest => "failed to write coding agent guard settings: ",
            AgentRunKind::LessComputer => "failed to write Less Computer guard settings: ",
        },
        error,
    )
}

/// A test run of the console.
#[derive(Clone, Copy, PartialEq, Eq, Structural, Debug)]
pub struct ActiveTest {
    pub number: u64,
    pub cancelled: bool,
}

/// A test that the console is asked for.
#[derive(Debug)]
pub struct CodingAgentTestRequest {
    pub provider: CodingAgentProvider,
    pub executable: String,
    pub prompt: String,
    pub workdir: Option<String>,
    pub model: Option<String>,
    pub permission_mode: String,
    /// The most that the run may cost, as the host's number for it.
    pub max_budget: Option<u64>,
    pub timeout_secs: Option<u64>,
}

/// How the agent of a test is told what it may not do.
#[derive(Debug)]
pub enum TestGuard {
    /// A settings file, which is removed after the test.
    Settings { default_mode: String, approved_patterns: Vec<String> },
    /// A configuration that lifts these patterns.
    Config { approved_patterns: Vec<String> },
    Unguarded,
}

/// The guard of a test: the mode is the one asked for, and nothing is approved.
pub open spec fn guards_test(g: TestGuard, request: CodingAgentTestRequest) -> bool {
    match request.provider {
        CodingAgentProvider::ClaudeCodeCli => {
            &&& g matches TestGuard::Settings { default_mode, approved_patterns }
            &&& default_mode@ == request.permission_mode@
            &&& approved_patterns@.len() == 0
        },
        CodingAgentProvider::OpenCodeCli => {
            &&& g matches TestGuard::Config { approved_patterns }
            &&& approved_patterns@.len() == 0
        },
        _ => g is Unguarded,
    }
}

/// What the host does for a test.
#[derive(Debug)]
pub struct TestPlan {
    pub number: u64,
    pub request_id: String,
    /// The directory to secure before anything is changed in it.
    pub snapshot: Option<String>,
    pub guard: TestGuard,
    pub request: CodingAgentTestRequest,
    /// The agent forgets the run.
    pub session_persistence: bool,
    pub allowed_tools: Vec<String>,
}

/// How a test or a run came to its end.
#[derive(Debug)]
pub enum TestEnd {
    /// Its guard could not be written.
    GuardFailed(String),
    Ran(AgentRunEnd),
}

/// What the console says of a test.
#[derive(Debug)]
pub struct CodingAgentTestStatus {
    pub running: bool,
    pub request_id: Option<String>,
    pub message: Option<String>,
}

/// The console of coding agents. One test runs at a time.
#[derive(Debug)]
pub struct TauriCodingAgentApi {
    pub active_test: Option<ActiveTest>,
    pub request_counter: u64,
}

/// The name of the test with this number.
pub open spec fn request_id_text(number: u64) -> Seq<char> {
    "console-"@ + decimal(number as nat)
}

/// `plan` is how the test `request` is run under `number`.
pub open spec fn plans_test(plan: TestPlan, number: u64, request: CodingAgentTestRequest) -> bool {
    &&& plan.number == number
    &&& plan.request_id@ == request_id_text(number)
    &&& opt_text(plan.snapshot) == opt_text(request.workdir)
    &&& guards_test(plan.guard, request)
    &&& plan.request == request
    &&& !plan.session_persistence
    &&& texts(plan.allowed_tools@) == base_tools()
}

/// The test that is running after the one with `number` is over.
pub open spec fn without_test(active: Option<ActiveTest>, number: u64) -> Option<ActiveTest> {
    match active {
        Some(t) => if t.number == number {
            None
        } else {
            Some(t)
        },
        None => None,
    }
}

impl TauriCodingAgentApi {
    pub fn new() -> (r: Self)
        ensures
            r.active_test is None,
            r.request_counter == 0,
    {
        TauriCodingAgentApi { active_test: None, request_counter: 0 }
    }

    /// The next number and the name that goes with it.
    pub fn next_request_id(&mut self) -> (r: (u64, String))
        requires
            old(self).request_counter < u64::MAX,
        ensures
            r.0 == old(self).request_counter + 1,
            r.1@ == request_id_text(r.0),
            final(self).request_counter == r.0,
            final(self).active_test == old(self).active_test,
    {
        self.request_counter = self.request_counter + 1;
        let digits: String = decimal_text(self.request_counter);
        (self.request_counter, join2("console-", digits.as_str()))
    }

    /// Begins a test. `prepared` is the request, or what is wrong with it. A
    /// test that is running is left alone.
    pub fn run_test(&mut self, prepared: Result<CodingAgentTestRequest, BackendError>) -> (r: Result<
        TestPlan,
        BackendError,
    >)
        requires
            old(self).request_counter < u64::MAX,
        ensures
            final(self).request_counter == old(self).request_counter + 1,
            match prepared {
                Err(e) => r == Err::<TestPlan, BackendError>(e) && final(self).active_test == old(
                    self).active_test,
                Ok(request) => if old(self).active_test is Some {
                    &&& final(self).active_test == old(self).active_test
                    &&& r matches Err(e)
                    &&& e.is(BackendErrorCode::Busy, "a coding agent test is already running"@)
                } else {
                    &&& r matches Ok(plan)
                    &&& plans_test(plan, final(self).request_counter, request)
                    &&& final(self).active_test == Some(
                        ActiveTest { number: plan.number, cancelled: false },
                    )
                },
            },
    {
        let (number, request_id): (u64, String) = self.next_request_id();
        let request: CodingAgentTestRequest = prepared?;
        if self.active_test.is_some() {
            return Err(
                BackendError::new(BackendErrorCode::Busy, "a coding agent test is already running"),
            );
        }
        self.active_test = Some(ActiveTest { number, cancelled: false });
        let snapshot: Option<String> = copy_text(&request.workdir);
        let guard: TestGuard = match guard_kind(request.provider) {
            GuardKind::SettingsFile => TestGuard::Settings {
                default_mode: request.permission_mode.clone(),
                approved_patterns: Vec::new(),
            },
            GuardKind::Config => TestGuard::Config { approved_patterns: Vec::new() },
            GuardKind::Unguarded => TestGuard::Unguarded,
        };
        Ok(
            TestPlan {
                number,
                request_id,
                snapshot,
                guard,
                request,
                session_persistence: false,
                allowed_tools: base_allowed_tools(),
            },
        )
    }

    /// The test with this number is over, however it ended.
    pub fn clear_active_test(&mut self, number: u64)
        ensures
            final(self).request_counter == old(self).request_counter,
            final(self).active_test == without_test(old(self).active_test, number),
    {
        let same: bool = match &self.active_test {
            Some(t) => t.number == number,
            None => false,
        };
        if same {
            self.active_test = None;
        }
    }

    /// The test is over: the console is free again, and the first part of the
    /// result says whether a settings file is left to remove.
    pub fn test_ended(
        &mut self,
        number: u64,
        request_id: String,
        guard: &TestGuard,
        end: TestEnd,
    ) -> (r: (bool, Result<CodingAgentTestStatus, BackendError>))
        ensures
            final(self).request_counter == old(self).request_counter,
            final(self).active_test == without_test(old(self).active_test, number),
            r.0 == (end is Ran && *guard is Settings),
            match end {
                TestEnd::GuardFailed(m) => r.1 matches Err(e) && e.is(
                    BackendErrorCode::Platform,
                    "failed to write coding agent guard settings: "@ + m@,
                ),
                TestEnd::Ran(AgentRunEnd::Finished) => r.1 == Ok::<
                    CodingAgentTestStatus,
                    BackendError,
                >(
                    CodingAgentTestStatus {
                        running: false,
                        request_id: Some(request_id),
                        message: None,
                    },
                ),
                TestEnd::Ran(end) => r.1 matches Err(e) && reports_end(
                    AgentRunKind::ConsoleTest,
                    end,
                    Err(e),
                ),
            },
    {
        self.clear_active_test(number);
        match end {
            TestEnd::GuardFailed(m) => (
                false,
                Err(guard_write_error(AgentRunKind::ConsoleTest, m.as_str())),
            ),
            TestEnd::Ran(end) => {
                let file: bool = match guard {
                    TestGuard::Settings { .. } => true,
                    _ => false,
                };
                match agent_run_result(AgentRunKind::ConsoleTest, end) {
                    Ok(()) => (
                        file,
                        Ok(
                            CodingAgentTestStatus {
                                running: false,
                                request_id: Some(request_id),
                                message: None,
                            },
                        ),
                    ),
                    Err(e) => (file, Err(e)),
                }
            },
        }
    }

    /// Asks the running test to stop. Without one there is nothing to do.
    pub fn cancel_test(&mut self)
        ensures
            final(self).request_counter == old(self).request_counter,
            final(self).active_test == (match old(self).active_test {
                Some(t) => Some(ActiveTest { cancelled: true, ..t }),
                None => None,
            }),
    {
        if let Some(t) = self.active_test {
            self.active_test = Some(ActiveTest { number: t.number, cancelled: true });
        }
    }

    /// How a run for the user is done. `own_program` is the agent's own
    /// program, and `default_deny` what it may not do unless it is approved.
    pub fn run(request: CodingAgentRequest, default_deny: &Vec<String>, own_program: &str) -> (r:
        RunPlan)
        ensures
            r.provider == request.provider,
            r.prompt == request.prompt,
            r.model == request.model,
            opt_text(r.snapshot) == opt_text(request.cwd),
            r.executable@ == (match request.executable {
                Some(e) => e@,
                None => own_program@,
            }),
            guards(r.guard, request, texts(default_deny@)),
            texts(r.allowed_tools@) == (if request.provider == CodingAgentProvider::ClaudeCodeCli {
                base_tools() + lifted_rules(request.approved_patterns@)
            } else {
                texts(request.allowed_tools@)
            }),
    {
        let approvals: Approvals = collect_approvals(&request.approved_patterns);
        let snapshot: Option<String> = request.cwd;
        let executable: String = agent_executable(request.executable, own_program);
        match guard_kind(request.provider) {
            GuardKind::SettingsFile => {
                let settings: GuardSettings = guard_settings(default_deny, approvals);
                RunPlan {
                    provider: request.provider,
                    prompt: request.prompt,
                    model: request.model,
                    snapshot,
                    executable,
                    guard: RunGuard::Settings {
                        default_mode: request.permission_mode,
                        deny: settings.deny,
                    },
                    allowed_tools: settings.allowed_tools,
                }
            },
            GuardKind::Config => RunPlan {
                provider: request.provider,
                prompt: request.prompt,
                model: request.model,
                snapshot,
                executable,
                guard: RunGuard::Config { approved_patterns: approvals.patterns },
                allowed_tools: request.allowed_tools,
            },
            GuardKind::Unguarded => RunPlan {
                provider: request.provider,
                prompt: request.prompt,
                model: request.model,
                snapshot,
                executable,
                guard: RunGuard::Unguarded,
                allowed_tools: request.allowed_tools,
            },
        }
    }

    /// A run for the user is over. The first part of the result says whether a
    /// settings file is left to remove: one that was written always is, however
    /// the run went.
    pub fn run_ended(guard: &RunGuard, end: TestEnd) -> (r: (bool, Result<(), BackendError>))
        ensures
            r.0 == (end is Ran && *guard is Settings),
            match end {
                TestEnd::GuardFailed(m) => r.1 matches Err(e) && e.is(
                    BackendErrorCode::Platform,
                    "failed to write Less Computer guard settings: "@ + m@,
                ),
                TestEnd::Ran(end) => reports_end(AgentRunKind::LessComputer, end, r.1),
            },
    {
        match end {
            TestEnd::GuardFailed(m) => (
                false,
                Err(guard_write_error(AgentRunKind::LessComputer, m.as_str())),
            ),
            TestEnd::Ran(end) => {
                let file: bool = match guard {
                    RunGuard::Settings { .. } => true,
                    _ => false,
                };
                (file, agent_run_result(AgentRunKind::LessComputer, end))
            },
        }
    }
}

/// The end of a test frees the console, cancelled or not, and leaves another
/// test alone.
pub proof fn law_finished_test_frees_the_console(number: u64)
    ensures
        without_test(Some(ActiveTest { number, cancelled: true }), number) is None,
        without_test(Some(ActiveTest { number, cancelled: false }), number) is None,
        forall|other: ActiveTest|
            other.number != number ==> #[trigger] without_test(Some(other), number) == Some(other),
{
}

/// The program that was configured is started, and the agent's own where none was.
pub proof fn law_configured_agent_is_started(configured: Option<String>, own: &str, r: String)
    requires
        call_ensures(agent_executable, (configured, own), r),
    ensures
        configured matches Some(e) ==> r@ == e@,
        configured is None ==> r@ == own@,
{
}

/// One of the two agents is guarded by a settings file and the other by a
/// configuration; only the first lists its servers, and only where it is installed,
/// and only the second lists its models.
pub proof fn law_what_agents_can_do(
    provider: CodingAgentProvider,
    installed: bool,
    listed: Vec<String>,
    models: Result<Vec<String>, String>,
    guard: GuardKind,
    lists: bool,
    servers: Vec<String>,
    may: Result<(), BackendError>,
    r: Result<Vec<String>, BackendError>,
)
    requires
        call_ensures(guard_kind, (provider,), guard),
        call_ensures(lists_servers, (provider, installed), lists),
        call_ensures(known_servers, (provider, installed, listed), servers),
        call_ensures(check_lists_models, (provider,), may),
        call_ensures(list_models, (provider, models), r),
    ensures
        guard == GuardKind::SettingsFile <==> provider == CodingAgentProvider::ClaudeCodeCli,
        guard == GuardKind::Config <==> provider == CodingAgentProvider::OpenCodeCli,
        lists <==> provider == CodingAgentProvider::ClaudeCodeCli && installed,
        lists ==> servers@ == listed@,
        !lists ==> servers@.len() == 0,
        may is Ok <==> provider == CodingAgentProvider::OpenCodeCli,
        r is Ok <==> may is Ok && models is Ok,
        r is Ok ==> r->Ok_0 == models->Ok_0,
        may is Err ==> r->Err_0.code == BackendErrorCode::Unsupported,
        may is Ok && models is Err ==> r->Err_0.message == models->Err_0 && r->Err_0.retryable
            && r->Err_0.code == BackendErrorCode::Provider,
{
}

/// What is said of an agent is what was found of its program, with the servers that
/// count.
pub proof fn law_agent_is_shown_as_found(
    provider: CodingAgentProvider,
    program: Result<String, BackendError>,
    probe: CliProbe,
    listed: Vec<String>,
    screen: bool,
    servers: Vec<String>,
    r: Result<CodingAgentAvailability, BackendError>,
)
    requires
        call_ensures(known_servers, (provider, probe.installed, listed), servers),
        call_ensures(detect, (provider, program, probe, listed, screen), r),
    ensures
        r is Ok <==> program is Ok,
        r is Err ==> r->Err_0 == program->Err_0,
        r matches Ok(a) ==> a.provider == provider && a.installed == probe.installed && a.version
            == probe.version && a.executable == program->Ok_0 && a.mcp_servers@ == servers@
            && a.has_computer_use == screen,
{
}

/// The tools that every agent may use: seven, each once.
pub proof fn law_tools_that_are_always_allowed(r: Vec<String>)
    requires
        call_ensures(base_allowed_tools, (), r),
    ensures
        r@.len() == 7,
        r@[0]@ == "Bash"@ && r@[1]@ == "Read"@ && r@[2]@ == "Edit"@ && r@[3]@ == "Write"@,
        r@[4]@ == "Glob"@ && r@[5]@ == "Grep"@ && r@[6]@ == "WebSearch"@,
{
    let t = texts(r@);
    assert(t.len() == r@.len());
    assert(t[0] == r@[0]@ && t[1] == r@[1]@ && t[2] == r@[2]@ && t[3] == r@[3]@);
    assert(t[4] == r@[4]@ && t[5] == r@[5]@ && t[6] == r@[6]@);
}

proof fn lemma_rules_of_concat(a: Seq<RiskPattern>, b: Seq<RiskPattern>)
    ensures
        rules_of(a + b) == rules_of(a) + rules_of(b),
        patterns_of(a + b) == patterns_of(a) + patterns_of(b),
    decreases b.len(),
{
    if b.len() == 0 {
        assert(a + b =~= a);
        assert(rules_of(a) + rules_of(b) =~= rules_of(a));
        assert(patterns_of(a) + patterns_of(b) =~= patterns_of(a));
    } else {
        assert((a + b).drop_last() =~= a + b.drop_last());
        assert((a + b).last() == b.last());
        lemma_rules_of_concat(a, b.drop_last());
        assert(rules_of(a + b) =~= rules_of(a) + rules_of(b));
        assert(patterns_of(a + b) =~= patterns_of(a) + patterns_of(b));
    }
}

proof fn lemma_lifted_concat(a: Seq<ApprovedPattern>, b: Seq<ApprovedPattern>)
    ensures
        lifted_rules(a + b) == lifted_rules(a) + lifted_rules(b),
        approved_patterns(a + b) == approved_patterns(a) + approved_patterns(b),
    decreases b.len(),
{
    if b.len() == 0 {
        assert(a + b =~= a);
        assert(lifted_rules(a) + lifted_rules(b) =~= lifted_rules(a));
        assert(approved_patterns(a) + approved_patterns(b) =~= approved_patterns(a));
    } else {
        assert((a + b).drop_last() =~= a + b.drop_last());
        assert((a + b).last() == b.last());
        lemma_lifted_concat(a, b.drop_last());
        assert(lifted_rules(a + b) =~= lifted_rules(a) + lifted_rules(b));
        assert(approved_patterns(a + b) =~= approved_patterns(a) + approved_patterns(b));
    }
}

/// Approvals add up: those of two lists, one after the other, are those of the whole.
pub proof fn law_approvals_add_up(
    front: &Vec<ApprovedPattern>,
    back: &Vec<ApprovedPattern>,
    whole: &Vec<ApprovedPattern>,
    of_front: Approvals,
    of_back: Approvals,
    of_whole: Approvals,
)
    requires
        whole@ == front@ + back@,
        call_ensures(collect_approvals, (front,), of_front),
        call_ensures(collect_approvals, (back,), of_back),
        call_ensures(collect_approvals, (whole,), of_whole),
    ensures
        texts(of_whole.rules@) == texts(of_front.rules@) + texts(of_back.rules@),
        texts(of_whole.patterns@) == texts(of_front.patterns@) + texts(of_back.patterns@),
        front@.len() == 0 ==> of_front.rules@.len() == 0 && of_front.patterns@.len() == 0,
{
    lemma_lifted_concat(front@, back@);
    assert(texts(of_front.rules@).len() == of_front.rules@.len());
    assert(texts(of_front.patterns@).len() == of_front.patterns@.len());
}

/// One approval of a pattern without others that mean the same lifts the rule that
/// forbids it, and nothing where no rule does.
pub proof fn law_one_approval_lifts_its_rule(approved: &Vec<ApprovedPattern>, r: Approvals)
    requires
        approved@.len() == 1,
        approved@[0].equivalents@.len() == 0,
        call_ensures(collect_approvals, (approved,), r),
    ensures
        ({
            let own = approved@[0].own;
            &&& own.deny_rule is None ==> r.rules@.len() == 0 && r.patterns@.len() == 0
            &&& own.deny_rule is Some ==> r.rules@.len() == 1 && r.rules@[0]@ == own.deny_rule->0@
                && r.patterns@.len() == 1 && r.patterns@[0]@ == own.pattern@
        }),
{
    let a = approved@[0];
    let one = seq![a.own];
    assert(approved@.last() == a);
    assert(approved@.drop_last() =~= Seq::<ApprovedPattern>::empty());
    assert(one.drop_last() =~= Seq::<RiskPattern>::empty());
    assert(one.last() == a.own);
    assert(rules_of(one.drop_last()) =~= Seq::<Seq<char>>::empty());
    assert(patterns_of(one.drop_last()) =~= Seq::<Seq<char>>::empty());
    assert(lifted_rules(approved@.drop_last()) =~= Seq::<Seq<char>>::empty());
    assert(approved_patterns(approved@.drop_last()) =~= Seq::<Seq<char>>::empty());
    assert(lifted_rules(approved@) =~= rules_of(one));
    assert(approved_patterns(approved@) =~= patterns_of(one));
    assert(texts(r.rules@).len() == r.rules@.len());
    assert(texts(r.patterns@).len() == r.patterns@.len());
    if a.own.deny_rule is Some {
        assert(texts(r.rules@)[0] == r.rules@[0]@);
        assert(texts(r.patterns@)[0] == r.patterns@[0]@);
    }
}

/// An approval covers every pattern that means the same: each rule that forbids one
/// of them is lifted, and no other rule.
pub proof fn law_approval_covers_its_equivalents(
    approved: &Vec<ApprovedPattern>,
    r: Approvals,
    rule: Seq<char>,
)
    requires
        approved@.len() == 1,
        approved@[0].equivalents@.len() > 0,
        call_ensures(collect_approvals, (approved,), r),
    ensures
        texts(r.rules@).contains(rule) <==> exists|k: int|
            0 <= k < approved@[0].equivalents@.len() && opt_text(
                (#[trigger] approved@[0].equivalents@[k]).deny_rule,
            ) == Some(rule),
{
    let a = approved@[0];
    assert(approved@.last() == a);
    assert(approved@.drop_last() =~= Seq::<ApprovedPattern>::empty());
    assert(lifted_rules(approved@.drop_last()) =~= Seq::<Seq<char>>::empty());
    assert(lifted_rules(approved@) =~= rules_of(a.equivalents@));
    lemma_rules_of_contains(a.equivalents@, rule);
}

proof fn lemma_rules_of_contains(list: Seq<RiskPattern>, rule: Seq<char>)
    ensures
        rules_of(list).contains(rule) <==> exists|k: int|
            0 <= k < list.len() && opt_text((#[trigger] list[k]).deny_rule) == Some(rule),
    decreases list.len(),
{
    if list.len() > 0 {
        let init = list.drop_last();
        let rest = rules_of(init);
        let all = rules_of(list);
        lemma_rules_of_contains(init, rule);
        if all.contains(rule) {
            let j = choose|j: int| 0 <= j < all.len() && all[j] == rule;
            if j < rest.len() {
                assert(rest[j] == rule);
                let k = choose|k: int|
                    0 <= k < init.len() && opt_text((#[trigger] init[k]).deny_rule) == Some(rule);
                assert(list[k] == init[k]);
            } else {
                assert(opt_text(list[list.len() - 1].deny_rule) == Some(rule));
            }
        }
        if exists|k: int|
            0 <= k < list.len() && opt_text((#[trigger] list[k]).deny_rule) == Some(rule) {
            let k = choose|k: int|
                0 <= k < list.len() && opt_text((#[trigger] list[k]).deny_rule) == Some(rule);
            if k < init.len() {
                assert(init[k] == list[k]);
                let j = choose|j: int| 0 <= j < rest.len() && rest[j] == rule;
                assert(all[j] == rule);
            } else {
                assert(all[all.len() - 1] == rule);
            }
        }
    }
}

/// A rule is in force exactly if it was and is not lifted. What is lifted is allowed
/// on top of the usual tools.
pub proof fn law_guard_keeps_the_other_rules(
    deny: &Vec<String>,
    approvals: Approvals,
    left: Vec<String>,
    r: GuardSettings,
    tools: Vec<String>,
    rule: Seq<char>,
)
    requires
        call_ensures(retain_deny_rules, (deny, &approvals.rules), left),
        call_ensures(guard_settings, (deny, approvals), r),
        call_ensures(base_allowed_tools, (), tools),
    ensures
        texts(left@).contains(rule) <==> texts(deny@).contains(rule) && !texts(
            approvals.rules@,
        ).contains(rule),
        texts(r.deny@) == texts(left@),
        texts(r.allowed_tools@) == texts(tools@) + texts(approvals.rules@),
        approvals.rules@.len() == 0 ==> r.deny@.len() == deny@.len(),
{
    law_approval_lifts_only_its_rules(texts(deny@), texts(approvals.rules@), rule);
    if approvals.rules@.len() == 0 {
        lemma_nothing_lifted(texts(deny@), texts(approvals.rules@));
        assert(texts(r.deny@).len() == r.deny@.len());
        assert(texts(deny@).len() == deny@.len());
    }
}

proof fn lemma_nothing_lifted(deny: Seq<Seq<char>>, lifted: Seq<Seq<char>>)
    requires
        lifted.len() == 0,
    ensures
        remaining_rules(deny, lifted) == deny,
    decreases deny.len(),
{
    if deny.len() > 0 {
        lemma_nothing_lifted(deny.drop_last(), lifted);
        assert(remaining_rules(deny, lifted) =~= deny);
    }
}

/// A run is done as it was asked for, by the agent and the model that were asked for,
/// in the directory that is secured before. What an agent may do in it depends on
/// the agent.
pub proof fn law_run_is_done_as_asked(
    request: CodingAgentRequest,
    deny: &Vec<String>,
    own: &str,
    approvals: Approvals,
    settings: GuardSettings,
    program: String,
    r: RunPlan,
)
    requires
        call_ensures(collect_approvals, (&request.approved_patterns,), approvals),
        call_ensures(guard_settings, (deny, approvals), settings),
        call_ensures(agent_executable, (request.executable, own), program),
        call_ensures(TauriCodingAgentApi::run, (request, deny, own), r),
    ensures
        r.provider == request.provider,
        r.prompt == request.prompt,
        r.model == request.model,
        opt_text(r.snapshot) == opt_text(request.cwd),
        r.executable@ == program@,
        r.guard is Settings <==> request.provider == CodingAgentProvider::ClaudeCodeCli,
        r.guard is Config <==> request.provider == CodingAgentProvider::OpenCodeCli,
        r.guard is Settings ==> r.guard->default_mode == request.permission_mode && texts(
            r.guard->deny@,
        ) == texts(settings.deny@) && texts(r.allowed_tools@) == texts(settings.allowed_tools@),
        r.guard is Config ==> texts(r.guard->approved_patterns@) == texts(approvals.patterns@),
        !(r.guard is Settings) ==> texts(r.allowed_tools@) == texts(request.allowed_tools@),
{
}

/// A test runs alone: while one runs the next is refused as busy, and that one goes
/// on. It is run as it was asked for, with nothing approved and nothing remembered.
/// Its end frees the console for the next, which gets another number.
pub proof fn law_one_test_at_a_time(
    first: &mut TauriCodingAgentApi,
    second: &mut TauriCodingAgentApi,
    ended: &mut TauriCodingAgentApi,
    third: &mut TauriCodingAgentApi,
    a: CodingAgentTestRequest,
    b: CodingAgentTestRequest,
    guard: &TestGuard,
    name: String,
    end: TestEnd,
    plan: Result<TestPlan, BackendError>,
    refused: Result<TestPlan, BackendError>,
    over: (bool, Result<CodingAgentTestStatus, BackendError>),
    next: Result<TestPlan, BackendError>,
)
    requires
        first.active_test is None,
        first.request_counter < 1000,
        call_ensures(TauriCodingAgentApi::run_test, (first, Ok(a)), plan),
        *second == *final(first),
        call_ensures(TauriCodingAgentApi::run_test, (second, Ok(b)), refused),
        *ended == *final(second),
        plan is Ok ==> call_ensures(
            TauriCodingAgentApi::test_ended,
            (ended, plan->Ok_0.number, name, guard, end),
            over,
        ),
        *third == *final(ended),
        call_ensures(TauriCodingAgentApi::run_test, (third, Ok(b)), next),
    ensures
        plan is Ok,
        plan->Ok_0.request == a,
        opt_text(plan->Ok_0.snapshot) == opt_text(a.workdir),
        !plan->Ok_0.session_persistence,
        plan->Ok_0.guard is Settings <==> a.provider == CodingAgentProvider::ClaudeCodeCli,
        plan->Ok_0.guard is Config <==> a.provider == CodingAgentProvider::OpenCodeCli,
        plan->Ok_0.guard is Settings ==> plan->Ok_0.guard->default_mode@ == a.permission_mode@
            && plan->Ok_0.guard->Settings_approved_patterns@.len() == 0,
        plan->Ok_0.allowed_tools@.len() == 7,
        refused is Err && refused->Err_0.code == BackendErrorCode::Busy,
        final(second).active_test == final(first).active_test,
        final(first).active_test is Some && !final(first).active_test->0.cancelled,
        next is Ok && next->Ok_0.number > plan->Ok_0.number,
        over.0 ==> end is Ran && *guard is Settings,
{
    assert(texts(plan->Ok_0.allowed_tools@).len() == plan->Ok_0.allowed_tools@.len());
}

/// A test that is refused before it begins, or cancelled, leaves the console as it
/// should be: unused, or with the wish noted.
pub proof fn law_refused_test_leaves_the_console_free(
    refused: &mut TauriCodingAgentApi,
    cancelled: &mut TauriCodingAgentApi,
    cleared: &mut TauriCodingAgentApi,
    e: BackendError,
    number: u64,
    r: Result<TestPlan, BackendError>,
)
    requires
        refused.request_counter < 1000,
        call_ensures(TauriCodingAgentApi::run_test, (refused, Err(e)), r),
        call_ensures(TauriCodingAgentApi::cancel_test, (cancelled,), ()),
        call_ensures(TauriCodingAgentApi::clear_active_test, (cleared, number), ()),
    ensures
        r == Err::<TestPlan, BackendError>(e),
        final(refused).active_test == old(refused).active_test,
        final(cancelled).active_test is Some <==> old(cancelled).active_test is Some,
        final(cancelled).active_test is Some ==> final(cancelled).active_test->0.cancelled && final(cancelled).active_test->0.number == old(cancelled).active_test->0.number,
        old(cleared).active_test is Some && old(cleared).active_test->0.number != number
            ==> final(cleared).active_test == old(cleared).active_test,
        old(cleared).active_test is Some && old(cleared).active_test->0.number == number
            ==> final(cleared).active_test is None,
{
}

/// Two tests never have the same name.
pub proof fn law_tests_have_their_own_names(
    first: &mut TauriCodingAgentApi,
    second: &mut TauriCodingAgentApi,
    a: (u64, String),
    b: (u64, String),
)
    requires
        first.request_counter < second.request_counter,
        second.request_counter < 0xffff_ffff_ffff_ffff,
        call_ensures(TauriCodingAgentApi::next_request_id, (first,), a),
        call_ensures(TauriCodingAgentApi::next_request_id, (second,), b),
    ensures
        a.0 == old(first).request_counter + 1,
        final(first).request_counter == a.0,
        a.1@ != b.1@,
        a.1@.take(8) == "console-"@,
{
    reveal_strlit("console-");
    crate::text::lemma_decimal(a.0 as nat);
    crate::text::lemma_decimal(b.0 as nat);
    assert(a.1@.take(8) =~= "console-"@);
    assert(a.1@.skip(8) =~= decimal(a.0 as nat));
    assert(b.1@.skip(8) =~= decimal(b.0 as nat));
}

/// A settings file says the mode and the rules, and one that could not be written is
/// an error of the program in the words it came with.
pub proof fn law_guard_file_is_what_was_written(
    written: Result<Vec<u8>, String>,
    r: Result<Vec<u8>, BackendError>,
)
    requires
        call_ensures(guard_file_written, (written,), r),
    ensures
        r is Ok <==> written is Ok,
        r is Ok ==> r->Ok_0 == written->Ok_0,
        r is Err ==> r->Err_0.message == written->Err_0 && r->Err_0.code
            == BackendErrorCode::Internal && !r->Err_0.retryable,
{
}

/// A run that finished is a success and no other is. A cancelled one is told as
/// cancelled, a missing program as a wrong argument, and what may go better next
/// time is worth another try.
pub proof fn law_end_of_a_run_is_told(
    kind: AgentRunKind,
    e: CodingAgentError,
    message: String,
    end: AgentRunEnd,
    mapped: BackendError,
    r: Result<(), BackendError>,
)
    requires
        call_ensures(map_coding_agent_error, (&e, message), mapped),
        call_ensures(agent_run_result, (kind, end), r),
    ensures
        mapped.code == BackendErrorCode::Cancelled <==> e is Cancelled,
        mapped.code == BackendErrorCode::InvalidArgument <==> e is ExecutableNotFound,
        mapped.code == BackendErrorCode::Provider <==> !(e is Cancelled) && !(
        e is ExecutableNotFound),
        mapped.retryable <==> e is ProcessExit || e is Timeout || e is Io,
        mapped.message == message,
        r is Ok <==> end is Finished,
        end == AgentRunEnd::Failed(e, message) ==> r->Err_0.code == mapped.code && r->Err_0.message
            == message && r->Err_0.retryable == mapped.retryable,
        end is Lost ==> r->Err_0.code == BackendErrorCode::Internal && crate::text::ends_with(
            r->Err_0.message@,
            end->Lost_0@,
        ),
{
    if let AgentRunEnd::Lost(m) = end {
        let all = r->Err_0.message@;
        assert(all.subrange(all.len() - m@.len(), all.len() as int) =~= m@);
    }
}

/// A guard that could not be written ends a run with the reason; a settings file that
/// was written is removed, however the run went.
pub proof fn law_written_guard_is_removed(
    guard: &RunGuard,
    end: TestEnd,
    kind: AgentRunKind,
    why: &str,
    unwritten: BackendError,
    r: (bool, Result<(), BackendError>),
)
    requires
        call_ensures(TauriCodingAgentApi::run_ended, (guard, end), r),
        call_ensures(guard_write_error, (kind, why), unwritten),
    ensures
        r.0 <==> *guard is Settings && end is Ran,
        r.1 is Ok <==> (end matches TestEnd::Ran(e) && e is Finished),
        end is GuardFailed ==> r.1->Err_0.code == BackendErrorCode::Platform
            && crate::text::ends_with(r.1->Err_0.message@, end->GuardFailed_0@),
        unwritten.code == BackendErrorCode::Platform && crate::text::ends_with(
            unwritten.message@,
            why@,
        ),
{
    let all = unwritten.message@;
    assert(all.subrange(all.len() - why@.len(), all.len() as int) =~= why@);
    if let TestEnd::GuardFailed(m) = end {
        let told = r.1->Err_0.message@;
        assert(told.subrange(told.len() - m@.len(), told.len() as int) =~= m@);
    }
}

/// The settings file of a run is written from its mode and what it may not do, and
/// from nothing else: the same gives the same file.
pub proof fn law_same_guard_same_file(
    mode: &str,
    again: &str,
    deny: &Vec<String>,
    denied: &Vec<String>,
    r: Result<Vec<u8>, BackendError>,
    q: Result<Vec<u8>, BackendError>,
)
    requires
        mode@ == again@,
        texts(deny@) == texts(denied@),
        call_ensures(guard_file, (mode, deny), r),
        call_ensures(guard_file, (again, denied), q),
    ensures
        r is Ok <==> q is Ok,
        r is Ok ==> r->Ok_0@ == q->Ok_0@,
        r is Err ==> r->Err_0.code == BackendErrorCode::Internal && r->Err_0.message@
            == q->Err_0.message@,
{
}

/// A test that is over is not running any more, and is told under its own name; a new
/// console has no test.
pub proof fn law_finished_test_is_not_running(
    api: &mut TauriCodingAgentApi,
    fresh: TauriCodingAgentApi,
    number: u64,
    name: String,
    guard: &TestGuard,
    end: TestEnd,
    r: (bool, Result<CodingAgentTestStatus, BackendError>),
)
    requires
        call_ensures(TauriCodingAgentApi::new, (), fresh),
        call_ensures(TauriCodingAgentApi::test_ended, (api, number, name, guard, end), r),
    ensures
        fresh.active_test is None && fresh.request_counter == 0,
        r.1 is Ok <==> end == TestEnd::Ran(AgentRunEnd::Finished),
        r.1 is Ok ==> !r.1->Ok_0.running && r.1->Ok_0.request_id == Some(name)
            && r.1->Ok_0.message is None,
        r.0 <==> end is Ran && *guard is Settings,
{
}

} // verus!
