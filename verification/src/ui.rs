//! What the Linux window shows.

use crate::fcitx::LinuxPackageKind;
use crate::local_asr::LocalAsrModel;
use crate::paths::{below, path_below};
use crate::text::{blank, decimal, decimal_text, is_blank, join2, join3};
use crate::types::opt_text;
use vstd::prelude::*;

verus! {

/// What happened in the backend, as far as the window shows it.
#[derive(Debug)]
pub enum UiEvent {
    /// The dictation is in another phase, given by its name.
    DictationStateChanged { phase_name: String },
    TranscriptDelta { text: String },
    PolishDelta { text: String, is_final: bool },
    /// The outcome of the insertion is given by its name.
    DictationCompleted { polished_text: String, inserted: String },
    AgentDelta { text: String },
    AgentCompleted { text: String },
    AgentApproval { token: String, command: String },
    AgentError { message: String },
    AgentCancelled,
    DownloadProgress {
        model_id: String,
        phase: DownloadPhase,
        bytes_downloaded: u64,
        bytes_total: u64,
    },
    PreferencesChanged,
    Other,
}

#[derive(Clone, Copy, PartialEq, Eq, Structural, Debug)]
pub enum DownloadPhase {
    Started,
    Progress,
    Finished,
    Failed,
    Cancelled,
}

/// The name of a phase.
pub open spec fn phase_name(p: DownloadPhase) -> Seq<char> {
    match p {
        DownloadPhase::Started => "Started"@,
        DownloadPhase::Progress => "Progress"@,
        DownloadPhase::Finished => "Finished"@,
        DownloadPhase::Failed => "Failed"@,
        DownloadPhase::Cancelled => "Cancelled"@,
    }
}

fn phase_text(p: DownloadPhase) -> (r: &'static str)
    ensures
        r@ == phase_name(p),
{
    match p {
        DownloadPhase::Started => "Started",
        DownloadPhase::Progress => "Progress",
        DownloadPhase::Finished => "Finished",
        DownloadPhase::Failed => "Failed",
        DownloadPhase::Cancelled => "Cancelled",
    }
}

/// The download is over.
pub open spec fn download_over(p: DownloadPhase) -> bool {
    p == DownloadPhase::Finished || p == DownloadPhase::Failed || p == DownloadPhase::Cancelled
}

/// What has to be fetched again.
#[derive(Clone, Copy, PartialEq, Eq, Structural, Debug)]
pub enum Refresh {
    Nothing,
    Models,
    Preferences,
}

/// The list of models, as far as it is known.
#[derive(Debug)]
pub enum ModelsState {
    Loading,
    Loaded(Vec<LocalAsrModel>),
    Failed(String),
}

/// What came of something that the window asked for.
#[derive(Debug)]
pub enum UiResult {
    Message(String),
    Models(Result<Vec<LocalAsrModel>, String>),
}

/// The Linux window.
#[derive(Debug)]
pub struct OpenLessEguiApp {
    pub models: ModelsState,
    pub transcript: String,
    pub less_computer_output: String,
    /// A command that waits for the user's consent, with its token.
    pub pending_approval: Option<(String, String)>,
    pub status: String,
    pub startup_error: Option<String>,
}

/// The list of models, as far as it is known.
pub enum ShownModels {
    Loading,
    Loaded(Seq<LocalAsrModel>),
    Failed(Seq<char>),
}

/// What the window shows.
pub struct Shown {
    pub models: ShownModels,
    pub transcript: Seq<char>,
    pub less_computer_output: Seq<char>,
    pub pending_approval: Option<(Seq<char>, Seq<char>)>,
    pub status: Seq<char>,
    pub startup_error: Option<Seq<char>>,
}

impl View for OpenLessEguiApp {
    type V = Shown;

    open spec fn view(&self) -> Shown {
        Shown {
            models: match self.models {
                ModelsState::Loading => ShownModels::Loading,
                ModelsState::Loaded(list) => ShownModels::Loaded(list@),
                ModelsState::Failed(e) => ShownModels::Failed(e@),
            },
            transcript: self.transcript@,
            less_computer_output: self.less_computer_output@,
            pending_approval: match self.pending_approval {
                Some((token, command)) => Some((token@, command@)),
                None => None,
            },
            status: self.status@,
            startup_error: opt_text(self.startup_error),
        }
    }
}

/// The line that shows a download.
pub open spec fn download_line(
    model_id: Seq<char>,
    phase: DownloadPhase,
    done: u64,
    total: u64,
) -> Seq<char> {
    "模型 "@ + model_id + "："@ + phase_name(phase) + " "@ + decimal(done as nat) + "/"@ + decimal(
        total as nat,
    )
}

/// The window after an event.
pub open spec fn after_event(w: Shown, event: UiEvent) -> Shown {
    match event {
        UiEvent::DictationStateChanged { phase_name } => Shown {
            status: "听写："@ + phase_name@,
            ..w
        },
        UiEvent::TranscriptDelta { text } => Shown { transcript: w.transcript + text@, ..w },
        UiEvent::PolishDelta { text, is_final } => if is_final {
            Shown { transcript: text@, ..w }
        } else {
            w
        },
        UiEvent::DictationCompleted { polished_text, inserted } => Shown {
            transcript: polished_text@,
            status: "听写完成："@ + inserted@,
            ..w
        },
        UiEvent::AgentDelta { text } => Shown {
            less_computer_output: w.less_computer_output + text@,
            ..w
        },
        UiEvent::AgentCompleted { text } => Shown {
            less_computer_output: if w.less_computer_output.len() == 0 {
                text@
            } else {
                w.less_computer_output
            },
            pending_approval: None,
            ..w
        },
        UiEvent::AgentApproval { token, command } => Shown {
            pending_approval: Some((token@, command@)),
            ..w
        },
        UiEvent::AgentError { message } => Shown { status: message@, ..w },
        UiEvent::AgentCancelled => Shown { status: "Less Computer 已取消"@, ..w },
        UiEvent::DownloadProgress { model_id, phase, bytes_downloaded, bytes_total } => Shown {
            status: download_line(model_id@, phase, bytes_downloaded, bytes_total),
            models: if download_over(phase) {
                ShownModels::Loading
            } else {
                w.models
            },
            ..w
        },
        UiEvent::PreferencesChanged => w,
        UiEvent::Other => w,
    }
}

/// What has to be fetched again after an event.
pub open spec fn refresh_after(event: UiEvent) -> Refresh {
    match event {
        UiEvent::DownloadProgress { model_id, phase, bytes_downloaded, bytes_total } => {
            if download_over(phase) {
                Refresh::Models
            } else {
                Refresh::Nothing
            }
        },
        UiEvent::PreferencesChanged => Refresh::Preferences,
        _ => Refresh::Nothing,
    }
}

/// The window after something that it asked for.
pub open spec fn after_result(w: Shown, result: UiResult) -> Shown {
    match result {
        UiResult::Message(m) => Shown { status: m@, ..w },
        UiResult::Models(Ok(list)) => Shown { models: ShownModels::Loaded(list@), ..w },
        UiResult::Models(Err(e)) => Shown { models: ShownModels::Failed(e@), status: e@, ..w },
    }
}

/// The window after a request of the backend.
pub open spec fn after_action(w: Shown, action: HostAction) -> Shown {
    match action {
        HostAction::Notify(m) => Shown { status: m@, ..w },
        HostAction::RequestRestart => Shown { status: "请手动重启 OpenLess"@, ..w },
        _ => w,
    }
}

/// What the desktop does for a request of the backend. The window cannot
/// restart itself, and it has no capsule and no panels.
pub open spec fn action_for(action: HostAction) -> UiAction {
    match action {
        HostAction::ShowMain => UiAction::Show,
        HostAction::ShowLessComputer => UiAction::Show,
        HostAction::FocusMain => UiAction::Focus,
        HostAction::OpenExternalUrl(u) => UiAction::Open(u),
        HostAction::OpenSystemSettings(u) => UiAction::Open(u),
        _ => UiAction::Nothing,
    }
}

/// The window after `events`, one after the other.
pub open spec fn after_events(w: Shown, events: Seq<UiEvent>) -> Shown
    decreases events.len(),
{
    if events.len() == 0 {
        w
    } else {
        after_event(after_events(w, events.drop_last()), events.last())
    }
}

/// The window after `results`, one after the other.
pub open spec fn after_results(w: Shown, results: Seq<UiResult>) -> Shown
    decreases results.len(),
{
    if results.len() == 0 {
        w
    } else {
        after_result(after_results(w, results.drop_last()), results.last())
    }
}

/// The window after `actions`, one after the other.
pub open spec fn after_actions(w: Shown, actions: Seq<HostAction>) -> Shown
    decreases actions.len(),
{
    if actions.len() == 0 {
        w
    } else {
        after_action(after_actions(w, actions.drop_last()), actions.last())
    }
}

/// What has come in since the window was drawn last.
#[derive(Debug)]
pub struct Incoming {
    /// The last error of a listener.
    pub error: Option<String>,
    pub actions: Vec<HostAction>,
    pub events: Vec<UiEvent>,
    pub results: Vec<UiResult>,
}

/// What the host has to do after a round of the window.
#[derive(Debug)]
pub struct Outgoing {
    pub actions: Vec<UiAction>,
    pub refreshes: Vec<Refresh>,
}

/// The window after the error of a listener.
pub open spec fn after_error(w: Shown, error: Option<String>) -> Shown {
    match error {
        Some(e) => Shown { status: e@, ..w },
        None => w,
    }
}

/// The window after all that has come in: errors, then requests, then events,
/// then what it asked for itself.
pub open spec fn after_incoming(w: Shown, i: Incoming) -> Shown {
    after_results(
        after_events(after_actions(after_error(w, i.error), i.actions@), i.events@),
        i.results@,
    )
}

impl OpenLessEguiApp {
    /// The window as it opens; `failed` says why the backend did not start.
    pub fn new(failed: Option<String>) -> (r: Self)
        ensures
            r@ == (Shown {
                models: ShownModels::Loading,
                transcript: ""@,
                less_computer_output: ""@,
                pending_approval: None,
                status: if failed is None {
                    "Core 2.0 已启动"@
                } else {
                    "启动失败"@
                },
                startup_error: opt_text(failed),
            }),
    {
        OpenLessEguiApp {
            models: ModelsState::Loading,
            transcript: "".to_owned(),
            less_computer_output: "".to_owned(),
            pending_approval: None,
            status: if failed.is_none() {
                "Core 2.0 已启动".to_owned()
            } else {
                "启动失败".to_owned()
            },
            startup_error: failed,
        }
    }

    /// Shows an event.
    pub fn apply_event(&mut self, event: UiEvent) -> (r: Refresh)
        ensures
            final(self)@ == after_event(old(self)@, event),
            r == refresh_after(event),
    {
        match event {
            UiEvent::DictationStateChanged { phase_name } => {
                self.status = join2("听写：", phase_name.as_str());
                Refresh::Nothing
            },
            UiEvent::TranscriptDelta { text } => {
                self.transcript = join2(self.transcript.as_str(), text.as_str());
                Refresh::Nothing
            },
            UiEvent::PolishDelta { text, is_final } => {
                if is_final {
                    self.transcript = text;
                }
                Refresh::Nothing
            },
            UiEvent::DictationCompleted { polished_text, inserted } => {
                self.transcript = polished_text;
                self.status = join2("听写完成：", inserted.as_str());
                Refresh::Nothing
            },
            UiEvent::AgentDelta { text } => {
                self.less_computer_output = join2(
                    self.less_computer_output.as_str(),
                    text.as_str(),
                );
                Refresh::Nothing
            },
            UiEvent::AgentCompleted { text } => {
                if self.less_computer_output.as_str().is_empty() {
                    self.less_computer_output = text;
                }
                self.pending_approval = None;
                Refresh::Nothing
            },
            UiEvent::AgentApproval { token, command } => {
                self.pending_approval = Some((token, command));
                Refresh::Nothing
            },
            UiEvent::AgentError { message } => {
                self.status = message;
                Refresh::Nothing
            },
            UiEvent::AgentCancelled => {
                self.status = "Less Computer 已取消".to_owned();
                Refresh::Nothing
            },
            UiEvent::DownloadProgress { model_id, phase, bytes_downloaded, bytes_total } => {
                let name: &'static str = phase_text(phase);
                let done: String = decimal_text(bytes_downloaded);
                let total: String = decimal_text(bytes_total);
                self.status =
                join3("模型 ", model_id.as_str(), "：").concat(name).concat(" ").concat(
                    done.as_str(),
                ).concat("/").concat(total.as_str());
                if phase == DownloadPhase::Finished || phase == DownloadPhase::Failed || phase
                    == DownloadPhase::Cancelled {
                    self.models = ModelsState::Loading;
                    Refresh::Models
                } else {
                    Refresh::Nothing
                }
            },
            UiEvent::PreferencesChanged => Refresh::Preferences,
            UiEvent::Other => Refresh::Nothing,
        }
    }

    /// Takes what came of something that the window asked for.
    pub fn receive(&mut self, result: UiResult)
        ensures
            final(self)@ == after_result(old(self)@, result),
    {
        match result {
            UiResult::Message(m) => {
                self.status = m;
            },
            UiResult::Models(Ok(list)) => {
                self.models = ModelsState::Loaded(list);
            },
            UiResult::Models(Err(e)) => {
                self.models = ModelsState::Failed(e.clone());
                self.status = e;
            },
        }
    }

    /// Does what the backend asks for, as far as the window can.
    pub fn act(&mut self, action: HostAction) -> (r: UiAction)
        ensures
            final(self)@ == after_action(old(self)@, action),
            r == action_for(action),
    {
        match action {
            HostAction::ShowMain | HostAction::ShowLessComputer => UiAction::Show,
            HostAction::FocusMain => UiAction::Focus,
            HostAction::OpenExternalUrl(u) => UiAction::Open(u),
            HostAction::OpenSystemSettings(u) => UiAction::Open(u),
            HostAction::Notify(m) => {
                self.status = m;
                UiAction::Nothing
            },
            HostAction::RequestRestart => {
                self.status = "请手动重启 OpenLess".to_owned();
                UiAction::Nothing
            },
            _ => UiAction::Nothing,
        }
    }

    /// One round of the window: takes in all that has come.
    pub fn poll(&mut self, incoming: Incoming) -> (r: Outgoing)
        ensures
            final(self)@ == after_incoming(old(self)@, incoming),
            r.actions@.len() == incoming.actions@.len(),
            forall|i: int|
                0 <= i < r.actions@.len() ==> #[trigger] r.actions@[i] == action_for(
                    incoming.actions@[i],
                ),
            r.refreshes@.len() == incoming.events@.len(),
            forall|i: int|
                0 <= i < r.refreshes@.len() ==> #[trigger] r.refreshes@[i] == refresh_after(
                    incoming.events@[i],
                ),
    {
        let ghost w0 = self@;
        let ghost all_actions = incoming.actions@;
        let ghost all_events = incoming.events@;
        let ghost all_results = incoming.results@;
        let ghost w1 = after_error(w0, incoming.error);
        if let Some(e) = incoming.error {
            self.status = e;
        }
        let mut actions: Vec<UiAction> = Vec::new();
        proof {
            assert(all_actions.take(0) =~= Seq::<HostAction>::empty());
        }
        for action in it: incoming.actions
            invariant
                it.seq() == all_actions,
                self@ == after_actions(w1, all_actions.take(it.index() as int)),
                actions@.len() == it.index(),
                forall|i: int|
                    0 <= i < actions@.len() ==> #[trigger] actions@[i] == action_for(
                        all_actions[i],
                    ),
        {
            proof {
                let k = it.index() as int;
                assert(all_actions.take(k + 1).drop_last() =~= all_actions.take(k));
                assert(all_actions.take(k + 1).last() == all_actions[k]);
            }
            let done: UiAction = self.act(action);
            actions.push(done);
        }
        let ghost w2 = self@;
        proof {
            assert(all_actions.take(all_actions.len() as int) =~= all_actions);
            assert(all_events.take(0) =~= Seq::<UiEvent>::empty());
        }
        let mut refreshes: Vec<Refresh> = Vec::new();
        for event in it: incoming.events
            invariant
                it.seq() == all_events,
                self@ == after_events(w2, all_events.take(it.index() as int)),
                refreshes@.len() == it.index(),
                forall|i: int|
                    0 <= i < refreshes@.len() ==> #[trigger] refreshes@[i] == refresh_after(
                        all_events[i],
                    ),
        {
            proof {
                let k = it.index() as int;
                assert(all_events.take(k + 1).drop_last() =~= all_events.take(k));
                assert(all_events.take(k + 1).last() == all_events[k]);
            }
            let refresh: Refresh = self.apply_event(event);
            refreshes.push(refresh);
        }
        let ghost w3 = self@;
        proof {
            assert(all_events.take(all_events.len() as int) =~= all_events);
            assert(all_results.take(0) =~= Seq::<UiResult>::empty());
        }
        for result in it: incoming.results
            invariant
                it.seq() == all_results,
                self@ == after_results(w3, all_results.take(it.index() as int)),
        {
            proof {
                let k = it.index() as int;
                assert(all_results.take(k + 1).drop_last() =~= all_results.take(k));
                assert(all_results.take(k + 1).last() == all_results[k]);
            }
            self.receive(result);
        }
        proof {
            assert(all_results.take(all_results.len() as int) =~= all_results);
        }
        Outgoing { actions, refreshes }
    }

    /// A dictation was started from the window.
    pub fn press_start(&mut self)
        ensures
            final(self)@ == (Shown { transcript: ""@, ..old(self)@ }),
    {
        self.transcript = "".to_owned();
    }

    /// The agent was to be sent off with a prompt, which goes out as it was
    /// typed. A blank one goes nowhere.
    pub fn press_run(&mut self, prompt: &str) -> (r: Option<String>)
        ensures
            opt_text(r) == (if blank(prompt@) {
                None
            } else {
                Some(prompt@)
            }),
            final(self)@ == (if blank(prompt@) {
                old(self)@
            } else {
                Shown { less_computer_output: ""@, ..old(self)@ }
            }),
    {
        if is_blank(prompt) {
            return None;
        }
        self.less_computer_output = "".to_owned();
        Some(prompt.to_owned())
    }

    /// The user answered a command that waits for consent. The answer goes out
    /// once, under the command's token.
    pub fn press_answer(&mut self, approved: bool) -> (r: Option<(String, bool)>)
        ensures
            match old(self)@.pending_approval {
                Some((token, command)) => r matches Some(answer) && answer.0@ == token && answer.1
                    == approved,
                None => r is None,
            },
            final(self)@ == (Shown { pending_approval: None, ..old(self)@ }),
    {
        let pending: Option<(String, String)> = self.pending_approval.take();
        match pending {
            Some((token, _command)) => Some((token, approved)),
            None => None,
        }
    }

    /// The settings were to be saved.
    pub fn settings_saved(&mut self, saved: Result<(), String>)
        ensures
            final(self)@ == (Shown {
                status: match saved {
                    Ok(()) => "设置已保存"@,
                    Err(e) => e@,
                },
                ..old(self)@
            }),
    {
        self.status = match saved {
            Ok(()) => "设置已保存".to_owned(),
            Err(e) => e,
        };
    }

    /// What is asked about a command that waits for consent.
    pub fn approval_line(&self) -> (r: Option<String>)
        ensures
            opt_text(r) == (match self@.pending_approval {
                Some((token, command)) => Some("请求执行："@ + command),
                None => None,
            }),
    {
        match &self.pending_approval {
            Some((_token, command)) => Some(join2("请求执行：", command.as_str())),
            None => None,
        }
    }

    /// The list of models is to be fetched again.
    pub fn press_refresh(&mut self)
        ensures
            final(self)@ == (Shown { models: ShownModels::Loading, ..old(self)@ }),
    {
        self.models = ModelsState::Loading;
    }

    /// The line under the dictation.
    pub fn transcript_line(&self) -> (r: &str)
        ensures
            r@ == (if self@.transcript.len() == 0 {
                "尚无转写结果"@
            } else {
                self@.transcript
            }),
    {
        if self.transcript.as_str().is_empty() {
            "尚无转写结果"
        } else {
            self.transcript.as_str()
        }
    }

    /// The line under the agent.
    pub fn less_computer_line(&self) -> (r: &str)
        ensures
            r@ == (if self@.less_computer_output.len() == 0 {
                "尚无 Agent 输出"@
            } else {
                self@.less_computer_output
            }),
    {
        if self.less_computer_output.as_str().is_empty() {
            "尚无 Agent 输出"
        } else {
            self.less_computer_output.as_str()
        }
    }

    /// What stands in place of the list of models where there is none.
    pub fn models_line(&self) -> (r: Option<&str>)
        ensures
            match self@.models {
                ShownModels::Loading => r matches Some(m) && m@ == "正在加载模型目录…"@,
                ShownModels::Failed(e) => r matches Some(m) && m@ == e,
                ShownModels::Loaded(list) => if list.len() == 0 {
                    r matches Some(m) && m@ == "模型目录未返回任何可用模型"@
                } else {
                    r is None
                },
            },
    {
        match &self.models {
            ModelsState::Loading => Some("正在加载模型目录…"),
            ModelsState::Failed(e) => Some(e.as_str()),
            ModelsState::Loaded(list) => if list.len() == 0 {
                Some("模型目录未返回任何可用模型")
            } else {
                None
            },
        }
    }
}

/// A command that waits for consent is answered at most once, and a run that
/// is over waits for none.
pub proof fn law_consent_is_asked_once(w: Shown, text: String)
    ensures
        after_event(w, (UiEvent::AgentCompleted { text })).pending_approval is None,
        forall|event: UiEvent|
            w.pending_approval is None && !(event is AgentApproval) ==> (#[trigger] after_event(
                w,
                event,
            )).pending_approval is None,
{
}

/// Something that the window has the backend do.
#[derive(Clone, Copy, PartialEq, Eq, Structural, Debug)]
pub enum WindowTask {
    Launch,
    Hotkey,
    StartDictation,
    CancelDictation,
    RunAgent,
    CancelAgent,
    Approve,
    Download,
    CancelDownload,
}

/// The words for something that was done.
pub open spec fn task_words(task: WindowTask) -> Seq<char> {
    match task {
        WindowTask::Launch => "已处理启动请求"@,
        WindowTask::Hotkey => "已处理快捷键"@,
        WindowTask::StartDictation => "正在录音"@,
        WindowTask::CancelDictation => "听写已取消"@,
        WindowTask::RunAgent => "Less Computer 已完成"@,
        WindowTask::CancelAgent => "Less Computer 已取消"@,
        WindowTask::Approve => "审批已提交"@,
        WindowTask::Download => "模型下载完成"@,
        WindowTask::CancelDownload => "模型下载已取消"@,
    }
}

/// What the window hears of something that it had done.
pub fn task_finished(task: WindowTask, outcome: Result<(), String>) -> (r: UiResult)
    ensures
        r matches UiResult::Message(m) && m@ == (match outcome {
            Ok(()) => task_words(task),
            Err(e) => e@,
        }),
{
    match outcome {
        Err(e) => UiResult::Message(e),
        Ok(()) => {
            let words: &'static str = match task {
                WindowTask::Launch => "已处理启动请求",
                WindowTask::Hotkey => "已处理快捷键",
                WindowTask::StartDictation => "正在录音",
                WindowTask::CancelDictation => "听写已取消",
                WindowTask::RunAgent => "Less Computer 已完成",
                WindowTask::CancelAgent => "Less Computer 已取消",
                WindowTask::Approve => "审批已提交",
                WindowTask::Download => "模型下载完成",
                WindowTask::CancelDownload => "模型下载已取消",
            };
            UiResult::Message(words.to_owned())
        },
    }
}

/// The buttons of the dictation that can be pressed.
#[derive(Clone, Copy, PartialEq, Eq, Structural, Debug)]
pub struct DictationButtons {
    pub start: bool,
    pub stop: bool,
    pub cancel: bool,
}

/// The buttons that can be pressed, while the dictation is idle, recording or
/// neither.
pub fn dictation_buttons(idle: bool, recording: bool) -> (r: DictationButtons)
    ensures
        r.start == idle,
        r.stop == recording,
        r.cancel == !idle,
{
    DictationButtons { start: idle, stop: recording, cancel: !idle }
}

/// How a text reached its place, for the history.
#[derive(Clone, Copy, PartialEq, Eq, Structural, Debug)]
pub enum HistoryInsertStatus {
    Inserted,
    CopiedFallback,
    PasteSent,
    Failed,
    NotRequested,
}

pub open spec fn delivery_name(s: HistoryInsertStatus) -> Seq<char> {
    match s {
        HistoryInsertStatus::Inserted => "已插入"@,
        HistoryInsertStatus::CopiedFallback => "已复制"@,
        HistoryInsertStatus::PasteSent => "已发送粘贴"@,
        HistoryInsertStatus::Failed => "失败"@,
        HistoryInsertStatus::NotRequested => "未请求插入"@,
    }
}

pub fn delivery_label(status: HistoryInsertStatus) -> (r: &'static str)
    ensures
        r@ == delivery_name(status),
{
    match status {
        HistoryInsertStatus::Inserted => "已插入",
        HistoryInsertStatus::CopiedFallback => "已复制",
        HistoryInsertStatus::PasteSent => "已发送粘贴",
        HistoryInsertStatus::Failed => "失败",
        HistoryInsertStatus::NotRequested => "未请求插入",
    }
}

/// How many entries of the history are shown.
pub const HISTORY_ROWS: usize = 20;

/// The entries of the history that are shown, as indices: the last ones, the
/// newest first.
pub fn history_rows(entries: usize) -> (r: Vec<usize>)
    ensures
        r@.len() == (if entries < HISTORY_ROWS {
            entries
        } else {
            HISTORY_ROWS
        }),
        forall|i: int| 0 <= i < r@.len() ==> #[trigger] r@[i] == entries - 1 - i,
{
    let mut rows: Vec<usize> = Vec::new();
    while rows.len() < HISTORY_ROWS && rows.len() < entries
        invariant
            rows@.len() <= entries,
            rows@.len() <= HISTORY_ROWS,
            forall|i: int| 0 <= i < rows@.len() ==> #[trigger] rows@[i] == entries - 1 - i,
        decreases entries - rows@.len(),
    {
        let next: usize = entries - 1 - rows.len();
        rows.push(next);
    }
    rows
}

/// The line of one entry of the history.
pub fn history_line(created_at: &str, status: HistoryInsertStatus, final_text: &str) -> (r: String)
    ensures
        r@ == created_at@ + " · "@ + delivery_name(status) + " · "@ + final_text@,
{
    join3(created_at, " · ", delivery_label(status)).concat(" · ").concat(final_text)
}

/// The line of one model.
pub fn model_line(display_name: &str, family: &str, installed: bool) -> (r: String)
    ensures
        r@ == display_name@ + " · "@ + family@ + " · "@ + (if installed {
            "已安装"@
        } else {
            "未安装"@
        }),
{
    let state: &str = if installed {
        "已安装"
    } else {
        "未安装"
    };
    join3(display_name, " · ", family).concat(" · ").concat(state)
}

/// The line of one provider.
pub fn provider_line(label: &str, provider: &str, configured: bool) -> (r: String)
    ensures
        r@ == label@ + "："@ + provider@ + "（"@ + (if configured {
            "已配置"@
        } else {
            "未配置"@
        }) + "）"@,
{
    let state: &str = if configured {
        "已配置"
    } else {
        "未配置"
    };
    join3(label, "：", provider).concat("（").concat(state).concat("）")
}

/// The line after a dictation: how many characters it gave.
pub fn finished_line(polished_text: &str) -> (r: String)
    ensures
        r@ == "完成："@ + decimal(polished_text@.len()) + " 字"@,
{
    let count: usize = polished_text.unicode_len();
    let digits: String = decimal_text(count as u64);
    join3("完成：", digits.as_str(), " 字")
}

/// What the backend asks of the host.
#[derive(Debug)]
pub enum HostAction {
    ShowMain,
    FocusMain,
    ShowDictationFeedback,
    HideDictationFeedback,
    ShowSelectionPreview,
    HideSelectionPreview,
    ShowQa,
    HideQa,
    ShowLessComputer,
    OpenExternalUrl(String),
    OpenSystemSettings(String),
    RequestRestart,
    Notify(String),
}

/// What the desktop does about it.
#[derive(Debug)]
pub enum UiAction {
    Show,
    Focus,
    /// Hand the address over.
    Open(String),
    Nothing,
}

/// How the program was installed.
pub fn package_kind(has_appdir: bool, debug_build: bool) -> (r: LinuxPackageKind)
    ensures
        r == (if has_appdir {
            LinuxPackageKind::AppImage
        } else if debug_build {
            LinuxPackageKind::Development
        } else {
            LinuxPackageKind::SystemPackage
        }),
{
    if has_appdir {
        LinuxPackageKind::AppImage
    } else if debug_build {
        LinuxPackageKind::Development
    } else {
        LinuxPackageKind::SystemPackage
    }
}

/// The directories of the program.
#[derive(Debug)]
pub struct BackendDirs {
    pub data_dir: String,
    pub cache_dir: String,
}

/// A directory of the program: below the one that the desktop names, or below
/// the home.
pub open spec fn user_dir(named: Option<String>, home: Option<String>, part: Seq<char>) -> Option<
    Seq<char>,
> {
    match named {
        Some(d) => Some(below(d@, "OpenLess"@)),
        None => match home {
            Some(h) => Some(below(below(h@, part), "OpenLess"@)),
            None => None,
        },
    }
}

fn user_directory(named: &Option<String>, home: &Option<String>, part: &str) -> (r: Option<String>)
    ensures
        r is Some == user_dir(*named, *home, part@) is Some,
        r is Some ==> r->0@ == user_dir(*named, *home, part@)->0,
{
    match named {
        Some(d) => Some(path_below(d.as_str(), "OpenLess")),
        None => match home {
            Some(h) => Some(path_below(path_below(h.as_str(), part).as_str(), "OpenLess")),
            None => None,
        },
    }
}

/// The directories of the program, or what is missing from the environment.
pub fn backend_config(
    home: Option<String>,
    data_home: Option<String>,
    cache_home: Option<String>,
) -> (r: Result<BackendDirs, &'static str>)
    ensures
        ({
            let data = user_dir(data_home, home, ".local/share"@);
            let cache = user_dir(cache_home, home, ".cache"@);
            match r {
                Ok(d) => {
                    &&& data is Some && d.data_dir@ == data->0
                    &&& cache is Some && d.cache_dir@ == cache->0
                },
                Err(e) => if data is None {
                    e@ == "HOME/XDG_DATA_HOME is unavailable"@
                } else {
                    cache is None && e@ == "HOME/XDG_CACHE_HOME is unavailable"@
                },
            }
        }),
{
    let data_dir: String = match user_directory(&data_home, &home, ".local/share") {
        Some(d) => d,
        None => return Err("HOME/XDG_DATA_HOME is unavailable"),
    };
    let cache_dir: String = match user_directory(&cache_home, &home, ".cache") {
        Some(d) => d,
        None => return Err("HOME/XDG_CACHE_HOME is unavailable"),
    };
    Ok(BackendDirs { data_dir, cache_dir })
}

/// What was heard is shown: each part of a transcript behind the parts before it, and
/// the finished text in place of them all. What is no part of it changes nothing of
/// it.
pub proof fn law_transcript_grows_to_its_text(
    app: &mut OpenLessEguiApp,
    event: UiEvent,
    r: Refresh,
)
    requires
        call_ensures(OpenLessEguiApp::apply_event, (app, event), r),
    ensures
        (event matches UiEvent::TranscriptDelta { text } ==> final(app)@.transcript
            == old(app)@.transcript + text@),
        (event matches UiEvent::PolishDelta { text, is_final } ==> (is_final
            ==> final(app)@.transcript == text@)),
        (event matches UiEvent::PolishDelta { text, is_final } ==> (!is_final
            ==> final(app)@.transcript == old(app)@.transcript)),
        (event matches UiEvent::DictationCompleted { polished_text, inserted }
            ==> final(app)@.transcript == polished_text@ && crate::text::ends_with(
            final(app)@.status,
            inserted@,
        )),
        !(event is TranscriptDelta) && !(event is PolishDelta) && !(event is DictationCompleted)
            ==> final(app)@.transcript == old(app)@.transcript,
        final(app)@.startup_error == old(app)@.startup_error,
{
    if event is DictationCompleted {
        let told = final(app)@.status;
        let how = event->inserted@;
        assert(told.subrange(told.len() - how.len(), told.len() as int) =~= how);
    }
}

/// What the agent says is shown as it comes; its last text is shown where nothing came
/// before it. A command waits for consent from when it is asked until the run is over.
pub proof fn law_agent_output_is_shown(app: &mut OpenLessEguiApp, event: UiEvent, r: Refresh)
    requires
        call_ensures(OpenLessEguiApp::apply_event, (app, event), r),
    ensures
        (event matches UiEvent::AgentDelta { text } ==> final(app)@.less_computer_output
            == old(app)@.less_computer_output + text@),
        (event matches UiEvent::AgentCompleted { text } ==> (old(app)@.less_computer_output.len() == 0
            ==> final(app)@.less_computer_output == text@)),
        event is AgentCompleted && old(app)@.less_computer_output.len() > 0
            ==> final(app)@.less_computer_output == old(app)@.less_computer_output,
        !(event is AgentDelta) && !(event is AgentCompleted) ==> final(app)@.less_computer_output
            == old(app)@.less_computer_output,
        (event matches UiEvent::AgentApproval { token, command } ==> final(app)@.pending_approval
            == Some((token@, command@))),
        event is AgentCompleted ==> final(app)@.pending_approval is None,
        !(event is AgentApproval) && !(event is AgentCompleted) ==> final(app)@.pending_approval
            == old(app)@.pending_approval,
        (event matches UiEvent::AgentError { message } ==> final(app)@.status == message@),
{
}

/// Once a download is over, however it ended, the models are fetched again and not
/// shown until then. Preferences are fetched again when they changed, and otherwise
/// nothing is. The line of a download names its model and ends in its size.
pub proof fn law_what_is_fetched_again(app: &mut OpenLessEguiApp, event: UiEvent, r: Refresh)
    requires
        call_ensures(OpenLessEguiApp::apply_event, (app, event), r),
    ensures
        r == Refresh::Preferences <==> event is PreferencesChanged,
        r == Refresh::Models <==> event is DownloadProgress && (event->phase
            == DownloadPhase::Finished || event->phase == DownloadPhase::Failed || event->phase
            == DownloadPhase::Cancelled),
        r == Refresh::Models ==> final(app)@.models is Loading,
        r != Refresh::Models ==> final(app)@.models == old(app)@.models,
        (event matches UiEvent::DownloadProgress {
            model_id,
            phase,
            bytes_downloaded,
            bytes_total,
        } ==> crate::text::ends_with(final(app)@.status, decimal(bytes_total as nat))
            && crate::text::contains_text(final(app)@.status, model_id@)
            && crate::text::contains_text(final(app)@.status, decimal(bytes_downloaded as nat))),
        event is TranscriptDelta || event is PolishDelta || event is AgentDelta || event
            is AgentCompleted || event is AgentApproval || event is PreferencesChanged || event
            is Other ==> final(app)@.status == old(app)@.status,
        (event matches UiEvent::DictationStateChanged { phase_name } ==> crate::text::ends_with(
            final(app)@.status,
            phase_name@,
        )),
{
    let told = final(app)@.status;
    if event is DownloadProgress {
        let total = decimal(event->bytes_total as nat);
        let done = decimal(event->bytes_downloaded as nat);
        let id = event->model_id@;
        assert(told.subrange(told.len() - total.len(), told.len() as int) =~= total);
        let a = "模型 "@.len() as int;
        assert(told.subrange(a, a + id.len()) =~= id);
        assert(crate::text::occurs_at(told, id, a));
        let b = told.len() - total.len() - "/"@.len() - done.len();
        assert(told.subrange(b, b + done.len()) =~= done);
        assert(crate::text::occurs_at(told, done, b));
    }
    if event is DictationStateChanged {
        let name = event->phase_name@;
        assert(told.subrange(told.len() - name.len(), told.len() as int) =~= name);
    }
}

/// What the window asked for is shown, a message as the state and models as the list;
/// a failure to get them is shown in both places.
pub proof fn law_results_are_shown(app: &mut OpenLessEguiApp, result: UiResult)
    requires
        call_ensures(OpenLessEguiApp::receive, (app, result), ()),
    ensures
        (result matches UiResult::Message(m) ==> final(app)@.status == m@ && final(app)@.models
            == old(app)@.models),
        (result matches UiResult::Models(Ok(list)) ==> final(app)@.models == ShownModels::Loaded(
            list@,
        ) && final(app)@.status == old(app)@.status),
        (result matches UiResult::Models(Err(e)) ==> final(app)@.models == ShownModels::Failed(e@)
            && final(app)@.status == e@),
        final(app)@.transcript == old(app)@.transcript,
        final(app)@.less_computer_output == old(app)@.less_computer_output,
        final(app)@.pending_approval == old(app)@.pending_approval,
{
}

/// The window comes up or to the front when it is asked to, hands addresses over as
/// they are, and shows what the backend says. Nothing else of it changes.
pub proof fn law_requests_are_met(app: &mut OpenLessEguiApp, action: HostAction, r: UiAction)
    requires
        call_ensures(OpenLessEguiApp::act, (app, action), r),
    ensures
        r is Show <==> action is ShowMain || action is ShowLessComputer,
        r is Focus <==> action is FocusMain,
        (action matches HostAction::OpenExternalUrl(u) ==> r == UiAction::Open(u)),
        (action matches HostAction::OpenSystemSettings(u) ==> r == UiAction::Open(u)),
        r is Open ==> action is OpenExternalUrl || action is OpenSystemSettings,
        (action matches HostAction::Notify(m) ==> final(app)@.status == m@),
        action is RequestRestart ==> final(app)@.status == "请手动重启 OpenLess"@,
        !(action is Notify) && !(action is RequestRestart) ==> final(app)@ == old(app)@,
        final(app)@ == (Shown { status: final(app)@.status, ..old(app)@ }),
{
}

/// A round takes in all that has come, one after the other: an error first, then the
/// requests, the events, and what the window asked for. It gives back for each request
/// what the desktop does and for each event what is fetched again.
pub proof fn law_round_takes_in_everything(
    app: &mut OpenLessEguiApp,
    before: &mut OpenLessEguiApp,
    last: &mut OpenLessEguiApp,
    incoming: Incoming,
    fewer: Incoming,
    tail: UiResult,
    all: Outgoing,
    most: Outgoing,
)
    requires
        app@ == before@,
        incoming.error == fewer.error,
        incoming.actions@ == fewer.actions@,
        incoming.events@ == fewer.events@,
        incoming.results@ == fewer.results@.push(tail),
        call_ensures(OpenLessEguiApp::poll, (app, incoming), all),
        call_ensures(OpenLessEguiApp::poll, (before, fewer), most),
        last@ == final(before)@,
        call_ensures(OpenLessEguiApp::receive, (last, tail), ()),
    ensures
        final(app)@ == final(last)@,
        all.actions@.len() == incoming.actions@.len(),
        all.refreshes@.len() == incoming.events@.len(),
{
    assert(incoming.results@.drop_last() =~= fewer.results@);
}

/// An event at the end of a round is shown after everything before it.
pub proof fn law_round_shows_its_last_event(
    app: &mut OpenLessEguiApp,
    before: &mut OpenLessEguiApp,
    last: &mut OpenLessEguiApp,
    incoming: Incoming,
    fewer: Incoming,
    tail: UiEvent,
    all: Outgoing,
    most: Outgoing,
    refresh: Refresh,
)
    requires
        app@ == before@,
        incoming.error == fewer.error,
        incoming.actions@ == fewer.actions@,
        incoming.events@ == fewer.events@.push(tail),
        incoming.results@.len() == 0,
        fewer.results@.len() == 0,
        call_ensures(OpenLessEguiApp::poll, (app, incoming), all),
        call_ensures(OpenLessEguiApp::poll, (before, fewer), most),
        last@ == final(before)@,
        call_ensures(OpenLessEguiApp::apply_event, (last, tail), refresh),
    ensures
        final(app)@ == final(last)@,
        all.refreshes@.len() == most.refreshes@.len() + 1,
        all.refreshes@.last() == refresh,
{
    assert(incoming.events@.drop_last() =~= fewer.events@);
}

/// A request at the end of a round is met after everything before it, and the error of
/// a listener is shown where nothing else has come.
pub proof fn law_round_meets_its_last_request(
    app: &mut OpenLessEguiApp,
    before: &mut OpenLessEguiApp,
    last: &mut OpenLessEguiApp,
    incoming: Incoming,
    fewer: Incoming,
    tail: HostAction,
    all: Outgoing,
    most: Outgoing,
    done: UiAction,
)
    requires
        app@ == before@,
        incoming.error == fewer.error,
        incoming.actions@ == fewer.actions@.push(tail),
        incoming.events@.len() == 0,
        fewer.events@.len() == 0,
        incoming.results@.len() == 0,
        fewer.results@.len() == 0,
        call_ensures(OpenLessEguiApp::poll, (app, incoming), all),
        call_ensures(OpenLessEguiApp::poll, (before, fewer), most),
        last@ == final(before)@,
        call_ensures(OpenLessEguiApp::act, (last, tail), done),
    ensures
        final(app)@ == final(last)@,
        all.actions@.len() == most.actions@.len() + 1,
        all.actions@.last() == done,
        fewer.actions@.len() == 0 ==> (fewer.error matches Some(e) ==> final(before)@.status == e@),
        fewer.actions@.len() == 0 && fewer.error is None ==> final(before)@ == old(before)@,
{
    assert(incoming.actions@.drop_last() =~= fewer.actions@);
    reveal_with_fuel(after_results, 2);
    reveal_with_fuel(after_events, 2);
}

/// A prompt goes out as it was typed, with the output of the last run cleared, unless
/// it is blank; a dictation starts with an empty transcript; and the models are fetched
/// anew. None of these touches anything else.
pub proof fn law_pressed_buttons(
    run: &mut OpenLessEguiApp,
    start: &mut OpenLessEguiApp,
    refresh: &mut OpenLessEguiApp,
    prompt: &str,
    r: Option<String>,
)
    requires
        call_ensures(OpenLessEguiApp::press_run, (run, prompt), r),
        call_ensures(OpenLessEguiApp::press_start, (start,), ()),
        call_ensures(OpenLessEguiApp::press_refresh, (refresh,), ()),
    ensures
        r is Some <==> !blank(prompt@),
        r is Some ==> r->0@ == prompt@ && final(run)@.less_computer_output.len() == 0,
        r is None ==> final(run)@ == old(run)@,
        final(run)@.transcript == old(run)@.transcript && final(run)@.status == old(run)@.status
            && final(run)@.pending_approval == old(run)@.pending_approval,
        final(start)@.transcript.len() == 0,
        final(start)@.status == old(start)@.status && final(start)@.models == old(start)@.models
            && final(start)@.less_computer_output == old(start)@.less_computer_output
            && final(start)@.pending_approval == old(start)@.pending_approval,
        final(refresh)@.models is Loading,
        final(refresh)@.status == old(refresh)@.status && final(refresh)@.transcript
            == old(refresh)@.transcript && final(refresh)@.pending_approval == old(refresh)@.pending_approval,
{
    reveal_strlit("");
}

/// The user's answer goes out under the token of the command that was asked about,
/// once; a second press answers nothing.
pub proof fn law_consent_goes_to_its_command(
    app: &mut OpenLessEguiApp,
    asked: &mut OpenLessEguiApp,
    done: &mut OpenLessEguiApp,
    token: String,
    command: String,
    approved: bool,
    again: bool,
    refresh: Refresh,
    line: Option<String>,
    r: Option<(String, bool)>,
    q: Option<(String, bool)>,
    no_line: Option<String>,
)
    requires
        call_ensures(
            OpenLessEguiApp::apply_event,
            (app, (UiEvent::AgentApproval { token, command })),
            refresh,
        ),
        *asked == *final(app),
        call_ensures(OpenLessEguiApp::approval_line, (&*asked,), line),
        call_ensures(OpenLessEguiApp::press_answer, (asked, approved), r),
        *done == *final(asked),
        call_ensures(OpenLessEguiApp::approval_line, (&*done,), no_line),
        call_ensures(OpenLessEguiApp::press_answer, (done, again), q),
    ensures
        line is Some && crate::text::ends_with(line->0@, command@),
        (r matches Some((t, yes)) && t@ == token@ && yes == approved),
        q is None && no_line is None,
        final(done)@.status == old(app)@.status,
{
    let told = line->0@;
    assert(opt_text(line) is Some);
    assert(told.subrange(told.len() - command@.len(), told.len() as int) =~= command@);
}

/// The lines show what there is to show, and stand-in words where there is nothing.
pub proof fn law_lines_show_what_there_is(
    app: &OpenLessEguiApp,
    transcript: &str,
    output: &str,
    models: Option<&str>,
)
    requires
        call_ensures(OpenLessEguiApp::transcript_line, (app,), transcript),
        call_ensures(OpenLessEguiApp::less_computer_line, (app,), output),
        call_ensures(OpenLessEguiApp::models_line, (app,), models),
    ensures
        app@.transcript.len() > 0 ==> transcript@ == app@.transcript,
        app@.transcript.len() == 0 ==> transcript@ == "尚无转写结果"@,
        app@.less_computer_output.len() > 0 ==> output@ == app@.less_computer_output,
        app@.less_computer_output.len() == 0 ==> output@ == "尚无 Agent 输出"@,
        models is None <==> app@.models is Loaded && app@.models->Loaded_0.len() > 0,
        app@.models is Failed ==> models->0@ == app@.models->Failed_0,
{
}

/// A window opens with nothing in it, and says why the backend did not start if it did
/// not; settings that were saved are told as saved, and a failure in its own words.
pub proof fn law_window_opens_empty(
    failed: Option<String>,
    app: OpenLessEguiApp,
    window: &mut OpenLessEguiApp,
    saved: Result<(), String>,
)
    requires
        call_ensures(OpenLessEguiApp::new, (failed,), app),
        call_ensures(OpenLessEguiApp::settings_saved, (window, saved), ()),
    ensures
        app@.transcript.len() == 0 && app@.less_computer_output.len() == 0,
        app@.pending_approval is None && app@.models is Loading,
        app@.startup_error == opt_text(failed),
        failed is None ==> app@.status == "Core 2.0 已启动"@,
        failed is Some ==> app@.status == "启动失败"@,
        (saved matches Err(e) ==> final(window)@.status == e@),
        saved is Ok ==> final(window)@.status == "设置已保存"@,
        final(window)@ == (Shown { status: final(window)@.status, ..old(window)@ }),
{
    reveal_strlit("");
}

/// What went wrong is told in its own words, and what went well in words that depend
/// on the task alone.
pub proof fn law_task_is_told(task: WindowTask, outcome: Result<(), String>, r: UiResult)
    requires
        call_ensures(task_finished, (task, outcome), r),
    ensures
        r is Message,
        outcome is Err ==> r->Message_0@ == outcome->Err_0@,
        outcome is Ok && task == WindowTask::StartDictation ==> r->Message_0@ == "正在录音"@,
        outcome is Ok && task == WindowTask::CancelDictation ==> r->Message_0@ == "听写已取消"@,
        outcome is Ok && task == WindowTask::Download ==> r->Message_0@ == "模型下载完成"@,
        outcome is Ok && task == WindowTask::CancelDownload ==> r->Message_0@
            == "模型下载已取消"@,
        outcome is Ok && task == WindowTask::RunAgent ==> r->Message_0@ == "Less Computer 已完成"@,
        outcome is Ok && task == WindowTask::CancelAgent ==> r->Message_0@
            == "Less Computer 已取消"@,
        outcome is Ok && task == WindowTask::Approve ==> r->Message_0@ == "审批已提交"@,
        outcome is Ok && task == WindowTask::Launch ==> r->Message_0@ == "已处理启动请求"@,
        outcome is Ok && task == WindowTask::Hotkey ==> r->Message_0@ == "已处理快捷键"@,
{
}

/// A dictation can be started only while none runs, stopped only while it records, and
/// cancelled whenever one runs.
pub proof fn law_buttons_fit_the_dictation(idle: bool, recording: bool, r: DictationButtons)
    requires
        call_ensures(dictation_buttons, (idle, recording), r),
    ensures
        r.start <==> idle,
        r.stop <==> recording,
        r.start <==> !r.cancel,
{
}

/// The history shows its newest entries, the newest first, none twice, and all of them
/// while there are few.
pub proof fn law_newest_entries_come_first(entries: usize, r: Vec<usize>, i: int, j: int)
    requires
        call_ensures(history_rows, (entries,), r),
        0 <= i < j < r@.len(),
    ensures
        r@[0] == entries - 1,
        r@[i] > r@[j],
        r@[j] == r@[0] - j,
        r@.len() <= 20,
        entries <= 20 ==> r@.len() == entries,
        entries > 20 ==> r@.len() == 20,
{
}

/// Without entries there are no rows, and with any there is at least one.
pub proof fn law_history_without_entries(entries: usize, r: Vec<usize>)
    requires
        call_ensures(history_rows, (entries,), r),
    ensures
        r@.len() == 0 <==> entries == 0,
{
}

/// The line of an entry begins with its time, names how the text got to its place, and
/// ends in the text.
pub proof fn law_history_line_tells_everything(
    created: &str,
    status: HistoryInsertStatus,
    text: &str,
    label: &'static str,
    line: String,
)
    requires
        call_ensures(delivery_label, (status,), label),
        call_ensures(history_line, (created, status, text), line),
    ensures
        line@ == created@ + " · "@ + label@ + " · "@ + text@,
        status == HistoryInsertStatus::Inserted ==> label@ == "已插入"@,
        status == HistoryInsertStatus::CopiedFallback ==> label@ == "已复制"@,
        status == HistoryInsertStatus::PasteSent ==> label@ == "已发送粘贴"@,
        status == HistoryInsertStatus::Failed ==> label@ == "失败"@,
        status == HistoryInsertStatus::NotRequested ==> label@ == "未请求插入"@,
{
}

/// The lines of a model and of a provider tell what they are and what their state is.
pub proof fn law_lines_tell_the_state(
    name: &str,
    kind: &str,
    there: bool,
    model: String,
    provider: String,
)
    requires
        call_ensures(model_line, (name, kind, there), model),
        call_ensures(provider_line, (name, kind, there), provider),
    ensures
        there ==> model@ == name@ + " · "@ + kind@ + " · "@ + "已安装"@,
        !there ==> model@ == name@ + " · "@ + kind@ + " · "@ + "未安装"@,
        there ==> provider@ == name@ + "："@ + kind@ + "（"@ + "已配置"@ + "）"@,
        !there ==> provider@ == name@ + "："@ + kind@ + "（"@ + "未配置"@ + "）"@,
{
}

/// The line after a dictation tells how many characters it gave: texts of different
/// lengths never give the same line.
pub proof fn law_finished_line_counts(a: &str, b: &str, of_a: String, of_b: String)
    requires
        call_ensures(finished_line, (a,), of_a),
        call_ensures(finished_line, (b,), of_b),
    ensures
        of_a@ == of_b@ <==> a@.len() == b@.len(),
        crate::text::contains_text(of_a@, decimal(a@.len())),
{
    crate::text::lemma_decimal(a@.len());
    crate::text::lemma_decimal(b@.len());
    let n = "完成："@.len() as int;
    let k = " 字"@.len() as int;
    assert(of_a@.subrange(n, of_a@.len() - k) =~= decimal(a@.len()));
    assert(of_b@.subrange(n, of_b@.len() - k) =~= decimal(b@.len()));
    let d = decimal(a@.len());
    assert(of_a@.subrange(n, n + d.len()) =~= d);
    assert(crate::text::occurs_at(of_a@, d, n));
}

/// A program with the directory of an AppImage is one; without it, a debug build is a
/// development one, and any other was installed by the system.
pub proof fn law_how_it_was_installed(has_appdir: bool, debug: bool, r: LinuxPackageKind)
    requires
        call_ensures(package_kind, (has_appdir, debug), r),
    ensures
        r == LinuxPackageKind::AppImage <==> has_appdir,
        r == LinuxPackageKind::Development <==> !has_appdir && debug,
        r == LinuxPackageKind::SystemPackage <==> !has_appdir && !debug,
{
}

/// The program keeps its data and its cache below the directories that the desktop
/// names, and below the home where it names none. Without either it cannot.
pub proof fn law_directories_of_the_program(
    home: Option<String>,
    data: Option<String>,
    cache: Option<String>,
    home_text: &str,
    data_text: &str,
    cache_text: &str,
    share: String,
    share_text: &str,
    cached: String,
    cached_text: &str,
    in_data: String,
    in_cache: String,
    in_share: String,
    in_cached: String,
    r: Result<BackendDirs, &'static str>,
)
    requires
        (home matches Some(h) ==> home_text@ == h@),
        (data matches Some(d) ==> data_text@ == d@),
        (cache matches Some(c) ==> cache_text@ == c@),
        call_ensures(path_below, (home_text, ".local/share"), share),
        call_ensures(path_below, (home_text, ".cache"), cached),
        share_text@ == share@,
        cached_text@ == cached@,
        call_ensures(path_below, (data_text, "OpenLess"), in_data),
        call_ensures(path_below, (cache_text, "OpenLess"), in_cache),
        call_ensures(path_below, (share_text, "OpenLess"), in_share),
        call_ensures(path_below, (cached_text, "OpenLess"), in_cached),
        call_ensures(backend_config, (home, data, cache), r),
    ensures
        r is Ok <==> home is Some || (data is Some && cache is Some),
        r is Ok && data is Some ==> r->Ok_0.data_dir@ == in_data@,
        r is Ok && data is None ==> r->Ok_0.data_dir@ == in_share@,
        r is Ok && cache is Some ==> r->Ok_0.cache_dir@ == in_cache@,
        r is Ok && cache is None ==> r->Ok_0.cache_dir@ == in_cached@,
        r is Err && data is None ==> r->Err_0@ == "HOME/XDG_DATA_HOME is unavailable"@,
        r is Err && data is Some ==> r->Err_0@ == "HOME/XDG_CACHE_HOME is unavailable"@,
{
}

} // verus!
