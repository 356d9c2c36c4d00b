//! The Linux host between the desktop and the backend: key events, launch
//! requests, and the queue of backend events.

use crate::types::{BackendError, BackendErrorCode, PolishMode};
use vstd::prelude::*;

verus! {

/// What the queue of backend events answers.
#[derive(Clone, Copy, PartialEq, Eq, Structural, Debug)]
pub enum Received {
    /// An event, by the host's number for it.
    Event(u64),
    Empty,
    /// So many events were dropped.
    Lagged(u64),
    Closed,
}

#[derive(Clone, Copy, PartialEq, Eq, Structural, Debug)]
pub enum EventDrainOutcome {
    Idle { processed: usize },
    /// The view has to be rebuilt from a snapshot.
    Lagged { processed: usize, dropped: u64 },
    Closed { processed: usize },
}

/// How many events come before anything else.
pub open spec fn leading_events(feed: Seq<Received>) -> nat
    decreases feed.len(),
{
    if feed.len() > 0 && feed[0] is Event {
        1 + leading_events(feed.drop_first())
    } else {
        0
    }
}

proof fn lemma_leading_events(feed: Seq<Received>, n: int)
    requires
        0 <= n <= feed.len(),
        forall|i: int| 0 <= i < n ==> #[trigger] feed[i] is Event,
        n == feed.len() || !(feed[n] is Event),
    ensures
        leading_events(feed) == n,
    decreases feed.len(),
{
    if n > 0 {
        let rest = feed.drop_first();
        assert(feed[0] is Event);
        assert forall|i: int| 0 <= i < n - 1 implies #[trigger] rest[i] is Event by {
            assert(rest[i] == feed[i + 1]);
        }
        if n < feed.len() {
            assert(rest[n - 1] == feed[n]);
        }
        lemma_leading_events(rest, n - 1);
    }
}

/// Takes every event that is there, and says why it stopped. `feed` is what
/// the queue answers, one after the other; past its end there is nothing.
pub fn drain_events(feed: &Vec<Received>) -> (r: (Vec<u64>, EventDrainOutcome))
    ensures
        ({
            let n = leading_events(feed@);
            &&& n <= feed@.len()
            &&& r.0@.len() == n
            &&& forall|i: int|
                0 <= i < n ==> feed@[i] == Received::Event(#[trigger] r.0@[i])
            &&& r.1 == (if n == feed@.len() || feed@[n as int] == Received::Empty {
                EventDrainOutcome::Idle { processed: n as usize }
            } else if feed@[n as int] == Received::Closed {
                EventDrainOutcome::Closed { processed: n as usize }
            } else {
                EventDrainOutcome::Lagged {
                    processed: n as usize,
                    dropped: feed@[n as int]->Lagged_0,
                }
            })
        }),
{
    let mut applied: Vec<u64> = Vec::new();
    let mut i: usize = 0;
    while i < feed.len()
        invariant
            i <= feed.len(),
            applied@.len() == i,
            forall|k: int| 0 <= k < i ==> #[trigger] feed@[k] is Event,
            forall|k: int| 0 <= k < i ==> feed@[k] == Received::Event(#[trigger] applied@[k]),
        decreases feed.len() - i,
    {
        match feed[i] {
            Received::Event(e) => {
                applied.push(e);
            },
            Received::Empty => {
                proof {
                    lemma_leading_events(feed@, i as int);
                }
                return (applied, EventDrainOutcome::Idle { processed: i });
            },
            Received::Lagged(dropped) => {
                proof {
                    lemma_leading_events(feed@, i as int);
                }
                return (applied, EventDrainOutcome::Lagged { processed: i, dropped });
            },
            Received::Closed => {
                proof {
                    lemma_leading_events(feed@, i as int);
                }
                return (applied, EventDrainOutcome::Closed { processed: i });
            },
        }
        i = i + 1;
    }
    proof {
        lemma_leading_events(feed@, i as int);
    }
    (applied, EventDrainOutcome::Idle { processed: i })
}

/// An edge of a key.
#[derive(Clone, Copy, PartialEq, Eq, Structural, Debug)]
pub enum DictationHotkeyEdge {
    Pressed { at: u64 },
    Released { at: u64 },
    /// Another key joined.
    Combined,
}

/// A key event of the plugin.
#[derive(Clone, Copy, PartialEq, Eq, Structural, Debug)]
pub enum LinuxHotkeyEvent {
    LessComputerPressed { at: u64 },
    LessComputerReleased { at: u64 },
    LessComputerCombined,
    DictationPressed { at: u64 },
    DictationReleased { at: u64 },
    DictationCombined,
    QaPressed,
    SelectionPolishPressed,
    TranslationPressed,
}

/// What a key event asks of the backend.
#[derive(Clone, Copy, PartialEq, Eq, Structural, Debug)]
pub enum HotkeyStep {
    LessComputer(DictationHotkeyEdge),
    /// The wish for a translation comes with a press.
    Dictation { edge: DictationHotkeyEdge, translation_requested: bool },
    ToggleQa,
    /// Polish the selection in the style that the preferences name.
    PolishSelection,
    Nothing,
}

/// What the polishing of a selection is asked for with.
#[derive(Debug)]
pub struct SelectionPolishRequest {
    /// The words to polish; absent, those that are selected.
    pub selected_text: Option<String>,
    pub mode: PolishMode,
    pub instruction: Option<String>,
}

/// Polishes the selection in the mode of the style that the preferences name.
/// Without that style nothing is polished.
pub fn selection_polish_request(style: Result<PolishMode, BackendError>) -> (r: Result<
    SelectionPolishRequest,
    BackendError,
>)
    ensures
        r == (match style {
            Ok(mode) => Ok::<SelectionPolishRequest, BackendError>(
                SelectionPolishRequest { selected_text: None, mode, instruction: None },
            ),
            Err(e) => Err(e),
        }),
{
    match style {
        Ok(mode) => Ok(SelectionPolishRequest { selected_text: None, mode, instruction: None }),
        Err(e) => Err(e),
    }
}

/// What the agent's key asks for, as the backend decides it.
#[derive(Clone, Copy, PartialEq, Eq, Structural, Debug)]
pub enum LessComputerHotkeyAction {
    Start,
    Finish,
    Cancel,
    Noop,
}

/// What to do with the agent's recording.
#[derive(Clone, Copy, PartialEq, Eq, Structural, Debug)]
pub enum VoiceStep {
    Start,
    Finish(u64),
    Cancel(u64),
    Nothing,
}

#[derive(Clone, Copy, PartialEq, Eq, Structural, Debug)]
pub enum WindowAction {
    ShowMain,
    FocusMain,
}

/// Why the program was started, here or by a second process.
#[derive(Clone, Copy, PartialEq, Eq, Structural, Debug)]
pub enum LinuxLaunchIntent {
    ShowMain,
    /// A command, by the host's number for it.
    Cli(u64),
}

/// What a launch asks for.
#[derive(Debug)]
pub enum LaunchStep {
    Windows(Vec<WindowAction>),
    Command(u64),
}

/// What the host remembers between events.
#[derive(Clone, Copy, PartialEq, Eq, Structural, Debug)]
pub struct LinuxHost {
    /// The next dictation is to be translated.
    pub translation_pending: bool,
    /// The agent's recording, by the host's number for it.
    pub less_computer_voice: Option<u64>,
}

/// What a key event asks for, and what is remembered of it.
pub open spec fn hotkey_step(
    host: LinuxHost,
    event: LinuxHotkeyEvent,
    dictation_idle: bool,
) -> (LinuxHost, HotkeyStep) {
    match event {
        LinuxHotkeyEvent::LessComputerPressed { at } => (
            host,
            HotkeyStep::LessComputer(DictationHotkeyEdge::Pressed { at }),
        ),
        LinuxHotkeyEvent::LessComputerReleased { at } => (
            host,
            HotkeyStep::LessComputer(DictationHotkeyEdge::Released { at }),
        ),
        LinuxHotkeyEvent::LessComputerCombined => (
            host,
            HotkeyStep::LessComputer(DictationHotkeyEdge::Combined),
        ),
        LinuxHotkeyEvent::DictationPressed { at } => (
            LinuxHost { translation_pending: false, ..host },
            HotkeyStep::Dictation {
                edge: DictationHotkeyEdge::Pressed { at },
                translation_requested: host.translation_pending,
            },
        ),
        LinuxHotkeyEvent::DictationReleased { at } => (
            host,
            HotkeyStep::Dictation {
                edge: DictationHotkeyEdge::Released { at },
                translation_requested: false,
            },
        ),
        LinuxHotkeyEvent::DictationCombined => (
            host,
            HotkeyStep::Dictation {
                edge: DictationHotkeyEdge::Combined,
                translation_requested: false,
            },
        ),
        LinuxHotkeyEvent::QaPressed => (host, HotkeyStep::ToggleQa),
        LinuxHotkeyEvent::SelectionPolishPressed => (host, HotkeyStep::PolishSelection),
        LinuxHotkeyEvent::TranslationPressed => (
            if dictation_idle {
                LinuxHost { translation_pending: true, ..host }
            } else {
                host
            },
            HotkeyStep::Nothing,
        ),
    }
}

impl LinuxHost {
    pub fn new() -> (r: Self)
        ensures
            r == (LinuxHost { translation_pending: false, less_computer_voice: None }),
    {
        LinuxHost { translation_pending: false, less_computer_voice: None }
    }

    /// What a launch asks for.
    pub fn dispatch_launch_intent(intent: LinuxLaunchIntent) -> (r: LaunchStep)
        ensures
            match intent {
                LinuxLaunchIntent::ShowMain => r matches LaunchStep::Windows(w) && w@ == seq![
                    WindowAction::ShowMain,
                    WindowAction::FocusMain,
                ],
                LinuxLaunchIntent::Cli(c) => r == LaunchStep::Command(c),
            },
    {
        match intent {
            LinuxLaunchIntent::ShowMain => LaunchStep::Windows(
                vec![WindowAction::ShowMain, WindowAction::FocusMain],
            ),
            LinuxLaunchIntent::Cli(c) => LaunchStep::Command(c),
        }
    }

    /// What a key event asks for. The translation key arms the next dictation
    /// and does nothing while one is running.
    pub fn dispatch_hotkey_event(&mut self, event: LinuxHotkeyEvent, dictation_idle: bool) -> (r:
        HotkeyStep)
        ensures
            (*final(self), r) == hotkey_step(*old(self), event, dictation_idle),
    {
        match event {
            LinuxHotkeyEvent::LessComputerPressed { at } => HotkeyStep::LessComputer(
                DictationHotkeyEdge::Pressed { at },
            ),
            LinuxHotkeyEvent::LessComputerReleased { at } => HotkeyStep::LessComputer(
                DictationHotkeyEdge::Released { at },
            ),
            LinuxHotkeyEvent::LessComputerCombined => HotkeyStep::LessComputer(
                DictationHotkeyEdge::Combined,
            ),
            LinuxHotkeyEvent::DictationPressed { at } => {
                let translation_requested: bool = self.translation_pending;
                self.translation_pending = false;
                HotkeyStep::Dictation {
                    edge: DictationHotkeyEdge::Pressed { at },
                    translation_requested,
                }
            },
            LinuxHotkeyEvent::DictationReleased { at } => HotkeyStep::Dictation {
                edge: DictationHotkeyEdge::Released { at },
                translation_requested: false,
            },
            LinuxHotkeyEvent::DictationCombined => HotkeyStep::Dictation {
                edge: DictationHotkeyEdge::Combined,
                translation_requested: false,
            },
            LinuxHotkeyEvent::QaPressed => HotkeyStep::ToggleQa,
            LinuxHotkeyEvent::SelectionPolishPressed => HotkeyStep::PolishSelection,
            LinuxHotkeyEvent::TranslationPressed => {
                if dictation_idle {
                    self.translation_pending = true;
                }
                HotkeyStep::Nothing
            },
        }
    }

    /// What to do with the agent's recording. It is given out once.
    pub fn dispatch_less_computer_edge(&mut self, action: LessComputerHotkeyAction) -> (r: VoiceStep)
        ensures
            final(self).translation_pending == old(self).translation_pending,
            final(self).less_computer_voice == (if action == LessComputerHotkeyAction::Finish
                || action == LessComputerHotkeyAction::Cancel {
                None
            } else {
                old(self).less_computer_voice
            }),
            r == (match action {
                LessComputerHotkeyAction::Start => VoiceStep::Start,
                LessComputerHotkeyAction::Finish => match old(self).less_computer_voice {
                    Some(v) => VoiceStep::Finish(v),
                    None => VoiceStep::Nothing,
                },
                LessComputerHotkeyAction::Cancel => match old(self).less_computer_voice {
                    Some(v) => VoiceStep::Cancel(v),
                    None => VoiceStep::Nothing,
                },
                LessComputerHotkeyAction::Noop => VoiceStep::Nothing,
            }),
    {
        match action {
            LessComputerHotkeyAction::Start => VoiceStep::Start,
            LessComputerHotkeyAction::Finish => {
                let voice: Option<u64> = self.less_computer_voice;
                self.less_computer_voice = None;
                match voice {
                    Some(v) => VoiceStep::Finish(v),
                    None => VoiceStep::Nothing,
                }
            },
            LessComputerHotkeyAction::Cancel => {
                let voice: Option<u64> = self.less_computer_voice;
                self.less_computer_voice = None;
                match voice {
                    Some(v) => VoiceStep::Cancel(v),
                    None => VoiceStep::Nothing,
                }
            },
            LessComputerHotkeyAction::Noop => VoiceStep::Nothing,
        }
    }

    /// The agent's recording was to start.
    pub fn less_computer_started(&mut self, started: Result<u64, BackendError>) -> (r: Result<
        (),
        BackendError,
    >)
        ensures
            match started {
                Ok(v) => r is Ok && *final(self) == (LinuxHost {
                    less_computer_voice: Some(v),
                    ..*old(self)
                }),
                Err(e) => r == Err::<(), BackendError>(e) && *final(self) == *old(self),
            },
    {
        match started {
            Ok(v) => {
                self.less_computer_voice = Some(v);
                Ok(())
            },
            Err(e) => Err(e),
        }
    }

    /// The recording that some sound belongs to.
    pub fn feed_less_computer_pcm(&self) -> (r: Result<u64, BackendError>)
        ensures
            match r {
                Ok(v) => self.less_computer_voice == Some(v),
                Err(e) => self.less_computer_voice is None && e.is(
                    BackendErrorCode::InvalidState,
                    "Less Computer voice session is not active"@,
                ),
            },
    {
        match self.less_computer_voice {
            Some(v) => Ok(v),
            None => Err(
                BackendError::new(
                    BackendErrorCode::InvalidState,
                    "Less Computer voice session is not active",
                ),
            ),
        }
    }
}

/// What one round of the host's loop did.
#[derive(Debug)]
pub struct LinuxRuntimePumpResult {
    pub launch_intents: usize,
    pub hotkey_events: usize,
    /// Outcomes, by the host's numbers for them.
    pub outcomes: Vec<u64>,
    pub errors: Vec<BackendError>,
}

/// What a listener had.
#[derive(Debug)]
pub struct Drained<E> {
    pub count: usize,
    pub error: Option<E>,
}

/// `r` is what the two listeners had, with their errors in this order.
pub open spec fn has_drained(
    r: LinuxRuntimePumpResult,
    broker: Option<Drained<String>>,
    hotkeys: Option<Drained<BackendError>>,
) -> bool {
    let first = broker is Some && broker->0.error is Some;
    let second = hotkeys is Some && hotkeys->0.error is Some;
    &&& r.launch_intents == (match broker {
        Some(b) => b.count,
        None => 0,
    })
    &&& r.hotkey_events == (match hotkeys {
        Some(h) => h.count,
        None => 0,
    })
    &&& r.outcomes@.len() == 0
    &&& r.errors@.len() == (if first {
        1int
    } else {
        0
    }) + (if second {
        1int
    } else {
        0
    })
    &&& first ==> r.errors@[0].is(BackendErrorCode::Platform, broker->0.error->0@)
    &&& second ==> r.errors@.last() == hotkeys->0.error->0
}

/// Begins a round: what the two listeners had, with their errors in this
/// order. A listener that is not there has nothing.
fn begin_round(broker: Option<Drained<String>>, hotkeys: Option<Drained<BackendError>>) -> (r:
    LinuxRuntimePumpResult)
    ensures
        has_drained(r, broker, hotkeys),
{
    let mut launch_intents: usize = 0;
    let mut hotkey_events: usize = 0;
    let mut errors: Vec<BackendError> = Vec::new();
    if let Some(b) = broker {
        launch_intents = b.count;
        if let Some(e) = b.error {
            errors.push(BackendError::new(BackendErrorCode::Platform, e.as_str()));
        }
    }
    if let Some(h) = hotkeys {
        hotkey_events = h.count;
        if let Some(e) = h.error {
            errors.push(e);
        }
    }
    LinuxRuntimePumpResult { launch_intents, hotkey_events, outcomes: Vec::new(), errors }
}

/// What the host does to stop.
#[derive(Clone, Copy, PartialEq, Eq, Structural, Debug)]
pub enum ShutdownStep {
    /// Stop a listener and wait for it.
    DropListener(u64),
    ShutDownBackend,
}

/// The listeners that run beside the backend, by the host's numbers for them.
#[derive(Debug)]
pub struct LinuxNativeRuntime {
    pub host: LinuxHost,
    pub broker: Option<u64>,
    pub hotkeys: Option<u64>,
}

/// The steps that stop the listeners and then the backend.
pub open spec fn shutdown_steps(broker: Option<u64>, hotkeys: Option<u64>) -> Seq<ShutdownStep> {
    (match hotkeys {
        Some(h) => seq![ShutdownStep::DropListener(h)],
        None => Seq::empty(),
    }) + (match broker {
        Some(b) => seq![ShutdownStep::DropListener(b)],
        None => Seq::empty(),
    }) + seq![ShutdownStep::ShutDownBackend]
}

impl LinuxNativeRuntime {
    /// Takes the listeners over once the backend runs.
    pub fn start(
        started: Result<(), BackendError>,
        broker: Option<u64>,
        hotkeys: Option<u64>,
    ) -> (r: Result<Self, BackendError>)
        ensures
            match started {
                Err(e) => r == Err::<Self, BackendError>(e),
                Ok(()) => r matches Ok(n) && n.broker == broker && n.hotkeys == hotkeys && n.host
                    == (LinuxHost { translation_pending: false, less_computer_voice: None }),
            },
    {
        match started {
            Err(e) => Err(e),
            Ok(()) => Ok(LinuxNativeRuntime { host: LinuxHost::new(), broker, hotkeys }),
        }
    }

    /// Begins a round with what the listeners had. One that is not there has
    /// nothing.
    pub fn pump(&self, broker: Drained<String>, hotkeys: Drained<BackendError>) -> (r:
        LinuxRuntimePumpResult)
        ensures
            has_drained(
                r,
                if self.broker is Some {
                    Some(broker)
                } else {
                    None
                },
                if self.hotkeys is Some {
                    Some(hotkeys)
                } else {
                    None
                },
            ),
    {
        let broker: Option<Drained<String>> = if self.broker.is_some() {
            Some(broker)
        } else {
            None
        };
        let hotkeys: Option<Drained<BackendError>> = if self.hotkeys.is_some() {
            Some(hotkeys)
        } else {
            None
        };
        begin_round(broker, hotkeys)
    }

    /// Stops the listeners, and only after them the backend.
    pub fn shutdown(self) -> (r: Vec<ShutdownStep>)
        ensures
            r@ == shutdown_steps(self.broker, self.hotkeys),
    {
        let mut steps: Vec<ShutdownStep> = Vec::new();
        if let Some(h) = self.hotkeys {
            steps.push(ShutdownStep::DropListener(h));
        }
        if let Some(b) = self.broker {
            steps.push(ShutdownStep::DropListener(b));
        }
        steps.push(ShutdownStep::ShutDownBackend);
        proof {
            assert(steps@ =~= shutdown_steps(self.broker, self.hotkeys));
        }
        steps
    }
}

/// No listener outlives the backend: the backend is shut down last, and every
/// listener is stopped before it.
pub proof fn law_backend_stops_last(broker: Option<u64>, hotkeys: Option<u64>)
    ensures
        ({
            let steps = shutdown_steps(broker, hotkeys);
            &&& steps.last() == ShutdownStep::ShutDownBackend
            &&& forall|i: int|
                0 <= i < steps.len() - 1 ==> (#[trigger] steps[i]) is DropListener
            &&& broker is Some ==> steps.contains(ShutdownStep::DropListener(broker->0))
            &&& hotkeys is Some ==> steps.contains(ShutdownStep::DropListener(hotkeys->0))
        }),
{
    let steps = shutdown_steps(broker, hotkeys);
    if hotkeys is Some {
        assert(steps[0] == ShutdownStep::DropListener(hotkeys->0));
    }
    if broker is Some {
        assert(steps[steps.len() - 2] == ShutdownStep::DropListener(broker->0));
    }
}

impl LinuxRuntimePumpResult {
    /// Takes down what came of one event.
    pub fn collect(&mut self, outcome: Result<Option<u64>, BackendError>)
        ensures
            final(self).launch_intents == old(self).launch_intents,
            final(self).hotkey_events == old(self).hotkey_events,
            match outcome {
                Ok(Some(o)) => final(self).outcomes@ == old(self).outcomes@.push(o) && final(
                    self).errors@ == old(self).errors@,
                Ok(None) => final(self).outcomes@ == old(self).outcomes@ && final(self).errors@
                    == old(self).errors@,
                Err(e) => final(self).outcomes@ == old(self).outcomes@ && final(self).errors@
                    == old(self).errors@.push(e),
            },
    {
        match outcome {
            Ok(Some(o)) => {
                self.outcomes.push(o);
            },
            Ok(None) => {},
            Err(e) => {
                self.errors.push(e);
            },
        }
    }
}

/// The translation key arms one dictation: the next press spends it.
pub proof fn law_translation_is_armed_once(host: LinuxHost, at: u64, later: u64)
    ensures
        ({
            let armed = hotkey_step(host, LinuxHotkeyEvent::TranslationPressed, true).0;
            let first = hotkey_step(armed, LinuxHotkeyEvent::DictationPressed { at }, true);
            let second = hotkey_step(
                first.0,
                LinuxHotkeyEvent::DictationPressed { at: later },
                true,
            );
            &&& first.1 == (HotkeyStep::Dictation {
                edge: DictationHotkeyEdge::Pressed { at },
                translation_requested: true,
            })
            &&& second.1 == (HotkeyStep::Dictation {
                edge: DictationHotkeyEdge::Pressed { at: later },
                translation_requested: false,
            })
        }),
{
}

/// The events are taken one by one, in their order, until something else comes: an
/// event in front goes in front of what is taken of the rest.
pub proof fn law_events_are_taken_in_order(
    feed: &Vec<Received>,
    rest: &Vec<Received>,
    r: (Vec<u64>, EventDrainOutcome),
    q: (Vec<u64>, EventDrainOutcome),
)
    requires
        feed@.len() > 0,
        rest@ == feed@.drop_first(),
        call_ensures(drain_events, (feed,), r),
        call_ensures(drain_events, (rest,), q),
    ensures
        feed@[0] == Received::Empty ==> r.0@.len() == 0 && r.1 == (EventDrainOutcome::Idle {
            processed: 0,
        }),
        feed@[0] == Received::Closed ==> r.0@.len() == 0 && r.1 == (EventDrainOutcome::Closed {
            processed: 0,
        }),
        (feed@[0] matches Received::Lagged(n) ==> r.0@.len() == 0 && r.1 == (
        EventDrainOutcome::Lagged { processed: 0, dropped: n })),
        (feed@[0] matches Received::Event(e) ==> {
            &&& r.0@ == seq![e] + q.0@
            &&& r.1 is Idle <==> q.1 is Idle
            &&& r.1 is Closed <==> q.1 is Closed
            &&& r.1 is Lagged ==> r.1->dropped == q.1->dropped
        }),
{
    reveal_with_fuel(leading_events, 2);
    if feed@[0] is Event {
        let n = leading_events(rest@) as int;
        assert(leading_events(feed@) == n + 1);
        assert forall|i: int| 0 <= i < n implies #[trigger] r.0@[i + 1] == q.0@[i] by {
            assert(feed@[i + 1] == Received::Event(r.0@[i + 1]));
            assert(rest@[i] == Received::Event(q.0@[i]));
            assert(rest@[i] == feed@[i + 1]);
        }
        assert(feed@[0] == Received::Event(r.0@[0]));
        assert forall|i: int| 0 <= i < r.0@.len() implies #[trigger] r.0@[i] == (seq![
            feed@[0]->Event_0,
        ] + q.0@)[i] by {
            if i > 0 {
                assert(r.0@[(i - 1) + 1] == q.0@[i - 1]);
            }
        }
        assert(r.0@ =~= seq![feed@[0]->Event_0] + q.0@);
        if n < rest@.len() {
            assert(rest@[n] == feed@[n + 1]);
        }
    }
}

/// As many events are counted as were taken, and without anything in the queue the
/// host is idle.
pub proof fn law_events_are_counted(feed: &Vec<Received>, r: (Vec<u64>, EventDrainOutcome))
    requires
        call_ensures(drain_events, (feed,), r),
    ensures
        (r.1 matches EventDrainOutcome::Idle { processed } ==> processed == r.0@.len()),
        (r.1 matches EventDrainOutcome::Closed { processed } ==> processed == r.0@.len()),
        (r.1 matches EventDrainOutcome::Lagged { processed, dropped } ==> processed == r.0@.len()),
        feed@.len() == 0 ==> r.1 is Idle,
{
    assert(feed@.len() == feed.len());
}

/// The polishing of a selection is asked for in the style's mode, for the words that
/// are selected, and fails only where the style is missing.
pub proof fn law_selection_is_polished_in_its_style(
    style: Result<PolishMode, BackendError>,
    r: Result<SelectionPolishRequest, BackendError>,
)
    requires
        call_ensures(selection_polish_request, (style,), r),
    ensures
        r is Ok <==> style is Ok,
        r is Err ==> r->Err_0 == style->Err_0,
        r is Ok ==> r->Ok_0.mode == style->Ok_0 && r->Ok_0.selected_text is None
            && r->Ok_0.instruction is None,
{
}

/// A launch shows the window and then brings it to the front, or hands its command on.
pub proof fn law_launch_is_answered(intent: LinuxLaunchIntent, r: LaunchStep)
    requires
        call_ensures(LinuxHost::dispatch_launch_intent, (intent,), r),
    ensures
        (intent matches LinuxLaunchIntent::Cli(c) ==> r == LaunchStep::Command(c)),
        intent is ShowMain ==> r is Windows && r->Windows_0@.len() == 2 && r->Windows_0@[0]
            == WindowAction::ShowMain && r->Windows_0@[1] == WindowAction::FocusMain,
{
}

/// Every key reaches what it is for, with its edge and its time, and the agent's
/// recording is left alone.
pub proof fn law_keys_reach_their_purpose(
    host: &mut LinuxHost,
    event: LinuxHotkeyEvent,
    idle: bool,
    r: HotkeyStep,
)
    requires
        call_ensures(LinuxHost::dispatch_hotkey_event, (host, event, idle), r),
    ensures
        final(host).less_computer_voice == old(host).less_computer_voice,
        r is ToggleQa <==> event is QaPressed,
        r is PolishSelection <==> event is SelectionPolishPressed,
        r is Nothing <==> event is TranslationPressed,
        (event matches LinuxHotkeyEvent::LessComputerPressed { at } ==> r
            == HotkeyStep::LessComputer(DictationHotkeyEdge::Pressed { at })),
        (event matches LinuxHotkeyEvent::LessComputerReleased { at } ==> r
            == HotkeyStep::LessComputer(DictationHotkeyEdge::Released { at })),
        event is LessComputerCombined ==> r == HotkeyStep::LessComputer(
            DictationHotkeyEdge::Combined,
        ),
        (event matches LinuxHotkeyEvent::DictationPressed { at } ==> r is Dictation && r->edge
            == DictationHotkeyEdge::Pressed { at }),
        (event matches LinuxHotkeyEvent::DictationReleased { at } ==> r is Dictation && r->edge
            == DictationHotkeyEdge::Released { at }),
        event is DictationCombined ==> r is Dictation && r->edge == DictationHotkeyEdge::Combined,
        r is Dictation ==> (r->translation_requested <==> event is DictationPressed
            && old(host).translation_pending),
{
}

/// A wish for a translation is kept until the next dictation begins, and is made only
/// with the translation key and only while no dictation runs.
pub proof fn law_translation_waits_for_its_dictation(
    host: &mut LinuxHost,
    event: LinuxHotkeyEvent,
    idle: bool,
    r: HotkeyStep,
)
    requires
        call_ensures(LinuxHost::dispatch_hotkey_event, (host, event, idle), r),
    ensures
        event is DictationPressed ==> !final(host).translation_pending,
        event is TranslationPressed && idle ==> final(host).translation_pending,
        event is TranslationPressed && !idle ==> final(host).translation_pending
            == old(host).translation_pending,
        !(event is DictationPressed) && old(host).translation_pending
            ==> final(host).translation_pending,
        !(event is TranslationPressed) && !old(host).translation_pending
            ==> !final(host).translation_pending,
{
}

/// The recording that was started is the one that sound belongs to and that is
/// finished or cancelled, once.
pub proof fn law_agent_recording_is_ended_once(
    fresh: &mut LinuxHost,
    running: &mut LinuxHost,
    done: &mut LinuxHost,
    id: u64,
    action: LessComputerHotkeyAction,
    again: LessComputerHotkeyAction,
    started: Result<(), BackendError>,
    fed: Result<u64, BackendError>,
    first: VoiceStep,
    second: VoiceStep,
    after: Result<u64, BackendError>,
)
    requires
        call_ensures(
            LinuxHost::less_computer_started,
            (fresh, Ok::<u64, BackendError>(id)),
            started,
        ),
        *running == *final(fresh),
        call_ensures(LinuxHost::feed_less_computer_pcm, (&*running,), fed),
        call_ensures(LinuxHost::dispatch_less_computer_edge, (running, action), first),
        *done == *final(running),
        call_ensures(LinuxHost::feed_less_computer_pcm, (&*done,), after),
        call_ensures(LinuxHost::dispatch_less_computer_edge, (done, again), second),
    ensures
        started is Ok,
        fed == Ok::<u64, BackendError>(id),
        action == LessComputerHotkeyAction::Start ==> first == VoiceStep::Start,
        action == LessComputerHotkeyAction::Noop ==> first == VoiceStep::Nothing,
        action == LessComputerHotkeyAction::Finish ==> first == VoiceStep::Finish(id),
        action == LessComputerHotkeyAction::Cancel ==> first == VoiceStep::Cancel(id),
        first is Finish || first is Cancel ==> after is Err && !(second is Finish) && !(
        second is Cancel),
        first is Start || first is Nothing ==> after == fed,
        final(done).translation_pending == old(fresh).translation_pending,
{
}

/// A recording that could not start leaves everything as it was, and a new host has
/// none.
pub proof fn law_failed_start_changes_nothing(
    host: &mut LinuxHost,
    why: BackendError,
    made: LinuxHost,
    r: Result<(), BackendError>,
    fed: Result<u64, BackendError>,
)
    requires
        call_ensures(
            LinuxHost::less_computer_started,
            (host, Err::<u64, BackendError>(why)),
            r,
        ),
        call_ensures(LinuxHost::new, (), made),
        call_ensures(LinuxHost::feed_less_computer_pcm, (&made,), fed),
    ensures
        r == Err::<(), BackendError>(why),
        *final(host) == *old(host),
        !made.translation_pending,
        fed is Err && fed->Err_0.code == BackendErrorCode::InvalidState,
{
}

/// A round counts what each listener had and tells its error; a listener that is not
/// there counts nothing.
pub proof fn law_round_tells_what_listeners_had(
    runtime: &LinuxNativeRuntime,
    broker: Drained<String>,
    hotkeys: Drained<BackendError>,
    r: LinuxRuntimePumpResult,
)
    requires
        call_ensures(LinuxNativeRuntime::pump, (runtime, broker, hotkeys), r),
    ensures
        r.outcomes@.len() == 0,
        runtime.broker is Some ==> r.launch_intents == broker.count,
        runtime.broker is None ==> r.launch_intents == 0,
        runtime.hotkeys is Some ==> r.hotkey_events == hotkeys.count,
        runtime.hotkeys is None ==> r.hotkey_events == 0,
        runtime.broker is Some && broker.error is Some ==> r.errors@.len() > 0 && r.errors@[0].code
            == BackendErrorCode::Platform && r.errors@[0].message@ == broker.error->0@,
        runtime.hotkeys is Some && hotkeys.error is Some ==> r.errors@.contains(hotkeys.error->0),
        r.errors@.len() <= 2,
        r.errors@.len() == 0 <==> !(runtime.broker is Some && broker.error is Some) && !(
        runtime.hotkeys is Some && hotkeys.error is Some),
        r.errors@.len() == 2 <==> runtime.broker is Some && broker.error is Some && runtime.hotkeys
            is Some && hotkeys.error is Some,
{
    if runtime.hotkeys is Some && hotkeys.error is Some {
        assert(r.errors@[r.errors@.len() - 1] == hotkeys.error->0);
    }
}

/// Listeners are taken over once the backend runs; stopping ends each of them before
/// the backend, and nothing else.
pub proof fn law_every_listener_is_stopped(
    started: Result<(), BackendError>,
    broker: Option<u64>,
    hotkeys: Option<u64>,
    r: Result<LinuxNativeRuntime, BackendError>,
    steps: Vec<ShutdownStep>,
)
    requires
        call_ensures(LinuxNativeRuntime::start, (started, broker, hotkeys), r),
        r is Ok ==> call_ensures(LinuxNativeRuntime::shutdown, (r->Ok_0,), steps),
    ensures
        r is Ok <==> started is Ok,
        r is Err ==> r->Err_0 == started->Err_0,
        r is Ok ==> {
            &&& !r->Ok_0.host.translation_pending && r->Ok_0.host.less_computer_voice is None
            &&& steps@.last() == ShutdownStep::ShutDownBackend
            &&& steps@.len() == 1 + (if broker is Some {
                1int
            } else {
                0
            }) + (if hotkeys is Some {
                1int
            } else {
                0
            })
            &&& (broker matches Some(b) ==> steps@.drop_last().contains(
                ShutdownStep::DropListener(b),
            ))
            &&& (hotkeys matches Some(h) ==> steps@.drop_last().contains(
                ShutdownStep::DropListener(h),
            ))
        },
{
    if r is Ok {
        let before = steps@.drop_last();
        if hotkeys is Some {
            assert(before[0] == ShutdownStep::DropListener(hotkeys->0));
        }
        if broker is Some {
            assert(before[before.len() - 1] == ShutdownStep::DropListener(broker->0));
        }
    }
}

/// What came of an event is kept behind what came before: an outcome with the
/// outcomes, a failure with the errors.
pub proof fn law_outcomes_are_collected(
    result: &mut LinuxRuntimePumpResult,
    outcome: Result<Option<u64>, BackendError>,
)
    requires
        call_ensures(LinuxRuntimePumpResult::collect, (result, outcome), ()),
    ensures
        outcome is Err ==> final(result).errors@.len() == old(result).errors@.len() + 1
            && final(result).errors@.last() == outcome->Err_0,
        outcome is Ok ==> final(result).errors@ == old(result).errors@,
        (outcome matches Ok(Some(o)) ==> final(result).outcomes@.len() == old(result).outcomes@.len() + 1
            && final(result).outcomes@.last() == o),
        !(outcome matches Ok(Some(_))) ==> final(result).outcomes@ == old(result).outcomes@,
        forall|i: int|
            0 <= i < old(result).outcomes@.len() ==> final(result).outcomes@[i]
                == #[trigger] old(result).outcomes@[i],
        final(result).hotkey_events == old(result).hotkey_events,
        final(result).launch_intents == old(result).launch_intents,
{
}

} // verus!
