//! The dictation key when the shared backend runs the session: what its edges
//! set off, what cancelling reaches, and what the agent's panel is shown when
//! it opens late.

use crate::linux_host::DictationHotkeyEdge;
use crate::session::{debounced, elapsed_ms, elapsed_spec, HOTKEY_DEBOUNCE_MS, POST_SESSION_COOLDOWN_MS};
use crate::text::str_eq;
use crate::types::{BackendError, BackendErrorCode, Platform};
use vstd::prelude::*;

verus! {

/// What the host remembers between edges.
#[derive(Clone, Copy, PartialEq, Eq, Structural, Debug)]
pub struct TriggerState {
    pub trigger_held: bool,
    /// The press that is under way, by its number.
    pub press_generation: u64,
    /// The press that began a session, or zero.
    pub press_began_session: u64,
    pub last_dispatch_ms: Option<u64>,
    pub cooldown_until_ms: Option<u64>,
    pub translation_active: bool,
}

impl TriggerState {
    pub fn new() -> (r: Self)
        ensures
            r == (TriggerState {
                trigger_held: false,
                press_generation: 0,
                press_began_session: 0,
                last_dispatch_ms: None,
                cooldown_until_ms: None,
                translation_active: false,
            }),
    {
        TriggerState {
            trigger_held: false,
            press_generation: 0,
            press_began_session: 0,
            last_dispatch_ms: None,
            cooldown_until_ms: None,
            translation_active: false,
        }
    }
}

/// The end of the pause after a session that ended now.
pub open spec fn pause_end(now_ms: u64) -> u64 {
    if now_ms + POST_SESSION_COOLDOWN_MS <= u64::MAX {
        (now_ms + POST_SESSION_COOLDOWN_MS) as u64
    } else {
        u64::MAX
    }
}

/// What is remembered once a session has ended.
pub open spec fn bookkept(s: TriggerState, now_ms: u64) -> TriggerState {
    TriggerState { translation_active: false, cooldown_until_ms: Some(pause_end(now_ms)), ..s }
}

/// A session has ended: the wish for a translation is spent, and a pause
/// begins.
pub fn finish_bookkeeping(state: &mut TriggerState, now_ms: u64)
    ensures
        *final(state) == bookkept(*old(state), now_ms),
{
    state.translation_active = false;
    let end: u64 = if now_ms <= u64::MAX - POST_SESSION_COOLDOWN_MS {
        now_ms + POST_SESSION_COOLDOWN_MS
    } else {
        u64::MAX
    };
    state.cooldown_until_ms = Some(end);
}

/// What a press sets off.
#[derive(Clone, Copy, PartialEq, Eq, Structural, Debug)]
pub enum PressStep {
    Ignored,
    /// The question panel takes the press.
    Qa,
    /// The backend takes the press.
    Dispatch(DictationHotkeyEdge),
}

/// What a press sets off, and what is remembered of it.
pub open spec fn pressed(
    s: TriggerState,
    pressed_at: u64,
    now_ms: u64,
    press_id: u64,
    panel_visible: bool,
    dictation_idle: bool,
) -> (TriggerState, PressStep) {
    if s.trigger_held {
        (s, PressStep::Ignored)
    } else {
        let held = TriggerState {
            trigger_held: true,
            press_generation: press_id,
            press_began_session: 0,
            ..s
        };
        if debounced(s.last_dispatch_ms, now_ms) {
            (held, PressStep::Ignored)
        } else {
            (
                TriggerState { last_dispatch_ms: Some(now_ms), ..held },
                if panel_visible && dictation_idle {
                    PressStep::Qa
                } else {
                    PressStep::Dispatch(DictationHotkeyEdge::Pressed { at: pressed_at })
                },
            )
        }
    }
}

/// The key went down at `pressed_at`, of which the backend is told.
pub fn handle_pressed_edge(
    state: &mut TriggerState,
    pressed_at: u64,
    now_ms: u64,
    press_id: u64,
    panel_visible: bool,
    dictation_idle: bool,
) -> (r: PressStep)
    ensures
        (*final(state), r) == pressed(
            *old(state),
            pressed_at,
            now_ms,
            press_id,
            panel_visible,
            dictation_idle,
        ),
{
    if state.trigger_held {
        return PressStep::Ignored;
    }
    state.trigger_held = true;
    state.press_generation = press_id;
    state.press_began_session = 0;
    let too_soon: bool = match state.last_dispatch_ms {
        Some(last) => elapsed_ms(last, now_ms) < HOTKEY_DEBOUNCE_MS,
        None => false,
    };
    if too_soon {
        return PressStep::Ignored;
    }
    state.last_dispatch_ms = Some(now_ms);
    if panel_visible && dictation_idle {
        PressStep::Qa
    } else {
        PressStep::Dispatch(DictationHotkeyEdge::Pressed { at: pressed_at })
    }
}

/// What the backend made of an edge.
#[derive(Clone, Copy, PartialEq, Eq, Structural, Debug)]
pub enum DispatchOutcome {
    DictationStarted,
    DictationCompleted,
    DictationCancelled,
    Other,
    Failed,
}

/// The session is over.
pub open spec fn ends_session(o: DispatchOutcome) -> bool {
    o == DispatchOutcome::DictationCompleted || o == DispatchOutcome::DictationCancelled
}

/// The backend has taken a press.
pub fn press_dispatched(
    state: &mut TriggerState,
    press_id: u64,
    outcome: DispatchOutcome,
    now_ms: u64,
)
    ensures
        *final(state) == (if outcome == DispatchOutcome::DictationStarted {
            TriggerState { press_began_session: press_id, ..*old(state) }
        } else if ends_session(outcome) {
            bookkept(*old(state), now_ms)
        } else {
            *old(state)
        }),
{
    match outcome {
        DispatchOutcome::DictationStarted => {
            state.press_began_session = press_id;
        },
        DispatchOutcome::DictationCompleted | DispatchOutcome::DictationCancelled => {
            finish_bookkeeping(state, now_ms);
        },
        DispatchOutcome::Other | DispatchOutcome::Failed => {},
    }
}

/// The key went up. The backend hears of it only if it was down.
pub fn handle_released_edge(state: &mut TriggerState, released_at: u64) -> (dispatch: Option<
    DictationHotkeyEdge,
>)
    ensures
        dispatch == (if old(state).trigger_held {
            Some(DictationHotkeyEdge::Released { at: released_at })
        } else {
            None
        }),
        *final(state) == (TriggerState { trigger_held: false, ..*old(state) }),
{
    let held: bool = state.trigger_held;
    state.trigger_held = false;
    if held {
        Some(DictationHotkeyEdge::Released { at: released_at })
    } else {
        None
    }
}

/// The backend has taken a release.
pub fn release_dispatched(state: &mut TriggerState, outcome: DispatchOutcome, now_ms: u64)
    ensures
        *final(state) == (if ends_session(outcome) {
            bookkept(*old(state), now_ms)
        } else {
            *old(state)
        }),
{
    match outcome {
        DispatchOutcome::DictationCompleted | DispatchOutcome::DictationCancelled => {
            finish_bookkeeping(state, now_ms);
        },
        _ => {},
    }
}

/// The press turned out to be part of a combination of keys.
pub open spec fn combined(s: TriggerState, press_id: u64) -> (TriggerState, bool) {
    if s.press_generation != press_id {
        (s, false)
    } else {
        let cleared = TriggerState { press_began_session: 0, ..s };
        if s.press_began_session != press_id {
            (cleared, false)
        } else {
            (TriggerState { trigger_held: false, ..cleared }, true)
        }
    }
}

/// Another key joined the press. The session that this very press began is
/// cancelled; a later press, or one that began nothing, is left alone.
pub fn handle_trigger_combined(state: &mut TriggerState, press_id: u64) -> (dispatch: Option<
    DictationHotkeyEdge,
>)
    ensures
        *final(state) == combined(*old(state), press_id).0,
        dispatch == (if combined(*old(state), press_id).1 {
            Some(DictationHotkeyEdge::Combined)
        } else {
            None
        }),
{
    if state.press_generation != press_id {
        return None;
    }
    let began: u64 = state.press_began_session;
    state.press_began_session = 0;
    if began != press_id {
        return None;
    }
    state.trigger_held = false;
    Some(DictationHotkeyEdge::Combined)
}

/// The backend was told to cancel because of a combination. Whatever it made of
/// that, the session counts as over.
pub fn combination_dispatched(state: &mut TriggerState, _outcome: DispatchOutcome, now_ms: u64)
    ensures
        *final(state) == bookkept(*old(state), now_ms),
{
    finish_bookkeeping(state, now_ms);
}

/// An edge as the backend is told of it, with the wish for a translation.
#[derive(Clone, Copy, PartialEq, Eq, Structural, Debug)]
pub struct DispatchOptions {
    /// The backend has to be started first.
    pub start_backend: bool,
    pub edge: DictationHotkeyEdge,
    pub start_translation: bool,
    /// Nothing where the session's own setting is to stand.
    pub stop_translation: Option<bool>,
}

/// How an edge is handed to the backend.
pub fn dispatch(state: &TriggerState, edge: DictationHotkeyEdge, backend_running: bool) -> (r:
    DispatchOptions)
    ensures
        r.start_backend == !backend_running,
        r.edge == edge,
        r.start_translation == state.translation_active,
        r.stop_translation == (if state.translation_active {
            Some(true)
        } else {
            None
        }),
{
    DispatchOptions {
        start_backend: !backend_running,
        edge,
        start_translation: state.translation_active,
        stop_translation: if state.translation_active {
            Some(true)
        } else {
            None
        },
    }
}

/// What runs at the moment.
#[derive(Clone, Copy, PartialEq, Eq, Structural, Debug)]
pub struct ActiveSessions {
    pub less_computer: bool,
    /// A spoken change of the selection, which only Windows has.
    pub selection_voice: Option<u128>,
    /// The turn of the question panel, if it is not idle. Nothing either if
    /// the panel could not be asked.
    pub qa: Option<Option<u128>>,
    pub dictation: Option<u128>,
}

/// What to cancel.
#[derive(Clone, Copy, PartialEq, Eq, Structural, Debug)]
pub enum CancelStep {
    /// The agent's recording, and its glow.
    LessComputer,
    SelectionVoice(u128),
    Qa(Option<u128>),
    Dictation(Option<u128>),
}

/// What to cancel first: the agent, a spoken change, a question, dictation.
pub open spec fn cancel_step(platform: Platform, active: ActiveSessions) -> CancelStep {
    if active.less_computer {
        CancelStep::LessComputer
    } else if platform == Platform::Windows && active.selection_voice is Some {
        CancelStep::SelectionVoice(active.selection_voice->0)
    } else if active.qa is Some {
        CancelStep::Qa(active.qa->0)
    } else {
        CancelStep::Dictation(active.dictation)
    }
}

/// The one session that a wish to cancel reaches.
pub fn cancel_active_session(platform: Platform, active: ActiveSessions) -> (r: CancelStep)
    ensures
        r == cancel_step(platform, active),
{
    if active.less_computer {
        return CancelStep::LessComputer;
    }
    if platform == Platform::Windows {
        if let Some(id) = active.selection_voice {
            return CancelStep::SelectionVoice(id);
        }
    }
    match active.qa {
        Some(id) => CancelStep::Qa(id),
        None => CancelStep::Dictation(active.dictation),
    }
}

/// Whether anything was cancelled. Of the dictation that is what the backend
/// says; the others are cancelled whatever comes of it.
pub fn session_cancelled(
    state: &mut TriggerState,
    step: CancelStep,
    result: Result<(), BackendError>,
    now_ms: u64,
) -> (r: bool)
    ensures
        r == (!(step is Dictation) || result is Ok),
        *final(state) == (if step is Dictation && result is Ok {
            bookkept(*old(state), now_ms)
        } else {
            *old(state)
        }),
{
    match step {
        CancelStep::Dictation(_) => match result {
            Ok(()) => {
                finish_bookkeeping(state, now_ms);
                true
            },
            Err(_) => false,
        },
        _ => true,
    }
}

/// Whether a refused cancel is worth a line in the log: that nothing was
/// running is not.
pub fn cancel_failure_is_logged(error: &BackendError) -> (r: bool)
    ensures
        r == (error.code != BackendErrorCode::InvalidState),
{
    error.code != BackendErrorCode::InvalidState
}

/// One event of the agent's panel.
#[derive(Debug)]
pub struct LessComputerEntry {
    pub kind: String,
    pub fresh: Option<bool>,
    /// The event itself, by the host's number for it.
    pub event: u64,
}

/// What the agent's panel is shown.
#[derive(Debug)]
pub struct LessComputerEventReplay {
    pub events: Vec<LessComputerEntry>,
    pub oldest_sequence: Option<u64>,
    pub latest_sequence: u64,
    pub truncated: bool,
}

/// The user began a new conversation.
pub open spec fn begins_conversation(e: LessComputerEntry) -> bool {
    e.kind@ == "user"@ && e.fresh == Some(true)
}

/// The events of the panel among all events.
pub open spec fn panel_events(events: Seq<Option<LessComputerEntry>>) -> Seq<LessComputerEntry>
    decreases events.len(),
{
    if events.len() == 0 {
        Seq::empty()
    } else {
        match events.last() {
            None => panel_events(events.drop_last()),
            Some(e) => panel_events(events.drop_last()).push(e),
        }
    }
}

/// The events of the conversation that is under way.
pub open spec fn conversation(events: Seq<Option<LessComputerEntry>>) -> Seq<LessComputerEntry>
    decreases events.len(),
{
    if events.len() == 0 {
        Seq::empty()
    } else {
        match events.last() {
            None => conversation(events.drop_last()),
            Some(e) => if begins_conversation(e) {
                seq![e]
            } else {
                conversation(events.drop_last()).push(e)
            },
        }
    }
}

/// What a panel that opens late is shown: the conversation that is under way,
/// without those before it. Events that are none of the panel's are absent
/// from `events`.
pub fn less_computer_event_replay_after(
    events: Vec<Option<LessComputerEntry>>,
    oldest_sequence: Option<u64>,
    latest_sequence: u64,
    truncated: bool,
) -> (r: LessComputerEventReplay)
    ensures
        r.events@ == conversation(events@),
        r.oldest_sequence == oldest_sequence,
        r.latest_sequence == latest_sequence,
        r.truncated == truncated,
{
    let mut rest: Vec<Option<LessComputerEntry>> = events;
    let mut backwards: Vec<LessComputerEntry> = Vec::new();
    let mut found: bool = false;
    while rest.len() > 0 && !found
        invariant
            conversation(events@) == (if found {
                Seq::empty()
            } else {
                conversation(rest@)
            }) + backwards@.reverse(),
        decreases rest.len(),
    {
        let ghost before = rest@;
        let ghost tail = backwards@;
        let entry: Option<LessComputerEntry> = rest.pop().unwrap();
        proof {
            assert(rest@ =~= before.drop_last());
        }
        if let Some(e) = entry {
            found = str_eq(e.kind.as_str(), "user") && match e.fresh {
                Some(b) => b,
                None => false,
            };
            backwards.push(e);
            proof {
                assert(backwards@.reverse() =~= seq![e] + tail.reverse());
                assert(conversation(rest@).push(e) + tail.reverse() =~= conversation(rest@) + (
                seq![e] + tail.reverse()));
                assert(Seq::<LessComputerEntry>::empty() + backwards@.reverse()
                    =~= backwards@.reverse());
            }
        }
    }
    proof {
        assert(conversation(events@) =~= backwards@.reverse());
    }
    let ghost all = backwards@;
    let mut out: Vec<LessComputerEntry> = Vec::new();
    while backwards.len() > 0
        invariant
            all.reverse() == out@ + backwards@.reverse(),
        decreases backwards.len(),
    {
        let ghost before = backwards@;
        let ghost done = out@;
        let e: LessComputerEntry = backwards.pop().unwrap();
        out.push(e);
        proof {
            assert(before.reverse() =~= seq![e] + backwards@.reverse());
            assert(done + before.reverse() =~= out@ + backwards@.reverse());
        }
    }
    proof {
        assert(out@ + backwards@.reverse() =~= out@);
    }
    LessComputerEventReplay { events: out, oldest_sequence, latest_sequence, truncated }
}

/// A late panel is shown the end of what happened, from the last beginning of
/// a conversation on, or everything if none began.
pub proof fn law_replay_is_the_last_conversation(events: Seq<Option<LessComputerEntry>>)
    ensures
        ({
            let all = panel_events(events);
            let shown = conversation(events);
            let from = all.len() - shown.len();
            &&& from >= 0
            &&& shown == all.skip(from)
            &&& forall|i: int| from < i < all.len() ==> !begins_conversation(#[trigger] all[i])
            &&& from > 0 ==> shown.len() > 0 && begins_conversation(shown[0])
        }),
    decreases events.len(),
{
    if events.len() > 0 {
        let rest = events.drop_last();
        law_replay_is_the_last_conversation(rest);
        let all = panel_events(events);
        let shown = conversation(events);
        match events.last() {
            None => {},
            Some(e) => {
                let from = all.len() - shown.len();
                if begins_conversation(e) {
                    assert(all.skip(from) =~= seq![e]);
                } else {
                    assert(all.skip(from) =~= panel_events(rest).skip(from).push(e));
                    if from > 0 {
                        assert(shown[0] == conversation(rest)[0]);
                    }
                    assert forall|i: int| from < i < all.len() implies !begins_conversation(
                        #[trigger] all[i],
                    ) by {
                        if i < all.len() - 1 {
                            assert(all[i] == panel_events(rest)[i]);
                        }
                    }
                }
            },
        }
    } else {
        assert(panel_events(events).skip(0) =~= conversation(events));
    }
}

/// While the key stays down, no further press is acted upon.
pub proof fn law_held_key_acts_once(
    s: TriggerState,
    pressed_at: u64,
    now_ms: u64,
    press_id: u64,
    later_at: u64,
    later_ms: u64,
    later_id: u64,
    panel_visible: bool,
    dictation_idle: bool,
)
    ensures
        ({
            let after = pressed(
                s,
                pressed_at,
                now_ms,
                press_id,
                panel_visible,
                dictation_idle,
            ).0;
            pressed(after, later_at, later_ms, later_id, panel_visible, dictation_idle) == (
                after,
                PressStep::Ignored,
            )
        }),
{
}

/// Two presses that are acted upon lie apart, however the key bounces.
pub proof fn law_acted_presses_lie_apart(
    s: TriggerState,
    pressed_at: u64,
    now_ms: u64,
    press_id: u64,
    panel_visible: bool,
    dictation_idle: bool,
)
    requires
        pressed(s, pressed_at, now_ms, press_id, panel_visible, dictation_idle).1
            != PressStep::Ignored,
        s.last_dispatch_ms is Some,
    ensures
        elapsed_spec(s.last_dispatch_ms->0, now_ms) >= HOTKEY_DEBOUNCE_MS,
{
}

/// A combination cancels at most once, and only the press that began the
/// session.
pub proof fn law_combination_cancels_once(s: TriggerState, press_id: u64)
    requires
        press_id != 0,
    ensures
        combined(s, press_id).1 ==> s.press_generation == press_id && s.press_began_session
            == press_id,
        !combined(combined(s, press_id).0, press_id).1,
{
}

/// A press of a key that is up, and that comes a quarter of a second after the last
/// one that counted, is acted upon and remembered: the panel takes it while it is
/// open and nothing is dictated, otherwise the backend hears of it with the time it
/// was made. Any other press is ignored.
pub proof fn law_press_reaches_panel_or_backend(
    state: &mut TriggerState,
    at: u64,
    now: u64,
    id: u64,
    panel: bool,
    idle: bool,
    r: PressStep,
)
    requires
        call_ensures(handle_pressed_edge, (state, at, now, id, panel, idle), r),
    ensures
        r == PressStep::Ignored <==> old(state).trigger_held || (old(state).last_dispatch_ms matches Some(t)
            && now < t + 250),
        r == PressStep::Qa <==> r != PressStep::Ignored && panel && idle,
        r is Dispatch <==> r != PressStep::Ignored && !(panel && idle),
        r is Dispatch ==> r == PressStep::Dispatch(DictationHotkeyEdge::Pressed { at }),
        final(state).trigger_held,
        old(state).trigger_held ==> *final(state) == *old(state),
        !old(state).trigger_held ==> final(state).press_generation == id
            && final(state).press_began_session == 0,
        r == PressStep::Ignored ==> final(state).last_dispatch_ms == old(state).last_dispatch_ms,
        r != PressStep::Ignored ==> final(state).last_dispatch_ms == Some(now),
        final(state).translation_active == old(state).translation_active,
        final(state).cooldown_until_ms == old(state).cooldown_until_ms,
{
}

/// The backend hears of a release exactly if the key was down, and afterwards it is
/// up; so a second release says nothing.
pub proof fn law_release_is_told_once(
    once: &mut TriggerState,
    twice: &mut TriggerState,
    at: u64,
    later: u64,
    first: Option<DictationHotkeyEdge>,
    second: Option<DictationHotkeyEdge>,
)
    requires
        call_ensures(handle_released_edge, (once, at), first),
        *twice == *final(once),
        call_ensures(handle_released_edge, (twice, later), second),
    ensures
        first is Some <==> old(once).trigger_held,
        first matches Some(e) ==> e == (DictationHotkeyEdge::Released { at }),
        second is None,
        !final(once).trigger_held,
        final(once).last_dispatch_ms == old(once).last_dispatch_ms,
        final(once).press_generation == old(once).press_generation,
        final(once).press_began_session == old(once).press_began_session,
{
}

/// A session that ends, by a press, a release or a combination, spends the wish for
/// a translation and begins a pause of less than half a second; one that goes on
/// does neither.
pub proof fn law_ended_session_begins_a_pause(
    by_press: &mut TriggerState,
    by_release: &mut TriggerState,
    by_keys: &mut TriggerState,
    id: u64,
    outcome: DispatchOutcome,
    now: u64,
)
    requires
        call_ensures(press_dispatched, (by_press, id, outcome, now), ()),
        call_ensures(release_dispatched, (by_release, outcome, now), ()),
        call_ensures(combination_dispatched, (by_keys, outcome, now), ()),
        now < 0xffff_ffff_ffff_0000,
    ensures
        outcome == DispatchOutcome::DictationCompleted || outcome
            == DispatchOutcome::DictationCancelled ==> {
            &&& !final(by_press).translation_active && !final(by_release).translation_active
            &&& final(by_press).cooldown_until_ms is Some
            &&& final(by_press).cooldown_until_ms->0 == now + 450
            &&& final(by_release).cooldown_until_ms is Some
            &&& final(by_release).cooldown_until_ms->0 == now + 450
            &&& final(by_press).press_began_session == old(by_press).press_began_session
            &&& final(by_press).trigger_held == old(by_press).trigger_held
        },
        outcome == DispatchOutcome::DictationStarted ==> final(by_press).press_began_session == id
            && final(by_press).cooldown_until_ms == old(by_press).cooldown_until_ms
            && final(by_press).translation_active == old(by_press).translation_active,
        outcome == DispatchOutcome::Other || outcome == DispatchOutcome::Failed
            ==> *final(by_press) == *old(by_press),
        outcome == DispatchOutcome::DictationStarted || outcome == DispatchOutcome::Other || outcome
            == DispatchOutcome::Failed ==> *final(by_release) == *old(by_release),
        !final(by_keys).translation_active,
        final(by_keys).cooldown_until_ms is Some && final(by_keys).cooldown_until_ms->0 == now + 450,
{
}

/// A press that began a session and turns out to be part of a combination takes the
/// session back; the key counts as up, and the same press cannot do it again. A
/// press that began nothing, or that another has followed, takes nothing back.
pub proof fn law_combination_takes_its_session_back(
    pressed_state: &mut TriggerState,
    started: &mut TriggerState,
    joined: &mut TriggerState,
    again: &mut TriggerState,
    at: u64,
    now: u64,
    id: u64,
    other: u64,
    outcome: DispatchOutcome,
    r: PressStep,
    first: Option<DictationHotkeyEdge>,
    second: Option<DictationHotkeyEdge>,
)
    requires
        id != 0,
        !pressed_state.trigger_held,
        call_ensures(handle_pressed_edge, (pressed_state, at, now, id, false, true), r),
        *started == *final(pressed_state),
        call_ensures(press_dispatched, (started, id, outcome, now), ()),
        *joined == *final(started),
        call_ensures(handle_trigger_combined, (joined, other), first),
        *again == *final(joined),
        call_ensures(handle_trigger_combined, (again, other), second),
    ensures
        first is Some <==> other == id && outcome == DispatchOutcome::DictationStarted,
        first matches Some(e) ==> e == DictationHotkeyEdge::Combined,
        first is Some ==> !final(joined).trigger_held,
        other != id ==> *final(joined) == *old(joined),
        second is None,
{
}

/// An edge is handed on as it is, with the wish for a translation where there is
/// one; the backend is started first exactly if it does not run.
pub proof fn law_edge_is_handed_on(
    state: &TriggerState,
    edge: DictationHotkeyEdge,
    running: bool,
    r: DispatchOptions,
)
    requires
        call_ensures(dispatch, (state, edge, running), r),
    ensures
        r.edge == edge,
        r.start_backend <==> !running,
        r.start_translation <==> state.translation_active,
        r.stop_translation == Some(true) <==> state.translation_active,
        r.stop_translation is None <==> !state.translation_active,
{
}

/// A wish to cancel reaches one session, the foremost that runs: the agent before a
/// spoken change of the selection, which only Windows has, that before a question,
/// and a question before dictation.
pub proof fn law_cancel_reaches_the_foremost(
    platform: Platform,
    active: ActiveSessions,
    r: CancelStep,
)
    requires
        call_ensures(cancel_active_session, (platform, active), r),
    ensures
        r == CancelStep::LessComputer <==> active.less_computer,
        r is SelectionVoice <==> !active.less_computer && platform == Platform::Windows
            && active.selection_voice is Some,
        r is SelectionVoice ==> active.selection_voice == Some(r->SelectionVoice_0),
        r is Qa ==> active.qa == Some(r->Qa_0),
        r is Dictation ==> active.qa is None && !active.less_computer && r->Dictation_0
            == active.dictation,
        !active.less_computer && active.selection_voice is None && active.qa is Some ==> r is Qa,
        !active.less_computer && active.selection_voice is None && active.qa is None
            ==> r is Dictation,
{
}

/// A cancel that the backend refuses has cancelled no dictation and begins no
/// pause; the other sessions are cancelled in any case. That nothing was running is
/// no news.
pub proof fn law_refused_cancel_cancels_nothing(
    state: &mut TriggerState,
    step: CancelStep,
    result: Result<(), BackendError>,
    now: u64,
    r: bool,
    error: &BackendError,
    logged: bool,
)
    requires
        call_ensures(session_cancelled, (state, step, result, now), r),
        call_ensures(cancel_failure_is_logged, (error,), logged),
    ensures
        !r <==> step is Dictation && result is Err,
        step is Dictation && result is Ok ==> !final(state).translation_active
            && final(state).cooldown_until_ms is Some,
        !(step is Dictation && result is Ok) ==> *final(state) == *old(state),
        final(state).trigger_held == old(state).trigger_held,
        !logged <==> error.code == BackendErrorCode::InvalidState,
{
}

/// A panel that opens late is shown the end of what happened, in order: everything
/// since the last question that began a conversation, that question first, or
/// everything if none did. How far the events reach is handed on.
pub proof fn law_late_panel_sees_the_conversation(
    events: Vec<Option<LessComputerEntry>>,
    oldest: Option<u64>,
    latest: u64,
    truncated: bool,
    r: LessComputerEventReplay,
)
    requires
        call_ensures(less_computer_event_replay_after, (events, oldest, latest, truncated), r),
    ensures
        r.oldest_sequence == oldest,
        r.latest_sequence == latest,
        r.truncated == truncated,
        ({
            let all = panel_events(events@);
            let from = all.len() - r.events@.len();
            &&& from >= 0
            &&& r.events@ == all.skip(from)
            &&& forall|i: int|
                from < i < all.len() ==> !((#[trigger] all[i]).kind@ == "user"@ && all[i].fresh
                    == Some(true))
            &&& from > 0 ==> r.events@.len() > 0 && r.events@[0].kind@ == "user"@
                && r.events@[0].fresh == Some(true)
        }),
{
    law_replay_is_the_last_conversation(events@);
    let all = panel_events(events@);
    let from = all.len() - r.events@.len();
    assert forall|i: int| from < i < all.len() implies !((#[trigger] all[i]).kind@ == "user"@
        && all[i].fresh == Some(true)) by {
        assert(!begins_conversation(all[i]));
    }
}

/// Of all events the panel's own are kept, each of them and in order.
pub proof fn law_panel_events_are_all_kept(
    front: Seq<Option<LessComputerEntry>>,
    e: LessComputerEntry,
    back: Seq<Option<LessComputerEntry>>,
)
    ensures
        panel_events(front + seq![Some(e)] + back) == panel_events(front) + seq![e] + panel_events(
            back,
        ),
        panel_events(front + seq![None::<LessComputerEntry>] + back) == panel_events(front)
            + panel_events(back),
    decreases back.len(),
{
    let with = front + seq![Some(e)] + back;
    let without = front + seq![None::<LessComputerEntry>] + back;
    if back.len() == 0 {
        assert(with.drop_last() =~= front);
        assert(without.drop_last() =~= front);
        assert(with.last() == Some(e));
        assert(without.last() is None);
        assert(panel_events(front) + seq![e] + panel_events(back) =~= panel_events(front).push(e));
        assert(panel_events(front) + panel_events(back) =~= panel_events(front));
    } else {
        law_panel_events_are_all_kept(front, e, back.drop_last());
        assert(with.drop_last() =~= front + seq![Some(e)] + back.drop_last());
        assert(without.drop_last() =~= front + seq![None::<LessComputerEntry>] + back.drop_last());
        assert(with.last() == back.last());
        assert(without.last() == back.last());
        assert(panel_events(with) =~= panel_events(front) + seq![e] + panel_events(back));
        assert(panel_events(without) =~= panel_events(front) + panel_events(back));
    }
}

/// After a session the wish for a translation is spent, and no key begins another one
/// for a moment.
pub proof fn law_pause_follows_a_session(state: &mut TriggerState, now: u64)
    requires
        call_ensures(finish_bookkeeping, (state, now), ()),
    ensures
        !final(state).translation_active,
        final(state).cooldown_until_ms is Some,
        now <= u64::MAX - 450 ==> final(state).cooldown_until_ms->0 == now + 450,
        final(state).cooldown_until_ms->0 >= now,
{
}

/// At first no key is held, no press has begun anything, and nothing has to be waited
/// for.
pub proof fn law_no_key_is_held_at_first(r: TriggerState)
    requires
        call_ensures(TriggerState::new, (), r),
    ensures
        !r.trigger_held && !r.translation_active,
        r.press_generation == 0 && r.press_began_session == 0,
        r.last_dispatch_ms is None && r.cooldown_until_ms is None,
{
}

} // verus!
