//! The life of one dictation session: which phase it is in, who may move it
//! on, and which late arrivals are ignored.

use crate::types::{HotkeyMode, SessionPhase};
use vstd::prelude::*;

verus! {

/// Two presses closer together than this count as one.
pub const HOTKEY_DEBOUNCE_MS: u64 = 250;

/// After a session ends, a toggle press within this time starts nothing.
pub const POST_SESSION_COOLDOWN_MS: u64 = 450;

/// The current session, or the last one when `phase` is `Idle`.
#[derive(Debug)]
pub struct SessionState {
    pub phase: SessionPhase,
    pub session_id: u128,
    pub cancelled: bool,
    /// A stop that arrived before recording had begun.
    pub pending_stop: bool,
    pub started_at_ms: u64,
    /// The window that had the focus when the session began.
    pub focus_target: Option<u64>,
    pub front_app: Option<String>,
    /// The session hands its transcript to the agent instead of typing it.
    pub voice_agent: bool,
}

/// How a start-up continuation finds the session it belongs to.
#[derive(Clone, Copy, PartialEq, Eq, Structural, Debug)]
pub enum StartupRaceStatus {
    ActiveStarting,
    CancelRaced,
    StaleContinuation,
}

/// How the start of a session ended.
#[derive(Clone, Copy, PartialEq, Eq, Structural, Debug)]
pub enum BeginOutcome {
    Started,
    PendingStop,
    CancelRaced,
    StaleContinuation,
}

/// What a cancel found and has to clean up.
#[derive(Clone, Copy, PartialEq, Eq, Structural, Debug)]
pub struct CancelDecision {
    pub session_id: u128,
    pub phase: SessionPhase,
}

/// What a recording failure found and has to clean up.
#[derive(Clone, Copy, PartialEq, Eq, Structural, Debug)]
pub struct RecordingAbort {
    pub session_id: u128,
    pub elapsed_ms: u64,
}

/// The time from `from` to `to`, zero when the clock went back.
pub open spec fn elapsed_spec(from: u64, to: u64) -> u64 {
    if from <= to {
        (to - from) as u64
    } else {
        0
    }
}

pub fn elapsed_ms(from: u64, to: u64) -> (r: u64)
    ensures
        r == elapsed_spec(from, to),
{
    if from <= to {
        to - from
    } else {
        0
    }
}

/// The status a start-up continuation of session `id` finds in `s`.
pub open spec fn race_status(s: SessionState, id: u128) -> StartupRaceStatus {
    if s.session_id != id {
        StartupRaceStatus::StaleContinuation
    } else if s.cancelled || s.phase != SessionPhase::Starting {
        StartupRaceStatus::CancelRaced
    } else {
        StartupRaceStatus::ActiveStarting
    }
}

/// A state with the same session, in another phase.
pub open spec fn with_phase(s: SessionState, phase: SessionPhase) -> SessionState {
    SessionState { phase, ..s }
}

impl SessionState {
    /// No session has run yet.
    pub fn new() -> (r: SessionState)
        ensures
            r.phase == SessionPhase::Idle,
            !r.cancelled,
            !r.pending_stop,
            !r.voice_agent,
            r.focus_target is None,
            r.front_app is None,
            r.session_id == 0,
            r.started_at_ms == 0,
    {
        SessionState {
            phase: SessionPhase::Idle,
            session_id: 0,
            cancelled: false,
            pending_stop: false,
            started_at_ms: 0,
            focus_target: None,
            front_app: None,
            voice_agent: false,
        }
    }
}

/// Opens session `id` unless one is running.
pub fn begin_session_state(
    state: &mut SessionState,
    id: u128,
    now_ms: u64,
    focus_target: Option<u64>,
    front_app: Option<String>,
) -> (r: Option<u128>)
    ensures
        old(state).phase != SessionPhase::Idle ==> r is None && *final(state) == *old(state),
        old(state).phase == SessionPhase::Idle ==> r == Some(id) && *final(state) == (
        SessionState {
            phase: SessionPhase::Starting,
            session_id: id,
            cancelled: false,
            pending_stop: false,
            started_at_ms: now_ms,
            focus_target,
            front_app,
            voice_agent: false,
        }),
{
    if state.phase != SessionPhase::Idle {
        return None;
    }
    *state = SessionState {
        phase: SessionPhase::Starting,
        session_id: id,
        cancelled: false,
        pending_stop: false,
        started_at_ms: now_ms,
        focus_target,
        front_app,
        voice_agent: false,
    };
    Some(id)
}

/// Remembers a stop that arrives before recording has begun. Nothing is
/// remembered in another phase or for a session that was cancelled.
pub fn request_stop_during_starting_state(state: &mut SessionState) -> (r: bool)
    ensures
        r == (old(state).phase == SessionPhase::Starting && !old(state).cancelled),
        r ==> *final(state) == (SessionState { pending_stop: true, ..*old(state) }),
        !r ==> *final(state) == *old(state),
{
    if state.phase != SessionPhase::Starting || state.cancelled {
        return false;
    }
    state.pending_stop = true;
    true
}

/// What a start-up continuation of session `id` finds.
pub fn startup_race_status_for_starting(state: &SessionState, id: u128) -> (r: StartupRaceStatus)
    ensures
        r == race_status(*state, id),
{
    if state.session_id != id {
        StartupRaceStatus::StaleContinuation
    } else if state.cancelled || state.phase != SessionPhase::Starting {
        StartupRaceStatus::CancelRaced
    } else {
        StartupRaceStatus::ActiveStarting
    }
}

/// The outcome that `finish_starting_session_state` reports.
pub open spec fn begin_outcome(s: SessionState, id: u128) -> BeginOutcome {
    match race_status(s, id) {
        StartupRaceStatus::StaleContinuation => BeginOutcome::StaleContinuation,
        StartupRaceStatus::CancelRaced => BeginOutcome::CancelRaced,
        StartupRaceStatus::ActiveStarting => if s.pending_stop {
            BeginOutcome::PendingStop
        } else {
            BeginOutcome::Started
        },
    }
}

/// Moves session `id` from `Starting` to `Listening`, unless it was
/// cancelled or replaced in the meantime.
pub fn finish_starting_session_state(state: &mut SessionState, id: u128) -> (r: BeginOutcome)
    ensures
        r == begin_outcome(*old(state), id),
        race_status(*old(state), id) == StartupRaceStatus::ActiveStarting ==> *final(state) == (
        SessionState { phase: SessionPhase::Listening, pending_stop: false, ..*old(state) }),
        race_status(*old(state), id) != StartupRaceStatus::ActiveStarting ==> *final(state) == *old(
            state,
        ),
{
    match startup_race_status_for_starting(state, id) {
        StartupRaceStatus::StaleContinuation => BeginOutcome::StaleContinuation,
        StartupRaceStatus::CancelRaced => BeginOutcome::CancelRaced,
        StartupRaceStatus::ActiveStarting => {
            let pending: bool = state.pending_stop;
            state.phase = SessionPhase::Listening;
            state.pending_stop = false;
            if pending {
                BeginOutcome::PendingStop
            } else {
                BeginOutcome::Started
            }
        },
    }
}

/// Returns to `Idle` if session `id` is still the current one.
pub fn set_phase_idle_if_session_matches(state: &mut SessionState, id: u128)
    ensures
        old(state).session_id == id ==> *final(state) == with_phase(
            *old(state),
            SessionPhase::Idle,
        ),
        old(state).session_id != id ==> *final(state) == *old(state),
{
    if state.session_id == id {
        state.phase = SessionPhase::Idle;
    }
}

/// Moves a listening session to `Processing`.
pub fn start_processing_if_listening(state: &mut SessionState) -> (r: Option<u128>)
    ensures
        old(state).phase == SessionPhase::Listening ==> r == Some(old(state).session_id)
            && *final(state) == with_phase(*old(state), SessionPhase::Processing),
        old(state).phase != SessionPhase::Listening ==> r is None && *final(state) == *old(state),
{
    if state.phase != SessionPhase::Listening {
        return None;
    }
    state.phase = SessionPhase::Processing;
    Some(state.session_id)
}

/// Marks a recording session as failed. The phase stays until the resources
/// of the session are given back, so that no new session starts meanwhile.
pub fn begin_recording_abort_before_restore(state: &mut SessionState, now_ms: u64) -> (r: Option<
    RecordingAbort,
>)
    ensures
        (old(state).phase == SessionPhase::Starting || old(state).phase == SessionPhase::Listening)
            ==> r == Some(
            RecordingAbort {
                session_id: old(state).session_id,
                elapsed_ms: elapsed_spec(old(state).started_at_ms, now_ms),
            },
        ) && *final(state) == (SessionState { cancelled: true, ..*old(state) }),
        !(old(state).phase == SessionPhase::Starting || old(state).phase
            == SessionPhase::Listening) ==> r is None && *final(state) == *old(state),
{
    if state.phase != SessionPhase::Starting && state.phase != SessionPhase::Listening {
        return None;
    }
    state.cancelled = true;
    Some(
        RecordingAbort {
            session_id: state.session_id,
            elapsed_ms: elapsed_ms(state.started_at_ms, now_ms),
        },
    )
}

/// Publishes the end of an aborted recording, if session `id` is still the
/// current one.
pub fn publish_abort_idle_after_restore(state: &mut SessionState, id: u128)
    ensures
        old(state).session_id == id ==> *final(state) == (SessionState {
            phase: SessionPhase::Idle,
            focus_target: None,
            ..*old(state)
        }),
        old(state).session_id != id ==> *final(state) == *old(state),
{
    if state.session_id == id {
        state.phase = SessionPhase::Idle;
        state.focus_target = None;
    }
}

/// A cancel has something to do in this phase. Once text goes to the cursor
/// it cannot be taken back.
pub open spec fn cancellable(phase: SessionPhase) -> bool {
    phase != SessionPhase::Idle && phase != SessionPhase::Inserting
}

/// Marks the session as cancelled.
pub fn begin_cancel_session_state(state: &mut SessionState) -> (r: Option<CancelDecision>)
    ensures
        cancellable(old(state).phase) ==> r == Some(
            CancelDecision { session_id: old(state).session_id, phase: old(state).phase },
        ) && *final(state) == (SessionState {
            cancelled: true,
            pending_stop: false,
            ..*old(state)
        }),
        !cancellable(old(state).phase) ==> r is None && *final(state) == *old(state),
{
    if state.phase == SessionPhase::Idle || state.phase == SessionPhase::Inserting {
        return None;
    }
    state.cancelled = true;
    state.pending_stop = false;
    Some(CancelDecision { session_id: state.session_id, phase: state.phase })
}

/// Publishes the end of a cancelled session, if it is still the current one.
pub fn finish_cancel_session_state(state: &mut SessionState, decision: CancelDecision)
    ensures
        old(state).session_id == decision.session_id ==> *final(state) == (SessionState {
            phase: SessionPhase::Idle,
            focus_target: None,
            ..*old(state)
        }),
        old(state).session_id != decision.session_id ==> *final(state) == *old(state),
{
    if state.session_id == decision.session_id {
        state.phase = SessionPhase::Idle;
        state.focus_target = None;
    }
}

/// What the dictation key asks for.
#[derive(Clone, Copy, PartialEq, Eq, Structural, Debug)]
pub enum EdgeAction {
    Nothing,
    /// The question panel is open and takes the key.
    Qa,
    Begin,
    End,
    /// Stop as soon as recording has begun.
    StopWhenStarted,
}

/// What the host remembers of the dictation key between its edges.
#[derive(Clone, Copy, PartialEq, Eq, Structural, Debug)]
pub struct KeyMemory {
    pub held: bool,
    pub last_dispatch_ms: Option<u64>,
}

/// The press at `now` follows the last accepted one too closely.
pub open spec fn debounced(last: Option<u64>, now: u64) -> bool {
    match last {
        Some(t) => elapsed_spec(t, now) < HOTKEY_DEBOUNCE_MS,
        None => false,
    }
}

/// A toggle press is too early after the last session.
pub open spec fn on_cooldown(until: Option<u64>, now: u64) -> bool {
    match until {
        Some(deadline) => now < deadline,
        None => false,
    }
}

/// What an accepted press asks of the dictation session.
pub open spec fn press_action(
    mode: HotkeyMode,
    phase: SessionPhase,
    cooldown_until: Option<u64>,
    now: u64,
) -> EdgeAction {
    match (mode, phase) {
        (HotkeyMode::Toggle, SessionPhase::Idle) => if on_cooldown(cooldown_until, now) {
            EdgeAction::Nothing
        } else {
            EdgeAction::Begin
        },
        (HotkeyMode::Toggle, SessionPhase::Listening) => EdgeAction::End,
        (HotkeyMode::Hold, SessionPhase::Idle) => EdgeAction::Begin,
        (HotkeyMode::Toggle, SessionPhase::Starting) => EdgeAction::StopWhenStarted,
        _ => EdgeAction::Nothing,
    }
}

/// What an accepted release asks of the dictation session.
pub open spec fn release_action(mode: HotkeyMode, phase: SessionPhase) -> EdgeAction {
    match (mode, phase) {
        (HotkeyMode::Hold, SessionPhase::Listening) => EdgeAction::End,
        (HotkeyMode::Hold, SessionPhase::Starting) => EdgeAction::StopWhenStarted,
        _ => EdgeAction::Nothing,
    }
}

/// What an accepted press asks of the dictation session.
pub fn handle_pressed(
    mode: HotkeyMode,
    phase: SessionPhase,
    cooldown_until: Option<u64>,
    now_ms: u64,
) -> (r: EdgeAction)
    ensures
        r == press_action(mode, phase, cooldown_until, now_ms),
{
    match (mode, phase) {
        (HotkeyMode::Toggle, SessionPhase::Idle) => {
            let blocked: bool = match cooldown_until {
                Some(deadline) => now_ms < deadline,
                None => false,
            };
            if blocked {
                EdgeAction::Nothing
            } else {
                EdgeAction::Begin
            }
        },
        (HotkeyMode::Toggle, SessionPhase::Listening) => EdgeAction::End,
        (HotkeyMode::Hold, SessionPhase::Idle) => EdgeAction::Begin,
        (HotkeyMode::Toggle, SessionPhase::Starting) => EdgeAction::StopWhenStarted,
        _ => EdgeAction::Nothing,
    }
}

/// What an accepted release asks of the dictation session.
pub fn handle_released(mode: HotkeyMode, phase: SessionPhase) -> (r: EdgeAction)
    ensures
        r == release_action(mode, phase),
{
    match (mode, phase) {
        (HotkeyMode::Hold, SessionPhase::Listening) => EdgeAction::End,
        (HotkeyMode::Hold, SessionPhase::Starting) => EdgeAction::StopWhenStarted,
        _ => EdgeAction::Nothing,
    }
}

/// What a press of the key asks for, and what is remembered of it.
pub open spec fn pressed_edge(
    key: KeyMemory,
    mode: HotkeyMode,
    phase: SessionPhase,
    panel_visible: bool,
    cooldown_until: Option<u64>,
    now: u64,
) -> (KeyMemory, EdgeAction) {
    if key.held || debounced(key.last_dispatch_ms, now) {
        (KeyMemory { held: true, ..key }, EdgeAction::Nothing)
    } else {
        (
            KeyMemory { held: true, last_dispatch_ms: Some(now) },
            if panel_visible && phase == SessionPhase::Idle {
                EdgeAction::Qa
            } else {
                press_action(mode, phase, cooldown_until, now)
            },
        )
    }
}

/// What a release of the key asks for, and what is remembered of it.
pub open spec fn released_edge(
    key: KeyMemory,
    mode: HotkeyMode,
    phase: SessionPhase,
    panel_visible: bool,
) -> (KeyMemory, EdgeAction) {
    (
        KeyMemory { held: false, ..key },
        if !key.held || (panel_visible && phase == SessionPhase::Idle) {
            EdgeAction::Nothing
        } else {
            release_action(mode, phase)
        },
    )
}

/// The dictation key goes down. A key that is already down and a press that
/// follows too closely are dropped; an open question panel takes the key
/// unless a dictation session is running.
pub fn handle_pressed_edge(
    key: &mut KeyMemory,
    mode: HotkeyMode,
    phase: SessionPhase,
    panel_visible: bool,
    cooldown_until: Option<u64>,
    now_ms: u64,
) -> (r: EdgeAction)
    ensures
        (*final(key), r) == pressed_edge(
            *old(key),
            mode,
            phase,
            panel_visible,
            cooldown_until,
            now_ms,
        ),
        final(key).held,
        final(key).last_dispatch_ms == (if old(key).held || debounced(
            old(key).last_dispatch_ms,
            now_ms,
        ) {
            old(key).last_dispatch_ms
        } else {
            Some(now_ms)
        }),
        r == (if old(key).held || debounced(old(key).last_dispatch_ms, now_ms) {
            EdgeAction::Nothing
        } else if panel_visible && phase == SessionPhase::Idle {
            EdgeAction::Qa
        } else {
            press_action(mode, phase, cooldown_until, now_ms)
        }),
{
    let was_held: bool = key.held;
    key.held = true;
    if was_held {
        return EdgeAction::Nothing;
    }
    let too_soon: bool = match key.last_dispatch_ms {
        Some(t) => elapsed_ms(t, now_ms) < HOTKEY_DEBOUNCE_MS,
        None => false,
    };
    if too_soon {
        return EdgeAction::Nothing;
    }
    key.last_dispatch_ms = Some(now_ms);
    if panel_visible && phase == SessionPhase::Idle {
        EdgeAction::Qa
    } else {
        handle_pressed(mode, phase, cooldown_until, now_ms)
    }
}

/// The dictation key goes up. A release without a press is dropped, and so
/// is one that belongs to the question panel.
pub fn handle_released_edge(
    key: &mut KeyMemory,
    mode: HotkeyMode,
    phase: SessionPhase,
    panel_visible: bool,
) -> (r: EdgeAction)
    ensures
        (*final(key), r) == released_edge(*old(key), mode, phase, panel_visible),
        *final(key) == (KeyMemory { held: false, ..*old(key) }),
        r == (if !old(key).held || (panel_visible && phase == SessionPhase::Idle) {
            EdgeAction::Nothing
        } else {
            release_action(mode, phase)
        }),
{
    let was_held: bool = key.held;
    key.held = false;
    if !was_held || (panel_visible && phase == SessionPhase::Idle) {
        return EdgeAction::Nothing;
    }
    handle_released(mode, phase)
}

/// A press counts if the key was up and the press before it lies a quarter of a
/// second back. Such a press is remembered; any other asks for nothing.
pub proof fn law_press_counts_once(
    key: KeyMemory,
    mode: HotkeyMode,
    phase: SessionPhase,
    panel_visible: bool,
    cooldown_until: Option<u64>,
    now: u64,
)
    ensures
        ({
            let (after, action) = pressed_edge(
                key,
                mode,
                phase,
                panel_visible,
                cooldown_until,
                now,
            );
            let counts = !key.held && (key.last_dispatch_ms matches Some(t) ==> t + 250 <= now);
            &&& after.held
            &&& counts ==> after.last_dispatch_ms == Some(now)
            &&& !counts ==> after.last_dispatch_ms == key.last_dispatch_ms && action
                == EdgeAction::Nothing
            &&& counts && panel_visible ==> (action == EdgeAction::Qa <==> phase
                == SessionPhase::Idle)
            &&& !panel_visible ==> action != EdgeAction::Qa
        }),
{
}

/// In toggle mode a press that counts begins a dictation while none runs and
/// the pause after the last one is over, and ends the one that listens. One
/// that is still starting is stopped as soon as it listens. An open question
/// panel takes the key only while no dictation runs.
pub proof fn law_toggle_press_begins_and_ends(
    key: KeyMemory,
    phase: SessionPhase,
    panel_visible: bool,
    cooldown_until: Option<u64>,
    now: u64,
)
    requires
        !key.held,
        key.last_dispatch_ms matches Some(t) ==> t + 250 <= now,
    ensures
        ({
            let action = pressed_edge(
                key,
                HotkeyMode::Toggle,
                phase,
                panel_visible,
                cooldown_until,
                now,
            ).1;
            let paused = cooldown_until matches Some(t) && now < t;
            &&& action == EdgeAction::End <==> phase == SessionPhase::Listening
            &&& action == EdgeAction::StopWhenStarted <==> phase == SessionPhase::Starting
            &&& action == EdgeAction::Begin <==> phase == SessionPhase::Idle && !panel_visible
                && !paused
            &&& action == EdgeAction::Qa <==> phase == SessionPhase::Idle && panel_visible
        }),
{
}

/// The next press that counts ends the toggle dictation that a press began,
/// whether it listens by then or is still starting.
pub proof fn law_next_press_ends_what_a_press_began(
    key: KeyMemory,
    cooldown_until: Option<u64>,
    later_cooldown: Option<u64>,
    panel_visible: bool,
    began: u64,
    later: u64,
)
    requires
        pressed_edge(
            key,
            HotkeyMode::Toggle,
            SessionPhase::Idle,
            false,
            cooldown_until,
            began,
        ).1 == EdgeAction::Begin,
        began + 250 <= later,
    ensures
        ({
            let down = pressed_edge(
                key,
                HotkeyMode::Toggle,
                SessionPhase::Idle,
                false,
                cooldown_until,
                began,
            ).0;
            let (up, on_release) = released_edge(
                down,
                HotkeyMode::Toggle,
                SessionPhase::Listening,
                panel_visible,
            );
            let again = |phase: SessionPhase|
                pressed_edge(
                    up,
                    HotkeyMode::Toggle,
                    phase,
                    panel_visible,
                    later_cooldown,
                    later,
                ).1;
            &&& on_release == EdgeAction::Nothing
            &&& again(SessionPhase::Listening) == EdgeAction::End
            &&& again(SessionPhase::Starting) == EdgeAction::StopWhenStarted
        }),
{
}

/// In hold mode the press begins a dictation while none runs, and the release
/// ends it. The press never ends one, and the release never begins one.
pub proof fn law_hold_lasts_while_the_key_is_down(
    key: KeyMemory,
    phase: SessionPhase,
    panel_visible: bool,
    cooldown_until: Option<u64>,
    now: u64,
)
    requires
        !key.held,
        key.last_dispatch_ms matches Some(t) ==> t + 250 <= now,
    ensures
        ({
            let (down, on_press) = pressed_edge(
                key,
                HotkeyMode::Hold,
                phase,
                panel_visible,
                cooldown_until,
                now,
            );
            let on_release = |later: SessionPhase|
                released_edge(down, HotkeyMode::Hold, later, panel_visible).1;
            &&& on_press == EdgeAction::Begin <==> phase == SessionPhase::Idle && !panel_visible
            &&& on_press != EdgeAction::End && on_press != EdgeAction::StopWhenStarted
            &&& on_release(SessionPhase::Listening) == EdgeAction::End
            &&& on_release(SessionPhase::Starting) == EdgeAction::StopWhenStarted
            &&& on_release(SessionPhase::Idle) == EdgeAction::Nothing
            &&& on_release(SessionPhase::Processing) == EdgeAction::Nothing
            &&& on_release(SessionPhase::Inserting) == EdgeAction::Nothing
        }),
{
}

/// A release is heard only once, after a press, and only in hold mode. It
/// leaves the key up and the time of the last press as it was.
pub proof fn law_release_follows_a_press(
    key: KeyMemory,
    mode: HotkeyMode,
    phase: SessionPhase,
    panel_visible: bool,
)
    ensures
        ({
            let (after, action) = released_edge(key, mode, phase, panel_visible);
            &&& !after.held
            &&& after.last_dispatch_ms == key.last_dispatch_ms
            &&& action != EdgeAction::Nothing ==> key.held && mode == HotkeyMode::Hold
            &&& action != EdgeAction::Begin && action != EdgeAction::Qa
            &&& released_edge(after, mode, phase, panel_visible).1 == EdgeAction::Nothing
        }),
{
}

/// The time that passed, added to the first moment, gives the second one. A
/// clock that went back gives none.
pub proof fn law_elapsed_time_leads_from_one_to_the_other(from: u64, to: u64)
    ensures
        from <= to ==> from + elapsed_spec(from, to) == to,
        to <= from ==> elapsed_spec(from, to) == 0,
{
}

/// The start of a session is finished by nobody but that session, while it is
/// starting and was not cancelled; a stop that came meanwhile is not lost.
pub proof fn law_only_a_live_start_is_finished(s: SessionState, id: u128)
    ensures
        ({
            let own = s.session_id == id;
            let live = own && s.phase == SessionPhase::Starting && !s.cancelled;
            let outcome = begin_outcome(s, id);
            &&& outcome == BeginOutcome::Started <==> live && !s.pending_stop
            &&& outcome == BeginOutcome::PendingStop <==> live && s.pending_stop
            &&& outcome == BeginOutcome::CancelRaced <==> own && !live
            &&& outcome == BeginOutcome::StaleContinuation <==> !own
            &&& race_status(s, id) == StartupRaceStatus::ActiveStarting <==> live
            &&& race_status(s, id) == StartupRaceStatus::CancelRaced <==> own && !live
        }),
{
}

/// A session can be cancelled from its start until its text goes to the cursor.
pub proof fn law_cancel_reaches_every_session_before_insertion(phase: SessionPhase)
    ensures
        cancellable(phase) <==> (phase == SessionPhase::Starting || phase
            == SessionPhase::Listening || phase == SessionPhase::Processing),
{
}

/// A session that moves on to another phase stays the same session.
pub proof fn law_a_phase_leaves_the_session_alone(s: SessionState, phase: SessionPhase)
    ensures
        ({
            let after = with_phase(s, phase);
            &&& after.phase == phase
            &&& after.session_id == s.session_id
            &&& after.cancelled == s.cancelled
            &&& after.pending_stop == s.pending_stop
            &&& after.started_at_ms == s.started_at_ms
            &&& after.focus_target == s.focus_target
            &&& after.front_app == s.front_app
            &&& after.voice_agent == s.voice_agent
        }),
{
}

/// Whatever a counting press is answered in toggle mode: the dictation that
/// listens ends, one that starts will be stopped, and one begins only while none
/// runs, after the pause.
pub proof fn law_toggle_key_is_answered(
    key: &mut KeyMemory,
    phase: SessionPhase,
    panel_visible: bool,
    cooldown_until: Option<u64>,
    now: u64,
    r: EdgeAction,
)
    requires
        call_ensures(
            handle_pressed_edge,
            (key, HotkeyMode::Toggle, phase, panel_visible, cooldown_until, now),
            r,
        ),
        !key.held,
        key.last_dispatch_ms matches Some(t) ==> t + 250 <= now,
    ensures
        final(key).held,
        final(key).last_dispatch_ms == Some(now),
        r == EdgeAction::End <==> phase == SessionPhase::Listening,
        r == EdgeAction::StopWhenStarted <==> phase == SessionPhase::Starting,
        r == EdgeAction::Qa <==> phase == SessionPhase::Idle && panel_visible,
        r == EdgeAction::Begin <==> phase == SessionPhase::Idle && !panel_visible && (
        cooldown_until matches Some(t) ==> t <= now),
{
}

/// Whatever a press is answered in hold mode and its release after it: the press
/// begins and the release ends.
pub proof fn law_hold_key_is_answered(
    key: &mut KeyMemory,
    up: &mut KeyMemory,
    phase: SessionPhase,
    later: SessionPhase,
    panel_visible: bool,
    cooldown_until: Option<u64>,
    now: u64,
    on_press: EdgeAction,
    on_release: EdgeAction,
)
    requires
        call_ensures(
            handle_pressed_edge,
            (key, HotkeyMode::Hold, phase, panel_visible, cooldown_until, now),
            on_press,
        ),
        call_ensures(handle_released_edge, (up, HotkeyMode::Hold, later, panel_visible), on_release),
        !key.held,
        key.last_dispatch_ms matches Some(t) ==> t + 250 <= now,
        up.held,
    ensures
        on_press == EdgeAction::Begin <==> phase == SessionPhase::Idle && !panel_visible,
        on_press == EdgeAction::Qa <==> phase == SessionPhase::Idle && panel_visible,
        on_press == EdgeAction::Nothing <==> phase != SessionPhase::Idle,
        on_release == EdgeAction::End <==> later == SessionPhase::Listening,
        on_release == EdgeAction::StopWhenStarted <==> later == SessionPhase::Starting,
        !final(up).held,
        final(up).last_dispatch_ms == old(up).last_dispatch_ms,
{
}

/// A press that does not count, because the key is down or the last press is too
/// near, asks for nothing and is not remembered as one. In automatic mode no
/// press and no release asks anything of the dictation itself.
pub proof fn law_other_presses_ask_for_nothing(
    key: &mut KeyMemory,
    mode: HotkeyMode,
    phase: SessionPhase,
    panel_visible: bool,
    cooldown_until: Option<u64>,
    now: u64,
    r: EdgeAction,
)
    requires
        call_ensures(
            handle_pressed_edge,
            (key, mode, phase, panel_visible, cooldown_until, now),
            r,
        ),
    ensures
        old(key).held || (old(key).last_dispatch_ms matches Some(t) && now < t + 250) ==> r
            == EdgeAction::Nothing && final(key).last_dispatch_ms == old(key).last_dispatch_ms,
        mode == HotkeyMode::Auto && !panel_visible ==> r == EdgeAction::Nothing,
        final(key).held,
{
}

/// A session is opened only while none runs. It is a new one in every respect,
/// and an open one is left alone.
pub proof fn law_one_session_at_a_time(
    state: &mut SessionState,
    id: u128,
    now: u64,
    focus_target: Option<u64>,
    front_app: Option<String>,
    r: Option<u128>,
)
    requires
        call_ensures(begin_session_state, (state, id, now, focus_target, front_app), r),
    ensures
        r is Some <==> old(state).phase == SessionPhase::Idle,
        r is None ==> *final(state) == *old(state),
        r is Some ==> {
            &&& r == Some(id)
            &&& final(state).session_id == id
            &&& final(state).phase == SessionPhase::Starting
            &&& final(state).started_at_ms == now
            &&& final(state).focus_target == focus_target
            &&& final(state).front_app == front_app
            &&& !final(state).cancelled && !final(state).pending_stop && !final(state).voice_agent
        },
{
}

/// A stop that comes before the session listens is taken up when it does: the
/// session then listens and reports the stop. One that was cancelled meanwhile
/// does neither.
pub proof fn law_early_stop_shows_when_the_session_listens(
    asked: &mut SessionState,
    started: &mut SessionState,
    took: bool,
    outcome: BeginOutcome,
)
    requires
        call_ensures(request_stop_during_starting_state, (asked,), took),
        call_ensures(
            finish_starting_session_state,
            (started, started.session_id),
            outcome,
        ),
    ensures
        took <==> old(asked).phase == SessionPhase::Starting && !old(asked).cancelled,
        took ==> final(asked).pending_stop && final(asked).phase == SessionPhase::Starting,
        final(asked).session_id == old(asked).session_id,
        !took ==> *final(asked) == *old(asked),
        old(started).phase == SessionPhase::Starting && !old(started).cancelled ==> {
            &&& final(started).phase == SessionPhase::Listening
            &&& !final(started).pending_stop
            &&& outcome == BeginOutcome::PendingStop <==> old(started).pending_stop
            &&& outcome == BeginOutcome::Started <==> !old(started).pending_stop
        },
        old(started).phase != SessionPhase::Starting || old(started).cancelled ==> outcome
            == BeginOutcome::CancelRaced && *final(started) == *old(started),
{
}

/// A listening session goes on to be processed exactly once.
pub proof fn law_recording_is_processed_once(
    state: &mut SessionState,
    again: &mut SessionState,
    r: Option<u128>,
    second: Option<u128>,
)
    requires
        call_ensures(start_processing_if_listening, (state,), r),
        call_ensures(start_processing_if_listening, (again,), second),
    ensures
        r is Some <==> old(state).phase == SessionPhase::Listening,
        r is Some ==> r == Some(old(state).session_id) && final(state).phase == SessionPhase::Processing,
        r is None ==> *final(state) == *old(state),
        r is Some && old(again).phase == final(state).phase ==> second is None,
{
}

/// A cancel marks the session while it can still be stopped and reports which one
/// and where it stood; once that is done, the session is idle and its window is
/// forgotten. A cancel of another session touches nothing.
pub proof fn law_cancel_marks_and_frees(
    state: &mut SessionState,
    after: &mut SessionState,
    decision: CancelDecision,
    r: Option<CancelDecision>,
    done: (),
)
    requires
        call_ensures(begin_cancel_session_state, (state,), r),
        call_ensures(finish_cancel_session_state, (after, decision), done),
    ensures
        r is Some <==> old(state).phase != SessionPhase::Idle && old(state).phase != SessionPhase::Inserting,
        r matches Some(d) ==> {
            &&& d.session_id == old(state).session_id
            &&& d.phase == old(state).phase
            &&& final(state).cancelled && !final(state).pending_stop
            &&& final(state).phase == old(state).phase
            &&& final(state).session_id == old(state).session_id
        },
        r is None ==> *final(state) == *old(state),
        old(after).session_id == decision.session_id ==> final(after).phase == SessionPhase::Idle
            && final(after).focus_target is None && final(after).session_id == old(after).session_id,
        old(after).session_id != decision.session_id ==> *final(after) == *old(after),
{
}

/// A recording that fails ends the session it belongs to and no other: it is
/// marked at once, and idle once its resources are given back.
pub proof fn law_failed_recording_ends_its_own_session(
    state: &mut SessionState,
    after: &mut SessionState,
    id: u128,
    now: u64,
    r: Option<RecordingAbort>,
    done: (),
)
    requires
        call_ensures(begin_recording_abort_before_restore, (state, now), r),
        call_ensures(publish_abort_idle_after_restore, (after, id), done),
    ensures
        r is Some <==> (old(state).phase == SessionPhase::Starting || old(state).phase
            == SessionPhase::Listening),
        r matches Some(a) ==> {
            &&& a.session_id == old(state).session_id
            &&& old(state).started_at_ms <= now ==> old(state).started_at_ms + a.elapsed_ms == now
            &&& final(state).cancelled
            &&& final(state).phase == old(state).phase
        },
        r is None ==> *final(state) == *old(state),
        old(after).session_id == id ==> final(after).phase == SessionPhase::Idle && final(after).focus_target is None,
        old(after).session_id != id ==> *final(after) == *old(after),
{
}

/// What a press and a release ask of a dictation, each mode by itself: in toggle mode
/// the press does everything and the release nothing, in hold mode the press begins
/// and the release ends. Neither ends a dictation that is not there, nor begins one
/// beside another.
pub proof fn law_what_a_key_asks_for(
    mode: HotkeyMode,
    phase: SessionPhase,
    cooldown_until: Option<u64>,
    now: u64,
    on_press: EdgeAction,
    on_release: EdgeAction,
)
    requires
        call_ensures(handle_pressed, (mode, phase, cooldown_until, now), on_press),
        call_ensures(handle_released, (mode, phase), on_release),
    ensures
        on_press == EdgeAction::End <==> mode == HotkeyMode::Toggle && phase
            == SessionPhase::Listening,
        on_press == EdgeAction::StopWhenStarted <==> mode == HotkeyMode::Toggle && phase
            == SessionPhase::Starting,
        on_press == EdgeAction::Begin <==> phase == SessionPhase::Idle && (mode == HotkeyMode::Hold
            || (mode == HotkeyMode::Toggle && (cooldown_until matches Some(t) ==> t <= now))),
        on_press != EdgeAction::Qa,
        on_release == EdgeAction::End <==> mode == HotkeyMode::Hold && phase
            == SessionPhase::Listening,
        on_release == EdgeAction::StopWhenStarted <==> mode == HotkeyMode::Hold && phase
            == SessionPhase::Starting,
        on_release != EdgeAction::Begin && on_release != EdgeAction::Qa,
{
}

/// A session that starts is the current one, not cancelled and still starting; only
/// the current session returns to rest, and nothing else of it changes. A time that
/// passed leads from one moment to the other.
pub proof fn law_only_the_current_session_rests(
    state: &mut SessionState,
    id: u128,
    status: StartupRaceStatus,
    from: u64,
    to: u64,
    passed: u64,
)
    requires
        call_ensures(startup_race_status_for_starting, (&*state, id), status),
        call_ensures(set_phase_idle_if_session_matches, (state, id), ()),
        call_ensures(elapsed_ms, (from, to), passed),
    ensures
        status == StartupRaceStatus::StaleContinuation <==> old(state).session_id != id,
        status == StartupRaceStatus::ActiveStarting <==> old(state).session_id == id && old(state).phase
            == SessionPhase::Starting && !old(state).cancelled,
        old(state).session_id == id ==> final(state).phase == SessionPhase::Idle,
        old(state).session_id != id ==> *final(state) == *old(state),
        final(state).session_id == old(state).session_id,
        final(state).cancelled == old(state).cancelled,
        from <= to ==> from + passed == to,
        to <= from ==> passed == 0,
{
}

/// At first there is no session, and a press can begin one at once.
pub proof fn law_no_session_at_first(
    r: SessionState,
    mode: HotkeyMode,
    now: u64,
    on_press: EdgeAction,
)
    requires
        call_ensures(SessionState::new, (), r),
        mode != HotkeyMode::Auto,
        call_ensures(handle_pressed, (mode, r.phase, None::<u64>, now), on_press),
    ensures
        r.phase == SessionPhase::Idle && !r.cancelled && !r.pending_stop && !r.voice_agent,
        r.focus_target is None && r.front_app is None,
        r.session_id == 0 && r.started_at_ms == 0,
        on_press == EdgeAction::Begin,
{
}

} // verus!
