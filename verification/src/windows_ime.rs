//! Lending the Windows input method to OpenLess for one insertion, and giving
//! it back.

use crate::text::{join2, lower_ascii, lowered, str_eq};
use crate::types::{InsertStatus, Platform};
use vstd::prelude::*;

verus! {

/// How long to wait before the second attempt to give the input method back.
pub const RESTORE_RETRY_DELAY_MS: u64 = 250;

/// The class of OpenLess's own text service.
pub const OPENLESS_CLSID: &'static str = "{6b9f3f4f-5ee7-42d6-9c61-9f80b03a5d7d}";

/// The profile of OpenLess's own text service.
pub const OPENLESS_PROFILE_GUID: &'static str = "{9b5f5e04-23f6-47da-9a26-d221f6c3f02e}";

#[derive(Debug)]
pub enum WindowsImeSessionError {
    Profile(String),
    Ipc(String),
}

impl WindowsImeSessionError {
    /// The words of this error.
    pub fn text(&self) -> (r: String)
        ensures
            r@ == (match *self {
                WindowsImeSessionError::Profile(m) => m@,
                WindowsImeSessionError::Ipc(m) => m@,
            }),
    {
        match self {
            WindowsImeSessionError::Profile(m) => m.clone(),
            WindowsImeSessionError::Ipc(m) => m.clone(),
        }
    }
}

/// What the text service did with a text.
#[derive(Clone, Copy, PartialEq, Eq, Structural, Debug)]
pub enum ImeSubmitStatus {
    Committed,
    Rejected,
    Failed,
}

pub fn map_ime_status_to_insert_status(status: ImeSubmitStatus) -> (r: InsertStatus)
    ensures
        r == (if status == ImeSubmitStatus::Committed {
            InsertStatus::Inserted
        } else {
            InsertStatus::CopiedFallback
        }),
{
    match status {
        ImeSubmitStatus::Committed => InsertStatus::Inserted,
        ImeSubmitStatus::Rejected | ImeSubmitStatus::Failed => InsertStatus::CopiedFallback,
    }
}

pub fn should_fallback_after_ime_result(status: ImeSubmitStatus) -> (r: bool)
    ensures
        r == (status != ImeSubmitStatus::Committed),
{
    status != ImeSubmitStatus::Committed
}

/// The input method that was active at some moment.
#[derive(Debug)]
pub enum ImeProfileSnapshot {
    KeyboardLayout { lang_id: u16, layout: u32 },
    TextService { lang_id: u16, clsid: String, profile_guid: String },
}

impl ImeProfileSnapshot {
    pub fn keyboard_layout(lang_id: u16, layout: u32) -> (r: Self)
        ensures
            r == (ImeProfileSnapshot::KeyboardLayout { lang_id, layout }),
    {
        ImeProfileSnapshot::KeyboardLayout { lang_id, layout }
    }

    pub fn text_service(lang_id: u16, clsid: String, profile_guid: String) -> (r: Self)
        ensures
            r == (ImeProfileSnapshot::TextService { lang_id, clsid, profile_guid }),
    {
        ImeProfileSnapshot::TextService { lang_id, clsid, profile_guid }
    }
}

/// The snapshot is OpenLess itself.
pub open spec fn is_openless(snapshot: ImeProfileSnapshot) -> bool {
    match snapshot {
        ImeProfileSnapshot::KeyboardLayout { .. } => false,
        ImeProfileSnapshot::TextService { clsid, profile_guid, .. } => lowered(clsid@)
            == OPENLESS_CLSID@ && lowered(profile_guid@) == OPENLESS_PROFILE_GUID@,
    }
}

/// Whether the snapshot is OpenLess itself. The letters of an identifier may
/// be in either case.
pub fn is_openless_profile_snapshot(snapshot: &ImeProfileSnapshot) -> (r: bool)
    ensures
        r == is_openless(*snapshot),
{
    match snapshot {
        ImeProfileSnapshot::KeyboardLayout { .. } => false,
        ImeProfileSnapshot::TextService { clsid, profile_guid, .. } => {
            let c: String = lower_ascii(clsid.as_str());
            let p: String = lower_ascii(profile_guid.as_str());
            str_eq(c.as_str(), OPENLESS_CLSID) && str_eq(p.as_str(), OPENLESS_PROFILE_GUID)
        },
    }
}

/// The digit for `n` in upper-case hexadecimal.
pub open spec fn upper_hex(n: int) -> char {
    if n < 10 {
        (('0' as u32) + n) as char
    } else {
        (('A' as u32) + (n - 10)) as char
    }
}

/// `n` in four upper-case hexadecimal digits.
pub open spec fn hex4(n: u16) -> Seq<char> {
    seq![
        upper_hex(n as int / 4096),
        upper_hex(n as int / 256 % 16),
        upper_hex(n as int / 16 % 16),
        upper_hex(n as int % 16),
    ]
}

fn hex_digit_char(n: u16) -> (r: char)
    requires
        n < 16,
    ensures
        r == upper_hex(n as int),
{
    if n < 10 {
        ('0' as u8 + n as u8) as char
    } else {
        ('A' as u8 + (n - 10) as u8) as char
    }
}

fn hex4_text(n: u16) -> (r: String)
    ensures
        r@ == hex4(n),
{
    let mut out: String = String::new();
    out.push(hex_digit_char(n / 4096));
    out.push(hex_digit_char(n / 256 % 16));
    out.push(hex_digit_char(n / 16 % 16));
    out.push(hex_digit_char(n % 16));
    proof {
        assert(out@ =~= hex4(n));
    }
    out
}

/// A snapshot in words, for the log.
pub open spec fn snapshot_text(s: ImeProfileSnapshot) -> Seq<char> {
    match s {
        ImeProfileSnapshot::KeyboardLayout { lang_id, .. } => "kind=KeyboardLayout lang=0x"@ + hex4(
            lang_id,
        ) + " clsid=none profile=none"@,
        ImeProfileSnapshot::TextService { lang_id, clsid, profile_guid } =>
            "kind=TextService lang=0x"@ + hex4(lang_id) + " clsid="@ + clsid@ + " profile="@
            + profile_guid@,
    }
}

pub fn describe_snapshot(snapshot: &ImeProfileSnapshot) -> (r: String)
    ensures
        r@ == snapshot_text(*snapshot),
{
    match snapshot {
        ImeProfileSnapshot::KeyboardLayout { lang_id, .. } => {
            let hex: String = hex4_text(*lang_id);
            join2("kind=KeyboardLayout lang=0x", hex.as_str()).concat(" clsid=none profile=none")
        },
        ImeProfileSnapshot::TextService { lang_id, clsid, profile_guid } => {
            let hex: String = hex4_text(*lang_id);
            join2("kind=TextService lang=0x", hex.as_str()).concat(" clsid=").concat(
                clsid.as_str(),
            ).concat(" profile=").concat(profile_guid.as_str())
        },
    }
}

/// How the attempt to give the input method back ended.
#[derive(Clone, Copy, PartialEq, Eq, Structural, Debug)]
pub enum RestoreOutcome {
    /// What was saved is OpenLess itself: an earlier session did not give the
    /// input method back, and restoring would make that permanent.
    SkippedSticky,
    /// OpenLess is no longer active.
    Verified,
    /// After two attempts OpenLess is still active, or nobody can tell.
    FailedAfterRetry,
}

/// What the host has to do next to give the input method back.
#[derive(Debug)]
pub enum RestoreStep {
    /// Restore `profile`, after a wait where asked for, and look whether
    /// OpenLess is still active.
    Restore { profile: ImeProfileSnapshot, attempt: u8, wait_ms: u64 },
    Finished(RestoreOutcome),
}

/// The first step.
pub open spec fn first_step(saved: ImeProfileSnapshot) -> RestoreStep {
    if is_openless(saved) {
        RestoreStep::Finished(RestoreOutcome::SkippedSticky)
    } else {
        RestoreStep::Restore { profile: saved, attempt: 0, wait_ms: 0 }
    }
}

/// The step after an attempt. Only a look that finds OpenLess inactive counts
/// as a success; whether the restore itself reported an error does not matter.
pub open spec fn next_step(
    profile: ImeProfileSnapshot,
    attempt: u8,
    openless_active: Option<bool>,
) -> RestoreStep {
    if openless_active == Some(false) {
        RestoreStep::Finished(RestoreOutcome::Verified)
    } else if attempt == 0 {
        RestoreStep::Restore { profile, attempt: 1, wait_ms: RESTORE_RETRY_DELAY_MS }
    } else {
        RestoreStep::Finished(RestoreOutcome::FailedAfterRetry)
    }
}

fn copy_snapshot(snapshot: &ImeProfileSnapshot) -> (r: ImeProfileSnapshot)
    ensures
        r == *snapshot,
{
    match snapshot {
        ImeProfileSnapshot::KeyboardLayout { lang_id, layout } =>
            ImeProfileSnapshot::KeyboardLayout { lang_id: *lang_id, layout: *layout },
        ImeProfileSnapshot::TextService { lang_id, clsid, profile_guid } =>
            ImeProfileSnapshot::TextService {
                lang_id: *lang_id,
                clsid: clsid.clone(),
                profile_guid: profile_guid.clone(),
            },
    }
}

/// Begins to give the input method back.
pub fn run_restore_flow(saved_profile: &ImeProfileSnapshot) -> (r: RestoreStep)
    ensures
        r == first_step(*saved_profile),
{
    if is_openless_profile_snapshot(saved_profile) {
        return RestoreStep::Finished(RestoreOutcome::SkippedSticky);
    }
    RestoreStep::Restore { profile: copy_snapshot(saved_profile), attempt: 0, wait_ms: 0 }
}

/// An attempt to restore `profile` was made; `openless_active` is `None` where
/// the look failed.
pub fn restore_attempted(
    profile: ImeProfileSnapshot,
    attempt: u8,
    openless_active: Option<bool>,
) -> (r: RestoreStep)
    ensures
        r == next_step(profile, attempt, openless_active),
{
    match openless_active {
        Some(false) => RestoreStep::Finished(RestoreOutcome::Verified),
        _ => if attempt == 0 {
            RestoreStep::Restore { profile, attempt: 1, wait_ms: RESTORE_RETRY_DELAY_MS }
        } else {
            RestoreStep::Finished(RestoreOutcome::FailedAfterRetry)
        },
    }
}

/// What a whole run comes to, given what each look would find.
pub open spec fn flow_outcome(
    saved: ImeProfileSnapshot,
    first: Option<bool>,
    second: Option<bool>,
) -> RestoreOutcome {
    match first_step(saved) {
        RestoreStep::Finished(o) => o,
        RestoreStep::Restore { profile, attempt, .. } => match next_step(profile, attempt, first) {
            RestoreStep::Finished(o) => o,
            RestoreStep::Restore { profile, attempt, .. } => match next_step(
                profile,
                attempt,
                second,
            ) {
                RestoreStep::Finished(o) => o,
                RestoreStep::Restore { .. } => RestoreOutcome::FailedAfterRetry,
            },
        },
    }
}

/// A run takes at most two attempts, none at all where the saved profile is
/// OpenLess itself, and ends in success exactly where a look found OpenLess
/// inactive. No attempt restores anything but the saved profile.
pub proof fn law_restore_flow_ends(
    saved: ImeProfileSnapshot,
    first: Option<bool>,
    second: Option<bool>,
)
    ensures
        is_openless(saved) <==> first_step(saved) is Finished,
        next_step(saved, 1, second) is Finished,
        next_step(saved, 0, first) is Finished <==> first == Some(false),
        first_step(saved) matches RestoreStep::Restore { profile, .. } ==> profile == saved,
        next_step(saved, 0, first) matches RestoreStep::Restore { profile, .. } ==> profile
            == saved,
        flow_outcome(saved, first, second) == RestoreOutcome::SkippedSticky <==> is_openless(saved),
        flow_outcome(saved, first, second) == RestoreOutcome::Verified <==> !is_openless(saved) && (
        first == Some(false) || second == Some(false)),
{
}

/// What is remembered of the input method while OpenLess uses it.
#[derive(Debug)]
pub struct PreparedWindowsImeSession {
    pub saved_profile: Option<ImeProfileSnapshot>,
    pub openless_activated: bool,
}

impl PreparedWindowsImeSession {
    /// The input method could not even be looked at.
    pub fn unavailable() -> (r: Self)
        ensures
            r.saved_profile is None,
            !r.openless_activated,
    {
        PreparedWindowsImeSession { saved_profile: None, openless_activated: false }
    }

    /// The input method was looked at, but OpenLess could not take it.
    pub fn activation_failed(saved_profile: ImeProfileSnapshot) -> (r: Self)
        ensures
            r.saved_profile == Some(saved_profile),
            !r.openless_activated,
    {
        PreparedWindowsImeSession { saved_profile: Some(saved_profile), openless_activated: false }
    }

    pub fn is_ready_for_tsf_submit(&self) -> (r: bool)
        ensures
            r == (self.saved_profile is Some && self.openless_activated),
    {
        self.has_saved_profile() && self.openless_was_activated()
    }

    pub fn has_saved_profile(&self) -> (r: bool)
        ensures
            r == (self.saved_profile is Some),
    {
        self.saved_profile.is_some()
    }

    pub fn openless_was_activated(&self) -> (r: bool)
        ensures
            r == self.openless_activated,
    {
        self.openless_activated
    }

    pub fn activation_failed_with_saved_profile(&self) -> (r: bool)
        ensures
            r == (self.saved_profile is Some && !self.openless_activated),
    {
        self.has_saved_profile() && !self.openless_was_activated()
    }
}

/// Whether the saved input method is given back.
#[derive(Clone, Copy, PartialEq, Eq, Structural, Debug)]
pub enum ProfileRestoreDecision {
    RestoreSavedProfile,
    KeepCurrentProfile,
}

/// The saved input method is given back exactly where OpenLess is known to
/// have taken its place.
pub fn restore_decision(
    has_saved_profile: bool,
    openless_was_activated: bool,
    activation_failed: bool,
) -> (r: ProfileRestoreDecision)
    ensures
        r == (if has_saved_profile && openless_was_activated && !activation_failed {
            ProfileRestoreDecision::RestoreSavedProfile
        } else {
            ProfileRestoreDecision::KeepCurrentProfile
        }),
{
    if has_saved_profile && openless_was_activated && !activation_failed {
        ProfileRestoreDecision::RestoreSavedProfile
    } else {
        ProfileRestoreDecision::KeepCurrentProfile
    }
}

/// What follows the look at the active profile.
#[derive(Debug)]
pub enum PrepareStep {
    /// Let OpenLess take the place of the profile.
    Activate { saved: ImeProfileSnapshot },
    /// Nothing is activated.
    Finished(PreparedWindowsImeSession),
}

/// What follows the look at the active profile: OpenLess is activated exactly
/// on Windows and where the profile is known.
pub open spec fn prepare_step(
    platform: Platform,
    captured: Result<ImeProfileSnapshot, String>,
) -> PrepareStep {
    if platform == Platform::Windows && captured is Ok {
        PrepareStep::Activate { saved: captured->Ok_0 }
    } else {
        PrepareStep::Finished(
            PreparedWindowsImeSession { saved_profile: None, openless_activated: false },
        )
    }
}

/// After a look that failed, OpenLess is not activated, and there is nothing
/// to give back.
pub proof fn law_failed_look_activates_nothing(platform: Platform, error: String)
    ensures
        prepare_step(platform, Err(error)) !is Activate,
        prepare_step(platform, Err(error)) matches PrepareStep::Finished(p) && p.saved_profile
            is None && !p.openless_activated,
{
}

/// Lends the input method to sessions on one platform.
#[derive(Debug)]
pub struct WindowsImeSessionController {
    pub platform: Platform,
}

impl WindowsImeSessionController {
    pub fn new(platform: Platform) -> (r: Self)
        ensures
            r.platform == platform,
    {
        WindowsImeSessionController { platform }
    }

    /// The active profile was looked at, or could not be. OpenLess takes the
    /// place of a profile only where it can be given back.
    pub fn profile_captured(&self, captured: Result<ImeProfileSnapshot, String>) -> (r: PrepareStep)
        ensures
            r == prepare_step(self.platform, captured),
    {
        if self.platform != Platform::Windows {
            return PrepareStep::Finished(PreparedWindowsImeSession::unavailable());
        }
        match captured {
            Err(_) => PrepareStep::Finished(PreparedWindowsImeSession::unavailable()),
            Ok(saved) => PrepareStep::Activate { saved },
        }
    }

    /// OpenLess was asked to take the place of `saved`.
    pub fn openless_activated(saved: ImeProfileSnapshot, activated: Result<(), String>) -> (r:
        PreparedWindowsImeSession)
        ensures
            r == (PreparedWindowsImeSession {
                saved_profile: Some(saved),
                openless_activated: activated is Ok,
            }),
    {
        match activated {
            Ok(()) => PreparedWindowsImeSession {
                saved_profile: Some(saved),
                openless_activated: true,
            },
            Err(_) => PreparedWindowsImeSession::activation_failed(saved),
        }
    }

    /// Takes the input method for a session. `captured` is the profile that
    /// was active. `activated`, whether OpenLess could take its place, counts
    /// only where the first step asks for that.
    pub fn prepare_session(
        &self,
        captured: Result<ImeProfileSnapshot, String>,
        activated: Result<(), String>,
    ) -> (r: PreparedWindowsImeSession)
        ensures
            r == (match prepare_step(self.platform, captured) {
                PrepareStep::Finished(prepared) => prepared,
                PrepareStep::Activate { saved } => PreparedWindowsImeSession {
                    saved_profile: Some(saved),
                    openless_activated: activated is Ok,
                },
            }),
            r.saved_profile is Some <==> self.platform == Platform::Windows && captured is Ok,
    {
        match self.profile_captured(captured) {
            PrepareStep::Finished(prepared) => prepared,
            PrepareStep::Activate { saved } => Self::openless_activated(saved, activated),
        }
    }

    /// Whether a text may be handed to the text service at all.
    pub fn check_submit(prepared: &PreparedWindowsImeSession) -> (r: Result<
        (),
        WindowsImeSessionError,
    >)
        ensures
            match r {
                Ok(()) => prepared.saved_profile is Some && prepared.openless_activated,
                Err(e) => !(prepared.saved_profile is Some && prepared.openless_activated) && (
                e matches WindowsImeSessionError::Ipc(m) && m@
                    == "OpenLess IME session is not active"@),
            },
    {
        if !prepared.is_ready_for_tsf_submit() {
            return Err(
                WindowsImeSessionError::Ipc("OpenLess IME session is not active".to_owned()),
            );
        }
        Ok(())
    }

    /// What became of a text that was handed to the text service. Without an
    /// active session nothing is handed over.
    pub fn submit_prepared(
        prepared: &PreparedWindowsImeSession,
        reply: Result<ImeSubmitStatus, String>,
    ) -> (r: Result<InsertStatus, WindowsImeSessionError>)
        ensures
            if prepared.saved_profile is Some && prepared.openless_activated {
                match reply {
                    Ok(status) => r == Ok::<InsertStatus, WindowsImeSessionError>(
                        if status == ImeSubmitStatus::Committed {
                            InsertStatus::Inserted
                        } else {
                            InsertStatus::CopiedFallback
                        },
                    ),
                    Err(m) => r == Err::<InsertStatus, WindowsImeSessionError>(
                        WindowsImeSessionError::Ipc(m),
                    ),
                }
            } else {
                r matches Err(WindowsImeSessionError::Ipc(m)) && m@
                    == "OpenLess IME session is not active"@
            },
    {
        if let Err(e) = Self::check_submit(prepared) {
            return Err(e);
        }
        match reply {
            Ok(status) => Ok(map_ime_status_to_insert_status(status)),
            Err(m) => Err(WindowsImeSessionError::Ipc(m)),
        }
    }

    /// Gives the input method back after a session. `None` where there is
    /// nothing to give back.
    pub fn restore_session(prepared: &PreparedWindowsImeSession) -> (r: Option<RestoreStep>)
        ensures
            r == (if prepared.saved_profile is Some && prepared.openless_activated {
                Some(first_step(prepared.saved_profile->0))
            } else {
                None
            }),
    {
        let decision: ProfileRestoreDecision = restore_decision(
            prepared.has_saved_profile(),
            prepared.openless_was_activated(),
            prepared.activation_failed_with_saved_profile(),
        );
        match decision {
            ProfileRestoreDecision::KeepCurrentProfile => None,
            ProfileRestoreDecision::RestoreSavedProfile => match &prepared.saved_profile {
                Some(saved) => Some(run_restore_flow(saved)),
                None => None,
            },
        }
    }
}

/// Only a text that was committed counts as inserted, and only for any other a
/// fallback is wanted.
pub proof fn law_committed_text_is_inserted(
    status: ImeSubmitStatus,
    mapped: InsertStatus,
    fallback: bool,
)
    requires
        call_ensures(map_ime_status_to_insert_status, (status,), mapped),
        call_ensures(should_fallback_after_ime_result, (status,), fallback),
    ensures
        mapped == InsertStatus::Inserted <==> status == ImeSubmitStatus::Committed,
        mapped == InsertStatus::CopiedFallback <==> status == ImeSubmitStatus::Rejected || status
            == ImeSubmitStatus::Failed,
        fallback <==> mapped != InsertStatus::Inserted,
{
}

/// OpenLess is known by both of its identifiers, in either case of their letters,
/// whatever the language; a keyboard layout is never OpenLess.
pub proof fn law_openless_is_known_by_its_identifiers(
    snapshot: &ImeProfileSnapshot,
    class: String,
    profile: String,
    lower_class: String,
    lower_profile: String,
    class_text: &str,
    profile_text: &str,
    lang_id: u16,
    r: bool,
)
    requires
        call_ensures(is_openless_profile_snapshot, (snapshot,), r),
        class_text@ == class@,
        profile_text@ == profile@,
        call_ensures(lower_ascii, (class_text,), lower_class),
        call_ensures(lower_ascii, (profile_text,), lower_profile),
    ensures
        *snapshot is KeyboardLayout ==> !r,
        *snapshot == (ImeProfileSnapshot::TextService { lang_id, clsid: class, profile_guid: profile })
            ==> (r <==> lower_class@ == "{6b9f3f4f-5ee7-42d6-9c61-9f80b03a5d7d}"@ && lower_profile@
            == "{9b5f5e04-23f6-47da-9a26-d221f6c3f02e}"@),
{
}

/// What is given back is what was saved, unless that is OpenLess itself. A look
/// that finds OpenLess inactive ends the run well; otherwise the same profile is
/// restored once more, after a quarter of a second, and then no more.
pub proof fn law_saved_input_method_is_given_back(
    saved: &ImeProfileSnapshot,
    own: bool,
    first_look: Option<bool>,
    second_look: Option<bool>,
    start: RestoreStep,
    then: RestoreStep,
    last: RestoreStep,
)
    requires
        call_ensures(is_openless_profile_snapshot, (saved,), own),
        call_ensures(run_restore_flow, (saved,), start),
        call_ensures(restore_attempted, (*saved, 0u8, first_look), then),
        call_ensures(restore_attempted, (*saved, 1u8, second_look), last),
    ensures
        own <==> start == RestoreStep::Finished(RestoreOutcome::SkippedSticky),
        !own ==> start is Restore && start->profile == *saved && start->attempt == 0
            && start->wait_ms == 0,
        then == RestoreStep::Finished(RestoreOutcome::Verified) <==> first_look == Some(false),
        first_look != Some(false) ==> then is Restore && then->profile == *saved && then->attempt
            == 1 && then->wait_ms == 250,
        last == RestoreStep::Finished(RestoreOutcome::Verified) <==> second_look == Some(false),
        last == RestoreStep::Finished(RestoreOutcome::FailedAfterRetry) <==> second_look
            != Some(false),
{
}

/// The input method is lent only on Windows and only where the one before is known,
/// and that one is remembered. A text may be handed over, and something is given
/// back, exactly where OpenLess then took the place.
pub proof fn law_input_method_is_lent_and_given_back(
    controller: &WindowsImeSessionController,
    captured: Result<ImeProfileSnapshot, String>,
    activated: Result<(), String>,
    step: PrepareStep,
    prepared: PreparedWindowsImeSession,
    ready: bool,
    may: Result<(), WindowsImeSessionError>,
    reply: Result<ImeSubmitStatus, String>,
    status: Result<InsertStatus, WindowsImeSessionError>,
    back: Option<RestoreStep>,
)
    requires
        call_ensures(WindowsImeSessionController::profile_captured, (controller, captured), step),
        call_ensures(
            WindowsImeSessionController::prepare_session,
            (controller, captured, activated),
            prepared,
        ),
        call_ensures(PreparedWindowsImeSession::is_ready_for_tsf_submit, (&prepared,), ready),
        call_ensures(WindowsImeSessionController::check_submit, (&prepared,), may),
        call_ensures(WindowsImeSessionController::submit_prepared, (&prepared, reply), status),
        call_ensures(WindowsImeSessionController::restore_session, (&prepared,), back),
    ensures
        step is Activate <==> controller.platform == Platform::Windows && captured is Ok,
        step is Activate ==> step->saved == captured->Ok_0 && prepared.saved_profile == Some(
            captured->Ok_0,
        ) && (prepared.openless_activated <==> activated is Ok),
        !(step is Activate) ==> prepared.saved_profile is None && !prepared.openless_activated,
        ready <==> step is Activate && activated is Ok,
        may is Ok <==> ready,
        back is Some <==> ready,
        back is Some ==> (back->0 matches RestoreStep::Restore { profile, .. } ==> profile
            == captured->Ok_0),
        status is Ok <==> ready && reply is Ok,
        status == Ok::<InsertStatus, WindowsImeSessionError>(InsertStatus::Inserted) <==> ready
            && reply == Ok::<ImeSubmitStatus, String>(ImeSubmitStatus::Committed),
        ready && reply is Err ==> status == Err::<InsertStatus, WindowsImeSessionError>(
            WindowsImeSessionError::Ipc(reply->Err_0),
        ),
{
}

/// The saved input method is given back exactly where there is one, OpenLess took
/// its place and that did not fail.
pub proof fn law_restore_needs_all_three(
    saved: bool,
    activated: bool,
    failed: bool,
    r: ProfileRestoreDecision,
)
    requires
        call_ensures(restore_decision, (saved, activated, failed), r),
    ensures
        r == ProfileRestoreDecision::RestoreSavedProfile <==> saved && activated && !failed,
        r == ProfileRestoreDecision::KeepCurrentProfile <==> !saved || !activated || failed,
{
}

/// The value of a hexadecimal digit.
pub open spec fn hex_value(c: char) -> int {
    if '0' <= c <= '9' {
        c as int - '0' as int
    } else {
        c as int - 'A' as int + 10
    }
}

proof fn lemma_hex4(n: u16)
    ensures
        hex4(n).len() == 4,
        hex_value(hex4(n)[0]) * 4096 + hex_value(hex4(n)[1]) * 256 + hex_value(hex4(n)[2]) * 16
            + hex_value(hex4(n)[3]) == n,
{
    let m = n as int;
    assert(hex_value(upper_hex(m / 4096)) == m / 4096);
    assert(hex_value(upper_hex(m / 256 % 16)) == m / 256 % 16);
    assert(hex_value(upper_hex(m / 16 % 16)) == m / 16 % 16);
    assert(hex_value(upper_hex(m % 16)) == m % 16);
}

/// The log names the language of a keyboard layout in four digits that read back as
/// its number.
pub proof fn law_log_names_the_layout(lang_id: u16, layout: u32, snapshot: &ImeProfileSnapshot, r: String)
    requires
        *snapshot == (ImeProfileSnapshot::KeyboardLayout { lang_id, layout }),
        call_ensures(describe_snapshot, (snapshot,), r),
    ensures
        exists|digits: Seq<char>|
            #![trigger digits.len()]
            {
                &&& digits.len() == 4
                &&& hex_value(digits[0]) * 4096 + hex_value(digits[1]) * 256 + hex_value(digits[2])
                    * 16 + hex_value(digits[3]) == lang_id
                &&& r@ == "kind=KeyboardLayout lang=0x"@ + digits + " clsid=none profile=none"@
            },
{
    lemma_hex4(lang_id);
    let digits = hex4(lang_id);
    assert(digits.len() == 4);
}

/// Of a text service it names the language in the same way, and both identifiers.
pub proof fn law_log_names_the_text_service(
    lang_id: u16,
    clsid: String,
    profile_guid: String,
    snapshot: &ImeProfileSnapshot,
    r: String,
)
    requires
        *snapshot == (ImeProfileSnapshot::TextService { lang_id, clsid, profile_guid }),
        call_ensures(describe_snapshot, (snapshot,), r),
    ensures
        exists|digits: Seq<char>|
            #![trigger digits.len()]
            {
                &&& digits.len() == 4
                &&& hex_value(digits[0]) * 4096 + hex_value(digits[1]) * 256 + hex_value(digits[2])
                    * 16 + hex_value(digits[3]) == lang_id
                &&& r@ == "kind=TextService lang=0x"@ + digits + " clsid="@ + clsid@ + " profile="@
                    + profile_guid@
            },
{
    lemma_hex4(lang_id);
    let digits = hex4(lang_id);
    assert(digits.len() == 4);
}

/// What is saved of an input method is what it was, and a session knows whether
/// OpenLess took its place.
pub proof fn law_session_knows_what_it_saved(
    lang: u16,
    layout: u32,
    clsid: String,
    guid: String,
    saved: ImeProfileSnapshot,
    activated: Result<(), String>,
    keys: ImeProfileSnapshot,
    service: ImeProfileSnapshot,
    none: PreparedWindowsImeSession,
    failed: PreparedWindowsImeSession,
    session: PreparedWindowsImeSession,
    has: bool,
    was: bool,
    lost: bool,
)
    requires
        call_ensures(ImeProfileSnapshot::keyboard_layout, (lang, layout), keys),
        call_ensures(ImeProfileSnapshot::text_service, (lang, clsid, guid), service),
        call_ensures(PreparedWindowsImeSession::unavailable, (), none),
        call_ensures(PreparedWindowsImeSession::activation_failed, (saved,), failed),
        call_ensures(WindowsImeSessionController::openless_activated, (saved, activated), session),
        call_ensures(PreparedWindowsImeSession::has_saved_profile, (&session,), has),
        call_ensures(PreparedWindowsImeSession::openless_was_activated, (&session,), was),
        call_ensures(
            PreparedWindowsImeSession::activation_failed_with_saved_profile,
            (&session,),
            lost,
        ),
    ensures
        keys is KeyboardLayout && keys->KeyboardLayout_lang_id == lang && keys->layout == layout,
        service is TextService && service->TextService_lang_id == lang && service->clsid == clsid
            && service->profile_guid == guid,
        none.saved_profile is None && !none.openless_activated,
        failed.saved_profile == Some(saved) && !failed.openless_activated,
        session.saved_profile == Some(saved),
        has,
        was <==> activated is Ok,
        lost <==> activated is Err,
{
}

/// A controller works for the platform that it was made for, and looks at no input
/// method but on Windows.
pub proof fn law_controller_serves_its_platform(
    platform: Platform,
    captured: Result<ImeProfileSnapshot, String>,
    r: WindowsImeSessionController,
    step: PrepareStep,
)
    requires
        call_ensures(WindowsImeSessionController::new, (platform,), r),
        call_ensures(WindowsImeSessionController::profile_captured, (&r, captured), step),
    ensures
        r.platform == platform,
        platform != Platform::Windows ==> step is Finished && step->Finished_0.saved_profile is None
            && !step->Finished_0.openless_activated,
{
}

} // verus!
