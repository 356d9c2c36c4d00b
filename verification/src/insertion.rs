//! Bringing a text to the cursor: which way is tried, and what is tried after
//! it.

use crate::history::{created_at, id_text, session_id_text, utc_rfc3339};
use crate::selection::{
    map_insert_status, outcome_of, InsertOutcome, PastePreferences, PasteRequest,
};
use crate::types::{opt_text, BackendError, BackendErrorCode, InsertStatus, Platform};
use crate::windows_ime::PreparedWindowsImeSession;
use std::collections::HashMap;
use vstd::prelude::*;

verus! {

broadcast use vstd::std_specs::hash::group_hash_axioms;

/// How text is inserted on Windows.
#[derive(Clone, Copy, PartialEq, Eq, Structural, Debug)]
pub enum WindowsInsertionMode {
    /// Through the text service.
    Tsf,
    /// By simulated keystrokes.
    SendInput,
    /// Through the clipboard.
    Paste,
}

/// The way a text takes.
#[derive(Clone, Copy, PartialEq, Eq, Structural, Debug)]
pub enum InsertWay {
    TextService,
    Keystrokes,
    /// The platform's own way, through the clipboard where it has no other.
    Paste,
}

/// The way a text takes first.
pub open spec fn first_way(platform: Platform, mode: WindowsInsertionMode) -> InsertWay {
    if platform != Platform::Windows {
        InsertWay::Paste
    } else {
        match mode {
            WindowsInsertionMode::Tsf => InsertWay::TextService,
            WindowsInsertionMode::SendInput => InsertWay::Keystrokes,
            WindowsInsertionMode::Paste => InsertWay::Paste,
        }
    }
}

/// What came of handing a text to the text service.
#[derive(Clone, Copy, PartialEq, Eq, Structural, Debug)]
pub enum TsfResult {
    /// No session was prepared.
    NotPrepared,
    Status(InsertStatus),
    /// The text was sent, and the answer was lost. Sending it again another
    /// way could insert it twice.
    OutcomeUnknown,
    Failed,
}

/// The status of a text that was handed to the text service.
pub open spec fn tsf_status(result: TsfResult) -> InsertStatus {
    match result {
        TsfResult::Status(s) => s,
        TsfResult::OutcomeUnknown => InsertStatus::PasteSent,
        _ => InsertStatus::Failed,
    }
}

/// What follows the text service.
#[derive(Clone, Copy, PartialEq, Eq, Structural, Debug)]
pub enum AfterTsf {
    Settled(InsertStatus),
    TryKeystrokes,
}

/// What follows the text service: a text that arrived, or may have arrived, is
/// not sent again; otherwise keystrokes are tried where that is allowed.
pub fn after_text_service(result: TsfResult, allow_fallback: bool) -> (r: AfterTsf)
    ensures
        r == (if tsf_status(result) == InsertStatus::Inserted || tsf_status(result)
            == InsertStatus::PasteSent {
            AfterTsf::Settled(tsf_status(result))
        } else if allow_fallback {
            AfterTsf::TryKeystrokes
        } else {
            AfterTsf::Settled(InsertStatus::Failed)
        }),
{
    let status: InsertStatus = match result {
        TsfResult::Status(s) => s,
        TsfResult::OutcomeUnknown => InsertStatus::PasteSent,
        _ => InsertStatus::Failed,
    };
    if status == InsertStatus::Inserted || status == InsertStatus::PasteSent {
        AfterTsf::Settled(status)
    } else if allow_fallback {
        AfterTsf::TryKeystrokes
    } else {
        AfterTsf::Settled(InsertStatus::Failed)
    }
}

/// Whether the text is copied after keystrokes failed. `typed` is what came of
/// the keystrokes.
pub fn windows_unicode_fallback(typed: InsertStatus, allow_fallback: bool) -> (copy: bool)
    ensures
        copy == (typed != InsertStatus::Inserted && allow_fallback),
{
    typed != InsertStatus::Inserted && allow_fallback
}

/// Which lines the simulated keystrokes break.
#[derive(Clone, Copy, PartialEq, Eq, Structural, Debug)]
pub enum NewlineMode {
    Enter,
    ShiftEnter,
}

#[derive(Clone, Copy, PartialEq, Eq, Structural, Debug)]
pub struct WindowsSendInputOptions {
    pub newline_mode: NewlineMode,
}

pub fn windows_sendinput_options_from_prefs(newline_mode: NewlineMode) -> (r:
    WindowsSendInputOptions)
    ensures
        r.newline_mode == newline_mode,
{
    WindowsSendInputOptions { newline_mode }
}

/// Whether keystrokes or the paste were tried, and what came of it.
#[derive(Clone, Copy, PartialEq, Eq, Structural, Debug)]
pub struct WayResults {
    pub tsf: TsfResult,
    pub typed: InsertStatus,
    pub copied: InsertStatus,
    pub pasted: InsertStatus,
}

/// The status of keystrokes with the copy behind them.
pub open spec fn keystroke_status(w: WayResults, allow_fallback: bool) -> InsertStatus {
    if w.typed != InsertStatus::Inserted && allow_fallback {
        w.copied
    } else {
        w.typed
    }
}

/// The status of an insertion, given what each way would come to.
pub open spec fn final_status(
    platform: Platform,
    mode: WindowsInsertionMode,
    allow_fallback: bool,
    w: WayResults,
) -> InsertStatus {
    match first_way(platform, mode) {
        InsertWay::Paste => w.pasted,
        InsertWay::Keystrokes => keystroke_status(w, allow_fallback),
        InsertWay::TextService => if tsf_status(w.tsf) == InsertStatus::Inserted || tsf_status(
            w.tsf,
        ) == InsertStatus::PasteSent {
            tsf_status(w.tsf)
        } else if allow_fallback {
            keystroke_status(w, allow_fallback)
        } else {
            InsertStatus::Failed
        },
    }
}

/// The outcome of an insertion. Of `ways` only those count that were tried.
pub fn insert(
    platform: Platform,
    mode: WindowsInsertionMode,
    allow_fallback: bool,
    ways: WayResults,
) -> (r: Result<InsertOutcome, BackendError>)
    ensures
        match outcome_of(final_status(platform, mode, allow_fallback, ways)) {
            Some(o) => r == Ok::<InsertOutcome, BackendError>(o),
            None => r matches Err(e) && e.is(
                BackendErrorCode::Platform,
                "Tauri text insertion failed"@,
            ),
        },
{
    let typed: InsertStatus = if windows_unicode_fallback(ways.typed, allow_fallback) {
        ways.copied
    } else {
        ways.typed
    };
    let status: InsertStatus = if platform != Platform::Windows {
        ways.pasted
    } else {
        match mode {
            WindowsInsertionMode::Paste => ways.pasted,
            WindowsInsertionMode::SendInput => typed,
            WindowsInsertionMode::Tsf => match after_text_service(ways.tsf, allow_fallback) {
                AfterTsf::Settled(s) => s,
                AfterTsf::TryKeystrokes => typed,
            },
        }
    };
    map_insert_status(status)
}

/// What the user's settings say of insertions.
#[derive(Clone, Copy, PartialEq, Eq, Structural, Debug)]
pub struct InsertSettings {
    pub mode: WindowsInsertionMode,
    pub allow_fallback: bool,
    pub newline_mode: NewlineMode,
    pub paste: PastePreferences,
    /// The way Android takes, by the host's number for it.
    pub android_strategy: u64,
}

/// The machine that a text is inserted on.
#[derive(Clone, Copy, PartialEq, Eq, Structural, Debug)]
pub enum InsertDevice {
    Desktop(Platform),
    Android,
}

/// A text for the text service.
#[derive(Debug)]
pub struct ImeSubmitRequest {
    pub session_id: String,
    pub text: String,
    pub created_at: Option<String>,
    /// The window that has the focus, by the host's number for it.
    pub target: Option<u64>,
}

/// What the host does to insert a text.
#[derive(Debug)]
pub enum InsertCall {
    Submit(ImeSubmitRequest),
    Keystrokes { text: String, options: WindowsSendInputOptions },
    Paste(PasteRequest),
    Android { text: String, strategy: u64 },
    /// No input method was prepared for the text service.
    Nothing,
}

/// The moment and the place of an insertion.
#[derive(Clone, Copy, PartialEq, Eq, Structural, Debug)]
pub struct InsertMoment {
    pub secs: i64,
    pub nanos: u32,
    pub target: Option<u64>,
}

/// `call` brings `text` of session `id` on its way.
pub open spec fn brings(
    call: InsertCall,
    id: u128,
    text: Seq<char>,
    device: InsertDevice,
    settings: InsertSettings,
    prepared: bool,
    moment: InsertMoment,
) -> bool {
    match device {
        InsertDevice::Android => call matches InsertCall::Android { text: t, strategy } && t@ == text
            && strategy == settings.android_strategy,
        InsertDevice::Desktop(platform) => match first_way(platform, settings.mode) {
            InsertWay::Paste => call matches InsertCall::Paste(p) && p.text@ == text
                && p.preferences == settings.paste,
            InsertWay::Keystrokes => call matches InsertCall::Keystrokes { text: t, options } && t@
                == text && options.newline_mode == settings.newline_mode,
            InsertWay::TextService => if prepared {
                &&& call matches InsertCall::Submit(s)
                &&& s.session_id@ == id_text(id)
                &&& s.text@ == text
                &&& opt_text(s.created_at) == utc_rfc3339(moment.secs, moment.nanos)
                &&& s.target == moment.target
            } else {
                call is Nothing
            },
        },
    }
}

/// What the host does first to insert a text. `prepared` says whether an input
/// method was prepared for the session.
pub fn insert_call(
    id: u128,
    text: String,
    device: InsertDevice,
    settings: InsertSettings,
    prepared: bool,
    moment: InsertMoment,
) -> (r: InsertCall)
    ensures
        brings(r, id, text@, device, settings, prepared, moment),
{
    let platform: Platform = match device {
        InsertDevice::Android => return InsertCall::Android {
            text,
            strategy: settings.android_strategy,
        },
        InsertDevice::Desktop(platform) => platform,
    };
    if platform != Platform::Windows {
        return InsertCall::Paste(PasteRequest { text, preferences: settings.paste });
    }
    match settings.mode {
        WindowsInsertionMode::Paste => InsertCall::Paste(
            PasteRequest { text, preferences: settings.paste },
        ),
        WindowsInsertionMode::SendInput => InsertCall::Keystrokes {
            text,
            options: windows_sendinput_options_from_prefs(settings.newline_mode),
        },
        WindowsInsertionMode::Tsf => if prepared {
            InsertCall::Submit(
                ImeSubmitRequest {
                    session_id: session_id_text(id),
                    text,
                    created_at: created_at(moment.secs, moment.nanos),
                    target: moment.target,
                },
            )
        } else {
            InsertCall::Nothing
        },
    }
}

/// What the host does after the text service, if anything: the same text by
/// keystrokes.
pub fn keystrokes_after(result: TsfResult, text: String, settings: InsertSettings) -> (r: Option<
    InsertCall,
>)
    ensures
        if tsf_status(result) != InsertStatus::Inserted && tsf_status(result)
            != InsertStatus::PasteSent && settings.allow_fallback {
            r matches Some(InsertCall::Keystrokes { text: t, options }) && t == text
                && options.newline_mode == settings.newline_mode
        } else {
            r is None
        },
{
    match after_text_service(result, settings.allow_fallback) {
        AfterTsf::Settled(_) => None,
        AfterTsf::TryKeystrokes => Some(
            InsertCall::Keystrokes {
                text,
                options: windows_sendinput_options_from_prefs(settings.newline_mode),
            },
        ),
    }
}

/// A text whose fate is unknown is never sent a second time.
pub proof fn law_unknown_outcome_is_not_repeated(allow_fallback: bool, w: WayResults)
    requires
        w.tsf == TsfResult::OutcomeUnknown,
    ensures
        final_status(Platform::Windows, WindowsInsertionMode::Tsf, allow_fallback, w)
            == InsertStatus::PasteSent,
{
}

/// The input-method sessions that are being prepared (`None`) or are ready.
pub struct TauriTextInserter {
    pub prepared: HashMap<u128, Option<PreparedWindowsImeSession>>,
}

/// The sessions by their number; `None` is one that is still being prepared.
pub type Prepared = Map<u128, Option<PreparedWindowsImeSession>>;

/// What comes back when `session` is ready, and what is kept: it is kept only
/// if it is still wanted.
pub open spec fn after_finish(
    m: Prepared,
    id: u128,
    session: PreparedWindowsImeSession,
) -> (Option<PreparedWindowsImeSession>, Prepared) {
    if m.contains_key(id) {
        (None, m.insert(id, Some(session)))
    } else {
        (Some(session), m)
    }
}

/// What comes back when session `id` is taken, and what is kept.
pub open spec fn after_take(m: Prepared, id: u128) -> (
    Option<PreparedWindowsImeSession>,
    Prepared,
) {
    (
        if m.contains_key(id) {
            m[id]
        } else {
            None
        },
        m.remove(id),
    )
}

/// Whether a session is taken before it is ready or afterwards: the input
/// method is handed out exactly once, and nothing of it is kept.
pub proof fn law_prepared_session_comes_back_once(
    m: Prepared,
    id: u128,
    session: PreparedWindowsImeSession,
)
    requires
        m.contains_key(id),
        m[id] is None,
    ensures
        after_take(m, id).0 is None,
        after_finish(after_take(m, id).1, id, session) == (Some(session), m.remove(id)),
        after_finish(m, id, session).0 is None,
        after_take(after_finish(m, id, session).1, id) == (Some(session), m.remove(id)),
{
    assert(m.insert(id, Some(session)).remove(id) =~= m.remove(id));
}

impl TauriTextInserter {
    pub fn new() -> (r: Self)
        ensures
            r.prepared@ == Map::<u128, Option<PreparedWindowsImeSession>>::empty(),
    {
        TauriTextInserter { prepared: HashMap::new() }
    }

    /// Begins to prepare session `id`. Only the text service needs it.
    pub fn prepare(&mut self, id: u128, platform: Platform, mode: WindowsInsertionMode) -> (r: bool)
        ensures
            r == (first_way(platform, mode) == InsertWay::TextService),
            final(self).prepared@ == (if r {
                old(self).prepared@.insert(id, None)
            } else {
                old(self).prepared@
            }),
    {
        if platform != Platform::Windows || mode != WindowsInsertionMode::Tsf {
            return false;
        }
        self.prepared.insert(id, None);
        true
    }

    /// Session `id` is ready. If it was cancelled meanwhile, the input method
    /// comes back to be restored.
    pub fn finish_prepare(&mut self, id: u128, session: PreparedWindowsImeSession) -> (r: Option<
        PreparedWindowsImeSession,
    >)
        ensures
            (r, final(self).prepared@) == after_finish(old(self).prepared@, id, session),
    {
        if self.prepared.contains_key(&id) {
            self.prepared.insert(id, Some(session));
            None
        } else {
            Some(session)
        }
    }

    /// Takes the prepared input method of session `id`, for an insertion or to
    /// give it back after a cancel.
    pub fn take(&mut self, id: u128) -> (r: Option<PreparedWindowsImeSession>)
        ensures
            (r, final(self).prepared@) == after_take(old(self).prepared@, id),
    {
        let slot: Option<Option<PreparedWindowsImeSession>> = self.prepared.remove(&id);
        proof {
            if !old(self).prepared@.contains_key(id) {
                assert(old(self).prepared@.remove(id) =~= old(self).prepared@);
            }
        }
        match slot {
            Some(Some(session)) => Some(session),
            _ => None,
        }
    }
}

/// A text that the text service reports as inserted or as sent, or whose fate is
/// unknown, is settled with that and is never sent another way. Any other is
/// typed, the same text, where that is allowed, and else has failed.
pub proof fn law_settled_text_is_sent_no_other_way(
    result: TsfResult,
    text: String,
    settings: InsertSettings,
    after: AfterTsf,
    next: Option<InsertCall>,
)
    requires
        call_ensures(after_text_service, (result, settings.allow_fallback), after),
        call_ensures(keystrokes_after, (result, text, settings), next),
    ensures
        result == TsfResult::Status(InsertStatus::Inserted) <==> after == AfterTsf::Settled(
            InsertStatus::Inserted,
        ),
        (result == TsfResult::Status(InsertStatus::PasteSent) || result
            == TsfResult::OutcomeUnknown) <==> after == AfterTsf::Settled(InsertStatus::PasteSent),
        after != AfterTsf::Settled(InsertStatus::CopiedFallback),
        after == AfterTsf::Settled(InsertStatus::Failed) ==> !settings.allow_fallback,
        after == AfterTsf::TryKeystrokes ==> settings.allow_fallback,
        next is Some <==> after == AfterTsf::TryKeystrokes,
        next matches Some(call) ==> {
            &&& call matches InsertCall::Keystrokes { text: typed, options }
            &&& typed@ == text@
            &&& options.newline_mode == settings.newline_mode
        },
{
}

/// Off Windows, and where the user wants the clipboard, the paste alone says what
/// became of a text.
pub proof fn law_a_paste_speaks_for_itself(
    platform: Platform,
    mode: WindowsInsertionMode,
    allow_fallback: bool,
    ways: WayResults,
    r: Result<InsertOutcome, BackendError>,
)
    requires
        call_ensures(insert, (platform, mode, allow_fallback, ways), r),
        platform != Platform::Windows || mode == WindowsInsertionMode::Paste,
    ensures
        r is Err <==> ways.pasted == InsertStatus::Failed,
        r matches Ok(InsertOutcome::Inserted) <==> ways.pasted == InsertStatus::Inserted,
        r matches Ok(InsertOutcome::Unknown) <==> ways.pasted == InsertStatus::PasteSent,
        r matches Ok(InsertOutcome::CopiedFallback) <==> ways.pasted
            == InsertStatus::CopiedFallback,
        r matches Err(e) ==> e.code == BackendErrorCode::Platform,
{
}

/// Keystrokes that went through are an insertion, whatever else might have been
/// tried. Where they failed, the copy speaks if a fallback is allowed, and
/// without one the text is never reported as copied.
pub proof fn law_keystrokes_before_the_copy(
    allow_fallback: bool,
    ways: WayResults,
    r: Result<InsertOutcome, BackendError>,
)
    requires
        call_ensures(
            insert,
            (Platform::Windows, WindowsInsertionMode::SendInput, allow_fallback, ways),
            r,
        ),
    ensures
        ways.typed == InsertStatus::Inserted ==> r == Ok::<InsertOutcome, BackendError>(
            InsertOutcome::Inserted,
        ),
        ways.typed == InsertStatus::Failed && !allow_fallback ==> r is Err,
        ways.typed == InsertStatus::Failed && allow_fallback ==> (r is Ok <==> ways.copied
            != InsertStatus::Failed),
        ways.typed != InsertStatus::Inserted && allow_fallback && ways.copied
            == InsertStatus::CopiedFallback ==> r == Ok::<InsertOutcome, BackendError>(
            InsertOutcome::CopiedFallback,
        ),
        ways.typed == InsertStatus::PasteSent && !allow_fallback ==> r == Ok::<
            InsertOutcome,
            BackendError,
        >(InsertOutcome::Unknown),
{
}

/// Through the text service: what it reports as inserted or sent is the outcome.
/// Otherwise the outcome is that of keystrokes alone where a fallback is allowed,
/// and a failure where it is not.
pub proof fn law_text_service_comes_first(
    allow_fallback: bool,
    ways: WayResults,
    served: Result<InsertOutcome, BackendError>,
    typed: Result<InsertOutcome, BackendError>,
)
    requires
        call_ensures(
            insert,
            (Platform::Windows, WindowsInsertionMode::Tsf, allow_fallback, ways),
            served,
        ),
        call_ensures(
            insert,
            (Platform::Windows, WindowsInsertionMode::SendInput, allow_fallback, ways),
            typed,
        ),
    ensures
        ways.tsf == TsfResult::Status(InsertStatus::Inserted) ==> served == Ok::<
            InsertOutcome,
            BackendError,
        >(InsertOutcome::Inserted),
        ways.tsf == TsfResult::Status(InsertStatus::PasteSent) || ways.tsf
            == TsfResult::OutcomeUnknown ==> served == Ok::<InsertOutcome, BackendError>(
            InsertOutcome::Unknown,
        ),
        ways.tsf == TsfResult::NotPrepared || ways.tsf == TsfResult::Failed || ways.tsf
            == TsfResult::Status(InsertStatus::Failed) || ways.tsf == TsfResult::Status(
            InsertStatus::CopiedFallback,
        ) ==> if allow_fallback {
            &&& served is Ok <==> typed is Ok
            &&& served is Ok ==> served == typed
        } else {
            served is Err
        },
{
}

/// Every way carries the text that was given, and the user's settings that belong
/// to it; which way it is depends on the machine, the setting and on whether the
/// text service is ready.
pub proof fn law_every_way_carries_the_text(
    id: u128,
    text: String,
    device: InsertDevice,
    settings: InsertSettings,
    prepared: bool,
    moment: InsertMoment,
    call: InsertCall,
)
    requires
        call_ensures(insert_call, (id, text, device, settings, prepared, moment), call),
    ensures
        call is Android <==> device == InsertDevice::Android,
        call is Submit <==> device == InsertDevice::Desktop(Platform::Windows) && settings.mode
            == WindowsInsertionMode::Tsf && prepared,
        call is Nothing <==> device == InsertDevice::Desktop(Platform::Windows) && settings.mode
            == WindowsInsertionMode::Tsf && !prepared,
        call is Keystrokes <==> device == InsertDevice::Desktop(Platform::Windows) && settings.mode
            == WindowsInsertionMode::SendInput,
        call is Paste <==> device == InsertDevice::Desktop(Platform::Linux) || device
            == InsertDevice::Desktop(Platform::MacOs) || (device == InsertDevice::Desktop(
            Platform::Windows,
        ) && settings.mode == WindowsInsertionMode::Paste),
        call matches InsertCall::Android { text: t, strategy } ==> t@ == text@ && strategy
            == settings.android_strategy,
        call matches InsertCall::Paste(p) ==> p.text@ == text@ && p.preferences == settings.paste,
        call matches InsertCall::Keystrokes { text: t, options } ==> t@ == text@
            && options.newline_mode == settings.newline_mode,
        call matches InsertCall::Submit(s) ==> s.text@ == text@ && s.target == moment.target
            && s.session_id@ == id_text(id),
{
}

/// After keystrokes the text is copied exactly where they did not insert it and a
/// fallback is allowed; lines are broken as the user wants it.
pub proof fn law_copy_follows_failed_keystrokes(
    typed: InsertStatus,
    allow_fallback: bool,
    copy: bool,
    newline_mode: NewlineMode,
    options: WindowsSendInputOptions,
)
    requires
        call_ensures(windows_unicode_fallback, (typed, allow_fallback), copy),
        call_ensures(windows_sendinput_options_from_prefs, (newline_mode,), options),
    ensures
        copy ==> allow_fallback,
        typed == InsertStatus::Inserted ==> !copy,
        typed == InsertStatus::Failed || typed == InsertStatus::PasteSent || typed
            == InsertStatus::CopiedFallback ==> copy == allow_fallback,
        options.newline_mode == newline_mode,
{
}

/// An input method is prepared only for the text service of Windows. Once it is
/// ready, whoever takes it under its session gets it, and nobody gets it again;
/// of other sessions nothing changes.
pub proof fn law_ready_session_is_there_to_take(
    begun: &mut TauriTextInserter,
    ready: &mut TauriTextInserter,
    taken: &mut TauriTextInserter,
    again: &mut TauriTextInserter,
    id: u128,
    other: u128,
    platform: Platform,
    mode: WindowsInsertionMode,
    session: PreparedWindowsImeSession,
    begins: bool,
    back: Option<PreparedWindowsImeSession>,
    first: Option<PreparedWindowsImeSession>,
    second: Option<PreparedWindowsImeSession>,
)
    requires
        call_ensures(TauriTextInserter::prepare, (begun, id, platform, mode), begins),
        call_ensures(TauriTextInserter::finish_prepare, (ready, id, session), back),
        call_ensures(TauriTextInserter::take, (taken, id), first),
        call_ensures(TauriTextInserter::take, (again, id), second),
        ready.prepared@ == final(begun).prepared@,
        taken.prepared@ == final(ready).prepared@,
        again.prepared@ == final(taken).prepared@,
        other != id,
    ensures
        begins <==> platform == Platform::Windows && mode == WindowsInsertionMode::Tsf,
        begins ==> back is None && first == Some(session),
        second is None,
        !begins ==> final(begun).prepared@ == old(begun).prepared@,
        !begins && !old(begun).prepared@.contains_key(id) ==> back == Some(session) && first is None,
        final(again).prepared@.contains_key(other) <==> old(begun).prepared@.contains_key(other),
        old(begun).prepared@.contains_key(other) ==> final(again).prepared@[other]
            == old(begun).prepared@[other],
{
}

/// At first nothing is prepared.
pub proof fn law_nothing_is_prepared_at_first(r: TauriTextInserter, id: u128)
    requires
        call_ensures(TauriTextInserter::new, (), r),
    ensures
        !r.prepared@.contains_key(id),
{
}

} // verus!
