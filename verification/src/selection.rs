//! Replacing selected text: which session owns the selection, and when a
//! replacement may go to the cursor.

use crate::text::str_eq;
use crate::types::{BackendError, BackendErrorCode, InsertStatus};
use vstd::prelude::*;

verus! {

/// What became of a replacement.
#[derive(Clone, Copy, PartialEq, Eq, Structural, Debug)]
pub enum InsertOutcome {
    Inserted,
    CopiedFallback,
    /// The text was sent, but nobody confirmed it.
    Unknown,
}

/// The outcome of an insertion; only a failed one is an error.
pub open spec fn outcome_of(status: InsertStatus) -> Option<InsertOutcome> {
    match status {
        InsertStatus::Inserted => Some(InsertOutcome::Inserted),
        InsertStatus::PasteSent => Some(InsertOutcome::Unknown),
        InsertStatus::CopiedFallback => Some(InsertOutcome::CopiedFallback),
        InsertStatus::Failed => None,
    }
}

pub fn map_insert_status(status: InsertStatus) -> (r: Result<InsertOutcome, BackendError>)
    ensures
        match outcome_of(status) {
            Some(o) => r == Ok::<InsertOutcome, BackendError>(o),
            None => r matches Err(e) && e.is(
                BackendErrorCode::Platform,
                "Tauri text insertion failed"@,
            ),
        },
{
    match status {
        InsertStatus::Inserted => Ok(InsertOutcome::Inserted),
        InsertStatus::PasteSent => Ok(InsertOutcome::Unknown),
        InsertStatus::CopiedFallback => Ok(InsertOutcome::CopiedFallback),
        InsertStatus::Failed => Err(
            BackendError::new(BackendErrorCode::Platform, "Tauri text insertion failed"),
        ),
    }
}

/// Selected text and where it was found.
#[derive(Debug)]
pub struct SelectionCapture {
    pub text: String,
    pub source_app: Option<String>,
}

/// The place of a captured selection.
#[derive(Clone, Copy, PartialEq, Eq, Structural, Debug)]
pub struct TauriSelectionTarget {
    /// The window and place, as the platform names it.
    pub target: u64,
    /// A preview has taken the focus, so the window has to be brought back
    /// before the replacement.
    pub preview: bool,
}

/// The selection that is held for a session. A new capture takes the place of
/// the one before, so there is never more than one.
#[derive(Debug)]
pub struct TauriSelectionRuntime {
    pub held: Option<(u128, TauriSelectionTarget)>,
}

/// What the platform is asked for: `replacement_text` in the place of
/// `source_text`.
#[derive(Debug)]
pub struct SelectionReplacement {
    pub target: u64,
    pub source_text: String,
    pub replacement_text: String,
    /// The window has to be brought back first.
    pub reactivate: bool,
}

impl TauriSelectionRuntime {
    pub fn new() -> (r: Self)
        ensures
            r.held is None,
    {
        TauriSelectionRuntime { held: None }
    }

    /// The target of session `id`, if it is the one that holds the selection.
    pub open spec fn target_of(self, id: u128) -> Option<TauriSelectionTarget> {
        match self.held {
            Some((owner, target)) => if owner == id {
                Some(target)
            } else {
                None
            },
            None => None,
        }
    }

    fn owned_target(&self, id: u128) -> (r: Result<TauriSelectionTarget, BackendError>)
        ensures
            match self.target_of(id) {
                Some(t) => r == Ok::<TauriSelectionTarget, BackendError>(t),
                None => r matches Err(e) && e.is(
                    BackendErrorCode::Cancelled,
                    "selection target is no longer active"@,
                ),
            },
    {
        match self.held {
            Some((owner, target)) => if owner == id {
                return Ok(target);
            },
            None => {},
        }
        Err(BackendError::new(BackendErrorCode::Cancelled, "selection target is no longer active"))
    }

    /// Captures the selection for session `id`. Text from elsewhere is not
    /// accepted; a session captures only once.
    pub fn capture(
        &mut self,
        id: u128,
        supplied_text: bool,
        found: Result<(SelectionCapture, u64), BackendError>,
    ) -> (r: Result<SelectionCapture, BackendError>)
        ensures
            supplied_text ==> {
                &&& *final(self) == *old(self)
                &&& r matches Err(e)
                &&& e.is(
                    BackendErrorCode::Unsupported,
                    "Tauri selection capture does not accept injected text"@,
                )
            },
            !supplied_text ==> match found {
                Err(e) => *final(self) == *old(self) && r == Err::<SelectionCapture, BackendError>(
                    e,
                ),
                Ok((capture, target)) => if old(self).target_of(id) is Some {
                    &&& *final(self) == *old(self)
                    &&& r matches Err(e)
                    &&& e.is(
                        BackendErrorCode::Busy,
                        "selection target is already registered for this session"@,
                    )
                } else {
                    &&& final(self).held == Some(
                        (id, TauriSelectionTarget { target, preview: false }),
                    )
                    &&& r == Ok::<SelectionCapture, BackendError>(capture)
                },
            },
    {
        if supplied_text {
            return Err(
                BackendError::new(
                    BackendErrorCode::Unsupported,
                    "Tauri selection capture does not accept injected text",
                ),
            );
        }
        match found {
            Err(e) => Err(e),
            Ok((capture, target)) => {
                if self.owned_target(id).is_ok() {
                    return Err(
                        BackendError::new(
                            BackendErrorCode::Busy,
                            "selection target is already registered for this session",
                        ),
                    );
                }
                self.held = Some((id, TauriSelectionTarget { target, preview: false }));
                Ok(capture)
            },
        }
    }

    /// What the platform is asked for when session `id` replaces its
    /// selection. After a preview the window has to be brought back.
    pub fn apply(&self, id: u128, source_text: String, replacement_text: String) -> (r: Result<
        SelectionReplacement,
        BackendError,
    >)
        ensures
            match self.target_of(id) {
                Some(t) => r == Ok::<SelectionReplacement, BackendError>(
                    SelectionReplacement {
                        target: t.target,
                        source_text,
                        replacement_text,
                        reactivate: t.preview,
                    },
                ),
                None => r matches Err(e) && e.is(
                    BackendErrorCode::Cancelled,
                    "selection target is no longer active"@,
                ),
            },
    {
        match self.owned_target(id) {
            Err(e) => Err(e),
            Ok(t) => Ok(
                SelectionReplacement {
                    target: t.target,
                    source_text,
                    replacement_text,
                    reactivate: t.preview,
                },
            ),
        }
    }

    /// A preview of session `id` is shown.
    pub fn prepare_preview(&mut self, id: u128) -> (r: Result<(), BackendError>)
        ensures
            match old(self).target_of(id) {
                Some(t) => r == Ok::<(), BackendError>(()) && final(self).held == Some(
                    (id, TauriSelectionTarget { preview: true, ..t }),
                ),
                None => *final(self) == *old(self) && (r matches Err(e) && e.is(
                    BackendErrorCode::Cancelled,
                    "selection target is no longer active"@,
                )),
            },
    {
        match self.owned_target(id) {
            Err(e) => Err(e),
            Ok(t) => {
                self.held = Some((id, TauriSelectionTarget { target: t.target, preview: true }));
                Ok(())
            },
        }
    }

    /// Where the replacement of session `id` is taken back.
    pub fn revert(&self, id: u128) -> (r: Result<u64, BackendError>)
        ensures
            match self.target_of(id) {
                Some(t) => r == Ok::<u64, BackendError>(t.target),
                None => r matches Err(e) && e.is(
                    BackendErrorCode::Cancelled,
                    "selection target is no longer active"@,
                ),
            },
    {
        match self.owned_target(id) {
            Err(e) => Err(e),
            Ok(t) => Ok(t.target),
        }
    }

    /// Session `id` lets go of the selection.
    pub fn cancel(&mut self, id: u128)
        ensures
            final(self).held == (if old(self).target_of(id) is Some {
                None
            } else {
                old(self).held
            }),
    {
        if self.owned_target(id).is_ok() {
            self.held = None;
        }
    }
}

/// How the selection compares with what was captured.
#[derive(Clone, Copy, PartialEq, Eq, Structural, Debug)]
pub enum TargetValidation {
    Valid,
    TargetUnavailable,
    TargetChanged,
    SelectionChanged,
}

/// Looks at the selection before a replacement. `code` is the platform's name
/// for what is wrong. A selection that is gone is a matter of the platform;
/// one that has changed cancels the replacement.
pub fn check_selection_target(
    reactivate: bool,
    reactivated: bool,
    validation: TargetValidation,
    code: &str,
) -> (r: Result<(), BackendError>)
    ensures
        if reactivate && !reactivated {
            r matches Err(e) && e.is(
                BackendErrorCode::Platform,
                "selectionPolishTargetUnavailable"@,
            )
        } else {
            match validation {
                TargetValidation::Valid => r is Ok,
                TargetValidation::TargetUnavailable => r matches Err(e) && e.is(
                    BackendErrorCode::Platform,
                    code@,
                ),
                _ => r matches Err(e) && e.is(BackendErrorCode::Cancelled, code@),
            }
        },
{
    if reactivate && !reactivated {
        return Err(
            BackendError::new(BackendErrorCode::Platform, "selectionPolishTargetUnavailable"),
        );
    }
    match validation {
        TargetValidation::Valid => Ok(()),
        TargetValidation::TargetUnavailable => Err(
            BackendError::new(BackendErrorCode::Platform, code),
        ),
        _ => Err(BackendError::new(BackendErrorCode::Cancelled, code)),
    }
}

/// How the user wants a text to be pasted.
#[derive(Clone, Copy, PartialEq, Eq, Structural, Debug)]
pub struct PastePreferences {
    pub restore_clipboard: bool,
    /// The keys that paste, by the host's number for them.
    pub shortcut: u64,
}

/// A text on its way to the cursor.
#[derive(Debug)]
pub struct PasteRequest {
    pub text: String,
    pub preferences: PastePreferences,
}

/// What is inserted for a replacement, once the selection has been looked at
/// and the preferences have been asked for: the replacement itself.
pub fn native_replacement(
    asked: SelectionReplacement,
    reactivated: bool,
    validation: TargetValidation,
    code: &str,
    preferences: Result<PastePreferences, BackendError>,
) -> (r: Result<PasteRequest, BackendError>)
    ensures
        if asked.reactivate && !reactivated {
            r matches Err(e) && e.is(
                BackendErrorCode::Platform,
                "selectionPolishTargetUnavailable"@,
            )
        } else if validation != TargetValidation::Valid {
            r matches Err(e) && e.is(
                if validation == TargetValidation::TargetUnavailable {
                    BackendErrorCode::Platform
                } else {
                    BackendErrorCode::Cancelled
                },
                code@,
            )
        } else {
            r == (match preferences {
                Ok(p) => Ok::<PasteRequest, BackendError>(
                    PasteRequest { text: asked.replacement_text, preferences: p },
                ),
                Err(e) => Err::<PasteRequest, BackendError>(e),
            })
        },
{
    if let Err(e) = check_selection_target(asked.reactivate, reactivated, validation, code) {
        return Err(e);
    }
    match preferences {
        Ok(preferences) => Ok(PasteRequest { text: asked.replacement_text, preferences }),
        Err(e) => Err(e),
    }
}

/// No platform can take a replacement back, whatever its place.
pub fn native_revert(_target: u64) -> (r: Result<InsertOutcome, BackendError>)
    ensures
        r matches Err(e) && e.is(
            BackendErrorCode::Unsupported,
            "selection replacement cannot be reverted by this platform adapter"@,
        ),
{
    Err(
        BackendError::new(
            BackendErrorCode::Unsupported,
            "selection replacement cannot be reverted by this platform adapter",
        ),
    )
}

/// What the platform found when asked for the selection.
pub fn check_selection_capture(found: Option<SelectionCapture>, target: Option<u64>) -> (r: Result<
    (SelectionCapture, u64),
    BackendError,
>)
    ensures
        match (found, target) {
            (None, _) => r matches Err(e) && e.is(
                BackendErrorCode::InvalidArgument,
                "selectionPolishNoSelection"@,
            ),
            (Some(_), None) => r matches Err(e) && e.is(
                BackendErrorCode::Platform,
                "selectionPolishTargetUnavailable"@,
            ),
            (Some(c), Some(t)) => r == Ok::<(SelectionCapture, u64), BackendError>((c, t)),
        },
{
    match found {
        None => Err(
            BackendError::new(BackendErrorCode::InvalidArgument, "selectionPolishNoSelection"),
        ),
        Some(c) => match target {
            None => Err(
                BackendError::new(BackendErrorCode::Platform, "selectionPolishTargetUnavailable"),
            ),
            Some(t) => Ok((c, t)),
        },
    }
}

/// The selection that is held for a session on Linux, where only the text can
/// be compared.
#[derive(Debug)]
pub struct LinuxSelectionRuntime {
    pub target: Option<(u128, String)>,
}

/// A replacement of `source` by session `id` may be committed: the session
/// captured just that text, and it is still selected.
pub open spec fn may_commit(
    rt: LinuxSelectionRuntime,
    id: u128,
    source: Seq<char>,
    selected: Seq<char>,
) -> bool {
    match rt.target {
        Some((owner, captured)) => owner == id && captured@ == source && selected == source,
        None => false,
    }
}

impl LinuxSelectionRuntime {
    pub fn new() -> (r: Self)
        ensures
            r.target is None,
    {
        LinuxSelectionRuntime { target: None }
    }

    /// Session `id` holds the selection.
    pub open spec fn owns(self, id: u128) -> bool {
        match self.target {
            Some((owner, _)) => owner == id,
            None => false,
        }
    }

    fn is_owner(&self, id: u128) -> (r: bool)
        ensures
            r == self.owns(id),
    {
        match &self.target {
            Some((owner, _)) => *owner == id,
            None => false,
        }
    }

    /// Captures the selected text for session `id`. Text from elsewhere is not
    /// accepted; a session captures only once.
    pub fn capture(
        &mut self,
        id: u128,
        supplied_text: bool,
        selected: Result<String, BackendError>,
    ) -> (r: Result<SelectionCapture, BackendError>)
        ensures
            supplied_text ==> {
                &&& *final(self) == *old(self)
                &&& r matches Err(e)
                &&& e.is(
                    BackendErrorCode::Unsupported,
                    "Linux selection replacement requires a live fcitx5 target"@,
                )
            },
            !supplied_text ==> match selected {
                Err(e) => *final(self) == *old(self) && r == Err::<SelectionCapture, BackendError>(
                    e,
                ),
                Ok(text) => if old(self).owns(id) {
                    &&& *final(self) == *old(self)
                    &&& r matches Err(e)
                    &&& e.is(
                        BackendErrorCode::Busy,
                        "the Linux selection session is already captured"@,
                    )
                } else {
                    &&& final(self).target == Some((id, text))
                    &&& r == Ok::<SelectionCapture, BackendError>(
                        SelectionCapture { text, source_app: None },
                    )
                },
            },
    {
        if supplied_text {
            return Err(
                BackendError::new(
                    BackendErrorCode::Unsupported,
                    "Linux selection replacement requires a live fcitx5 target",
                ),
            );
        }
        match selected {
            Err(e) => Err(e),
            Ok(text) => {
                if self.is_owner(id) {
                    return Err(
                        BackendError::new(
                            BackendErrorCode::Busy,
                            "the Linux selection session is already captured",
                        ),
                    );
                }
                self.target = Some((id, text.clone()));
                Ok(SelectionCapture { text, source_app: None })
            },
        }
    }

    /// The text that the host commits, which is the replacement, or why it
    /// commits nothing.
    pub fn check_apply(
        &self,
        id: u128,
        source_text: &str,
        replacement_text: String,
        selected: &str,
    ) -> (r: Result<String, BackendError>)
        ensures
            match r {
                Ok(text) => may_commit(*self, id, source_text@, selected@) && text
                    == replacement_text,
                Err(e) => !may_commit(*self, id, source_text@, selected@) && e.is(
                    BackendErrorCode::Cancelled,
                    if self.target is None {
                        "the Linux selection target is no longer active"@
                    } else {
                        "the Linux selection changed before replacement"@
                    },
                ),
            },
    {
        match &self.target {
            None => Err(
                BackendError::new(
                    BackendErrorCode::Cancelled,
                    "the Linux selection target is no longer active",
                ),
            ),
            Some((owner, captured)) => {
                if *owner != id || !str_eq(captured.as_str(), source_text) || !str_eq(
                    selected,
                    source_text,
                ) {
                    return Err(
                        BackendError::new(
                            BackendErrorCode::Cancelled,
                            "the Linux selection changed before replacement",
                        ),
                    );
                }
                Ok(replacement_text)
            },
        }
    }

    /// The outcome of a replacement. `committed` is what came of the commit of
    /// the text that `check_apply` gives; with the commit the session lets go
    /// of the selection.
    pub fn apply(
        &mut self,
        id: u128,
        source_text: &str,
        replacement_text: String,
        selected: Result<String, BackendError>,
        committed: Result<(), BackendError>,
    ) -> (r: Result<InsertOutcome, BackendError>)
        ensures
            match selected {
                Err(e) => r == Err::<InsertOutcome, BackendError>(e) && *final(self) == *old(self),
                Ok(text) => if may_commit(*old(self), id, source_text@, text@) {
                    match committed {
                        Ok(()) => r == Ok::<InsertOutcome, BackendError>(InsertOutcome::Inserted)
                            && final(self).target is None,
                        Err(e) => r == Err::<InsertOutcome, BackendError>(e) && *final(self)
                            == *old(self),
                    }
                } else {
                    &&& *final(self) == *old(self)
                    &&& r matches Err(e)
                    &&& e.is(
                        BackendErrorCode::Cancelled,
                        if old(self).target is None {
                            "the Linux selection target is no longer active"@
                        } else {
                            "the Linux selection changed before replacement"@
                        },
                    )
                },
            },
    {
        let text: String = match selected {
            Err(e) => return Err(e),
            Ok(text) => text,
        };
        if let Err(e) = self.check_apply(id, source_text, replacement_text, text.as_str()) {
            return Err(e);
        }
        match committed {
            Err(e) => Err(e),
            Ok(()) => {
                self.target = None;
                Ok(InsertOutcome::Inserted)
            },
        }
    }

    /// A preview would lose the selection.
    pub fn prepare_preview(&self) -> (r: BackendError)
        ensures
            r.is(
                BackendErrorCode::Unsupported,
                "Linux selection preview cannot safely retain an fcitx5 target"@,
            ),
    {
        BackendError::new(
            BackendErrorCode::Unsupported,
            "Linux selection preview cannot safely retain an fcitx5 target",
        )
    }

    /// A replacement cannot be taken back.
    pub fn revert(&self) -> (r: BackendError)
        ensures
            r.is(
                BackendErrorCode::Unsupported,
                "Linux selection replacement cannot be safely reverted"@,
            ),
    {
        BackendError::new(
            BackendErrorCode::Unsupported,
            "Linux selection replacement cannot be safely reverted",
        )
    }

    /// Session `id` lets go of the selection.
    pub fn cancel(&mut self, id: u128)
        ensures
            final(self).target == (if old(self).owns(id) {
                None
            } else {
                old(self).target
            }),
    {
        if self.is_owner(id) {
            self.target = None;
        }
    }
}

/// A capture by another session takes the selection away: what the earlier
/// session had can no longer be committed.
pub proof fn law_new_capture_invalidates_previous(
    rt: LinuxSelectionRuntime,
    earlier: u128,
    later: u128,
    text: String,
    source: Seq<char>,
    selected: Seq<char>,
)
    requires
        earlier != later,
        rt.target == Some((later, text)),
    ensures
        !may_commit(rt, earlier, source, selected),
{
}

/// A selection that has changed is never replaced.
pub proof fn law_changed_selection_is_never_committed(
    rt: LinuxSelectionRuntime,
    id: u128,
    source: Seq<char>,
    selected: Seq<char>,
)
    requires
        selected != source,
    ensures
        !may_commit(rt, id, source, selected),
{
}

/// Only a failed insertion is an error, and two insertions come to the same
/// outcome only if they came to the same status.
pub proof fn law_outcomes_tell_statuses_apart(
    status: InsertStatus,
    other: InsertStatus,
    r: Result<InsertOutcome, BackendError>,
    q: Result<InsertOutcome, BackendError>,
)
    requires
        call_ensures(map_insert_status, (status,), r),
        call_ensures(map_insert_status, (other,), q),
    ensures
        r is Err <==> status == InsertStatus::Failed,
        r == Ok::<InsertOutcome, BackendError>(InsertOutcome::Inserted) <==> status
            == InsertStatus::Inserted,
        r == Ok::<InsertOutcome, BackendError>(InsertOutcome::CopiedFallback) <==> status
            == InsertStatus::CopiedFallback,
        r is Ok && r == q ==> status == other,
        r matches Err(e) ==> e.code == BackendErrorCode::Platform && !e.retryable,
{
}

/// A session that captured a selection replaces it at the place that was found,
/// with the words it was given; once a preview was shown, the window is brought
/// back first. The same place would be reverted.
pub proof fn law_replacement_goes_where_the_selection_was(
    captured: &mut TauriSelectionRuntime,
    previewed: &mut TauriSelectionRuntime,
    id: u128,
    capture: SelectionCapture,
    target: u64,
    source: String,
    replacement: String,
    r: Result<SelectionCapture, BackendError>,
    direct: Result<SelectionReplacement, BackendError>,
    shown: Result<(), BackendError>,
    behind: Result<SelectionReplacement, BackendError>,
    reverted: Result<u64, BackendError>,
)
    requires
        call_ensures(
            TauriSelectionRuntime::capture,
            (captured, id, false, Ok((capture, target))),
            r,
        ),
        r is Ok,
        call_ensures(
            TauriSelectionRuntime::apply,
            (&*final(captured), id, source, replacement),
            direct,
        ),
        call_ensures(TauriSelectionRuntime::prepare_preview, (previewed, id), shown),
        *previewed == *final(captured),
        call_ensures(
            TauriSelectionRuntime::apply,
            (&*final(previewed), id, source, replacement),
            behind,
        ),
        call_ensures(TauriSelectionRuntime::revert, (&*final(previewed), id), reverted),
    ensures
        r == Ok::<SelectionCapture, BackendError>(capture),
        shown is Ok,
        direct matches Ok(d) && d.target == target && !d.reactivate && d.source_text == source
            && d.replacement_text == replacement,
        behind matches Ok(b) && b.target == target && b.reactivate && b.source_text == source
            && b.replacement_text == replacement,
        reverted == Ok::<u64, BackendError>(target),
{
}

/// The selection belongs to the session that captured it last. Nobody else can
/// replace, preview or revert it, and nobody else's cancel lets go of it; its own
/// does. A second capture of the same session is refused and changes nothing.
pub proof fn law_selection_belongs_to_one_session(
    rt: &mut TauriSelectionRuntime,
    seen: &mut TauriSelectionRuntime,
    left: &mut TauriSelectionRuntime,
    owner: u128,
    id: u128,
    target: TauriSelectionTarget,
    found: (SelectionCapture, u64),
    source: String,
    replacement: String,
    captured: Result<SelectionCapture, BackendError>,
    shown: Result<(), BackendError>,
    applied: Result<SelectionReplacement, BackendError>,
    reverted: Result<u64, BackendError>,
)
    requires
        rt.held == Some((owner, target)),
        *seen == *rt,
        *left == *rt,
        call_ensures(TauriSelectionRuntime::capture, (rt, id, false, Ok(found)), captured),
        call_ensures(TauriSelectionRuntime::prepare_preview, (seen, id), shown),
        call_ensures(TauriSelectionRuntime::cancel, (left, id), ()),
        call_ensures(TauriSelectionRuntime::apply, (&*rt, id, source, replacement), applied),
        call_ensures(TauriSelectionRuntime::revert, (&*rt, id), reverted),
    ensures
        captured is Ok <==> id != owner,
        captured is Ok ==> final(rt).held == Some(
            (id, TauriSelectionTarget { target: found.1, preview: false }),
        ),
        captured matches Err(e) ==> e.code == BackendErrorCode::Busy && final(rt).held == Some(
            (owner, target),
        ),
        shown is Ok <==> id == owner,
        shown matches Err(e) ==> e.code == BackendErrorCode::Cancelled && final(seen).held == Some(
            (owner, target),
        ),
        applied is Ok <==> id == owner,
        applied matches Err(e) ==> e.code == BackendErrorCode::Cancelled,
        reverted is Ok <==> id == owner,
        reverted matches Err(e) ==> e.code == BackendErrorCode::Cancelled,
        final(left).held is None <==> id == owner,
        id != owner ==> final(left).held == Some((owner, target)),
{
}

/// What the platform could not find, or what came from elsewhere, is not held:
/// the selection stays whose it was.
pub proof fn law_only_a_found_selection_is_captured(
    rt: &mut TauriSelectionRuntime,
    id: u128,
    supplied: bool,
    found: Result<(SelectionCapture, u64), BackendError>,
    r: Result<SelectionCapture, BackendError>,
)
    requires
        call_ensures(TauriSelectionRuntime::capture, (rt, id, supplied, found), r),
        supplied || found is Err,
    ensures
        final(rt).held == old(rt).held,
        r is Err,
        supplied ==> r->Err_0.code == BackendErrorCode::Unsupported,
        !supplied ==> r->Err_0 == found->Err_0,
{
}

/// A replacement is inserted exactly when its window could be brought back where
/// that was asked for, the selection is as it was captured, and the preferences
/// are known. What is inserted is the replacement itself.
pub proof fn law_replacement_needs_its_selection(
    asked: SelectionReplacement,
    reactivated: bool,
    validation: TargetValidation,
    code: &str,
    preferences: Result<PastePreferences, BackendError>,
    checked: Result<(), BackendError>,
    r: Result<PasteRequest, BackendError>,
)
    requires
        call_ensures(
            check_selection_target,
            (asked.reactivate, reactivated, validation, code),
            checked,
        ),
        call_ensures(native_replacement, (asked, reactivated, validation, code, preferences), r),
    ensures
        checked is Ok <==> (reactivated || !asked.reactivate) && validation
            == TargetValidation::Valid,
        r is Ok <==> checked is Ok && preferences is Ok,
        r matches Ok(p) ==> p.text == asked.replacement_text && p.preferences == preferences->Ok_0,
        checked is Ok && preferences is Err ==> r->Err_0 == preferences->Err_0,
        checked is Err ==> r->Err_0.code == checked->Err_0.code && r->Err_0.message@
            == checked->Err_0.message@,
        (reactivated || !asked.reactivate) && (validation == TargetValidation::TargetChanged
            || validation == TargetValidation::SelectionChanged) ==> checked->Err_0.code
            == BackendErrorCode::Cancelled,
        (asked.reactivate && !reactivated) || validation == TargetValidation::TargetUnavailable
            ==> checked->Err_0.code == BackendErrorCode::Platform,
{
}

/// A capture needs both a selection and its place, and hands on just these.
pub proof fn law_capture_needs_text_and_place(
    found: Option<SelectionCapture>,
    target: Option<u64>,
    r: Result<(SelectionCapture, u64), BackendError>,
)
    requires
        call_ensures(check_selection_capture, (found, target), r),
    ensures
        r is Ok <==> found is Some && target is Some,
        r matches Ok(c) ==> found == Some(c.0) && target == Some(c.1),
        r matches Err(e) ==> (e.code == BackendErrorCode::InvalidArgument <==> found is None),
        r matches Err(e) ==> (e.code == BackendErrorCode::Platform <==> found is Some),
{
}

/// On Linux: what a session captured and what is still selected can be replaced,
/// once. The text that is committed is the replacement.
pub proof fn law_linux_selection_is_replaced_once(
    captured: &mut LinuxSelectionRuntime,
    applied: &mut LinuxSelectionRuntime,
    again: &mut LinuxSelectionRuntime,
    id: u128,
    text: String,
    source: &str,
    replacement: String,
    selected: String,
    now: &str,
    capture: Result<SelectionCapture, BackendError>,
    checked: Result<String, BackendError>,
    first: Result<InsertOutcome, BackendError>,
    second: Result<InsertOutcome, BackendError>,
)
    requires
        call_ensures(LinuxSelectionRuntime::capture, (captured, id, false, Ok(text)), capture),
        capture is Ok,
        *applied == *final(captured),
        call_ensures(
            LinuxSelectionRuntime::check_apply,
            (&*final(captured), id, source, replacement, now),
            checked,
        ),
        call_ensures(
            LinuxSelectionRuntime::apply,
            (applied, id, source, replacement, Ok(selected), Ok(())),
            first,
        ),
        *again == *final(applied),
        call_ensures(
            LinuxSelectionRuntime::apply,
            (again, id, source, replacement, Ok(selected), Ok(())),
            second,
        ),
    ensures
        capture->Ok_0.text == text,
        first == Ok::<InsertOutcome, BackendError>(InsertOutcome::Inserted) <==> source@ == text@
            && selected@ == text@,
        first is Err ==> first->Err_0.code == BackendErrorCode::Cancelled && *final(applied)
            == *final(captured),
        second is Err && second->Err_0.code == BackendErrorCode::Cancelled,
        checked is Ok <==> source@ == text@ && now@ == text@,
        checked matches Ok(t) ==> t == replacement,
{
}

/// On Linux too the selection belongs to the session that captured it last: no
/// other session replaces it or lets go of it, and a commit that failed leaves it
/// where it was.
pub proof fn law_linux_selection_belongs_to_one_session(
    rt: &mut LinuxSelectionRuntime,
    tried: &mut LinuxSelectionRuntime,
    left: &mut LinuxSelectionRuntime,
    owner: u128,
    id: u128,
    held: String,
    text: String,
    source: &str,
    replacement: String,
    selected: Result<String, BackendError>,
    committed: Result<(), BackendError>,
    captured: Result<SelectionCapture, BackendError>,
    applied: Result<InsertOutcome, BackendError>,
)
    requires
        rt.target == Some((owner, held)),
        *tried == *rt,
        *left == *rt,
        call_ensures(LinuxSelectionRuntime::capture, (rt, id, false, Ok(text)), captured),
        call_ensures(
            LinuxSelectionRuntime::apply,
            (tried, id, source, replacement, selected, committed),
            applied,
        ),
        call_ensures(LinuxSelectionRuntime::cancel, (left, id), ()),
    ensures
        captured is Ok <==> id != owner,
        captured is Ok ==> final(rt).target == Some((id, text)),
        captured is Err ==> captured->Err_0.code == BackendErrorCode::Busy && final(rt).target
            == Some((owner, held)),
        applied is Ok ==> id == owner && final(tried).target is None,
        applied is Err ==> final(tried).target == Some((owner, held)),
        final(left).target is None <==> id == owner,
        id != owner ==> final(left).target == Some((owner, held)),
        selected is Err ==> applied->Err_0 == selected->Err_0,
        id == owner && selected is Ok && selected->Ok_0@ == source@ && held@ == source@
            && committed is Err ==> applied->Err_0 == committed->Err_0,
{
}

/// A replacement cannot be taken back by the platform, whatever its place.
pub proof fn law_platform_takes_nothing_back(target: u64, r: Result<InsertOutcome, BackendError>)
    requires
        call_ensures(native_revert, (target,), r),
    ensures
        r is Err && r->Err_0.code == BackendErrorCode::Unsupported,
{
}

/// At first nobody holds the selection.
pub proof fn law_nobody_holds_the_selection_at_first(
    desk: TauriSelectionRuntime,
    linux: LinuxSelectionRuntime,
)
    requires
        call_ensures(TauriSelectionRuntime::new, (), desk),
        call_ensures(LinuxSelectionRuntime::new, (), linux),
    ensures
        desk.held is None,
        linux.target is None,
{
}

} // verus!
