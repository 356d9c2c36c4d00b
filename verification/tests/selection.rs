use openless::selection::{
    check_selection_capture, check_selection_target, map_insert_status, native_replacement,
    native_revert, InsertOutcome, LinuxSelectionRuntime, PastePreferences, SelectionCapture,
    SelectionReplacement, TargetValidation, TauriSelectionRuntime,
};
use openless::types::{BackendError, BackendErrorCode, InsertStatus};

/// What the desktop does for a Linux selection: it holds the selected text and
/// keeps what was committed.
struct Desktop {
    selected: String,
    committed: Vec<String>,
}

impl Desktop {
    fn new(selected: &str) -> Self {
        Desktop { selected: selected.to_string(), committed: Vec::new() }
    }

    fn apply(
        &mut self,
        runtime: &mut LinuxSelectionRuntime,
        id: u128,
        source: &str,
        replacement: &str,
    ) -> Result<InsertOutcome, BackendError> {
        if let Ok(text) = runtime.check_apply(id, source, replacement.into(), &self.selected) {
            self.committed.push(text);
        }
        runtime.apply(id, source, replacement.into(), Ok(self.selected.clone()), Ok(()))
    }
}

#[test]
fn direct_apply_revalidates_the_selection_before_committing() {
    let mut desktop = Desktop::new("source");
    let mut runtime = LinuxSelectionRuntime::new();
    runtime.capture(1, false, Ok(desktop.selected.clone())).unwrap();

    let outcome = desktop.apply(&mut runtime, 1, "source", "replacement").unwrap();

    assert_eq!(outcome, InsertOutcome::Inserted);
    assert_eq!(desktop.committed, vec!["replacement"]);
}

#[test]
fn changed_selection_is_rejected_without_committing() {
    let mut desktop = Desktop::new("source");
    let mut runtime = LinuxSelectionRuntime::new();
    runtime.capture(1, false, Ok(desktop.selected.clone())).unwrap();
    desktop.selected = "changed".to_string();

    let error = desktop.apply(&mut runtime, 1, "source", "replacement").unwrap_err();

    assert_eq!(error.code, BackendErrorCode::Cancelled);
    assert!(desktop.committed.is_empty());
}

#[test]
fn cancelled_selection_is_rejected_without_committing() {
    let mut desktop = Desktop::new("source");
    let mut runtime = LinuxSelectionRuntime::new();
    runtime.capture(1, false, Ok(desktop.selected.clone())).unwrap();
    runtime.cancel(1);

    let error = desktop.apply(&mut runtime, 1, "source", "replacement").unwrap_err();

    assert_eq!(error.code, BackendErrorCode::Cancelled);
    assert!(desktop.committed.is_empty());
}

#[test]
fn a_new_capture_invalidates_the_previous_session_target() {
    let mut desktop = Desktop::new("first");
    let mut runtime = LinuxSelectionRuntime::new();
    runtime.capture(1, false, Ok(desktop.selected.clone())).unwrap();
    desktop.selected = "second".to_string();
    runtime.capture(2, false, Ok(desktop.selected.clone())).unwrap();

    let error = desktop.apply(&mut runtime, 1, "first", "replacement").unwrap_err();

    assert_eq!(error.code, BackendErrorCode::Cancelled);
    assert!(desktop.committed.is_empty());
    desktop.apply(&mut runtime, 2, "second", "replacement").unwrap();
    assert_eq!(desktop.committed, vec!["replacement"]);
}

#[test]
fn duplicate_capture_is_busy_and_preserves_the_original_target() {
    let mut desktop = Desktop::new("original");
    let mut runtime = LinuxSelectionRuntime::new();
    runtime.capture(1, false, Ok(desktop.selected.clone())).unwrap();
    desktop.selected = "changed".to_string();

    let error = runtime.capture(1, false, Ok(desktop.selected.clone())).unwrap_err();

    assert_eq!(error.code, BackendErrorCode::Busy);
    desktop.selected = "original".to_string();
    desktop.apply(&mut runtime, 1, "original", "replacement").unwrap();
    assert_eq!(desktop.committed, vec!["replacement"]);
}

#[test]
fn supplied_text_without_a_live_target_is_unsupported() {
    let mut runtime = LinuxSelectionRuntime::new();
    let error = runtime.capture(1, true, Ok(String::new())).unwrap_err();
    assert_eq!(error.code, BackendErrorCode::Unsupported);
}

#[test]
fn preview_target_retention_is_explicitly_unsupported() {
    assert_eq!(LinuxSelectionRuntime::new().prepare_preview().code, BackendErrorCode::Unsupported);
}

#[test]
fn revert_is_explicitly_unsupported() {
    assert_eq!(LinuxSelectionRuntime::new().revert().code, BackendErrorCode::Unsupported);
}

fn captured() -> Result<(SelectionCapture, u64), BackendError> {
    let capture =
        SelectionCapture { text: "source".to_string(), source_app: Some("Editor".to_string()) };
    Ok((capture, 0))
}

fn apply(runtime: &TauriSelectionRuntime, id: u128) -> Result<SelectionReplacement, BackendError> {
    runtime.apply(id, "source".into(), "replacement".into())
}

#[test]
fn the_platform_inserts_the_replacement_and_takes_nothing_back() {
    let mut runtime = TauriSelectionRuntime::new();
    runtime.capture(1, false, captured()).unwrap();
    let pasting = PastePreferences { restore_clipboard: true, shortcut: 4 };
    let asked = || apply(&runtime, 1).unwrap();
    let valid = TargetValidation::Valid;
    let request = native_replacement(asked(), false, valid, "", Ok(pasting)).unwrap();
    assert_eq!((request.text.as_str(), request.preferences), ("replacement", pasting));
    let changed = TargetValidation::SelectionChanged;
    let refused = native_replacement(asked(), false, changed, "moved", Ok(pasting)).unwrap_err();
    assert_eq!((refused.code, refused.message.as_str()), (BackendErrorCode::Cancelled, "moved"));
    let unbound = BackendError::new(BackendErrorCode::InvalidState, "unbound");
    let refused = native_replacement(asked(), false, valid, "", Err(unbound)).unwrap_err();
    assert_eq!(refused.message, "unbound");
    let refused = native_revert(runtime.revert(1).unwrap()).unwrap_err();
    assert_eq!(refused.code, BackendErrorCode::Unsupported);
    assert_eq!(
        refused.message,
        "selection replacement cannot be reverted by this platform adapter"
    );
}

#[test]
fn insertion_status_mapping_preserves_fallback_and_failure_semantics() {
    assert_eq!(map_insert_status(InsertStatus::Inserted).unwrap(), InsertOutcome::Inserted);
    assert_eq!(
        map_insert_status(InsertStatus::CopiedFallback).unwrap(),
        InsertOutcome::CopiedFallback
    );
    assert_eq!(map_insert_status(InsertStatus::PasteSent).unwrap(), InsertOutcome::Unknown);
    assert_eq!(
        map_insert_status(InsertStatus::Failed).unwrap_err().code,
        BackendErrorCode::Platform
    );
}

#[test]
fn cancelled_selection_target_rejects_an_unpolled_apply() {
    let mut runtime = TauriSelectionRuntime::new();
    runtime.capture(1, false, captured()).unwrap();
    runtime.cancel(1);
    assert_eq!(apply(&runtime, 1).unwrap_err().code, BackendErrorCode::Cancelled);
}

#[test]
fn direct_selection_apply_does_not_reactivate_the_capture_target() {
    let mut runtime = TauriSelectionRuntime::new();
    runtime.capture(1, false, captured()).unwrap();
    let asked = apply(&runtime, 1).unwrap();
    assert_eq!(
        (asked.source_text.as_str(), asked.replacement_text.as_str(), asked.reactivate),
        ("source", "replacement", false)
    );
}

#[test]
fn a_new_selection_capture_invalidates_the_previous_target() {
    let mut runtime = TauriSelectionRuntime::new();
    runtime.capture(1, false, captured()).unwrap();
    runtime.capture(2, false, captured()).unwrap();
    assert_eq!(apply(&runtime, 1).unwrap_err().code, BackendErrorCode::Cancelled);
}

#[test]
fn preview_selection_apply_reactivates_the_capture_target() {
    let mut runtime = TauriSelectionRuntime::new();
    runtime.capture(1, false, captured()).unwrap();
    runtime.prepare_preview(1).unwrap();
    let asked = apply(&runtime, 1).unwrap();
    assert_eq!(
        (asked.source_text.as_str(), asked.replacement_text.as_str(), asked.reactivate),
        ("source", "replacement", true)
    );
}

#[test]
fn cancelled_selection_target_rejects_apply_and_revert() {
    let mut runtime = TauriSelectionRuntime::new();
    runtime.capture(1, false, captured()).unwrap();
    runtime.cancel(1);
    assert_eq!(apply(&runtime, 1).unwrap_err().code, BackendErrorCode::Cancelled);
    assert_eq!(runtime.revert(1).unwrap_err().code, BackendErrorCode::Cancelled);
}

#[test]
fn duplicate_selection_capture_does_not_replace_the_original_target() {
    let mut runtime = TauriSelectionRuntime::new();
    runtime.capture(1, false, captured()).unwrap();
    let error = runtime.capture(1, false, captured()).unwrap_err();
    assert_eq!(error.code, BackendErrorCode::Busy);
    apply(&runtime, 1).expect("the original target should remain active");
}

#[test]
fn selection_revert_is_delegated_once_to_the_platform_bridge() {
    let mut runtime = TauriSelectionRuntime::new();
    runtime.capture(1, false, captured()).unwrap();
    assert_eq!(runtime.revert(1).unwrap(), 0);
}

#[test]
fn injected_text_is_no_capture() {
    let mut runtime = TauriSelectionRuntime::new();
    assert_eq!(
        runtime.capture(1, true, captured()).unwrap_err().code,
        BackendErrorCode::Unsupported
    );
    assert!(runtime.held.is_none());
}

#[test]
fn a_target_is_checked_before_it_is_written_to() {
    assert!(check_selection_target(false, false, TargetValidation::Valid, "x").is_ok());
    assert!(check_selection_target(true, false, TargetValidation::Valid, "x").is_err());
    assert!(check_selection_target(true, true, TargetValidation::Valid, "x").is_ok());
    assert!(check_selection_target(false, false, TargetValidation::TargetChanged, "x").is_err());
    assert!(check_selection_capture(None, Some(1)).is_err());
}
