use vocrit_subscription::shortcut::{shortcut_action, ShortcutAction};

#[test]
fn cancel_binding_cancels_on_press_only() {
    assert_eq!(shortcut_action("cancel", true, false, true), ShortcutAction::CancelOperation);
    assert_eq!(shortcut_action("cancel", false, false, true), ShortcutAction::Ignore);
    // The cancel binding is never forwarded, even if it were a transcribe binding.
    assert_eq!(shortcut_action("cancel", false, true, true), ShortcutAction::Ignore);
}

#[test]
fn transcribe_binding_is_forwarded_on_press_and_release() {
    assert_eq!(shortcut_action("transcribe", true, true, true), ShortcutAction::ForwardToCoordinator);
    assert_eq!(shortcut_action("transcribe", false, true, true), ShortcutAction::ForwardToCoordinator);
}

#[test]
fn transcribe_binding_without_coordinator_warns() {
    assert_eq!(
        shortcut_action("transcribe", true, true, false),
        ShortcutAction::WarnCoordinatorMissing
    );
}

#[test]
fn other_bindings_are_ignored() {
    assert_eq!(shortcut_action("open_settings", true, false, true), ShortcutAction::Ignore);
    assert_eq!(shortcut_action("Cancel", true, false, true), ShortcutAction::Ignore);
}
