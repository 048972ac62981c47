//! What a global shortcut event sets off.

use vstd::prelude::*;

verus! {

/// The binding that cancels the operation in progress.
pub const CANCEL_BINDING: &'static str = "cancel";

/// What to do with a shortcut event (besides mirroring it to the user
/// interface, which is always done).
#[derive(Clone, Copy, Debug, PartialEq, Eq, Structural)]
pub enum ShortcutAction {
    /// Tear down recording, overlay and tray state.
    CancelOperation,
    /// Hand the press or release to the transcription coordinator, so that
    /// push-to-talk can see the release.
    ForwardToCoordinator,
    /// A transcribe binding fired before the coordinator was set up.
    WarnCoordinatorMissing,
    /// Nothing to do.
    Ignore,
}

/// The action for an event of binding `binding_id`.
pub open spec fn action_for(
    binding_id: Seq<char>,
    is_pressed: bool,
    is_transcribe_binding: bool,
    coordinator_ready: bool,
) -> ShortcutAction {
    if binding_id == CANCEL_BINDING@ {
        if is_pressed {
            ShortcutAction::CancelOperation
        } else {
            ShortcutAction::Ignore
        }
    } else if is_transcribe_binding {
        if coordinator_ready {
            ShortcutAction::ForwardToCoordinator
        } else {
            ShortcutAction::WarnCoordinatorMissing
        }
    } else {
        ShortcutAction::Ignore
    }
}

/// Decides what a shortcut event sets off: the cancel binding cancels on
/// press only; a transcribe binding is forwarded on press and on release
/// alike, when the coordinator is there to take it.
pub fn shortcut_action(
    binding_id: &str,
    is_pressed: bool,
    is_transcribe_binding: bool,
    coordinator_ready: bool,
) -> (r: ShortcutAction)
    ensures
        r == action_for(binding_id@, is_pressed, is_transcribe_binding, coordinator_ready),
{
    if String::from_str(binding_id) == String::from_str(CANCEL_BINDING) {
        if is_pressed {
            ShortcutAction::CancelOperation
        } else {
            ShortcutAction::Ignore
        }
    } else if is_transcribe_binding {
        if coordinator_ready {
            ShortcutAction::ForwardToCoordinator
        } else {
            ShortcutAction::WarnCoordinatorMissing
        }
    } else {
        ShortcutAction::Ignore
    }
}

} // verus!
