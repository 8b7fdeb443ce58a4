//! What the main window does when the global hotkey or the tray icon is
//! used.

use vstd::prelude::*;

verus! {

/// A change of the hotkey's state.
#[derive(Clone, Copy, Debug, PartialEq, Eq, Structural)]
pub enum KeyState {
    Pressed,
    Released,
}

/// What to do with the main window.
#[derive(Clone, Copy, Debug, PartialEq, Eq, Structural)]
pub enum WindowAction {
    /// Leave it as it is.
    Keep,
    /// Restore it, show it and give it the focus.
    Show,
    /// Hide it.
    Hide,
}

/// Shows a hidden window and hides a visible one; does nothing where the
/// visibility is unknown.
pub open spec fn spec_toggle(visible: Option<bool>) -> WindowAction {
    match visible {
        Some(true) => WindowAction::Hide,
        Some(false) => WindowAction::Show,
        None => WindowAction::Keep,
    }
}

/// In hold mode the window is shown while the key is down. Otherwise each
/// press toggles it and a release does nothing.
pub open spec fn spec_hotkey_action(
    hold_mode: bool,
    state: KeyState,
    visible: Option<bool>,
) -> WindowAction {
    if hold_mode {
        match state {
            KeyState::Pressed => WindowAction::Show,
            KeyState::Released => WindowAction::Hide,
        }
    } else {
        match state {
            KeyState::Pressed => spec_toggle(visible),
            KeyState::Released => WindowAction::Keep,
        }
    }
}

/// The window's reaction to a click on the tray icon. `visible` is `None`
/// where the window's visibility could not be read.
pub fn toggle(visible: Option<bool>) -> (r: WindowAction)
    ensures
        r == spec_toggle(visible),
{
    match visible {
        Some(true) => WindowAction::Hide,
        Some(false) => WindowAction::Show,
        None => WindowAction::Keep,
    }
}

/// The window's reaction to the global hotkey.
pub fn hotkey_action(hold_mode: bool, state: KeyState, visible: Option<bool>) -> (r: WindowAction)
    ensures
        r == spec_hotkey_action(hold_mode, state, visible),
{
    if hold_mode {
        match state {
            KeyState::Pressed => WindowAction::Show,
            KeyState::Released => WindowAction::Hide,
        }
    } else {
        match state {
            KeyState::Pressed => toggle(visible),
            KeyState::Released => WindowAction::Keep,
        }
    }
}

} // verus!
