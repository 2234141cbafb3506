//! The global shortcut that shows or hides the main window.

use vstd::prelude::*;
use crate::effects::{
    focus_window, hide_window, keep_window, raise_window, restore_window, WindowPlan,
};

verus! {

/// The modifier held with the shortcut key.
#[derive(Clone, Copy, Debug, PartialEq, Eq, Structural)]
pub enum Modifier {
    Control,
    Super,
}

/// The keys the shell tells apart.
#[derive(Clone, Copy, Debug, PartialEq, Eq, Structural)]
pub enum ShortcutKey {
    G,
    Other,
}

/// A key combination registered with the operating system.
#[derive(Clone, Copy, Debug, PartialEq, Eq, Structural)]
pub struct Shortcut {
    pub modifier: Modifier,
    pub key: ShortcutKey,
}

/// Whether a shortcut event reports the key going down or up.
#[derive(Clone, Copy, Debug, PartialEq, Eq, Structural)]
pub enum KeyState {
    Pressed,
    Released,
}

/// What is known of the main window when the shortcut fires.
#[derive(Clone, Copy, Debug, PartialEq, Eq, Structural)]
pub struct WindowStatus {
    pub visible: bool,
    pub focused: bool,
    pub minimized: bool,
}

/// The shortcut that toggles the window: Ctrl+G on Windows, Super+G (Cmd+G
/// on macOS) elsewhere.
pub open spec fn toggle_shortcut(on_windows: bool) -> Shortcut {
    Shortcut {
        modifier: if on_windows {
            Modifier::Control
        } else {
            Modifier::Super
        },
        key: ShortcutKey::G,
    }
}

/// The shortcut to register on this platform.
pub fn register_shortcuts(on_windows: bool) -> (shortcut: Shortcut)
    ensures
        shortcut == toggle_shortcut(on_windows),
{
    if on_windows {
        Shortcut { modifier: Modifier::Control, key: ShortcutKey::G }
    } else {
        Shortcut { modifier: Modifier::Super, key: ShortcutKey::G }
    }
}

/// A reading that failed counts as `false`.
pub open spec fn reading(r: Option<bool>) -> bool {
    match r {
        Some(b) => b,
        None => false,
    }
}

impl WindowStatus {
    /// The status from three readings of the window, each of which may
    /// have failed.
    pub fn from_readings(
        visible: Option<bool>,
        focused: Option<bool>,
        minimized: Option<bool>,
    ) -> (status: WindowStatus)
        ensures
            status == (WindowStatus {
                visible: reading(visible),
                focused: reading(focused),
                minimized: reading(minimized),
            }),
    {
        WindowStatus {
            visible: read_or_false(visible),
            focused: read_or_false(focused),
            minimized: read_or_false(minimized),
        }
    }
}

/// The value of a reading, `false` where it failed.
pub fn read_or_false(r: Option<bool>) -> (b: bool)
    ensures
        b == reading(r),
{
    match r {
        Some(b) => b,
        None => false,
    }
}

/// What a toggle does to a window in the given status: a minimized window
/// is restored, shown and focused; a visible and focused one is hidden; a
/// visible one behind others is focused; a hidden one is shown and focused.
pub open spec fn toggle_plan(status: WindowStatus) -> WindowPlan {
    if status.minimized {
        restore_window()
    } else if status.visible && status.focused {
        hide_window()
    } else if status.visible {
        focus_window()
    } else {
        raise_window()
    }
}

/// What the shortcut `key` does, given the main window's status, or `None`
/// where there is no main window.
pub open spec fn shortcut_plan(key: ShortcutKey, window: Option<WindowStatus>) -> WindowPlan {
    match (key, window) {
        (ShortcutKey::G, Some(status)) => toggle_plan(status),
        _ => keep_window(),
    }
}

/// What a shortcut event does: only a key press acts.
pub open spec fn shortcut_event_plan(
    state: KeyState,
    key: ShortcutKey,
    window: Option<WindowStatus>,
) -> WindowPlan {
    match state {
        KeyState::Pressed => shortcut_plan(key, window),
        KeyState::Released => keep_window(),
    }
}

/// Decides how to toggle a window in the given status.
pub fn toggle_window(status: WindowStatus) -> (plan: WindowPlan)
    ensures
        plan == toggle_plan(status),
{
    if status.minimized {
        WindowPlan { unminimize: true, show: true, focus: true, hide: false }
    } else if status.visible && status.focused {
        WindowPlan { unminimize: false, show: false, focus: false, hide: true }
    } else if status.visible {
        WindowPlan { unminimize: false, show: false, focus: true, hide: false }
    } else {
        WindowPlan::raise()
    }
}

/// Decides what a pressed global shortcut does. `window` is the status of
/// the main window, or `None` where there is none.
pub fn handle_global_shortcut(key: ShortcutKey, window: Option<WindowStatus>) -> (plan: WindowPlan)
    ensures
        plan == shortcut_plan(key, window),
{
    match key {
        ShortcutKey::G => match window {
            Some(status) => toggle_window(status),
            None => WindowPlan::keep(),
        },
        ShortcutKey::Other => WindowPlan::keep(),
    }
}

/// Decides what a shortcut event does; key releases are ignored.
pub fn on_shortcut_event(state: KeyState, key: ShortcutKey, window: Option<WindowStatus>) -> (plan:
    WindowPlan)
    ensures
        plan == shortcut_event_plan(state, key, window),
{
    match state {
        KeyState::Pressed => handle_global_shortcut(key, window),
        KeyState::Released => WindowPlan::keep(),
    }
}

/// A toggle never both reveals and hides the window, always does
/// something, and hides exactly a window that is visible, focused and not
/// minimized.
pub proof fn lemma_toggle_plan(status: WindowStatus)
    ensures
        toggle_plan(status).consistent(),
        toggle_plan(status) != keep_window(),
        toggle_plan(status).hide <==> status.visible && status.focused && !status.minimized,
        toggle_plan(status).focus <==> !toggle_plan(status).hide,
        toggle_plan(status).unminimize <==> status.minimized,
{
}

/// Toggling a hidden window and then the shown and focused window it
/// leaves behind hides it again.
pub proof fn lemma_toggle_twice_hides(status: WindowStatus)
    requires
        !status.visible,
        !status.minimized,
    ensures
        toggle_plan(status) == raise_window(),
        toggle_plan(WindowStatus { visible: true, focused: true, minimized: false })
            == hide_window(),
{
}

} // verus!
