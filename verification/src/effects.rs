//! What the shell does in answer to an event.
//!
//! A decision is returned as a [`Reaction`]: what to do with the main
//! window, which event to raise in the front-end, and whether to quit. The
//! application performs it; nothing here touches a window.

use vstd::prelude::*;
use crate::intent::{IntentModel, NavigationIntent};

verus! {

/// The calls to make on the main window, in the order unminimize, show,
/// focus, hide. A call is made exactly when its flag is set.
#[derive(Clone, Copy, Debug, PartialEq, Eq, Structural)]
pub struct WindowPlan {
    pub unminimize: bool,
    pub show: bool,
    pub focus: bool,
    pub hide: bool,
}

/// The plan that leaves the window alone.
pub open spec fn keep_window() -> WindowPlan {
    WindowPlan { unminimize: false, show: false, focus: false, hide: false }
}

/// The plan that shows the window and brings it to the front.
pub open spec fn raise_window() -> WindowPlan {
    WindowPlan { unminimize: false, show: true, focus: true, hide: false }
}

/// The plan that restores a minimized window, shows it and brings it to the
/// front.
pub open spec fn restore_window() -> WindowPlan {
    WindowPlan { unminimize: true, show: true, focus: true, hide: false }
}

/// The plan that only brings the window to the front.
pub open spec fn focus_window() -> WindowPlan {
    WindowPlan { unminimize: false, show: false, focus: true, hide: false }
}

/// The plan that hides the window.
pub open spec fn hide_window() -> WindowPlan {
    WindowPlan { unminimize: false, show: false, focus: false, hide: true }
}

impl WindowPlan {
    /// A plan never both reveals and hides the window.
    pub open spec fn consistent(self) -> bool {
        self.hide ==> !self.unminimize && !self.show && !self.focus
    }

    /// The plan that leaves the window alone.
    pub fn keep() -> (plan: WindowPlan)
        ensures
            plan == keep_window(),
    {
        WindowPlan { unminimize: false, show: false, focus: false, hide: false }
    }

    /// The plan that shows the window and brings it to the front.
    pub fn raise() -> (plan: WindowPlan)
        ensures
            plan == raise_window(),
    {
        WindowPlan { unminimize: false, show: true, focus: true, hide: false }
    }
}

/// Mathematical model of a [`Reaction`].
pub ghost struct ReactionModel {
    pub window: WindowPlan,
    pub emit: Option<IntentModel>,
    pub exit: Option<i32>,
}

/// The shell's answer to one event: first the window calls, then the
/// front-end event, then the process exit, each as far as it is present.
#[derive(Clone, Debug, PartialEq, Eq)]
pub struct Reaction {
    pub window: WindowPlan,
    pub emit: Option<NavigationIntent>,
    pub exit: Option<i32>,
}

/// The view of an optional intent.
pub open spec fn opt_intent_view(intent: Option<NavigationIntent>) -> Option<IntentModel> {
    match intent {
        Some(i) => Some(i@),
        None => None,
    }
}

impl View for Reaction {
    type V = ReactionModel;

    open spec fn view(&self) -> ReactionModel {
        ReactionModel { window: self.window, emit: opt_intent_view(self.emit), exit: self.exit }
    }
}

/// The reaction that does nothing.
pub open spec fn no_reaction() -> ReactionModel {
    ReactionModel { window: keep_window(), emit: None, exit: None }
}

/// The reaction that only acts on the window.
pub open spec fn window_only(plan: WindowPlan) -> ReactionModel {
    ReactionModel { window: plan, emit: None, exit: None }
}

/// The reaction that raises the window and then delivers `intent`.
pub open spec fn raise_and_emit(intent: IntentModel) -> ReactionModel {
    ReactionModel { window: raise_window(), emit: Some(intent), exit: None }
}

/// The reaction that delivers `intent` without touching the window.
pub open spec fn emit_only(intent: IntentModel) -> ReactionModel {
    ReactionModel { window: keep_window(), emit: Some(intent), exit: None }
}

/// The reaction that ends the process with `code`.
pub open spec fn exit_with(code: i32) -> ReactionModel {
    ReactionModel { window: keep_window(), emit: None, exit: Some(code) }
}

} // verus!
