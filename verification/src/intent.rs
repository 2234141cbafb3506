//! Navigation intents: what the front-end is asked to display.

use vstd::prelude::*;

verus! {

/// The front-end events the shell can raise.
#[derive(Clone, Copy, Debug, PartialEq, Eq, Structural)]
pub enum IntentEvent {
    /// Go to an in-app path.
    Navigate,
    /// Start an empty conversation.
    NewChat,
    /// Hand the query string of an OAuth redirect to the front-end.
    AuthCallback,
    /// Ask the front-end to look for a newer release.
    CheckUpdates,
}

/// The wire name of `event`, as the front-end subscribes to it.
pub open spec fn event_name(event: IntentEvent) -> Seq<char> {
    match event {
        IntentEvent::Navigate => "navigate"@,
        IntentEvent::NewChat => "new-chat"@,
        IntentEvent::AuthCallback => "auth-callback"@,
        IntentEvent::CheckUpdates => "check-updates"@,
    }
}

impl IntentEvent {
    /// The name under which the event is emitted.
    pub fn name(&self) -> (name: &'static str)
        ensures
            name@ == event_name(*self),
    {
        match self {
            IntentEvent::Navigate => "navigate",
            IntentEvent::NewChat => "new-chat",
            IntentEvent::AuthCallback => "auth-callback",
            IntentEvent::CheckUpdates => "check-updates",
        }
    }
}

/// Mathematical model of a [`NavigationIntent`].
pub ghost struct IntentModel {
    pub event: IntentEvent,
    pub arg: Seq<char>,
}

/// An event name together with the string handed to the front-end.
///
/// `arg` is empty for events that carry no argument.
#[derive(Clone, Debug, PartialEq, Eq)]
pub struct NavigationIntent {
    pub event: IntentEvent,
    pub arg: String,
}

impl View for NavigationIntent {
    type V = IntentModel;

    open spec fn view(&self) -> IntentModel {
        IntentModel { event: self.event, arg: self.arg@ }
    }
}

/// The intent that opens the in-app location `path`.
pub open spec fn navigate_to(path: Seq<char>) -> IntentModel {
    IntentModel { event: IntentEvent::Navigate, arg: path }
}

/// The intent that starts an empty conversation.
pub open spec fn new_chat() -> IntentModel {
    IntentModel { event: IntentEvent::NewChat, arg: Seq::empty() }
}

/// The intent that forwards the raw query string of an OAuth redirect.
pub open spec fn auth_callback(query: Seq<char>) -> IntentModel {
    IntentModel { event: IntentEvent::AuthCallback, arg: query }
}

/// The intent that asks the front-end to look for a newer release.
pub open spec fn check_updates() -> IntentModel {
    IntentModel { event: IntentEvent::CheckUpdates, arg: Seq::empty() }
}

impl NavigationIntent {
    /// An intent raising `event` with the argument `arg`.
    pub fn new(event: IntentEvent, arg: String) -> (intent: NavigationIntent)
        ensures
            intent@ == (IntentModel { event, arg: arg@ }),
    {
        NavigationIntent { event, arg }
    }

    /// An intent raising `event` without an argument.
    pub fn bare(event: IntentEvent) -> (intent: NavigationIntent)
        ensures
            intent@ == (IntentModel { event, arg: Seq::empty() }),
    {
        NavigationIntent { event, arg: String::new() }
    }
}

} // verus!
