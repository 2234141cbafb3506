//! Values exchanged with the front-end over IPC, and the decisions the
//! command handlers take on them.

use vstd::prelude::*;
use crate::link::opt_view;

verus! {

/// Application version information.
#[derive(Clone, Debug, PartialEq, Eq)]
pub struct AppVersion {
    pub version: String,
    pub name: String,
    pub tauri_version: String,
}

/// Platform information.
#[derive(Clone, Debug, PartialEq, Eq)]
pub struct PlatformInfo {
    pub os: String,
    pub arch: String,
    pub version: String,
    pub hostname: String,
}

/// Window geometry and mode, as persisted between runs.
#[derive(Clone, Copy, Debug, PartialEq, Eq, Structural)]
pub struct WindowState {
    pub x: i32,
    pub y: i32,
    pub width: u32,
    pub height: u32,
    pub maximized: bool,
    pub fullscreen: bool,
}

/// The outcome of a check for updates.
#[derive(Clone, Debug, PartialEq, Eq)]
pub struct UpdateInfo {
    pub available: bool,
    pub version: Option<String>,
    pub notes: Option<String>,
    pub date: Option<String>,
}

/// What the updater reports of a release that can be installed.
#[derive(Clone, Debug, PartialEq, Eq)]
pub struct PendingUpdate {
    pub version: String,
    pub notes: Option<String>,
    pub date: Option<String>,
}

/// How a window is brought into a persisted state.
#[derive(Clone, Copy, Debug, PartialEq, Eq, Structural)]
pub enum Placement {
    /// Enter fullscreen; position and size are left alone.
    Fullscreen,
    /// Maximize; position and size are left alone.
    Maximized,
    /// Move to `(x, y)`, then resize to `width` by `height`, in physical
    /// pixels.
    Normal { x: i32, y: i32, width: u32, height: u32 },
}

/// The placement a state asks for: fullscreen wins over maximized, and
/// both win over geometry.
pub open spec fn placement_of(state: WindowState) -> Placement {
    if state.fullscreen {
        Placement::Fullscreen
    } else if state.maximized {
        Placement::Maximized
    } else {
        Placement::Normal { x: state.x, y: state.y, width: state.width, height: state.height }
    }
}

impl WindowState {
    /// The calls that bring a window into this state.
    pub fn placement(&self) -> (p: Placement)
        ensures
            p == placement_of(*self),
    {
        if self.fullscreen {
            Placement::Fullscreen
        } else if self.maximized {
            Placement::Maximized
        } else {
            Placement::Normal { x: self.x, y: self.y, width: self.width, height: self.height }
        }
    }
}

/// The always-on-top flag after a toggle.
pub fn toggled_always_on_top(current: bool) -> (next: bool)
    ensures
        next == !current,
{
    !current
}

/// The text reported where a probe of the platform fails.
pub open spec fn unknown() -> Seq<char> {
    "unknown"@
}

/// The probed text, or `"unknown"` where the probe failed.
pub open spec fn probed_or_unknown(probe: Option<Seq<char>>) -> Seq<char> {
    match probe {
        Some(text) => text,
        None => unknown(),
    }
}

/// The probed text, or `"unknown"` where the probe failed.
pub fn or_unknown(probe: Option<String>) -> (text: String)
    ensures
        text@ == probed_or_unknown(opt_view(probe)),
{
    match probe {
        Some(text) => text,
        None => "unknown".to_owned(),
    }
}

impl PlatformInfo {
    /// Platform information from what was probed. The operating system
    /// release and the host name may have failed to probe.
    pub fn from_probes(
        os: String,
        arch: String,
        release: Option<String>,
        hostname: Option<String>,
    ) -> (info: PlatformInfo)
        ensures
            info.os@ == os@,
            info.arch@ == arch@,
            info.version@ == probed_or_unknown(opt_view(release)),
            info.hostname@ == probed_or_unknown(opt_view(hostname)),
    {
        PlatformInfo { os, arch, version: or_unknown(release), hostname: or_unknown(hostname) }
    }
}

impl UpdateInfo {
    /// The report for the front-end: the release that was found, or that
    /// there is none.
    pub fn from_check(found: Option<PendingUpdate>) -> (info: UpdateInfo)
        ensures
            info.available == found.is_some(),
            match found {
                Some(update) => {
                    &&& opt_view(info.version) == Some(update.version@)
                    &&& opt_view(info.notes) == opt_view(update.notes)
                    &&& opt_view(info.date) == opt_view(update.date)
                },
                None => info.version.is_none() && info.notes.is_none() && info.date.is_none(),
            },
    {
        match found {
            Some(update) => UpdateInfo {
                available: true,
                version: Some(update.version),
                notes: update.notes,
                date: update.date,
            },
            None => UpdateInfo { available: false, version: None, notes: None, date: None },
        }
    }
}

/// The refusal given where an install is asked for and no release is
/// pending.
pub open spec fn no_update_message() -> Seq<char> {
    "No update available"@
}

/// Decides whether an install can go ahead: it needs a pending release,
/// which is handed on unchanged.
pub fn require_update<U>(found: Option<U>) -> (r: Result<U, String>)
    ensures
        match r {
            Ok(update) => found == Some(update),
            Err(message) => found.is_none() && message@ == no_update_message(),
        },
{
    match found {
        Some(update) => Ok(update),
        None => Err("No update available".to_owned()),
    }
}

} // verus!
