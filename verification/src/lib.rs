//! Routing rules of the GatewayZ desktop shell.
//!
//! The shell reacts to events of the host GUI framework: deep links, tray
//! menu clicks, global shortcuts, window and updater events. This library
//! holds the decisions taken on those events, as functions from plain values
//! to plain values, each with a contract that Verus proves. Performing the
//! chosen effects on real windows is left to the application.

pub mod commands;
pub mod effects;
pub mod intent;
pub mod link;
pub mod payload;
pub mod router;
pub mod shortcut;
pub mod timestamp;
pub mod tray;
