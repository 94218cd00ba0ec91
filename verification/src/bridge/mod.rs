//! The native shell's half of the daemon connection: what it keeps of the
//! daemon's events, and what it shows of them.

pub mod actions;
pub mod bridge_core;
pub mod commands;
pub mod composer;
pub mod composer_view;
pub mod control_laws;
pub mod events;
pub mod header;
pub mod health;
pub mod interaction;
pub mod laws;
pub mod reducer;
pub mod remote;
pub mod report_laws;
pub mod session_laws;
pub mod sessions;
pub mod settings;
pub mod snapshots;
pub mod store;
pub mod subagent;
pub mod timeline;
pub mod tool_laws;
pub mod transcript;
pub mod turn_laws;
pub mod wire_laws;
