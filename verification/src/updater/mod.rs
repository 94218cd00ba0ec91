//! Changing, repairing and removing an installation.

pub mod maintenance;
pub mod options;
pub mod uninstall;
pub mod update;
