//! The conversation on show.

pub mod blocks;
pub mod cache;
pub mod diff;
pub mod drawer;
pub mod pump;
pub mod pump_laws;
pub mod tools;
pub mod turns;
pub mod zoom;
