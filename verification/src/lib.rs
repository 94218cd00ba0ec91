pub mod app_log;
pub mod bridge;
pub mod chat;
pub mod data_root;
pub mod digest;
pub mod install;
pub mod json;
pub mod model;
pub mod motion;
pub mod paths;
pub mod process;
pub mod seed_map;
pub mod text;
pub mod text_laws;
pub mod updater;
