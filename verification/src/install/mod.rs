//! Putting the product on a machine: the bundle, its files, the shortcuts and
//! the registration.

pub mod bundle;
pub mod config;
pub mod expand;
pub mod launch;
pub mod legal;
pub mod registration;
pub mod retry;
pub mod sfx;
pub mod swap;
pub mod wizard;
