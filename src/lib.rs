//! Core of a monitoring agent: layered configuration (a top-level file naming
//! the active profile, that profile's file, and mail settings overridden from
//! the environment) and the alert notifier that mails health findings.

pub mod alarm;
pub mod config;
pub mod env;
