//! Process configuration.

pub mod app_config;
