//! Verified core of a fan controller for Apple Silicon Macs.
pub mod text;
pub mod fan_control;
pub mod helper_protocol;
pub mod helper_paths;
pub mod helper_client;
pub mod control_backend;
pub mod helper_install;
pub mod config;
pub mod sensor_profile;
pub mod runtime;
pub mod platform;
pub mod smc_controller;
pub mod ui_text;
pub mod app_settings;
pub mod helper_server;
pub mod launcher;
