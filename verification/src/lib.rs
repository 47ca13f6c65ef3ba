//! Library part of the archive.org browser: the application state machine,
//! the settings model and the processing of archive.org API replies.
pub mod app;
pub mod archive_api;
pub mod archive_org;
pub mod config;
pub mod event;
pub mod gamepad;
pub mod laws;
pub mod paths;
pub mod settings;
pub mod text;
pub mod ui;
pub mod update;
