//! Orchestrator: hotkey-triggered input automation.
//!
//! This crate holds the verified core of the tool: the profile/action/config
//! data model and its validation, the profile editing operations, the
//! command-line step notation, the runner's toggle/debounce decisions and
//! window-scope resolution, and the pure halves of the KDE/Wayland backends
//! (ydotool argument building, portal trigger parsing, KWin payload mapping).
pub mod text;
pub mod io_failure;
pub mod hotkey;
pub mod input;
pub mod window;
pub mod action;
pub mod profile;
pub mod config;
pub mod profile_ops;
pub mod runner;
pub mod notation;
pub mod profile_commands;
pub mod ydotool;
pub mod kde_portal;
pub mod kwin;
pub mod cli;
pub mod service;
