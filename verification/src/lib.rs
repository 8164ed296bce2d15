//! Core of a shortcut-cheatsheet desktop utility: tracking the foreground
//! window, matching it against user-defined app rules, serving an
//! mtime-invalidated configuration cache, and running the state machines for
//! the main window's visibility and the time-boxed "shortcut learned" overlay.
//!
//! Everything OS-facing (the native window probe, the window shell, file
//! reads and writes) lives outside this crate and hands plain values in;
//! the decisions made on those values are verified here.

pub mod platform;
pub mod text;
pub mod tracker;
pub mod visibility;
pub mod overlay;
pub mod settings;
pub mod cache;
pub mod paths;
pub mod keybindings;
pub mod matcher;
