//! The JamStream desktop client's logic: what a session shows, what a command
//! changes, when a watcher speaks up, and what the app decides between frames.
//!
//! Sockets, sound devices, files and windows are somewhere else. Everything
//! here is a function of plain values, with its contract beside it.

pub mod app;
pub mod avatar;
pub mod creds;
pub mod demo;
pub mod exec;
pub mod file_manager;
pub mod live;
pub mod logging;
pub mod model;
pub mod picker;
pub mod prefs;
pub mod runtime;
pub mod single;
pub mod text;
pub mod vault;
