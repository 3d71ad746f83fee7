//! Verified core of a remote-controlled Navidrome / Subsonic music client:
//! configuration defaults, view stack and focus navigation, the play queue
//! and transport logic, the decisions of the Subsonic client thread and of
//! the mpv controller, and the small state machines behind the UI widgets.
pub mod app;
pub mod config;
pub mod focus;
pub mod mpv;
pub mod shuffle;
pub mod sort;
pub mod state;
pub mod subsonic;
pub mod text;
pub mod ui;
