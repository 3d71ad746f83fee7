//! The mpv audio engine: its launch arguments, the JSON-IPC commands sent
//! to it, and the state kept from its events.
pub mod events;
pub mod ipc;
