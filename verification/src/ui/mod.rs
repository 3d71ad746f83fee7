//! The decisions behind the screens: context menu, toasts, track rows,
//! transport bar, wizard, list sorting, and what each view's buttons and
//! rows do to the application state.
pub mod album_detail;
pub mod album_list;
pub mod artist_list;
pub mod common;
pub mod home;
pub mod menu;
pub mod now_playing;
pub mod playlist_detail;
pub mod playlist_list;
pub mod search;
pub mod settings;
pub mod transport;
pub mod wizard;
