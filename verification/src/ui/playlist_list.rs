use vstd::prelude::*;
use vstd::view::View as _;
use crate::state::{AppState, View};
use crate::subsonic::models::Playlist;

verus! {

/// Clicking a playlist row opens the playlist: it becomes the current
/// playlist, its old tracks are dropped (to be fetched) and the detail view
/// opens.
pub fn open_playlist(state: &mut AppState, playlist: Playlist)
    ensures
        final(state).current_playlist_tracks@.len() == 0,
        final(state).view_stack@ == old(state).view_stack@.push(View::PlaylistDetail),
        *final(state) == (AppState {
            current_playlist: Some(playlist),
            current_playlist_tracks: final(state).current_playlist_tracks,
            view_stack: final(state).view_stack,
            ..*old(state)
        }),
{
    state.current_playlist = Some(playlist);
    state.current_playlist_tracks.clear();
    state.push_view(View::PlaylistDetail);
}

} // verus!
