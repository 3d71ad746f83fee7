use vstd::prelude::*;
use vstd::view::View as _;
use crate::state::AppState;
use crate::subsonic::models::clone_tracks;
use crate::ui::album_detail::{
    add_tracks_to_queue, appended_with_toast, play_tracks, play_tracks_from, playing_from_head,
    shuffle_tracks,
};

verus! {

/// The playlist's Play button.
pub fn play_playlist(state: &mut AppState)
    ensures
        playing_from_head(*old(state), *final(state), old(state).current_playlist_tracks@),
{
    let tracks = clone_tracks(&state.current_playlist_tracks);
    play_tracks(state, &tracks);
}

/// The playlist's Shuffle button.
pub fn shuffle_playlist(state: &mut AppState)
    ensures
        final(state).play_queue@.to_multiset() == old(state).current_playlist_tracks@.to_multiset(),
        final(state).play_queue@.len() == old(state).current_playlist_tracks@.len(),
        playing_from_head(*old(state), *final(state), final(state).play_queue@),
{
    let tracks = clone_tracks(&state.current_playlist_tracks);
    shuffle_tracks(state, &tracks);
}

/// The playlist's Add to Queue button.
pub fn add_playlist_to_queue(state: &mut AppState)
    ensures
        appended_with_toast(*old(state), *final(state), old(state).current_playlist_tracks@),
{
    let tracks = clone_tracks(&state.current_playlist_tracks);
    add_tracks_to_queue(state, &tracks);
}

/// Clicking track row `i` of the playlist plays it from that track on.
pub fn play_playlist_from(state: &mut AppState, i: usize)
    requires
        i <= old(state).current_playlist_tracks@.len(),
    ensures
        playing_from_head(
            *old(state),
            *final(state),
            old(state).current_playlist_tracks@.subrange(
                i as int,
                old(state).current_playlist_tracks@.len() as int,
            ),
        ),
{
    let tracks = clone_tracks(&state.current_playlist_tracks);
    play_tracks_from(state, &tracks, i);
}

} // verus!
