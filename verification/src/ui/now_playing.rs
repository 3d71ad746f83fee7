use vstd::prelude::*;
use vstd::view::View as _;
use crate::state::AppState;
use crate::subsonic::models::Track;

verus! {

/// The queue position the Now Playing view shows: the current track, or
/// the head of the queue when nothing is current.
pub open spec fn shown_index(s: AppState) -> usize {
    match s.current_track_index {
        Some(i) => i,
        None => 0,
    }
}

/// The queue position the Now Playing view shows.
pub fn now_playing_index(state: &AppState) -> (r: usize)
    ensures
        r == shown_index(*state),
{
    match state.current_track_index {
        Some(i) => i,
        None => 0,
    }
}

/// The track the Now Playing view shows, if the queue has one at that
/// position ("Nothing playing" otherwise).
pub fn now_playing_track(state: &AppState) -> (r: Option<Track>)
    ensures
        shown_index(*state) < state.play_queue@.len() ==> r == Some(state.play_queue@[shown_index(*state) as int]),
        shown_index(*state) >= state.play_queue@.len() ==> r is None,
{
    let i = now_playing_index(state);
    if i < state.play_queue.len() {
        Some(state.play_queue[i].clone())
    } else {
        None
    }
}

/// Clicking row `i` of the play queue jumps to that track and plays it.
pub fn jump_to_track(state: &mut AppState, i: usize)
    ensures
        *final(state) == (AppState { current_track_index: Some(i), is_playing: true, ..*old(state) }),
{
    state.current_track_index = Some(i);
    state.is_playing = true;
}

/// Whether the queue view must scroll to the current track this frame: only
/// when the track shown differs from the one last scrolled to, which is
/// then remembered (so manual scrolling is not fought every frame).
pub fn take_queue_scroll(state: &mut AppState) -> (r: bool)
    ensures
        r == (old(state).last_scrolled_track != Some(shown_index(*old(state)))),
        *final(state) == (AppState { last_scrolled_track: Some(shown_index(*old(state))), ..*old(state) }),
{
    let i = now_playing_index(state);
    if state.last_scrolled_track == Some(i) {
        false
    } else {
        state.last_scrolled_track = Some(i);
        true
    }
}

} // verus!
