use vstd::prelude::*;
use vstd::view::View as _;
use crate::app::{added_tracks_message, added_tracks_text, index_in_queue, push_toast};
use crate::shuffle::shuffle;
use crate::state::{AppState, Toast, View, top_view};
use crate::subsonic::models::{Track, clone_tracks, tracks_from};

verus! {

/// `s1` is `s0` with `queue` as the play queue, playing from its head in
/// the Now Playing view. The play position is left as it was: the audio
/// engine reports the new one.
pub open spec fn playing_from_head(s0: AppState, s1: AppState, queue: Seq<Track>) -> bool {
    &&& s1.play_queue@ == queue
    &&& s1.view_stack@ == s0.view_stack@.push(View::NowPlaying)
    &&& s1 == AppState {
        play_queue: s1.play_queue,
        current_track_index: Some(0usize),
        is_playing: true,
        view_stack: s1.view_stack,
        ..s0
    }
}

/// `s1` is `s0` with `tracks` appended to the play queue and the toast
/// "Added N tracks to queue" shown for three seconds.
pub open spec fn appended_with_toast(s0: AppState, s1: AppState, tracks: Seq<Track>) -> bool {
    &&& s1.play_queue@ == s0.play_queue@ + tracks
    &&& s1.toasts@ == s0.toasts@.push(Toast { message: s1.toasts@.last().message, ttl_ms: 3000 })
    &&& s1.toasts@.last().message@ == added_tracks_message(tracks.len())
    &&& s1 == AppState { play_queue: s1.play_queue, toasts: s1.toasts, ..s0 }
}

/// Play: the queue becomes a copy of `tracks`, played from its first track.
pub fn play_tracks(state: &mut AppState, tracks: &Vec<Track>)
    ensures
        playing_from_head(*old(state), *final(state), tracks@),
{
    state.play_queue = clone_tracks(tracks);
    state.current_track_index = Some(0);
    state.is_playing = true;
    state.push_view(View::NowPlaying);
}

/// Shuffle: the queue becomes `tracks` in a random order, played from its
/// first track. Which order comes out is up to the random source; it holds
/// the same tracks, as many times each.
pub fn shuffle_tracks(state: &mut AppState, tracks: &Vec<Track>)
    ensures
        final(state).play_queue@.to_multiset() == tracks@.to_multiset(),
        final(state).play_queue@.len() == tracks@.len(),
        playing_from_head(*old(state), *final(state), final(state).play_queue@),
{
    let mut queue = clone_tracks(tracks);
    shuffle(&mut queue);
    state.play_queue = queue;
    state.current_track_index = Some(0);
    state.is_playing = true;
    state.push_view(View::NowPlaying);
}

/// Add to Queue: `tracks` are appended to the queue and a toast says how
/// many.
pub fn add_tracks_to_queue(state: &mut AppState, tracks: &Vec<Track>)
    ensures
        appended_with_toast(*old(state), *final(state), tracks@),
{
    let mut copy = clone_tracks(tracks);
    let n = copy.len();
    state.play_queue.append(&mut copy);
    push_toast(state, added_tracks_text(n), 3000);
}

/// Clicking track `i` of a list plays the list from that track on: the
/// queue becomes the tracks from `i` to the end, played from its head.
pub fn play_tracks_from(state: &mut AppState, tracks: &Vec<Track>, i: usize)
    requires
        i <= tracks@.len(),
    ensures
        playing_from_head(*old(state), *final(state), tracks@.subrange(i as int, tracks@.len() as int)),
{
    state.play_queue = tracks_from(tracks, i);
    state.current_track_index = Some(0);
    state.is_playing = true;
    state.push_view(View::NowPlaying);
}

/// The album's Play button.
pub fn play_album(state: &mut AppState)
    ensures
        playing_from_head(*old(state), *final(state), old(state).current_album_tracks@),
{
    let tracks = clone_tracks(&state.current_album_tracks);
    play_tracks(state, &tracks);
}

/// The album's Shuffle button.
pub fn shuffle_album(state: &mut AppState)
    ensures
        final(state).play_queue@.to_multiset() == old(state).current_album_tracks@.to_multiset(),
        final(state).play_queue@.len() == old(state).current_album_tracks@.len(),
        playing_from_head(*old(state), *final(state), final(state).play_queue@),
{
    let tracks = clone_tracks(&state.current_album_tracks);
    shuffle_tracks(state, &tracks);
}

/// The album's Add to Queue button.
pub fn add_album_to_queue(state: &mut AppState)
    ensures
        appended_with_toast(*old(state), *final(state), old(state).current_album_tracks@),
{
    let tracks = clone_tracks(&state.current_album_tracks);
    add_tracks_to_queue(state, &tracks);
}

/// Clicking track row `i` of the album plays the album from that track on.
pub fn play_album_from(state: &mut AppState, i: usize)
    requires
        i <= old(state).current_album_tracks@.len(),
    ensures
        playing_from_head(
            *old(state),
            *final(state),
            old(state).current_album_tracks@.subrange(i as int, old(state).current_album_tracks@.len() as int),
        ),
{
    let tracks = clone_tracks(&state.current_album_tracks);
    play_tracks_from(state, &tracks, i);
}

/// Play, Shuffle and clicking a row start the first track of the new
/// queue: when the queue is not empty, the current track is its head and
/// lies inside it.
pub proof fn lemma_play_starts_at_head(s0: AppState, s1: AppState, queue: Seq<Track>)
    requires
        playing_from_head(s0, s1, queue),
        queue.len() > 0,
    ensures
        index_in_queue(s1),
        s1.current_track_index == Some(0usize),
        s1.play_queue@[0] == queue[0],
        s1.is_playing,
        top_view(s1.view_stack@) == View::NowPlaying,
{
}

/// Add to Queue leaves what was queued and what is playing alone: the old
/// queue is a prefix of the new one, the current track index is unchanged
/// and still names the same track, and nothing starts or stops.
pub proof fn lemma_add_keeps_current_track(s0: AppState, s1: AppState, tracks: Seq<Track>)
    requires
        appended_with_toast(s0, s1, tracks),
        index_in_queue(s0),
    ensures
        index_in_queue(s1),
        s1.current_track_index == s0.current_track_index,
        s0.current_track_index matches Some(i) ==> s1.play_queue@[i as int] == s0.play_queue@[i as int],
        s1.play_queue@.subrange(0, s0.play_queue@.len() as int) == s0.play_queue@,
        s1.is_playing == s0.is_playing,
        s1.view_stack == s0.view_stack,
{
    assert(s1.play_queue@.subrange(0, s0.play_queue@.len() as int) =~= s0.play_queue@);
}

} // verus!
