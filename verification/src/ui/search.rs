use vstd::prelude::*;
use vstd::view::View as _;
use crate::state::AppState;
use crate::subsonic::models::Track;
use crate::text::{at_least_two_bytes, has_two_bytes};
use crate::ui::album_detail::playing_from_head;

verus! {

/// Clicking song `i` of the search results plays that one song: the queue
/// becomes just that song, played in the Now Playing view.
pub fn play_search_result(state: &mut AppState, i: usize)
    requires
        i < old(state).search_results_tracks@.len(),
    ensures
        playing_from_head(*old(state), *final(state), seq![old(state).search_results_tracks@[i as int]]),
{
    let track: Track = state.search_results_tracks[i].clone();
    let queue: Vec<Track> = vec![track];
    assert(queue@ =~= seq![old(state).search_results_tracks@[i as int]]);
    state.play_queue = queue;
    state.current_track_index = Some(0);
    state.is_playing = true;
    state.push_view(crate::state::View::NowPlaying);
}

/// "No results" shows once the query is at least two bytes long and no
/// artist, album or song came back for it.
pub open spec fn no_results(s: AppState) -> bool {
    &&& at_least_two_bytes(s.search_query@)
    &&& s.search_results_artists@.len() == 0
    &&& s.search_results_albums@.len() == 0
    &&& s.search_results_tracks@.len() == 0
}

/// Whether the search view shows "No results".
pub fn shows_no_results(state: &AppState) -> (r: bool)
    ensures
        r == no_results(*state),
{
    has_two_bytes(state.search_query.as_str()) && state.search_results_artists.len() == 0
        && state.search_results_albums.len() == 0 && state.search_results_tracks.len() == 0
}

} // verus!
