use vstd::prelude::*;
use vstd::view::View as _;
use crate::state::{AppState, View};
use crate::subsonic::models::Album;

verus! {

/// The view each of Home's section cards opens: Artists, Albums,
/// Playlists.
pub open spec fn section_view(i: int) -> Option<View> {
    if i == 0 {
        Some(View::ArtistList)
    } else if i == 1 {
        Some(View::AlbumList)
    } else if i == 2 {
        Some(View::PlaylistList)
    } else {
        None
    }
}

/// Clicking section card `i` opens its list; there are three cards.
pub fn open_section(state: &mut AppState, i: usize)
    ensures
        section_view(i as int) matches Some(v) ==> {
            &&& final(state).view_stack@ == old(state).view_stack@.push(v)
            &&& *final(state) == (AppState { view_stack: final(state).view_stack, ..*old(state) })
        },
        section_view(i as int) is None ==> *final(state) == *old(state),
{
    match i {
        0 => state.push_view(View::ArtistList),
        1 => state.push_view(View::AlbumList),
        2 => state.push_view(View::PlaylistList),
        _ => {},
    }
}

/// Clicking an album thumbnail of the Recently Added or Recently Played row
/// opens that album.
pub fn open_recent_album(state: &mut AppState, album: Album)
    ensures
        final(state).view_stack@ == old(state).view_stack@.push(View::AlbumDetail),
        *final(state) == (AppState {
            current_album: Some(album),
            view_stack: final(state).view_stack,
            ..*old(state)
        }),
{
    state.current_album = Some(album);
    state.push_view(View::AlbumDetail);
}

} // verus!
