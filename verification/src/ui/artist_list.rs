use vstd::prelude::*;
use vstd::view::View as _;
use crate::sort::{SortOrder, lemma_stably_sorted_keeps_items, stable_sort, stably_sorted};
use crate::state::{AppState, ArtistSort, View};
use crate::subsonic::models::Artist;
use crate::text::{chars_le, lex_le, lowercase_chars, lowercase_of};

verus! {

/// Artists by name, ignoring case.
pub struct ArtistNameOrder;

/// Artists by album count, most albums first.
pub struct ArtistAlbumCountOrder;

/// The lower-case name of an artist.
pub open spec fn lower_artist_name(a: Artist) -> Seq<char> {
    lowercase_of(a.name@)
}

impl SortOrder for ArtistNameOrder {
    type Item = Artist;

    open spec fn le(&self, a: Artist, b: Artist) -> bool {
        lex_le(lower_artist_name(a), lower_artist_name(b))
    }

    proof fn lemma_total(&self, a: Artist, b: Artist) {
        crate::text::lemma_lex_total(lower_artist_name(a), lower_artist_name(b));
    }

    proof fn lemma_transitive(&self, a: Artist, b: Artist, c: Artist) {
        crate::text::lemma_lex_transitive(lower_artist_name(a), lower_artist_name(b), lower_artist_name(c));
    }

    fn le_exec(&self, a: &Artist, b: &Artist) -> (r: bool) {
        let x = lowercase_chars(&a.name);
        let y = lowercase_chars(&b.name);
        chars_le(&x, &y)
    }
}

impl SortOrder for ArtistAlbumCountOrder {
    type Item = Artist;

    open spec fn le(&self, a: Artist, b: Artist) -> bool {
        a.album_count >= b.album_count
    }

    proof fn lemma_total(&self, a: Artist, b: Artist) {
    }

    proof fn lemma_transitive(&self, a: Artist, b: Artist, c: Artist) {
    }

    fn le_exec(&self, a: &Artist, b: &Artist) -> (r: bool) {
        a.album_count >= b.album_count
    }
}

/// The other artist sort mode.
pub open spec fn toggled_sort(s: ArtistSort) -> ArtistSort {
    match s {
        ArtistSort::Alphabetical => ArtistSort::ByAlbumCount,
        ArtistSort::ByAlbumCount => ArtistSort::Alphabetical,
    }
}

/// Clicking the sort button switches between A→Z and album count.
pub fn toggle_artist_sort(state: &mut AppState)
    ensures
        *final(state) == (AppState { artist_sort: toggled_sort(old(state).artist_sort), ..*old(state) }),
{
    state.artist_sort = match state.artist_sort {
        ArtistSort::Alphabetical => ArtistSort::ByAlbumCount,
        ArtistSort::ByAlbumCount => ArtistSort::Alphabetical,
    };
}

/// Clones a list of artists; the copy equals the given list.
pub fn clone_artists(v: &Vec<Artist>) -> (r: Vec<Artist>)
    ensures
        r@ == v@,
{
    let mut r: Vec<Artist> = Vec::new();
    let mut i: usize = 0;
    while i < v.len()
        invariant
            i <= v.len(),
            r@ == v@.subrange(0, i as int),
        decreases v.len() - i,
    {
        r.push(v[i].clone());
        i = i + 1;
    }
    r
}

/// The artists in the order the artist list shows them: stably sorted by
/// name ignoring case, or by album count with the most albums first; every
/// artist appears as often as in `artists`.
pub fn sorted_artists(artists: &Vec<Artist>, sort: ArtistSort) -> (r: Vec<Artist>)
    ensures
        sort == ArtistSort::Alphabetical ==> stably_sorted(ArtistNameOrder, artists@, r@),
        sort == ArtistSort::ByAlbumCount ==> stably_sorted(ArtistAlbumCountOrder, artists@, r@),
        r@.to_multiset() == artists@.to_multiset(),
{
    let copy = clone_artists(artists);
    match sort {
        ArtistSort::Alphabetical => {
            let r = stable_sort(&ArtistNameOrder, copy);
            proof {
                lemma_stably_sorted_keeps_items(ArtistNameOrder, artists@, r@);
            }
            r
        },
        ArtistSort::ByAlbumCount => {
            let r = stable_sort(&ArtistAlbumCountOrder, copy);
            proof {
                lemma_stably_sorted_keeps_items(ArtistAlbumCountOrder, artists@, r@);
            }
            r
        },
    }
}

/// Clicking an artist row opens the artist: it becomes the current artist
/// and the artist detail view opens.
pub fn open_artist(state: &mut AppState, artist: Artist)
    ensures
        final(state).view_stack@ == old(state).view_stack@.push(View::ArtistDetail),
        *final(state) == (AppState {
            current_artist: Some(artist),
            view_stack: final(state).view_stack,
            ..*old(state)
        }),
{
    state.current_artist = Some(artist);
    state.push_view(View::ArtistDetail);
}

/// Clicking the artist sort button twice comes back to the first order.
pub proof fn lemma_toggle_twice(s: ArtistSort)
    ensures
        toggled_sort(toggled_sort(s)) == s,
{
}

} // verus!
