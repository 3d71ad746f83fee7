use vstd::prelude::*;
use vstd::view::View as _;
use crate::shuffle::shuffle;
use crate::sort::{SortOrder, lemma_stably_sorted_keeps_items, stable_sort, stably_sorted};
use crate::state::{AlbumSort, AppState, View};
use crate::subsonic::models::Album;
use crate::text::{chars_eq, chars_le, lex_le, lowercase_chars, lowercase_of};

verus! {

/// Albums by name, ignoring case.
pub struct AlbumNameOrder;

/// Albums by artist name, then by album name, ignoring case.
pub struct AlbumArtistOrder;

/// The lower-case name of an album.
pub open spec fn lower_name(a: Album) -> Seq<char> {
    lowercase_of(a.name@)
}

/// The lower-case artist name of an album.
pub open spec fn lower_artist(a: Album) -> Seq<char> {
    lowercase_of(a.artist_name@)
}

impl SortOrder for AlbumNameOrder {
    type Item = Album;

    open spec fn le(&self, a: Album, b: Album) -> bool {
        lex_le(lower_name(a), lower_name(b))
    }

    proof fn lemma_total(&self, a: Album, b: Album) {
        crate::text::lemma_lex_total(lower_name(a), lower_name(b));
    }

    proof fn lemma_transitive(&self, a: Album, b: Album, c: Album) {
        crate::text::lemma_lex_transitive(lower_name(a), lower_name(b), lower_name(c));
    }

    fn le_exec(&self, a: &Album, b: &Album) -> (r: bool) {
        let x = lowercase_chars(&a.name);
        let y = lowercase_chars(&b.name);
        chars_le(&x, &y)
    }
}

impl SortOrder for AlbumArtistOrder {
    type Item = Album;

    open spec fn le(&self, a: Album, b: Album) -> bool {
        if lower_artist(a) == lower_artist(b) {
            lex_le(lower_name(a), lower_name(b))
        } else {
            lex_le(lower_artist(a), lower_artist(b))
        }
    }

    proof fn lemma_total(&self, a: Album, b: Album) {
        crate::text::lemma_lex_total(lower_name(a), lower_name(b));
        crate::text::lemma_lex_total(lower_artist(a), lower_artist(b));
    }

    proof fn lemma_transitive(&self, a: Album, b: Album, c: Album) {
        let (x, y, z) = (lower_artist(a), lower_artist(b), lower_artist(c));
        if x == y && y == z {
            crate::text::lemma_lex_transitive(lower_name(a), lower_name(b), lower_name(c));
        } else if x != y && y != z {
            crate::text::lemma_lex_transitive(x, y, z);
            if x == z {
                crate::text::lemma_lex_antisymmetric(x, y);
            }
        }
    }

    fn le_exec(&self, a: &Album, b: &Album) -> (r: bool) {
        let x = lowercase_chars(&a.artist_name);
        let y = lowercase_chars(&b.artist_name);
        if chars_eq(&x, &y) {
            let n1 = lowercase_chars(&a.name);
            let n2 = lowercase_chars(&b.name);
            chars_le(&n1, &n2)
        } else {
            chars_le(&x, &y)
        }
    }
}

/// The sort mode after the sort button is clicked: Newest, Name, Artist,
/// Random, and round again.
pub open spec fn next_sort(s: AlbumSort) -> AlbumSort {
    match s {
        AlbumSort::Newest => AlbumSort::AlphabeticalByName,
        AlbumSort::AlphabeticalByName => AlbumSort::AlphabeticalByArtist,
        AlbumSort::AlphabeticalByArtist => AlbumSort::Random,
        AlbumSort::Random => AlbumSort::Newest,
    }
}

/// Clicking the sort button moves to the next sort mode and drops the
/// loaded albums, so that they are fetched again.
pub fn cycle_album_sort(state: &mut AppState)
    ensures
        final(state).album_sort == next_sort(old(state).album_sort),
        final(state).albums@.len() == 0,
        *final(state) == (AppState {
            album_sort: final(state).album_sort,
            albums: final(state).albums,
            ..*old(state)
        }),
{
    state.album_sort = match state.album_sort {
        AlbumSort::Newest => AlbumSort::AlphabeticalByName,
        AlbumSort::AlphabeticalByName => AlbumSort::AlphabeticalByArtist,
        AlbumSort::AlphabeticalByArtist => AlbumSort::Random,
        AlbumSort::Random => AlbumSort::Newest,
    };
    state.albums.clear();
}

/// The albums in the order the album grid shows them: as the server sent
/// them (newest first), stably sorted by name or by artist then name
/// (ignoring case), or in a random order; whatever the order, every album
/// appears as often as in `albums`.
pub fn sorted_albums(albums: &Vec<Album>, sort: AlbumSort) -> (r: Vec<Album>)
    ensures
        sort == AlbumSort::Newest ==> r@ == albums@,
        sort == AlbumSort::AlphabeticalByName ==> stably_sorted(AlbumNameOrder, albums@, r@),
        sort == AlbumSort::AlphabeticalByArtist ==> stably_sorted(AlbumArtistOrder, albums@, r@),
        sort == AlbumSort::Random ==> r@.len() == albums@.len(),
        r@.to_multiset() == albums@.to_multiset(),
{
    let copy = clone_albums(albums);
    match sort {
        AlbumSort::Newest => copy,
        AlbumSort::AlphabeticalByName => {
            let r = stable_sort(&AlbumNameOrder, copy);
            proof {
                lemma_stably_sorted_keeps_items(AlbumNameOrder, albums@, r@);
            }
            r
        },
        AlbumSort::AlphabeticalByArtist => {
            let r = stable_sort(&AlbumArtistOrder, copy);
            proof {
                lemma_stably_sorted_keeps_items(AlbumArtistOrder, albums@, r@);
            }
            r
        },
        AlbumSort::Random => {
            let mut copy = copy;
            shuffle(&mut copy);
            copy
        },
    }
}

/// Clones a list of albums; the copy equals the given list.
pub fn clone_albums(v: &Vec<Album>) -> (r: Vec<Album>)
    ensures
        r@ == v@,
{
    let mut r: Vec<Album> = Vec::new();
    let mut i: usize = 0;
    while i < v.len()
        invariant
            i <= v.len(),
            r@ == v@.subrange(0, i as int),
        decreases v.len() - i,
    {
        r.push(v[i].clone());
        i = i + 1;
    }
    r
}

/// Clicking an album card opens the album: it becomes the current album,
/// its old tracks are dropped (to be fetched) and the detail view opens.
pub fn open_album(state: &mut AppState, album: Album)
    ensures
        final(state).current_album == Some(album),
        final(state).current_album_tracks@.len() == 0,
        final(state).view_stack@ == old(state).view_stack@.push(View::AlbumDetail),
        *final(state) == (AppState {
            current_album: Some(album),
            current_album_tracks: final(state).current_album_tracks,
            view_stack: final(state).view_stack,
            ..*old(state)
        }),
{
    state.current_album = Some(album);
    state.current_album_tracks.clear();
    state.push_view(View::AlbumDetail);
}

/// The album sort button goes through all four modes: four clicks come
/// back to the first, and fewer never do.
pub proof fn lemma_sort_cycle(s: AlbumSort)
    ensures
        next_sort(next_sort(next_sort(next_sort(s)))) == s,
        next_sort(s) != s,
        next_sort(next_sort(s)) != s,
        next_sort(next_sort(next_sort(s))) != s,
{
}

} // verus!
