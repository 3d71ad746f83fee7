//! Commands sent from the UI to the Subsonic client thread, plus the
//! shared results the client writes back.
use vstd::prelude::*;
use crate::subsonic::models::{Album, Artist, Playlist, Track};

verus! {

/// A command for the Subsonic client thread.
#[derive(Debug)]
pub enum SubsonicCommand {
    /// `getAlbumList2?type=newest` — recently *added* albums.
    GetRecentlyAdded { limit: u32 },
    /// `getAlbumList2?type=recent` — recently *played* albums.
    GetRecentlyPlayed { limit: u32 },
    /// `getArtists` — full ID3 artist index.
    GetArtists,
    /// `getArtist` — artist detail + their albums.
    GetArtistDetail { id: String },
    /// `getAlbumList2` with an arbitrary sort.
    GetAlbumList { sort: SortType, offset: u32, limit: u32 },
    /// `getAlbum` — album detail + its songs.
    GetAlbumDetail { id: String },
    /// `getPlaylists` — all playlists visible to the user.
    GetPlaylists,
    /// `getPlaylist` — playlist detail + its entries.
    GetPlaylistDetail { id: String },
    /// `search3` — ID3-based search across artists, albums, and songs.
    Search { query: String, artist_count: u32, album_count: u32, song_count: u32 },
    /// `scrobble` — report a play (submission=true) or now-playing (false).
    Scrobble { id: String, submission: bool },
}

/// How to sort `getAlbumList2` results.
#[derive(Debug, Clone, Copy, PartialEq, Eq, Structural)]
pub enum SortType {
    Newest,
    Recent,
    AlphabeticalByName,
    AlphabeticalByArtist,
    ByYear,
    Random,
}

/// Snapshot of everything the client thread has fetched so far. `None`
/// means "not fetched yet"; `error` holds the most recent error message.
#[derive(Debug, Clone)]
pub struct FetchResults {
    pub recent_albums: Option<Vec<Album>>,
    pub recent_played: Option<Vec<Album>>,
    pub artists: Option<Vec<Artist>>,
    pub artist_detail: Option<(Artist, Vec<Album>)>,
    pub album_list: Option<Vec<Album>>,
    pub album_detail: Option<(Album, Vec<Track>)>,
    pub playlists: Option<Vec<Playlist>>,
    pub playlist_detail: Option<(Playlist, Vec<Track>)>,
    pub search_results: Option<SearchResults>,
    pub error: Option<String>,
}

/// Results from a `search3` call, split by category.
#[derive(Debug, Clone)]
pub struct SearchResults {
    /// The query these results answer.
    pub query: String,
    pub artists: Vec<Artist>,
    pub albums: Vec<Album>,
    pub tracks: Vec<Track>,
}

impl Default for FetchResults {
    /// Nothing fetched, no error.
    fn default() -> (r: Self)
        ensures
            r.recent_albums is None,
            r.recent_played is None,
            r.artists is None,
            r.artist_detail is None,
            r.album_list is None,
            r.album_detail is None,
            r.playlists is None,
            r.playlist_detail is None,
            r.search_results is None,
            r.error is None,
    {
        FetchResults {
            recent_albums: None,
            recent_played: None,
            artists: None,
            artist_detail: None,
            album_list: None,
            album_detail: None,
            playlists: None,
            playlist_detail: None,
            search_results: None,
            error: None,
        }
    }
}

impl Default for SearchResults {
    fn default() -> (r: Self)
        ensures
            r.query@.len() == 0,
            r.artists@.len() == 0,
            r.albums@.len() == 0,
            r.tracks@.len() == 0,
    {
        SearchResults { query: String::new(), artists: Vec::new(), albums: Vec::new(), tracks: Vec::new() }
    }
}

/// Whether `c` is a lower-case hexadecimal digit.
pub open spec fn is_lower_hex(c: char) -> bool {
    ('0' <= c && c <= '9') || ('a' <= c && c <= 'f')
}

/// The text of a random (version 4) UUID: 32 lower-case hex digits in
/// groups of 8-4-4-4-12 separated by hyphens, the version digit being 4.
pub open spec fn is_uuid_v4_text(s: Seq<char>) -> bool {
    &&& s.len() == 36
    &&& s[8] == '-' && s[13] == '-' && s[18] == '-' && s[23] == '-'
    &&& s[14] == '4'
    &&& forall|i: int|
        0 <= i < 36 && i != 8 && i != 13 && i != 18 && i != 23 ==> is_lower_hex(#[trigger] s[i])
}

/// A fresh random UUID in hyphenated form.
///
/// Trusted: calls `uuid::Uuid::new_v4` and formats it with `to_string`.
/// The uuid crate formats a UUID as 36 lower-case characters with hyphens
/// after the 8th, 12th, 16th and 20th hex digit, and `new_v4` sets the
/// version nibble to 4; which random digits come out is not stated.
#[verifier::external_body]
fn uuid_v4_text() -> (r: String)
    ensures
        is_uuid_v4_text(r@),
{
    uuid::Uuid::new_v4().to_string()
}

/// Generate a random request-id string (reserved for logging / tracing
/// correlation).
pub fn new_request_id() -> (r: String)
    ensures
        is_uuid_v4_text(r@),
{
    uuid_v4_text()
}

} // verus!
