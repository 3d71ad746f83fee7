//! What the Subsonic client thread decides: the credentials it logs in
//! with, the API request each command becomes, how server records map to
//! the domain model, and how each reply lands in the shared results.
use vstd::prelude::*;
use crate::config::{AuthMethod, ServerConfig};
use crate::subsonic::commands::{FetchResults, SearchResults, SortType, SubsonicCommand};
use crate::subsonic::models::{Album, Artist, Playlist, Track, clone_opt_string};

verus! {

// ── Server records (the fields of the API's data types that are read) ────

/// An artist as the server lists it (`ArtistID3`).
#[derive(Debug, Clone)]
pub struct ArtistRecord {
    pub id: String,
    pub name: String,
    pub cover_art: Option<String>,
    pub album_count: Option<i64>,
}

/// An album as the server lists it (`AlbumID3`).
#[derive(Debug, Clone)]
pub struct AlbumRecord {
    pub id: String,
    pub name: String,
    pub artist: Option<String>,
    pub artist_id: Option<String>,
    pub cover_art: Option<String>,
    pub song_count: Option<i64>,
    pub duration: Option<i64>,
    pub created: Option<String>,
    pub year: Option<i32>,
    pub genre: Option<String>,
}

/// A song as the server lists it (`Child`).
#[derive(Debug, Clone)]
pub struct SongRecord {
    pub id: String,
    pub title: String,
    pub album: Option<String>,
    pub artist: Option<String>,
    pub track: Option<i32>,
    pub cover_art: Option<String>,
    pub size: Option<i64>,
    pub suffix: Option<String>,
    pub duration: Option<i64>,
    pub bit_rate: Option<i32>,
    pub disc_number: Option<i32>,
    pub album_id: Option<String>,
    pub artist_id: Option<String>,
}

/// A playlist as the server lists it (`Playlist`).
#[derive(Debug, Clone)]
pub struct PlaylistRecord {
    pub id: String,
    pub name: String,
    pub owner: Option<String>,
    pub public: Option<bool>,
    pub song_count: Option<i64>,
    pub duration: Option<i64>,
    pub created: Option<String>,
}

/// An artist with its albums (`ArtistWithAlbumsID3`).
#[derive(Debug, Clone)]
pub struct ArtistWithAlbumsRecord {
    pub artist: ArtistRecord,
    pub album: Vec<AlbumRecord>,
}

/// An album with its songs (`AlbumWithSongsID3`).
#[derive(Debug, Clone)]
pub struct AlbumWithSongsRecord {
    pub album: AlbumRecord,
    pub song: Vec<SongRecord>,
}

/// A playlist with its entries (`PlaylistWithSongs`).
#[derive(Debug, Clone)]
pub struct PlaylistWithSongsRecord {
    pub playlist: PlaylistRecord,
    pub entry: Vec<SongRecord>,
}

/// The result of a `search3` call (`SearchResult3`).
#[derive(Debug, Clone)]
pub struct SearchRecord {
    pub artist: Vec<ArtistRecord>,
    pub album: Vec<AlbumRecord>,
    pub song: Vec<SongRecord>,
}

// ── Mapping ────────────────────────────────────────────────────────────────

/// The text of an optional string; the empty text when absent.
pub open spec fn text_or_empty(o: Option<String>) -> Seq<char> {
    match o {
        Some(s) => s@,
        None => Seq::empty(),
    }
}

/// A count the server may omit, as an unsigned 32-bit number: 0 when
/// absent, else the value cast (wrapping) to `u32`.
pub open spec fn count_u32(o: Option<i64>) -> u32 {
    match o {
        Some(v) => v as u32,
        None => 0,
    }
}

/// `a` is the domain form of the server artist `r`.
pub open spec fn artist_matches(r: ArtistRecord, a: Artist) -> bool {
    &&& a.id == r.id
    &&& a.name == r.name
    &&& a.album_count == count_u32(r.album_count)
    &&& a.cover_art_id == r.cover_art
}

/// `a` is the domain form of the server album `r`.
pub open spec fn album_matches(r: AlbumRecord, a: Album) -> bool {
    &&& a.id == r.id
    &&& a.name == r.name
    &&& a.artist_id@ == text_or_empty(r.artist_id)
    &&& a.artist_name@ == text_or_empty(r.artist)
    &&& a.year == (match r.year {
        Some(y) => Some(y as u16),
        None => None,
    })
    &&& a.genre == r.genre
    &&& a.cover_art_id == r.cover_art
    &&& a.song_count == count_u32(r.song_count)
    &&& a.duration_secs == count_u32(r.duration)
    &&& a.created@ == text_or_empty(r.created)
}

/// `t` is the domain form of the server song `r`.
pub open spec fn track_matches(r: SongRecord, t: Track) -> bool {
    &&& t.id == r.id
    &&& t.title == r.title
    &&& t.artist_id@ == text_or_empty(r.artist_id)
    &&& t.artist_name@ == text_or_empty(r.artist)
    &&& t.album_id@ == text_or_empty(r.album_id)
    &&& t.album_name@ == text_or_empty(r.album)
    &&& t.track_number == (match r.track {
        Some(n) => Some(n as u32),
        None => None,
    })
    &&& t.disc_number == (match r.disc_number {
        Some(n) => Some(n as u32),
        None => None,
    })
    &&& t.duration_secs == count_u32(r.duration)
    &&& t.cover_art_id == r.cover_art
    &&& t.bitrate == (match r.bit_rate {
        Some(n) => Some(n as u32),
        None => None,
    })
    &&& t.suffix == r.suffix
    &&& t.size_bytes == (match r.size {
        Some(n) => Some(n as u64),
        None => None,
    })
}

/// `p` is the domain form of the server playlist `r`.
pub open spec fn playlist_matches(r: PlaylistRecord, p: Playlist) -> bool {
    &&& p.id == r.id
    &&& p.name == r.name
    &&& p.song_count == count_u32(r.song_count)
    &&& p.duration_secs == count_u32(r.duration)
    &&& p.public == r.public
    &&& p.owner == r.owner
    &&& p.created == r.created
}

/// Each element of `out` is the domain form of the record at the same place.
pub open spec fn artists_match(rs: Seq<ArtistRecord>, out: Seq<Artist>) -> bool {
    rs.len() == out.len() && forall|i: int| 0 <= i < rs.len() ==> artist_matches(rs[i], #[trigger] out[i])
}

pub open spec fn albums_match(rs: Seq<AlbumRecord>, out: Seq<Album>) -> bool {
    rs.len() == out.len() && forall|i: int| 0 <= i < rs.len() ==> album_matches(rs[i], #[trigger] out[i])
}

pub open spec fn tracks_match(rs: Seq<SongRecord>, out: Seq<Track>) -> bool {
    rs.len() == out.len() && forall|i: int| 0 <= i < rs.len() ==> track_matches(rs[i], #[trigger] out[i])
}

pub open spec fn playlists_match(rs: Seq<PlaylistRecord>, out: Seq<Playlist>) -> bool {
    rs.len() == out.len() && forall|i: int| 0 <= i < rs.len() ==> playlist_matches(rs[i], #[trigger] out[i])
}

fn text_or_default(o: &Option<String>) -> (r: String)
    ensures
        r@ == text_or_empty(*o),
{
    match o {
        Some(s) => s.clone(),
        None => String::new(),
    }
}

fn count_or_zero(o: Option<i64>) -> (r: u32)
    ensures
        r == count_u32(o),
{
    match o {
        Some(v) => v as u32,
        None => 0,
    }
}

/// Map an artist of the index to the domain artist.
pub fn map_artist(a: &ArtistRecord) -> (r: Artist)
    ensures
        artist_matches(*a, r),
{
    Artist {
        id: a.id.clone(),
        name: a.name.clone(),
        album_count: count_or_zero(a.album_count),
        cover_art_id: clone_opt_string(&a.cover_art),
    }
}

/// Map the artist of an artist-detail reply (its albums are mapped apart).
pub fn map_artist_id3_full(a: &ArtistWithAlbumsRecord) -> (r: Artist)
    ensures
        artist_matches(a.artist, r),
{
    map_artist(&a.artist)
}

/// Map a listed album to the domain album.
pub fn map_album(a: &AlbumRecord) -> (r: Album)
    ensures
        album_matches(*a, r),
{
    Album {
        id: a.id.clone(),
        name: a.name.clone(),
        artist_id: text_or_default(&a.artist_id),
        artist_name: text_or_default(&a.artist),
        year: match a.year {
            Some(y) => Some(y as u16),
            None => None,
        },
        genre: clone_opt_string(&a.genre),
        cover_art_id: clone_opt_string(&a.cover_art),
        song_count: count_or_zero(a.song_count),
        duration_secs: count_or_zero(a.duration),
        created: text_or_default(&a.created),
    }
}

/// Map the album of an album-detail reply (its songs are mapped apart).
pub fn map_album_with_songs(a: &AlbumWithSongsRecord) -> (r: Album)
    ensures
        album_matches(a.album, r),
{
    map_album(&a.album)
}

/// Map a song to the domain track.
pub fn map_track(s: &SongRecord) -> (r: Track)
    ensures
        track_matches(*s, r),
{
    Track {
        id: s.id.clone(),
        title: s.title.clone(),
        artist_id: text_or_default(&s.artist_id),
        artist_name: text_or_default(&s.artist),
        album_id: text_or_default(&s.album_id),
        album_name: text_or_default(&s.album),
        track_number: match s.track {
            Some(t) => Some(t as u32),
            None => None,
        },
        disc_number: match s.disc_number {
            Some(d) => Some(d as u32),
            None => None,
        },
        duration_secs: count_or_zero(s.duration),
        cover_art_id: clone_opt_string(&s.cover_art),
        bitrate: match s.bit_rate {
            Some(b) => Some(b as u32),
            None => None,
        },
        suffix: clone_opt_string(&s.suffix),
        size_bytes: match s.size {
            Some(sz) => Some(sz as u64),
            None => None,
        },
    }
}

/// Map a listed playlist to the domain playlist.
pub fn map_playlist(p: &PlaylistRecord) -> (r: Playlist)
    ensures
        playlist_matches(*p, r),
{
    Playlist {
        id: p.id.clone(),
        name: p.name.clone(),
        song_count: count_or_zero(p.song_count),
        duration_secs: count_or_zero(p.duration),
        public: p.public,
        owner: clone_opt_string(&p.owner),
        created: clone_opt_string(&p.created),
    }
}

/// Map the playlist of a playlist-detail reply (its entries apart).
pub fn map_playlist_with_songs(p: &PlaylistWithSongsRecord) -> (r: Playlist)
    ensures
        playlist_matches(p.playlist, r),
{
    map_playlist(&p.playlist)
}

/// Maps a list of artists.
pub fn map_artists(rs: &Vec<ArtistRecord>) -> (r: Vec<Artist>)
    ensures
        artists_match(rs@, r@),
{
    let mut out: Vec<Artist> = Vec::new();
    let mut i: usize = 0;
    while i < rs.len()
        invariant
            i <= rs.len(),
            out@.len() == i,
            forall|j: int| 0 <= j < i ==> artist_matches(rs@[j], #[trigger] out@[j]),
        decreases rs.len() - i,
    {
        out.push(map_artist(&rs[i]));
        i = i + 1;
    }
    out
}

/// Maps a list of albums.
pub fn map_albums(rs: &Vec<AlbumRecord>) -> (r: Vec<Album>)
    ensures
        albums_match(rs@, r@),
{
    let mut out: Vec<Album> = Vec::new();
    let mut i: usize = 0;
    while i < rs.len()
        invariant
            i <= rs.len(),
            out@.len() == i,
            forall|j: int| 0 <= j < i ==> album_matches(rs@[j], #[trigger] out@[j]),
        decreases rs.len() - i,
    {
        out.push(map_album(&rs[i]));
        i = i + 1;
    }
    out
}

/// Maps a list of songs.
pub fn map_tracks(rs: &Vec<SongRecord>) -> (r: Vec<Track>)
    ensures
        tracks_match(rs@, r@),
{
    let mut out: Vec<Track> = Vec::new();
    let mut i: usize = 0;
    while i < rs.len()
        invariant
            i <= rs.len(),
            out@.len() == i,
            forall|j: int| 0 <= j < i ==> track_matches(rs@[j], #[trigger] out@[j]),
        decreases rs.len() - i,
    {
        out.push(map_track(&rs[i]));
        i = i + 1;
    }
    out
}

/// Maps a list of playlists.
pub fn map_playlists(rs: &Vec<PlaylistRecord>) -> (r: Vec<Playlist>)
    ensures
        playlists_match(rs@, r@),
{
    let mut out: Vec<Playlist> = Vec::new();
    let mut i: usize = 0;
    while i < rs.len()
        invariant
            i <= rs.len(),
            out@.len() == i,
            forall|j: int| 0 <= j < i ==> playlist_matches(rs@[j], #[trigger] out@[j]),
        decreases rs.len() - i,
    {
        out.push(map_playlist(&rs[i]));
        i = i + 1;
    }
    out
}

/// The artists of an artist index, letter group after letter group.
pub open spec fn flatten_index(index: Seq<Vec<ArtistRecord>>) -> Seq<ArtistRecord>
    decreases index.len(),
{
    if index.len() == 0 {
        Seq::empty()
    } else {
        flatten_index(index.drop_last()) + index.last()@
    }
}

/// Maps every artist of an artist index, in index order.
pub fn map_artist_index(index: &Vec<Vec<ArtistRecord>>) -> (r: Vec<Artist>)
    ensures
        artists_match(flatten_index(index@), r@),
{
    let mut out: Vec<Artist> = Vec::new();
    let mut g: usize = 0;
    while g < index.len()
        invariant
            g <= index.len(),
            artists_match(flatten_index(index@.subrange(0, g as int)), out@),
        decreases index.len() - g,
    {
        let group = &index[g];
        let ghost before = out@;
        let ghost flat = flatten_index(index@.subrange(0, g as int));
        let mut i: usize = 0;
        while i < group.len()
            invariant
                g < index.len(),
                group == index@[g as int],
                i <= group.len(),
                out@.len() == before.len() + i,
                artists_match(flat, before),
                forall|j: int| 0 <= j < before.len() ==> out@[j] == before[j],
                forall|j: int| 0 <= j < i ==> artist_matches(group@[j], #[trigger] out@[before.len() + j]),
            decreases group.len() - i,
        {
            out.push(map_artist(&group[i]));
            i = i + 1;
        }
        proof {
            let sub1 = index@.subrange(0, g + 1);
            assert(sub1.drop_last() =~= index@.subrange(0, g as int));
            assert(sub1.last() == index@[g as int]);
            let f1 = flatten_index(sub1);
            assert(f1 == flat + group@);
            assert forall|j: int| 0 <= j < f1.len() implies artist_matches(f1[j], #[trigger] out@[j]) by {
                if j < flat.len() {
                    assert(f1[j] == flat[j]);
                    assert(out@[j] == before[j]);
                } else {
                    assert(f1[j] == group@[j - flat.len()]);
                    assert(out@[before.len() + (j - flat.len())] == out@[j]);
                }
            }
        }
        g = g + 1;
    }
    assert(index@.subrange(0, index@.len() as int) =~= index@);
    out
}

// ── Credentials ────────────────────────────────────────────────────────────

/// The two ways of logging in that the client uses.
#[derive(Debug, Clone, Copy, PartialEq, Eq, Structural)]
pub enum LoginKind {
    /// Salted-token authentication.
    Token,
    /// Hex-encoded plain password.
    Plain,
}

/// The credentials the client logs in with.
#[derive(Debug)]
pub struct Login {
    pub kind: LoginKind,
    pub username: String,
    pub secret: String,
}

/// The login for a server configuration: token authentication with the
/// password, plain authentication with the password, or — for the API-key
/// method — token authentication with the API key as the secret.
pub fn login_for(server: &ServerConfig) -> (r: Login)
    ensures
        r.username == server.username,
        match server.auth_method {
            AuthMethod::Token => r.kind == LoginKind::Token && r.secret == server.password,
            AuthMethod::Plain => r.kind == LoginKind::Plain && r.secret == server.password,
            AuthMethod::ApiKey => r.kind == LoginKind::Token && r.secret == server.api_key,
        },
{
    match server.auth_method {
        AuthMethod::Token => Login {
            kind: LoginKind::Token,
            username: server.username.clone(),
            secret: server.password.clone(),
        },
        AuthMethod::Plain => Login {
            kind: LoginKind::Plain,
            username: server.username.clone(),
            secret: server.password.clone(),
        },
        AuthMethod::ApiKey => Login {
            kind: LoginKind::Token,
            username: server.username.clone(),
            secret: server.api_key.clone(),
        },
    }
}

// ── Requests ───────────────────────────────────────────────────────────────

/// The `getAlbumList2` list types the client asks for.
#[derive(Debug, Clone, Copy, PartialEq, Eq, Structural)]
pub enum AlbumListKind {
    Random,
    Newest,
    Recent,
    AlphabeticalByName,
    AlphabeticalByArtist,
    ByYear,
}

/// An API call of the Subsonic server, with its parameters.
#[derive(Debug)]
pub enum ApiRequest {
    AlbumList2 { list_type: AlbumListKind, size: Option<i32>, offset: Option<i32> },
    Artists,
    Artist { id: String },
    Album { id: String },
    Playlists,
    Playlist { id: String },
    Search3 {
        query: String,
        artist_count: Option<i32>,
        album_count: Option<i32>,
        song_count: Option<i32>,
    },
    Scrobble { id: String, submission: Option<bool> },
}

/// The list type for an album sort.
pub open spec fn list_kind_of(sort: SortType) -> AlbumListKind {
    match sort {
        SortType::Newest => AlbumListKind::Newest,
        SortType::Recent => AlbumListKind::Recent,
        SortType::AlphabeticalByName => AlbumListKind::AlphabeticalByName,
        SortType::AlphabeticalByArtist => AlbumListKind::AlphabeticalByArtist,
        SortType::ByYear => AlbumListKind::ByYear,
        SortType::Random => AlbumListKind::Random,
    }
}

/// The API call that carries out `cmd`. Counts are passed as `i32`
/// (a cast of the `u32`); the album list of a sort asks for `limit`
/// albums from `offset`; the home rows ask for `limit` albums.
pub open spec fn request_for(cmd: SubsonicCommand) -> ApiRequest {
    match cmd {
        SubsonicCommand::GetRecentlyAdded { limit } => ApiRequest::AlbumList2 {
            list_type: AlbumListKind::Newest,
            size: Some(limit as i32),
            offset: None,
        },
        SubsonicCommand::GetRecentlyPlayed { limit } => ApiRequest::AlbumList2 {
            list_type: AlbumListKind::Recent,
            size: Some(limit as i32),
            offset: None,
        },
        SubsonicCommand::GetArtists => ApiRequest::Artists,
        SubsonicCommand::GetArtistDetail { id } => ApiRequest::Artist { id },
        SubsonicCommand::GetAlbumList { sort, offset, limit } => ApiRequest::AlbumList2 {
            list_type: list_kind_of(sort),
            size: Some(limit as i32),
            offset: Some(offset as i32),
        },
        SubsonicCommand::GetAlbumDetail { id } => ApiRequest::Album { id },
        SubsonicCommand::GetPlaylists => ApiRequest::Playlists,
        SubsonicCommand::GetPlaylistDetail { id } => ApiRequest::Playlist { id },
        SubsonicCommand::Search { query, artist_count, album_count, song_count } => ApiRequest::Search3 {
            query,
            artist_count: Some(artist_count as i32),
            album_count: Some(album_count as i32),
            song_count: Some(song_count as i32),
        },
        SubsonicCommand::Scrobble { id, submission } => ApiRequest::Scrobble {
            id,
            submission: Some(submission),
        },
    }
}

/// The API call for a command.
pub fn plan_request(cmd: &SubsonicCommand) -> (r: ApiRequest)
    ensures
        r == request_for(*cmd),
{
    match cmd {
        SubsonicCommand::GetRecentlyAdded { limit } => ApiRequest::AlbumList2 {
            list_type: AlbumListKind::Newest,
            size: Some(*limit as i32),
            offset: None,
        },
        SubsonicCommand::GetRecentlyPlayed { limit } => ApiRequest::AlbumList2 {
            list_type: AlbumListKind::Recent,
            size: Some(*limit as i32),
            offset: None,
        },
        SubsonicCommand::GetArtists => ApiRequest::Artists,
        SubsonicCommand::GetArtistDetail { id } => ApiRequest::Artist { id: id.clone() },
        SubsonicCommand::GetAlbumList { sort, offset, limit } => {
            let list_type = match sort {
                SortType::Newest => AlbumListKind::Newest,
                SortType::Recent => AlbumListKind::Recent,
                SortType::AlphabeticalByName => AlbumListKind::AlphabeticalByName,
                SortType::AlphabeticalByArtist => AlbumListKind::AlphabeticalByArtist,
                SortType::ByYear => AlbumListKind::ByYear,
                SortType::Random => AlbumListKind::Random,
            };
            ApiRequest::AlbumList2 {
                list_type,
                size: Some(*limit as i32),
                offset: Some(*offset as i32),
            }
        },
        SubsonicCommand::GetAlbumDetail { id } => ApiRequest::Album { id: id.clone() },
        SubsonicCommand::GetPlaylists => ApiRequest::Playlists,
        SubsonicCommand::GetPlaylistDetail { id } => ApiRequest::Playlist { id: id.clone() },
        SubsonicCommand::Search { query, artist_count, album_count, song_count } => ApiRequest::Search3 {
            query: query.clone(),
            artist_count: Some(*artist_count as i32),
            album_count: Some(*album_count as i32),
            song_count: Some(*song_count as i32),
        },
        SubsonicCommand::Scrobble { id, submission } => ApiRequest::Scrobble {
            id: id.clone(),
            submission: Some(*submission),
        },
    }
}

// ── Replies ────────────────────────────────────────────────────────────────

/// The data a successful API call returned.
#[derive(Debug)]
pub enum ApiReply {
    Albums(Vec<AlbumRecord>),
    ArtistIndex(Vec<Vec<ArtistRecord>>),
    Artist(ArtistWithAlbumsRecord),
    Album(AlbumWithSongsRecord),
    Playlists(Vec<PlaylistRecord>),
    Playlist(PlaylistWithSongsRecord),
    Search(SearchRecord),
    Done,
}

/// Records the reply to `cmd` in the shared results: the field of the
/// command is overwritten with the mapped data and the error cleared;
/// every other field keeps its value. Scrobbling, or a reply that is not
/// the kind of data the command's call returns, only clears the error.
pub fn store_reply(results: &mut FetchResults, cmd: &SubsonicCommand, reply: &ApiReply)
    ensures
        final(results).error is None,
        match (*cmd, *reply) {
            (SubsonicCommand::GetRecentlyAdded { .. }, ApiReply::Albums(rs)) =>
                final(results).recent_albums matches Some(v) && albums_match(rs@, v@)
                && *final(results) == (FetchResults { recent_albums: final(results).recent_albums, error: None, ..*old(results) }),
            (SubsonicCommand::GetRecentlyPlayed { .. }, ApiReply::Albums(rs)) =>
                final(results).recent_played matches Some(v) && albums_match(rs@, v@)
                && *final(results) == (FetchResults { recent_played: final(results).recent_played, error: None, ..*old(results) }),
            (SubsonicCommand::GetAlbumList { .. }, ApiReply::Albums(rs)) =>
                final(results).album_list matches Some(v) && albums_match(rs@, v@)
                && *final(results) == (FetchResults { album_list: final(results).album_list, error: None, ..*old(results) }),
            (SubsonicCommand::GetArtists, ApiReply::ArtistIndex(index)) =>
                final(results).artists matches Some(v) && artists_match(flatten_index(index@), v@)
                && *final(results) == (FetchResults { artists: final(results).artists, error: None, ..*old(results) }),
            (SubsonicCommand::GetArtistDetail { .. }, ApiReply::Artist(rec)) =>
                final(results).artist_detail matches Some((a, albums)) && artist_matches(rec.artist, a)
                && albums_match(rec.album@, albums@)
                && *final(results) == (FetchResults { artist_detail: final(results).artist_detail, error: None, ..*old(results) }),
            (SubsonicCommand::GetAlbumDetail { .. }, ApiReply::Album(rec)) =>
                final(results).album_detail matches Some((a, tracks)) && album_matches(rec.album, a)
                && tracks_match(rec.song@, tracks@)
                && *final(results) == (FetchResults { album_detail: final(results).album_detail, error: None, ..*old(results) }),
            (SubsonicCommand::GetPlaylists, ApiReply::Playlists(rs)) =>
                final(results).playlists matches Some(v) && playlists_match(rs@, v@)
                && *final(results) == (FetchResults { playlists: final(results).playlists, error: None, ..*old(results) }),
            (SubsonicCommand::GetPlaylistDetail { .. }, ApiReply::Playlist(rec)) =>
                final(results).playlist_detail matches Some((p, tracks)) && playlist_matches(rec.playlist, p)
                && tracks_match(rec.entry@, tracks@)
                && *final(results) == (FetchResults { playlist_detail: final(results).playlist_detail, error: None, ..*old(results) }),
            (SubsonicCommand::Search { query, .. }, ApiReply::Search(rec)) =>
                final(results).search_results matches Some(sr) && sr.query == query && artists_match(rec.artist@, sr.artists@)
                && albums_match(rec.album@, sr.albums@) && tracks_match(rec.song@, sr.tracks@)
                && *final(results) == (FetchResults { search_results: final(results).search_results, error: None, ..*old(results) }),
            _ => *final(results) == (FetchResults { error: None, ..*old(results) }),
        },
{
    match (cmd, reply) {
        (SubsonicCommand::GetRecentlyAdded { .. }, ApiReply::Albums(rs)) => {
            results.recent_albums = Some(map_albums(rs));
        },
        (SubsonicCommand::GetRecentlyPlayed { .. }, ApiReply::Albums(rs)) => {
            results.recent_played = Some(map_albums(rs));
        },
        (SubsonicCommand::GetAlbumList { .. }, ApiReply::Albums(rs)) => {
            results.album_list = Some(map_albums(rs));
        },
        (SubsonicCommand::GetArtists, ApiReply::ArtistIndex(index)) => {
            results.artists = Some(map_artist_index(index));
        },
        (SubsonicCommand::GetArtistDetail { .. }, ApiReply::Artist(rec)) => {
            let artist = map_artist_id3_full(rec);
            let albums = map_albums(&rec.album);
            results.artist_detail = Some((artist, albums));
        },
        (SubsonicCommand::GetAlbumDetail { .. }, ApiReply::Album(rec)) => {
            let album = map_album_with_songs(rec);
            let tracks = map_tracks(&rec.song);
            results.album_detail = Some((album, tracks));
        },
        (SubsonicCommand::GetPlaylists, ApiReply::Playlists(rs)) => {
            results.playlists = Some(map_playlists(rs));
        },
        (SubsonicCommand::GetPlaylistDetail { .. }, ApiReply::Playlist(rec)) => {
            let playlist = map_playlist_with_songs(rec);
            let tracks = map_tracks(&rec.entry);
            results.playlist_detail = Some((playlist, tracks));
        },
        (SubsonicCommand::Search { query, .. }, ApiReply::Search(rec)) => {
            let sr = SearchResults {
                query: query.clone(),
                artists: map_artists(&rec.artist),
                albums: map_albums(&rec.album),
                tracks: map_tracks(&rec.song),
            };
            results.search_results = Some(sr);
        },
        _ => {},
    }
    results.error = None;
}

/// Records a failed command: the error message is kept, nothing else
/// changes.
pub fn store_error(results: &mut FetchResults, message: String)
    ensures
        *final(results) == (FetchResults { error: Some(message), ..*old(results) }),
{
    results.error = Some(message);
}

} // verus!
