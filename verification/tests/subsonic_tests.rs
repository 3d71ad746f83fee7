use navidrome_htpc::config::{AuthMethod, ServerConfig};
use navidrome_htpc::subsonic::client::{
    login_for, map_album, map_artist, map_artist_index, map_playlist, map_track, plan_request, store_error,
    store_reply, AlbumListKind, AlbumRecord, AlbumWithSongsRecord, ApiReply, ApiRequest, ArtistRecord, LoginKind,
    PlaylistRecord, SearchRecord, SongRecord,
};
use navidrome_htpc::subsonic::commands::{new_request_id, FetchResults, SortType, SubsonicCommand};
use navidrome_htpc::subsonic::urls::{build_cover_art_url, build_stream_url, cover_cache_file_name, cover_size, stream_bitrate};

fn artist_rec(id: &str, name: &str, count: Option<i64>) -> ArtistRecord {
    ArtistRecord { id: id.to_string(), name: name.to_string(), cover_art: None, album_count: count }
}

fn album_rec(id: &str) -> AlbumRecord {
    AlbumRecord {
        id: id.to_string(),
        name: format!("Album {}", id),
        artist: Some("Artist".to_string()),
        artist_id: None,
        cover_art: Some(format!("al-{}", id)),
        song_count: Some(12),
        duration: Some(3000),
        created: None,
        year: Some(1999),
        genre: Some("Jazz".to_string()),
    }
}

fn song_rec(id: &str) -> SongRecord {
    SongRecord {
        id: id.to_string(),
        title: format!("Song {}", id),
        album: Some("Album".to_string()),
        artist: None,
        track: Some(3),
        cover_art: None,
        size: Some(1024),
        suffix: Some("flac".to_string()),
        duration: Some(215),
        bit_rate: Some(1411),
        disc_number: None,
        album_id: Some("al".to_string()),
        artist_id: None,
    }
}

fn server(method: AuthMethod) -> ServerConfig {
    ServerConfig {
        url: "https://music.local".to_string(),
        username: "admin".to_string(),
        auth_method: method,
        password: "pw".to_string(),
        api_key: "key".to_string(),
    }
}

fn client() -> opensubsonic::Client {
    opensubsonic::Client::new("https://music.local:4533", opensubsonic::Auth::plain("admin", "pw")).unwrap()
}

#[test]
fn records_map_to_domain() {
    let a = map_artist(&artist_rec("ar1", "Miles", Some(7)));
    assert_eq!(a.id, "ar1");
    assert_eq!(a.album_count, 7);
    let none = map_artist(&artist_rec("ar2", "X", None));
    assert_eq!(none.album_count, 0);
    let al = map_album(&album_rec("1"));
    assert_eq!(al.name, "Album 1");
    assert_eq!(al.artist_name, "Artist");
    assert_eq!(al.artist_id, "");
    assert_eq!(al.year, Some(1999));
    assert_eq!(al.song_count, 12);
    assert_eq!(al.duration_secs, 3000);
    assert_eq!(al.created, "");
    let t = map_track(&song_rec("s"));
    assert_eq!(t.title, "Song s");
    assert_eq!(t.track_number, Some(3));
    assert_eq!(t.duration_secs, 215);
    assert_eq!(t.bitrate, Some(1411));
    assert_eq!(t.size_bytes, Some(1024));
    assert_eq!(t.artist_name, "");
    assert_eq!(t.album_id, "al");
    let p = map_playlist(&PlaylistRecord {
        id: "p".to_string(),
        name: "Mix".to_string(),
        owner: Some("me".to_string()),
        public: Some(true),
        song_count: Some(20),
        duration: None,
        created: None,
    });
    assert_eq!(p.song_count, 20);
    assert_eq!(p.duration_secs, 0);
    assert_eq!(p.owner.as_deref(), Some("me"));
}

#[test]
fn artist_index_flattens_in_order() {
    let index = vec![
        vec![artist_rec("1", "Abba", None), artist_rec("2", "Air", None)],
        vec![],
        vec![artist_rec("3", "Beck", None)],
    ];
    let r = map_artist_index(&index);
    let names: Vec<&str> = r.iter().map(|a| a.name.as_str()).collect();
    assert_eq!(names, vec!["Abba", "Air", "Beck"]);
}

#[test]
fn login_follows_auth_method() {
    let t = login_for(&server(AuthMethod::Token));
    assert_eq!(t.kind, LoginKind::Token);
    assert_eq!(t.secret, "pw");
    let p = login_for(&server(AuthMethod::Plain));
    assert_eq!(p.kind, LoginKind::Plain);
    assert_eq!(p.secret, "pw");
    let k = login_for(&server(AuthMethod::ApiKey));
    assert_eq!(k.kind, LoginKind::Token);
    assert_eq!(k.secret, "key");
    assert_eq!(k.username, "admin");
}

#[test]
fn commands_plan_their_requests() {
    match plan_request(&SubsonicCommand::GetRecentlyAdded { limit: 20 }) {
        ApiRequest::AlbumList2 { list_type, size, offset } => {
            assert_eq!(list_type, AlbumListKind::Newest);
            assert_eq!(size, Some(20));
            assert_eq!(offset, None);
        }
        other => panic!("unexpected {:?}", other),
    }
    match plan_request(&SubsonicCommand::GetAlbumList { sort: SortType::ByYear, offset: 100, limit: 50 }) {
        ApiRequest::AlbumList2 { list_type, size, offset } => {
            assert_eq!(list_type, AlbumListKind::ByYear);
            assert_eq!(size, Some(50));
            assert_eq!(offset, Some(100));
        }
        other => panic!("unexpected {:?}", other),
    }
    match plan_request(&SubsonicCommand::Search {
        query: "miles".to_string(),
        artist_count: 20,
        album_count: 20,
        song_count: 50,
    }) {
        ApiRequest::Search3 { query, song_count, .. } => {
            assert_eq!(query, "miles");
            assert_eq!(song_count, Some(50));
        }
        other => panic!("unexpected {:?}", other),
    }
    assert!(matches!(plan_request(&SubsonicCommand::GetArtists), ApiRequest::Artists));
    match plan_request(&SubsonicCommand::Scrobble { id: "s".to_string(), submission: true }) {
        ApiRequest::Scrobble { id, submission } => {
            assert_eq!(id, "s");
            assert_eq!(submission, Some(true));
        }
        other => panic!("unexpected {:?}", other),
    }
}

#[test]
fn replies_land_in_their_fields() {
    let mut r = FetchResults::default();
    store_error(&mut r, "boom".to_string());
    assert_eq!(r.error.as_deref(), Some("boom"));
    store_reply(&mut r, &SubsonicCommand::GetRecentlyPlayed { limit: 20 }, &ApiReply::Albums(vec![album_rec("9")]));
    assert!(r.error.is_none());
    assert_eq!(r.recent_played.as_ref().unwrap()[0].id, "9");
    assert!(r.recent_albums.is_none());
    let detail = AlbumWithSongsRecord { album: album_rec("5"), song: vec![song_rec("a"), song_rec("b")] };
    store_reply(&mut r, &SubsonicCommand::GetAlbumDetail { id: "5".to_string() }, &ApiReply::Album(detail));
    let (al, tracks) = r.album_detail.as_ref().unwrap();
    assert_eq!(al.id, "5");
    assert_eq!(tracks.len(), 2);
    let search = SearchRecord { artist: vec![artist_rec("1", "A", None)], album: vec![], song: vec![song_rec("x")] };
    store_reply(&mut r, &SubsonicCommand::Search {
        query: "q".to_string(),
        artist_count: 1,
        album_count: 1,
        song_count: 1,
    }, &ApiReply::Search(search));
    let sr = r.search_results.as_ref().unwrap();
    assert_eq!(sr.artists.len(), 1);
    assert_eq!(sr.tracks[0].id, "x");
    store_error(&mut r, "again".to_string());
    store_reply(&mut r, &SubsonicCommand::Scrobble { id: "x".to_string(), submission: false }, &ApiReply::Done);
    assert!(r.error.is_none());
}

#[test]
fn request_ids_are_v4_uuids() {
    let a = new_request_id();
    let b = new_request_id();
    assert_eq!(a.len(), 36);
    assert_eq!(a.as_bytes()[14], b'4');
    for (i, c) in a.chars().enumerate() {
        if i == 8 || i == 13 || i == 18 || i == 23 {
            assert_eq!(c, '-');
        } else {
            assert!(c.is_ascii_hexdigit() && !c.is_ascii_uppercase());
        }
    }
    assert_ne!(a, b);
}

#[test]
fn url_parameters() {
    assert_eq!(stream_bitrate(0), None);
    assert_eq!(stream_bitrate(320), Some(320));
    assert_eq!(cover_size(0), None);
    assert_eq!(cover_size(300), Some(300));
    assert_eq!(cover_cache_file_name("al-1", 300), "al-1_300.jpg");
}

#[test]
fn stream_and_cover_urls_carry_ids_and_options() {
    let c = client();
    let url = build_stream_url(&c, "song-1", 320).unwrap();
    assert!(url.starts_with("https://music.local:4533/rest/stream"));
    assert!(url.contains("id=song-1"));
    assert!(url.contains("maxBitRate=320"));
    let unlimited = build_stream_url(&c, "song-1", 0).unwrap();
    assert!(!unlimited.contains("maxBitRate"));
    let cover = build_cover_art_url(&c, "al-7", 300).unwrap();
    assert!(cover.contains("getCoverArt"));
    assert!(cover.contains("id=al-7"));
    assert!(cover.contains("size=300"));
    let default_size = build_cover_art_url(&c, "al-7", 0).unwrap();
    assert!(!default_size.contains("size="));
}

#[test]
fn media_urls_carry_id_then_option() {
    let c = opensubsonic::Client::new("https://host/music#top", opensubsonic::Auth::token("u", "p")).unwrap();
    assert!(build_stream_url(&c, "tr_1.flac", 128).unwrap().contains("id=tr_1.flac&maxBitRate=128"));
    assert!(build_cover_art_url(&c, "al-7", 300).unwrap().contains("id=al-7&size=300"));
    assert!(build_stream_url(&c, "x", 0).unwrap().contains("id=x"));
}

#[test]
fn media_urls_form_encode_the_id() {
    let c = client();
    let url = build_stream_url(&c, "a b/\u{e9}", 128).unwrap();
    assert!(url.contains("id=a+b%2F%C3%A9&maxBitRate=128"));
    let cover = build_cover_art_url(&c, "al&1", 0).unwrap();
    assert!(cover.contains("id=al%261"));
}

fn query_of(url: &str) -> &str {
    let end = url.find('#').unwrap_or(url.len());
    let start = url[..end].find('?').map(|q| q + 1).unwrap_or(end);
    &url[start..end]
}

#[test]
fn media_url_query_ends_with_the_id() {
    let c = opensubsonic::Client::new("https://host/music?x=1#frag", opensubsonic::Auth::plain("u", "p")).unwrap();
    let url = build_stream_url(&c, "tr 9", 0).unwrap();
    assert!(query_of(&url).ends_with("&id=tr+9"));
    assert!(url.ends_with("#frag"));
    let url = build_stream_url(&c, "tr", 320).unwrap();
    assert!(query_of(&url).ends_with("&id=tr&maxBitRate=320"));
    let cover = build_cover_art_url(&c, "al", 300).unwrap();
    assert!(query_of(&cover).ends_with("&id=al&size=300"));
}
