use vstd::prelude::*;

verus! {

/// Clones an optional string, keeping it equal to the given one.
pub fn clone_opt_string(o: &Option<String>) -> (r: Option<String>)
    ensures
        r == *o,
{
    match o {
        Some(s) => Some(s.clone()),
        None => None,
    }
}

/// An artist of the library.
#[derive(Debug, Default)]
pub struct Artist {
    pub id: String,
    pub name: String,
    pub album_count: u32,
    pub cover_art_id: Option<String>,
}

/// An album of the library.
#[derive(Debug, Default)]
pub struct Album {
    pub id: String,
    pub name: String,
    pub artist_id: String,
    pub artist_name: String,
    pub year: Option<u16>,
    pub genre: Option<String>,
    pub cover_art_id: Option<String>,
    pub song_count: u32,
    pub duration_secs: u32,
    pub created: String,
}

/// A song (track) of the library.
#[derive(Debug, Default)]
pub struct Track {
    pub id: String,
    pub title: String,
    pub artist_id: String,
    pub artist_name: String,
    pub album_id: String,
    pub album_name: String,
    pub track_number: Option<u32>,
    pub disc_number: Option<u32>,
    pub duration_secs: u32,
    pub cover_art_id: Option<String>,
    pub bitrate: Option<u32>,
    pub suffix: Option<String>,
    pub size_bytes: Option<u64>,
}

/// A playlist of the library.
#[derive(Debug, Default)]
pub struct Playlist {
    pub id: String,
    pub name: String,
    pub song_count: u32,
    pub duration_secs: u32,
    pub public: Option<bool>,
    pub owner: Option<String>,
    pub created: Option<String>,
}

/// Where the current play queue came from.
#[derive(Debug)]
pub enum QueueSource {
    Album(String),
    Artist(String),
    Playlist(String),
    SearchResult,
    Manual,
}

impl Clone for Artist {
    fn clone(&self) -> (r: Self)
        ensures
            r == *self,
    {
        Artist {
            id: self.id.clone(),
            name: self.name.clone(),
            album_count: self.album_count,
            cover_art_id: clone_opt_string(&self.cover_art_id),
        }
    }
}

impl Clone for Album {
    fn clone(&self) -> (r: Self)
        ensures
            r == *self,
    {
        Album {
            id: self.id.clone(),
            name: self.name.clone(),
            artist_id: self.artist_id.clone(),
            artist_name: self.artist_name.clone(),
            year: self.year,
            genre: clone_opt_string(&self.genre),
            cover_art_id: clone_opt_string(&self.cover_art_id),
            song_count: self.song_count,
            duration_secs: self.duration_secs,
            created: self.created.clone(),
        }
    }
}

impl Clone for Track {
    fn clone(&self) -> (r: Self)
        ensures
            r == *self,
    {
        Track {
            id: self.id.clone(),
            title: self.title.clone(),
            artist_id: self.artist_id.clone(),
            artist_name: self.artist_name.clone(),
            album_id: self.album_id.clone(),
            album_name: self.album_name.clone(),
            track_number: self.track_number,
            disc_number: self.disc_number,
            duration_secs: self.duration_secs,
            cover_art_id: clone_opt_string(&self.cover_art_id),
            bitrate: self.bitrate,
            suffix: clone_opt_string(&self.suffix),
            size_bytes: self.size_bytes,
        }
    }
}

impl Clone for Playlist {
    fn clone(&self) -> (r: Self)
        ensures
            r == *self,
    {
        Playlist {
            id: self.id.clone(),
            name: self.name.clone(),
            song_count: self.song_count,
            duration_secs: self.duration_secs,
            public: self.public,
            owner: clone_opt_string(&self.owner),
            created: clone_opt_string(&self.created),
        }
    }
}

impl Clone for QueueSource {
    fn clone(&self) -> (r: Self)
        ensures
            r == *self,
    {
        match self {
            QueueSource::Album(id) => QueueSource::Album(id.clone()),
            QueueSource::Artist(id) => QueueSource::Artist(id.clone()),
            QueueSource::Playlist(id) => QueueSource::Playlist(id.clone()),
            QueueSource::SearchResult => QueueSource::SearchResult,
            QueueSource::Manual => QueueSource::Manual,
        }
    }
}

impl Default for QueueSource {
    /// A queue built by hand is the default source.
    fn default() -> (r: Self)
        ensures
            r == QueueSource::Manual,
    {
        QueueSource::Manual
    }
}

/// Clones a list of tracks; the copy equals the given list.
pub fn clone_tracks(v: &Vec<Track>) -> (r: Vec<Track>)
    ensures
        r@ == v@,
{
    let mut r: Vec<Track> = Vec::new();
    let mut i: usize = 0;
    while i < v.len()
        invariant
            i <= v.len(),
            r@ == v@.subrange(0, i as int),
        decreases v.len() - i,
    {
        r.push(v[i].clone());
        i = i + 1;
    }
    r
}

/// Copies the tracks from index `start` to the end of the list.
pub fn tracks_from(v: &Vec<Track>, start: usize) -> (r: Vec<Track>)
    requires
        start <= v.len(),
    ensures
        r@ == v@.subrange(start as int, v@.len() as int),
{
    let mut r: Vec<Track> = Vec::new();
    let mut i: usize = start;
    while i < v.len()
        invariant
            start <= i <= v.len(),
            r@ == v@.subrange(start as int, i as int),
        decreases v.len() - i,
    {
        r.push(v[i].clone());
        i = i + 1;
    }
    r
}

} // verus!
