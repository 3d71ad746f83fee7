use vstd::prelude::*;
use vstd::view::View as _;
use crate::config::Config;
use crate::subsonic::models::{Album, Artist, Playlist, Track};

verus! {

/// The screens of the application; they are stacked as the user drills in.
#[derive(Debug, Clone, Copy, PartialEq, Eq, Structural)]
pub enum View {
    Home,
    ArtistList,
    ArtistDetail,
    AlbumList,
    AlbumDetail,
    PlaylistList,
    PlaylistDetail,
    Search,
    NowPlaying,
    Settings,
}

/// A user action from the transport bar that must be forwarded to the
/// audio engine on the next frame.
#[derive(Debug, Clone, Copy, PartialEq, Eq, Structural)]
pub enum TransportAction {
    /// Resume playback (un-pause)
    Play,
    /// Pause playback
    Pause,
    /// Stop playback and unload the current file
    Stop,
    /// Advance to the next track in the queue
    Next,
    /// Go back to the previous track
    Previous,
}

/// The areas of the screen between which keyboard focus moves.
#[derive(Debug, Clone, Copy, PartialEq, Eq, Structural)]
pub enum FocusZone {
    Content,
    Menu,
    Transport,
    /// The action buttons at the top of a detail view (album/playlist):
    /// Play (0), Shuffle (1), Add to Queue (2).
    Header,
}

/// How the artist list is sorted.
#[derive(Debug, Clone, Copy, PartialEq, Eq, Structural)]
pub enum ArtistSort {
    Alphabetical,
    ByAlbumCount,
}

/// How the album list is sorted.
#[derive(Debug, Clone, Copy, PartialEq, Eq, Structural)]
pub enum AlbumSort {
    Newest,
    AlphabeticalByName,
    AlphabeticalByArtist,
    Random,
}

impl Default for ArtistSort {
    fn default() -> (r: Self)
        ensures
            r == ArtistSort::Alphabetical,
    {
        ArtistSort::Alphabetical
    }
}

impl Default for AlbumSort {
    fn default() -> (r: Self)
        ensures
            r == AlbumSort::Newest,
    {
        AlbumSort::Newest
    }
}

/// Where the keyboard focus is.
#[derive(Debug, Clone, Copy, PartialEq, Eq, Structural)]
pub struct FocusState {
    pub zone: FocusZone,
    /// which row in home / which item in list
    pub content_row: usize,
    /// which item within row
    pub content_col: usize,
    pub menu_expanded: bool,
    /// 0=Search, 1=Settings, 2=NowPlaying
    pub menu_index: usize,
    /// 0=Prev, 1=Play, 2=Stop, 3=Next, 4=Progress, 5=Volume
    pub transport_index: usize,
    /// 0=Play, 1=Shuffle, 2=Add to Queue (detail view header)
    pub header_index: usize,
}

/// The focus on start-up: the content area, with the transport cursor on
/// Play/Pause.
pub open spec fn initial_focus() -> FocusState {
    FocusState {
        zone: FocusZone::Content,
        content_row: 0,
        content_col: 0,
        menu_expanded: false,
        menu_index: 0,
        transport_index: 1,
        header_index: 0,
    }
}

impl Default for FocusState {
    fn default() -> (r: Self)
        ensures
            r == initial_focus(),
    {
        FocusState {
            zone: FocusZone::Content,
            content_row: 0,
            content_col: 0,
            menu_expanded: false,
            menu_index: 0,
            transport_index: 1,  // start on Play/Pause
            header_index: 0,  // start on Play
        }
    }
}

/// A transient notification; `ttl_ms` is the time left on screen.
#[derive(Debug)]
pub struct Toast {
    pub message: String,
    pub ttl_ms: u32,
}

impl Clone for Toast {
    fn clone(&self) -> (r: Self)
        ensures
            r == *self,
    {
        Toast { message: self.message.clone(), ttl_ms: self.ttl_ms }
    }
}

/// Everything the screens show and the keyboard changes. Playback times
/// are in milliseconds and the volume in percent.
pub struct AppState {
    pub config: Config,
    pub view_stack: Vec<View>,
    pub focus: FocusState,
    pub server_configured: bool,
    // Sort state
    pub artist_sort: ArtistSort,
    pub album_sort: AlbumSort,
    // Data (populated by the Subsonic client thread)
    pub recent_albums: Vec<Album>,
    pub recent_played: Vec<Album>,
    pub artists: Vec<Artist>,
    pub albums: Vec<Album>,
    pub playlists: Vec<Playlist>,
    pub current_album: Option<Album>,
    pub current_album_tracks: Vec<Track>,
    pub current_artist: Option<Artist>,
    pub current_artist_albums: Vec<Album>,
    pub current_playlist: Option<Playlist>,
    pub current_playlist_tracks: Vec<Track>,
    pub search_query: String,
    pub search_results_artists: Vec<Artist>,
    pub search_results_albums: Vec<Album>,
    pub search_results_tracks: Vec<Track>,
    // Playback state (updated from the audio engine)
    pub play_queue: Vec<Track>,
    pub current_track_index: Option<usize>,
    /// Index of the last track that was actually playing, retained across a
    /// Stop so the Play button can restart it.
    pub last_played_track_index: Option<usize>,
    /// Index of the track the queue view last scrolled to.
    pub last_scrolled_track: Option<usize>,
    pub is_playing: bool,
    /// Play/pause state the user last requested via the transport bar.
    pub intended_playing: Option<bool>,
    /// Frames left before the `intended_playing` latch is force-cleared.
    pub intent_frames_remaining: u16,
    pub current_time_ms: u64,
    pub total_duration_ms: u64,
    pub volume_percent: u32,
    /// Pending action from the transport bar for the audio engine.
    pub pending_transport_action: Option<TransportAction>,
    // UI state
    pub toasts: Vec<Toast>,
}

/// The view on top of `stack`; Home when the stack is empty.
pub open spec fn top_view(stack: Seq<View>) -> View {
    if stack.len() > 0 {
        stack.last()
    } else {
        View::Home
    }
}

/// The stack after going back: the top view is dropped unless it is the
/// only one.
pub open spec fn popped(stack: Seq<View>) -> Seq<View> {
    if stack.len() > 1 {
        stack.drop_last()
    } else {
        stack
    }
}

impl AppState {
    /// The state of a freshly started application: Home on the stack,
    /// nothing loaded, nothing playing, volume at 75%.
    pub fn new(config: Config, server_configured: bool) -> (r: AppState)
        ensures
            r.config == config,
            r.server_configured == server_configured,
            r.view_stack@ == seq![View::Home],
            r.focus == initial_focus(),
            r.artist_sort == ArtistSort::Alphabetical,
            r.album_sort == AlbumSort::Newest,
            r.recent_albums@.len() == 0,
            r.recent_played@.len() == 0,
            r.artists@.len() == 0,
            r.albums@.len() == 0,
            r.playlists@.len() == 0,
            r.current_album is None,
            r.current_album_tracks@.len() == 0,
            r.current_artist is None,
            r.current_artist_albums@.len() == 0,
            r.current_playlist is None,
            r.current_playlist_tracks@.len() == 0,
            r.search_query@.len() == 0,
            r.search_results_artists@.len() == 0,
            r.search_results_albums@.len() == 0,
            r.search_results_tracks@.len() == 0,
            r.play_queue@.len() == 0,
            r.current_track_index is None,
            r.last_played_track_index is None,
            r.last_scrolled_track is None,
            !r.is_playing,
            r.intended_playing is None,
            r.intent_frames_remaining == 0,
            r.current_time_ms == 0,
            r.total_duration_ms == 0,
            r.volume_percent == 75,
            r.pending_transport_action is None,
            r.toasts@.len() == 0,
    {
        let mut view_stack: Vec<View> = Vec::new();
        view_stack.push(View::Home);
        AppState {
            config,
            view_stack,
            focus: FocusState::default(),
            server_configured,
            artist_sort: ArtistSort::default(),
            album_sort: AlbumSort::default(),
            recent_albums: Vec::new(),
            recent_played: Vec::new(),
            artists: Vec::new(),
            albums: Vec::new(),
            playlists: Vec::new(),
            current_album: None,
            current_album_tracks: Vec::new(),
            current_artist: None,
            current_artist_albums: Vec::new(),
            current_playlist: None,
            current_playlist_tracks: Vec::new(),
            search_query: String::new(),
            search_results_artists: Vec::new(),
            search_results_albums: Vec::new(),
            search_results_tracks: Vec::new(),
            play_queue: Vec::new(),
            current_track_index: None,
            last_played_track_index: None,
            last_scrolled_track: None,
            is_playing: false,
            intended_playing: None,
            intent_frames_remaining: 0,
            current_time_ms: 0,
            total_duration_ms: 0,
            volume_percent: 75,
            pending_transport_action: None,
            toasts: Vec::new(),
        }
    }

    /// The view on top of the stack (Home if the stack is empty).
    pub fn current_view(&self) -> (r: View)
        ensures
            r == top_view(self.view_stack@),
    {
        let n = self.view_stack.len();
        if n > 0 {
            self.view_stack[n - 1]
        } else {
            View::Home
        }
    }

    /// Drills into `view`.
    pub fn push_view(&mut self, view: View)
        ensures
            final(self).view_stack@ == old(self).view_stack@.push(view),
            *final(self) == (AppState { view_stack: final(self).view_stack, ..*old(self) }),
    {
        self.view_stack.push(view);
    }

    /// Goes back one view; the last remaining view is never popped.
    pub fn pop_view(&mut self)
        ensures
            final(self).view_stack@ == popped(old(self).view_stack@),
            *final(self) == (AppState { view_stack: final(self).view_stack, ..*old(self) }),
    {
        if self.view_stack.len() > 1 {
            self.view_stack.pop();
        }
    }
}

/// Going back right after drilling in returns to the same stack, provided
/// the stack was not empty.
pub proof fn lemma_pop_undoes_push(stack: Seq<View>, view: View)
    requires
        stack.len() >= 1,
    ensures
        popped(stack.push(view)) == stack,
        top_view(stack.push(view)) == view,
{
    assert(stack.push(view).drop_last() =~= stack);
}

/// Going back never empties a non-empty stack, and on the root view it
/// changes nothing.
pub proof fn lemma_pop_keeps_root(stack: Seq<View>)
    requires
        stack.len() >= 1,
    ensures
        popped(stack).len() >= 1,
        stack.len() == 1 ==> popped(stack) == stack,
        popped(stack).len() >= 1 && popped(stack)[0] == stack[0],
{
}

} // verus!
