//! The decisions of the application frame: what to fetch when a view is
//! entered, the debounced search, how fetched data lands in the state,
//! keyboard dispatch, the context-menu actions on the play queue, and how
//! the playback state follows the audio engine.
use vstd::prelude::*;
use vstd::view::View as _;
use crate::mpv::events::MpvState;
use crate::mpv::ipc::MpvCommand;
use crate::shuffle::shuffle;
use crate::state::{AppState, Toast, View, TransportAction};
use crate::subsonic::commands::{FetchResults, SortType, SubsonicCommand};
use crate::subsonic::models::{Track, clone_tracks, tracks_from};
use crate::subsonic::urls::{bitrate_param, form_encoded, has_suffix, media_query, url_query};
use crate::text::{decimal, decimal_string, concat3};
use crate::ui::common::{ContextMenuAction, ContextMenuState};
use crate::ui::wizard::WizardState;

verus! {

// ── State transition vocabulary ────────────────────────────────────────────

/// `s1` is `s0` with one more toast, showing `msg` for `ttl_ms`.
pub open spec fn toast_added(s0: AppState, s1: AppState, msg: Seq<char>, ttl_ms: u32) -> bool {
    &&& s1.toasts@.len() == s0.toasts@.len() + 1
    &&& s1.toasts@.drop_last() == s0.toasts@
    &&& s1.toasts@.last().message@ == msg
    &&& s1.toasts@.last().ttl_ms == ttl_ms
    &&& s1 == AppState { toasts: s1.toasts, ..s0 }
}

/// `s1` is `s0` with playback (re)started at the head of a new queue and
/// the Now Playing view pushed; the new queue itself is not constrained
/// here.
pub open spec fn queue_started(s0: AppState, s1: AppState) -> bool {
    &&& s1.view_stack@ == s0.view_stack@.push(View::NowPlaying)
    &&& s1 == AppState {
        play_queue: s1.play_queue,
        current_track_index: Some(0usize),
        is_playing: true,
        current_time_ms: 0,
        total_duration_ms: 0,
        view_stack: s1.view_stack,
        ..s0
    }
}

/// "Added N tracks to queue".
pub open spec fn added_tracks_message(n: nat) -> Seq<char> {
    "Added "@ + decimal(n) + " tracks to queue"@
}

/// "Added "<title>" to queue".
pub open spec fn added_track_message(title: Seq<char>) -> Seq<char> {
    "Added \""@ + title + "\" to queue"@
}

/// The outcome of a context-menu action on a whole track list (album card):
/// nothing to play gives a toast; Play Now starts the list; Shuffle starts
/// a reordering of it; Add to Queue appends it and says so.
pub open spec fn tracks_action_done(
    s0: AppState,
    s1: AppState,
    action: ContextMenuAction,
    tracks: Seq<Track>,
) -> bool {
    if tracks.len() == 0 {
        toast_added(s0, s1, "No tracks to play"@, 2000)
    } else {
        match action {
            ContextMenuAction::PlayNow => queue_started(s0, s1) && s1.play_queue@ == tracks,
            ContextMenuAction::Shuffle => queue_started(s0, s1) && s1.play_queue@.len() == tracks.len()
                && s1.play_queue@.to_multiset() == tracks.to_multiset(),
            ContextMenuAction::AddToQueue => {
                let s_q = AppState { play_queue: s1.play_queue, ..s0 };
                &&& s1.play_queue@ == s0.play_queue@ + tracks
                &&& toast_added(s_q, s1, added_tracks_message(tracks.len()), 3000)
            },
        }
    }
}

/// The outcome of a context-menu action on track `idx` of a list (track
/// row): an index outside the list does nothing; Play Now starts the list
/// from that track on; Shuffle starts a reordering of the whole list; Add
/// to Queue appends that one track and says so.
pub open spec fn track_action_done(
    s0: AppState,
    s1: AppState,
    action: ContextMenuAction,
    tracks: Seq<Track>,
    idx: int,
) -> bool {
    if !(0 <= idx < tracks.len()) {
        s1 == s0
    } else {
        match action {
            ContextMenuAction::PlayNow => queue_started(s0, s1) && s1.play_queue@ == tracks.subrange(
                idx,
                tracks.len() as int,
            ),
            ContextMenuAction::Shuffle => queue_started(s0, s1) && s1.play_queue@.len() == tracks.len()
                && s1.play_queue@.to_multiset() == tracks.to_multiset(),
            ContextMenuAction::AddToQueue => {
                let s_q = AppState { play_queue: s1.play_queue, ..s0 };
                &&& s1.play_queue@ == s0.play_queue@.push(tracks[idx])
                &&& toast_added(s_q, s1, added_track_message(tracks[idx].title@), 3000)
            },
        }
    }
}

/// Appends a toast.
pub fn push_toast(state: &mut AppState, message: String, ttl_ms: u32)
    ensures
        final(state).toasts@ == old(state).toasts@.push(Toast { message, ttl_ms }),
        *final(state) == (AppState { toasts: final(state).toasts, ..*old(state) }),
{
    state.toasts.push(Toast { message, ttl_ms });
}

fn push_toast_text(state: &mut AppState, message: &str, ttl_ms: u32)
    ensures
        toast_added(*old(state), *final(state), message@, ttl_ms),
{
    let ghost s0 = *state;
    push_toast(state, String::from_str(message), ttl_ms);
    assert(state.toasts@.drop_last() =~= s0.toasts@);
}

/// "Added N tracks to queue".
pub fn added_tracks_text(n: usize) -> (r: String)
    ensures
        r@ == added_tracks_message(n as nat),
{
    let digits = decimal_string(n as u64);
    concat3("Added ", digits.as_str(), " tracks to queue")
}

/// "Added "<title>" to queue".
pub fn added_track_text(title: &str) -> (r: String)
    ensures
        r@ == added_track_message(title@),
{
    concat3("Added \"", title, "\" to queue")
}

/// Replaces the queue by `queue` and starts playing it from its head in
/// the Now Playing view.
fn start_queue(state: &mut AppState, queue: Vec<Track>)
    ensures
        queue_started(*old(state), *final(state)),
        final(state).play_queue == queue,
{
    state.play_queue = queue;
    state.current_track_index = Some(0);
    state.is_playing = true;
    state.current_time_ms = 0;
    state.total_duration_ms = 0;
    state.push_view(View::NowPlaying);
}

/// The mutable part of the application that the frame logic drives.
pub struct AppCore {
    pub state: AppState,
    pub wizard: WizardState,
    /// The last query string that was sent, so an unchanged query is not
    /// sent again.
    pub last_search_query: String,
    /// UI-only state for the context menu flyout.
    pub context_menu: ContextMenuState,
    /// A context-menu action waiting on an album's tracks to arrive.
    pub pending_menu_album: Option<(String, ContextMenuAction)>,
}

impl AppCore {
    /// The application around `state`, with the wizard at its first step,
    /// no search sent, the context menu closed and no pending action.
    pub fn new(state: AppState) -> (r: AppCore)
        ensures
            r.state == state,
            r.last_search_query@.len() == 0,
            !r.context_menu.open,
            r.context_menu.album_id is None,
            r.context_menu.track_index is None,
            r.context_menu.selected == 0,
            r.pending_menu_album is None,
            r.wizard.step == crate::ui::wizard::WizardStep::ServerUrl,
    {
        AppCore {
            state,
            wizard: WizardState::default(),
            last_search_query: String::new(),
            context_menu: ContextMenuState::default(),
            pending_menu_album: None,
        }
    }

    /// Apply a context-menu action to a full track list (album-card trigger).
    pub fn apply_action_to_tracks(&mut self, action: ContextMenuAction, tracks: Vec<Track>)
        ensures
            tracks_action_done(old(self).state, final(self).state, action, tracks@),
            *final(self) == (AppCore { state: final(self).state, ..*old(self) }),
    {
        if tracks.len() == 0 {
            push_toast_text(&mut self.state, "No tracks to play", 2000);
            return;
        }
        match action {
            ContextMenuAction::PlayNow => {
                start_queue(&mut self.state, tracks);
            },
            ContextMenuAction::Shuffle => {
                let mut tracks = tracks;
                shuffle(&mut tracks);
                start_queue(&mut self.state, tracks);
            },
            ContextMenuAction::AddToQueue => {
                let n = tracks.len();
                let mut tracks = tracks;
                let ghost s0 = self.state;
                self.state.play_queue.append(&mut tracks);
                let ghost s_q = self.state;
                push_toast(&mut self.state, added_tracks_text(n), 3000);
                assert(self.state.toasts@.drop_last() =~= s_q.toasts@);
            },
        }
    }

    /// Apply a context-menu action to track `idx` of a track list
    /// (track-row trigger).
    pub fn apply_action_to_track_in_list(&mut self, action: ContextMenuAction, tracks: &Vec<Track>, idx: usize)
        ensures
            track_action_done(old(self).state, final(self).state, action, tracks@, idx as int),
            *final(self) == (AppCore { state: final(self).state, ..*old(self) }),
    {
        if tracks.len() == 0 || idx >= tracks.len() {
            return;
        }
        match action {
            ContextMenuAction::PlayNow => {
                start_queue(&mut self.state, tracks_from(tracks, idx));
            },
            ContextMenuAction::Shuffle => {
                let mut all = clone_tracks(tracks);
                shuffle(&mut all);
                start_queue(&mut self.state, all);
            },
            ContextMenuAction::AddToQueue => {
                let track = tracks[idx].clone();
                let message = added_track_text(track.title.as_str());
                self.state.play_queue.push(track);
                let ghost s_q = self.state;
                push_toast(&mut self.state, message, 3000);
                assert(self.state.toasts@.drop_last() =~= s_q.toasts@);
            },
        }
    }
}

/// The current album is `album_id` and its tracks are loaded.
pub open spec fn album_tracks_loaded(s: AppState, album_id: Seq<char>) -> bool {
    &&& s.current_album matches Some(a) && a.id@ == album_id
    &&& s.current_album_tracks@.len() > 0
}

/// The view on top of the state's stack.
pub open spec fn top_view_of(s: AppState) -> View {
    crate::state::top_view(s.view_stack@)
}

/// The outcome of a context-menu action on the item the menu was opened
/// on. A track row acts on the track list of the album or playlist being
/// shown. An album card acts on the album's tracks when they are loaded;
/// otherwise they are requested (when a server is connected) and the action
/// waits for them, or a toast says that they cannot be loaded.
pub open spec fn menu_action_done(
    c0: AppCore,
    c1: AppCore,
    action: ContextMenuAction,
    album_id: Option<String>,
    track_index: Option<usize>,
    has_subsonic: bool,
    sent: Option<SubsonicCommand>,
) -> bool {
    match track_index {
        Some(idx) => {
            &&& sent is None
            &&& c1 == AppCore { state: c1.state, ..c0 }
            &&& match top_view_of(c0.state) {
                View::AlbumDetail => track_action_done(c0.state, c1.state, action, c0.state.current_album_tracks@, idx as int),
                View::PlaylistDetail => track_action_done(c0.state, c1.state, action, c0.state.current_playlist_tracks@, idx as int),
                _ => c1.state == c0.state,
            }
        },
        None => match album_id {
            Some(id) => if album_tracks_loaded(c0.state, id@) {
                &&& sent is None
                &&& c1 == AppCore { state: c1.state, ..c0 }
                &&& tracks_action_done(c0.state, c1.state, action, c0.state.current_album_tracks@)
            } else if has_subsonic {
                &&& sent == Some(SubsonicCommand::GetAlbumDetail { id })
                &&& c1 == AppCore { state: c1.state, pending_menu_album: Some((id, action)), ..c0 }
                &&& toast_added(c0.state, c1.state, "Loading album\u{2026}"@, 1500)
            } else {
                &&& sent is None
                &&& c1 == AppCore { state: c1.state, ..c0 }
                &&& toast_added(c0.state, c1.state, "No server \u{2014} can't load album"@, 3000)
            },
            None => sent is None && c1 == c0,
        },
    }
}

impl AppCore {
    /// Resolve a context-menu action against the play queue, for a menu
    /// that was opened on the album `album_id` or on the track row
    /// `track_index`. Returns the command to send to the Subsonic client.
    pub fn handle_context_menu_action(
        &mut self,
        action: ContextMenuAction,
        album_id: Option<String>,
        track_index: Option<usize>,
        has_subsonic: bool,
    ) -> (r: Option<SubsonicCommand>)
        ensures
            menu_action_done(*old(self), *final(self), action, album_id, track_index, has_subsonic, r),
    {
        if let Some(idx) = track_index {
            let view = self.state.current_view();
            match view {
                View::AlbumDetail => {
                    let tracks = clone_tracks(&self.state.current_album_tracks);
                    self.apply_action_to_track_in_list(action, &tracks, idx);
                },
                View::PlaylistDetail => {
                    let tracks = clone_tracks(&self.state.current_playlist_tracks);
                    self.apply_action_to_track_in_list(action, &tracks, idx);
                },
                _ => {},
            }
            return None;
        }
        match album_id {
            Some(id) => {
                let have_tracks = match &self.state.current_album {
                    Some(a) => a.id == id && self.state.current_album_tracks.len() > 0,
                    None => false,
                };
                if have_tracks {
                    let tracks = clone_tracks(&self.state.current_album_tracks);
                    self.apply_action_to_tracks(action, tracks);
                    None
                } else if has_subsonic {
                    let cmd = SubsonicCommand::GetAlbumDetail { id: id.clone() };
                    self.pending_menu_album = Some((id, action));
                    push_toast_text(&mut self.state, "Loading album\u{2026}", 1500);
                    Some(cmd)
                } else {
                    push_toast_text(&mut self.state, "No server \u{2014} can't load album", 3000);
                    None
                }
            },
            None => None,
        }
    }

    /// One frame of input for the open context menu: the flyout handles
    /// its keys and clicks, and a picked action is applied to the item the
    /// menu was opened on. Returns the command to send to the Subsonic
    /// client, if any.
    pub fn context_menu_frame(
        &mut self,
        up: bool,
        down: bool,
        enter: bool,
        escape: bool,
        left: bool,
        clicked: Option<usize>,
        has_subsonic: bool,
    ) -> (r: Option<SubsonicCommand>)
        ensures
            !old(self).context_menu.open ==> r is None && *final(self) == *old(self),
            old(self).context_menu.open ==> {
                let s1 = if up && old(self).context_menu.selected > 0 {
                    (old(self).context_menu.selected - 1) as int
                } else {
                    old(self).context_menu.selected as int
                };
                let s2 = if down && s1 + 1 < 3 { s1 + 1 } else { s1 };
                let picked = match clicked {
                    Some(i) => Some(crate::ui::common::item_action(i as int)),
                    None => if enter { Some(crate::ui::common::item_action(s2)) } else { None },
                };
                let closes = enter || escape || left || clicked is Some;
                let menu = ContextMenuState {
                    open: !closes,
                    album_id: if closes { None } else { old(self).context_menu.album_id },
                    track_index: if closes { None } else { old(self).context_menu.track_index },
                    selected: s2 as usize,
                };
                let c_mid = AppCore { context_menu: menu, ..*old(self) };
                match picked {
                    Some(a) => menu_action_done(
                        c_mid,
                        *final(self),
                        a,
                        old(self).context_menu.album_id,
                        old(self).context_menu.track_index,
                        has_subsonic,
                        r,
                    ),
                    None => r is None && *final(self) == c_mid,
                }
            },
    {
        let album_id = crate::subsonic::models::clone_opt_string(&self.context_menu.album_id);
        let track_index = self.context_menu.track_index;
        let action = self.context_menu.handle_input(up, down, enter, escape, left, clicked);
        match action {
            Some(a) => self.handle_context_menu_action(a, album_id, track_index, has_subsonic),
            None => None,
        }
    }
}

// ── Keyboard ───────────────────────────────────────────────────────────────

/// The number of rows the focus moves through in the current view: the
/// three rows of Home, the tracks of a detail view or of the queue (at
/// least one), the search bar and the songs found in Search, one row
/// elsewhere.
pub open spec fn content_rows(s: AppState) -> int {
    match top_view_of(s) {
        View::Home => 3,
        View::AlbumDetail => if s.current_album_tracks@.len() > 0 { s.current_album_tracks@.len() as int } else { 1 },
        View::PlaylistDetail => if s.current_playlist_tracks@.len() > 0 { s.current_playlist_tracks@.len() as int } else { 1 },
        View::NowPlaying => if s.play_queue@.len() > 0 { s.play_queue@.len() as int } else { 1 },
        View::Search => if s.search_results_tracks@.len() < usize::MAX {
            s.search_results_tracks@.len() + 1int
        } else {
            s.search_results_tracks@.len() as int
        },
        _ => 1,
    }
}

/// The number of transport controls the focus moves through.
pub open spec fn transport_controls() -> int {
    6
}

/// `s1` is `s0` with `view` pushed and `f` applied to nothing else.
pub open spec fn pushed(s0: AppState, s1: AppState, view: View) -> bool {
    &&& s1.view_stack@ == s0.view_stack@.push(view)
    &&& s1 == AppState { view_stack: s1.view_stack, ..s0 }
}

/// What Enter does on the focused content item: Home's cards open the
/// artist, album and playlist lists and its album rows open the album; the
/// album, artist and playlist lists open the item at the focused column; a
/// track of an album plays the album from that track; a track of the queue
/// is jumped to. Elsewhere Enter does nothing.
pub open spec fn activated(s0: AppState, s1: AppState) -> bool {
    let row = s0.focus.content_row;
    let col = s0.focus.content_col;
    match top_view_of(s0) {
        View::Home => if row == 0 {
            if col == 0 {
                pushed(s0, s1, View::ArtistList)
            } else if col == 1 {
                pushed(s0, s1, View::AlbumList)
            } else if col == 2 {
                pushed(s0, s1, View::PlaylistList)
            } else {
                s1 == s0
            }
        } else if row == 1 || row == 2 {
            let albums = if row == 1 { s0.recent_albums@ } else { s0.recent_played@ };
            if col < albums.len() {
                pushed(AppState { current_album: Some(albums[col as int]), ..s0 }, s1, View::AlbumDetail)
            } else {
                s1 == s0
            }
        } else {
            s1 == s0
        },
        View::AlbumList => if col < s0.albums@.len() {
            pushed(AppState { current_album: Some(s0.albums@[col as int]), ..s0 }, s1, View::AlbumDetail)
        } else {
            s1 == s0
        },
        View::AlbumDetail => if row < s0.current_album_tracks@.len() {
            crate::ui::album_detail::playing_from_head(
                s0,
                s1,
                s0.current_album_tracks@.subrange(row as int, s0.current_album_tracks@.len() as int),
            )
        } else {
            s1 == s0
        },
        View::ArtistList => if col < s0.artists@.len() {
            pushed(AppState { current_artist: Some(s0.artists@[col as int]), ..s0 }, s1, View::ArtistDetail)
        } else {
            s1 == s0
        },
        View::PlaylistList => if col < s0.playlists@.len() {
            pushed(AppState { current_playlist: Some(s0.playlists@[col as int]), ..s0 }, s1, View::PlaylistDetail)
        } else {
            s1 == s0
        },
        View::NowPlaying => if row < s0.play_queue@.len() {
            s1 == AppState { current_track_index: Some(row), is_playing: true, ..s0 }
        } else {
            s1 == s0
        },
        View::PlaylistDetail => if row < s0.current_playlist_tracks@.len() {
            crate::ui::album_detail::playing_from_head(
                s0,
                s1,
                s0.current_playlist_tracks@.subrange(row as int, s0.current_playlist_tracks@.len() as int),
            )
        } else {
            s1 == s0
        },
        View::Search => if 1 <= row && row - 1 < s0.search_results_tracks@.len() {
            crate::ui::album_detail::playing_from_head(s0, s1, seq![s0.search_results_tracks@[row - 1]])
        } else {
            s1 == s0
        },
        _ => s1 == s0,
    }
}

/// Where a context menu opens for the focused item.
#[derive(Debug)]
pub enum MenuAnchor {
    Album(String),
    Track(usize),
}

/// The item the context menu opens on: an album of the album list (at the
/// focused row), an album of Home's second or third row (at the focused
/// column), or a track row of an album or playlist; nothing elsewhere.
pub open spec fn menu_anchor(s: AppState) -> Option<MenuAnchor> {
    let row = s.focus.content_row;
    let col = s.focus.content_col;
    match top_view_of(s) {
        View::AlbumList => if row < s.albums@.len() {
            Some(MenuAnchor::Album(s.albums@[row as int].id))
        } else {
            None
        },
        View::Home => if row == 1 && col < s.recent_albums@.len() {
            Some(MenuAnchor::Album(s.recent_albums@[col as int].id))
        } else if row == 2 && col < s.recent_played@.len() {
            Some(MenuAnchor::Album(s.recent_played@[col as int].id))
        } else {
            None
        },
        View::AlbumDetail => if row < s.current_album_tracks@.len() {
            Some(MenuAnchor::Track(row))
        } else {
            None
        },
        View::PlaylistDetail => if row < s.current_playlist_tracks@.len() {
            Some(MenuAnchor::Track(row))
        } else {
            None
        },
        _ => None,
    }
}

/// The outcome of Escape: an expanded menu collapses; otherwise the view
/// stack is popped, and leaving Search clears the query typed (the last
/// query sent is kept, so an unchanged query is never sent again).
pub open spec fn escape_done(c0: AppCore, c1: AppCore) -> bool {
    if c0.state.focus.menu_expanded {
        c1 == AppCore {
            state: AppState {
                focus: crate::state::FocusState { menu_expanded: false, ..c0.state.focus },
                ..c0.state
            },
            ..c0
        }
    } else if top_view_of(c0.state) == View::Search {
        &&& c1.state.view_stack@ == crate::state::popped(c0.state.view_stack@)
        &&& c1.state.search_query@.len() == 0
        &&& c1.last_search_query == c0.last_search_query
        &&& c1 == AppCore {
            state: AppState {
                view_stack: c1.state.view_stack,
                search_query: c1.state.search_query,
                ..c0.state
            },
            ..c0
        }
    } else {
        &&& c1.state.view_stack@ == crate::state::popped(c0.state.view_stack@)
        &&& c1 == AppCore { state: AppState { view_stack: c1.state.view_stack, ..c0.state }, ..c0 }
    }
}

/// The outcome of an arrow key: the flyout opens on the focused item (see
/// `opens_flyout`), or the focus moves as `arrow_result` says.
pub open spec fn arrow_done(c0: AppCore, c1: AppCore, key: crate::focus::Key) -> bool {
    if opens_flyout(c0, key) {
        &&& menu_opened(c0.context_menu, c1.context_menu, menu_anchor(c0.state))
        &&& c1 == AppCore { context_menu: c1.context_menu, ..c0 }
    } else {
        &&& c1.state.focus == crate::focus::arrow_result(
            c0.state.focus,
            key,
            content_rows(c0.state),
            transport_controls(),
        ).0
        &&& c1 == AppCore { state: AppState { focus: c1.state.focus, ..c0.state }, ..c0 }
    }
}

/// The outcome of Enter: in the content area with the flyout closed the
/// focused item is activated (see `activated`); elsewhere nothing changes.
pub open spec fn activate_done(c0: AppCore, c1: AppCore) -> bool {
    &&& !c0.context_menu.open && c0.state.focus.zone == crate::state::FocusZone::Content ==> activated(
        c0.state,
        c1.state,
    )
    &&& !(!c0.context_menu.open && c0.state.focus.zone == crate::state::FocusZone::Content) ==> c1.state
        == c0.state
    &&& c1 == AppCore { state: c1.state, ..c0 }
}

/// Right in the content area at the last possible column, on no item the
/// flyout opens on: there is nowhere to move.
pub open spec fn arrow_blocked(c: AppCore, key: crate::focus::Key) -> bool {
    &&& c.state.focus.zone == crate::state::FocusZone::Content
    &&& key == crate::focus::Key::ArrowRight
    &&& !opens_flyout(c, key)
    &&& c.state.focus.content_col == usize::MAX
}

/// The outcome of one key press while the flyout is closed: Escape,
/// arrows, Space (play/pause) and Enter each do their step; other keys do
/// nothing. Enter activates the focused content item, expands the menu or
/// picks its entry, or clicks the focused transport control. The flyout,
/// while open, takes the keys itself.
pub open spec fn key_done(c0: AppCore, c1: AppCore, key: crate::focus::Key, r: Option<MpvCommand>) -> bool {
    if c0.context_menu.open {
        r is None && c1 == c0
    } else {
        match key {
            crate::focus::Key::Escape => r is None && escape_done(c0, c1),
            crate::focus::Key::ArrowUp | crate::focus::Key::ArrowDown | crate::focus::Key::ArrowLeft
            | crate::focus::Key::ArrowRight => r is None && if arrow_blocked(c0, key) {
                c1 == c0
            } else {
                arrow_done(c0, c1, key)
            },
            crate::focus::Key::Space => play_pause_done(c0, c1, r),
            crate::focus::Key::Enter => r is None && match c0.state.focus.zone {
                crate::state::FocusZone::Menu => c1 == AppCore { state: c1.state, ..c0 }
                    && crate::ui::menu::menu_enter_done(c0.state, c1.state),
                crate::state::FocusZone::Transport => c1 == AppCore {
                    state: crate::ui::transport::transport_click(c0.state, c0.state.focus.transport_index),
                    ..c0
                },
                _ => activate_done(c0, c1),
            },
            crate::focus::Key::Other => r is None && c1 == c0,
        }
    }
}

/// Right in the content area, with the flyout closed, on an item it opens
/// on.
pub open spec fn opens_flyout(c: AppCore, key: crate::focus::Key) -> bool {
    &&& key == crate::focus::Key::ArrowRight
    &&& c.state.focus.zone == crate::state::FocusZone::Content
    &&& !c.context_menu.open
    &&& menu_anchor(c.state) is Some
}

/// The context menu after opening it on `anchor` (or unchanged without one).
pub open spec fn menu_opened(m0: ContextMenuState, m1: ContextMenuState, anchor: Option<MenuAnchor>) -> bool {
    match anchor {
        Some(MenuAnchor::Album(id)) => m1 == ContextMenuState { open: true, album_id: Some(id), track_index: None, selected: 0 },
        Some(MenuAnchor::Track(i)) => m1 == ContextMenuState { open: true, album_id: None, track_index: Some(i), selected: 0 },
        None => m1 == m0,
    }
}

impl AppCore {
    /// Escape: collapse the menu if it is expanded, else go back one view;
    /// leaving Search clears the query (see `escape_done`).
    pub fn handle_escape(&mut self)
        ensures
            escape_done(*old(self), *final(self)),
    {
        let mut focus = self.state.focus;
        let action = crate::focus::handle_key(&mut focus, crate::focus::Key::Escape, &self.state);
        self.state.focus = focus;
        if action == crate::focus::FocusAction::Escape {
            if self.state.focus.menu_expanded {
                self.state.focus.menu_expanded = false;
            } else {
                let leaving_search = self.state.current_view() == View::Search;
                self.state.pop_view();
                if leaving_search {
                    self.state.search_query = String::new();
                }
            }
        }
    }

    /// The number of content rows of the current view.
    pub fn num_content_rows(&self) -> (r: usize)
        ensures
            r as int == content_rows(self.state),
    {
        match self.state.current_view() {
            View::Home => 3,
            View::AlbumDetail => if self.state.current_album_tracks.len() > 0 {
                self.state.current_album_tracks.len()
            } else {
                1
            },
            View::PlaylistDetail => if self.state.current_playlist_tracks.len() > 0 {
                self.state.current_playlist_tracks.len()
            } else {
                1
            },
            View::NowPlaying => if self.state.play_queue.len() > 0 {
                self.state.play_queue.len()
            } else {
                1
            },
            View::Search => if self.state.search_results_tracks.len() < usize::MAX {
                self.state.search_results_tracks.len() + 1
            } else {
                self.state.search_results_tracks.len()
            },
            _ => 1,
        }
    }

    /// An arrow key moves the focus through the rows of the current view
    /// and the six transport controls; Right on a card or track row of the
    /// content area opens the Play Now / Shuffle / Add to Queue flyout on it
    /// instead.
    pub fn handle_arrow_key(&mut self, key: crate::focus::Key)
        requires
            old(self).state.focus.zone == crate::state::FocusZone::Content && key == crate::focus::Key::ArrowRight
                && !opens_flyout(*old(self), key) ==> old(self).state.focus.content_col < usize::MAX,
        ensures
            arrow_done(*old(self), *final(self), key),
    {
        if key == crate::focus::Key::ArrowRight && self.state.focus.zone == crate::state::FocusZone::Content
            && !self.context_menu.open && self.has_menu_anchor() {
            self.maybe_open_context_menu_for_focus();
            return;
        }
        let rows = self.num_content_rows();
        let mut focus = self.state.focus;
        crate::focus::handle_arrow(&mut focus, key, rows, 6);
        self.state.focus = focus;
    }

    /// Whether the focused item is a card or track row the flyout opens on.
    pub fn has_menu_anchor(&self) -> (r: bool)
        ensures
            r == menu_anchor(self.state) is Some,
    {
        let row = self.state.focus.content_row;
        let col = self.state.focus.content_col;
        match self.state.current_view() {
            View::AlbumList => row < self.state.albums.len(),
            View::Home => (row == 1 && col < self.state.recent_albums.len()) || (row == 2 && col
                < self.state.recent_played.len()),
            View::AlbumDetail => row < self.state.current_album_tracks.len(),
            View::PlaylistDetail => row < self.state.current_playlist_tracks.len(),
            _ => false,
        }
    }

    /// Open the context menu for the focused card or track row, if any.
    pub fn maybe_open_context_menu_for_focus(&mut self)
        ensures
            menu_opened(old(self).context_menu, final(self).context_menu, menu_anchor(old(self).state)),
            *final(self) == (AppCore { context_menu: final(self).context_menu, ..*old(self) }),
    {
        let view = self.state.current_view();
        let row = self.state.focus.content_row;
        let col = self.state.focus.content_col;
        match view {
            View::AlbumList => {
                if row < self.state.albums.len() {
                    let id = self.state.albums[row].id.clone();
                    self.context_menu.open_for_album(id);
                }
            },
            View::Home => {
                if row == 1 {
                    if col < self.state.recent_albums.len() {
                        let id = self.state.recent_albums[col].id.clone();
                        self.context_menu.open_for_album(id);
                    }
                } else if row == 2 {
                    if col < self.state.recent_played.len() {
                        let id = self.state.recent_played[col].id.clone();
                        self.context_menu.open_for_album(id);
                    }
                }
            },
            View::AlbumDetail => {
                if row < self.state.current_album_tracks.len() {
                    self.context_menu.open_for_track(row);
                }
            },
            View::PlaylistDetail => {
                if row < self.state.current_playlist_tracks.len() {
                    self.context_menu.open_for_track(row);
                }
            },
            _ => {},
        }
    }

    /// Space / Play-Pause, whatever the focus: with nothing playing the
    /// queue starts (or resumes) and Now Playing is shown; while playing the
    /// engine's pause flag is toggled (see `play_pause_done`).
    pub fn handle_space(&mut self) -> (r: Option<MpvCommand>)
        ensures
            play_pause_done(*old(self), *final(self), r),
    {
        self.handle_play_pause_global()
    }

    /// Enter in the content area (with the context menu closed) activates
    /// the focused item.
    pub fn activate_focused(&mut self)
        ensures
            activate_done(*old(self), *final(self)),
    {
        if self.context_menu.open || self.state.focus.zone != crate::state::FocusZone::Content {
            return;
        }
        let row = self.state.focus.content_row;
        let col = self.state.focus.content_col;
        match self.state.current_view() {
            View::Home => {
                if row == 0 {
                    if col == 0 {
                        self.state.push_view(View::ArtistList);
                    } else if col == 1 {
                        self.state.push_view(View::AlbumList);
                    } else if col == 2 {
                        self.state.push_view(View::PlaylistList);
                    }
                } else if row == 1 {
                    if col < self.state.recent_albums.len() {
                        self.state.current_album = Some(self.state.recent_albums[col].clone());
                        self.state.push_view(View::AlbumDetail);
                    }
                } else if row == 2 {
                    if col < self.state.recent_played.len() {
                        self.state.current_album = Some(self.state.recent_played[col].clone());
                        self.state.push_view(View::AlbumDetail);
                    }
                }
            },
            View::AlbumList => {
                if col < self.state.albums.len() {
                    self.state.current_album = Some(self.state.albums[col].clone());
                    self.state.push_view(View::AlbumDetail);
                }
            },
            View::AlbumDetail => {
                if row < self.state.current_album_tracks.len() {
                    crate::ui::album_detail::play_album_from(&mut self.state, row);
                }
            },
            View::ArtistList => {
                if col < self.state.artists.len() {
                    self.state.current_artist = Some(self.state.artists[col].clone());
                    self.state.push_view(View::ArtistDetail);
                }
            },
            View::PlaylistList => {
                if col < self.state.playlists.len() {
                    self.state.current_playlist = Some(self.state.playlists[col].clone());
                    self.state.push_view(View::PlaylistDetail);
                }
            },
            View::NowPlaying => {
                if row < self.state.play_queue.len() {
                    self.state.current_track_index = Some(row);
                    self.state.is_playing = true;
                }
            },
            View::PlaylistDetail => {
                if row < self.state.current_playlist_tracks.len() {
                    crate::ui::playlist_detail::play_playlist_from(&mut self.state, row);
                }
            },
            View::Search => {
                if 1 <= row && row - 1 < self.state.search_results_tracks.len() {
                    crate::ui::search::play_search_result(&mut self.state, row - 1);
                }
            },
            _ => {},
        }
    }
}

impl AppCore {
    /// One key press of the remote. While the flyout is open the keys are
    /// its own (see `context_menu_frame`); otherwise Escape goes back,
    /// arrows move the focus (Right on a card or track opens the flyout),
    /// Space is play/pause whatever the focus, and Enter activates. Returns
    /// the command for the audio engine, if any.
    pub fn dispatch_key(&mut self, key: crate::focus::Key) -> (r: Option<MpvCommand>)
        ensures
            key_done(*old(self), *final(self), key, r),
    {
        if self.context_menu.open {
            return None;
        }
        match key {
            crate::focus::Key::Escape => {
                self.handle_escape();
                None
            },
            crate::focus::Key::ArrowUp | crate::focus::Key::ArrowDown | crate::focus::Key::ArrowLeft
            | crate::focus::Key::ArrowRight => {
                let flyout = key == crate::focus::Key::ArrowRight && self.state.focus.zone
                    == crate::state::FocusZone::Content && self.has_menu_anchor();
                if !flyout && self.state.focus.zone == crate::state::FocusZone::Content && key
                    == crate::focus::Key::ArrowRight && self.state.focus.content_col == usize::MAX {
                    return None;
                }
                self.handle_arrow_key(key);
                None
            },
            crate::focus::Key::Space => self.handle_space(),
            crate::focus::Key::Enter => {
                match self.state.focus.zone {
                    crate::state::FocusZone::Menu => crate::ui::menu::menu_enter(&mut self.state),
                    crate::state::FocusZone::Transport => {
                        let idx = self.state.focus.transport_index;
                        crate::ui::transport::handle_transport_click(idx, &mut self.state);
                    },
                    _ => self.activate_focused(),
                }
                None
            },
            crate::focus::Key::Other => None,
        }
    }
}

// ── Fetching ───────────────────────────────────────────────────────────────

/// How many albums the Home rows ask for.
pub const HOME_ROW_ALBUMS: u32 = 20;
/// How many albums the album list asks for.
pub const ALBUM_LIST_PAGE: u32 = 100;
/// The debounce delay of the search, in milliseconds.
pub const SEARCH_DEBOUNCE_MS: u64 = 300;

/// What entering the current view fetches, when its data is not loaded:
/// Home its two album rows, the lists their items (albums newest first),
/// the detail views the item they show.
pub open spec fn entry_commands(s: AppState) -> Seq<SubsonicCommand> {
    match top_view_of(s) {
        View::Home => if s.recent_albums@.len() == 0 {
            seq![
                SubsonicCommand::GetRecentlyAdded { limit: 20 },
                SubsonicCommand::GetRecentlyPlayed { limit: 20 },
            ]
        } else {
            seq![]
        },
        View::AlbumList => if s.albums@.len() == 0 {
            seq![SubsonicCommand::GetAlbumList { sort: SortType::Newest, offset: 0, limit: 100 }]
        } else {
            seq![]
        },
        View::ArtistList => if s.artists@.len() == 0 { seq![SubsonicCommand::GetArtists] } else { seq![] },
        View::PlaylistList => if s.playlists@.len() == 0 { seq![SubsonicCommand::GetPlaylists] } else { seq![] },
        View::AlbumDetail => if s.current_album_tracks@.len() == 0 {
            match s.current_album {
                Some(a) => seq![SubsonicCommand::GetAlbumDetail { id: a.id }],
                None => seq![],
            }
        } else {
            seq![]
        },
        View::ArtistDetail => if s.current_artist_albums@.len() == 0 {
            match s.current_artist {
                Some(a) => seq![SubsonicCommand::GetArtistDetail { id: a.id }],
                None => seq![],
            }
        } else {
            seq![]
        },
        View::PlaylistDetail => if s.current_playlist_tracks@.len() == 0 {
            match s.current_playlist {
                Some(p) => seq![SubsonicCommand::GetPlaylistDetail { id: p.id }],
                None => seq![],
            }
        } else {
            seq![]
        },
        _ => seq![],
    }
}

/// Whether a search is due: the query takes at least two bytes, differs
/// from the last query sent, and the last search was sent at least
/// 300 ms ago (or never).
pub open spec fn search_due(query: Seq<char>, last_query: Seq<char>, elapsed_ms: Option<u64>) -> bool {
    &&& crate::text::at_least_two_bytes(query)
    &&& query != last_query
    &&& match elapsed_ms {
        Some(e) => e >= 300,
        None => true,
    }
}

/// Which fetched details and search results still answer what is shown;
/// the others are stale and discarded.
pub struct Freshness {
    pub album: bool,
    pub artist: bool,
    pub playlist: bool,
    pub search: bool,
}

/// A fetched album detail is fresh when it is the album shown or the album
/// a context-menu action waits for; an artist or playlist detail when it is
/// the one shown; search results when they answer the last query sent.
pub open spec fn freshness(c: AppCore, r: FetchResults) -> Freshness {
    Freshness {
        album: match r.album_detail {
            Some((a, _)) => pending_applies(c.pending_menu_album, r) || (c.state.current_album matches Some(x)
                && x.id@ == a.id@),
            None => false,
        },
        artist: match r.artist_detail {
            Some((a, _)) => c.state.current_artist matches Some(x) && x.id@ == a.id@,
            None => false,
        },
        playlist: match r.playlist_detail {
            Some((p, _)) => c.state.current_playlist matches Some(x) && x.id@ == p.id@,
            None => false,
        },
        search: match r.search_results {
            Some(sr) => sr.query@ == c.last_search_query@,
            None => false,
        },
    }
}

/// `s0` with the data of `r` in place: each fetched list replaces the one
/// shown; a fresh detail or fresh search results (see `freshness`) replace
/// the ones shown; stale ones are dropped; the rest is kept.
pub open spec fn absorbed(s0: AppState, r: FetchResults, f: Freshness) -> AppState {
    AppState {
        recent_albums: match r.recent_albums { Some(v) => v, None => s0.recent_albums },
        recent_played: match r.recent_played { Some(v) => v, None => s0.recent_played },
        albums: match r.album_list { Some(v) => v, None => s0.albums },
        artists: match r.artists { Some(v) => v, None => s0.artists },
        playlists: match r.playlists { Some(v) => v, None => s0.playlists },
        current_album: match r.album_detail { Some((a, _)) => if f.album { Some(a) } else { s0.current_album }, None => s0.current_album },
        current_album_tracks: match r.album_detail { Some((_, t)) => if f.album { t } else { s0.current_album_tracks }, None => s0.current_album_tracks },
        current_artist: match r.artist_detail { Some((a, _)) => if f.artist { Some(a) } else { s0.current_artist }, None => s0.current_artist },
        current_artist_albums: match r.artist_detail { Some((_, v)) => if f.artist { v } else { s0.current_artist_albums }, None => s0.current_artist_albums },
        current_playlist: match r.playlist_detail { Some((p, _)) => if f.playlist { Some(p) } else { s0.current_playlist }, None => s0.current_playlist },
        current_playlist_tracks: match r.playlist_detail { Some((_, t)) => if f.playlist { t } else { s0.current_playlist_tracks }, None => s0.current_playlist_tracks },
        search_results_artists: match r.search_results { Some(sr) => if f.search { sr.artists } else { s0.search_results_artists }, None => s0.search_results_artists },
        search_results_albums: match r.search_results { Some(sr) => if f.search { sr.albums } else { s0.search_results_albums }, None => s0.search_results_albums },
        search_results_tracks: match r.search_results { Some(sr) => if f.search { sr.tracks } else { s0.search_results_tracks }, None => s0.search_results_tracks },
        ..s0
    }
}

/// Nothing is left in `r`: every result has been taken.
pub open spec fn all_taken(r: FetchResults) -> bool {
    &&& r.recent_albums is None
    &&& r.recent_played is None
    &&& r.artists is None
    &&& r.artist_detail is None
    &&& r.album_list is None
    &&& r.album_detail is None
    &&& r.playlists is None
    &&& r.playlist_detail is None
    &&& r.search_results is None
    &&& r.error is None
}

/// `s1` is `s0` with the fetch error `e`, if any, shown as a toast.
pub open spec fn error_shown(s0: AppState, s1: AppState, e: Option<String>) -> bool {
    match e {
        Some(msg) => toast_added(s0, s1, msg@, 3000),
        None => s1 == s0,
    }
}

/// The pending context-menu action applies to the fetched album detail.
pub open spec fn pending_applies(pending: Option<(String, ContextMenuAction)>, r: FetchResults) -> bool {
    match (pending, r.album_detail) {
        (Some((id, _)), Some((a, _))) => id@ == a.id@,
        _ => false,
    }
}

impl AppCore {
    /// The commands to send on entering the current view.
    pub fn view_entry_commands(&self) -> (r: Vec<SubsonicCommand>)
        ensures
            r@ == entry_commands(self.state),
    {
        let mut r: Vec<SubsonicCommand> = Vec::new();
        match self.state.current_view() {
            View::Home => {
                if self.state.recent_albums.len() == 0 {
                    r.push(SubsonicCommand::GetRecentlyAdded { limit: HOME_ROW_ALBUMS });
                    r.push(SubsonicCommand::GetRecentlyPlayed { limit: HOME_ROW_ALBUMS });
                }
            },
            View::AlbumList => {
                if self.state.albums.len() == 0 {
                    r.push(SubsonicCommand::GetAlbumList { sort: SortType::Newest, offset: 0, limit: ALBUM_LIST_PAGE });
                }
            },
            View::ArtistList => {
                if self.state.artists.len() == 0 {
                    r.push(SubsonicCommand::GetArtists);
                }
            },
            View::PlaylistList => {
                if self.state.playlists.len() == 0 {
                    r.push(SubsonicCommand::GetPlaylists);
                }
            },
            View::AlbumDetail => {
                if self.state.current_album_tracks.len() == 0 {
                    if let Some(album) = &self.state.current_album {
                        r.push(SubsonicCommand::GetAlbumDetail { id: album.id.clone() });
                    }
                }
            },
            View::ArtistDetail => {
                if self.state.current_artist_albums.len() == 0 {
                    if let Some(artist) = &self.state.current_artist {
                        r.push(SubsonicCommand::GetArtistDetail { id: artist.id.clone() });
                    }
                }
            },
            View::PlaylistDetail => {
                if self.state.current_playlist_tracks.len() == 0 {
                    if let Some(playlist) = &self.state.current_playlist {
                        r.push(SubsonicCommand::GetPlaylistDetail { id: playlist.id.clone() });
                    }
                }
            },
            _ => {},
        }
        proof {
            assert(r@ =~= entry_commands(self.state));
        }
        r
    }

    /// The debounced search: when a search is due (see `search_due`,
    /// `elapsed_ms` being the time since the last search was sent), the
    /// query is remembered, the old results are cleared and the search
    /// command (20 artists, 20 albums, 50 songs) is returned.
    pub fn search_step(&mut self, elapsed_ms: Option<u64>) -> (r: Option<SubsonicCommand>)
        ensures
            search_due(old(self).state.search_query@, old(self).last_search_query@, elapsed_ms) ==> {
                &&& r == Some(SubsonicCommand::Search {
                    query: old(self).state.search_query,
                    artist_count: 20,
                    album_count: 20,
                    song_count: 50,
                })
                &&& final(self).last_search_query == old(self).state.search_query
                &&& final(self).state.search_results_artists@.len() == 0
                &&& final(self).state.search_results_albums@.len() == 0
                &&& final(self).state.search_results_tracks@.len() == 0
                &&& *final(self) == (AppCore {
                    last_search_query: final(self).last_search_query,
                    state: AppState {
                        search_results_artists: final(self).state.search_results_artists,
                        search_results_albums: final(self).state.search_results_albums,
                        search_results_tracks: final(self).state.search_results_tracks,
                        ..old(self).state
                    },
                    ..*old(self)
                })
            },
            !search_due(old(self).state.search_query@, old(self).last_search_query@, elapsed_ms) ==> r is None
                && *final(self) == *old(self),
    {
        let long_enough = crate::text::has_two_bytes(self.state.search_query.as_str());
        let changed = !(self.state.search_query == self.last_search_query);
        let waited = match elapsed_ms {
            Some(e) => e >= SEARCH_DEBOUNCE_MS,
            None => true,
        };
        if long_enough && changed && waited {
            let query = self.state.search_query.clone();
            self.last_search_query = query.clone();
            self.state.search_results_artists.clear();
            self.state.search_results_albums.clear();
            self.state.search_results_tracks.clear();
            Some(SubsonicCommand::Search { query, artist_count: 20, album_count: 20, song_count: 50 })
        } else {
            None
        }
    }

    /// Takes everything the client thread fetched (leaving the shared
    /// results empty, so that each result and each error is used once) and
    /// puts it into the state, dropping stale details and search results
    /// (see `freshness`). When the fetched album detail is the album a
    /// context-menu action waits for, the action is applied to its tracks.
    /// A fetch error shows as a toast.
    pub fn apply_fetch_results(&mut self, results: &mut FetchResults)
        ensures
            all_taken(*final(results)),
            final(self).state.recent_albums == (match old(results).recent_albums {
                Some(v) => v,
                None => old(self).state.recent_albums,
            }),
            final(self).state.recent_played == (match old(results).recent_played {
                Some(v) => v,
                None => old(self).state.recent_played,
            }),
            final(self).state.albums == (match old(results).album_list {
                Some(v) => v,
                None => old(self).state.albums,
            }),
            final(self).state.artists == (match old(results).artists {
                Some(v) => v,
                None => old(self).state.artists,
            }),
            final(self).state.playlists == (match old(results).playlists {
                Some(v) => v,
                None => old(self).state.playlists,
            }),
            pending_applies(old(self).pending_menu_album, *old(results)) ==> {
                &&& final(self).pending_menu_album is None
                &&& exists|s2: AppState|
                    #[trigger] error_shown(s2, final(self).state, old(results).error) && tracks_action_done(
                        absorbed(old(self).state, *old(results), freshness(*old(self), *old(results))),
                        s2,
                        old(self).pending_menu_album.unwrap().1,
                        old(results).album_detail.unwrap().1@,
                    )
            },
            !pending_applies(old(self).pending_menu_album, *old(results)) ==> {
                &&& final(self).pending_menu_album == old(self).pending_menu_album
                &&& error_shown(
                    absorbed(old(self).state, *old(results), freshness(*old(self), *old(results))),
                    final(self).state,
                    old(results).error,
                )
            },
            *final(self) == (AppCore {
                state: final(self).state,
                pending_menu_album: final(self).pending_menu_album,
                ..*old(self)
            }),
    {
        let ghost c0 = *self;
        let mut taken = FetchResults::default();
        std::mem::swap(&mut taken, results);
        let ghost r0 = taken;
        let pending = match (&self.pending_menu_album, &taken.album_detail) {
            (Some((id, _)), Some((album, _))) => *id == album.id,
            _ => false,
        };
        let fresh = self.fresh_parts(&taken, pending);
        assert(fresh == freshness(c0, r0));
        let error = absorb_fetched(&mut self.state, taken, fresh);
        let ghost s1 = self.state;
        assert(s1 == absorbed(c0.state, r0, freshness(c0, r0)));
        if pending {
            let (_, action) = self.pending_menu_album.take().unwrap();
            let tracks = clone_tracks(&self.state.current_album_tracks);
            self.apply_action_to_tracks(action, tracks);
        }
        let ghost s2 = self.state;
        if let Some(e) = error {
            push_toast(&mut self.state, e, 3000);
            assert(self.state.toasts@.drop_last() =~= s2.toasts@);
        }
        assert(error_shown(s2, self.state, r0.error));
    }

    /// Which parts of `r` are fresh; `pending` tells whether the album
    /// detail is the one a context-menu action waits for.
    fn fresh_parts(&self, r: &FetchResults, pending: bool) -> (f: Freshness)
        requires
            pending == pending_applies(self.pending_menu_album, *r),
        ensures
            f == freshness(*self, *r),
    {
        let album = match &r.album_detail {
            Some((a, _)) => pending || match &self.state.current_album {
                Some(x) => x.id == a.id,
                None => false,
            },
            None => false,
        };
        let artist = match &r.artist_detail {
            Some((a, _)) => match &self.state.current_artist {
                Some(x) => x.id == a.id,
                None => false,
            },
            None => false,
        };
        let playlist = match &r.playlist_detail {
            Some((p, _)) => match &self.state.current_playlist {
                Some(x) => x.id == p.id,
                None => false,
            },
            None => false,
        };
        let search = match &r.search_results {
            Some(sr) => sr.query == self.last_search_query,
            None => false,
        };
        Freshness { album, artist, playlist, search }
    }
}

/// Overwrites `dst` with the value of `v`, if there is one.
fn replace_if_some<T>(dst: &mut T, v: Option<T>)
    ensures
        *final(dst) == match v {
            Some(x) => x,
            None => *old(dst),
        },
{
    if let Some(x) = v {
        *dst = x;
    }
}

/// Overwrites `dst` with `Some` of the value of `v`, if there is one.
fn set_if_some<T>(dst: &mut Option<T>, v: Option<T>)
    ensures
        *final(dst) == match v {
            Some(x) => Some(x),
            None => *old(dst),
        },
{
    if let Some(x) = v {
        *dst = Some(x);
    }
}

/// Splits an optional pair into two options.
fn split_pair<A, B>(p: Option<(A, B)>) -> (r: (Option<A>, Option<B>))
    ensures
        r.0 == match p {
            Some((a, _)) => Some(a),
            None => None::<A>,
        },
        r.1 == match p {
            Some((_, b)) => Some(b),
            None => None::<B>,
        },
{
    match p {
        Some((a, b)) => (Some(a), Some(b)),
        None => (None, None),
    }
}

/// Overwrites `dst` with the value of `v`, if there is one and `keep`
/// holds.
fn replace_if<T>(dst: &mut T, v: Option<T>, keep: bool)
    ensures
        *final(dst) == match v {
            Some(x) => if keep { x } else { *old(dst) },
            None => *old(dst),
        },
{
    if keep {
        replace_if_some(dst, v);
    }
}

/// Overwrites `dst` with `Some` of the value of `v`, if there is one and
/// `keep` holds.
fn set_if<T>(dst: &mut Option<T>, v: Option<T>, keep: bool)
    ensures
        *final(dst) == match v {
            Some(x) => if keep { Some(x) } else { *old(dst) },
            None => *old(dst),
        },
{
    if keep {
        set_if_some(dst, v);
    }
}

/// Moves the fetched data into the state, keeping only the fresh details
/// and search results; returns the fetch error.
fn absorb_fetched(state: &mut AppState, results: FetchResults, f: Freshness) -> (r: Option<String>)
    ensures
        *final(state) == absorbed(*old(state), results, f),
        r == results.error,
{
    let FetchResults {
        recent_albums,
        recent_played,
        artists,
        artist_detail,
        album_list,
        album_detail,
        playlists,
        playlist_detail,
        search_results,
        error,
    } = results;
    replace_if_some(&mut state.recent_albums, recent_albums);
    replace_if_some(&mut state.recent_played, recent_played);
    replace_if_some(&mut state.albums, album_list);
    replace_if_some(&mut state.artists, artists);
    replace_if_some(&mut state.playlists, playlists);
    let (album, album_tracks) = split_pair(album_detail);
    set_if(&mut state.current_album, album, f.album);
    replace_if(&mut state.current_album_tracks, album_tracks, f.album);
    let (artist, artist_albums) = split_pair(artist_detail);
    set_if(&mut state.current_artist, artist, f.artist);
    replace_if(&mut state.current_artist_albums, artist_albums, f.artist);
    let (playlist, playlist_tracks) = split_pair(playlist_detail);
    set_if(&mut state.current_playlist, playlist, f.playlist);
    replace_if(&mut state.current_playlist_tracks, playlist_tracks, f.playlist);
    let (found_artists, found_albums, found_tracks) = match search_results {
        Some(sr) => (Some(sr.artists), Some(sr.albums), Some(sr.tracks)),
        None => (None, None, None),
    };
    replace_if(&mut state.search_results_artists, found_artists, f.search);
    replace_if(&mut state.search_results_albums, found_albums, f.search);
    replace_if(&mut state.search_results_tracks, found_tracks, f.search);
    error
}

// ── Playback ───────────────────────────────────────────────────────────────

/// `s1` is `s0` with the playing flag, position and duration taken from
/// the engine, and a toast when the engine crashed during playback.
pub open spec fn engine_absorbed(s0: AppState, s1: AppState, mpv: MpvState) -> bool {
    let s_a = AppState {
        is_playing: mpv.is_playing && !mpv.is_paused,
        current_time_ms: mpv.current_time_ms,
        total_duration_ms: mpv.total_duration_ms,
        toasts: s1.toasts,
        ..s0
    };
    &&& s1 == s_a
    &&& if mpv.crashed && s0.is_playing {
        toast_added(AppState { toasts: s0.toasts, ..s_a }, s1, "mpv subprocess crashed \u{2014} playback stopped"@, 4000)
    } else {
        s1.toasts == s0.toasts
    }
}

/// The track to hand to the engine because playback was requested but the
/// engine has not started: the UI was playing, the engine is not, nothing
/// has been loaded yet (position and duration 0) and the current track is
/// in the queue.
pub open spec fn start_target(s: AppState, was_playing: bool, mpv: MpvState) -> Option<usize> {
    if was_playing && !mpv.is_playing && s.current_time_ms == 0 && s.total_duration_ms == 0 {
        match s.current_track_index {
            Some(i) => if i < s.play_queue@.len() { Some(i) } else { None },
            None => None,
        }
    } else {
        None
    }
}

/// A track ended: the UI was playing, the engine stopped without crashing
/// after having loaded something, and auto-advance is on.
pub open spec fn track_ended(s: AppState, was_playing: bool, mpv: MpvState) -> bool {
    &&& !mpv.is_playing
    &&& was_playing
    &&& !mpv.crashed
    &&& s.total_duration_ms > 0
    &&& s.config.playback.auto_advance
}

/// The state after a track ended: the next track of the queue becomes
/// current (position reset), or, at the end of the queue, playback stops
/// and no track is current.
pub open spec fn advanced(s: AppState) -> AppState {
    match s.current_track_index {
        Some(i) => if i + 1 < s.play_queue@.len() {
            AppState {
                current_track_index: Some((i + 1) as usize),
                current_time_ms: 0,
                total_duration_ms: 0,
                ..s
            }
        } else {
            AppState {
                is_playing: false,
                current_track_index: None,
                current_time_ms: 0,
                total_duration_ms: 0,
                ..s
            }
        },
        None => AppState { is_playing: false, ..s },
    }
}

/// The engine command for a pending transport action: Play resumes, Pause
/// pauses, Stop stops; Next and Previous stop the current file so that the
/// new current track is started on the next frame.
pub open spec fn transport_command(a: TransportAction) -> MpvCommand {
    match a {
        TransportAction::Play => MpvCommand::Resume,
        TransportAction::Pause => MpvCommand::Pause,
        TransportAction::Stop => MpvCommand::Stop,
        TransportAction::Next | TransportAction::Previous => MpvCommand::Stop,
    }
}

/// The current track, if any, is one of the queue.
pub open spec fn index_in_queue(s: AppState) -> bool {
    s.current_track_index matches Some(i) ==> i < s.play_queue@.len()
}

/// `cmd` plays `t`: a Play command whose stream URL's query ends with the
/// track's form-urlencoded id and the bitrate limit `max_bitrate`, as the
/// URL builder makes it for that id.
pub open spec fn plays_track(cmd: MpvCommand, t: Track, max_bitrate: u32) -> bool {
    &&& cmd is Play
    &&& has_suffix(
        url_query(cmd->Play_url@),
        "&"@ + media_query(form_encoded(t.id@), "maxBitRate"@, bitrate_param(max_bitrate)),
    )
}

/// The track started this frame: the one `start_target` names, when a
/// client can build its URL.
pub open spec fn start_play(s: AppState, was_playing: bool, mpv: MpvState, has_client: bool) -> Option<usize> {
    if has_client { start_target(s, was_playing, mpv) } else { None }
}

/// The next track started this frame because the current one ended, when
/// a client can build its URL.
pub open spec fn next_play(s: AppState, was_playing: bool, mpv: MpvState, has_client: bool) -> Option<usize> {
    if has_client && track_ended(s, was_playing, mpv) {
        match s.current_track_index {
            Some(i) => if i + 1 < s.play_queue@.len() { Some((i + 1) as usize) } else { None },
            None => None,
        }
    } else {
        None
    }
}

/// The state after the end-of-track step: the queue advanced (see
/// `advanced`), and playing again when the next track is handed to the
/// engine.
pub open spec fn after_advance(s: AppState, was_playing: bool, mpv: MpvState, has_client: bool) -> AppState {
    if track_ended(s, was_playing, mpv) {
        if next_play(s, was_playing, mpv, has_client) is Some {
            AppState { is_playing: true, ..advanced(s) }
        } else {
            advanced(s)
        }
    } else {
        s
    }
}

/// `s1` is `s0` after following playback: Now Playing is pushed when
/// playback has just started with a current track and another view is on
/// top.
pub open spec fn followed(s0: AppState, s1: AppState, was_playing: bool) -> bool {
    if s0.is_playing && !was_playing && top_view_of(s0) != View::NowPlaying && s0.current_track_index is Some {
        pushed(s0, s1, View::NowPlaying)
    } else {
        s1 == s0
    }
}

/// One frame of playback after the engine's state was taken over into
/// `s1` (`was_playing` being the UI's flag before): the state `s` and the
/// commands `cmds` are the Play of the track to start (if any), the Play of
/// the next track at the end of a track (if any, never both), and the
/// command of the pending transport action (if any), in that order; the
/// queue is advanced as `after_advance` says, Now Playing followed, and no
/// transport action is left pending.
pub open spec fn playback_step(
    s1: AppState,
    was_playing: bool,
    mpv: MpvState,
    has_client: bool,
    s: AppState,
    cmds: Seq<MpvCommand>,
) -> bool {
    let start = start_play(s1, was_playing, mpv, has_client);
    let next = next_play(s1, was_playing, mpv, has_client);
    let s3 = after_advance(s1, was_playing, mpv, has_client);
    let n_start: int = if start is Some { 1 } else { 0 };
    let n_next: int = if next is Some { 1 } else { 0 };
    let n_transport: int = if s1.pending_transport_action is Some { 1 } else { 0 };
    &&& !(start is Some && next is Some)
    &&& cmds.len() == n_start + n_next + n_transport
    &&& (start matches Some(i) ==> plays_track(cmds[0], s1.play_queue@[i as int], s1.config.audio.max_bitrate))
    &&& (next matches Some(j) ==> plays_track(cmds[n_start], s1.play_queue@[j as int], s1.config.audio.max_bitrate))
    &&& (s1.pending_transport_action matches Some(a) ==> cmds[n_start + n_next] == transport_command(a))
    &&& exists|s4: AppState| #[trigger] followed(s3, s4, was_playing) && s == AppState { pending_transport_action: None, ..s4 }
}

impl AppCore {
    /// Takes over the engine's playing flag, position and duration; a crash
    /// during playback shows a toast. Returns whether the UI was playing
    /// before.
    pub fn absorb_engine_state(&mut self, mpv: &MpvState) -> (was_playing: bool)
        ensures
            was_playing == old(self).state.is_playing,
            engine_absorbed(old(self).state, final(self).state, *mpv),
            *final(self) == (AppCore { state: final(self).state, ..*old(self) }),
    {
        let was_playing = self.state.is_playing;
        self.state.is_playing = mpv.is_playing && !mpv.is_paused;
        self.state.current_time_ms = mpv.current_time_ms;
        self.state.total_duration_ms = mpv.total_duration_ms;
        if mpv.crashed && was_playing {
            push_toast_text(&mut self.state, "mpv subprocess crashed \u{2014} playback stopped", 4000);
        }
        was_playing
    }

    /// The queue position of the track the engine must be asked to play.
    pub fn track_to_start(&self, was_playing: bool, mpv: &MpvState) -> (r: Option<usize>)
        ensures
            r == start_target(self.state, was_playing, *mpv),
    {
        if was_playing && !mpv.is_playing && self.state.current_time_ms == 0
            && self.state.total_duration_ms == 0 {
            if let Some(idx) = self.state.current_track_index {
                if idx < self.state.play_queue.len() {
                    return Some(idx);
                }
            }
        }
        None
    }

    /// Hands the stream URL of the track to start to the engine; without a
    /// URL playback stops with a toast.
    pub fn on_start_url(&mut self, url: Option<String>) -> (r: Option<MpvCommand>)
        ensures
            match url {
                Some(u) => r == Some(MpvCommand::Play { url: u }) && *final(self) == *old(self),
                None => r is None && *final(self) == (AppCore { state: final(self).state, ..*old(self) })
                    && toast_added(
                    AppState { is_playing: false, ..old(self).state },
                    final(self).state,
                    "Could not build stream URL"@,
                    3000,
                ),
            },
    {
        match url {
            Some(u) => Some(MpvCommand::Play { url: u }),
            None => {
                self.state.is_playing = false;
                push_toast_text(&mut self.state, "Could not build stream URL", 3000);
                None
            },
        }
    }

    /// Advances the queue when a track ended (see `track_ended`). Returns
    /// the position of the new current track, which must be started.
    pub fn advance_on_track_end(&mut self, was_playing: bool, mpv: &MpvState) -> (r: Option<usize>)
        ensures
            track_ended(old(self).state, was_playing, *mpv) ==> {
                &&& final(self).state == advanced(old(self).state)
                &&& r == match old(self).state.current_track_index {
                    Some(i) => if i + 1 < old(self).state.play_queue@.len() { Some((i + 1) as usize) } else { None },
                    None => None,
                }
            },
            !track_ended(old(self).state, was_playing, *mpv) ==> r is None && final(self).state == old(self).state,
            *final(self) == (AppCore { state: final(self).state, ..*old(self) }),
    {
        if !mpv.is_playing && was_playing && !mpv.crashed && self.state.total_duration_ms > 0
            && self.state.config.playback.auto_advance {
            match self.state.current_track_index {
                Some(idx) => {
                    if idx < self.state.play_queue.len() && self.state.play_queue.len() - idx > 1 {
                        let next = idx + 1;
                        self.state.current_track_index = Some(next);
                        self.state.current_time_ms = 0;
                        self.state.total_duration_ms = 0;
                        return Some(next);
                    } else {
                        self.state.is_playing = false;
                        self.state.current_track_index = None;
                        self.state.current_time_ms = 0;
                        self.state.total_duration_ms = 0;
                    }
                },
                None => {
                    self.state.is_playing = false;
                },
            }
        }
        None
    }

    /// Hands the stream URL of the next track to the engine and resumes
    /// playing; without a URL playback stops with a toast.
    pub fn on_next_url(&mut self, url: Option<String>) -> (r: Option<MpvCommand>)
        ensures
            match url {
                Some(u) => r == Some(MpvCommand::Play { url: u }) && *final(self) == (AppCore {
                    state: AppState { is_playing: true, ..old(self).state },
                    ..*old(self)
                }),
                None => r is None && *final(self) == (AppCore { state: final(self).state, ..*old(self) })
                    && toast_added(
                    AppState { is_playing: false, ..old(self).state },
                    final(self).state,
                    "Could not build stream URL for next track"@,
                    3000,
                ),
            },
    {
        match url {
            Some(u) => {
                self.state.is_playing = true;
                Some(MpvCommand::Play { url: u })
            },
            None => {
                self.state.is_playing = false;
                push_toast_text(&mut self.state, "Could not build stream URL for next track", 3000);
                None
            },
        }
    }

    /// When playback has just started with a current track, the Now
    /// Playing view is shown (pushed unless already on top).
    pub fn follow_playback(&mut self, was_playing: bool)
        ensures
            old(self).state.is_playing && !was_playing && top_view_of(old(self).state) != View::NowPlaying
                && old(self).state.current_track_index is Some ==> *final(self) == (AppCore {
                state: final(self).state,
                ..*old(self)
            }) && pushed(old(self).state, final(self).state, View::NowPlaying),
            !(old(self).state.is_playing && !was_playing && top_view_of(old(self).state) != View::NowPlaying
                && old(self).state.current_track_index is Some) ==> *final(self) == *old(self),
    {
        if self.state.is_playing && !was_playing && self.state.current_view() != View::NowPlaying
            && self.state.current_track_index.is_some() {
            self.state.push_view(View::NowPlaying);
        }
    }

    /// Consumes the pending transport action and returns its engine command.
    pub fn take_transport_command(&mut self) -> (r: Option<MpvCommand>)
        ensures
            r == match old(self).state.pending_transport_action {
                Some(a) => Some(transport_command(a)),
                None => None,
            },
            *final(self) == (AppCore {
                state: AppState { pending_transport_action: None, ..old(self).state },
                ..*old(self)
            }),
    {
        match self.state.pending_transport_action.take() {
            Some(action) => Some(match action {
                TransportAction::Play => MpvCommand::Resume,
                TransportAction::Pause => MpvCommand::Pause,
                TransportAction::Stop => MpvCommand::Stop,
                TransportAction::Next | TransportAction::Previous => MpvCommand::Stop,
            }),
            None => None,
        }
    }

    /// One frame of playback bookkeeping against the engine's state `mpv`:
    /// take over the engine's state, start the requested track, advance the
    /// queue when a track ended, follow playback to the Now Playing view,
    /// and forward the pending transport action. Stream URLs are built with
    /// `client`; without a client no track is started. Returns the commands
    /// for the engine, in that order (see `playback_step`).
    pub fn sync_playback(&mut self, mpv: &MpvState, client: Option<&opensubsonic::Client>) -> (r: Vec<MpvCommand>)
        ensures
            exists|s1: AppState|
                #[trigger] engine_absorbed(old(self).state, s1, *mpv) && playback_step(
                    s1,
                    old(self).state.is_playing,
                    *mpv,
                    client is Some,
                    final(self).state,
                    r@,
                ),
            final(self).state.play_queue == old(self).state.play_queue,
            index_in_queue(old(self).state) ==> index_in_queue(final(self).state),
            final(self).wizard == old(self).wizard,
            final(self).context_menu == old(self).context_menu,
            final(self).pending_menu_album == old(self).pending_menu_album,
            final(self).last_search_query == old(self).last_search_query,
    {
        let mut cmds: Vec<MpvCommand> = Vec::new();
        let ghost c0 = *self;
        let was_playing = self.absorb_engine_state(mpv);
        let ghost s1 = self.state;
        let has_client = client.is_some();
        if let Some(idx) = self.track_to_start(was_playing, mpv) {
            if let Some(c) = client {
                let url = crate::subsonic::urls::build_stream_url(
                    c,
                    self.state.play_queue[idx].id.as_str(),
                    self.state.config.audio.max_bitrate,
                );
                let url = match url {
                    Ok(u) => Some(u),
                    Err(_) => None,
                };
                if let Some(cmd) = self.on_start_url(url) {
                    cmds.push(cmd);
                }
            }
        }
        assert(self.state == s1);
        let next = self.advance_on_track_end(was_playing, mpv);
        let ghost s2 = self.state;
        if let Some(n) = next {
            if let Some(c) = client {
                let url = crate::subsonic::urls::build_stream_url(
                    c,
                    self.state.play_queue[n].id.as_str(),
                    self.state.config.audio.max_bitrate,
                );
                let url = match url {
                    Ok(u) => Some(u),
                    Err(_) => None,
                };
                if let Some(cmd) = self.on_next_url(url) {
                    cmds.push(cmd);
                }
            }
        }
        let ghost s3 = self.state;
        assert(s3 == after_advance(s1, was_playing, *mpv, has_client));
        self.follow_playback(was_playing);
        let ghost s4 = self.state;
        assert(followed(s3, s4, was_playing));
        if let Some(cmd) = self.take_transport_command() {
            cmds.push(cmd);
        }
        proof {
            assert(engine_absorbed(c0.state, s1, *mpv));
            assert(s1.pending_transport_action == c0.state.pending_transport_action);
            if start_play(s1, was_playing, *mpv, has_client) is Some {
                assert(!track_ended(s1, was_playing, *mpv));
            }
            assert(playback_step(s1, was_playing, *mpv, has_client, self.state, cmds@));
        }
        cmds
    }

    /// Global Space / Play-Pause: while playing, toggle the engine's pause
    /// flag; with an empty queue, say so; with a current track in the
    /// queue, resume it and show Now Playing; otherwise start the queue
    /// from its head. Returns the engine command to send.
    pub fn handle_play_pause_global(&mut self) -> (r: Option<MpvCommand>)
        ensures
            play_pause_done(*old(self), *final(self), r),
    {
        if self.state.is_playing {
            return Some(MpvCommand::TogglePause);
        }
        if self.state.play_queue.len() == 0 {
            push_toast_text(&mut self.state, "Queue is empty \u{2014} nothing to play", 2500);
            return None;
        }
        if let Some(idx) = self.state.current_track_index {
            if idx < self.state.play_queue.len() {
                self.state.is_playing = true;
                if self.state.current_view() != View::NowPlaying {
                    self.state.push_view(View::NowPlaying);
                }
                return Some(MpvCommand::Resume);
            }
        }
        self.state.current_track_index = Some(0);
        self.state.is_playing = true;
        self.state.current_time_ms = 0;
        self.state.total_duration_ms = 0;
        self.state.push_view(View::NowPlaying);
        None
    }
}

/// The outcome of the global Space / Play-Pause key: while playing, the
/// engine's pause flag is toggled; with an empty queue a toast says so;
/// with a current track in the queue it resumes and Now Playing is shown;
/// otherwise the queue starts from its head.
pub open spec fn play_pause_done(c0: AppCore, c1: AppCore, r: Option<MpvCommand>) -> bool {
    &&& c0.state.is_playing ==> r == Some(MpvCommand::TogglePause) && c1 == c0
    &&& !c0.state.is_playing && c0.state.play_queue@.len() == 0 ==> {
        &&& r is None
        &&& c1 == AppCore { state: c1.state, ..c0 }
        &&& toast_added(c0.state, c1.state, "Queue is empty \u{2014} nothing to play"@, 2500)
    }
    &&& !c0.state.is_playing && c0.state.play_queue@.len() > 0 && index_in_queue(c0.state)
        && c0.state.current_track_index is Some ==> {
        let s1 = AppState { is_playing: true, ..c0.state };
        &&& r == Some(MpvCommand::Resume)
        &&& c1 == AppCore { state: c1.state, ..c0 }
        &&& if top_view_of(c0.state) != View::NowPlaying {
            pushed(s1, c1.state, View::NowPlaying)
        } else {
            c1.state == s1
        }
    }
    &&& !c0.state.is_playing && c0.state.play_queue@.len() > 0 && !(index_in_queue(c0.state)
        && c0.state.current_track_index is Some) ==> {
        &&& r is None
        &&& c1 == AppCore { state: c1.state, ..c0 }
        &&& queue_started(c0.state, c1.state)
        &&& c1.state.play_queue == c0.state.play_queue
    }
}

// ── Cover art ──────────────────────────────────────────────────────────────

/// `(album id, cover id)` of each album.
pub open spec fn album_covers(albums: Seq<crate::subsonic::models::Album>) -> Seq<(String, Option<String>)> {
    albums.map_values(|a: crate::subsonic::models::Album| (a.id, a.cover_art_id))
}

/// The covers shown by the current view, as `(album id, cover id)`: Home's
/// two album rows, the album list, the album shown, the artist's albums, or
/// the album of the current track in Now Playing.
pub open spec fn visible_covers(s: AppState) -> Seq<(String, Option<String>)> {
    match top_view_of(s) {
        View::Home => album_covers(s.recent_albums@) + album_covers(s.recent_played@),
        View::AlbumList => album_covers(s.albums@),
        View::AlbumDetail => match s.current_album {
            Some(a) => seq![(a.id, a.cover_art_id)],
            None => seq![],
        },
        View::ArtistDetail => album_covers(s.current_artist_albums@),
        View::NowPlaying => match s.current_track_index {
            Some(i) => if i < s.play_queue@.len() {
                seq![(s.play_queue@[i as int].album_id, s.play_queue@[i as int].cover_art_id)]
            } else {
                seq![]
            },
            None => seq![],
        },
        _ => seq![],
    }
}

fn push_album_covers(pairs: &mut Vec<(String, Option<String>)>, albums: &Vec<crate::subsonic::models::Album>)
    ensures
        final(pairs)@ == old(pairs)@ + album_covers(albums@),
{
    let ghost start = pairs@;
    let mut i: usize = 0;
    while i < albums.len()
        invariant
            i <= albums.len(),
            pairs@ == start + album_covers(albums@.subrange(0, i as int)),
        decreases albums.len() - i,
    {
        let album = &albums[i];
        pairs.push((album.id.clone(), crate::subsonic::models::clone_opt_string(&album.cover_art_id)));
        proof {
            assert(album_covers(albums@.subrange(0, i + 1)) =~= album_covers(albums@.subrange(0, i as int)).push(
                (albums@[i as int].id, albums@[i as int].cover_art_id),
            ));
        }
        i = i + 1;
    }
    assert(albums@.subrange(0, albums@.len() as int) =~= albums@);
}

impl AppCore {
    /// Collect `(album_id, cover_art_id)` pairs for the covers visible in
    /// the current view.
    pub fn collect_visible_cover_ids(&self) -> (r: Vec<(String, Option<String>)>)
        ensures
            r@ == visible_covers(self.state),
    {
        let mut pairs: Vec<(String, Option<String>)> = Vec::new();
        match self.state.current_view() {
            View::Home => {
                push_album_covers(&mut pairs, &self.state.recent_albums);
                push_album_covers(&mut pairs, &self.state.recent_played);
            },
            View::AlbumList => {
                push_album_covers(&mut pairs, &self.state.albums);
            },
            View::AlbumDetail => {
                if let Some(album) = &self.state.current_album {
                    pairs.push((album.id.clone(), crate::subsonic::models::clone_opt_string(&album.cover_art_id)));
                }
            },
            View::ArtistDetail => {
                push_album_covers(&mut pairs, &self.state.current_artist_albums);
            },
            View::NowPlaying => {
                if let Some(idx) = self.state.current_track_index {
                    if idx < self.state.play_queue.len() {
                        let track = &self.state.play_queue[idx];
                        pairs.push((track.album_id.clone(), crate::subsonic::models::clone_opt_string(&track.cover_art_id)));
                    }
                }
            },
            _ => {},
        }
        proof {
            assert(pairs@ =~= visible_covers(self.state));
        }
        pairs
    }
}

/// `id` is one of `ids` (compared by text).
pub open spec fn is_cached(ids: Seq<String>, id: String) -> bool {
    exists|k: int| 0 <= k < ids.len() && #[trigger] ids[k]@ == id@
}

/// The cover ids to download, in order: the cover of each visible
/// `(album id, cover id)` pair whose cover is not cached yet, each cover
/// once (albums may share a cover). Pairs without a cover are skipped.
pub open spec fn covers_wanted(pairs: Seq<(String, Option<String>)>, cached: Seq<String>) -> Seq<String>
    decreases pairs.len(),
{
    if pairs.len() == 0 {
        Seq::empty()
    } else {
        let rest = covers_wanted(pairs.drop_last(), cached);
        match pairs.last().1 {
            Some(c) => if is_cached(cached, c) || is_cached(rest, c) { rest } else { rest.push(c) },
            None => rest,
        }
    }
}

/// `album` is the album of one of the links in `links`.
pub open spec fn has_album(links: Seq<(String, String)>, album: String) -> bool {
    exists|k: int| 0 <= k < links.len() && #[trigger] links[k].0@ == album@
}

/// The textures to show for albums, as `(album id, cover id)`: each visible
/// album whose cover is cached and which has no texture yet (an existing
/// texture is never replaced), each album once.
pub open spec fn covers_linked(
    pairs: Seq<(String, Option<String>)>,
    cached: Seq<String>,
    linked: Seq<String>,
) -> Seq<(String, String)>
    decreases pairs.len(),
{
    if pairs.len() == 0 {
        Seq::empty()
    } else {
        let (album, cover) = pairs.last();
        let rest = covers_linked(pairs.drop_last(), cached, linked);
        match cover {
            Some(c) => if is_cached(cached, c) && !is_cached(linked, album) && !has_album(rest, album) {
                rest.push((album, c))
            } else {
                rest
            },
            None => rest,
        }
    }
}

/// Whether `id` is one of `ids`.
fn ids_contain(ids: &Vec<String>, id: &String) -> (r: bool)
    ensures
        r == is_cached(ids@, *id),
{
    let mut k: usize = 0;
    while k < ids.len()
        invariant
            k <= ids.len(),
            forall|j: int| 0 <= j < k ==> ids@[j]@ != id@,
        decreases ids.len() - k,
    {
        if ids[k] == *id {
            return true;
        }
        k = k + 1;
    }
    false
}

/// Whether `album` is the album of one of `links`.
fn links_contain(links: &Vec<(String, String)>, album: &String) -> (r: bool)
    ensures
        r == has_album(links@, *album),
{
    let mut k: usize = 0;
    while k < links.len()
        invariant
            k <= links.len(),
            forall|j: int| 0 <= j < k ==> links@[j].0@ != album@,
        decreases links.len() - k,
    {
        if links[k].0 == *album {
            return true;
        }
        k = k + 1;
    }
    false
}

/// The cover ids to download for the visible `pairs` when the covers in
/// `cached` are already in the cover cache (see `covers_wanted`).
pub fn covers_to_fetch(pairs: &Vec<(String, Option<String>)>, cached: &Vec<String>) -> (r: Vec<String>)
    ensures
        r@ == covers_wanted(pairs@, cached@),
{
    let mut r: Vec<String> = Vec::new();
    let mut i: usize = 0;
    while i < pairs.len()
        invariant
            i <= pairs.len(),
            r@ == covers_wanted(pairs@.subrange(0, i as int), cached@),
        decreases pairs.len() - i,
    {
        proof {
            assert(pairs@.subrange(0, i + 1).drop_last() =~= pairs@.subrange(0, i as int));
        }
        let (_, cover) = &pairs[i];
        if let Some(c) = cover {
            if !ids_contain(cached, c) && !ids_contain(&r, c) {
                r.push(c.clone());
            }
        }
        i = i + 1;
    }
    assert(pairs@.subrange(0, pairs@.len() as int) =~= pairs@);
    r
}

/// The album textures to add for the visible `pairs`, given the covers in
/// the cover cache and the albums that already have a texture (see
/// `covers_linked`): each album gets the texture of its cover.
pub fn covers_to_link(
    pairs: &Vec<(String, Option<String>)>,
    cached: &Vec<String>,
    linked: &Vec<String>,
) -> (r: Vec<(String, String)>)
    ensures
        r@ == covers_linked(pairs@, cached@, linked@),
{
    let mut r: Vec<(String, String)> = Vec::new();
    let mut i: usize = 0;
    while i < pairs.len()
        invariant
            i <= pairs.len(),
            r@ == covers_linked(pairs@.subrange(0, i as int), cached@, linked@),
        decreases pairs.len() - i,
    {
        proof {
            assert(pairs@.subrange(0, i + 1).drop_last() =~= pairs@.subrange(0, i as int));
        }
        let (album, cover) = &pairs[i];
        if let Some(c) = cover {
            if ids_contain(cached, c) && !ids_contain(linked, album) && !links_contain(&r, album) {
                r.push((album.clone(), c.clone()));
            }
        }
        i = i + 1;
    }
    assert(pairs@.subrange(0, pairs@.len() as int) =~= pairs@);
    r
}

/// Enter on an album of Home's second or third row opens that very album:
/// the row of Recently Added albums for the second row, of Recently Played
/// albums for the third, at the focused column. It is the album the
/// context menu would act on there, and the album detail view comes on
/// top.
pub proof fn lemma_enter_opens_home_album(s0: AppState, s1: AppState)
    requires
        top_view_of(s0) == View::Home,
        activated(s0, s1),
    ensures
        s0.focus.content_row == 1 && s0.focus.content_col < s0.recent_albums@.len() ==> s1.current_album == Some(
            s0.recent_albums@[s0.focus.content_col as int],
        ),
        s0.focus.content_row == 2 && s0.focus.content_col < s0.recent_played@.len() ==> s1.current_album == Some(
            s0.recent_played@[s0.focus.content_col as int],
        ),
        (s0.focus.content_row == 1 || s0.focus.content_row == 2) && menu_anchor(s0) is Some ==> {
            &&& top_view_of(s1) == View::AlbumDetail
            &&& s1.current_album matches Some(a) && menu_anchor(s0) == Some(MenuAnchor::Album(a.id))
        },
{
    let col = s0.focus.content_col;
    if s0.focus.content_row == 1 && col < s0.recent_albums@.len() {
        assert(top_view_of(s1) == View::AlbumDetail);
    }
    if s0.focus.content_row == 2 && col < s0.recent_played@.len() {
        assert(top_view_of(s1) == View::AlbumDetail);
    }
}

/// Every fetched list lands in the state: a fetched Recently Added or
/// Recently Played row, album list, artist list or playlist list replaces
/// the one shown, whatever is fresh; a list not fetched stays as it was.
pub proof fn lemma_fetched_lists_land(s0: AppState, r: FetchResults, f: Freshness)
    ensures
        absorbed(s0, r, f).recent_albums == (match r.recent_albums {
            Some(v) => v,
            None => s0.recent_albums,
        }),
        absorbed(s0, r, f).recent_played == (match r.recent_played {
            Some(v) => v,
            None => s0.recent_played,
        }),
        absorbed(s0, r, f).albums == (match r.album_list {
            Some(v) => v,
            None => s0.albums,
        }),
        absorbed(s0, r, f).artists == (match r.artists {
            Some(v) => v,
            None => s0.artists,
        }),
        absorbed(s0, r, f).playlists == (match r.playlists {
            Some(v) => v,
            None => s0.playlists,
        }),
        absorbed(s0, r, f).play_queue == s0.play_queue,
        absorbed(s0, r, f).view_stack == s0.view_stack,
{
}

/// Entering a list view whose list is not loaded asks for that list, and
/// for nothing else; once it is loaded nothing is asked. The request is the
/// API call that returns that list.
pub proof fn lemma_entry_requests_missing_lists(s: AppState)
    ensures
        top_view_of(s) == View::PlaylistList ==> (s.playlists@.len() == 0 <==> entry_commands(s).len() > 0),
        top_view_of(s) == View::PlaylistList && s.playlists@.len() == 0 ==> entry_commands(s) == seq![
            SubsonicCommand::GetPlaylists,
        ] && crate::subsonic::client::request_for(entry_commands(s)[0])
            == crate::subsonic::client::ApiRequest::Playlists,
        top_view_of(s) == View::ArtistList ==> (s.artists@.len() == 0 <==> entry_commands(s).len() > 0),
        top_view_of(s) == View::ArtistList && s.artists@.len() == 0 ==> entry_commands(s) == seq![
            SubsonicCommand::GetArtists,
        ] && crate::subsonic::client::request_for(entry_commands(s)[0])
            == crate::subsonic::client::ApiRequest::Artists,
        top_view_of(s) == View::AlbumList ==> (s.albums@.len() == 0 <==> entry_commands(s).len() > 0),
        top_view_of(s) == View::AlbumList && s.albums@.len() == 0 ==> entry_commands(s) == seq![
            SubsonicCommand::GetAlbumList { sort: SortType::Newest, offset: 0, limit: 100 },
        ],
        top_view_of(s) == View::Home ==> (s.recent_albums@.len() == 0 <==> entry_commands(s).len() == 2),
        top_view_of(s) == View::Home && s.recent_albums@.len() == 0 ==> entry_commands(s) == seq![
            SubsonicCommand::GetRecentlyAdded { limit: 20 },
            SubsonicCommand::GetRecentlyPlayed { limit: 20 },
        ],
{
}

/// Entering a detail view whose content is not loaded asks for the item
/// shown, by its id; once loaded, or with nothing selected, nothing is
/// asked.
pub proof fn lemma_entry_requests_shown_item(s: AppState)
    ensures
        (top_view_of(s) == View::AlbumDetail && s.current_album_tracks@.len() == 0 && s.current_album is Some)
            ==> entry_commands(s) == seq![SubsonicCommand::GetAlbumDetail { id: s.current_album.unwrap().id }],
        (top_view_of(s) == View::ArtistDetail && s.current_artist_albums@.len() == 0 && s.current_artist is Some)
            ==> entry_commands(s) == seq![SubsonicCommand::GetArtistDetail { id: s.current_artist.unwrap().id }],
        (top_view_of(s) == View::PlaylistDetail && s.current_playlist_tracks@.len() == 0
            && s.current_playlist is Some) ==> entry_commands(s) == seq![
            SubsonicCommand::GetPlaylistDetail { id: s.current_playlist.unwrap().id },
        ],
        (top_view_of(s) == View::AlbumDetail && (s.current_album_tracks@.len() > 0 || s.current_album is None))
            ==> entry_commands(s).len() == 0,
        (top_view_of(s) == View::Search || top_view_of(s) == View::Settings || top_view_of(s) == View::NowPlaying)
            ==> entry_commands(s).len() == 0,
{
}

/// Enter on Home's first row opens the section card at the focused
/// column, as clicking that card does.
pub proof fn lemma_enter_opens_home_section(s0: AppState, s1: AppState)
    requires
        top_view_of(s0) == View::Home,
        s0.focus.content_row == 0,
        activated(s0, s1),
    ensures
        crate::ui::home::section_view(s0.focus.content_col as int) matches Some(v) ==> pushed(s0, s1, v),
        crate::ui::home::section_view(s0.focus.content_col as int) is None ==> s1 == s0,
{
}

} // verus!
