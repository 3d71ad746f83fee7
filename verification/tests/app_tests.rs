use navidrome_htpc::app::{added_track_text, added_tracks_text, covers_to_fetch, covers_to_link, push_toast, AppCore};
use navidrome_htpc::config::Config;
use navidrome_htpc::focus::Key;
use navidrome_htpc::mpv::events::MpvState;
use navidrome_htpc::mpv::ipc::MpvCommand;
use navidrome_htpc::state::{AppState, FocusZone, TransportAction, View};
use navidrome_htpc::ui::common::ContextMenuState;
use navidrome_htpc::subsonic::commands::{FetchResults, SearchResults, SortType, SubsonicCommand};
use navidrome_htpc::subsonic::models::{Album, Artist, Track};
use navidrome_htpc::ui::common::ContextMenuAction;

fn new_core() -> AppCore {
    AppCore::new(AppState::new(Config::with_cache_dir("/tmp/c".to_string()), true))
}

fn track(id: &str) -> Track {
    Track { id: id.to_string(), title: format!("Song {}", id), album_id: format!("al-{}", id), ..Default::default() }
}

fn album(id: &str) -> Album {
    Album { id: id.to_string(), name: format!("Album {}", id), cover_art_id: Some(format!("c{}", id)), ..Default::default() }
}

fn ids(tracks: &[Track]) -> Vec<String> {
    tracks.iter().map(|t| t.id.clone()).collect()
}

fn toasts(c: &AppCore) -> Vec<String> {
    c.state.toasts.iter().map(|t| t.message.clone()).collect()
}

#[test]
fn toast_texts() {
    assert_eq!(added_tracks_text(12), "Added 12 tracks to queue");
    assert_eq!(added_track_text("So What"), "Added \"So What\" to queue");
    let mut s = AppState::new(Config::with_cache_dir("/c".to_string()), true);
    push_toast(&mut s, "hi".to_string(), 100);
    assert_eq!(s.toasts[0].ttl_ms, 100);
}

#[test]
fn new_core_is_idle() {
    let c = new_core();
    assert!(!c.context_menu.open);
    assert!(c.pending_menu_album.is_none());
    assert!(c.last_search_query.is_empty());
}

#[test]
fn album_card_action_with_loaded_tracks_plays_now() {
    let mut c = new_core();
    c.state.current_album = Some(album("a1"));
    c.state.current_album_tracks = vec![track("1"), track("2")];
    let sent = c.handle_context_menu_action(ContextMenuAction::PlayNow, Some("a1".to_string()), None, true);
    assert!(sent.is_none());
    assert_eq!(ids(&c.state.play_queue), vec!["1", "2"]);
    assert_eq!(c.state.current_track_index, Some(0));
    assert_eq!(c.state.current_view(), View::NowPlaying);
}

#[test]
fn album_card_action_without_tracks_fetches_then_applies() {
    let mut c = new_core();
    let sent = c.handle_context_menu_action(ContextMenuAction::AddToQueue, Some("a9".to_string()), None, true);
    match sent {
        Some(SubsonicCommand::GetAlbumDetail { id }) => assert_eq!(id, "a9"),
        other => panic!("unexpected {:?}", other),
    }
    assert_eq!(toasts(&c), vec!["Loading album\u{2026}"]);
    assert_eq!(c.pending_menu_album.as_ref().unwrap().0, "a9");
    let mut r = FetchResults::default();
    r.album_detail = Some((album("a9"), vec![track("x"), track("y")]));
    c.apply_fetch_results(&mut r);
    assert!(c.pending_menu_album.is_none());
    assert_eq!(ids(&c.state.play_queue), vec!["x", "y"]);
    assert_eq!(toasts(&c).last().unwrap(), "Added 2 tracks to queue");
}

#[test]
fn album_card_action_without_server_says_so() {
    let mut c = new_core();
    let sent = c.handle_context_menu_action(ContextMenuAction::PlayNow, Some("a".to_string()), None, false);
    assert!(sent.is_none());
    assert_eq!(toasts(&c), vec!["No server \u{2014} can't load album"]);
}

#[test]
fn track_row_actions_in_album_detail() {
    let mut c = new_core();
    c.state.push_view(View::AlbumDetail);
    c.state.current_album_tracks = vec![track("1"), track("2"), track("3")];
    c.handle_context_menu_action(ContextMenuAction::AddToQueue, None, Some(1), true);
    assert_eq!(ids(&c.state.play_queue), vec!["2"]);
    assert_eq!(toasts(&c), vec!["Added \"Song 2\" to queue"]);
    c.handle_context_menu_action(ContextMenuAction::PlayNow, None, Some(1), true);
    assert_eq!(ids(&c.state.play_queue), vec!["2", "3"]);
    c.handle_context_menu_action(ContextMenuAction::PlayNow, None, Some(7), true);
    assert_eq!(ids(&c.state.play_queue), vec!["2", "3"]);
}

#[test]
fn empty_track_list_action_toasts() {
    let mut c = new_core();
    c.apply_action_to_tracks(ContextMenuAction::Shuffle, vec![]);
    assert_eq!(toasts(&c), vec!["No tracks to play"]);
    assert!(c.state.play_queue.is_empty());
}

#[test]
fn context_menu_frame_runs_the_picked_action() {
    let mut c = new_core();
    c.state.push_view(View::PlaylistDetail);
    c.state.current_playlist_tracks = vec![track("p"), track("q")];
    c.state.focus.content_row = 1;
    c.handle_arrow_key(Key::ArrowRight);
    assert!(c.context_menu.open);
    assert_eq!(c.context_menu.track_index, Some(1));
    let none = c.context_menu_frame(false, false, false, false, false, None, true);
    assert!(none.is_none());
    assert!(c.context_menu.open);
    c.context_menu_frame(false, false, true, false, false, None, true);
    assert!(!c.context_menu.open);
    assert_eq!(ids(&c.state.play_queue), vec!["q"]);
}

#[test]
fn escape_collapses_menu_then_goes_back() {
    let mut c = new_core();
    c.state.push_view(View::AlbumList);
    c.state.focus.menu_expanded = true;
    c.handle_escape();
    assert!(!c.state.focus.menu_expanded);
    assert_eq!(c.state.current_view(), View::AlbumList);
    c.handle_escape();
    assert_eq!(c.state.current_view(), View::Home);
    c.handle_escape();
    assert_eq!(c.state.view_stack, vec![View::Home]);
}

#[test]
fn content_rows_per_view() {
    let mut c = new_core();
    assert_eq!(c.num_content_rows(), 3);
    c.state.push_view(View::NowPlaying);
    assert_eq!(c.num_content_rows(), 1);
    c.state.play_queue = vec![track("a"), track("b")];
    assert_eq!(c.num_content_rows(), 2);
    c.state.focus.content_row = 1;
    c.handle_arrow_key(Key::ArrowDown);
    assert_eq!(c.state.focus.zone, FocusZone::Transport);
}

#[test]
fn enter_activates_focused_item() {
    let mut c = new_core();
    c.state.focus.content_col = 1;
    c.activate_focused();
    assert_eq!(c.state.current_view(), View::AlbumList);
    c.state.albums = vec![album("a"), album("b")];
    c.state.focus.content_col = 1;
    c.activate_focused();
    assert_eq!(c.state.current_view(), View::AlbumDetail);
    assert_eq!(c.state.current_album.as_ref().unwrap().id, "b");
    c.state.current_album_tracks = vec![track("1"), track("2")];
    c.state.focus.content_row = 1;
    c.activate_focused();
    assert_eq!(c.state.current_view(), View::NowPlaying);
    assert_eq!(ids(&c.state.play_queue), vec!["2"]);
    assert_eq!(c.state.current_track_index, Some(0));
    assert!(c.state.is_playing);
}

#[test]
fn entering_views_fetches_missing_data() {
    let mut c = new_core();
    let cmds = c.view_entry_commands();
    assert_eq!(cmds.len(), 2);
    assert!(matches!(cmds[0], SubsonicCommand::GetRecentlyAdded { limit: 20 }));
    assert!(matches!(cmds[1], SubsonicCommand::GetRecentlyPlayed { limit: 20 }));
    c.state.push_view(View::AlbumList);
    let cmds = c.view_entry_commands();
    assert!(matches!(cmds[0], SubsonicCommand::GetAlbumList { sort: SortType::Newest, offset: 0, limit: 100 }));
    c.state.albums = vec![album("x")];
    assert!(c.view_entry_commands().is_empty());
    c.state.push_view(View::Settings);
    assert!(c.view_entry_commands().is_empty());
}

#[test]
fn search_is_debounced() {
    let mut c = new_core();
    c.state.search_query = "m".to_string();
    assert!(c.search_step(None).is_none());
    c.state.search_query = "mi".to_string();
    c.state.search_results_tracks = vec![track("old")];
    match c.search_step(Some(500)) {
        Some(SubsonicCommand::Search { query, artist_count, album_count, song_count }) => {
            assert_eq!(query, "mi");
            assert_eq!((artist_count, album_count, song_count), (20, 20, 50));
        }
        other => panic!("unexpected {:?}", other),
    }
    assert!(c.state.search_results_tracks.is_empty());
    assert!(c.search_step(Some(1000)).is_none());
    c.state.search_query = "mil".to_string();
    assert!(c.search_step(Some(100)).is_none());
    assert!(c.search_step(Some(300)).is_some());
}

#[test]
fn fetched_data_lands_in_state_and_errors_toast() {
    let mut c = new_core();
    let mut r = FetchResults::default();
    r.recent_albums = Some(vec![album("r")]);
    r.artists = Some(vec![Artist { name: "A".to_string(), ..Default::default() }]);
    r.search_results = Some(SearchResults { query: String::new(), artists: vec![], albums: vec![album("s")], tracks: vec![] });
    r.error = Some("timeout".to_string());
    c.apply_fetch_results(&mut r);
    assert!(r.recent_albums.is_none() && r.error.is_none() && r.search_results.is_none());
    c.apply_fetch_results(&mut r);
    assert_eq!(c.state.recent_albums[0].id, "r");
    assert_eq!(c.state.artists.len(), 1);
    assert_eq!(c.state.search_results_albums[0].id, "s");
    assert_eq!(toasts(&c), vec!["timeout"]);
    assert_eq!(c.state.toasts[0].ttl_ms, 3000);
}

#[test]
fn engine_state_is_absorbed_and_crash_toasts() {
    let mut c = new_core();
    c.state.is_playing = true;
    let mpv = MpvState { crashed: true, current_time_ms: 10, total_duration_ms: 20, ..MpvState::default() };
    let was = c.absorb_engine_state(&mpv);
    assert!(was);
    assert!(!c.state.is_playing);
    assert_eq!(c.state.current_time_ms, 10);
    assert_eq!(toasts(&c), vec!["mpv subprocess crashed \u{2014} playback stopped"]);
    let paused = MpvState { is_playing: true, is_paused: true, ..MpvState::default() };
    c.absorb_engine_state(&paused);
    assert!(!c.state.is_playing);
}

#[test]
fn requested_track_is_started() {
    let mut c = new_core();
    c.state.play_queue = vec![track("a"), track("b")];
    c.state.current_track_index = Some(1);
    let idle = MpvState::default();
    assert_eq!(c.track_to_start(true, &idle), Some(1));
    assert_eq!(c.track_to_start(false, &idle), None);
    c.state.total_duration_ms = 5;
    assert_eq!(c.track_to_start(true, &idle), None);
    match c.on_start_url(Some("u".to_string())) {
        Some(MpvCommand::Play { url }) => assert_eq!(url, "u"),
        other => panic!("unexpected {:?}", other),
    }
    c.state.is_playing = true;
    assert!(c.on_start_url(None).is_none());
    assert!(!c.state.is_playing);
    assert_eq!(toasts(&c), vec!["Could not build stream URL"]);
}

#[test]
fn track_end_advances_or_stops() {
    let mut c = new_core();
    c.state.play_queue = vec![track("a"), track("b")];
    c.state.current_track_index = Some(0);
    c.state.total_duration_ms = 1000;
    let ended = MpvState::default();
    assert_eq!(c.advance_on_track_end(true, &ended), Some(1));
    assert_eq!(c.state.current_track_index, Some(1));
    assert_eq!(c.state.total_duration_ms, 0);
    c.state.total_duration_ms = 1000;
    assert_eq!(c.advance_on_track_end(true, &ended), None);
    assert!(c.state.current_track_index.is_none());
    assert!(!c.state.is_playing);
    match c.on_next_url(Some("n".to_string())) {
        Some(MpvCommand::Play { url }) => assert_eq!(url, "n"),
        other => panic!("unexpected {:?}", other),
    }
    assert!(c.state.is_playing);
    assert!(c.on_next_url(None).is_none());
    assert_eq!(toasts(&c), vec!["Could not build stream URL for next track"]);
}

#[test]
fn auto_advance_off_keeps_track() {
    let mut c = new_core();
    c.state.config.playback.auto_advance = false;
    c.state.play_queue = vec![track("a"), track("b")];
    c.state.current_track_index = Some(0);
    c.state.total_duration_ms = 1000;
    assert_eq!(c.advance_on_track_end(true, &MpvState::default()), None);
    assert_eq!(c.state.current_track_index, Some(0));
}

#[test]
fn playback_follows_to_now_playing_and_transport_forwards() {
    let mut c = new_core();
    c.state.is_playing = true;
    c.state.current_track_index = Some(0);
    c.follow_playback(false);
    assert_eq!(c.state.current_view(), View::NowPlaying);
    c.follow_playback(false);
    assert_eq!(c.state.view_stack.len(), 2);
    c.state.pending_transport_action = Some(TransportAction::Next);
    assert!(matches!(c.take_transport_command(), Some(MpvCommand::Stop)));
    assert!(c.state.pending_transport_action.is_none());
    assert!(c.take_transport_command().is_none());
}

#[test]
fn sync_playback_without_client_forwards_pending_action() {
    let mut c = new_core();
    c.state.play_queue = vec![track("a")];
    c.state.current_track_index = Some(0);
    c.state.is_playing = true;
    c.state.pending_transport_action = Some(TransportAction::Pause);
    let mpv = MpvState { is_playing: true, current_time_ms: 1, total_duration_ms: 2, ..MpvState::default() };
    let cmds = c.sync_playback(&mpv, None);
    assert_eq!(cmds.len(), 1);
    assert!(matches!(cmds[0], MpvCommand::Pause));
    assert!(c.state.pending_transport_action.is_none());
    assert_eq!(ids(&c.state.play_queue), vec!["a"]);
}

#[test]
fn sync_playback_with_client_starts_requested_track() {
    let client = opensubsonic::Client::new("https://music.local", opensubsonic::Auth::plain("u", "p")).unwrap();
    let mut c = new_core();
    c.state.play_queue = vec![track("t1")];
    c.state.current_track_index = Some(0);
    c.state.is_playing = true;
    let cmds = c.sync_playback(&MpvState::default(), Some(&client));
    assert_eq!(cmds.len(), 1);
    match &cmds[0] {
        MpvCommand::Play { url } => assert!(url.contains("id=t1")),
        other => panic!("unexpected {:?}", other),
    }
}

#[test]
fn global_play_pause() {
    let mut c = new_core();
    assert!(c.handle_play_pause_global().is_none());
    assert_eq!(toasts(&c), vec!["Queue is empty \u{2014} nothing to play"]);
    c.state.play_queue = vec![track("a"), track("b")];
    assert!(c.handle_play_pause_global().is_none());
    assert_eq!(c.state.current_track_index, Some(0));
    assert!(c.state.is_playing);
    assert_eq!(c.state.current_view(), View::NowPlaying);
    assert!(matches!(c.handle_play_pause_global(), Some(MpvCommand::TogglePause)));
    c.state.is_playing = false;
    c.state.current_track_index = Some(1);
    c.state.pop_view();
    assert!(matches!(c.handle_play_pause_global(), Some(MpvCommand::Resume)));
    assert_eq!(c.state.current_track_index, Some(1));
    assert_eq!(c.state.current_view(), View::NowPlaying);
}

#[test]
fn visible_covers_per_view() {
    let mut c = new_core();
    c.state.recent_albums = vec![album("1")];
    c.state.recent_played = vec![album("2")];
    let covers = c.collect_visible_cover_ids();
    assert_eq!(covers, vec![
        ("1".to_string(), Some("c1".to_string())),
        ("2".to_string(), Some("c2".to_string())),
    ]);
    c.state.push_view(View::NowPlaying);
    c.state.play_queue = vec![Track { cover_art_id: Some("cv".to_string()), ..track("t") }];
    c.state.current_track_index = Some(0);
    assert_eq!(c.collect_visible_cover_ids(), vec![("al-t".to_string(), Some("cv".to_string()))]);
    c.state.push_view(View::Search);
    assert!(c.collect_visible_cover_ids().is_empty());
}

#[test]
fn stale_album_detail_is_discarded() {
    let mut c = new_core();
    c.state.current_album = Some(album("b"));
    let mut r = FetchResults::default();
    r.album_detail = Some((album("a"), vec![track("x")]));
    c.apply_fetch_results(&mut r);
    assert_eq!(c.state.current_album.as_ref().unwrap().id, "b");
    assert!(c.state.current_album_tracks.is_empty());
    assert!(r.album_detail.is_none());
    r.album_detail = Some((album("b"), vec![track("y")]));
    c.apply_fetch_results(&mut r);
    assert_eq!(ids(&c.state.current_album_tracks), vec!["y"]);
}

#[test]
fn stale_search_results_are_discarded() {
    let mut c = new_core();
    c.last_search_query = "new".to_string();
    let mut r = FetchResults::default();
    r.search_results = Some(SearchResults { query: "old".to_string(), artists: vec![], albums: vec![album("o")], tracks: vec![] });
    c.apply_fetch_results(&mut r);
    assert!(c.state.search_results_albums.is_empty());
    r.search_results = Some(SearchResults { query: "new".to_string(), artists: vec![], albums: vec![album("n")], tracks: vec![] });
    c.apply_fetch_results(&mut r);
    assert_eq!(c.state.search_results_albums[0].id, "n");
}

#[test]
fn keys_dispatch_to_their_steps() {
    let mut c = new_core();
    c.state.play_queue = vec![track("a"), track("b")];
    assert!(c.dispatch_key(Key::Space).is_none());
    assert!(c.state.is_playing);
    assert_eq!(c.state.current_track_index, Some(0));
    assert_eq!(c.state.current_view(), View::NowPlaying);
    assert!(matches!(c.dispatch_key(Key::Space), Some(MpvCommand::TogglePause)));
    c.dispatch_key(Key::Escape);
    assert_eq!(c.state.current_view(), View::Home);
    c.state.recent_albums = vec![album("r0"), album("r1")];
    c.dispatch_key(Key::ArrowDown);
    assert_eq!(c.state.focus.content_row, 1);
    c.state.focus.content_col = 1;
    c.dispatch_key(Key::ArrowRight);
    assert!(c.context_menu.open);
    assert_eq!(c.context_menu.album_id.as_deref(), Some("r1"));
    assert_eq!(c.state.focus.content_col, 1);
    assert!(c.dispatch_key(Key::Enter).is_none());
    assert_eq!(c.state.current_view(), View::Home);
}

#[test]
fn right_on_section_cards_moves_column() {
    let mut c = new_core();
    c.dispatch_key(Key::ArrowRight);
    assert!(!c.context_menu.open);
    assert_eq!(c.state.focus.content_col, 1);
}

#[test]
fn escape_from_search_clears_query() {
    let mut c = new_core();
    c.state.push_view(View::Search);
    c.state.search_query = "miles".to_string();
    c.last_search_query = "miles".to_string();
    c.handle_escape();
    assert_eq!(c.state.current_view(), View::Home);
    assert!(c.state.search_query.is_empty());
    assert_eq!(c.last_search_query, "miles");
    c.state.push_view(View::Search);
    c.state.search_query = "miles".to_string();
    assert!(c.search_step(None).is_none());
}

#[test]
fn covers_are_fetched_once_per_cover() {
    let pairs = vec![
        ("a".to_string(), Some("ca".to_string())),
        ("b".to_string(), None),
        ("c".to_string(), Some("shared".to_string())),
        ("d".to_string(), Some("shared".to_string())),
    ];
    let r = covers_to_fetch(&pairs, &vec!["ca".to_string()]);
    assert_eq!(r, vec!["shared".to_string()]);
}

#[test]
fn album_textures_link_cached_covers_without_replacing() {
    let pairs = vec![
        ("a".to_string(), Some("ca".to_string())),
        ("c".to_string(), Some("shared".to_string())),
        ("d".to_string(), Some("shared".to_string())),
        ("e".to_string(), Some("missing".to_string())),
        ("c".to_string(), Some("shared".to_string())),
    ];
    let cached = vec!["ca".to_string(), "shared".to_string()];
    let r = covers_to_link(&pairs, &cached, &vec!["a".to_string()]);
    assert_eq!(
        r,
        vec![("c".to_string(), "shared".to_string()), ("d".to_string(), "shared".to_string())]
    );
}
