use navidrome_htpc::config::{AuthMethod, Config};
use navidrome_htpc::state::{AlbumSort, AppState, ArtistSort, FocusZone, Toast, View};
use navidrome_htpc::subsonic::models::{Album, Artist, Playlist, Track};
use navidrome_htpc::ui::album_detail::{add_album_to_queue, play_album, play_album_from, shuffle_album};
use navidrome_htpc::ui::album_list::{cycle_album_sort, open_album, sorted_albums};
use navidrome_htpc::ui::artist_list::{open_artist, sorted_artists, toggle_artist_sort};
use navidrome_htpc::ui::common::{
    action_for_item, format_duration, tick_toasts, track_row_duration, track_row_prefix, track_row_shade,
    widget_shade, ContextMenuAction, ContextMenuState, Shade,
};
use navidrome_htpc::ui::home::{open_recent_album, open_section};
use navidrome_htpc::ui::menu::{click_menu_item, press_menu_button};
use navidrome_htpc::ui::now_playing::{jump_to_track, now_playing_index, now_playing_track, take_queue_scroll};
use navidrome_htpc::ui::playlist_detail::{add_playlist_to_queue, play_playlist, play_playlist_from, shuffle_playlist};
use navidrome_htpc::ui::playlist_list::open_playlist;
use navidrome_htpc::ui::search::{play_search_result, shows_no_results};
use navidrome_htpc::ui::settings::clear_cache_pressed;
use navidrome_htpc::ui::wizard::{WizardState, WizardStep};

fn fresh_state() -> AppState {
    AppState::new(Config::with_cache_dir("/tmp/cache".to_string()), true)
}

fn track(id: &str) -> Track {
    Track { id: id.to_string(), title: format!("Song {}", id), ..Default::default() }
}

fn album(id: &str, name: &str, artist: &str) -> Album {
    Album { id: id.to_string(), name: name.to_string(), artist_name: artist.to_string(), ..Default::default() }
}

fn artist(name: &str, albums: u32) -> Artist {
    Artist { id: name.to_lowercase(), name: name.to_string(), album_count: albums, ..Default::default() }
}

fn ids(tracks: &[Track]) -> Vec<String> {
    tracks.iter().map(|t| t.id.clone()).collect()
}

// ── Context menu and toasts ────────────────────────────────────────────────

#[test]
fn context_menu_opens_and_closes() {
    let mut m = ContextMenuState::default();
    assert!(!m.open);
    m.open_for_album("al-1".to_string());
    assert!(m.open);
    assert_eq!(m.album_id.as_deref(), Some("al-1"));
    assert!(m.track_index.is_none());
    m.open_for_track(4);
    assert!(m.album_id.is_none());
    assert_eq!(m.track_index, Some(4));
    m.close();
    assert!(!m.open);
    assert!(m.track_index.is_none());
}

#[test]
fn context_menu_enter_picks_highlighted_entry() {
    let mut m = ContextMenuState::default();
    m.open_for_track(0);
    assert_eq!(m.handle_input(false, true, false, false, false, None), None);
    assert_eq!(m.selected, 1);
    assert_eq!(m.handle_input(false, true, false, false, false, None), None);
    assert_eq!(m.handle_input(false, true, false, false, false, None), None);
    assert_eq!(m.selected, 2);
    assert_eq!(m.handle_input(false, false, true, false, false, None), Some(ContextMenuAction::AddToQueue));
    assert!(!m.open);
}

#[test]
fn context_menu_click_and_escape() {
    let mut m = ContextMenuState::default();
    m.open_for_album("x".to_string());
    assert_eq!(m.handle_input(false, false, false, false, false, Some(1)), Some(ContextMenuAction::Shuffle));
    assert!(!m.open);
    m.open_for_album("x".to_string());
    assert_eq!(m.handle_input(false, false, false, true, false, None), None);
    assert!(!m.open);
    assert!(m.album_id.is_none());
    let mut closed = ContextMenuState::default();
    assert_eq!(closed.handle_input(false, false, true, false, false, None), None);
}

#[test]
fn menu_items_map_to_actions() {
    assert_eq!(action_for_item(0), ContextMenuAction::PlayNow);
    assert_eq!(action_for_item(1), ContextMenuAction::Shuffle);
    assert_eq!(action_for_item(2), ContextMenuAction::AddToQueue);
    assert_eq!(action_for_item(9), ContextMenuAction::AddToQueue);
}

#[test]
fn toasts_age_and_expire() {
    let mut toasts = vec![
        Toast { message: "a".to_string(), ttl_ms: 1000 },
        Toast { message: "b".to_string(), ttl_ms: 3000 },
        Toast { message: "c".to_string(), ttl_ms: 500 },
    ];
    tick_toasts(&mut toasts, 800);
    let mut left: Vec<(String, u32)> = toasts.iter().map(|t| (t.message.clone(), t.ttl_ms)).collect();
    left.sort();
    assert_eq!(left, vec![("a".to_string(), 200), ("b".to_string(), 2200)]);
    tick_toasts(&mut toasts, 200);
    assert_eq!(toasts.len(), 1);
    assert_eq!(toasts[0].message, "b");
    assert_eq!(toasts[0].ttl_ms, 2000);
}

// ── Track rows ─────────────────────────────────────────────────────────────

#[test]
fn durations_show_minutes_and_two_digit_seconds() {
    assert_eq!(format_duration(0), "0:00");
    assert_eq!(format_duration(65), "1:05");
    assert_eq!(format_duration(600), "10:00");
    assert_eq!(format_duration(3599), "59:59");
    let t = Track { duration_secs: 245, ..Default::default() };
    assert_eq!(track_row_duration(&t), "4:05");
}

#[test]
fn track_row_prefix_marks_current_or_numbers() {
    let numbered = Track { track_number: Some(7), ..Default::default() };
    let unnumbered = Track::default();
    assert_eq!(track_row_prefix(&numbered, 0, false), "7");
    assert_eq!(track_row_prefix(&unnumbered, 4, false), "5");
    assert_eq!(track_row_prefix(&numbered, 0, true), "\u{25B6}");
}

#[test]
fn highlights_prefer_current_then_focus() {
    assert_eq!(widget_shade(true, true), Shade::Focused);
    assert_eq!(widget_shade(false, true), Shade::Hovered);
    assert_eq!(widget_shade(false, false), Shade::Plain);
    assert_eq!(track_row_shade(true, true, true), Shade::Current);
    assert_eq!(track_row_shade(false, true, false), Shade::Focused);
}

// ── Album and artist lists ─────────────────────────────────────────────────

#[test]
fn album_sort_cycles_through_four_modes() {
    let mut s = fresh_state();
    s.albums = vec![album("1", "A", "X")];
    cycle_album_sort(&mut s);
    assert_eq!(s.album_sort, AlbumSort::AlphabeticalByName);
    assert!(s.albums.is_empty());
    cycle_album_sort(&mut s);
    assert_eq!(s.album_sort, AlbumSort::AlphabeticalByArtist);
    cycle_album_sort(&mut s);
    assert_eq!(s.album_sort, AlbumSort::Random);
    cycle_album_sort(&mut s);
    assert_eq!(s.album_sort, AlbumSort::Newest);
}

#[test]
fn albums_sort_by_name_ignoring_case_stably() {
    let albums = vec![
        album("1", "beta", "Z"),
        album("2", "Alpha", "Y"),
        album("3", "BETA", "X"),
        album("4", "gamma", "W"),
    ];
    let r = sorted_albums(&albums, AlbumSort::AlphabeticalByName);
    let order: Vec<&str> = r.iter().map(|a| a.id.as_str()).collect();
    assert_eq!(order, vec!["2", "1", "3", "4"]);
    let newest = sorted_albums(&albums, AlbumSort::Newest);
    let order: Vec<&str> = newest.iter().map(|a| a.id.as_str()).collect();
    assert_eq!(order, vec!["1", "2", "3", "4"]);
}

#[test]
fn albums_sort_by_artist_then_name() {
    let albums = vec![album("1", "b", "Xavier"), album("2", "a", "xavier"), album("3", "z", "Anna")];
    let r = sorted_albums(&albums, AlbumSort::AlphabeticalByArtist);
    let order: Vec<&str> = r.iter().map(|a| a.id.as_str()).collect();
    assert_eq!(order, vec!["3", "2", "1"]);
}

#[test]
fn random_album_order_keeps_every_album() {
    let albums: Vec<Album> = (0..20).map(|i| album(&i.to_string(), "n", "a")).collect();
    let r = sorted_albums(&albums, AlbumSort::Random);
    let mut order: Vec<String> = r.iter().map(|a| a.id.clone()).collect();
    order.sort();
    let mut expected: Vec<String> = (0..20).map(|i| i.to_string()).collect();
    expected.sort();
    assert_eq!(order, expected);
}

#[test]
fn artists_sort_by_name_or_album_count() {
    let artists = vec![artist("beta", 2), artist("Alpha", 5), artist("gamma", 5)];
    let by_name = sorted_artists(&artists, ArtistSort::Alphabetical);
    let names: Vec<&str> = by_name.iter().map(|a| a.name.as_str()).collect();
    assert_eq!(names, vec!["Alpha", "beta", "gamma"]);
    let by_count = sorted_artists(&artists, ArtistSort::ByAlbumCount);
    let names: Vec<&str> = by_count.iter().map(|a| a.name.as_str()).collect();
    assert_eq!(names, vec!["Alpha", "gamma", "beta"]);
}

#[test]
fn artist_sort_toggles_back() {
    let mut s = fresh_state();
    toggle_artist_sort(&mut s);
    assert_eq!(s.artist_sort, ArtistSort::ByAlbumCount);
    toggle_artist_sort(&mut s);
    assert_eq!(s.artist_sort, ArtistSort::Alphabetical);
}

#[test]
fn opening_items_pushes_their_views() {
    let mut s = fresh_state();
    s.current_album_tracks = vec![track("old")];
    open_album(&mut s, album("al", "Album", "Artist"));
    assert_eq!(s.current_view(), View::AlbumDetail);
    assert!(s.current_album_tracks.is_empty());
    assert_eq!(s.current_album.as_ref().unwrap().id, "al");
    open_artist(&mut s, artist("Bob", 1));
    assert_eq!(s.current_view(), View::ArtistDetail);
    assert_eq!(s.current_artist.as_ref().unwrap().name, "Bob");
    s.current_playlist_tracks = vec![track("x")];
    open_playlist(&mut s, Playlist { id: "pl".to_string(), ..Default::default() });
    assert_eq!(s.current_view(), View::PlaylistDetail);
    assert!(s.current_playlist_tracks.is_empty());
    s.pop_view();
    s.pop_view();
    s.pop_view();
    assert_eq!(s.view_stack, vec![View::Home]);
}

// ── Detail views ───────────────────────────────────────────────────────────

#[test]
fn album_play_replaces_queue_and_shows_now_playing() {
    let mut s = fresh_state();
    s.play_queue = vec![track("q")];
    s.current_album_tracks = vec![track("a"), track("b")];
    play_album(&mut s);
    assert_eq!(ids(&s.play_queue), vec!["a", "b"]);
    assert_eq!(s.current_track_index, Some(0));
    assert!(s.is_playing);
    assert_eq!(s.current_view(), View::NowPlaying);
}

#[test]
fn album_play_from_row_starts_at_that_track() {
    let mut s = fresh_state();
    s.current_album_tracks = vec![track("a"), track("b"), track("c")];
    play_album_from(&mut s, 1);
    assert_eq!(ids(&s.play_queue), vec!["b", "c"]);
    assert_eq!(s.current_track_index, Some(0));
}

#[test]
fn album_shuffle_keeps_the_same_tracks() {
    let mut s = fresh_state();
    s.current_album_tracks = (0..10).map(|i| track(&i.to_string())).collect();
    shuffle_album(&mut s);
    let mut got = ids(&s.play_queue);
    got.sort();
    let mut expected: Vec<String> = (0..10).map(|i| i.to_string()).collect();
    expected.sort();
    assert_eq!(got, expected);
    assert_eq!(s.current_track_index, Some(0));
    assert_eq!(s.current_view(), View::NowPlaying);
}

#[test]
fn add_to_queue_appends_and_keeps_current_track() {
    let mut s = fresh_state();
    s.play_queue = vec![track("q1"), track("q2")];
    s.current_track_index = Some(1);
    s.is_playing = true;
    s.current_album_tracks = vec![track("a"), track("b"), track("c")];
    add_album_to_queue(&mut s);
    assert_eq!(ids(&s.play_queue), vec!["q1", "q2", "a", "b", "c"]);
    assert_eq!(s.current_track_index, Some(1));
    assert_eq!(s.play_queue[1].id, "q2");
    assert!(s.is_playing);
    assert_eq!(s.toasts.len(), 1);
    assert_eq!(s.toasts[0].message, "Added 3 tracks to queue");
    assert_eq!(s.toasts[0].ttl_ms, 3000);
    assert_eq!(s.view_stack, vec![View::Home]);
}

#[test]
fn playlist_buttons_act_on_playlist_tracks() {
    let mut s = fresh_state();
    s.current_playlist_tracks = vec![track("p1"), track("p2")];
    play_playlist(&mut s);
    assert_eq!(ids(&s.play_queue), vec!["p1", "p2"]);
    play_playlist_from(&mut s, 1);
    assert_eq!(ids(&s.play_queue), vec!["p2"]);
    shuffle_playlist(&mut s);
    assert_eq!(s.play_queue.len(), 2);
    add_playlist_to_queue(&mut s);
    assert_eq!(s.play_queue.len(), 4);
    assert_eq!(s.toasts.last().unwrap().message, "Added 2 tracks to queue");
}

// ── Search, Now Playing, Home, menu, settings ─────────────────────────────

#[test]
fn search_result_click_plays_one_song() {
    let mut s = fresh_state();
    s.search_results_tracks = vec![track("s1"), track("s2")];
    play_search_result(&mut s, 1);
    assert_eq!(ids(&s.play_queue), vec!["s2"]);
    assert_eq!(s.current_view(), View::NowPlaying);
}

#[test]
fn no_results_needs_two_bytes_of_query() {
    let mut s = fresh_state();
    s.search_query = "a".to_string();
    assert!(!shows_no_results(&s));
    s.search_query = "ab".to_string();
    assert!(shows_no_results(&s));
    s.search_query = "é".to_string();
    assert!(shows_no_results(&s));
    s.search_results_albums = vec![album("1", "n", "a")];
    assert!(!shows_no_results(&s));
}

#[test]
fn now_playing_shows_current_or_head() {
    let mut s = fresh_state();
    assert_eq!(now_playing_index(&s), 0);
    assert!(now_playing_track(&s).is_none());
    s.play_queue = vec![track("a"), track("b")];
    assert_eq!(now_playing_track(&s).unwrap().id, "a");
    jump_to_track(&mut s, 1);
    assert_eq!(s.current_track_index, Some(1));
    assert!(s.is_playing);
    assert_eq!(now_playing_track(&s).unwrap().id, "b");
}

#[test]
fn home_cards_open_sections() {
    let mut s = fresh_state();
    open_section(&mut s, 0);
    assert_eq!(s.current_view(), View::ArtistList);
    open_section(&mut s, 1);
    assert_eq!(s.current_view(), View::AlbumList);
    open_section(&mut s, 2);
    assert_eq!(s.current_view(), View::PlaylistList);
    open_section(&mut s, 3);
    assert_eq!(s.view_stack.len(), 4);
    open_recent_album(&mut s, album("r", "R", "A"));
    assert_eq!(s.current_view(), View::AlbumDetail);
}

#[test]
fn menu_button_and_items() {
    let mut s = fresh_state();
    press_menu_button(&mut s, false, true);
    assert!(!s.focus.menu_expanded);
    s.focus.zone = FocusZone::Menu;
    press_menu_button(&mut s, false, true);
    assert!(s.focus.menu_expanded);
    click_menu_item(&mut s, 1);
    assert_eq!(s.current_view(), View::Settings);
    assert!(!s.focus.menu_expanded);
    click_menu_item(&mut s, 0);
    assert_eq!(s.current_view(), View::Search);
    click_menu_item(&mut s, 2);
    assert_eq!(s.current_view(), View::Search);
    s.play_queue = vec![track("q")];
    click_menu_item(&mut s, 2);
    assert_eq!(s.current_view(), View::NowPlaying);
}

#[test]
fn clear_cache_shows_toast() {
    let mut s = fresh_state();
    clear_cache_pressed(&mut s);
    assert_eq!(s.toasts.len(), 1);
    assert_eq!(s.toasts[0].message, "Cache cleared");
    assert_eq!(s.toasts[0].ttl_ms, 3000);
}

// ── Wizard ─────────────────────────────────────────────────────────────────

#[test]
fn wizard_walks_through_four_steps() {
    let mut s = AppState::new(Config::with_cache_dir("/c".to_string()), false);
    let mut w = WizardState::default();
    assert_eq!(w.step_number(), 1);
    w.url = "music.local".to_string();
    assert!(w.shows_url_hint());
    w.submit_server_url(true, false);
    assert_eq!(w.step, WizardStep::ServerUrl);
    w.url = "https://".to_string();
    assert!(!w.url_valid());
    w.submit_server_url(false, true);
    assert_eq!(w.step, WizardStep::ServerUrl);
    w.url = "https://:4533/x".to_string();
    assert!(!w.url_valid());
    w.url = "http://user@host".to_string();
    assert!(w.url_valid());
    w.url = "http://user@/x".to_string();
    assert!(!w.url_valid());
    w.url = "https://music.local:4533".to_string();
    assert!(!w.shows_url_hint());
    w.submit_server_url(true, false);
    assert_eq!(w.step, WizardStep::Credentials);
    w.username = "admin".to_string();
    assert!(!w.credentials_ready());
    w.select_auth_method(1);
    assert_eq!(w.auth_method, AuthMethod::ApiKey);
    assert_eq!(w.auth_method_index(), 1);
    w.api_key = "k".to_string();
    assert!(w.credentials_ready());
    w.submit_credentials(false, false, true);
    assert_eq!(w.step, WizardStep::TestConnection);
    assert!(w.testing);
    w.run_connection_test(&mut s);
    assert!(w.test_success);
    assert_eq!(s.config.server.url, "https://music.local:4533");
    assert_eq!(s.config.server.auth_method, AuthMethod::ApiKey);
    w.connection_test_buttons(true, false, false);
    assert_eq!(w.step, WizardStep::AudioOutput);
    assert_eq!(w.step_number(), 4);
    s.push_view(View::Settings);
    assert!(!w.finish(&mut s, false, false));
    assert!(w.finish(&mut s, true, false));
    assert!(s.config.wizard.completed);
    assert!(s.server_configured);
    assert_eq!(s.view_stack, vec![View::Home]);
    assert_eq!(s.config.audio.device, "auto");
}

#[test]
fn wizard_back_returns_to_url() {
    let mut w = WizardState::default();
    w.step = WizardStep::Credentials;
    w.submit_credentials(true, false, false);
    assert_eq!(w.step, WizardStep::ServerUrl);
}

#[test]
fn wizard_failed_test_can_retry() {
    let mut w = WizardState::default();
    w.step = WizardStep::TestConnection;
    w.test_error = "refused".to_string();
    w.connection_test_buttons(false, false, true);
    assert!(w.testing);
    assert!(w.test_error.is_empty());
}

#[test]
fn queue_scrolls_once_per_track_change() {
    let mut s = fresh_state();
    s.play_queue = vec![track("a"), track("b")];
    s.current_track_index = Some(1);
    assert!(take_queue_scroll(&mut s));
    assert_eq!(s.last_scrolled_track, Some(1));
    assert!(!take_queue_scroll(&mut s));
    s.current_track_index = Some(0);
    assert!(take_queue_scroll(&mut s));
}
