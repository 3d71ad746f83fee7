use navidrome_htpc::config::Config;
use navidrome_htpc::focus::{handle_arrow, handle_key, FocusAction, Key};
use navidrome_htpc::state::{AppState, FocusState, FocusZone, TransportAction, View};
use navidrome_htpc::subsonic::models::Track;
use navidrome_htpc::ui::transport::{handle_transport_click, settle_intent_latch, settle_transport_focus, shows_pause_icon};

fn fresh_state() -> AppState {
    AppState::new(Config::with_cache_dir("/tmp/cache".to_string()), true)
}

fn track(id: &str) -> Track {
    Track { id: id.to_string(), title: format!("Song {}", id), ..Default::default() }
}

#[test]
fn new_state_starts_on_home_with_defaults() {
    let s = fresh_state();
    assert_eq!(s.view_stack, vec![View::Home]);
    assert_eq!(s.current_view(), View::Home);
    assert_eq!(s.volume_percent, 75);
    assert!(!s.is_playing);
    assert!(s.current_track_index.is_none());
    assert_eq!(s.focus, FocusState::default());
    assert_eq!(s.focus.zone, FocusZone::Content);
    assert_eq!(s.focus.transport_index, 1);
}

#[test]
fn pop_undoes_push() {
    let mut s = fresh_state();
    s.push_view(View::AlbumList);
    s.push_view(View::AlbumDetail);
    assert_eq!(s.current_view(), View::AlbumDetail);
    s.pop_view();
    assert_eq!(s.view_stack, vec![View::Home, View::AlbumList]);
    s.pop_view();
    assert_eq!(s.view_stack, vec![View::Home]);
}

#[test]
fn pop_keeps_root_view() {
    let mut s = fresh_state();
    s.pop_view();
    s.pop_view();
    assert_eq!(s.view_stack, vec![View::Home]);
}

#[test]
fn handle_key_maps_escape_and_enter() {
    let s = fresh_state();
    let mut f = FocusState::default();
    assert_eq!(handle_key(&mut f, Key::Escape, &s), FocusAction::Escape);
    assert_eq!(handle_key(&mut f, Key::Enter, &s), FocusAction::Activate);
    assert_eq!(handle_key(&mut f, Key::Space, &s), FocusAction::NoAction);
    assert_eq!(f, FocusState::default());
}

#[test]
fn arrow_down_from_last_row_reaches_transport() {
    let mut f = FocusState::default();
    handle_arrow(&mut f, Key::ArrowDown, 3, 6);
    assert_eq!(f.content_row, 1);
    handle_arrow(&mut f, Key::ArrowDown, 3, 6);
    assert_eq!(f.content_row, 2);
    handle_arrow(&mut f, Key::ArrowDown, 3, 6);
    assert_eq!(f.zone, FocusZone::Transport);
    assert_eq!(f.transport_index, 0);
}

#[test]
fn arrow_up_from_transport_returns_to_content() {
    let mut f = FocusState { zone: FocusZone::Transport, ..FocusState::default() };
    handle_arrow(&mut f, Key::ArrowUp, 3, 6);
    assert_eq!(f.zone, FocusZone::Content);
}

#[test]
fn arrow_left_from_first_column_reaches_menu_and_back() {
    let mut f = FocusState::default();
    handle_arrow(&mut f, Key::ArrowLeft, 3, 6);
    assert_eq!(f.zone, FocusZone::Menu);
    handle_arrow(&mut f, Key::ArrowRight, 3, 6);
    assert_eq!(f.zone, FocusZone::Content);
    assert_eq!(f.content_col, 0);
}

#[test]
fn expanded_menu_moves_within_three_items() {
    let mut f = FocusState { zone: FocusZone::Menu, menu_expanded: true, ..FocusState::default() };
    handle_arrow(&mut f, Key::ArrowDown, 1, 6);
    handle_arrow(&mut f, Key::ArrowDown, 1, 6);
    assert_eq!(f.menu_index, 2);
    assert_eq!(f.zone, FocusZone::Menu);
    handle_arrow(&mut f, Key::ArrowDown, 1, 6);
    assert_eq!(f.zone, FocusZone::Transport);
    let mut g = FocusState { zone: FocusZone::Menu, menu_expanded: true, ..FocusState::default() };
    assert_eq!(handle_arrow(&mut g, Key::ArrowRight, 1, 6), FocusAction::Activate);
}

#[test]
fn transport_arrows_stay_within_controls() {
    let mut f = FocusState { zone: FocusZone::Transport, transport_index: 0, ..FocusState::default() };
    handle_arrow(&mut f, Key::ArrowLeft, 1, 6);
    assert_eq!(f.transport_index, 0);
    for _ in 0..10 {
        handle_arrow(&mut f, Key::ArrowRight, 1, 6);
    }
    assert_eq!(f.transport_index, 5);
}

#[test]
fn header_zone_ignores_arrows() {
    let mut f = FocusState { zone: FocusZone::Header, header_index: 1, ..FocusState::default() };
    let before = f;
    handle_arrow(&mut f, Key::ArrowDown, 3, 6);
    assert_eq!(f, before);
}

#[test]
fn next_then_previous_returns_to_same_track() {
    let mut s = fresh_state();
    s.play_queue = vec![track("a"), track("b"), track("c")];
    s.current_track_index = Some(1);
    handle_transport_click(3, &mut s);
    assert_eq!(s.current_track_index, Some(2));
    assert_eq!(s.pending_transport_action, Some(TransportAction::Next));
    handle_transport_click(0, &mut s);
    assert_eq!(s.current_track_index, Some(1));
    assert_eq!(s.pending_transport_action, Some(TransportAction::Previous));
}

#[test]
fn next_at_end_of_queue_does_nothing() {
    let mut s = fresh_state();
    s.play_queue = vec![track("a"), track("b")];
    s.current_track_index = Some(1);
    handle_transport_click(3, &mut s);
    assert_eq!(s.current_track_index, Some(1));
    assert!(s.pending_transport_action.is_none());
}

#[test]
fn play_pause_twice_restores_state() {
    let mut s = fresh_state();
    handle_transport_click(1, &mut s);
    assert!(s.is_playing);
    assert_eq!(s.pending_transport_action, Some(TransportAction::Play));
    assert_eq!(s.intent_frames_remaining, 30);
    handle_transport_click(1, &mut s);
    assert!(!s.is_playing);
    assert_eq!(s.intended_playing, Some(false));
    assert_eq!(s.pending_transport_action, Some(TransportAction::Pause));
}

#[test]
fn stop_unloads_track_and_remembers_it() {
    let mut s = fresh_state();
    s.play_queue = vec![track("a")];
    s.current_track_index = Some(0);
    s.is_playing = true;
    s.current_time_ms = 5000;
    handle_transport_click(2, &mut s);
    assert!(s.current_track_index.is_none());
    assert_eq!(s.last_played_track_index, Some(0));
    assert!(!s.is_playing);
    assert_eq!(s.current_time_ms, 0);
    assert_eq!(s.pending_transport_action, Some(TransportAction::Stop));
}

#[test]
fn pause_icon_follows_latched_intent() {
    let mut s = fresh_state();
    s.is_playing = true;
    assert!(shows_pause_icon(&s));
    s.intended_playing = Some(false);
    assert!(!shows_pause_icon(&s));
}

#[test]
fn transport_focus_settles_without_track() {
    let mut s = fresh_state();
    s.focus.zone = FocusZone::Transport;
    settle_transport_focus(&mut s);
    assert_eq!(s.focus.zone, FocusZone::Content);
    let mut t = fresh_state();
    t.focus.zone = FocusZone::Transport;
    t.current_track_index = Some(0);
    settle_transport_focus(&mut t);
    assert_eq!(t.focus.zone, FocusZone::Transport);
}

#[test]
fn intent_latch_clears_when_engine_agrees() {
    let mut s = fresh_state();
    s.play_queue = vec![track("a")];
    s.current_track_index = Some(0);
    handle_transport_click(1, &mut s);
    assert_eq!(s.intended_playing, Some(true));
    s.is_playing = false;
    settle_intent_latch(&mut s);
    assert_eq!(s.intended_playing, Some(true));
    assert_eq!(s.intent_frames_remaining, 29);
    s.is_playing = true;
    settle_intent_latch(&mut s);
    assert!(s.intended_playing.is_none());
    assert_eq!(s.intent_frames_remaining, 0);
}

#[test]
fn intent_latch_runs_out_of_frames() {
    let mut s = fresh_state();
    s.play_queue = vec![track("a")];
    s.current_track_index = Some(0);
    s.is_playing = true;
    handle_transport_click(1, &mut s);
    assert_eq!(s.intended_playing, Some(false));
    s.is_playing = true;
    let mut frames = 0;
    while s.intended_playing.is_some() {
        settle_intent_latch(&mut s);
        frames += 1;
    }
    assert_eq!(frames, 30);
}

#[test]
fn play_intent_without_track_is_dropped() {
    let mut s = fresh_state();
    handle_transport_click(1, &mut s);
    s.is_playing = false;
    settle_intent_latch(&mut s);
    assert!(s.intended_playing.is_none());
}
