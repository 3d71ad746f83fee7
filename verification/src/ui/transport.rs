use vstd::prelude::*;
use crate::state::{AppState, FocusZone, TransportAction};

verus! {

/// How many frames the play/pause intent latch survives before being
/// force-cleared if the audio engine never reports a matching state.
pub const INTENT_LATCH_FRAMES: u16 = 30;

/// The transport buttons, by index.
pub open spec fn button_prev() -> usize { 0 }
pub open spec fn button_play_pause() -> usize { 1 }
pub open spec fn button_stop() -> usize { 2 }
pub open spec fn button_next() -> usize { 3 }

/// The state after clicking transport button `idx`:
/// 0 = Previous, 1 = Play/Pause, 2 = Stop, 3 = Next; other indices do
/// nothing.
pub open spec fn transport_click(s: AppState, idx: usize) -> AppState {
    if idx == 0 {
        match s.current_track_index {
            Some(t) => if t > 0 {
                AppState {
                    current_track_index: Some((t - 1) as usize),
                    current_time_ms: 0,
                    total_duration_ms: 0,
                    is_playing: true,
                    pending_transport_action: Some(TransportAction::Previous),
                    ..s
                }
            } else {
                s
            },
            None => s,
        }
    } else if idx == 1 {
        AppState {
            is_playing: !s.is_playing,
            pending_transport_action: Some(
                if s.is_playing { TransportAction::Pause } else { TransportAction::Play },
            ),
            intended_playing: Some(!s.is_playing),
            intent_frames_remaining: INTENT_LATCH_FRAMES,
            ..s
        }
    } else if idx == 2 {
        AppState {
            last_played_track_index: s.current_track_index,
            is_playing: false,
            current_track_index: None,
            current_time_ms: 0,
            total_duration_ms: 0,
            pending_transport_action: Some(TransportAction::Stop),
            intended_playing: None,
            intent_frames_remaining: 0,
            ..s
        }
    } else if idx == 3 {
        match s.current_track_index {
            Some(t) => if t + 1 < s.play_queue@.len() {
                AppState {
                    current_track_index: Some((t + 1) as usize),
                    current_time_ms: 0,
                    total_duration_ms: 0,
                    is_playing: true,
                    pending_transport_action: Some(TransportAction::Next),
                    ..s
                }
            } else {
                s
            },
            None => s,
        }
    } else {
        s
    }
}

/// Applies a click on transport button `idx`.
pub fn handle_transport_click(idx: usize, state: &mut AppState)
    ensures
        *final(state) == transport_click(*old(state), idx),
{
    match idx {
        0 => {
            // Previous: step back one track in the queue
            if let Some(track_idx) = state.current_track_index {
                if track_idx > 0 {
                    state.current_track_index = Some(track_idx - 1);
                    state.current_time_ms = 0;
                    state.total_duration_ms = 0;
                    state.is_playing = true;
                    state.pending_transport_action = Some(TransportAction::Previous);
                }
            }
        },
        1 => {
            // Play/Pause toggle
            if state.is_playing {
                state.is_playing = false;
                state.pending_transport_action = Some(TransportAction::Pause);
            } else {
                state.is_playing = true;
                state.pending_transport_action = Some(TransportAction::Play);
            }
            // Latch the requested state so the icon shows the intent while
            // the audio engine catches up.
            state.intended_playing = Some(state.is_playing);
            state.intent_frames_remaining = INTENT_LATCH_FRAMES;
        },
        2 => {
            // Stop: remember the track so Play can restart it.
            state.last_played_track_index = state.current_track_index;
            state.is_playing = false;
            state.current_track_index = None;
            state.current_time_ms = 0;
            state.total_duration_ms = 0;
            state.pending_transport_action = Some(TransportAction::Stop);
            state.intended_playing = None;
            state.intent_frames_remaining = 0;
        },
        3 => {
            // Next: step forward one track in the queue
            if let Some(track_idx) = state.current_track_index {
                if track_idx < state.play_queue.len() && state.play_queue.len() - track_idx > 1 {
                    state.current_track_index = Some(track_idx + 1);
                    state.current_time_ms = 0;
                    state.total_duration_ms = 0;
                    state.is_playing = true;
                    state.pending_transport_action = Some(TransportAction::Next);
                }
            }
        },
        _ => {},
    }
}

/// Whether the play/pause button shows the pause icon: the latched intent
/// when there is one, else the reported playing state.
pub fn shows_pause_icon(state: &AppState) -> (r: bool)
    ensures
        r == match state.intended_playing {
            Some(b) => b,
            None => state.is_playing,
        },
{
    match state.intended_playing {
        Some(b) => b,
        None => state.is_playing,
    }
}

/// The transport buttons are shown while a track is current or the queue
/// holds tracks.
pub open spec fn transport_shown(s: AppState) -> bool {
    s.current_track_index is Some || s.play_queue@.len() > 0
}

/// Whether the transport buttons are shown.
pub fn transport_visible(state: &AppState) -> (r: bool)
    ensures
        r == transport_shown(*state),
{
    state.current_track_index.is_some() || state.play_queue.len() > 0
}

/// With no transport buttons shown (no current track and an empty queue),
/// a focus left on the transport bar goes back to the content area.
pub fn settle_transport_focus(state: &mut AppState)
    ensures
        !transport_shown(*old(state)) && old(state).focus.zone == FocusZone::Transport
            ==> final(state).focus.zone == FocusZone::Content,
        *final(state) == (AppState {
            focus: crate::state::FocusState { zone: final(state).focus.zone, ..old(state).focus },
            ..*old(state)
        }),
        !(!transport_shown(*old(state)) && old(state).focus.zone == FocusZone::Transport)
            ==> *final(state) == *old(state),
{
    if !transport_visible(state) && state.focus.zone == FocusZone::Transport {
        state.focus.zone = FocusZone::Content;
    }
}

/// The play/pause latch after one more frame: it is dropped once the
/// engine's reported state matches the intent, once a play intent meets a
/// stopped or empty player (no current track), or when its frame budget
/// runs out; otherwise one frame of the budget is used up.
pub open spec fn latch_settled(s: AppState) -> (Option<bool>, u16) {
    match s.intended_playing {
        None => (None, s.intent_frames_remaining),
        Some(b) => if b == s.is_playing || (b && s.current_track_index is None) || s.intent_frames_remaining <= 1 {
            (None, 0u16)
        } else {
            (Some(b), (s.intent_frames_remaining - 1) as u16)
        },
    }
}

/// Settles the play/pause latch for this frame (see `latch_settled`); run
/// after the engine's state has been taken over.
pub fn settle_intent_latch(state: &mut AppState)
    ensures
        (final(state).intended_playing, final(state).intent_frames_remaining) == latch_settled(*old(state)),
        final(state).intended_playing is Some ==> 1 <= final(state).intent_frames_remaining
            < old(state).intent_frames_remaining,
        *final(state) == (AppState {
            intended_playing: final(state).intended_playing,
            intent_frames_remaining: final(state).intent_frames_remaining,
            ..*old(state)
        }),
{
    if let Some(b) = state.intended_playing {
        if b == state.is_playing || (b && state.current_track_index.is_none()) || state.intent_frames_remaining <= 1 {
            state.intended_playing = None;
            state.intent_frames_remaining = 0;
        } else {
            state.intent_frames_remaining = state.intent_frames_remaining - 1;
        }
    }
}

} // verus!
