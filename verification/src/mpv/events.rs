use vstd::prelude::*;
use crate::text::same_text;

verus! {

/// Events reported by mpv; times are in milliseconds.
#[derive(Debug, Clone)]
pub enum MpvEvent {
    StartFile,
    EndFile { reason: String },
    TimePos(u64),
    Duration(u64),
    PauseChanged(bool),
    TrackChanged,
}

/// What the application knows of the audio engine. Times are in
/// milliseconds, the volume in percent.
#[derive(Debug, Clone, Copy, PartialEq, Eq, Structural)]
pub struct MpvState {
    pub is_playing: bool,
    pub is_paused: bool,
    pub current_time_ms: u64,
    pub total_duration_ms: u64,
    pub current_track_index: Option<usize>,
    pub volume_percent: u32,
    pub crashed: bool,
}

impl Default for MpvState {
    fn default() -> (r: Self)
        ensures
            r == (MpvState {
                is_playing: false,
                is_paused: false,
                current_time_ms: 0,
                total_duration_ms: 0,
                current_track_index: None,
                volume_percent: 0,
                crashed: false,
            }),
    {
        MpvState {
            is_playing: false,
            is_paused: false,
            current_time_ms: 0,
            total_duration_ms: 0,
            current_track_index: None,
            volume_percent: 0,
            crashed: false,
        }
    }
}

/// The fields of one JSON message from mpv that are read: the `event`
/// name, the property `name`, and the `data` value when it is a number
/// (as milliseconds) or a boolean.
#[derive(Debug, Clone)]
pub struct MpvMessage {
    pub event: Option<String>,
    pub name: Option<String>,
    pub data_ms: Option<u64>,
    pub data_flag: Option<bool>,
}

/// The property name of a message; the empty text when there is none.
pub open spec fn message_name(m: MpvMessage) -> Seq<char> {
    match m.name {
        Some(n) => n@,
        None => Seq::empty(),
    }
}

/// The state after mpv reports `event` with message `m`: a file start
/// means playing and not paused, a file end means not playing, and a
/// property change of the playback position, the duration or the pause
/// flag updates that value when the data has the right type. Anything
/// else changes nothing.
pub open spec fn after_event(event: Seq<char>, m: MpvMessage, s: MpvState) -> MpvState {
    if event == "start-file"@ {
        MpvState { is_playing: true, is_paused: false, ..s }
    } else if event == "end-file"@ {
        MpvState { is_playing: false, ..s }
    } else if event == "property-change"@ {
        let name = message_name(m);
        if name == "time-pos"@ {
            match m.data_ms {
                Some(t) => MpvState { current_time_ms: t, ..s },
                None => s,
            }
        } else if name == "duration"@ {
            match m.data_ms {
                Some(d) => MpvState { total_duration_ms: d, ..s },
                None => s,
            }
        } else if name == "pause"@ {
            match m.data_flag {
                Some(p) => MpvState { is_paused: p, ..s },
                None => s,
            }
        } else {
            s
        }
    } else {
        s
    }
}

/// Applies one event reported by mpv.
pub fn handle_mpv_event(event: &str, msg: &MpvMessage, state: &mut MpvState)
    ensures
        *final(state) == after_event(event@, *msg, *old(state)),
{
    if same_text(event, "start-file") {
        state.is_playing = true;
        state.is_paused = false;
    } else if same_text(event, "end-file") {
        // Track ended: the application advances the queue
        state.is_playing = false;
    } else if same_text(event, "property-change") {
        let name: &str = match &msg.name {
            Some(n) => n.as_str(),
            None => "",
        };
        proof {
            reveal_strlit("");
            assert(name@ == message_name(*msg));
        }
        if same_text(name, "time-pos") {
            if let Some(t) = msg.data_ms {
                state.current_time_ms = t;
            }
        } else if same_text(name, "duration") {
            if let Some(d) = msg.data_ms {
                state.total_duration_ms = d;
            }
        } else if same_text(name, "pause") {
            if let Some(p) = msg.data_flag {
                state.is_paused = p;
            }
        }
    }
}

/// Applies one message from mpv; messages without an event name (replies
/// to commands) change nothing.
pub fn handle_mpv_message(msg: &MpvMessage, state: &mut MpvState)
    ensures
        *final(state) == match msg.event {
            Some(e) => after_event(e@, *msg, *old(state)),
            None => *old(state),
        },
{
    if let Some(e) = &msg.event {
        handle_mpv_event(e.as_str(), msg, state);
    }
}

/// The engine has gone away (socket closed or process exited).
pub fn mark_crashed(state: &mut MpvState)
    ensures
        *final(state) == (MpvState { crashed: true, ..*old(state) }),
{
    state.crashed = true;
}

/// What the controller loop learned of the engine this turn.
#[derive(Debug, Clone, Copy, PartialEq, Eq, Structural)]
pub enum EngineHealth {
    /// The socket and the process are alive.
    Running,
    /// The IPC socket was closed or failed.
    SocketClosed,
    /// The mpv process has exited.
    ProcessExited,
    /// The process's status could not be read.
    StatusUnknown,
}

/// Whether the controller loop stops, and marks the engine crashed, for
/// `health`: a closed socket or an exited process is a crash and ends the
/// loop; an unreadable process status ends the loop without marking a
/// crash; a running engine goes on.
pub fn engine_check(health: EngineHealth, state: &mut MpvState) -> (stop: bool)
    ensures
        stop == (health != EngineHealth::Running),
        *final(state) == if health == EngineHealth::SocketClosed || health == EngineHealth::ProcessExited {
            MpvState { crashed: true, ..*old(state) }
        } else {
            *old(state)
        },
{
    match health {
        EngineHealth::Running => false,
        EngineHealth::SocketClosed | EngineHealth::ProcessExited => {
            mark_crashed(state);
            true
        },
        EngineHealth::StatusUnknown => true,
    }
}

} // verus!
