use vstd::prelude::*;
use crate::config::{AudioConfig, ReplayGainMode};
use crate::mpv::events::MpvState;
use crate::text::{decimal, decimal_string, concat3};

verus! {

/// A command for the mpv controller thread. Seek positions are in
/// milliseconds, the volume in percent.
#[derive(Debug)]
pub enum MpvCommand {
    Play { url: String },
    Append { url: String },
    Pause,
    Resume,
    TogglePause,
    Stop,
    Seek { position_ms: u64 },
    SetVolume { percent: u32 },
    Next,
    Previous,
    Quit,
}

/// One argument of an mpv JSON-IPC command.
#[derive(Debug)]
pub enum IpcValue {
    Text(String),
    Flag(bool),
    Integer(u64),
    /// A time in milliseconds, sent to mpv as a number of seconds.
    Seconds(u64),
}

/// The meaning of an IPC argument.
pub enum IpcArg {
    Text(Seq<char>),
    Flag(bool),
    Integer(u64),
    Seconds(u64),
}

pub open spec fn arg_of(v: IpcValue) -> IpcArg {
    match v {
        IpcValue::Text(s) => IpcArg::Text(s@),
        IpcValue::Flag(b) => IpcArg::Flag(b),
        IpcValue::Integer(n) => IpcArg::Integer(n),
        IpcValue::Seconds(ms) => IpcArg::Seconds(ms),
    }
}

/// The meaning of a whole IPC command.
pub open spec fn args_of(v: Seq<IpcValue>) -> Seq<IpcArg> {
    v.map_values(|x: IpcValue| arg_of(x))
}

fn text(s: &str) -> (r: IpcValue)
    ensures
        arg_of(r) == IpcArg::Text(s@),
{
    IpcValue::Text(String::from_str(s))
}

/// `["loadfile", url, mode]`.
pub fn loadfile(url: &str, mode: &str) -> (r: Vec<IpcValue>)
    ensures
        args_of(r@) == seq![IpcArg::Text("loadfile"@), IpcArg::Text(url@), IpcArg::Text(mode@)],
{
    let mut r: Vec<IpcValue> = Vec::new();
    r.push(text("loadfile"));
    r.push(text(url));
    r.push(text(mode));
    assert(args_of(r@) =~= seq![IpcArg::Text("loadfile"@), IpcArg::Text(url@), IpcArg::Text(mode@)]);
    r
}

/// `["set_property", name, value]`.
pub fn set_property(name: &str, value: IpcValue) -> (r: Vec<IpcValue>)
    ensures
        args_of(r@) == seq![IpcArg::Text("set_property"@), IpcArg::Text(name@), arg_of(value)],
{
    let ghost v = value;
    let mut r: Vec<IpcValue> = Vec::new();
    r.push(text("set_property"));
    r.push(text(name));
    r.push(value);
    assert(args_of(r@) =~= seq![IpcArg::Text("set_property"@), IpcArg::Text(name@), arg_of(v)]);
    r
}

/// `["get_property", name]`.
pub fn get_property(name: &str) -> (r: Vec<IpcValue>)
    ensures
        args_of(r@) == seq![IpcArg::Text("get_property"@), IpcArg::Text(name@)],
{
    let mut r: Vec<IpcValue> = Vec::new();
    r.push(text("get_property"));
    r.push(text(name));
    assert(args_of(r@) =~= seq![IpcArg::Text("get_property"@), IpcArg::Text(name@)]);
    r
}

/// `["observe_property", id, name]`.
pub fn observe_property(id: u64, name: &str) -> (r: Vec<IpcValue>)
    ensures
        args_of(r@) == seq![IpcArg::Text("observe_property"@), IpcArg::Integer(id), IpcArg::Text(name@)],
{
    let mut r: Vec<IpcValue> = Vec::new();
    r.push(text("observe_property"));
    r.push(IpcValue::Integer(id));
    r.push(text(name));
    assert(args_of(r@) =~= seq![IpcArg::Text("observe_property"@), IpcArg::Integer(id), IpcArg::Text(name@)]);
    r
}

/// A command made of one word, such as `["stop"]`.
pub fn bare_command(word: &str) -> (r: Vec<IpcValue>)
    ensures
        args_of(r@) == seq![IpcArg::Text(word@)],
{
    let mut r: Vec<IpcValue> = Vec::new();
    r.push(text(word));
    assert(args_of(r@) =~= seq![IpcArg::Text(word@)]);
    r
}

/// The properties observed right after connecting: playback position (1),
/// duration (2) and pause flag (3).
pub fn initial_observations() -> (r: Vec<Vec<IpcValue>>)
    ensures
        r@.len() == 3,
        args_of(r@[0]@) == seq![IpcArg::Text("observe_property"@), IpcArg::Integer(1), IpcArg::Text("time-pos"@)],
        args_of(r@[1]@) == seq![IpcArg::Text("observe_property"@), IpcArg::Integer(2), IpcArg::Text("duration"@)],
        args_of(r@[2]@) == seq![IpcArg::Text("observe_property"@), IpcArg::Integer(3), IpcArg::Text("pause"@)],
{
    let mut r: Vec<Vec<IpcValue>> = Vec::new();
    r.push(observe_property(1, "time-pos"));
    r.push(observe_property(2, "duration"));
    r.push(observe_property(3, "pause"));
    r
}

/// What the controller does with one command: the IPC command to send, if
/// any, and whether the controller loop ends.
pub struct MpvStep {
    pub send: Option<Vec<IpcValue>>,
    pub quit: bool,
}

/// The IPC command sent for `cmd` when the engine's pause flag is
/// `paused`: loading a URL (replacing or appending), setting the pause
/// flag, the position or the volume, stopping or quitting. Next and
/// Previous are handled by the application's queue and send nothing.
pub open spec fn ipc_for(cmd: MpvCommand, paused: bool) -> Option<Seq<IpcArg>> {
    match cmd {
        MpvCommand::Play { url } => Some(seq![IpcArg::Text("loadfile"@), IpcArg::Text(url@), IpcArg::Text("replace"@)]),
        MpvCommand::Append { url } => Some(seq![IpcArg::Text("loadfile"@), IpcArg::Text(url@), IpcArg::Text("append"@)]),
        MpvCommand::Pause => Some(seq![IpcArg::Text("set_property"@), IpcArg::Text("pause"@), IpcArg::Flag(true)]),
        MpvCommand::Resume => Some(seq![IpcArg::Text("set_property"@), IpcArg::Text("pause"@), IpcArg::Flag(false)]),
        MpvCommand::TogglePause => Some(seq![IpcArg::Text("set_property"@), IpcArg::Text("pause"@), IpcArg::Flag(!paused)]),
        MpvCommand::Stop => Some(seq![IpcArg::Text("stop"@)]),
        MpvCommand::Seek { position_ms } => Some(seq![IpcArg::Text("set_property"@), IpcArg::Text("time-pos"@), IpcArg::Seconds(position_ms)]),
        MpvCommand::SetVolume { percent } => Some(seq![IpcArg::Text("set_property"@), IpcArg::Text("volume"@), IpcArg::Integer(percent as u64)]),
        MpvCommand::Quit => Some(seq![IpcArg::Text("quit"@)]),
        MpvCommand::Next | MpvCommand::Previous => None,
    }
}

/// Handles one command of the controller loop. Stop also resets the known
/// playback state (not playing, position and duration 0, no track).
pub fn process_command(cmd: &MpvCommand, state: &mut MpvState) -> (r: MpvStep)
    ensures
        match ipc_for(*cmd, old(state).is_paused) {
            Some(args) => r.send matches Some(v) && args_of(v@) == args,
            None => r.send is None,
        },
        r.quit == (*cmd is Quit),
        *final(state) == if *cmd is Stop {
            MpvState {
                is_playing: false,
                current_time_ms: 0,
                total_duration_ms: 0,
                current_track_index: None,
                ..*old(state)
            }
        } else {
            *old(state)
        },
{
    match cmd {
        MpvCommand::Play { url } => MpvStep { send: Some(loadfile(url.as_str(), "replace")), quit: false },
        MpvCommand::Append { url } => MpvStep { send: Some(loadfile(url.as_str(), "append")), quit: false },
        MpvCommand::Pause => MpvStep { send: Some(set_property("pause", IpcValue::Flag(true))), quit: false },
        MpvCommand::Resume => MpvStep { send: Some(set_property("pause", IpcValue::Flag(false))), quit: false },
        MpvCommand::TogglePause => {
            let new_pause = !state.is_paused;
            MpvStep { send: Some(set_property("pause", IpcValue::Flag(new_pause))), quit: false }
        },
        MpvCommand::Stop => {
            state.is_playing = false;
            state.current_time_ms = 0;
            state.total_duration_ms = 0;
            state.current_track_index = None;
            MpvStep { send: Some(bare_command("stop")), quit: false }
        },
        MpvCommand::Seek { position_ms } => MpvStep {
            send: Some(set_property("time-pos", IpcValue::Seconds(*position_ms))),
            quit: false,
        },
        MpvCommand::SetVolume { percent } => MpvStep {
            send: Some(set_property("volume", IpcValue::Integer(*percent as u64))),
            quit: false,
        },
        MpvCommand::Quit => MpvStep { send: Some(bare_command("quit")), quit: true },
        MpvCommand::Next | MpvCommand::Previous => MpvStep { send: None, quit: false },
    }
}

/// The value of mpv's `--replaygain` option.
pub open spec fn replaygain_word(mode: ReplayGainMode) -> Seq<char> {
    match mode {
        ReplayGainMode::Off => "no"@,
        ReplayGainMode::Track => "track"@,
        ReplayGainMode::Album => "album"@,
    }
}

/// `yes` or `no`.
pub open spec fn yes_no(b: bool) -> Seq<char> {
    if b { "yes"@ } else { "no"@ }
}

/// The IPC socket path of the process with id `pid`.
pub open spec fn socket_path_of(pid: u32) -> Seq<char> {
    "/tmp/navidrome-htpc-mpv-"@ + decimal(pid as nat) + ".sock"@
}

/// The IPC socket path of the process with id `pid`.
pub fn socket_path(pid: u32) -> (r: String)
    ensures
        r@ == socket_path_of(pid),
{
    let digits = decimal_string(pid as u64);
    concat3("/tmp/navidrome-htpc-mpv-", digits.as_str(), ".sock")
}

fn replaygain_arg(mode: ReplayGainMode) -> (r: &'static str)
    ensures
        r@ == replaygain_word(mode),
{
    match mode {
        ReplayGainMode::Off => "no",
        ReplayGainMode::Track => "track",
        ReplayGainMode::Album => "album",
    }
}

fn yes_no_arg(b: bool) -> (r: &'static str)
    ensures
        r@ == yes_no(b),
{
    if b { "yes" } else { "no" }
}

/// The command-line arguments mpv is launched with.
pub open spec fn launch_args_of(config: AudioConfig, socket: Seq<char>) -> Seq<Seq<char>> {
    seq![
        "--idle"@,
        "--input-ipc-server="@ + socket,
        "--gapless-audio="@ + yes_no(config.gapless),
        "--audio-exclusive="@ + yes_no(config.exclusive),
        "--audio-device="@ + config.device@,
        "--replaygain="@ + replaygain_word(config.replaygain),
        "--no-video"@,
        "--terminal=no"@,
    ]
}

/// The arguments that start mpv idle, listening on `socket`, with the
/// audio settings of `config`, without video or terminal output.
pub fn launch_args(config: &AudioConfig, socket: &str) -> (r: Vec<String>)
    ensures
        r@.map_values(|s: String| s@) == launch_args_of(*config, socket@),
{
    let mut r: Vec<String> = Vec::new();
    r.push(String::from_str("--idle"));
    r.push(String::from_str("--input-ipc-server=").concat(socket));
    r.push(String::from_str("--gapless-audio=").concat(yes_no_arg(config.gapless)));
    r.push(String::from_str("--audio-exclusive=").concat(yes_no_arg(config.exclusive)));
    r.push(String::from_str("--audio-device=").concat(config.device.as_str()));
    r.push(String::from_str("--replaygain=").concat(replaygain_arg(config.replaygain)));
    r.push(String::from_str("--no-video"));
    r.push(String::from_str("--terminal=no"));
    assert(r@.map_values(|s: String| s@) =~= launch_args_of(*config, socket@));
    r
}

/// Pause and Resume set mpv's `pause` property to opposite values, true
/// and false, whatever the engine reports; toggling while paused sends
/// exactly what Resume sends, and toggling while playing what Pause sends.
pub proof fn lemma_pause_resume_flags(paused: bool)
    ensures
        ipc_for(MpvCommand::Pause, paused) == Some(
            seq![IpcArg::Text("set_property"@), IpcArg::Text("pause"@), IpcArg::Flag(true)],
        ),
        ipc_for(MpvCommand::Resume, paused) == Some(
            seq![IpcArg::Text("set_property"@), IpcArg::Text("pause"@), IpcArg::Flag(false)],
        ),
        ipc_for(MpvCommand::TogglePause, true) == ipc_for(MpvCommand::Resume, paused),
        ipc_for(MpvCommand::TogglePause, false) == ipc_for(MpvCommand::Pause, paused),
        ipc_for(MpvCommand::Pause, paused) != ipc_for(MpvCommand::Resume, paused),
{
}

/// The other commands: Play and Append load the same URL, replacing the
/// current file or appending to mpv's playlist; Seek sets the position and
/// SetVolume the volume to the value given; Stop and Quit send the bare
/// word; Next and Previous send nothing (the application's queue handles
/// them). Only Quit ends the controller loop.
pub proof fn lemma_command_messages(url: String, position_ms: u64, percent: u32, paused: bool)
    ensures
        ipc_for(MpvCommand::Play { url }, paused) == Some(
            seq![IpcArg::Text("loadfile"@), IpcArg::Text(url@), IpcArg::Text("replace"@)],
        ),
        ipc_for(MpvCommand::Append { url }, paused) == Some(
            seq![IpcArg::Text("loadfile"@), IpcArg::Text(url@), IpcArg::Text("append"@)],
        ),
        ipc_for(MpvCommand::Seek { position_ms }, paused) == Some(
            seq![IpcArg::Text("set_property"@), IpcArg::Text("time-pos"@), IpcArg::Seconds(position_ms)],
        ),
        ipc_for(MpvCommand::SetVolume { percent }, paused) == Some(
            seq![IpcArg::Text("set_property"@), IpcArg::Text("volume"@), IpcArg::Integer(percent as u64)],
        ),
        ipc_for(MpvCommand::Stop, paused) == Some(seq![IpcArg::Text("stop"@)]),
        ipc_for(MpvCommand::Quit, paused) == Some(seq![IpcArg::Text("quit"@)]),
        ipc_for(MpvCommand::Next, paused) is None,
        ipc_for(MpvCommand::Previous, paused) is None,
{
}

} // verus!
