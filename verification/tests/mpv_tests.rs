use navidrome_htpc::config::{AudioConfig, ReplayGainMode};
use navidrome_htpc::mpv::events::{
    engine_check, handle_mpv_event, handle_mpv_message, mark_crashed, EngineHealth, MpvMessage, MpvState,
};
use navidrome_htpc::mpv::ipc::{
    bare_command, get_property, initial_observations, launch_args, loadfile, observe_property, process_command,
    set_property, socket_path, IpcValue, MpvCommand,
};

fn texts(v: &[IpcValue]) -> Vec<String> {
    v.iter()
        .map(|x| match x {
            IpcValue::Text(s) => s.clone(),
            IpcValue::Flag(b) => format!("flag:{}", b),
            IpcValue::Integer(n) => format!("int:{}", n),
            IpcValue::Seconds(ms) => format!("ms:{}", ms),
        })
        .collect()
}

fn msg(event: Option<&str>, name: Option<&str>, ms: Option<u64>, flag: Option<bool>) -> MpvMessage {
    MpvMessage {
        event: event.map(|s| s.to_string()),
        name: name.map(|s| s.to_string()),
        data_ms: ms,
        data_flag: flag,
    }
}

#[test]
fn start_and_end_file_events() {
    let mut s = MpvState::default();
    handle_mpv_event("start-file", &msg(None, None, None, None), &mut s);
    assert!(s.is_playing);
    assert!(!s.is_paused);
    handle_mpv_event("end-file", &msg(None, None, None, None), &mut s);
    assert!(!s.is_playing);
}

#[test]
fn property_changes_update_time_duration_pause() {
    let mut s = MpvState::default();
    handle_mpv_message(&msg(Some("property-change"), Some("time-pos"), Some(12500), None), &mut s);
    assert_eq!(s.current_time_ms, 12500);
    handle_mpv_message(&msg(Some("property-change"), Some("duration"), Some(240000), None), &mut s);
    assert_eq!(s.total_duration_ms, 240000);
    handle_mpv_message(&msg(Some("property-change"), Some("pause"), None, Some(true)), &mut s);
    assert!(s.is_paused);
    handle_mpv_message(&msg(Some("property-change"), Some("time-pos"), None, None), &mut s);
    assert_eq!(s.current_time_ms, 12500);
}

#[test]
fn replies_without_event_change_nothing() {
    let mut s = MpvState::default();
    let before = s;
    handle_mpv_message(&msg(None, Some("time-pos"), Some(1), None), &mut s);
    assert_eq!(s, before);
    handle_mpv_message(&msg(Some("idle"), None, None, None), &mut s);
    assert_eq!(s, before);
}

#[test]
fn crash_is_recorded() {
    let mut s = MpvState::default();
    mark_crashed(&mut s);
    assert!(s.crashed);
}

#[test]
fn ipc_command_shapes() {
    assert_eq!(texts(&loadfile("http://x/s", "replace")), vec!["loadfile", "http://x/s", "replace"]);
    assert_eq!(texts(&set_property("pause", IpcValue::Flag(true))), vec!["set_property", "pause", "flag:true"]);
    assert_eq!(texts(&get_property("volume")), vec!["get_property", "volume"]);
    assert_eq!(texts(&observe_property(2, "duration")), vec!["observe_property", "int:2", "duration"]);
    assert_eq!(texts(&bare_command("stop")), vec!["stop"]);
    let obs = initial_observations();
    assert_eq!(obs.len(), 3);
    assert_eq!(texts(&obs[0]), vec!["observe_property", "int:1", "time-pos"]);
    assert_eq!(texts(&obs[2]), vec!["observe_property", "int:3", "pause"]);
}

#[test]
fn commands_become_ipc_messages() {
    let mut s = MpvState::default();
    let step = process_command(&MpvCommand::Play { url: "u".to_string() }, &mut s);
    assert_eq!(texts(&step.send.unwrap()), vec!["loadfile", "u", "replace"]);
    assert!(!step.quit);
    let step = process_command(&MpvCommand::Append { url: "v".to_string() }, &mut s);
    assert_eq!(texts(&step.send.unwrap()), vec!["loadfile", "v", "append"]);
    let step = process_command(&MpvCommand::Seek { position_ms: 90000 }, &mut s);
    assert_eq!(texts(&step.send.unwrap()), vec!["set_property", "time-pos", "ms:90000"]);
    let step = process_command(&MpvCommand::SetVolume { percent: 80 }, &mut s);
    assert_eq!(texts(&step.send.unwrap()), vec!["set_property", "volume", "int:80"]);
    let step = process_command(&MpvCommand::Next, &mut s);
    assert!(step.send.is_none());
    let step = process_command(&MpvCommand::Quit, &mut s);
    assert!(step.quit);
    assert_eq!(texts(&step.send.unwrap()), vec!["quit"]);
}

#[test]
fn toggle_pause_uses_known_pause_flag() {
    let mut s = MpvState { is_paused: true, ..MpvState::default() };
    let step = process_command(&MpvCommand::TogglePause, &mut s);
    assert_eq!(texts(&step.send.unwrap()), vec!["set_property", "pause", "flag:false"]);
}

#[test]
fn stop_resets_playback_state() {
    let mut s = MpvState {
        is_playing: true,
        current_time_ms: 5,
        total_duration_ms: 9,
        current_track_index: Some(2),
        volume_percent: 50,
        ..MpvState::default()
    };
    let step = process_command(&MpvCommand::Stop, &mut s);
    assert_eq!(texts(&step.send.unwrap()), vec!["stop"]);
    assert!(!s.is_playing);
    assert_eq!(s.current_time_ms, 0);
    assert_eq!(s.total_duration_ms, 0);
    assert!(s.current_track_index.is_none());
    assert_eq!(s.volume_percent, 50);
}

#[test]
fn socket_path_carries_pid() {
    assert_eq!(socket_path(4242), "/tmp/navidrome-htpc-mpv-4242.sock");
    assert_eq!(socket_path(0), "/tmp/navidrome-htpc-mpv-0.sock");
}

#[test]
fn launch_args_follow_audio_config() {
    let cfg = AudioConfig {
        device: "alsa/hw:0".to_string(),
        exclusive: true,
        gapless: false,
        replaygain: ReplayGainMode::Track,
        max_bitrate: 0,
    };
    let args = launch_args(&cfg, "/tmp/s.sock");
    assert_eq!(
        args,
        vec![
            "--idle",
            "--input-ipc-server=/tmp/s.sock",
            "--gapless-audio=no",
            "--audio-exclusive=yes",
            "--audio-device=alsa/hw:0",
            "--replaygain=track",
            "--no-video",
            "--terminal=no",
        ]
    );
    let off = AudioConfig { replaygain: ReplayGainMode::Off, ..cfg };
    assert_eq!(launch_args(&off, "s")[5], "--replaygain=no");
}

#[test]
fn engine_health_decides_stop_and_crash() {
    let mut s = MpvState::default();
    assert!(!engine_check(EngineHealth::Running, &mut s));
    assert!(!s.crashed);
    assert!(engine_check(EngineHealth::StatusUnknown, &mut s));
    assert!(!s.crashed);
    assert!(engine_check(EngineHealth::SocketClosed, &mut s));
    assert!(s.crashed);
    let mut t = MpvState::default();
    assert!(engine_check(EngineHealth::ProcessExited, &mut t));
    assert!(t.crashed);
}
