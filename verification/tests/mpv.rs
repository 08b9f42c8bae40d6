//! mpv: versions, commands, replies, connection state.

use ferrosonic::audio::mpv::{
    ChildLook, MpvController, MpvResponse, Received, SocketWait, StartDecision,
};
use ferrosonic::audio::mpv_protocol::{
    classify_event, frame_command, mpv_allow_clip, parse_mpv_version, MpvArg, MpvCommand, MpvEvent,
    MpvEventKind, MpvProperty, MpvValue,
};
use ferrosonic::audio::AudioError;
use ferrosonic::binary64::Binary64;
use ferrosonic::config::{MacosAudioMode, ReplayGainMode};

fn d(v: f64) -> Binary64 {
    Binary64::from_bits(v.to_bits())
}

fn text(s: &str) -> MpvArg {
    MpvArg::Text(s.to_string())
}

fn number(n: u64) -> Option<MpvValue> {
    Some(MpvValue::Number {
        unsigned: Some(n),
        signed: i64::try_from(n).ok(),
        double: Some(d(n as f64)),
    })
}

fn controller() -> MpvController {
    MpvController::with_socket_path("/tmp/x.sock".to_string())
}

fn cmd(args: Vec<MpvArg>) -> MpvCommand {
    MpvCommand { args }
}

#[test]
fn parses_standard_property_string() {
    assert_eq!(parse_mpv_version("mpv 0.41.0"), Some((0, 41)));
    assert_eq!(parse_mpv_version("mpv 0.35.1"), Some((0, 35)));
}

#[test]
fn parses_dashed_and_suffixed_forms() {
    assert_eq!(parse_mpv_version("mpv-0.38.0-dirty"), Some((0, 38)));
    assert_eq!(parse_mpv_version("0.37.0"), Some((0, 37)));
}

#[test]
fn unparseable_is_none() {
    assert_eq!(parse_mpv_version(""), None);
    assert_eq!(parse_mpv_version("mpv"), None);
    assert_eq!(parse_mpv_version("v0"), None);
}

#[test]
fn odd_versions_are_none() {
    assert_eq!(parse_mpv_version("mpv 1."), None);
    assert_eq!(parse_mpv_version("mpv 70000.1"), None);
    assert_eq!(parse_mpv_version("mpv 2.65535"), Some((2, 65535)));
}

#[test]
fn supports_index_gates_at_0_38() {
    let mut c = controller();
    assert!(
        c.supports_loadfile_index(),
        "unknown version assumed capable"
    );
    c.version_probed(Ok(Some(MpvValue::Text("mpv 0.37.0".to_string()))));
    assert_eq!(c.mpv_version(), Some((0, 37)));
    assert!(!c.supports_loadfile_index());
    c.version_probed(Ok(Some(MpvValue::Text("mpv 0.38.0".to_string()))));
    assert!(c.supports_loadfile_index());
    c.version_probed(Ok(Some(MpvValue::Text("mpv 0.41.0".to_string()))));
    assert!(c.supports_loadfile_index());
    c.version_probed(Err(AudioError::MpvNotRunning));
    assert_eq!(c.mpv_version(), None);
    c.version_probed(Ok(Some(MpvValue::Flag(true))));
    assert_eq!(c.mpv_version(), None);
}

#[test]
fn nonfinite_startup_gain_retains_last_finite_value() {
    let mut mpv = MpvController::with_socket_path(String::new());
    mpv.set_replaygain_startup(ReplayGainMode::Track, d(2.0), false);
    for value in [f64::NAN, f64::INFINITY, f64::NEG_INFINITY] {
        mpv.set_replaygain_startup(ReplayGainMode::Track, d(value), false);
        assert!((f64::from_bits(mpv.replaygain_preamp().to_bits()) - 2.0).abs() < f64::EPSILON);
    }
}

#[test]
fn startup_gain_is_clamped() {
    let mut mpv = controller();
    for (given, kept) in [
        (99.0, 15.0),
        (-99.0, -15.0),
        (15.0, 15.0),
        (-15.0, -15.0),
        (-3.5, -3.5),
        (15.000001, 15.0),
    ] {
        mpv.set_replaygain_startup(ReplayGainMode::Album, d(given), true);
        assert_eq!(mpv.replaygain_preamp(), d(kept));
    }
}

#[test]
fn mpv_allow_clip_is_the_inverse_of_prevent_clipping() {
    assert!(
        !mpv_allow_clip(true),
        "prevent_clipping=true must send mpv \"don't allow clip\" (false)"
    );
    assert!(
        mpv_allow_clip(false),
        "prevent_clipping=false must send mpv \"allow clip\" (true)"
    );
}

#[test]
fn startup_command_lists_every_argument() {
    let mut c = controller();
    c.set_replaygain_startup(ReplayGainMode::Track, d(2.0), true);
    let line = c.startup_command("2");
    assert_eq!(line.program, "mpv");
    assert_eq!(
        line.args,
        vec![
            "--idle",
            "--no-video",
            "--no-terminal",
            "--audio-client-name=ferrosonic",
            "--gapless-audio=yes",
            "--prefetch-playlist=yes",
            "--cache=yes",
            "--cache-secs=120",
            "--demuxer-max-bytes=100MiB",
            "--cache-pause-initial=no",
            "--cache-pause=no",
            "--replaygain=track",
            "--replaygain-preamp=2",
            "--replaygain-clip=no",
            "--input-ipc-server=/tmp/x.sock",
        ]
    );
    c.set_macos_audio_mode_startup(MacosAudioMode::Exclusive);
    c.set_replaygain_clip(false);
    let line = c.startup_command("2");
    assert_eq!(line.args[13], "--replaygain-clip=yes");
    assert_eq!(line.args[14], "--audio-exclusive=yes");
    assert_eq!(line.args[15], "--input-ipc-server=/tmp/x.sock");
}

#[test]
fn start_respawns_a_process_without_a_connection() {
    let mut c = controller();
    assert_eq!(c.start(None), StartDecision::Spawn { tear_down: false });
    assert_eq!(
        c.start(Some(ChildLook::Running)),
        StartDecision::Spawn { tear_down: true }
    );
    c.connected();
    assert_eq!(c.start(Some(ChildLook::Running)), StartDecision::AlreadyUp);
    assert_eq!(
        c.start(Some(ChildLook::Exited)),
        StartDecision::Spawn { tear_down: true }
    );
    assert_eq!(
        c.start(Some(ChildLook::Unknown)),
        StartDecision::Spawn { tear_down: true }
    );
    assert_eq!(c.start(None), StartDecision::Spawn { tear_down: true });
}

#[test]
fn socket_is_waited_for_a_bounded_time() {
    assert_eq!(MpvController::wait_for_socket(0, false), SocketWait::RetryMs(100));
    assert_eq!(MpvController::wait_for_socket(49, true), SocketWait::SettleMs(50));
    assert_eq!(MpvController::wait_for_socket(50, true), SocketWait::GiveUp);
    assert_eq!(
        MpvController::socket_ready(false),
        Err(AudioError::MpvIpc("Socket not created".to_string()))
    );
    assert_eq!(MpvController::socket_ready(true), Ok(()));
    assert_eq!(
        controller().connect_to_existing(false),
        Err(AudioError::MpvIpc("Socket /tmp/x.sock does not exist".to_string()))
    );
}

#[test]
fn fresh_controller_is_not_running() {
    let mut c = controller();
    let v = c.is_running(false, None);
    assert!(!v.alive && !v.reap_child && !v.abort_reader);
    c.connected();
    assert!(c.is_running(false, None).alive, "connected without a process");
    assert!(c.is_running(false, Some(ChildLook::Running)).alive);
    let v = c.is_running(true, Some(ChildLook::Running));
    assert!(!v.alive && v.reap_child && !v.abort_reader);
    assert!(!c.is_running(false, None).alive, "dead state is cleared");
    c.connected();
    let v = c.is_running(false, Some(ChildLook::Exited));
    assert!(!v.alive && v.reap_child && v.abort_reader);
}

#[test]
fn reaping_kills_only_what_has_not_exited() {
    assert!(MpvController::reap_child(ChildLook::Running));
    assert!(MpvController::reap_child(ChildLook::Unknown));
    assert!(!MpvController::reap_child(ChildLook::Exited));
}

#[test]
fn requests_are_answered_by_their_own_reply() {
    let mut c = controller();
    assert_eq!(c.send_command(), Err(AudioError::MpvNotRunning));
    c.connected();
    let a = c.send_command().unwrap();
    let b = c.send_command().unwrap();
    assert_eq!((a, b), (2, 3), "the refused request used up its id");
    let reply = |id: u64, error: &str| {
        Some(MpvResponse {
            request_id: Some(id),
            data: Some(MpvValue::Flag(true)),
            error: error.to_string(),
        })
    };
    match c.receive(reply(b, "success"), None) {
        Received::Answer { id, result } => {
            assert_eq!(id, b);
            assert_eq!(result, Ok(Some(MpvValue::Flag(true))));
        }
        _ => panic!("the reply belongs to a waiting request"),
    }
    assert!(matches!(c.receive(reply(b, "success"), None), Received::Nothing));
    match c.receive(reply(a, "property unavailable"), None) {
        Received::Answer { id, result } => {
            assert_eq!(id, a);
            assert_eq!(
                result,
                Err(AudioError::MpvIpc("property unavailable".to_string()))
            );
        }
        _ => panic!("the reply belongs to a waiting request"),
    }
}

#[test]
fn lost_requests_are_given_up() {
    let mut c = controller();
    c.connected();
    let a = c.send_command().unwrap();
    assert_eq!(
        c.timed_out(a),
        AudioError::MpvIpc("mpv command timeout after 5s (req 1)".to_string())
    );
    let b = c.send_command().unwrap();
    assert_eq!(
        c.write_failed(b, "broken pipe".to_string()),
        AudioError::MpvIpc("broken pipe".to_string())
    );
    assert!(c.reset_ipc().is_empty());
    c.connected();
    let e = c.send_command().unwrap();
    let f = c.send_command().unwrap();
    assert_eq!(c.reset_ipc(), vec![e, f]);
    assert_eq!(c.send_command(), Err(AudioError::MpvNotRunning));
}

#[test]
fn other_lines_count_as_events() {
    let mut c = controller();
    c.connected();
    let ev = MpvEvent {
        event: "end-file".to_string(),
        reason: Some("eof".to_string()),
    };
    match c.receive(
        Some(MpvResponse {
            request_id: None,
            data: None,
            error: String::new(),
        }),
        Some(ev),
    ) {
        Received::Event(MpvEventKind::EndFile { reason }) => assert_eq!(reason, "eof"),
        _ => panic!("an event"),
    }
}

#[test]
fn events_are_sorted_by_name() {
    let ev = |name: &str, reason: Option<&str>| {
        classify_event(&MpvEvent {
            event: name.to_string(),
            reason: reason.map(str::to_string),
        })
    };
    assert_eq!(
        ev("end-file", None),
        MpvEventKind::EndFile {
            reason: "unknown".to_string()
        }
    );
    assert_eq!(ev("start-file", None), MpvEventKind::StartFile);
    assert_eq!(ev("file-loaded", None), MpvEventKind::FileLoaded);
    assert_eq!(ev("idle", None), MpvEventKind::Other("idle".to_string()));
}

#[test]
fn commands_are_spelled_as_mpv_expects() {
    let unpause = || cmd(vec![text("set_property"), text("pause"), MpvArg::Flag(false)]);
    let pause = || cmd(vec![text("set_property"), text("pause"), MpvArg::Flag(true)]);
    assert_eq!(
        MpvController::loadfile("u"),
        vec![unpause(), cmd(vec![text("loadfile"), text("u"), text("replace")])]
    );
    assert_eq!(
        MpvController::loadfile_paused("u"),
        vec![pause(), cmd(vec![text("loadfile"), text("u"), text("replace")])]
    );
    let at = cmd(vec![
        text("loadfile"),
        text("u"),
        text("replace"),
        MpvArg::Int(-1),
        MpvArg::StartAt(d(12.5)),
    ]);
    assert_eq!(MpvController::loadfile_at("u", d(12.5)), at);
    assert_eq!(
        MpvController::loadfile_at_paused("u", d(12.5)),
        vec![pause(), at]
    );
    assert_eq!(
        MpvController::loadfile_append("u"),
        cmd(vec![text("loadfile"), text("u"), text("append")])
    );
    assert_eq!(
        MpvController::playlist_remove(1),
        cmd(vec![text("playlist-remove"), MpvArg::Unsigned(1)])
    );
    assert_eq!(
        MpvController::playlist_next(),
        cmd(vec![text("playlist-next"), text("force")])
    );
    assert_eq!(MpvController::toggle_pause(true), (unpause(), false));
    assert_eq!(MpvController::toggle_pause(false), (pause(), true));
    assert_eq!(MpvController::stop(), cmd(vec![text("stop")]));
    assert_eq!(
        MpvController::seek(d(3.0)),
        cmd(vec![text("seek"), MpvArg::Double(d(3.0)), text("absolute")])
    );
    assert_eq!(
        MpvController::seek_relative(d(-5.0)),
        cmd(vec![text("seek"), MpvArg::Double(d(-5.0)), text("relative")])
    );
    for (given, sent) in [(-3, 0), (0, 0), (55, 55), (100, 100), (101, 100)] {
        assert_eq!(
            MpvController::set_volume(given),
            cmd(vec![text("set_property"), text("volume"), MpvArg::Int(sent)])
        );
    }
    assert_eq!(
        MpvProperty::SampleRate.query(),
        cmd(vec![text("get_property"), text("audio-params/samplerate")])
    );
    assert_eq!(frame_command(b"{}".to_vec()), b"{}\n".to_vec());
}

#[test]
fn live_replaygain_changes_are_kept_and_sent() {
    let mut c = controller();
    assert_eq!(
        c.set_replaygain_mode(ReplayGainMode::Album),
        cmd(vec![text("set_property"), text("replaygain"), text("album")])
    );
    assert_eq!(
        c.set_replaygain_clip(true),
        cmd(vec![
            text("set_property"),
            text("replaygain-clip"),
            MpvArg::Flag(false)
        ])
    );
    assert_eq!(
        c.set_replaygain_preamp(d(20.0)),
        Ok(cmd(vec![
            text("set_property"),
            text("replaygain-preamp"),
            MpvArg::Double(d(15.0))
        ]))
    );
    assert!(c.set_replaygain_preamp(d(f64::NAN)).is_err());
    assert_eq!(c.replaygain_preamp(), d(15.0));
}

#[test]
fn answers_are_read_with_their_defaults() {
    assert_eq!(MpvController::get_playlist_pos(number(3)), Some(3));
    assert_eq!(MpvController::get_playlist_pos(None), None);
    assert_eq!(MpvController::get_playlist_count(number(2)), 2);
    assert_eq!(MpvController::get_playlist_count(None), 0);
    assert!(!MpvController::is_paused(None));
    assert!(MpvController::is_paused(Some(MpvValue::Flag(true))));
    assert!(MpvController::is_idle(None));
    assert!(!MpvController::is_idle(Some(MpvValue::Flag(false))));
    assert_eq!(MpvController::get_time_pos(number(7)), d(7.0));
    assert_eq!(MpvController::get_duration(None), d(0.0));
    assert_eq!(MpvController::get_sample_rate(number(44_100)), Some(44_100));
    assert_eq!(
        MpvController::get_sample_rate(number(u64::MAX)),
        Some(u32::MAX)
    );
    for (format, depth) in [
        ("s32", Some(32)),
        ("floatp", Some(32)),
        ("s24", Some(24)),
        ("s16p", Some(16)),
        ("u8", Some(8)),
        ("spdif", None),
    ] {
        let data = Some(MpvValue::Text(format.to_string()));
        assert_eq!(MpvController::get_bit_depth(&data), depth, "{format}");
        assert_eq!(
            MpvController::get_audio_format(data),
            Some(format.to_string())
        );
    }
    for (count, label) in [(1, "Mono"), (2, "Stereo"), (6, "6ch")] {
        assert_eq!(
            MpvController::get_channels(number(count)),
            Some(label.to_string())
        );
    }
}

#[test]
fn quit_is_sent_only_over_a_connection() {
    let mut c = controller();
    assert_eq!(c.quit(), None);
    c.connected();
    assert_eq!(c.quit(), Some(cmd(vec![text("quit")])));
    c.shutdown_sync();
    assert_eq!(c.quit(), None);
}

#[test]
fn requests_lost_with_the_connection_say_why() {
    assert_eq!(
        MpvController::connection_reset(),
        AudioError::MpvIpc("connection reset".into())
    );
    assert_eq!(
        MpvController::reader_ended(),
        AudioError::MpvIpc("reader task ended".into())
    );
}
