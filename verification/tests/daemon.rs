//! The daemon driven against a recorded mpv and a recorded `pw-metadata`.

use ferrosonic::audio::mpv::MpvController;
use ferrosonic::audio::mpv_protocol::{MpvArg, MpvCommand, MpvEventKind, MpvValue};
use ferrosonic::audio::pipewire::{PipeWireController, RunOutcome};
use ferrosonic::binary64::Binary64;
use ferrosonic::config::{Config, RepeatMode, ReplayGainMode};
use ferrosonic::daemon::dispatch::{
    AfterLoad, CacheEvent, CacheStep, Committed, DirectLoad, Dispatch,
};
use ferrosonic::daemon::engine::{DaemonCore, PlayMode};
use ferrosonic::daemon::listener::{Heard, ListenerStep};
use ferrosonic::daemon::playback_ops::{Advance, Back, Halt, PlayIntent, Toggle};
use ferrosonic::daemon::prebuffer::{PrebufferStep, Progress};
use ferrosonic::daemon::random::{
    auto_continue_songs, filter_for_playback, Candidate, Continued, RandomPick,
};
use ferrosonic::daemon::settle::{Settle, SettleStep};
use ferrosonic::daemon::state::{AudioProps, Child, DaemonState, NowPlaying, PlaybackState};
use ferrosonic::secret::Secret;

fn d(v: f64) -> Binary64 {
    Binary64::from_bits(v.to_bits())
}

fn song(id: &str) -> Child {
    Child {
        id: id.to_string(),
        title: format!("Song {id}"),
        duration: Some(180),
        ..Child::default()
    }
}

fn songs(prefix: &str, n: usize) -> Vec<Child> {
    (0..n).map(|i| song(&format!("{prefix}{i}"))).collect()
}

fn configured() -> Config {
    Config {
        base_url: "https://x".into(),
        username: "u".into(),
        password: Secret::from_string("p".into()),
        ..Config::default()
    }
}

fn state(config: Config) -> DaemonState {
    DaemonState {
        queue: Vec::new(),
        queue_position: None,
        now_playing: NowPlaying {
            song: None,
            state: PlaybackState::Stopped,
            position: d(0.0),
            duration: 0,
            sample_rate: None,
            bit_depth: None,
            format: None,
            channels: None,
            volume: 80,
        },
        config,
        mpv_version: None,
    }
}

/// Drives a core the way the daemon does.
struct TestDaemon {
    core: DaemonCore,
    /// Every `clock.force-rate` value written.
    force_rates: Vec<String>,
    /// Every command sent to mpv.
    sent: Vec<MpvCommand>,
    /// Every wait, in milliseconds.
    waits: Vec<u64>,
    /// The rate that the decoder tells.
    rate: Option<u32>,
    told: Vec<&'static str>,
}

impl TestDaemon {
    fn new(probe: Option<&[u8]>) -> Self {
        let config = configured();
        let core = DaemonCore::new_with_mpv_and_pipewire(
            state(config.clone()),
            &config,
            MpvController::with_socket_path("/tmp/x.sock".into()),
            PipeWireController::with_runner(probe),
            true,
            false,
        );
        Self {
            core,
            force_rates: Vec::new(),
            sent: Vec::new(),
            waits: Vec::new(),
            rate: None,
            told: Vec::new(),
        }
    }

    fn new_with_pw_recorder() -> Self {
        Self::new(Some(b""))
    }

    fn new_with_unavailable_pw() -> Self {
        Self::new(None)
    }

    fn run_pw(&mut self, args: Vec<String>) -> RunOutcome {
        self.force_rates.push(args[4].clone());
        RunOutcome::Exited {
            success: true,
            stderr: Vec::new(),
        }
    }

    fn release_rate(&mut self) {
        if let Some(args) = self.core.release_pipewire_rate() {
            let outcome = self.run_pw(args);
            self.core.pipewire.finish_clear_forced_rate(outcome).unwrap();
        }
    }

    fn halt(&mut self, parts: Vec<Halt>) {
        for part in parts {
            match part {
                Halt::StopMpv => self.sent.push(MpvController::stop()),
                Halt::ReleaseRate => self.release_rate(),
                Halt::TellNowPlaying => self.told.push("now playing"),
                Halt::TellQueue => self.told.push("queue"),
                _ => {}
            }
            self.core.halt(part);
        }
    }

    fn props(&self) -> AudioProps {
        AudioProps {
            sample_rate: self.rate,
            bit_depth: Some(16),
            format: Some("s16".into()),
            channels: Some("Stereo".into()),
        }
    }

    fn settle(&mut self, settle: Settle) {
        let mut step = self.core.settle_rate_then_unpause(settle);
        loop {
            step = match step {
                SettleStep::Stop => return,
                SettleStep::Probe { look } => {
                    self.core.audio_params_probed(settle, look, self.props())
                }
                SettleStep::SleepThenProbe { ms, look } => {
                    self.waits.push(ms);
                    self.core.probe_audio_params(settle, look)
                }
                SettleStep::Reclock(props) => {
                    let rate = props.sample_rate.unwrap();
                    let Some(reclock) = self.core.settle_reclock(settle, rate) else {
                        return;
                    };
                    if let Some(args) = reclock.args {
                        let outcome = self.run_pw(args);
                        self.core.pipewire.finish_set_rate(rate, outcome).unwrap();
                    }
                    if let Some(ms) = self.core.settle_reclocked(props, reclock.changed) {
                        self.waits.push(ms);
                    }
                    self.core.settle_over(settle)
                }
                SettleStep::Unpause { seek } => {
                    self.sent.extend(DaemonCore::unpause_commands(seek));
                    self.told.push("now playing");
                    return;
                }
            };
        }
    }

    fn play_at(&mut self, pos: usize, mode: PlayMode, start_at: Binary64, intent: PlayIntent) {
        let Some(request) = self.core.play_request(pos) else {
            return;
        };
        let url = format!("https://x/stream?id={}", request.song_id);
        let dispatch =
            self.core
                .play_queue_position_at_locked(pos, mode, start_at, intent, Ok(url), None);
        if let Ok(Dispatch::Direct(load)) = dispatch {
            self.sent.extend(load.load_commands());
            match self.core.direct_loaded(load.seek_after, None) {
                AfterLoad::Settle { gen, seek_after } => self.settle(Settle { gen, seek_after }),
                AfterLoad::Failed(_) => panic!("the load succeeded"),
            }
        }
        self.core.playing_from(start_at);
    }

    fn play_queue_position(&mut self, pos: usize, mode: PlayMode) {
        self.play_at(pos, mode, d(0.0), PlayIntent::Start);
    }

    fn pause_playback(&mut self) {
        let parts = self.core.pause_playback();
        self.halt(parts);
    }

    fn stop_playback(&mut self) {
        self.halt(DaemonCore::stop_playback());
    }

    fn resume_playback(&mut self) {
        let Some(resume) = self.core.resume_playback() else {
            return;
        };
        if let Some(repin) = resume.repin {
            if let Some(args) = repin.args {
                let outcome = self.run_pw(args);
                self.core
                    .pipewire
                    .finish_set_rate(repin.rate, outcome)
                    .unwrap();
            }
            self.waits.push(repin.settle_ms);
        }
        self.play_at(
            resume.pos,
            PlayMode::Direct,
            resume.start_at,
            PlayIntent::Resume,
        );
    }

    fn saw_unpause(&self) -> bool {
        self.sent.contains(&MpvController::resume())
    }
}

#[test]
fn unavailable_pipewire_skips_settle_delay() {
    let mut td = TestDaemon::new_with_unavailable_pw();
    td.rate = Some(44_100);
    td.core.state.queue = songs("t", 1);
    td.core.state.config.rate_switch_delay_ms = 60_000;

    td.play_queue_position(0, PlayMode::Direct);
    assert!(
        td.saw_unpause(),
        "play must unpause without waiting out the rate settle delay"
    );
    td.pause_playback();
    td.resume_playback();
    assert!(
        td.waits.is_empty(),
        "resume must not wait out the rate settle delay"
    );
    assert!(td.force_rates.is_empty());
}

#[test]
fn pause_releases_force_rate_pin() {
    let mut td = TestDaemon::new_with_pw_recorder();
    td.core.state.queue = songs("t", 1);
    td.core.state.queue_position = Some(0);
    td.core.state.now_playing.state = PlaybackState::Playing;
    td.core.state.now_playing.sample_rate = Some(44_100);

    td.pause_playback();

    assert_eq!(
        td.force_rates,
        vec!["0".to_string()],
        "pause must clear the force-rate so other apps can use the device"
    );
    assert_eq!(td.core.state.now_playing.state, PlaybackState::Paused);
}

#[test]
fn stop_releases_force_rate_pin() {
    let mut td = TestDaemon::new_with_pw_recorder();
    td.core.state.queue = songs("t", 1);
    td.core.state.queue_position = Some(0);
    td.core.state.now_playing.state = PlaybackState::Playing;
    td.core.state.now_playing.sample_rate = Some(48_000);

    td.stop_playback();

    assert_eq!(
        td.force_rates,
        vec!["0".to_string()],
        "stop must clear the PipeWire force-rate to 0"
    );
    assert_eq!(td.told, vec!["now playing", "queue"]);
}

#[test]
fn play_pins_rate_then_pause_clears_it() {
    let mut td = TestDaemon::new_with_pw_recorder();
    td.rate = Some(44_100);
    td.core.state.queue = songs("t", 1);

    td.play_queue_position(0, PlayMode::Direct);
    assert!(
        td.force_rates.iter().any(|v| v == "44100"),
        "play must pin the force-rate to the track's 44100 rate"
    );
    assert_eq!(td.waits, vec![500], "a change of rate is waited for");

    td.pause_playback();
    assert_eq!(
        td.force_rates.last().map(String::as_str),
        Some("0"),
        "pause after play must clear the pin back to 0"
    );
}

#[test]
fn resume_re_pins_the_track_rate() {
    let mut td = TestDaemon::new_with_pw_recorder();
    td.rate = Some(96_000);
    td.core.state.queue = songs("t", 1);
    td.core.state.config.rate_switch_delay_ms = 0;

    td.play_queue_position(0, PlayMode::Direct);
    assert!(
        td.force_rates.iter().any(|v| v == "96000"),
        "play pins 96000"
    );

    td.pause_playback();
    assert_eq!(
        td.force_rates.last().map(String::as_str),
        Some("0"),
        "pause releases the pin"
    );

    td.resume_playback();
    assert_eq!(
        td.force_rates.last().map(String::as_str),
        Some("96000"),
        "resume re-pins the device to the track's rate before audio"
    );
}

#[test]
fn the_same_rate_is_written_again_but_not_waited_for() {
    let mut td = TestDaemon::new_with_pw_recorder();
    td.rate = Some(48_000);
    td.core.state.queue = songs("t", 2);
    td.play_queue_position(0, PlayMode::Direct);
    td.play_queue_position(1, PlayMode::Direct);
    assert_eq!(td.force_rates, vec!["48000", "48000"]);
    assert_eq!(td.waits.len(), 1);
}

#[test]
fn resume_goes_on_where_pause_left() {
    let mut td = TestDaemon::new_with_pw_recorder();
    td.rate = Some(48_000);
    td.core.state.queue = songs("t", 3);
    td.play_queue_position(1, PlayMode::Direct);
    let instance = td.core.play_instance_for_test();
    td.core.seeked(d(42.5), true);
    td.pause_playback();
    assert_eq!(td.core.state.now_playing.position, d(42.5));
    td.sent.clear();
    td.resume_playback();
    assert_eq!(td.core.state.now_playing.position, d(42.5));
    assert_eq!(td.core.state.now_playing.state, PlaybackState::Playing);
    assert_eq!(td.core.state.queue_position, Some(1));
    assert_eq!(td.core.play_instance_for_test(), instance, "no new play");
    assert_eq!(
        td.sent[..2],
        MpvController::loadfile_at_paused("https://x/stream?id=t1", d(42.5))[..]
    );
}

#[test]
fn an_old_mpv_seeks_after_the_load() {
    let mut td = TestDaemon::new_with_pw_recorder();
    td.core
        .mpv
        .version_probed(Ok(Some(MpvValue::Text("mpv 0.37.0".into()))));
    td.core.state.queue = songs("t", 1);
    td.play_at(0, PlayMode::Direct, d(7.5), PlayIntent::Start);
    let mut want = MpvController::loadfile_paused("https://x/stream?id=t0");
    want.push(MpvController::seek(d(7.5)));
    want.push(MpvController::resume());
    assert_eq!(td.sent, want);
    assert_eq!(td.waits.len(), 49, "a rate that never comes is given up");
    assert_eq!(td.core.snapshot().mpv_version, Some((0, 37)));
}

#[test]
fn unusable_offsets_never_reach_mpv() {
    for bad in [f64::NAN, f64::INFINITY, f64::NEG_INFINITY, -1.0, 0.0, -0.0] {
        let mut td = TestDaemon::new_with_pw_recorder();
        match td
            .core
            .dispatch_play("https://x/s".into(), 0, PlayMode::Direct, d(bad))
        {
            Dispatch::Direct(load) => {
                assert_eq!((load.start, load.seek_after), (None, None), "{bad}")
            }
            Dispatch::Buffered(_) => panic!("direct"),
        }
    }
}

#[test]
fn stop_clears_everything_but_the_volume() {
    let mut td = TestDaemon::new_with_pw_recorder();
    td.core.state.queue = songs("t", 2);
    td.play_queue_position(1, PlayMode::Direct);
    td.stop_playback();
    let s = &td.core.state;
    assert!(s.queue.is_empty());
    assert_eq!(s.queue_position, None);
    assert_eq!(s.now_playing.song, None);
    assert_eq!(s.now_playing.state, PlaybackState::Stopped);
    assert_eq!(s.now_playing.volume, 80);
    assert!(td.core.resume_playback().is_none());
}

#[test]
fn stop_keep_queue_then_resume_restarts_the_track() {
    let mut td = TestDaemon::new_with_pw_recorder();
    td.core.state.queue = songs("t", 2);
    td.play_queue_position(1, PlayMode::Direct);
    td.core.seeked(d(30.0), true);
    td.halt(DaemonCore::stop_keep_queue());
    assert_eq!(td.core.state.queue.len(), 2);
    let r = td.core.resume_playback().unwrap();
    assert_eq!((r.pos, r.start_at, r.repin), (1, d(0.0), None));
    assert_eq!(td.core.toggle_pause(), Toggle::Play(1));
    td.halt(DaemonCore::halt_keep_queue());
    assert_eq!(td.core.state.now_playing.song, None);
    assert_eq!(td.core.state.queue.len(), 2);
}

#[test]
fn pause_key_follows_the_state() {
    let mut td = TestDaemon::new_with_pw_recorder();
    assert_eq!(td.core.toggle_pause(), Toggle::Nothing);
    td.core.state.queue = songs("t", 1);
    td.play_queue_position(0, PlayMode::Direct);
    assert_eq!(td.core.toggle_pause(), Toggle::Pause);
    td.pause_playback();
    assert_eq!(td.core.toggle_pause(), Toggle::Resume);
    assert!(td.core.pause_playback().is_empty(), "nothing plays");
}

#[test]
fn autoplay_needs_a_restored_track() {
    let mut td = TestDaemon::new_with_pw_recorder();
    td.core.state.now_playing.state = PlaybackState::Paused;
    td.core.state.queue_position = Some(0);
    assert!(!td.core.autoplay_restored_if_configured());
    td.core.state.config.autoplay_on_start = true;
    assert!(td.core.autoplay_restored_if_configured());
    td.core.state.queue_position = None;
    assert!(!td.core.autoplay_restored_if_configured());
}

#[test]
fn skips_follow_the_repeat_mode() {
    let mut td = TestDaemon::new_with_pw_recorder();
    assert_eq!(td.core.next_track(false), Advance::Nothing);
    td.core.state.queue = songs("t", 3);
    assert_eq!(td.core.next_track(false), Advance::Play(0));
    td.core.state.queue_position = Some(2);
    assert_eq!(td.core.next_track(false), Advance::Finish);
    td.core.state.config.auto_continue = true;
    assert_eq!(td.core.next_track(false), Advance::Continue);
    td.core.state.config.repeat_mode = RepeatMode::One;
    assert_eq!(td.core.next_track(false), Advance::Play(0));
    let i = td.core.begin_advance().unwrap();
    assert_eq!(td.core.advance_auto(i), Advance::Play(2));
    assert_eq!(
        td.core.next_track(true),
        Advance::Nothing,
        "a skip during an automatic advance is that advance"
    );
}

#[test]
fn one_advance_at_a_time() {
    let mut td = TestDaemon::new_with_pw_recorder();
    td.core.state.queue = songs("t", 2);
    td.play_queue_position(0, PlayMode::Direct);
    let i = td.core.begin_advance().unwrap();
    assert!(td.core.advance_in_flight_for_test());
    assert_eq!(td.core.begin_advance(), None);
    assert_eq!(td.core.advance_auto(i), Advance::Play(1));
    td.core.mark_play_instance_for_test();
    assert_eq!(
        td.core.advance_auto(i),
        Advance::Nothing,
        "a manual start overtook it"
    );
    td.core.end_advance();
    assert!(!td.core.advance_in_flight_for_test());
    td.core.set_advance_in_flight_for_test(true);
    assert_eq!(td.core.begin_advance(), None);
}

#[test]
fn back_restarts_after_three_seconds() {
    let mut td = TestDaemon::new_with_pw_recorder();
    assert_eq!(td.core.prev_track(), Back::Nothing);
    td.core.state.queue = songs("t", 3);
    td.core.state.queue_position = Some(1);
    for (at, back) in [
        (0.0, Back::Play(0)),
        (2.999, Back::Play(0)),
        (3.0, Back::Restart),
        (100.0, Back::Restart),
        (f64::NAN, Back::Restart),
        (-1.0, Back::Play(0)),
    ] {
        td.core.state.now_playing.position = d(at);
        assert_eq!(td.core.prev_track(), back, "{at}");
    }
    td.core.state.now_playing.position = d(1.0);
    td.core.state.queue_position = Some(0);
    assert_eq!(td.core.prev_track(), Back::Restart);
    td.core.state.config.repeat_mode = RepeatMode::All;
    assert_eq!(td.core.prev_track(), Back::Play(2));
    td.core.state.queue_position = None;
    assert_eq!(td.core.prev_track(), Back::Restart);
}

#[test]
fn seeks_move_the_playhead_only_when_mpv_obeys() {
    let mut td = TestDaemon::new_with_pw_recorder();
    assert_eq!(DaemonCore::seek(d(9.0)), MpvController::seek(d(9.0)));
    td.core.seeked(d(9.0), false);
    assert_eq!(td.core.state.now_playing.position, d(0.0));
    td.core.seeked(d(9.0), true);
    assert_eq!(td.core.state.now_playing.position, d(9.0));
    assert_eq!(
        DaemonCore::seek_relative(d(-5.0)),
        MpvController::seek_relative(d(-5.0))
    );
}

#[test]
fn volume_is_limited() {
    let mut td = TestDaemon::new_with_pw_recorder();
    for (given, kept) in [(-5, 0), (150, 100), (33, 33)] {
        assert_eq!(td.core.set_volume(given), MpvController::set_volume(kept));
        assert_eq!(td.core.state.now_playing.volume, kept);
    }
}

#[test]
fn commit_answers_for_missing_songs_and_urls() {
    let mut td = TestDaemon::new_with_pw_recorder();
    td.core.state.queue = songs("t", 1);
    assert!(td.core.play_request(1).is_none());
    assert!(matches!(
        td.core.commit_play_state_in_lock(1, true, Ok("u".into()), None),
        Committed::NoSong
    ));
    match td
        .core
        .commit_play_state_in_lock(0, true, Err("no server".into()), None)
    {
        Committed::NoUrl(n) => {
            assert_eq!(n.message, "Failed to get stream URL: no server");
            assert!(n.is_error);
        }
        _ => panic!("no URL"),
    }
    assert_eq!(td.core.state.queue_position, None);
    td.core.subsonic = None;
    assert!(td.core.play_request(0).is_none());
}

#[test]
fn cached_copies_are_preferred_and_loaded_directly() {
    let mut td = TestDaemon::new_with_pw_recorder();
    td.core.state.queue = songs("t", 1);
    td.core.state.config.offline_cache_enabled = true;
    assert!(td.core.play_request(0).unwrap().want_cached);
    let r = td.core.play_queue_position_at_locked(
        0,
        PlayMode::Buffered,
        d(0.0),
        PlayIntent::Start,
        Ok("https://x/s".into()),
        Some("/cache/t0".into()),
    );
    match r {
        Ok(Dispatch::Direct(load)) => assert_eq!(
            load,
            DirectLoad {
                url: "/cache/t0".into(),
                pos: 0,
                start: None,
                seek_after: None
            }
        ),
        _ => panic!("a local file is loaded directly"),
    }
    assert_eq!(td.core.state.now_playing.duration, 180);
    assert_eq!(td.core.state.now_playing.song, Some(song("t0")));
    assert!(td.core.tasks.played_this_session);
}

#[test]
fn a_refused_load_is_told() {
    let mut td = TestDaemon::new_with_pw_recorder();
    match td.core.direct_loaded(None, Some("socket closed".into())) {
        AfterLoad::Failed(n) => assert_eq!(n.message, "MPV error: socket closed"),
        AfterLoad::Settle { .. } => panic!("mpv refused"),
    }
}

#[test]
fn start_mode_follows_the_settings() {
    let mut td = TestDaemon::new_with_pw_recorder();
    assert_eq!(td.core.preferred_start_mode(), PlayMode::Direct);
    td.core.state.config.stream_on_start = false;
    assert_eq!(td.core.preferred_start_mode(), PlayMode::Buffered);
}

#[test]
fn mpv_falls_silent_before_a_download() {
    assert!(DaemonCore::unpause_before_buffering(Some(true)));
    assert!(!DaemonCore::unpause_before_buffering(Some(false)));
    assert!(!DaemonCore::unpause_before_buffering(None));
    assert!(DaemonCore::stop_before_buffering(true, Some(false)));
    assert!(!DaemonCore::stop_before_buffering(true, Some(true)));
    assert!(!DaemonCore::stop_before_buffering(true, None));
    assert!(!DaemonCore::stop_before_buffering(false, Some(false)));
}

fn buffer(td: &mut TestDaemon, url: &str) -> u64 {
    match td
        .core
        .dispatch_play(url.into(), 0, PlayMode::Buffered, d(0.0))
    {
        Dispatch::Buffered(b) => b.task,
        Dispatch::Direct(_) => panic!("buffered"),
    }
}

#[test]
fn a_download_is_loaded_when_complete() {
    let mut td = TestDaemon::new_with_pw_recorder();
    let task = buffer(&mut td, "https://x/s");
    assert!(td.core.tasks.prebuffer_loading.unwrap().loading);
    for (progress, step) in [
        (Progress::Fetched, PrebufferStep::OpenFile),
        (Progress::Opened, PrebufferStep::ReadChunk),
        (Progress::ChunkRead, PrebufferStep::WriteChunk),
        (Progress::ChunkWritten, PrebufferStep::ReadChunk),
        (Progress::StreamEnded, PrebufferStep::LoadPaused),
        (Progress::Loaded, PrebufferStep::Settle),
        (Progress::Settled, PrebufferStep::Preload),
        (Progress::Preloaded, PrebufferStep::End),
    ] {
        assert_eq!(td.core.prebuffer_next(task, progress), step);
    }
    td.core.prebuffer_ended(task, false);
    assert!(!td.core.tasks.prebuffer_loading.unwrap().loading);
    assert_eq!(td.core.tasks.prebuffer_cancel, None);
}

#[test]
fn a_broken_download_falls_back_while_current() {
    let mut td = TestDaemon::new_with_pw_recorder();
    let task = buffer(&mut td, "https://x/s");
    for progress in [
        Progress::FetchFailed,
        Progress::OpenFailed,
        Progress::StreamTimedOut,
        Progress::StreamFailed,
        Progress::WriteFailed,
    ] {
        assert_eq!(
            td.core.prebuffer_next(task, progress),
            PrebufferStep::FallBack
        );
    }
    assert_eq!(
        td.core.fallback_direct_if_current(task, "u"),
        Some(MpvController::loadfile("u"))
    );
    td.core.request_shutdown();
    assert_eq!(td.core.fallback_direct_if_current(task, "u"), None);
    assert_eq!(
        td.core.prebuffer_next(task, Progress::ChunkWritten),
        PrebufferStep::End
    );
}

#[test]
fn a_cancelled_download_never_loads() {
    let cancels: [fn(&mut TestDaemon); 4] = [
        |td| td.play_queue_position(0, PlayMode::Direct),
        |td| td.pause_playback(),
        |td| td.stop_playback(),
        |td| {
            buffer(td, "https://x/newer");
        },
    ];
    for cancel in cancels {
        let mut td = TestDaemon::new_with_pw_recorder();
        td.core.state.queue = songs("t", 1);
        td.core.state.now_playing.state = PlaybackState::Playing;
        let task = buffer(&mut td, "https://x/s");
        cancel(&mut td);
        for progress in [
            Progress::Opened,
            Progress::ChunkWritten,
            Progress::StreamEnded,
            Progress::Loaded,
        ] {
            assert_eq!(
                td.core.prebuffer_next(task, progress),
                PrebufferStep::Abandon
            );
        }
        assert_eq!(td.core.fallback_direct_if_current(task, "u"), None);
        let slot = td.core.tasks.prebuffer_cancel;
        td.core.prebuffer_ended(task, true);
        assert_eq!(td.core.tasks.prebuffer_cancel, slot);
    }
}

#[test]
fn a_download_that_never_ran_clears_its_flag() {
    let mut td = TestDaemon::new_with_pw_recorder();
    let task = buffer(&mut td, "https://x/s");
    td.core.prebuffer_never_ran(task);
    assert!(!td.core.tasks.prebuffer_loading.unwrap().loading);
}

#[test]
fn two_newest_files_are_kept() {
    let mut td = TestDaemon::new_with_pw_recorder();
    assert_eq!(td.core.keep_prebuffer_file(1), Vec::<u64>::new());
    assert_eq!(td.core.keep_prebuffer_file(2), Vec::<u64>::new());
    assert_eq!(td.core.keep_prebuffer_file(3), vec![1]);
    assert_eq!(td.core.keep_prebuffer_file(4), vec![2]);
    assert_eq!(td.core.tasks.prebuffer_files, vec![3, 4]);
}

#[test]
fn forced_failures_are_taken_once() {
    let mut td = TestDaemon::new_with_pw_recorder();
    td.core.force_prebuffer_failure_for_test(2);
    assert!(!td.core.take_forced_failure(1));
    assert!(td.core.take_forced_failure(2));
    assert!(!td.core.take_forced_failure(2));
}

#[test]
fn a_superseded_settle_does_nothing() {
    let mut td = TestDaemon::new_with_pw_recorder();
    td.rate = Some(48_000);
    let old = td.core.stamp_loadfile();
    let _newer = td.core.stamp_loadfile();
    td.settle(Settle {
        gen: old,
        seek_after: None,
    });
    assert!(td.sent.is_empty() && td.force_rates.is_empty());
    let settle = Settle {
        gen: old,
        seek_after: None,
    };
    assert_eq!(td.core.settle_over(settle), SettleStep::Stop);
    assert_eq!(td.core.settle_reclock(settle, 48_000), None);
    assert_eq!(
        td.core.audio_params_probed(settle, 0, td.props()),
        SettleStep::Stop
    );
}

#[test]
fn fetched_properties_pin_the_rate() {
    let mut td = TestDaemon::new_with_pw_recorder();
    assert_eq!(td.core.fetch_audio_properties(None), None);
    assert_eq!(
        td.core.fetch_audio_properties(Some(48_000)).unwrap().unwrap()[4],
        "48000"
    );
    assert!(td.core.rate_still_missing());
    td.rate = Some(48_000);
    td.core.note_audio_properties(td.props());
    assert!(!td.core.rate_still_missing());
    assert_eq!(td.core.state.now_playing.bit_depth, Some(16));
    assert!(td.core.fast_probe_goes_on(79));
    assert!(!td.core.fast_probe_goes_on(80));
    td.core.request_shutdown();
    assert!(!td.core.fast_probe_goes_on(0));
}

#[test]
fn preload_appends_to_a_lone_track() {
    let mut td = TestDaemon::new_with_pw_recorder();
    td.core.state.queue = songs("t", 2);
    let p = td.core.preload_next_track(0).unwrap();
    assert_eq!(p.request.song_id, "t1");
    assert_eq!(td.core.preload_next_track(1), None, "nothing follows");
    let append = |td: &TestDaemon, gen, count| {
        td.core
            .append_preload(gen, count, "u".into(), true, Some("/c".into()))
    };
    assert_eq!(
        append(&td, p.gen, Some(1)),
        Some(MpvController::loadfile_append("/c"))
    );
    assert_eq!(append(&td, p.gen, Some(2)), None);
    assert_eq!(append(&td, p.gen, None), None);
    td.core.stamp_loadfile();
    assert_eq!(append(&td, p.gen, Some(1)), None, "superseded");
    td.core.subsonic = None;
    assert_eq!(td.core.preload_next_track(0), None);
}

#[test]
fn a_stale_preload_is_dropped() {
    let mut td = TestDaemon::new_with_pw_recorder();
    td.core.state.queue_position = Some(4);
    assert_eq!(td.core.resync_gapless_preload(), None);
    td.core.state.now_playing.state = PlaybackState::Playing;
    assert_eq!(td.core.resync_gapless_preload(), Some(4));
    assert_eq!(DaemonCore::drop_stale_preload(Some(1)), None);
    assert_eq!(DaemonCore::drop_stale_preload(None), None);
    assert_eq!(
        DaemonCore::drop_stale_preload(Some(2)),
        Some(MpvController::playlist_remove(1))
    );
}

fn offer(batch: &[(&str, bool)]) -> Vec<Candidate> {
    batch
        .iter()
        .map(|(id, passes)| Candidate {
            song: song(id),
            passes: *passes,
        })
        .collect()
}

fn ids(songs: &[Child]) -> Vec<&str> {
    songs.iter().map(|s| s.id.as_str()).collect()
}

#[test]
fn auto_continue_picks_what_is_not_queued() {
    let mut pick = RandomPick::begin(&vec![song("q")]);
    assert!(!pick.offer(&offer(&[
        ("q", true),
        ("a", true),
        ("b", false),
        ("a", true),
        ("c", true)
    ])));
    assert_eq!(ids(&pick.finish()), vec!["a", "c"]);
}

#[test]
fn auto_continue_asks_again_for_a_spent_batch() {
    let mut pick = RandomPick::begin(&vec![song("q")]);
    assert!(pick.offer(&offer(&[("q", true), ("b", false)])));
    assert!(
        pick.offer(&offer(&[("b", true)])),
        "what was looked at is seen"
    );
    assert!(!pick.offer(&offer(&[("q", true)])), "three times at most");
    assert_eq!(ids(&pick.finish()), vec!["q", "b"], "the first batch");
    let mut pick = RandomPick::begin(&Vec::new());
    assert!(!pick.offer(&Vec::new()));
    assert!(pick.finish().is_empty());
}

#[test]
fn auto_continue_repeats_only_when_nothing_is_new() {
    let mut pick = RandomPick::begin(&vec![song("q"), song("p")]);
    assert!(pick.offer(&offer(&[("p", true), ("q", true)])));
    assert!(!pick.offer(&offer(&[("q", true), ("z", true), ("a", true)])));
    assert_eq!(ids(&pick.finish()), vec!["z", "a"], "in the server's order");
    let mut pick = RandomPick::begin(&vec![song("q"), song("p")]);
    assert!(pick.offer(&offer(&[("p", true), ("q", true)])));
    assert!(!pick.offer(&Vec::new()));
    assert_eq!(ids(&pick.finish()), vec!["p", "q"], "the first batch");
}

#[test]
fn auto_continue_picks_a_bounded_number() {
    let many: Vec<Candidate> = (0..50)
        .map(|i| Candidate {
            song: song(&format!("{i}")),
            passes: true,
        })
        .collect();
    let mut pick = RandomPick::begin(&Vec::new());
    assert!(!pick.offer(&many));
    let songs = pick.finish();
    assert_eq!(songs.len(), 20);
    assert_eq!(songs[19].id, "19");
    let mut pick = RandomPick::begin(&songs);
    let refused: Vec<Candidate> = (0..30)
        .map(|i| Candidate {
            song: song(&format!("r{i}")),
            passes: false,
        })
        .collect();
    assert!(pick.offer(&refused));
    assert_eq!(pick.finish().len(), 20, "the fallback is cut too");
}

#[test]
fn auto_continue_filters_what_it_repeats() {
    let batch = offer(&[("a", true), ("b", false), ("c", true)]);
    assert_eq!(ids(&filter_for_playback(&batch)), ["a", "c"]);
    let all = offer(&[("a", true), ("c", true)]);
    assert_eq!(ids(&filter_for_playback(&all)), ["a", "c"]);
    assert!(filter_for_playback(&offer(&[("b", false)])).is_empty());
}

#[test]
fn auto_continue_tells_why_it_ended() {
    assert_eq!(
        auto_continue_songs(Ok(Vec::new())).unwrap_err().message,
        "Auto-continue: server returned no songs"
    );
    assert_eq!(
        auto_continue_songs(Err("timeout".into()))
            .unwrap_err()
            .message,
        "Auto-continue failed: timeout"
    );
    assert_eq!(auto_continue_songs(Ok(songs("t", 2))), Ok(songs("t", 2)));
}

#[test]
fn picked_songs_go_behind_the_queue() {
    let mut td = TestDaemon::new_with_pw_recorder();
    td.core.state.queue = songs("t", 2);
    assert_eq!(td.core.extend_queue(Vec::new()), None);
    assert_eq!(td.core.extend_queue(songs("n", 2)), Some(2));
    assert_eq!(ids(&td.core.state.queue), vec!["t0", "t1", "n0", "n1"]);
}

#[test]
fn only_a_track_end_leads_on() {
    let mut td = TestDaemon::new_with_pw_recorder();
    let end = |reason: &str| {
        Heard::Event(MpvEventKind::EndFile {
            reason: reason.into(),
        })
    };
    assert_eq!(td.core.mpv_event(&end("eof")), ListenerStep::AskCount);
    assert_eq!(td.core.mpv_event(&end("stop")), ListenerStep::Listen);
    assert_eq!(
        td.core.mpv_event(&Heard::Event(MpvEventKind::StartFile)),
        ListenerStep::Listen
    );
    assert_eq!(td.core.mpv_event(&Heard::Lagged), ListenerStep::AskIdle);
    assert_eq!(td.core.mpv_event(&Heard::Closed), ListenerStep::Leave);
    assert!(td.core.listener_goes_on());
    td.core.request_shutdown();
    assert_eq!(td.core.mpv_event(&end("eof")), ListenerStep::Leave);
    assert!(!td.core.listener_goes_on());
    assert!(DaemonCore::advance_after_lag(Some(true)));
    assert!(!DaemonCore::advance_after_lag(Some(false)));
    assert!(!DaemonCore::advance_after_lag(None));
    assert!(DaemonCore::advance_after_end(Some(1)));
    assert!(DaemonCore::advance_after_end(None));
    assert!(!DaemonCore::advance_after_end(Some(2)));
}

#[test]
fn an_idle_daemon_leaves_after_two_ticks() {
    let mut td = TestDaemon::new_with_pw_recorder();
    assert_eq!(td.core.idle_tick(0), Some(1));
    let guard = td.core.client_guard();
    assert_eq!(td.core.idle_tick(1), Some(0), "a client keeps it");
    td.core.client_gone(guard);
    assert_eq!(td.core.idle_tick(0), Some(1));
    td.core.state.now_playing.state = PlaybackState::Playing;
    assert_eq!(td.core.idle_tick(1), Some(0), "playing keeps it");
    td.core.state.now_playing.state = PlaybackState::Paused;
    assert!(td.core.is_idle_for_exit(), "restored but never played");
    td.core.mark_play_instance();
    assert!(!td.core.is_idle_for_exit());
    td.core.state.now_playing.state = PlaybackState::Stopped;
    assert_eq!(td.core.idle_tick(1), None);
    assert!(td.core.tasks.shutdown);
    assert_eq!(td.core.idle_tick(0), None);
}

#[test]
fn snapshots_hold_no_credentials() {
    let mut td = TestDaemon::new_with_pw_recorder();
    td.core.state.queue = songs("t", 2);
    td.core.state.config.password_file = Some("~/pw".into());
    td.core.state.config.password_keyring = true;
    td.core.state.config.password_from_env = true;
    td.core.state.config.password_eval =
        Some(ferrosonic::config::PasswordEval::Shell("printf hunter2".into()));
    let snap = td.core.snapshot();
    let c = &snap.config;
    assert_eq!(c.password_str(), "");
    assert!(c.password_file.is_none() && c.password_eval.is_none());
    assert!(!c.password_keyring && !c.password_from_env);
    assert_eq!(c.base_url, "https://x");
    assert_eq!(snap.queue, td.core.state.queue);
    assert_eq!(td.core.config_for_wire().password_str(), "");
    assert_eq!(td.core.state.config.password_str(), "p", "the own copy stays");
    assert_eq!(td.core.queue_event().0.len(), 2);
    assert_eq!(td.core.broadcast_now_playing(), td.core.state.now_playing);
}

#[test]
fn a_login_needs_complete_settings() {
    let td = TestDaemon::new_with_pw_recorder();
    let login = td.core.subsonic.as_ref().unwrap();
    assert_eq!(login.base_url, "https://x");
    assert_eq!(login.password.expose(), "p");
    let config = Config {
        replay_gain_mode: ReplayGainMode::Track,
        replay_gain_preamp: d(99.0),
        ..Config::default()
    };
    let core = DaemonCore::new_with_mpv_and_pipewire(
        state(Config::default()),
        &config,
        MpvController::with_socket_path("/tmp/x.sock".into()),
        PipeWireController::with_runner(None),
        true,
        true,
    );
    assert!(core.subsonic.is_none());
    assert_eq!(core.mpv.replaygain_preamp(), d(15.0));
    assert_eq!(core.mpv_version(), None);
}

#[test]
fn counters_tell_old_from_new() {
    let mut td = TestDaemon::new_with_pw_recorder();
    let gen = td.core.config_gen_for_test();
    assert!(!td.core.config_gen_changed(gen));
    td.core.bump_config_gen_for_test();
    assert!(td.core.config_gen_changed(gen));
    assert_eq!(td.core.bump_library_version(), 1);
    assert_eq!(td.core.bump_library_version(), 2);
}

#[test]
fn streamed_tracks_are_cached_within_the_limit() {
    let mut td = TestDaemon::new_with_pw_recorder();
    td.core.state.queue = songs("t", 1);
    assert_eq!(td.core.spawn_cache_population(0, "https://x/s"), None);
    td.core.offline_cache_enabled = true;
    let p = td.core.spawn_cache_population(0, "https://x/s").unwrap();
    assert_eq!((p.song_id.as_str(), p.url.as_str()), ("t0", "https://x/s"));
    assert_eq!(td.core.spawn_cache_population(0, "/cache/t0"), None);
    assert_eq!(td.core.spawn_cache_population(1, "https://x/s"), None);
    for (mb, bytes) in [
        (0, 1_048_576),
        (1, 1_048_576),
        (2048, 2_147_483_648),
        (u32::MAX, 107_374_182_400),
    ] {
        td.core.offline_cache_max_mb = mb;
        assert_eq!(td.core.cache_capacity(), bytes);
    }
    assert!(matches!(
        td.core.populate_cache(CacheEvent::Reserved(false)),
        CacheStep::Leave
    ));
    assert!(matches!(
        td.core.populate_cache(CacheEvent::Reserved(true)),
        CacheStep::Download
    ));
    assert!(matches!(
        td.core.populate_cache(CacheEvent::Downloaded),
        CacheStep::Rename
    ));
    assert!(matches!(
        td.core.populate_cache(CacheEvent::DownloadFailed),
        CacheStep::Abandon
    ));
    assert!(matches!(
        td.core.populate_cache(CacheEvent::RenameFailed),
        CacheStep::Abandon
    ));
    assert!(matches!(
        td.core.populate_cache(CacheEvent::Renamed(5)),
        CacheStep::Commit {
            size: 5,
            capacity: 107_374_182_400
        }
    ));
}

#[test]
fn commands_sent_to_mpv_are_plain_values() {
    let c = MpvController::playlist_remove(3);
    assert_eq!(c.args[1], MpvArg::Unsigned(3));
}

#[test]
fn continuing_plays_the_first_new_song() {
    let mut td = TestDaemon::new_with_pw_recorder();
    td.core.state.queue = songs("t", 2);
    td.core.state.queue_position = Some(1);
    match td
        .core
        .extend_with_random_and_play(songs("n", 2), Ok("https://x/n0".into()), None)
    {
        Continued::Playing(Dispatch::Direct(load)) => {
            assert_eq!((load.url.as_str(), load.pos), ("https://x/n0", 2))
        }
        _ => panic!("a stream is loaded directly"),
    }
    assert_eq!(ids(&td.core.state.queue), vec!["t0", "t1", "n0", "n1"]);
    assert_eq!(td.core.state.queue_position, Some(2));
    assert_eq!(td.core.state.now_playing.song, Some(song("n0")));
    assert_eq!(td.core.play_instance_for_test(), 1);
}

#[test]
fn continuing_downloads_where_the_settings_say_so() {
    let mut td = TestDaemon::new_with_pw_recorder();
    td.core.state.config.stream_on_start = false;
    assert!(matches!(
        td.core
            .extend_with_random_and_play(songs("n", 1), Ok("https://x/n0".into()), None),
        Continued::Playing(Dispatch::Buffered(_))
    ));
}

#[test]
fn continuing_needs_songs_and_a_url() {
    let mut td = TestDaemon::new_with_pw_recorder();
    td.core.state.queue = songs("t", 1);
    assert!(matches!(
        td.core
            .extend_with_random_and_play(Vec::new(), Ok("u".into()), None),
        Continued::NoSongs
    ));
    match td
        .core
        .extend_with_random_and_play(songs("n", 1), Err("no server".into()), None)
    {
        Continued::Refused(Some(n)) => {
            assert_eq!(n.message, "Failed to get stream URL: no server")
        }
        _ => panic!("no URL"),
    }
    assert_eq!(ids(&td.core.state.queue), vec!["t0", "n0"]);
    assert_eq!(td.core.state.queue_position, None);
}

#[test]
fn an_offset_is_sought_before_the_track_runs() {
    assert_eq!(
        DaemonCore::unpause_commands(Some(d(12.5))),
        vec![MpvController::seek(d(12.5)), MpvController::resume()]
    );
    assert_eq!(
        DaemonCore::unpause_commands(None),
        vec![MpvController::resume()]
    );
}

#[test]
fn a_taken_prebuffer_load_counts_as_a_load() {
    let mut td = TestDaemon::new_with_pw_recorder();
    let before = td.core.stamp_loadfile();
    assert_eq!(td.core.prebuffer_loaded(false), None);
    assert!(!td.core.settle_superseded(before), "nothing was loaded");
    let gen = td.core.prebuffer_loaded(true).unwrap();
    assert_ne!(gen, before);
    assert!(td.core.settle_superseded(before));
    assert!(!td.core.settle_superseded(gen));
}

#[test]
fn later_loads_supersede_older_settles() {
    let mut td = TestDaemon::new_with_pw_recorder();
    let first = td.core.stamp_loadfile();
    assert!(!td.core.settle_superseded(first));
    for _ in 0..5 {
        let newer = td.core.stamp_loadfile();
        assert!(td.core.settle_superseded(first));
        assert!(!td.core.settle_superseded(newer));
    }
    td.core.tasks.loadfile_gen = u64::MAX;
    assert_eq!(td.core.stamp_loadfile(), 0, "the count goes round");
}

#[test]
fn back_leads_back_after_a_skip() {
    for repeat in [RepeatMode::Off, RepeatMode::One, RepeatMode::All] {
        for pos in 0..3 {
            let mut td = TestDaemon::new_with_pw_recorder();
            td.core.state.config.repeat_mode = repeat;
            td.core.state.queue = songs("t", 3);
            td.core.state.queue_position = Some(pos);
            if let Advance::Play(next) = td.core.next_track(false) {
                td.play_queue_position(next, PlayMode::Direct);
                assert_eq!(td.core.prev_track(), Back::Play(pos));
            }
        }
    }
}

#[test]
fn leaving_playback_always_releases_the_device() {
    let mut td = TestDaemon::new_with_pw_recorder();
    td.core.state.now_playing.state = PlaybackState::Playing;
    for parts in [
        td.core.pause_playback(),
        DaemonCore::finish_at_queue_end(),
        DaemonCore::stop_playback(),
        DaemonCore::stop_keep_queue(),
        DaemonCore::halt_keep_queue(),
    ] {
        assert_eq!(parts[0], Halt::CancelPrebuffer);
        assert_eq!(parts[1], Halt::StopMpv);
        assert_eq!(parts.last(), Some(&Halt::ReleaseRate));
        assert!(parts.contains(&Halt::TellNowPlaying));
    }
}

#[test]
fn unloading_keeps_the_place_in_the_queue() {
    let mut td = TestDaemon::new_with_pw_recorder();
    td.core.state.queue = songs("t", 3);
    td.play_queue_position(2, PlayMode::Direct);
    td.core.seeked(d(50.0), true);
    td.halt(DaemonCore::halt_keep_queue());
    assert_eq!(td.core.state.now_playing.song, None);
    assert_eq!(td.core.state.now_playing.volume, 80);
    let r = td.core.resume_playback().unwrap();
    assert_eq!((r.pos, r.start_at), (2, d(0.0)));
}
