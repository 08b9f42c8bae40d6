//! Repeat, `ReplayGain` and output modes.

use ferrosonic::config::{MacosAudioMode, RepeatMode, ReplayGainMode};

#[test]
fn replay_gain_mode_cycle_visits_all_three_and_reverses() {
    assert_eq!(ReplayGainMode::Off.cycle(), ReplayGainMode::Track);
    assert_eq!(ReplayGainMode::Track.cycle(), ReplayGainMode::Album);
    assert_eq!(ReplayGainMode::Album.cycle(), ReplayGainMode::Off);
    for m in [
        ReplayGainMode::Off,
        ReplayGainMode::Track,
        ReplayGainMode::Album,
    ] {
        assert_eq!(m.cycle().prev(), m, "prev undoes cycle for {m:?}");
    }
}

#[test]
fn replay_gain_mode_serializes_to_mpv_vocabulary() {
    for (mode, expected) in [
        (ReplayGainMode::Off, "\"no\""),
        (ReplayGainMode::Track, "\"track\""),
        (ReplayGainMode::Album, "\"album\""),
    ] {
        let s = toml::Value::String(mode.mpv_value().to_string());
        assert_eq!(s.to_string(), expected, "{mode:?} serializes as {expected}");
        assert_eq!(mode.mpv_value(), expected.trim_matches('"'));
        assert_eq!(
            ReplayGainMode::from_file_name(expected.trim_matches('"')),
            Some(mode)
        );
    }
    assert_eq!(ReplayGainMode::from_file_name("off"), None);
}

#[test]
fn repeat_mode_serializes_in_pascal_case() {
    for (mode, expected) in [
        (RepeatMode::Off, "\"Off\""),
        (RepeatMode::One, "\"One\""),
        (RepeatMode::All, "\"All\""),
    ] {
        let s = toml::Value::String(mode.to_file_name().to_string());
        assert_eq!(s.to_string(), expected, "{mode:?} serializes as {expected}");
        assert_eq!(
            RepeatMode::from_file_name(expected.trim_matches('"')),
            Some(mode)
        );
    }
    assert_eq!(RepeatMode::from_file_name("all"), None);
}

#[test]
fn replay_gain_labels_are_capitalised() {
    assert_eq!(ReplayGainMode::Off.label(), "Off");
    assert_eq!(ReplayGainMode::Track.label(), "Track");
    assert_eq!(ReplayGainMode::Album.label(), "Album");
    assert_eq!(ReplayGainMode::default(), ReplayGainMode::Off);
}

#[test]
fn macos_modes_give_their_argument() {
    assert_eq!(MacosAudioMode::Off.mpv_arg(), None);
    assert_eq!(
        MacosAudioMode::PhysicalFormat.mpv_arg(),
        Some("--coreaudio-change-physical-format=yes")
    );
    assert_eq!(
        MacosAudioMode::Exclusive.mpv_arg(),
        Some("--audio-exclusive=yes")
    );
    assert!(MacosAudioMode::Off.is_off());
    assert!(!MacosAudioMode::Exclusive.is_off());
    assert_eq!(MacosAudioMode::default(), MacosAudioMode::Off);
}

#[test]
fn file_names_read_back() {
    for m in [
        MacosAudioMode::Off,
        MacosAudioMode::PhysicalFormat,
        MacosAudioMode::Exclusive,
    ] {
        assert_eq!(MacosAudioMode::from_file_name(m.to_file_name()), Some(m));
    }
    assert_eq!(MacosAudioMode::from_file_name("bogus"), None);
}

#[test]
fn cycle_visits_all_three_modes() {
    assert_eq!(RepeatMode::Off.cycle(), RepeatMode::One);
    assert_eq!(RepeatMode::One.cycle(), RepeatMode::All);
    assert_eq!(RepeatMode::All.cycle(), RepeatMode::Off);
}

#[test]
fn labels_are_lowercase_words() {
    assert_eq!(RepeatMode::Off.label(), "off");
    assert_eq!(RepeatMode::One.label(), "one");
    assert_eq!(RepeatMode::All.label(), "all");
}

#[test]
fn next_manual_off_advances_then_stops_at_end() {
    let mode = RepeatMode::Off;
    assert_eq!(mode.next_manual(0, 3), Some(1));
    assert_eq!(mode.next_manual(1, 3), Some(2));
    assert_eq!(
        mode.next_manual(2, 3),
        None,
        "Off does not wrap on manual Next"
    );
}

#[test]
fn next_manual_all_wraps_at_end() {
    let mode = RepeatMode::All;
    assert_eq!(mode.next_manual(0, 3), Some(1));
    assert_eq!(mode.next_manual(2, 3), Some(0), "All wraps at end");
}

#[test]
fn next_manual_one_still_advances_on_manual_skip() {
    let mode = RepeatMode::One;
    assert_eq!(
        mode.next_manual(0, 3),
        Some(1),
        "manual Next under repeat-One should still move forward"
    );
    assert_eq!(
        mode.next_manual(2, 3),
        Some(0),
        "repeat-One wraps on manual Next"
    );
}

#[test]
fn next_auto_off_advances_then_stops_at_end() {
    let mode = RepeatMode::Off;
    assert_eq!(mode.next_auto(0, 3), Some(1));
    assert_eq!(mode.next_auto(1, 3), Some(2));
    assert_eq!(
        mode.next_auto(2, 3),
        None,
        "Off returns None at end so the caller can trigger auto-continue or stop"
    );
}

#[test]
fn next_auto_all_wraps_at_end() {
    let mode = RepeatMode::All;
    assert_eq!(mode.next_auto(2, 3), Some(0), "All wraps on auto-advance");
}

#[test]
fn next_auto_one_repeats_current_track() {
    let mode = RepeatMode::One;
    assert_eq!(
        mode.next_auto(0, 3),
        Some(0),
        "repeat-One repeats the same index on auto-advance"
    );
    assert_eq!(mode.next_auto(2, 3), Some(2));
}

#[test]
fn next_handlers_return_none_on_empty_queue() {
    for mode in [RepeatMode::Off, RepeatMode::One, RepeatMode::All] {
        assert_eq!(
            mode.next_manual(0, 0),
            None,
            "{mode:?} manual on empty queue"
        );
        assert_eq!(mode.next_auto(0, 0), None, "{mode:?} auto on empty queue");
    }
}

#[test]
fn prev_wrap_off_returns_none_at_start() {
    assert_eq!(
        RepeatMode::Off.prev_wrap(3),
        None,
        "Off does not wrap on Previous from position 0"
    );
}

#[test]
fn prev_wrap_all_and_one_wrap_to_last_track() {
    assert_eq!(RepeatMode::All.prev_wrap(3), Some(2));
    assert_eq!(RepeatMode::One.prev_wrap(3), Some(2));
}

#[test]
fn prev_wrap_empty_queue_returns_none() {
    for mode in [RepeatMode::Off, RepeatMode::One, RepeatMode::All] {
        assert_eq!(mode.prev_wrap(0), None);
    }
}

#[test]
fn all_goes_round_and_comes_back() {
    let mut pos: usize = 2;
    for _ in 0..5 {
        pos = RepeatMode::All.next_auto(pos, 5).unwrap();
    }
    assert_eq!(pos, 2, "as many advances as tracks come back");
    assert_eq!(RepeatMode::default(), RepeatMode::Off);
}
