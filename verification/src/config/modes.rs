//! Playback modes that the configuration selects.

use crate::strings::same_text;
use vstd::prelude::*;

verus! {

/// Queue repeat behavior.
#[derive(Debug, Clone, Copy, PartialEq, Eq, Structural)]
pub enum RepeatMode {
    /// Stop at the end of the queue.
    Off,
    /// Repeat the current track.
    One,
    /// Wrap to the start at the end of the queue.
    All,
}

impl Default for RepeatMode {
    fn default() -> (r: Self)
        ensures
            r == RepeatMode::Off,
    {
        RepeatMode::Off
    }
}

/// The position after `current` where the queue does not wrap.
pub open spec fn following(current: int, queue_len: int) -> Option<int> {
    if current + 1 < queue_len {
        Some(current + 1)
    } else {
        None
    }
}

/// The position after `current` where the end wraps to the start.
pub open spec fn following_wrapped(current: int, queue_len: int) -> Option<int> {
    Some((current + 1) % queue_len)
}

/// The integer behind an optional position.
pub open spec fn position_of(o: Option<usize>) -> Option<int> {
    match o {
        Some(p) => Some(p as int),
        None => None,
    }
}

impl RepeatMode {
    /// The label as characters.
    pub open spec fn label_text(self) -> Seq<char> {
        match self {
            RepeatMode::Off => "off"@,
            RepeatMode::One => "one"@,
            RepeatMode::All => "all"@,
        }
    }

    /// The mode after this one in `Off -> One -> All -> Off`.
    pub open spec fn cycled(self) -> RepeatMode {
        match self {
            RepeatMode::Off => RepeatMode::One,
            RepeatMode::One => RepeatMode::All,
            RepeatMode::All => RepeatMode::Off,
        }
    }

    /// Where playback goes when the track at `current` has ended.
    pub open spec fn auto_target(self, current: int, queue_len: int) -> Option<int> {
        if queue_len == 0 {
            None
        } else {
            match self {
                RepeatMode::One => Some(current),
                RepeatMode::All => following_wrapped(current, queue_len),
                RepeatMode::Off => following(current, queue_len),
            }
        }
    }

    /// Where a manual skip goes from `current`.
    pub open spec fn manual_target(self, current: int, queue_len: int) -> Option<int> {
        if queue_len == 0 {
            None
        } else {
            match self {
                RepeatMode::One => following_wrapped(current, queue_len),
                RepeatMode::All => following_wrapped(current, queue_len),
                RepeatMode::Off => following(current, queue_len),
            }
        }
    }

    /// Where a manual step back goes from the first position.
    pub open spec fn wrap_target(self, queue_len: int) -> Option<int> {
        if queue_len == 0 || self == RepeatMode::Off {
            None
        } else {
            Some(queue_len - 1)
        }
    }

    /// The name of the mode in the configuration file.
    pub open spec fn file_name(self) -> Seq<char> {
        match self {
            RepeatMode::Off => "Off"@,
            RepeatMode::One => "One"@,
            RepeatMode::All => "All"@,
        }
    }

    /// Lowercase label shown in the footer.
    #[must_use]
    pub fn label(self) -> (r: &'static str)
        ensures
            r@ == self.label_text(),
    {
        match self {
            RepeatMode::Off => "off",
            RepeatMode::One => "one",
            RepeatMode::All => "all",
        }
    }

    /// Step through `Off -> One -> All -> Off` for UI cycling.
    #[must_use]
    pub fn cycle(self) -> (r: Self)
        ensures
            r == self.cycled(),
    {
        match self {
            RepeatMode::Off => RepeatMode::One,
            RepeatMode::One => RepeatMode::All,
            RepeatMode::All => RepeatMode::Off,
        }
    }

    /// Auto-advance: `One` repeats current, `All` wraps, `Off` returns `None`
    /// at the end (caller handles auto-continue / stop).
    #[must_use]
    pub fn next_auto(self, current: usize, queue_len: usize) -> (r: Option<usize>)
        requires
            queue_len == 0 || self == RepeatMode::One || current < usize::MAX,
        ensures
            position_of(r) == self.auto_target(current as int, queue_len as int),
    {
        if queue_len == 0 {
            return None;
        }
        match self {
            RepeatMode::One => Some(current),
            RepeatMode::All => Some((current + 1) % queue_len),
            RepeatMode::Off => {
                if current + 1 < queue_len {
                    Some(current + 1)
                } else {
                    None
                }
            },
        }
    }

    /// Manual skip: `One` is ignored, the user wants to move.
    #[must_use]
    pub fn next_manual(self, current: usize, queue_len: usize) -> (r: Option<usize>)
        requires
            queue_len == 0 || current < usize::MAX,
        ensures
            position_of(r) == self.manual_target(current as int, queue_len as int),
    {
        if queue_len == 0 {
            return None;
        }
        match self {
            RepeatMode::All | RepeatMode::One => Some((current + 1) % queue_len),
            RepeatMode::Off => {
                if current + 1 < queue_len {
                    Some(current + 1)
                } else {
                    None
                }
            },
        }
    }

    /// Manual prev from position 0: `All`/`One` wrap to the last track, `Off`
    /// returns `None` (caller restarts current).
    #[must_use]
    pub fn prev_wrap(self, queue_len: usize) -> (r: Option<usize>)
        ensures
            position_of(r) == self.wrap_target(queue_len as int),
    {
        if queue_len == 0 {
            return None;
        }
        match self {
            RepeatMode::All | RepeatMode::One => Some(queue_len - 1),
            RepeatMode::Off => None,
        }
    }

    /// The name written to the configuration file.
    #[must_use]
    pub fn to_file_name(self) -> (r: &'static str)
        ensures
            r@ == self.file_name(),
    {
        match self {
            RepeatMode::Off => "Off",
            RepeatMode::One => "One",
            RepeatMode::All => "All",
        }
    }

    /// The mode of that name, if there is one.
    #[must_use]
    pub fn from_file_name(name: &str) -> (r: Option<Self>)
        ensures
            match r {
                Some(mode) => name@ == mode.file_name(),
                None => forall|mode: RepeatMode| name@ != mode.file_name(),
            },
    {
        if same_text(name, "Off") {
            Some(RepeatMode::Off)
        } else if same_text(name, "One") {
            Some(RepeatMode::One)
        } else if same_text(name, "All") {
            Some(RepeatMode::All)
        } else {
            None
        }
    }
}

/// `ReplayGain` adjustment mode, passed straight through as mpv's
/// `--replaygain` value / `replaygain` property.
#[derive(Debug, Clone, Copy, PartialEq, Eq, Structural)]
pub enum ReplayGainMode {
    /// No `ReplayGain` adjustment.
    Off,
    /// Adjust to the per-track `ReplayGain` value.
    Track,
    /// Adjust to the per-album `ReplayGain` value.
    Album,
}

impl Default for ReplayGainMode {
    fn default() -> (r: Self)
        ensures
            r == ReplayGainMode::Off,
    {
        ReplayGainMode::Off
    }
}

impl ReplayGainMode {
    /// mpv's word for the mode, which is also its name in the configuration file.
    pub open spec fn mpv_text(self) -> Seq<char> {
        match self {
            ReplayGainMode::Off => "no"@,
            ReplayGainMode::Track => "track"@,
            ReplayGainMode::Album => "album"@,
        }
    }

    /// The mode after this one in `Off -> Track -> Album -> Off`.
    pub open spec fn cycled(self) -> ReplayGainMode {
        match self {
            ReplayGainMode::Off => ReplayGainMode::Track,
            ReplayGainMode::Track => ReplayGainMode::Album,
            ReplayGainMode::Album => ReplayGainMode::Off,
        }
    }

    /// The mode before this one in the same cycle.
    pub open spec fn preceding(self) -> ReplayGainMode {
        match self {
            ReplayGainMode::Off => ReplayGainMode::Album,
            ReplayGainMode::Track => ReplayGainMode::Off,
            ReplayGainMode::Album => ReplayGainMode::Track,
        }
    }

    /// mpv's `--replaygain` / `replaygain` property value; identical to the
    /// TOML value (`"no"` / `"track"` / `"album"`).
    #[must_use]
    pub fn mpv_value(self) -> (r: &'static str)
        ensures
            r@ == self.mpv_text(),
    {
        match self {
            ReplayGainMode::Off => "no",
            ReplayGainMode::Track => "track",
            ReplayGainMode::Album => "album",
        }
    }

    /// Label shown in the settings TUI.
    #[must_use]
    pub fn label(self) -> (r: &'static str)
        ensures
            r@ == (match self {
                ReplayGainMode::Off => "Off"@,
                ReplayGainMode::Track => "Track"@,
                ReplayGainMode::Album => "Album"@,
            }),
    {
        match self {
            ReplayGainMode::Off => "Off",
            ReplayGainMode::Track => "Track",
            ReplayGainMode::Album => "Album",
        }
    }

    /// Step through `Off -> Track -> Album -> Off` for UI cycling.
    #[must_use]
    pub fn cycle(self) -> (r: Self)
        ensures
            r == self.cycled(),
    {
        match self {
            ReplayGainMode::Off => ReplayGainMode::Track,
            ReplayGainMode::Track => ReplayGainMode::Album,
            ReplayGainMode::Album => ReplayGainMode::Off,
        }
    }

    /// Step backward through the same cycle, for the settings page's Left key.
    #[must_use]
    pub fn prev(self) -> (r: Self)
        ensures
            r == self.preceding(),
    {
        match self {
            ReplayGainMode::Off => ReplayGainMode::Album,
            ReplayGainMode::Track => ReplayGainMode::Off,
            ReplayGainMode::Album => ReplayGainMode::Track,
        }
    }

    /// The mode of that name in the configuration file, if there is one.
    #[must_use]
    pub fn from_file_name(name: &str) -> (r: Option<Self>)
        ensures
            match r {
                Some(mode) => name@ == mode.mpv_text(),
                None => forall|mode: ReplayGainMode| name@ != mode.mpv_text(),
            },
    {
        if same_text(name, "no") {
            Some(ReplayGainMode::Off)
        } else if same_text(name, "track") {
            Some(ReplayGainMode::Track)
        } else if same_text(name, "album") {
            Some(ReplayGainMode::Album)
        } else {
            None
        }
    }
}

/// macOS-only `CoreAudio` output mode, applied as mpv arguments at spawn.
#[derive(Debug, Clone, Copy, PartialEq, Eq, Structural)]
pub enum MacosAudioMode {
    /// Shared `CoreAudio` output. The system mixer may resample to the
    /// device's nominal rate; this is mpv's default.
    Off,
    /// Shared output, but the device's physical format (including sample
    /// rate) follows each track.
    PhysicalFormat,
    /// Exclusive (hog) mode: direct device access with no system mixing.
    Exclusive,
}

impl Default for MacosAudioMode {
    fn default() -> (r: Self)
        ensures
            r == MacosAudioMode::Off,
    {
        MacosAudioMode::Off
    }
}

impl MacosAudioMode {
    /// The argument that the mode adds to mpv's command line.
    pub open spec fn argument(self) -> Option<Seq<char>> {
        match self {
            MacosAudioMode::Off => None,
            MacosAudioMode::PhysicalFormat => Some("--coreaudio-change-physical-format=yes"@),
            MacosAudioMode::Exclusive => Some("--audio-exclusive=yes"@),
        }
    }

    /// The name of the mode in the configuration file.
    pub open spec fn file_name(self) -> Seq<char> {
        match self {
            MacosAudioMode::Off => "off"@,
            MacosAudioMode::PhysicalFormat => "physical-format"@,
            MacosAudioMode::Exclusive => "exclusive"@,
        }
    }

    /// True for [`MacosAudioMode::Off`], whose key stays out of saved files.
    #[must_use]
    pub fn is_off(&self) -> (r: bool)
        ensures
            r == (*self == MacosAudioMode::Off),
    {
        matches!(self, MacosAudioMode::Off)
    }

    /// The mpv argument this mode adds at spawn, or `None` for shared output.
    #[must_use]
    pub fn mpv_arg(self) -> (r: Option<&'static str>)
        ensures
            match r {
                Some(arg) => self.argument() == Some(arg@),
                None => self.argument() is None,
            },
    {
        match self {
            MacosAudioMode::Off => None,
            MacosAudioMode::PhysicalFormat => Some("--coreaudio-change-physical-format=yes"),
            MacosAudioMode::Exclusive => Some("--audio-exclusive=yes"),
        }
    }

    /// The name written to the configuration file.
    #[must_use]
    pub fn to_file_name(self) -> (r: &'static str)
        ensures
            r@ == self.file_name(),
    {
        match self {
            MacosAudioMode::Off => "off",
            MacosAudioMode::PhysicalFormat => "physical-format",
            MacosAudioMode::Exclusive => "exclusive",
        }
    }

    /// The mode of that name, if there is one.
    #[must_use]
    pub fn from_file_name(name: &str) -> (r: Option<Self>)
        ensures
            match r {
                Some(mode) => name@ == mode.file_name(),
                None => forall|mode: MacosAudioMode| name@ != mode.file_name(),
            },
    {
        if same_text(name, "off") {
            Some(MacosAudioMode::Off)
        } else if same_text(name, "physical-format") {
            Some(MacosAudioMode::PhysicalFormat)
        } else if same_text(name, "exclusive") {
            Some(MacosAudioMode::Exclusive)
        } else {
            None
        }
    }
}

// ---------------------------------------------------------------------------
// Laws.
// ---------------------------------------------------------------------------

/// Cycling the repeat mode three times comes back, and not before.
pub proof fn law_repeat_cycle_has_period_three(mode: RepeatMode)
    ensures
        mode.cycled() != mode,
        mode.cycled().cycled() != mode,
        mode.cycled().cycled().cycled() == mode,
{
}

/// `prev` undoes `cycle` and `cycle` undoes `prev`.
pub proof fn law_replay_gain_prev_undoes_cycle(mode: ReplayGainMode)
    ensures
        mode.cycled().preceding() == mode,
        mode.preceding().cycled() == mode,
        mode.cycled() != mode,
        mode.cycled().cycled().cycled() == mode,
{
}

/// From a position in the queue every target is again a position in the queue.
pub proof fn law_targets_stay_in_the_queue(mode: RepeatMode, current: int, queue_len: int)
    requires
        0 <= current < queue_len,
    ensures
        mode.auto_target(current, queue_len) matches Some(p) ==> 0 <= p < queue_len,
        mode.manual_target(current, queue_len) matches Some(p) ==> 0 <= p < queue_len,
        mode.wrap_target(queue_len) matches Some(p) ==> 0 <= p < queue_len,
{
}

/// Only a queue that does not repeat runs out, and only at its last track.
pub proof fn law_only_off_ends_at_the_last_track(mode: RepeatMode, current: int, queue_len: int)
    requires
        0 <= current < queue_len,
    ensures
        mode.auto_target(current, queue_len) is None <==> mode == RepeatMode::Off && current
            == queue_len - 1,
        mode.manual_target(current, queue_len) is None <==> mode == RepeatMode::Off && current
            == queue_len - 1,
{
    if mode != RepeatMode::Off {
        assert(mode.manual_target(current, queue_len) is Some);
    }
}

/// Where `k` automatic advances with `All` lead.
pub open spec fn advanced_all(current: int, queue_len: int, k: nat) -> int
    decreases k,
{
    if k == 0 {
        current
    } else {
        match RepeatMode::All.auto_target(
            advanced_all(current, queue_len, (k - 1) as nat),
            queue_len,
        ) {
            Some(p) => p,
            None => current,
        }
    }
}

/// With `All`, `k` advances move `k` places around the queue, so as many
/// advances as there are tracks come back to the start.
pub proof fn law_all_goes_round_the_queue(current: int, queue_len: int, k: nat)
    requires
        0 <= current < queue_len,
    ensures
        advanced_all(current, queue_len, k) == (current + k) % queue_len,
        advanced_all(current, queue_len, queue_len as nat) == current,
{
    lemma_all_moves(current, queue_len, k);
    lemma_all_moves(current, queue_len, queue_len as nat);
    vstd::arithmetic::div_mod::lemma_mod_add_multiples_vanish(current, queue_len);
    vstd::arithmetic::div_mod::lemma_small_mod(current as nat, queue_len as nat);
}

proof fn lemma_all_moves(current: int, queue_len: int, k: nat)
    requires
        0 <= current < queue_len,
    ensures
        advanced_all(current, queue_len, k) == (current + k) % queue_len,
    decreases k,
{
    if k == 0 {
        vstd::arithmetic::div_mod::lemma_small_mod(current as nat, queue_len as nat);
    } else {
        lemma_all_moves(current, queue_len, (k - 1) as nat);
        vstd::arithmetic::div_mod::lemma_add_mod_noop(current + k - 1, 1, queue_len);
        let before = advanced_all(current, queue_len, (k - 1) as nat);
        vstd::arithmetic::div_mod::lemma_add_mod_noop(before, 1, queue_len);
        vstd::arithmetic::div_mod::lemma_mod_twice(current + k - 1, queue_len);
    }
}

/// Stepping back from the first track after the end wrapped undoes the wrap.
pub proof fn law_wrap_back_undoes_wrap_forward(mode: RepeatMode, queue_len: int)
    requires
        queue_len > 0,
        mode != RepeatMode::Off,
    ensures
        mode.manual_target(queue_len - 1, queue_len) == Some(0int),
        mode.wrap_target(queue_len) == Some(queue_len - 1),
{
    assert(queue_len % queue_len == 0) by (nonlinear_arith)
        requires
            queue_len > 0,
    ;
}

/// No two modes share a name in the configuration file, so what is read back
/// for a written name is the mode that was written.
pub proof fn law_file_names_are_distinct(
    a: RepeatMode,
    b: RepeatMode,
    c: ReplayGainMode,
    d: ReplayGainMode,
    e: MacosAudioMode,
    f: MacosAudioMode,
)
    ensures
        a.file_name() == b.file_name() <==> a == b,
        c.mpv_text() == d.mpv_text() <==> c == d,
        e.file_name() == f.file_name() <==> e == f,
{
    reveal_strlit("Off");
    reveal_strlit("One");
    reveal_strlit("All");
    assert("Off"@[1] != "One"@[1]);
    assert("Off"@[0] != "All"@[0]);
    assert("One"@[0] != "All"@[0]);
    reveal_strlit("no");
    reveal_strlit("track");
    reveal_strlit("album");
    assert("track"@[0] != "album"@[0]);
    assert("no"@.len() != "track"@.len());
    assert("no"@.len() != "album"@.len());
    reveal_strlit("off");
    reveal_strlit("physical-format");
    reveal_strlit("exclusive");
    assert("off"@.len() != "exclusive"@.len());
    assert("off"@.len() != "physical-format"@.len());
    assert("exclusive"@.len() != "physical-format"@.len());
}

} // verus!
