//! What the configuration does, call by call: its modes, its defaults, what is
//! saved and loaded, and where the password comes from.

use crate::binary64::Binary64;
use crate::command::CommandLine;
use crate::config::defaults::is_absolute_url;
use crate::config::keys::{
    file_keys, known_key, lemma_known_keys, unknown_among, unknown_keys_among,
};
use crate::config::modes::{MacosAudioMode, RepeatMode, ReplayGainMode};
use crate::config::password::{
    env_expanded, expand_env_tilde, extract_secret_line, judge_output, password_eval_command,
    password_eval_finish, password_eval_wait, password_file_text, EnvVar, EvalLook, EvalWait,
    PasswordSource, SourceReply,
};
use crate::config::settings::{
    deserialize_replay_gain_preamp, validate_replay_gain_preamp, Config, ConfigError, ConfigOnDisk,
    PasswordEval, PlaybackFilters,
};
use crate::secret::Secret;
use crate::strings::{lossy_text, signed_decimal, text_of, texts, trim_text};
use vstd::prelude::*;

verus! {

// ---------------------------------------------------------------------------
// Modes.
// ---------------------------------------------------------------------------

/// Where the end of a track and a manual skip lead, by mode and position.
pub proof fn law_targets(
    mode: RepeatMode,
    current: usize,
    len: usize,
    auto: Option<usize>,
    manual: Option<usize>,
)
    requires
        call_ensures(RepeatMode::next_auto, (mode, current, len), auto),
        call_ensures(RepeatMode::next_manual, (mode, current, len), manual),
    ensures
        len == 0 ==> auto is None && manual is None,
        len > 0 && current + 1 < len ==> manual == Some((current + 1) as usize),
        len > 0 && current + 1 == len && mode != RepeatMode::Off ==> manual == Some(0usize),
        len > 0 && mode != RepeatMode::Off ==> (manual matches Some(p) && p == (current + 1) % (
        len as int)),
        len > 0 && current + 1 >= len && mode == RepeatMode::Off ==> manual is None,
        len > 0 && mode == RepeatMode::One ==> auto == Some(current),
        len > 0 && mode != RepeatMode::One ==> auto == manual,
{
    if len > 0 {
        if current + 1 < len {
            vstd::arithmetic::div_mod::lemma_small_mod((current + 1) as nat, len as nat);
        } else if current + 1 == len {
            vstd::arithmetic::div_mod::lemma_mod_self_0(len as int);
        }
        vstd::arithmetic::div_mod::lemma_mod_bound(current as int + 1, len as int);
    }
}

/// A step back from the front goes to the last track where the queue repeats.
pub proof fn law_step_back_from_the_front(mode: RepeatMode, len: usize, r: Option<usize>)
    requires
        call_ensures(RepeatMode::prev_wrap, (mode, len), r),
    ensures
        r is Some <==> len > 0 && mode != RepeatMode::Off,
        r matches Some(p) ==> p == len - 1,
{
}

/// The modes in the order in which they are stepped through, their labels, and
/// how stepping back undoes a step.
pub proof fn law_stepping_through_modes(
    repeat: RepeatMode,
    gain: ReplayGainMode,
    next_repeat: RepeatMode,
    label: &'static str,
    next_gain: ReplayGainMode,
    previous_gain: ReplayGainMode,
    gain_label: &'static str,
)
    requires
        call_ensures(RepeatMode::cycle, (repeat,), next_repeat),
        call_ensures(RepeatMode::label, (repeat,), label),
        call_ensures(ReplayGainMode::cycle, (gain,), next_gain),
        call_ensures(ReplayGainMode::prev, (gain,), previous_gain),
        call_ensures(ReplayGainMode::label, (gain,), gain_label),
    ensures
        repeat == RepeatMode::Off ==> next_repeat == RepeatMode::One && label@ == "off"@,
        repeat == RepeatMode::One ==> next_repeat == RepeatMode::All && label@ == "one"@,
        repeat == RepeatMode::All ==> next_repeat == RepeatMode::Off && label@ == "all"@,
        gain == ReplayGainMode::Off ==> next_gain == ReplayGainMode::Track && previous_gain
            == ReplayGainMode::Album && gain_label@ == "Off"@,
        gain == ReplayGainMode::Track ==> next_gain == ReplayGainMode::Album && previous_gain
            == ReplayGainMode::Off && gain_label@ == "Track"@,
        gain == ReplayGainMode::Album ==> next_gain == ReplayGainMode::Off && previous_gain
            == ReplayGainMode::Track && gain_label@ == "Album"@,
{
}

/// A mode that was written to the file is read back from its name.
pub proof fn law_modes_are_read_back(
    repeat: RepeatMode,
    gain: ReplayGainMode,
    macos: MacosAudioMode,
    repeat_name: &'static str,
    gain_name: &'static str,
    macos_name: &'static str,
    repeat_read: Option<RepeatMode>,
    gain_read: Option<ReplayGainMode>,
    macos_read: Option<MacosAudioMode>,
)
    requires
        call_ensures(RepeatMode::to_file_name, (repeat,), repeat_name),
        call_ensures(ReplayGainMode::mpv_value, (gain,), gain_name),
        call_ensures(MacosAudioMode::to_file_name, (macos,), macos_name),
        call_ensures(RepeatMode::from_file_name, (repeat_name,), repeat_read),
        call_ensures(ReplayGainMode::from_file_name, (gain_name,), gain_read),
        call_ensures(MacosAudioMode::from_file_name, (macos_name,), macos_read),
    ensures
        repeat_read == Some(repeat),
        gain_read == Some(gain),
        macos_read == Some(macos),
        repeat_name@ == match repeat {
            RepeatMode::Off => "Off"@,
            RepeatMode::One => "One"@,
            RepeatMode::All => "All"@,
        },
        gain_name@ == match gain {
            ReplayGainMode::Off => "no"@,
            ReplayGainMode::Track => "track"@,
            ReplayGainMode::Album => "album"@,
        },
        macos_name@ == match macos {
            MacosAudioMode::Off => "off"@,
            MacosAudioMode::PhysicalFormat => "physical-format"@,
            MacosAudioMode::Exclusive => "exclusive"@,
        },
{
    let r = match repeat_read {
        Some(m) => m,
        None => repeat,
    };
    let g = match gain_read {
        Some(m) => m,
        None => gain,
    };
    let m = match macos_read {
        Some(m) => m,
        None => macos,
    };
    crate::config::modes::law_file_names_are_distinct(repeat, r, gain, g, macos, m);
}

/// A name that no mode has is not read as one.
pub proof fn law_other_names_are_no_modes(
    name: &str,
    repeat: Option<RepeatMode>,
    gain: Option<ReplayGainMode>,
    macos: Option<MacosAudioMode>,
)
    requires
        call_ensures(RepeatMode::from_file_name, (name,), repeat),
        call_ensures(ReplayGainMode::from_file_name, (name,), gain),
        call_ensures(MacosAudioMode::from_file_name, (name,), macos),
    ensures
        repeat is Some ==> name@ == "Off"@ || name@ == "One"@ || name@ == "All"@,
        gain is Some ==> name@ == "no"@ || name@ == "track"@ || name@ == "album"@,
        macos is Some ==> name@ == "off"@ || name@ == "physical-format"@ || name@ == "exclusive"@,
{
}

/// What a macOS mode adds to mpv's command line.
pub proof fn law_macos_argument(mode: MacosAudioMode, off: bool, arg: Option<&'static str>)
    requires
        call_ensures(MacosAudioMode::is_off, (&mode,), off),
        call_ensures(MacosAudioMode::mpv_arg, (mode,), arg),
    ensures
        off <==> mode == MacosAudioMode::Off,
        arg is None <==> off,
        mode == MacosAudioMode::PhysicalFormat ==> arg->0@
            == "--coreaudio-change-physical-format=yes"@,
        mode == MacosAudioMode::Exclusive ==> arg->0@ == "--audio-exclusive=yes"@,
{
}

// ---------------------------------------------------------------------------
// Defaults and validation.
// ---------------------------------------------------------------------------

/// The documented default of every setting.
pub proof fn law_defaults(c: Config)
    requires
        call_ensures(Config::new, (), c),
    ensures
        c.base_url@.len() == 0,
        c.username@.len() == 0,
        c.password@.len() == 0,
        c.password_file is None,
        c.password_eval is None,
        !c.password_keyring,
        !c.password_from_env,
        c.theme@.len() == 0,
        !c.cava,
        c.cava_size == 40,
        c.daemon,
        !c.auto_continue,
        c.stream_on_start,
        c.search_debounce_ms == 200,
        c.search_artist_limit == 100,
        c.search_album_limit == 100,
        c.search_song_limit == 200,
        c.resume_on_start,
        !c.autoplay_on_start,
        !c.offline_cache_enabled,
        c.offline_cache_max_mb == 2048,
        c.repeat_mode == RepeatMode::Off,
        !c.cover_art,
        c.cover_art_size == 16,
        c.scrobble,
        c.notifications,
        c.rate_switch_delay_ms == 500,
        c.macos_audio_mode == MacosAudioMode::Off,
        c.music_folder_id is None,
        !c.music_folder_chosen,
        c.replay_gain_mode == ReplayGainMode::Off,
        c.replay_gain_preamp.bits == 0,
        !c.replay_gain_clip,
        c.playback_filters.min_rating == 0,
        c.playback_filters.excluded_genres@.len() == 0,
        c.playback_filters.excluded_artists@.len() == 0,
        c.keybindings@.len() == 0,
{
    assert(c.playback_filters@.min_rating == 0);
    assert(c.playback_filters@.excluded_genres.len() == 0);
    assert(c.playback_filters@.excluded_artists.len() == 0);
}

/// A configuration is complete with an address, a name and a password, and
/// valid with a finite gain and an address that parses; the first of these that
/// is wrong is named.
pub proof fn law_validation(
    c: Config,
    parses: bool,
    configured: bool,
    r: Result<(), ConfigError>,
)
    requires
        call_ensures(Config::is_configured, (&c,), configured),
        call_ensures(Config::validate_with, (&c, parses), r),
    ensures
        configured <==> c.base_url@.len() > 0 && c.username@.len() > 0 && c.password@.len() > 0,
        r is Ok <==> c.replay_gain_preamp.finite() && c.base_url@.len() > 0 && parses,
        !c.replay_gain_preamp.finite() ==> r->Err_0 is InvalidValue
            && r->Err_0->InvalidValue_field@ == "ReplayGainPreamp"@,
        c.replay_gain_preamp.finite() && c.base_url@.len() == 0 ==> r->Err_0 is MissingField
            && r->Err_0->MissingField_field@ == "BaseURL"@,
        c.replay_gain_preamp.finite() && c.base_url@.len() > 0 && !parses ==> r->Err_0
            is InvalidUrl && r->Err_0->url@ == c.base_url@,
{
}

/// The address is parsed as a URL, and an address is needed; the name and the
/// password may be empty.
pub proof fn law_address_is_parsed(c: Config, r: Result<(), ConfigError>)
    requires
        call_ensures(Config::validate, (&c,), r),
    ensures
        r is Ok <==> c.replay_gain_preamp.finite() && c.base_url@.len() > 0 && is_absolute_url(
            c.base_url@,
        ),
        c.replay_gain_preamp.finite() && c.base_url@.len() == 0 ==> r->Err_0 is MissingField,
        c.replay_gain_preamp.finite() && c.base_url@.len() > 0 && r is Err ==> r->Err_0
            is InvalidUrl && r->Err_0->url@ == c.base_url@,
{
}

/// The configuration file stands where the system says; a system that does not
/// say is an error.
pub proof fn law_default_location(path: Option<String>, r: Result<String, ConfigError>)
    requires
        call_ensures(Config::default_location, (path,), r),
    ensures
        r is Ok <==> path is Some,
        r matches Ok(p) ==> p@ == path->0@,
        r matches Err(e) ==> e is NotFound && e->path@ == "default config location"@,
{
}

/// A gain counts where it is finite, whether it is set or read from a file.
pub proof fn law_gain_is_finite(
    gain: Binary64,
    set: Result<(), ConfigError>,
    read: Result<Binary64, toml::de::Error>,
)
    requires
        call_ensures(validate_replay_gain_preamp, (gain,), set),
        call_ensures(deserialize_replay_gain_preamp, (gain,), read),
    ensures
        set is Ok <==> gain.finite(),
        read is Ok <==> gain.finite(),
        read matches Ok(v) ==> v == gain,
{
}

/// Filters are the default ones only where none of them is set.
pub proof fn law_filters_are_default(f: PlaybackFilters, r: bool)
    requires
        call_ensures(PlaybackFilters::is_default, (&f,), r),
    ensures
        r <==> f.min_rating == 0 && f.year_min is None && f.year_max is None && f.duration_min_secs
            is None && f.duration_max_secs is None && f.excluded_genres@.len() == 0
            && f.excluded_artists@.len() == 0,
{
    if r {
        assert(f@.excluded_genres.len() == 0);
        assert(f@.excluded_artists.len() == 0);
        assert(f@.min_rating == 0 && f@.year_min is None && f@.year_max is None);
        assert(f@.duration_min_secs is None && f@.duration_max_secs is None);
    }
    if f.min_rating == 0 && f.year_min is None && f.year_max is None && f.duration_min_secs is None
        && f.duration_max_secs is None && f.excluded_genres@.len() == 0
        && f.excluded_artists@.len() == 0 {
        assert(f@ =~~= crate::config::settings::no_filters());
    }
}

// ---------------------------------------------------------------------------
// Saving and loading.
// ---------------------------------------------------------------------------

/// Every setting is written under its own key as it is. The password is written
/// only where it is neither empty nor held by a file, a command, the keychain
/// or the environment; settings that say nothing are left out.
pub proof fn law_what_is_saved(c: Config, d: ConfigOnDisk)
    requires
        call_ensures(Config::as_on_disk, (&c,), d),
    ensures
        ({
            let external = (c.password_file is Some && c.password_file->0@.len() > 0)
                || c.password_eval is Some || c.password_keyring || c.password_from_env;
            &&& text_of(d.base_url) == Some(c.base_url@)
            &&& text_of(d.username) == Some(c.username@)
            &&& d.password is Some <==> !external && c.password@.len() > 0
            &&& d.password is Some ==> d.password->0@ == c.password@
            &&& text_of(d.password_file) == text_of(c.password_file)
            &&& d.password_eval is Some <==> c.password_eval is Some
            &&& d.password_eval is Some ==> d.password_eval->0@ == c.password_eval->0@
            &&& d.password_keyring is Some <==> c.password_keyring
            &&& text_of(d.theme) == Some(c.theme@)
            &&& d.cava == Some(c.cava)
            &&& d.cava_size == Some(c.cava_size)
            &&& d.daemon == Some(c.daemon)
            &&& d.auto_continue == Some(c.auto_continue)
            &&& d.stream_on_start == Some(c.stream_on_start)
            &&& d.search_debounce_ms == Some(c.search_debounce_ms)
            &&& d.search_artist_limit == Some(c.search_artist_limit)
            &&& d.search_album_limit == Some(c.search_album_limit)
            &&& d.search_song_limit == Some(c.search_song_limit)
            &&& d.resume_on_start == Some(c.resume_on_start)
            &&& d.autoplay_on_start == Some(c.autoplay_on_start)
            &&& d.offline_cache_enabled == Some(c.offline_cache_enabled)
            &&& d.offline_cache_max_mb == Some(c.offline_cache_max_mb)
            &&& d.repeat_mode == Some(c.repeat_mode)
            &&& d.cover_art == Some(c.cover_art)
            &&& d.cover_art_size == Some(c.cover_art_size)
            &&& d.scrobble == Some(c.scrobble)
            &&& d.notifications == Some(c.notifications)
            &&& d.rate_switch_delay_ms == Some(c.rate_switch_delay_ms)
            &&& c.macos_audio_mode == MacosAudioMode::Off ==> d.macos_audio_mode is None
            &&& c.macos_audio_mode != MacosAudioMode::Off ==> d.macos_audio_mode == Some(
                c.macos_audio_mode,
            )
            &&& d.music_folder_id == c.music_folder_id
            &&& d.music_folder_chosen is Some <==> c.music_folder_chosen
            &&& d.replay_gain_mode == Some(c.replay_gain_mode)
            &&& d.replay_gain_preamp == Some(c.replay_gain_preamp)
            &&& d.replay_gain_clip == Some(c.replay_gain_clip)
            &&& d.playback_filters is Some ==> d.playback_filters->0@ == c.playback_filters@
            &&& d.keybindings is Some <==> c.keybindings@.len() > 0
            &&& d.keybindings is Some ==> d.keybindings->0@ == c.keybindings@
        }),
{
}

/// Every key of the file that is there gives its setting, and every key that is
/// not leaves the documented default. Only a gain that is not finite is refused.
pub proof fn law_what_is_loaded(d: ConfigOnDisk, r: Result<Config, ConfigError>)
    requires
        call_ensures(Config::from_on_disk, (d,), r),
    ensures
        r is Ok <==> (d.replay_gain_preamp matches Some(v) ==> v.finite()),
        r matches Err(e) ==> e is Parse,
        r matches Ok(c) ==> {
            &&& d.base_url is Some ==> c.base_url@ == d.base_url->0@
            &&& d.base_url is None ==> c.base_url@.len() == 0
            &&& d.username is Some ==> c.username@ == d.username->0@
            &&& d.username is None ==> c.username@.len() == 0
            &&& d.password is Some ==> c.password@ == d.password->0@
            &&& d.password is None ==> c.password@.len() == 0
            &&& text_of(c.password_file) == text_of(d.password_file)
            &&& c.password_eval is Some <==> d.password_eval is Some
            &&& c.password_eval is Some ==> c.password_eval->0@ == d.password_eval->0@
            &&& c.password_keyring <==> d.password_keyring == Some(true)
            &&& !c.password_from_env
            &&& d.theme is Some ==> c.theme@ == d.theme->0@
            &&& c.cava <==> d.cava == Some(true)
            &&& d.cava_size matches Some(v) ==> c.cava_size == v
            &&& d.cava_size is None ==> c.cava_size == 40
            &&& c.daemon <==> d.daemon != Some(false)
            &&& c.auto_continue <==> d.auto_continue == Some(true)
            &&& c.stream_on_start <==> d.stream_on_start != Some(false)
            &&& d.search_debounce_ms matches Some(v) ==> c.search_debounce_ms == v
            &&& d.search_debounce_ms is None ==> c.search_debounce_ms == 200
            &&& d.search_artist_limit matches Some(v) ==> c.search_artist_limit == v
            &&& d.search_artist_limit is None ==> c.search_artist_limit == 100
            &&& d.search_album_limit matches Some(v) ==> c.search_album_limit == v
            &&& d.search_album_limit is None ==> c.search_album_limit == 100
            &&& d.search_song_limit matches Some(v) ==> c.search_song_limit == v
            &&& d.search_song_limit is None ==> c.search_song_limit == 200
            &&& c.resume_on_start <==> d.resume_on_start != Some(false)
            &&& c.autoplay_on_start <==> d.autoplay_on_start == Some(true)
            &&& c.offline_cache_enabled <==> d.offline_cache_enabled == Some(true)
            &&& d.offline_cache_max_mb matches Some(v) ==> c.offline_cache_max_mb == v
            &&& d.offline_cache_max_mb is None ==> c.offline_cache_max_mb == 2048
            &&& d.repeat_mode matches Some(m) ==> c.repeat_mode == m
            &&& d.repeat_mode is None ==> c.repeat_mode == RepeatMode::Off
            &&& c.cover_art <==> d.cover_art == Some(true)
            &&& d.cover_art_size matches Some(v) ==> c.cover_art_size == v
            &&& d.cover_art_size is None ==> c.cover_art_size == 16
            &&& c.scrobble <==> d.scrobble != Some(false)
            &&& c.notifications <==> d.notifications != Some(false)
            &&& d.rate_switch_delay_ms matches Some(v) ==> c.rate_switch_delay_ms == v
            &&& d.rate_switch_delay_ms is None ==> c.rate_switch_delay_ms == 500
            &&& d.macos_audio_mode matches Some(m) ==> c.macos_audio_mode == m
            &&& d.macos_audio_mode is None ==> c.macos_audio_mode == MacosAudioMode::Off
            &&& c.music_folder_id == d.music_folder_id
            &&& c.music_folder_chosen <==> d.music_folder_chosen == Some(true)
            &&& d.replay_gain_mode matches Some(m) ==> c.replay_gain_mode == m
            &&& d.replay_gain_mode is None ==> c.replay_gain_mode == ReplayGainMode::Off
            &&& d.replay_gain_preamp matches Some(v) ==> c.replay_gain_preamp == v
            &&& d.replay_gain_preamp is None ==> c.replay_gain_preamp.bits == 0
            &&& c.replay_gain_clip <==> d.replay_gain_clip == Some(true)
            &&& d.playback_filters is Some ==> c.playback_filters@ == d.playback_filters->0@
            &&& d.keybindings is Some ==> c.keybindings@ == d.keybindings->0@
            &&& d.keybindings is None ==> c.keybindings@.len() == 0
        },
{
}

/// Nothing is written with a gain that is not finite, and everything else is.
pub proof fn law_save(c: Config, r: Result<ConfigOnDisk, ConfigError>)
    requires
        call_ensures(Config::save_to_file, (&c,), r),
    ensures
        r is Ok <==> c.replay_gain_preamp.finite(),
        r matches Err(e) ==> e is InvalidValue && e->InvalidValue_field@ == "ReplayGainPreamp"@,
        r matches Ok(d) ==> text_of(d.base_url) == Some(c.base_url@) && text_of(d.username)
            == Some(c.username@) && d.repeat_mode == Some(c.repeat_mode)
            && d.replay_gain_preamp == Some(c.replay_gain_preamp),
        r matches Ok(d) ==> (c.password_keyring || c.password_from_env || c.password_eval is Some
            ==> d.password is None),
{
}

/// A file that is not there is an error when it is asked for by its path, and
/// the defaults at the start; one that the parser refuses is refused with the
/// parser's own error either way.
pub proof fn law_load(
    path: &str,
    file: Option<Result<ConfigOnDisk, toml::de::Error>>,
    by_path: Result<Config, ConfigError>,
    at_start: Result<Config, ConfigError>,
)
    requires
        call_ensures(Config::load_from_file, (path, file), by_path),
        call_ensures(Config::load_default, (file,), at_start),
    ensures
        file is None ==> by_path is Err && by_path->Err_0 is NotFound && by_path->Err_0->path@
            == path@,
        file is None ==> at_start is Ok && at_start->Ok_0.base_url@.len() == 0
            && at_start->Ok_0.cava_size == 40 && at_start->Ok_0.scrobble,
        file matches Some(Err(e)) ==> by_path == Err::<Config, ConfigError>(ConfigError::Parse(e))
            && at_start == Err::<Config, ConfigError>(ConfigError::Parse(e)),
        file matches Some(Ok(d)) ==> {
            &&& by_path is Ok <==> (d.replay_gain_preamp matches Some(v) ==> v.finite())
            &&& at_start is Ok <==> by_path is Ok
            &&& by_path is Ok && d.base_url is Some ==> by_path->Ok_0.base_url@
                == d.base_url->0@ && at_start->Ok_0.base_url@ == d.base_url->0@
        },
{
}

/// `part` stands in `whole` at the places `at`, one behind the other, and these
/// are the places of all the keys that no setting has.
pub open spec fn unknown_places(part: Seq<Seq<char>>, whole: Seq<Seq<char>>, at: Seq<int>) -> bool {
    &&& at.len() == part.len()
    &&& forall|i: int|
        0 <= i < at.len() ==> 0 <= #[trigger] at[i] < whole.len() && whole[at[i]] == part[i]
    &&& forall|i: int, j: int| 0 <= i < j < at.len() ==> #[trigger] at[i] < #[trigger] at[j]
    &&& forall|k: int|
        0 <= k < whole.len() ==> (at.contains(k) <==> !file_keys().contains(#[trigger] whole[k]))
}

/// The keys to warn about are those of the file that no setting has: all of
/// them, in their order, and no others.
pub proof fn law_unknown_keys(keys: Vec<String>, r: Vec<String>)
    requires
        call_ensures(unknown_keys_among, (&keys,), r),
    ensures
        exists|at: Seq<int>| unknown_places(texts(r@), texts(keys@), at),
{
    lemma_unknown_places(texts(keys@));
}

proof fn lemma_unknown_places(whole: Seq<Seq<char>>)
    ensures
        exists|at: Seq<int>| unknown_places(unknown_among(whole), whole, at),
    decreases whole.len(),
{
    reveal(Seq::filter);
    let part = unknown_among(whole);
    if whole.len() == 0 {
        let none = Seq::<int>::empty();
        assert(unknown_places(part, whole, none));
    } else {
        let front = whole.drop_last();
        let last = whole.len() - 1;
        lemma_unknown_places(front);
        let shorter = unknown_among(front);
        let at = choose|at: Seq<int>| unknown_places(shorter, front, at);
        lemma_known_keys(whole.last());
        let here = if known_key(whole.last()) {
            at
        } else {
            at.push(last)
        };
        assert(part == if known_key(whole.last()) {
            shorter
        } else {
            shorter.push(whole.last())
        });
        assert forall|i: int| 0 <= i < here.len() implies 0 <= #[trigger] here[i] < whole.len()
            && whole[here[i]] == part[i] by {
            if i < at.len() {
                assert(here[i] == at[i]);
                assert(front[at[i]] == whole[at[i]]);
            }
        }
        assert forall|k: int| 0 <= k < whole.len() implies (here.contains(k)
            <==> !file_keys().contains(#[trigger] whole[k])) by {
            if k < last {
                assert(front[k] == whole[k]);
                if at.contains(k) {
                    let i = choose|i: int| 0 <= i < at.len() && at[i] == k;
                    assert(here[i] == k);
                }
                if here.contains(k) {
                    let i = choose|i: int| 0 <= i < here.len() && here[i] == k;
                    assert(at[i] == k);
                }
            } else if known_key(whole.last()) {
                if here.contains(k) {
                    let i = choose|i: int| 0 <= i < here.len() && here[i] == k;
                    assert(at[i] < front.len());
                }
            } else {
                assert(here[at.len() as int] == k);
            }
        }
        assert(unknown_places(part, whole, here));
    }
}

// ---------------------------------------------------------------------------
// The password.
// ---------------------------------------------------------------------------

/// The secret is what stands before the first line feed; a carriage return just
/// before that feed, or at the end of a text without one, is not part of it.
pub proof fn law_secret_line(
    line: Seq<char>,
    rest: Seq<char>,
    plain: &str,
    returned: &str,
    alone: &str,
    from_plain: String,
    from_returned: String,
    from_alone: String,
)
    requires
        !line.contains('\n'),
        line.len() == 0 || line.last() != '\r',
        plain@ == line + seq!['\n'] + rest,
        returned@ == line + seq!['\r', '\n'] + rest,
        alone@ == line,
        call_ensures(extract_secret_line, (plain,), from_plain),
        call_ensures(extract_secret_line, (returned,), from_returned),
        call_ensures(extract_secret_line, (alone,), from_alone),
    ensures
        from_plain@ == line,
        from_returned@ == line,
        from_alone@ == line,
{
    assert forall|k: int| 0 <= k < line.len() implies line[k] != '\n' by {
        assert(line.contains(line[k]));
    }
    crate::strings::lemma_line_len(plain@, line.len());
    crate::strings::lemma_line_len(returned@, line.len() + 1);
    crate::strings::lemma_line_len(alone@, line.len());
    assert(plain@.take(line.len() as int) =~= line);
    assert(returned@.take(line.len() as int + 1) =~= line.push('\r'));
    assert(line.push('\r').drop_last() =~= line);
    assert(alone@.take(line.len() as int) =~= line);
}

/// A password file holds the secret and a line feed.
pub proof fn law_password_file(password: Secret, r: String)
    requires
        call_ensures(password_file_text, (&password,), r),
    ensures
        r@.len() == password@.len() + 1,
        forall|i: int| 0 <= i < password@.len() ==> #[trigger] r@[i] == password@[i],
        r@.last() == '\n',
{
}

/// A leading `~/` stands for the home directory, where one is known; any other
/// path stays as it is.
pub proof fn law_tilde(path: &str, home: Option<&str>, tail: Seq<char>, r: String)
    requires
        call_ensures(Config::expand_tilde, (path, home), r),
    ensures
        path@ == seq!['~', '/'] + tail && home is Some ==> r@ == home->0@ + seq!['/'] + tail,
        home is None ==> r@ == path@,
        path@.len() < 2 || path@[0] != '~' || path@[1] != '/' ==> r@ == path@,
{
    if path@ == seq!['~', '/'] + tail {
        assert(path@.skip(2) =~= tail);
    }
}

/// An argument is expanded by putting the home directory in first and the
/// variables after that.
pub proof fn law_argument(
    arg: &str,
    home: Option<&str>,
    env: Vec<EnvVar>,
    tail: Seq<char>,
    r: String,
)
    requires
        call_ensures(expand_env_tilde, (arg, home, &env), r),
    ensures
        arg@ == seq!['~', '/'] + tail && home is Some ==> r@ == env_expanded(
            home->0@ + seq!['/'] + tail,
            env@,
        ),
        home is None ==> r@ == env_expanded(arg@, env@),
        arg@.len() < 2 || arg@[0] != '~' || arg@[1] != '/' ==> r@ == env_expanded(arg@, env@),
{
    if arg@ == seq!['~', '/'] + tail {
        assert(arg@.skip(2) =~= tail);
    }
}

/// A shell command is run by the shell as it is written. An array is run
/// directly, its first element as the program and each further one as one
/// argument, all of them expanded; an empty array names no program.
pub proof fn law_password_command(
    eval: PasswordEval,
    home: Option<&str>,
    env: Vec<EnvVar>,
    k: int,
    part: &str,
    expanded: String,
    r: Result<CommandLine, String>,
)
    requires
        call_ensures(password_eval_command, (&eval, home, &env), r),
        call_ensures(expand_env_tilde, (part, home, &env), expanded),
    ensures
        eval matches PasswordEval::Shell(s) ==> r is Ok && r->Ok_0.program@ == "sh"@ && texts(
            r->Ok_0.args@,
        ) == seq!["-c"@, s@],
        eval matches PasswordEval::Argv(parts) ==> {
            &&& r is Ok <==> parts@.len() > 0
            &&& r matches Err(e) ==> e@ == "PasswordEval array is empty"@
            &&& r is Ok ==> r->Ok_0.args@.len() == parts@.len() - 1
            &&& 0 <= k < parts@.len() && parts@[k]@ == part@ && k == 0 ==> r->Ok_0.program@
                == expanded@
            &&& 0 < k < parts@.len() && parts@[k]@ == part@ ==> r->Ok_0.args@[k - 1]@
                == expanded@
        },
{
    if let PasswordEval::Argv(parts) = eval {
        assert(texts(parts@).len() == parts@.len());
        if parts@.len() > 0 {
            assert(texts(r->Ok_0.args@).len() == parts@.len() - 1);
            if 0 < k < parts@.len() && parts@[k]@ == part@ {
                assert(texts(r->Ok_0.args@)[k - 1] == r->Ok_0.args@[k - 1]@);
                assert(texts(parts@).skip(1)[k - 1] == parts@[k]@);
            }
        }
    }
}

/// A password command that exited is heard out, one that runs is looked at
/// again in 20 milliseconds, and one whose time is up is killed.
pub proof fn law_password_wait(look: EvalLook, r: EvalWait)
    requires
        call_ensures(password_eval_wait, (look,), r),
    ensures
        look matches EvalLook::Exited { success, code } ==> r == (EvalWait::Collect {
            success,
            code,
        }),
        look matches EvalLook::Running { past_deadline } ==> (past_deadline ==> r is KillAndFail
            && r->KillAndFail_0@ == "PasswordEval timed out"@) && (!past_deadline ==> r
            == EvalWait::SleepMs(20)),
        look matches EvalLook::Failed(e) ==> r is Fail && r->Fail_0@
            == "PasswordEval wait failed: "@ + e@,
{
}

/// The secret of a password command is the secret line of what it wrote, if it
/// succeeded and that line is not empty. Otherwise there is none, and the error
/// tells the exit code and what the command complained about.
pub proof fn law_password_command_output(
    success: bool,
    code: Option<i32>,
    stdout: Vec<u8>,
    stderr: &str,
    text: &str,
    secret: String,
    complaint: String,
    r: Result<String, String>,
)
    requires
        call_ensures(password_eval_finish, (success, code, stdout, stderr), r),
        call_ensures(extract_secret_line, (text,), secret),
        call_ensures(trim_text, (stderr,), complaint),
        lossy_text(stdout@) == text@,
    ensures
        r is Ok <==> success && secret@.len() > 0,
        r matches Ok(s) ==> s@ == secret@,
        success && secret@.len() == 0 ==> r->Err_0@ == "PasswordEval produced no output"@,
        !success && code is None ==> r->Err_0@ == "PasswordEval exited "@ + "signal"@ + ": "@
            + complaint@,
        !success && code is Some ==> r->Err_0@ == "PasswordEval exited "@ + signed_decimal(
            code->0 as int,
        ) + ": "@ + complaint@,
{
}

/// What a password command wrote is wiped once it has been judged, whatever
/// came of it.
pub proof fn law_output_is_wiped(
    success: bool,
    code: Option<i32>,
    raw: &mut String,
    stderr: &str,
    r: Result<String, String>,
)
    requires
        call_ensures(judge_output, (success, code, raw, stderr), r),
    ensures
        final(raw)@.len() == 0,
        r is Ok ==> success && r->Ok_0@.len() > 0 && r->Ok_0@.is_prefix_of(old(raw)@),
{
    crate::config::password::law_secret_line_is_one_line(old(raw)@);
}

/// The password comes from the first of these that is there: the environment,
/// the command, the file, the keychain, the configuration itself.
pub proof fn law_password_priority(
    c: Config,
    env: Option<&str>,
    home: Option<&str>,
    r: PasswordSource,
)
    requires
        call_ensures(Config::password_source, (&c, env, home), r),
    ensures
        ({
            let by_env = env is Some && env->0@.len() > 0;
            let by_file = c.password_file is Some && c.password_file->0@.len() > 0;
            &&& r is Environment <==> by_env
            &&& r matches PasswordSource::Environment(s) ==> s@ == env->0@
            &&& r is Command <==> !by_env && c.password_eval is Some
            &&& r is File <==> !by_env && c.password_eval is None && by_file
            &&& r is Keychain <==> !by_env && c.password_eval is None && !by_file
                && c.password_keyring
            &&& r is Inline <==> !by_env && c.password_eval is None && !by_file
                && !c.password_keyring
        }),
{
}

/// A password file is looked for where the settings say, with the home
/// directory put in.
pub proof fn law_password_file_path(
    c: Config,
    env: Option<&str>,
    home: Option<&str>,
    r: PasswordSource,
    path: &str,
    expanded: String,
)
    requires
        call_ensures(Config::password_source, (&c, env, home), r),
        call_ensures(Config::expand_tilde, (path, home), expanded),
        c.password_file is Some,
        c.password_file->0@ == path@,
        r is File,
    ensures
        r->File_0@ == expanded@,
{
}

/// The source that was picked decides alone: what it gave is the password, and
/// a source that failed leaves none, whatever the configuration held before.
/// Only the inline value is left as it is. Of a file the secret line counts. No
/// other setting changes, and only a password from the environment is marked so.
pub proof fn law_password_is_resolved(
    c: &mut Config,
    source: PasswordSource,
    reply: SourceReply,
    text: &str,
    line: String,
)
    requires
        call_ensures(Config::resolve_password, (c, source, reply), ()),
        call_ensures(extract_secret_line, (text,), line),
    ensures
        source matches PasswordSource::Environment(s) ==> final(c).password@ == s@,
        source is Inline ==> final(c).password@ == old(c).password@,
        source is Command || source is Keychain ==> (reply matches SourceReply::Found(s) ==> final(
            c).password@ == s@),
        source is File ==> (reply matches SourceReply::Found(s) ==> (s@ == text@ ==> final(
            c).password@ == line@)),
        (source is Command || source is Keychain || source is File) && reply !is Found ==> final(
            c).password@.len() == 0,
        final(c).password_from_env <==> source is Environment,
        final(c).base_url == old(c).base_url,
        final(c).username == old(c).username,
        final(c).password_file == old(c).password_file,
        final(c).password_eval == old(c).password_eval,
        final(c).password_keyring == old(c).password_keyring,
        final(c).theme == old(c).theme,
        final(c).repeat_mode == old(c).repeat_mode,
{
}

/// The plain text of the password is what is held.
pub proof fn law_password_is_shown(c: Config, r: &str)
    requires
        call_ensures(Config::password_str, (&c,), r),
    ensures
        r@ == c.password@,
{
}

} // verus!
