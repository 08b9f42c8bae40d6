//! Configuration: defaults, the file, what is saved and loaded back.

use ferrosonic::binary64::Binary64;
use ferrosonic::config::keybind::{GlobalAction, Key, KeyChord, Keybinding};
use ferrosonic::config::keys::{is_known_key, unknown_config_keys, unknown_keys_among};
use ferrosonic::config::password::{PasswordSource, SourceReply};
use ferrosonic::config::settings::deserialize_replay_gain_preamp;
use ferrosonic::config::{
    Config, ConfigError, ConfigOnDisk, MacosAudioMode, PasswordEval, PlaybackFilters, RepeatMode,
    ReplayGainMode, KNOWN_CONFIG_KEYS,
};
use ferrosonic::secret::Secret;

fn secret(s: &str) -> Secret {
    Secret::from_string(s.to_string())
}

fn texts(v: &toml::Value) -> Vec<String> {
    v.as_array()
        .unwrap()
        .iter()
        .map(|x| x.as_str().unwrap().to_string())
        .collect()
}

fn unknown(name: &str) -> toml::de::Error {
    serde::de::Error::unknown_variant(name, &[])
}

const ACTIONS: [(&str, GlobalAction); 3] = [
    ("Quit", GlobalAction::Quit),
    ("NextTrack", GlobalAction::NextTrack),
    ("ShuffleLibrary", GlobalAction::ShuffleLibrary),
];

/// A chord of one character, held with Ctrl or alone.
fn chord(text: &str) -> KeyChord {
    KeyChord {
        ctrl: text.starts_with("Ctrl+"),
        alt: false,
        shift: false,
        key: Key::Char(text.chars().last().unwrap()),
    }
}

/// Reads a document into the keys of the configuration file.
fn read(contents: &str) -> Result<ConfigOnDisk, toml::de::Error> {
    let t: toml::Table = toml::from_str(contents)?;
    let text = |k: &str| t.get(k).map(|v| v.as_str().unwrap().to_string());
    let flag = |k: &str| t.get(k).map(|v| v.as_bool().unwrap());
    let int = |k: &str| t.get(k).map(|v| v.as_integer().unwrap());
    let u32_of = |k: &str| int(k).map(|v| u32::try_from(v).unwrap());
    let u8_of = |k: &str| int(k).map(|v| u8::try_from(v).unwrap());
    Ok(ConfigOnDisk {
        base_url: text("BaseURL"),
        username: text("Username"),
        password: text("Password"),
        password_file: text("PasswordFile"),
        password_eval: t.get("PasswordEval").map(|v| match v.as_str() {
            Some(s) => PasswordEval::Shell(s.to_string()),
            None => PasswordEval::Argv(texts(v)),
        }),
        password_keyring: flag("PasswordKeyring"),
        theme: text("Theme"),
        cava: flag("Cava"),
        cava_size: u8_of("CavaSize"),
        daemon: flag("Daemon"),
        auto_continue: flag("AutoContinue"),
        stream_on_start: flag("StreamOnStart"),
        search_debounce_ms: u32_of("SearchDebounceMs"),
        search_artist_limit: u32_of("SearchArtistLimit"),
        search_album_limit: u32_of("SearchAlbumLimit"),
        search_song_limit: u32_of("SearchSongLimit"),
        resume_on_start: flag("ResumeOnStart"),
        autoplay_on_start: flag("AutoplayOnStart"),
        offline_cache_enabled: flag("OfflineCacheEnabled"),
        offline_cache_max_mb: u32_of("OfflineCacheMaxMb"),
        repeat_mode: match text("RepeatMode") {
            Some(name) => Some(RepeatMode::from_file_name(&name).ok_or_else(|| unknown(&name))?),
            None => None,
        },
        cover_art: flag("CoverArt"),
        cover_art_size: u8_of("CoverArtSize"),
        scrobble: flag("Scrobble"),
        notifications: flag("Notifications"),
        rate_switch_delay_ms: u32_of("RateSwitchDelayMs"),
        macos_audio_mode: match text("MacosAudioMode") {
            Some(name) => {
                Some(MacosAudioMode::from_file_name(&name).ok_or_else(|| unknown(&name))?)
            }
            None => None,
        },
        music_folder_id: int("MusicFolderId"),
        music_folder_chosen: flag("MusicFolderChosen"),
        replay_gain_mode: match text("ReplayGainMode") {
            Some(name) => {
                Some(ReplayGainMode::from_file_name(&name).ok_or_else(|| unknown(&name))?)
            }
            None => None,
        },
        replay_gain_preamp: t
            .get("ReplayGainPreamp")
            .map(|v| Binary64::from_bits(v.as_float().unwrap().to_bits())),
        replay_gain_clip: flag("ReplayGainClip"),
        playback_filters: t.get("PlaybackFilters").map(|v| {
            let f = v.as_table().unwrap();
            let int = |k: &str| f.get(k).map(|v| v.as_integer().unwrap());
            PlaybackFilters {
                min_rating: int("MinRating").map_or(0, |v| u8::try_from(v).unwrap()),
                year_min: int("YearMin").map(|v| i32::try_from(v).unwrap()),
                year_max: int("YearMax").map(|v| i32::try_from(v).unwrap()),
                duration_min_secs: int("DurationMinSecs").map(|v| u32::try_from(v).unwrap()),
                duration_max_secs: int("DurationMaxSecs").map(|v| u32::try_from(v).unwrap()),
                excluded_genres: f.get("ExcludedGenres").map_or(Vec::new(), texts),
                excluded_artists: f.get("ExcludedArtists").map_or(Vec::new(), texts),
            }
        }),
        keybindings: t.get("Keybindings").map(|v| {
            v.as_table()
                .unwrap()
                .iter()
                .map(|(k, v)| Keybinding {
                    action: ACTIONS.iter().find(|(name, _)| name == k).unwrap().1,
                    chord: chord(v.as_str().unwrap()),
                })
                .collect()
        }),
    })
}

/// Writes the keys of the configuration file as a document.
fn write(d: &ConfigOnDisk) -> String {
    let mut t = toml::Table::new();
    let mut put = |k: &str, v: Option<toml::Value>| {
        if let Some(v) = v {
            t.insert(k.to_string(), v);
        }
    };
    let list = |v: &Vec<String>| {
        toml::Value::Array(v.iter().map(|s| toml::Value::String(s.clone())).collect())
    };
    let text = |o: &Option<String>| o.clone().map(toml::Value::String);
    let flag = |o: Option<bool>| o.map(toml::Value::Boolean);
    let int = |o: Option<i64>| o.map(toml::Value::Integer);
    put("BaseURL", text(&d.base_url));
    put("Username", text(&d.username));
    put("Password", text(&d.password));
    put("PasswordFile", text(&d.password_file));
    put(
        "PasswordEval",
        d.password_eval.as_ref().map(|e| match e {
            PasswordEval::Shell(s) => toml::Value::String(s.clone()),
            PasswordEval::Argv(v) => list(v),
        }),
    );
    put("PasswordKeyring", flag(d.password_keyring));
    put("Theme", text(&d.theme));
    put("Cava", flag(d.cava));
    put("CavaSize", int(d.cava_size.map(i64::from)));
    put("Daemon", flag(d.daemon));
    put("AutoContinue", flag(d.auto_continue));
    put("StreamOnStart", flag(d.stream_on_start));
    put("SearchDebounceMs", int(d.search_debounce_ms.map(i64::from)));
    put("SearchArtistLimit", int(d.search_artist_limit.map(i64::from)));
    put("SearchAlbumLimit", int(d.search_album_limit.map(i64::from)));
    put("SearchSongLimit", int(d.search_song_limit.map(i64::from)));
    put("ResumeOnStart", flag(d.resume_on_start));
    put("AutoplayOnStart", flag(d.autoplay_on_start));
    put("OfflineCacheEnabled", flag(d.offline_cache_enabled));
    put("OfflineCacheMaxMb", int(d.offline_cache_max_mb.map(i64::from)));
    let name = |n: Option<&str>| n.map(|n| toml::Value::String(n.to_string()));
    put("RepeatMode", name(d.repeat_mode.map(RepeatMode::to_file_name)));
    put("CoverArt", flag(d.cover_art));
    put("CoverArtSize", int(d.cover_art_size.map(i64::from)));
    put("Scrobble", flag(d.scrobble));
    put("Notifications", flag(d.notifications));
    put("RateSwitchDelayMs", int(d.rate_switch_delay_ms.map(i64::from)));
    put("MacosAudioMode", name(d.macos_audio_mode.map(MacosAudioMode::to_file_name)));
    put("MusicFolderId", int(d.music_folder_id));
    put("MusicFolderChosen", flag(d.music_folder_chosen));
    put("ReplayGainMode", name(d.replay_gain_mode.map(ReplayGainMode::mpv_value)));
    put(
        "ReplayGainPreamp",
        d.replay_gain_preamp
            .map(|v| toml::Value::Float(f64::from_bits(v.to_bits()))),
    );
    put("ReplayGainClip", flag(d.replay_gain_clip));
    put(
        "PlaybackFilters",
        d.playback_filters.as_ref().map(|f| {
            let mut t = toml::Table::new();
            let mut put = |k: &str, v: Option<toml::Value>| {
                if let Some(v) = v {
                    t.insert(k.to_string(), v);
                }
            };
            put("MinRating", int(Some(i64::from(f.min_rating))));
            put("YearMin", int(f.year_min.map(i64::from)));
            put("YearMax", int(f.year_max.map(i64::from)));
            put("DurationMinSecs", int(f.duration_min_secs.map(i64::from)));
            put("DurationMaxSecs", int(f.duration_max_secs.map(i64::from)));
            put("ExcludedGenres", Some(list(&f.excluded_genres)));
            put("ExcludedArtists", Some(list(&f.excluded_artists)));
            toml::Value::Table(t)
        }),
    );
    put(
        "Keybindings",
        d.keybindings.as_ref().map(|b| {
            toml::Value::Table(
                b.iter()
                    .map(|k| {
                        let (name, _) = ACTIONS.iter().find(|(_, a)| *a == k.action).unwrap();
                        let Key::Char(key) = k.chord.key else {
                            panic!("a chord of one character")
                        };
                        let held = if k.chord.ctrl { "Ctrl+" } else { "" };
                        (name.to_string(), toml::Value::String(format!("{held}{key}")))
                    })
                    .collect(),
            )
        }),
    );
    toml::to_string_pretty(&t).unwrap()
}

fn load(contents: &str) -> Result<Config, String> {
    Config::load_from_file("c.toml", Some(read(contents))).map_err(|e| format!("{e:?}"))
}

fn loaded(contents: &str) -> Config {
    match load(contents) {
        Ok(c) => c,
        Err(e) => panic!("{e}"),
    }
}

fn saved(c: &Config) -> String {
    write(&c.as_on_disk())
}

#[test]
fn every_serialized_config_key_is_known() {
    let c = Config {
        base_url: "https://x".into(),
        username: "u".into(),
        password: secret("p"),
        ..Default::default()
    };
    for line in saved(&c).lines() {
        if let Some(key) = line.split('=').next().map(str::trim) {
            if key.is_empty() {
                continue;
            }
            assert!(
                KNOWN_CONFIG_KEYS.contains(&key),
                "config key {key:?} is serialized but missing from KNOWN_CONFIG_KEYS; \
                 add it or it warns as unknown on load"
            );
        }
    }
    let keys = c.as_on_disk().keys();
    assert_eq!(keys.len(), 26);
    assert!(keys.iter().all(|k| is_known_key(k)));
    assert!(keys.contains(&"Password"));
}

#[test]
fn macos_audio_mode_defaults_off_and_parses_known_values() {
    assert_eq!(
        Config::default().macos_audio_mode,
        MacosAudioMode::Off,
        "shared output must stay the default"
    );
    let parsed = loaded("MacosAudioMode = \"physical-format\"");
    assert_eq!(parsed.macos_audio_mode, MacosAudioMode::PhysicalFormat);
    let parsed = loaded("MacosAudioMode = \"exclusive\"");
    assert_eq!(parsed.macos_audio_mode, MacosAudioMode::Exclusive);
}

#[test]
fn macos_audio_mode_rejects_unknown_value() {
    let err = load("MacosAudioMode = \"bogus\"").err().unwrap();
    assert!(
        err.contains("MacosAudioMode") || err.contains("unknown variant"),
        "unknown mode must fail loudly; got {err}"
    );
}

#[test]
fn what_the_parser_refuses_is_refused_with_its_error() {
    let refused = |contents: &str| match Config::load_default(Some(read(contents))) {
        Err(ConfigError::Parse(e)) => e.message().to_string(),
        _ => panic!("refused"),
    };
    assert!(refused("RepeatMode = \"Twice\"").contains("unknown variant `Twice`"));
    assert!(refused("ReplayGainMode = \"loud\"").contains("unknown variant `loud`"));
    for contents in ["ReplayGainPreamp = inf", "ReplayGainPreamp = nan"] {
        assert_eq!(refused(contents), "Invalid ReplayGainPreamp: must be finite");
    }
    let torn = read("BaseURL = ").err().unwrap();
    assert_eq!(
        Config::load_from_file("c.toml", Some(Err(torn.clone()))).err(),
        Some(ConfigError::Parse(torn))
    );
}

#[test]
fn only_a_finite_gain_is_read() {
    for gain in [0.0, -3.5, 1e300] {
        let gain = Binary64::from_bits(f64::to_bits(gain));
        assert_eq!(deserialize_replay_gain_preamp(gain), Ok(gain));
    }
    for gain in [f64::NAN, f64::INFINITY, f64::NEG_INFINITY] {
        let refused = deserialize_replay_gain_preamp(Binary64::from_bits(gain.to_bits()));
        assert_eq!(
            refused.unwrap_err().message(),
            "Invalid ReplayGainPreamp: must be finite"
        );
    }
}

#[test]
fn macos_audio_mode_off_is_omitted_from_disk() {
    let mut c = Config::default();
    assert!(
        !saved(&c).contains("MacosAudioMode"),
        "the platform-specific key must stay out of default configs"
    );
    c.macos_audio_mode = MacosAudioMode::Exclusive;
    assert!(saved(&c).contains("MacosAudioMode = \"exclusive\""));
}

#[test]
fn password_eval_resolves_at_config_load() {
    let mut c =
        loaded("BaseURL=\"https://x\"\nUsername=\"u\"\nPasswordEval=\"printf loadpass\"\n");
    let source = c.password_source(None, None);
    assert!(matches!(source, PasswordSource::Command));
    c.resolve_password(source, SourceReply::Found("loadpass".to_string()));
    assert_eq!(c.password_str(), "loadpass");
}

#[test]
fn save_preserves_password_eval_and_omits_inline_password() {
    let c = Config {
        base_url: "https://x".into(),
        password: secret("resolved-secret"),
        password_eval: Some(PasswordEval::Shell("printf x".into())),
        ..Default::default()
    };
    let written = saved(&c);
    assert!(
        written.contains("PasswordEval"),
        "PasswordEval preserved:\n{written}"
    );
    assert!(
        !written.contains("resolved-secret"),
        "the resolved plaintext must not be written back inline:\n{written}"
    );
}

#[test]
fn save_with_keyring_marker_omits_inline_password() {
    let c = Config {
        base_url: "https://x".into(),
        username: "u".into(),
        password: secret("resolved-secret"),
        password_keyring: true,
        ..Default::default()
    };
    let written = saved(&c);
    assert!(
        written.contains("PasswordKeyring = true"),
        "keyring marker preserved:\n{written}"
    );
    assert!(
        !written.contains("resolved-secret"),
        "the resolved plaintext must not be written inline when keyring holds it:\n{written}"
    );
}

#[test]
fn save_omits_a_password_from_file_or_environment() {
    let mut c = Config {
        password: secret("resolved-secret"),
        password_file: Some("~/pw".into()),
        ..Default::default()
    };
    assert!(!saved(&c).contains("resolved-secret"));
    c.password_file = Some(String::new());
    assert!(
        saved(&c).contains("resolved-secret"),
        "an empty path holds no secret"
    );
    c.password_from_env = true;
    assert!(!saved(&c).contains("resolved-secret"));
}

#[test]
fn test_config_parse() {
    let toml_content = r#"
BaseURL = "https://example.com"
Username = "testuser"
Password = "testpass"
"#;
    let config = loaded(toml_content);
    assert_eq!(config.base_url, "https://example.com");
    assert_eq!(config.username, "testuser");
    assert_eq!(config.password_str(), "testpass");
}

#[test]
fn test_is_configured() {
    let mut config = Config::new();
    assert!(!config.is_configured());

    config.base_url = "https://example.com".to_string();
    config.username = "user".to_string();
    config.password = Secret::from_string("pass".to_string());
    assert!(config.is_configured());
}

#[test]
fn defaults_match_documented_values() {
    let c = Config::default();
    assert_eq!(c.cava_size, 40);
    assert_eq!(c.cover_art_size, 16);
    assert!(c.daemon, "daemon defaults on");
    assert!(!c.cava);
    assert!(!c.cover_art);
    assert!(!c.auto_continue);
    assert!(c.stream_on_start, "stream-on-start defaults on");
    assert_eq!(c.search_debounce_ms, 200);
    assert_eq!(c.search_artist_limit, 100);
    assert_eq!(c.search_album_limit, 100);
    assert_eq!(c.search_song_limit, 200);
    assert!(c.resume_on_start, "resume-on-start defaults on");
    assert!(!c.autoplay_on_start, "autoplay-on-start defaults off");
    assert!(!c.offline_cache_enabled, "offline cache defaults off");
    assert_eq!(c.offline_cache_max_mb, 2048);
    assert_eq!(c.repeat_mode, RepeatMode::Off);
    assert_eq!(c.replay_gain_mode, ReplayGainMode::Off);
    assert_eq!(f64::from_bits(c.replay_gain_preamp.to_bits()), 0.0);
    assert!(!c.replay_gain_clip);
    assert_eq!(c.playback_filters, PlaybackFilters::default());
    assert_eq!(
        c.playback_filters.min_rating, 0,
        "rating filter off by default"
    );
    assert!(c.playback_filters.excluded_genres.is_empty());
    assert!(c.playback_filters.excluded_artists.is_empty());
}

#[test]
fn retired_audiobook_settings_load_but_are_not_saved() {
    let contents = "AudiobookMusicFolderId = 42\nAudiobookPathPrefix = \"Audiobooks\"\nAudiobookPlaybackSpeed = 1.5\n";
    let config = loaded(contents);
    assert!(unknown_config_keys(contents).is_empty());
    assert!(!saved(&config).contains("Audiobook"));
}

#[test]
fn default_playback_filters_are_omitted_from_saved_toml() {
    let c = Config {
        base_url: "https://x".into(),
        ..Default::default()
    };
    let written = saved(&c);
    assert!(
        !written.contains("PlaybackFilters"),
        "default (all-off) filters must not clutter a fresh config.toml:\n{written}"
    );
}

#[test]
fn non_default_playback_filters_round_trip() {
    let toml = "BaseURL = \"x\"\n\
         [PlaybackFilters]\n\
         MinRating = 2\n\
         YearMin = 1970\n\
         YearMax = 2020\n\
         DurationMinSecs = 60\n\
         DurationMaxSecs = 600\n\
         ExcludedGenres = [\"Podcast\"]\n\
         ExcludedArtists = [\"Nickelback\"]\n";
    let c = loaded(toml);
    assert_eq!(c.playback_filters.min_rating, 2);
    assert_eq!(c.playback_filters.year_min, Some(1970));
    assert_eq!(c.playback_filters.year_max, Some(2020));
    assert_eq!(c.playback_filters.duration_min_secs, Some(60));
    assert_eq!(c.playback_filters.duration_max_secs, Some(600));
    assert_eq!(c.playback_filters.excluded_genres, vec!["Podcast"]);
    assert_eq!(c.playback_filters.excluded_artists, vec!["Nickelback"]);

    let c2 = loaded(&saved(&c));
    assert_eq!(c2.playback_filters, c.playback_filters);
}

#[test]
fn missing_fields_fall_back_to_defaults() {
    let c = loaded("BaseURL = \"https://x\"\n");
    assert_eq!(c.base_url, "https://x");
    assert_eq!(c.cava_size, 40, "CavaSize falls back");
    assert_eq!(c.cover_art_size, 16, "CoverArtSize falls back");
    assert!(c.daemon, "Daemon defaults true");
    assert_eq!(
        c.replay_gain_mode,
        ReplayGainMode::Off,
        "ReplayGainMode falls back"
    );
    assert_eq!(
        f64::from_bits(c.replay_gain_preamp.to_bits()),
        0.0,
        "ReplayGainPreamp falls back"
    );
    assert!(!c.replay_gain_clip, "ReplayGainClip falls back");
    assert!(
        c.stream_on_start,
        "StreamOnStart falls back to streaming when absent"
    );
    assert_eq!(c.search_debounce_ms, 200, "SearchDebounceMs falls back");
    assert_eq!(c.search_artist_limit, 100, "SearchArtistLimit falls back");
    assert_eq!(c.search_album_limit, 100, "SearchAlbumLimit falls back");
    assert_eq!(c.search_song_limit, 200, "SearchSongLimit falls back");
    assert!(c.resume_on_start, "ResumeOnStart falls back on");
    assert!(!c.autoplay_on_start, "AutoplayOnStart falls back off");
    assert!(
        !c.offline_cache_enabled,
        "OfflineCacheEnabled falls back off"
    );
    assert_eq!(c.offline_cache_max_mb, 2048, "OfflineCacheMaxMb falls back");
}

#[test]
fn replay_gain_explicit_values_round_trip() {
    let toml = "BaseURL = \"x\"\nReplayGainMode = \"album\"\nReplayGainPreamp = -3.5\nReplayGainClip = true\n";
    let c = loaded(toml);
    assert_eq!(c.replay_gain_mode, ReplayGainMode::Album);
    assert_eq!(f64::from_bits(c.replay_gain_preamp.to_bits()), -3.5);
    assert!(c.replay_gain_clip);

    let c2 = loaded(&saved(&c));
    assert_eq!(c2.replay_gain_mode, ReplayGainMode::Album);
    assert_eq!(f64::from_bits(c2.replay_gain_preamp.to_bits()), -3.5);
    assert!(c2.replay_gain_clip);
}

#[test]
fn corrupt_toml_returns_error() {
    let toml = "this is not valid = = toml [[";
    let r = load(toml);
    assert!(r.is_err(), "corrupt TOML should not parse");
    assert!(unknown_config_keys(toml).is_empty());
}

#[test]
fn unknown_field_is_ignored_not_fatal() {
    let toml = "BaseURL = \"x\"\nUnknownKey = 5\n";
    let c = load(toml);
    assert!(c.is_ok(), "unknown fields tolerated");
    assert_eq!(c.ok().unwrap().base_url, "x");
    assert_eq!(unknown_config_keys(toml), vec!["UnknownKey"]);
}

#[test]
fn unknown_keys_keep_their_order() {
    let keys: Vec<String> = ["RepeateMode", "Theme", "Zzz", "Keybindings"]
        .iter()
        .map(|s| s.to_string())
        .collect();
    assert_eq!(unknown_keys_among(&keys), vec!["RepeateMode", "Zzz"]);
}

#[test]
fn cover_art_size_round_trip_preserved() {
    let c = loaded("BaseURL = \"x\"\nCoverArtSize = 22\n");
    assert_eq!(c.cover_art_size, 22);
    assert_eq!(loaded(&saved(&c)).cover_art_size, 22);
}

#[test]
fn repeat_mode_explicit_value_loads() {
    let c = loaded("BaseURL = \"x\"\nRepeatMode = \"All\"\n");
    assert_eq!(c.repeat_mode, RepeatMode::All);
}

#[test]
fn saved_settings_load_back() {
    let c = Config {
        base_url: "https://x".into(),
        username: "u".into(),
        password: secret("p"),
        theme: "dark".into(),
        cava: true,
        cava_size: 10,
        daemon: false,
        auto_continue: true,
        stream_on_start: false,
        offline_cache_enabled: true,
        offline_cache_max_mb: 7,
        repeat_mode: RepeatMode::One,
        music_folder_id: Some(-4),
        music_folder_chosen: true,
        rate_switch_delay_ms: 0,
        keybindings: vec![
            Keybinding {
                action: GlobalAction::NextTrack,
                chord: chord("j"),
            },
            Keybinding {
                action: GlobalAction::Quit,
                chord: chord("Ctrl+q"),
            },
        ],
        ..Default::default()
    };
    let b = loaded(&saved(&c));
    assert_eq!(b.password_str(), "p");
    assert_eq!(b.theme, "dark");
    assert!(b.cava && !b.daemon && b.auto_continue && !b.stream_on_start);
    assert_eq!((b.cava_size, b.offline_cache_max_mb), (10, 7));
    assert_eq!(b.repeat_mode, RepeatMode::One);
    assert_eq!(b.music_folder_id, Some(-4));
    assert!(b.music_folder_chosen);
    assert_eq!(b.rate_switch_delay_ms, 0);
    assert_eq!(b.keybindings, c.keybindings);
    assert_eq!(b.clone().keybindings, c.keybindings);
}

#[test]
fn validate_rejects_empty_and_malformed_addresses() {
    assert_eq!(
        Config::new().validate(),
        Err(ConfigError::MissingField {
            field: "BaseURL".to_string()
        })
    );
    let mut c = Config::new();
    c.base_url = "https://x".into();
    assert_eq!(c.validate(), Ok(()));
    c.base_url = "not a url".into();
    assert_eq!(
        c.validate(),
        Err(ConfigError::InvalidUrl {
            url: "not a url".to_string()
        })
    );
    assert_eq!(c.validate_with(true), Ok(()));
    c.replay_gain_preamp = Binary64::from_bits(f64::NAN.to_bits());
    assert_eq!(
        c.validate(),
        Err(ConfigError::InvalidValue {
            field: "ReplayGainPreamp",
            reason: "must be finite"
        })
    );
}

#[test]
fn save_refuses_a_gain_that_is_not_finite() {
    for bad in [f64::NAN, f64::INFINITY, f64::NEG_INFINITY] {
        let c = Config {
            replay_gain_preamp: Binary64::from_bits(bad.to_bits()),
            ..Config::default()
        };
        assert_eq!(
            c.save_to_file().err(),
            Some(ConfigError::InvalidValue {
                field: "ReplayGainPreamp",
                reason: "must be finite"
            })
        );
    }
    assert!(Config::default().save_to_file().is_ok());
}

#[test]
fn a_missing_file_is_an_error_or_the_defaults() {
    assert_eq!(
        Config::load_from_file("/nowhere/c.toml", None).err(),
        Some(ConfigError::NotFound {
            path: "/nowhere/c.toml".into()
        })
    );
    let c = Config::load_default(None).unwrap();
    assert_eq!((c.cava_size, c.scrobble), (40, true));
    let file = read("BaseURL = \"https://x\"\n");
    let c = Config::load_from_file("/c.toml", Some(file)).unwrap();
    assert_eq!(c.base_url, "https://x");
    let file = read("RepeatMode = \"Sometimes\"\n");
    assert!(Config::load_default(Some(file)).is_err());
    assert_eq!(
        Config::default_location(None).err(),
        Some(ConfigError::NotFound {
            path: "default config location".into()
        })
    );
    assert_eq!(
        Config::default_location(Some("/c.toml".into())),
        Ok("/c.toml".to_string())
    );
}
