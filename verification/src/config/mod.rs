//! Configuration: settings, what is kept on disk, and password resolution.

pub mod defaults;
pub mod keybind;
pub mod keys;
pub mod laws;
pub mod modes;
pub mod password;
pub mod saved;
pub mod settings;

pub use self::keys::KNOWN_CONFIG_KEYS;
pub use self::modes::{MacosAudioMode, RepeatMode, ReplayGainMode};
pub use self::settings::{Config, ConfigError, ConfigOnDisk, PasswordEval, PlaybackFilters};
