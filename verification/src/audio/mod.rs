//! Audio back ends: the mpv player and the `PipeWire` clock.

pub mod error;
pub mod laws;
pub mod mpv;
pub mod mpv_protocol;
pub mod pipewire;

pub use self::error::AudioError;
