//! Failures of the audio back ends.

use vstd::prelude::*;

verus! {

/// Why an audio operation failed.
#[derive(Debug, PartialEq, Eq)]
pub enum AudioError {
    /// mpv answered with an error, or did not answer.
    MpvIpc(String),
    /// There is no connection to mpv.
    MpvNotRunning,
    /// `pw-metadata` failed.
    PipeWire(String),
}

} // verus!
