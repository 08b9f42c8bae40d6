//! Background watchers: mpv's events, the fast probe.

use crate::audio::mpv_protocol::MpvEventKind;
use crate::daemon::engine::DaemonCore;
use crate::strings::same_text;
use vstd::prelude::*;

verus! {

/// How often the fast probe looks.
pub const FAST_PROBE_LOOKS: u32 = 80;

/// The pause before each look of the fast probe.
pub const FAST_PROBE_INTERVAL_MS: u64 = 50;

/// What the event listener received.
pub enum Heard {
    Event(MpvEventKind),
    /// Events were lost.
    Lagged,
    /// No more events will come.
    Closed,
}

/// What the event listener does next.
#[derive(Debug, Clone, Copy, PartialEq, Eq, Structural)]
pub enum ListenerStep {
    /// Wait for the next event.
    Listen,
    /// Ask mpv whether it is idle; advance if it is.
    AskIdle,
    /// Ask mpv for its playlist count; advance unless the next track is
    /// already loaded.
    AskCount,
    /// End.
    Leave,
}

/// The event is the natural end of a file.
pub open spec fn is_track_end(kind: MpvEventKind) -> bool {
    kind matches MpvEventKind::EndFile { reason } && reason@ == "eof"@
}

impl DaemonCore {
    /// Decides what follows something heard. Only the natural end of a track
    /// leads on; after lost events mpv itself is asked. A shutdown is noticed
    /// before the next event is waited for and before a track end is acted on.
    pub fn mpv_event(&self, heard: &Heard) -> (r: ListenerStep)
        ensures
            r == (match *heard {
                Heard::Closed => ListenerStep::Leave,
                Heard::Lagged => ListenerStep::AskIdle,
                Heard::Event(kind) => if !is_track_end(kind) {
                    ListenerStep::Listen
                } else if self.tasks.shutdown {
                    ListenerStep::Leave
                } else {
                    ListenerStep::AskCount
                },
            }),
    {
        match heard {
            Heard::Closed => ListenerStep::Leave,
            Heard::Lagged => ListenerStep::AskIdle,
            Heard::Event(kind) => {
                let ended = match kind {
                    MpvEventKind::EndFile { reason } => same_text(reason.as_str(), "eof"),
                    _ => false,
                };
                if !ended {
                    ListenerStep::Listen
                } else if self.tasks.shutdown {
                    ListenerStep::Leave
                } else {
                    ListenerStep::AskCount
                }
            },
        }
    }

    /// Whether the listener goes on to wait for an event.
    #[must_use]
    pub fn listener_goes_on(&self) -> (r: bool)
        ensures
            r == !self.tasks.shutdown,
    {
        !self.tasks.shutdown
    }

    /// Whether lost events come to an advance. `idle` is mpv's answer, nothing
    /// where it gave none.
    #[must_use]
    pub fn advance_after_lag(idle: Option<bool>) -> (r: bool)
        ensures
            r == (idle == Some(true)),
    {
        idle == Some(true)
    }

    /// Whether the end of a track comes to an advance. With the next track
    /// preloaded mpv goes on by itself and the poll follows it. `count` is
    /// mpv's answer, nothing where it gave none.
    #[must_use]
    pub fn advance_after_end(count: Option<usize>) -> (r: bool)
        ensures
            r == !(count is Some && count->0 >= 2),
    {
        match count {
            Some(n) => n < 2,
            None => true,
        }
    }

    /// Whether look number `look` of the fast probe is made, after its pause.
    /// The probe ends with a shutdown and after a bounded number of looks.
    #[must_use]
    pub fn fast_probe_goes_on(&self, look: u32) -> (r: bool)
        ensures
            r == (look < FAST_PROBE_LOOKS && !self.tasks.shutdown),
    {
        look < FAST_PROBE_LOOKS && !self.tasks.shutdown
    }

    /// Whether the fast probe still has something to find out.
    #[must_use]
    pub fn rate_still_missing(&self) -> (r: bool)
        ensures
            r == (self.state.now_playing.sample_rate is None),
    {
        self.state.now_playing.sample_rate.is_none()
    }
}

} // verus!
