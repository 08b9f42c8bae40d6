//! What the daemon mirrors to its clients: queue, playhead, settings.

use crate::binary64::Binary64;
use crate::config::settings::{cloned_text, Config};
use vstd::prelude::*;

verus! {

/// A song as the server describes it.
#[derive(Debug, PartialEq, Eq)]
pub struct Child {
    pub id: String,
    pub title: String,
    pub artist: Option<String>,
    pub album: Option<String>,
    /// Length in seconds.
    pub duration: Option<u32>,
}

impl Clone for Child {
    fn clone(&self) -> (r: Self)
        ensures
            r == *self,
    {
        Child {
            id: self.id.clone(),
            title: self.title.clone(),
            artist: cloned_text(&self.artist),
            album: cloned_text(&self.album),
            duration: self.duration,
        }
    }
}

impl Default for Child {
    fn default() -> (r: Self)
        ensures
            r.id@.len() == 0,
            r.title@.len() == 0,
            r.artist is None,
            r.album is None,
            r.duration is None,
    {
        Child {
            id: String::new(),
            title: String::new(),
            artist: None,
            album: None,
            duration: None,
        }
    }
}

/// A copy of a list of songs.
pub fn cloned_songs(v: &Vec<Child>) -> (r: Vec<Child>)
    ensures
        r@ == v@,
{
    let mut out: Vec<Child> = Vec::new();
    for i in 0..v.len()
        invariant
            out@ == v@.take(i as int),
    {
        out.push(v[i].clone());
    }
    proof {
        assert(v@.take(v@.len() as int) =~= v@);
    }
    out
}

/// Whether something plays.
#[derive(Debug, Clone, Copy, PartialEq, Eq, Structural)]
pub enum PlaybackState {
    Stopped,
    Playing,
    Paused,
}

/// The current track and its playhead.
#[derive(Debug, PartialEq, Eq)]
pub struct NowPlaying {
    pub song: Option<Child>,
    pub state: PlaybackState,
    /// Playhead in seconds.
    pub position: Binary64,
    /// Length of the track in seconds.
    pub duration: u32,
    pub sample_rate: Option<u32>,
    pub bit_depth: Option<u32>,
    pub format: Option<String>,
    pub channels: Option<String>,
    /// Percent.
    pub volume: i32,
}

impl Clone for NowPlaying {
    fn clone(&self) -> (r: Self)
        ensures
            r == *self,
    {
        NowPlaying {
            song: match &self.song {
                Some(s) => Some(s.clone()),
                None => None,
            },
            state: self.state,
            position: self.position,
            duration: self.duration,
            sample_rate: self.sample_rate,
            bit_depth: self.bit_depth,
            format: cloned_text(&self.format),
            channels: cloned_text(&self.channels),
            volume: self.volume,
        }
    }
}

/// What the decoder tells of the track that is loaded.
#[derive(Debug, PartialEq, Eq)]
pub struct AudioProps {
    pub sample_rate: Option<u32>,
    pub bit_depth: Option<u32>,
    pub format: Option<String>,
    pub channels: Option<String>,
}

/// The mirrored state.
pub struct DaemonState {
    pub queue: Vec<Child>,
    pub queue_position: Option<usize>,
    pub now_playing: NowPlaying,
    pub config: Config,
    pub mpv_version: Option<(u16, u16)>,
}

/// The song at `pos` in the queue.
pub open spec fn song_at(queue: Seq<Child>, pos: int) -> Option<Child> {
    if 0 <= pos < queue.len() {
        Some(queue[pos])
    } else {
        None
    }
}

/// `np` with the track unloaded.
pub open spec fn unloaded(np: NowPlaying) -> NowPlaying {
    NowPlaying {
        song: None,
        state: PlaybackState::Stopped,
        position: (Binary64 { bits: 0 }),
        duration: 0,
        sample_rate: None,
        bit_depth: None,
        format: None,
        channels: None,
        ..np
    }
}

/// `np` stopped at the start of its track.
pub open spec fn rewound(np: NowPlaying) -> NowPlaying {
    NowPlaying { state: PlaybackState::Stopped, position: (Binary64 { bits: 0 }), ..np }
}

/// `np` with what the decoder tells.
pub open spec fn described(np: NowPlaying, props: AudioProps) -> NowPlaying {
    NowPlaying {
        sample_rate: props.sample_rate,
        bit_depth: props.bit_depth,
        format: props.format,
        channels: props.channels,
        ..np
    }
}

} // verus!
