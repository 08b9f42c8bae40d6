//! What the playback operations do, call by call.
//!
//! Each law speaks of a call: of the core that it is made on, of what it is
//! given and of what it gives back.

use crate::audio::mpv_protocol::{ArgView, MpvCommand};
use crate::audio::pipewire::args_of;
use crate::binary64::Binary64;
use crate::config::modes::RepeatMode;
use crate::daemon::dispatch::Dispatch;
use crate::daemon::engine::{DaemonCore, Notice, PlayMode};
use crate::daemon::playback_ops::{Advance, Back, Halt, PlayIntent, Preload, Resume, Toggle};
use crate::daemon::state::PlaybackState;
use crate::strings::decimal;
use vstd::prelude::*;

verus! {

/// A manual skip moves on by one wherever a track follows, in every repeat
/// mode. From the last track it goes round where the queue repeats; where it
/// does not, random songs follow if that is wanted, and playback ends if not.
/// A skip that an automatic advance was under way for, or without a queue,
/// comes to nothing, and one without a position starts at the front.
pub proof fn law_manual_skip(core: DaemonCore, auto_was_in_flight: bool, r: Advance)
    requires
        call_ensures(DaemonCore::next_track, (&core, auto_was_in_flight), r),
    ensures
        ({
            let len = core.state.queue@.len();
            let off = core.state.config.repeat_mode == RepeatMode::Off;
            &&& auto_was_in_flight || len == 0 ==> r == Advance::Nothing
            &&& !auto_was_in_flight && len > 0 ==> match core.state.queue_position {
                None => r == Advance::Play(0),
                Some(p) => {
                    &&& p + 1 < len ==> r == Advance::Play((p + 1) as usize)
                    &&& p + 1 == len && !off ==> r == Advance::Play(0)
                    &&& p + 1 >= len && !off ==> (r matches Advance::Play(q) && q == (p + 1) % (
                    len as int))
                    &&& p + 1 >= len && off ==> r == if core.state.config.auto_continue {
                        Advance::Continue
                    } else {
                        Advance::Finish
                    }
                },
            }
        }),
{
    assert(core.state.queue.len() == core.state.queue@.len());
    let len = core.state.queue@.len();
    if len > 0 {
        if let Some(p) = core.state.queue_position {
            vstd::arithmetic::div_mod::lemma_mod_bound(p as int + 1, len as int);
            if p + 1 < len {
                vstd::arithmetic::div_mod::lemma_small_mod((p + 1) as nat, len);
            } else if p + 1 == len {
                vstd::arithmetic::div_mod::lemma_mod_self_0(len as int);
            }
        }
    }
}

/// The end of a track leads on by itself: to the same track with `One`, to the
/// following one otherwise, and from the last one round to the front with
/// `All`. Only from the last track with `Off` nothing follows in the queue:
/// then random songs do if that is wanted, and playback ends if not. An advance
/// that a newer playback instance overtook comes to nothing.
pub proof fn law_automatic_advance(core: DaemonCore, instance: u64, r: Advance)
    requires
        call_ensures(DaemonCore::advance_auto, (&core, instance), r),
    ensures
        ({
            let len = core.state.queue@.len();
            let mode = core.state.config.repeat_mode;
            let current = instance == core.tasks.play_instance;
            &&& !current || len == 0 ==> r == Advance::Nothing
            &&& current && len > 0 ==> match core.state.queue_position {
                None => r == Advance::Play(0),
                Some(p) => {
                    &&& mode == RepeatMode::One ==> r == Advance::Play(p)
                    &&& mode != RepeatMode::One && p + 1 < len ==> r == Advance::Play(
                        (p + 1) as usize,
                    )
                    &&& mode == RepeatMode::All && p + 1 == len ==> r == Advance::Play(0)
                    &&& mode == RepeatMode::All ==> (r matches Advance::Play(q) && q == (p + 1) % (
                    len as int))
                    &&& mode == RepeatMode::Off && p + 1 >= len ==> r
                        == if core.state.config.auto_continue {
                        Advance::Continue
                    } else {
                        Advance::Finish
                    }
                },
            }
        }),
{
    assert(core.state.queue.len() == core.state.queue@.len());
    let len = core.state.queue@.len();
    if len > 0 {
        if let Some(p) = core.state.queue_position {
            vstd::arithmetic::div_mod::lemma_mod_bound(p as int + 1, len as int);
            if p + 1 < len {
                vstd::arithmetic::div_mod::lemma_small_mod((p + 1) as nat, len);
            } else if p + 1 == len {
                vstd::arithmetic::div_mod::lemma_mod_self_0(len as int);
            }
        }
    }
}

/// A step back restarts the track once three seconds have passed, whatever the
/// repeat mode and the position. Before that it leads to the track before; at
/// the front it goes round to the last track where the queue repeats and
/// restarts the first one where it does not. Without a queue nothing happens.
pub proof fn law_step_back(core: DaemonCore, r: Back)
    requires
        call_ensures(DaemonCore::prev_track, (&core,), r),
    ensures
        ({
            let len = core.state.queue@.len();
            let early = core.state.now_playing.position.below(3);
            let off = core.state.config.repeat_mode == RepeatMode::Off;
            &&& len == 0 ==> r == Back::Nothing
            &&& len > 0 && !early ==> r == Back::Restart
            &&& len > 0 && early ==> match core.state.queue_position {
                None => r == Back::Restart,
                Some(p) => {
                    &&& p > 0 ==> r == Back::Play((p - 1) as usize)
                    &&& p == 0 && off ==> r == Back::Restart
                    &&& p == 0 && !off ==> r == Back::Play((len - 1) as usize)
                },
            }
        }),
{
    assert(core.state.queue.len() == core.state.queue@.len());
}

/// The pause key turns a playing track silent, a paused one on again, and
/// starts the queued position when all is stopped.
pub proof fn law_pause_key(core: DaemonCore, r: Toggle)
    requires
        call_ensures(DaemonCore::toggle_pause, (&core,), r),
    ensures
        r == Toggle::Pause <==> core.state.now_playing.state == PlaybackState::Playing,
        r == Toggle::Resume <==> core.state.now_playing.state == PlaybackState::Paused,
        forall|p: usize|
            r == Toggle::Play(p) <==> core.state.now_playing.state == PlaybackState::Stopped
                && core.state.queue_position == Some(p),
{
}

/// A pause takes only what plays: it is marked paused and nothing else of it
/// changes, so the playhead is kept. The download is cancelled, mpv stopped,
/// the clients told and the device released, in this order.
pub proof fn law_pause(core: &mut DaemonCore, r: Vec<Halt>)
    requires
        call_ensures(DaemonCore::pause_playback, (core,), r),
    ensures
        old(core).state.now_playing.state != PlaybackState::Playing ==> r@.len() == 0
            && *final(core) == *old(core),
        old(core).state.now_playing.state == PlaybackState::Playing ==> {
            &&& r@ == seq![
                Halt::CancelPrebuffer,
                Halt::StopMpv,
                Halt::TellNowPlaying,
                Halt::ReleaseRate,
            ]
            &&& final(core).state.now_playing.state == PlaybackState::Paused
            &&& final(core).state.now_playing.position == old(core).state.now_playing.position
            &&& final(core).state.now_playing.song == old(core).state.now_playing.song
            &&& final(core).state.now_playing.duration == old(core).state.now_playing.duration
            &&& final(core).state.now_playing.sample_rate == old(core).state.now_playing.sample_rate
            &&& final(core).state.now_playing.volume == old(core).state.now_playing.volume
            &&& final(core).state.queue == old(core).state.queue
            &&& final(core).state.queue_position == old(core).state.queue_position
            &&& final(core).state.config == old(core).state.config
            &&& final(core).tasks == old(core).tasks
            &&& final(core).pipewire == old(core).pipewire
            &&& final(core).mpv == old(core).mpv
        },
{
}

/// A resume takes up the queued position unless something plays already: a
/// paused track at its playhead, a stopped one from the top. Only for a paused
/// track whose rate is known, and only where the device can be switched and is
/// pinned to another rate or to none, the device is switched to that rate
/// first and waited for as long as the settings say.
pub proof fn law_resume(core: DaemonCore, r: Option<Resume>)
    requires
        call_ensures(DaemonCore::resume_playback, (&core,), r),
    ensures
        ({
            let np = core.state.now_playing;
            let pw = core.pipewire@;
            let paused = np.state == PlaybackState::Paused;
            &&& r is Some <==> np.state != PlaybackState::Playing
                && core.state.queue_position is Some
            &&& r matches Some(res) ==> {
                &&& core.state.queue_position == Some(res.pos)
                &&& paused ==> res.start_at == np.position
                &&& !paused ==> res.start_at.bits == 0
                &&& res.repin is Some <==> paused && pw.available && np.sample_rate is Some
                    && pw.current != np.sample_rate
                &&& res.repin matches Some(p) ==> {
                    &&& np.sample_rate == Some(p.rate)
                    &&& p.settle_ms == core.state.config.rate_switch_delay_ms
                    &&& args_of(p.args) == Some(
                        seq![
                            "-n"@,
                            "settings"@,
                            "0"@,
                            "clock.force-rate"@,
                            decimal(p.rate as nat),
                        ],
                    )
                }
            }
        }),
{
    if let Some(res) = r {
        if let Some(p) = res.repin {
            assert(crate::audio::pipewire::force_args(p.rate as nat) =~= seq![
                "-n"@,
                "settings"@,
                "0"@,
                "clock.force-rate"@,
                decimal(p.rate as nat),
            ]);
        }
    }
}

/// Restored playback starts by itself only where that is set and a track was
/// restored paused.
pub proof fn law_autoplay(core: DaemonCore, r: bool)
    requires
        call_ensures(DaemonCore::autoplay_restored_if_configured, (&core,), r),
    ensures
        r ==> core.state.config.autoplay_on_start,
        r ==> core.state.now_playing.state == PlaybackState::Paused,
        r ==> core.state.queue_position is Some,
        core.state.config.autoplay_on_start && core.state.now_playing.state
            == PlaybackState::Paused && core.state.queue_position is Some ==> r,
{
}

/// Of two track ends that are noticed before an advance has ended only the
/// first leads on, for the playback instance that was current; once the
/// advance has ended, the next one may.
pub proof fn law_one_track_end_leads_on_once(core: &mut DaemonCore, r: Option<u64>)
    requires
        call_ensures(DaemonCore::begin_advance, (core,), r),
    ensures
        old(core).tasks.advance_in_flight ==> r is None,
        !old(core).tasks.advance_in_flight ==> r == Some(old(core).tasks.play_instance),
        final(core).tasks.advance_in_flight,
        final(core).tasks.play_instance == old(core).tasks.play_instance,
        final(core).state == old(core).state,
{
}

/// The end of an advance lets the next one begin and changes nothing else.
pub proof fn law_advance_ends(core: &mut DaemonCore)
    requires
        call_ensures(DaemonCore::end_advance, (core,), ()),
    ensures
        !final(core).tasks.advance_in_flight,
        final(core).tasks.play_instance == old(core).tasks.play_instance,
        final(core).tasks.loadfile_gen == old(core).tasks.loadfile_gen,
        final(core).state == old(core).state,
{
}

/// Playing a queue position makes its song the current one, playing from the
/// front with nothing known of its sound yet. Queue, settings and volume stay.
/// Every play counts as a load, and only a start as a new playback instance.
/// Without a song there, or without a URL, nothing changes.
pub proof fn law_play_position(
    core: &mut DaemonCore,
    pos: usize,
    mode: PlayMode,
    start_at: Binary64,
    intent: PlayIntent,
    stream_url: Result<String, String>,
    cached: Option<String>,
    r: Result<Dispatch, Option<Notice>>,
)
    requires
        call_ensures(
            DaemonCore::play_queue_position_at_locked,
            (core, pos, mode, start_at, intent, stream_url, cached),
            r,
        ),
    ensures
        r is Ok <==> pos < old(core).state.queue@.len() && stream_url is Ok,
        r is Err ==> *final(core) == *old(core),
        r matches Err(notice) ==> (notice is Some <==> pos < old(core).state.queue@.len()),
        r is Ok ==> {
            let song = old(core).state.queue@[pos as int];
            let np = final(core).state.now_playing;
            &&& final(core).state.queue_position == Some(pos)
            &&& np.song == Some(song)
            &&& np.state == PlaybackState::Playing
            &&& np.position.bits == 0
            &&& song.duration matches Some(d) ==> np.duration == d
            &&& song.duration is None ==> np.duration == 0
            &&& np.sample_rate is None
            &&& np.bit_depth is None
            &&& np.format is None
            &&& np.channels is None
            &&& np.volume == old(core).state.now_playing.volume
            &&& final(core).state.queue == old(core).state.queue
            &&& final(core).state.config == old(core).state.config
            &&& final(core).tasks.loadfile_gen != old(core).tasks.loadfile_gen
            &&& final(core).tasks.play_instance != old(core).tasks.play_instance <==> intent
                == PlayIntent::Start
            &&& intent == PlayIntent::Start ==> final(core).tasks.played_this_session
            &&& intent == PlayIntent::Resume ==> final(core).tasks.played_this_session
                == old(core).tasks.played_this_session
            &&& final(core).tasks.advance_in_flight == old(core).tasks.advance_in_flight
            &&& final(core).tasks.shutdown == old(core).tasks.shutdown
            &&& final(core).pipewire == old(core).pipewire
            &&& final(core).mpv == old(core).mpv
        },
{
}

/// How a position reaches mpv. The cached copy is taken where the cache is on
/// and holds one, the stream otherwise. A file on disk is always loaded
/// directly, and so is a stream in direct mode: then no download goes on. A
/// stream in buffered mode becomes the one download that is current. An offset
/// goes with a direct load: decoded from where mpv can, sought afterwards where
/// it cannot, and only if it is a positive finite number.
pub proof fn law_position_reaches_mpv(
    core: &mut DaemonCore,
    pos: usize,
    mode: PlayMode,
    start_at: Binary64,
    intent: PlayIntent,
    stream_url: Result<String, String>,
    cached: Option<String>,
    r: Result<Dispatch, Option<Notice>>,
)
    requires
        call_ensures(
            DaemonCore::play_queue_position_at_locked,
            (core, pos, mode, start_at, intent, stream_url, cached),
            r,
        ),
        r is Ok,
    ensures
        ({
            let from = if old(core).state.config.offline_cache_enabled && cached is Some {
                cached->0@
            } else {
                stream_url->Ok_0@
            };
            let on_disk = from.len() > 0 && from[0] == '/';
            let recent = match old(core).mpv@.version {
                None => true,
                Some((major, minor)) => major > 0 || minor >= 38,
            };
            let usable = start_at.finite() && start_at.above(0);
            match r->Ok_0 {
                Dispatch::Direct(d) => {
                    &&& on_disk || mode == PlayMode::Direct
                    &&& d.url@ == from
                    &&& d.pos == pos
                    &&& d.start == if usable && recent {
                        Some(start_at)
                    } else {
                        None
                    }
                    &&& d.seek_after == if usable && !recent {
                        Some(start_at)
                    } else {
                        None
                    }
                    &&& final(core).tasks.prebuffer_cancel is None
                    &&& final(core).tasks.prebuffer_loading is None
                    &&& final(core).tasks.next_task == old(core).tasks.next_task
                },
                Dispatch::Buffered(b) => {
                    &&& !on_disk && mode == PlayMode::Buffered
                    &&& b.url@ == from
                    &&& b.pos == pos
                    &&& final(core).tasks.prebuffer_cancel == Some(b.task)
                    &&& final(core).tasks.prebuffer_loading is Some
                    &&& final(core).tasks.prebuffer_loading->0.task == b.task
                    &&& final(core).tasks.prebuffer_loading->0.loading
                    &&& final(core).tasks.next_task != b.task
                },
            }
        }),
{
}

/// The track that is preloaded is the one that the end of the current track
/// leads to: the same one with `One`, the following one otherwise, from the
/// last one the first with `All` and none with `Off`.
pub proof fn law_preload_is_what_comes_next(core: DaemonCore, pos: usize, r: Option<Preload>)
    requires
        call_ensures(DaemonCore::preload_next_track, (&core, pos), r),
        pos < core.state.queue@.len(),
    ensures
        ({
            let queue = core.state.queue@;
            let mode = core.state.config.repeat_mode;
            let next: int = if mode == RepeatMode::One {
                pos as int
            } else if pos + 1 < queue.len() {
                pos + 1
            } else {
                0
            };
            &&& r is Some <==> core.subsonic is Some && (mode != RepeatMode::Off || pos + 1
                < queue.len())
            &&& r matches Some(p) ==> p.request.song_id@ == queue[next].id@ && p.gen
                == core.tasks.loadfile_gen && p.request.want_cached
                == core.state.config.offline_cache_enabled
        }),
{
    assert(core.state.queue.len() == core.state.queue@.len());
    let len = core.state.queue@.len();
    if pos + 1 < len {
        vstd::arithmetic::div_mod::lemma_small_mod((pos + 1) as nat, len);
    } else {
        vstd::arithmetic::div_mod::lemma_mod_self_0(len as int);
    }
}

/// A preload is appended only for the load that it was made for, and only while
/// the current track is alone on mpv's playlist. It is never put in the place
/// of what plays.
pub proof fn law_preload_is_appended_once(
    core: DaemonCore,
    gen: u64,
    count: Option<usize>,
    url: String,
    want_cached: bool,
    cached: Option<String>,
    r: Option<MpvCommand>,
)
    requires
        call_ensures(DaemonCore::append_preload, (&core, gen, count, url, want_cached, cached), r),
    ensures
        r is Some <==> gen == core.tasks.loadfile_gen && count == Some(1usize),
        r matches Some(c) ==> c@ == seq![
            ArgView::Text("loadfile"@),
            ArgView::Text(
                if want_cached && cached is Some {
                    cached->0@
                } else {
                    url@
                },
            ),
            ArgView::Text("append"@),
        ],
{
}

/// After a change of the queue what is preloaded is made anew only while
/// something plays, and only an entry behind the current one is dropped.
pub proof fn law_stale_preload_is_dropped(
    core: DaemonCore,
    pos: Option<usize>,
    count: Option<usize>,
    r: Option<MpvCommand>,
)
    requires
        call_ensures(DaemonCore::resync_gapless_preload, (&core,), pos),
        call_ensures(DaemonCore::drop_stale_preload, (count,), r),
    ensures
        pos is Some <==> core.state.now_playing.state == PlaybackState::Playing
            && core.state.queue_position is Some,
        pos is Some ==> pos == core.state.queue_position,
        r is Some <==> count is Some && count->0 >= 2,
        r matches Some(c) ==> c@ == seq![ArgView::Text("playlist-remove"@), ArgView::Int(1)],
{
}

/// Every way of leaving playback cancels a download, stops mpv and releases the
/// device, in this order; the stop key keeps the track for the next start, a
/// full stop gives up the queue as well, and unloading keeps the queue.
pub proof fn law_ways_to_stop(
    at_end: Vec<Halt>,
    key: Vec<Halt>,
    full: Vec<Halt>,
    unload: Vec<Halt>,
)
    requires
        call_ensures(DaemonCore::finish_at_queue_end, (), at_end),
        call_ensures(DaemonCore::stop_keep_queue, (), key),
        call_ensures(DaemonCore::stop_playback, (), full),
        call_ensures(DaemonCore::halt_keep_queue, (), unload),
    ensures
        at_end@ == key@,
        at_end@ == seq![
            Halt::CancelPrebuffer,
            Halt::StopMpv,
            Halt::Rewind,
            Halt::TellNowPlaying,
            Halt::ReleaseRate,
        ],
        unload@ == at_end@.update(2, Halt::Unload),
        full@ == seq![
            Halt::CancelPrebuffer,
            Halt::StopMpv,
            Halt::Unload,
            Halt::ClearQueue,
            Halt::TellNowPlaying,
            Halt::TellQueue,
            Halt::ReleaseRate,
        ],
{
    assert(unload@ =~= at_end@.update(2, Halt::Unload));
}

/// What each part of stopping does to the core. Rewinding stops at the front of
/// the track; unloading forgets the track and what is known of its sound;
/// clearing empties the queue; cancelling leaves no download current. Nothing
/// else is touched, the volume and the settings never are.
pub proof fn law_part_of_stopping(core: &mut DaemonCore, part: Halt)
    requires
        call_ensures(DaemonCore::halt, (core, part), ()),
    ensures
        ({
            let before = old(core).state.now_playing;
            let np = final(core).state.now_playing;
            let stops = part == Halt::Rewind || part == Halt::Unload;
            &&& stops ==> np.state == PlaybackState::Stopped && np.position.bits == 0
            &&& !stops ==> np == before
            &&& part == Halt::Rewind ==> np.song == before.song && np.duration == before.duration
                && np.sample_rate == before.sample_rate && np.bit_depth == before.bit_depth
                && np.format == before.format && np.channels == before.channels
            &&& part == Halt::Unload ==> np.song is None && np.duration == 0 && np.sample_rate
                is None && np.bit_depth is None && np.format is None && np.channels is None
            &&& np.volume == before.volume
            &&& part == Halt::ClearQueue ==> final(core).state.queue@.len() == 0
                && final(core).state.queue_position is None
            &&& part != Halt::ClearQueue ==> final(core).state.queue == old(core).state.queue
                && final(core).state.queue_position == old(core).state.queue_position
            &&& final(core).state.config == old(core).state.config
            &&& part == Halt::CancelPrebuffer ==> final(core).tasks.prebuffer_cancel is None
                && final(core).tasks.prebuffer_loading is None
            &&& part != Halt::CancelPrebuffer ==> final(core).tasks == old(core).tasks
            &&& final(core).tasks.loadfile_gen == old(core).tasks.loadfile_gen
            &&& final(core).tasks.play_instance == old(core).tasks.play_instance
            &&& final(core).tasks.advance_in_flight == old(core).tasks.advance_in_flight
            &&& final(core).pipewire == old(core).pipewire
            &&& final(core).mpv == old(core).mpv
        }),
{
}

/// A seek that mpv obeyed moves the playhead there; one that it refused leaves
/// it, and no seek changes anything else.
pub proof fn law_seek_moves_the_playhead(core: &mut DaemonCore, pos: Binary64, ok: bool)
    requires
        call_ensures(DaemonCore::seeked, (core, pos, ok), ()),
    ensures
        final(core).state.now_playing.position == if ok {
            pos
        } else {
            old(core).state.now_playing.position
        },
        final(core).state.now_playing.state == old(core).state.now_playing.state,
        final(core).state.now_playing.song == old(core).state.now_playing.song,
        final(core).state.now_playing.volume == old(core).state.now_playing.volume,
        final(core).state.queue == old(core).state.queue,
        final(core).state.queue_position == old(core).state.queue_position,
        final(core).tasks == old(core).tasks,
{
}

/// A seek names its seconds and whether they count from the front of the track
/// or from the playhead.
pub proof fn law_seek_commands(
    pos: Binary64,
    offset: Binary64,
    to: MpvCommand,
    by: MpvCommand,
)
    requires
        call_ensures(DaemonCore::seek, (pos,), to),
        call_ensures(DaemonCore::seek_relative, (offset,), by),
    ensures
        to@ == seq![ArgView::Text("seek"@), ArgView::Double(pos), ArgView::Text("absolute"@)],
        by@ == seq![ArgView::Text("seek"@), ArgView::Double(offset), ArgView::Text("relative"@)],
{
}

/// A volume between none and full is taken as it is, any other as the nearer
/// end of that range; mpv is told what is noted.
pub proof fn law_volume(core: &mut DaemonCore, vol: i32, r: MpvCommand)
    requires
        call_ensures(DaemonCore::set_volume, (core, vol), r),
    ensures
        0 <= final(core).state.now_playing.volume <= 100,
        0 <= vol <= 100 ==> final(core).state.now_playing.volume == vol,
        vol < 0 ==> final(core).state.now_playing.volume == 0,
        vol > 100 ==> final(core).state.now_playing.volume == 100,
        r@ == seq![
            ArgView::Text("set_property"@),
            ArgView::Text("volume"@),
            ArgView::Int(final(core).state.now_playing.volume as int),
        ],
        final(core).state.now_playing.state == old(core).state.now_playing.state,
        final(core).state.now_playing.position == old(core).state.now_playing.position,
        final(core).state.now_playing.song == old(core).state.now_playing.song,
        final(core).state.queue == old(core).state.queue,
        final(core).tasks == old(core).tasks,
{
}

/// A start from an offset shows its playhead at once; a start from the front,
/// or from anything that is not positive, leaves it.
pub proof fn law_start_offset_shows_at_once(core: &mut DaemonCore, start_at: Binary64)
    requires
        call_ensures(DaemonCore::playing_from, (core, start_at), ()),
    ensures
        final(core).state.now_playing.position == if start_at.above(0) {
            start_at
        } else {
            old(core).state.now_playing.position
        },
        final(core).state.now_playing.state == old(core).state.now_playing.state,
        final(core).state.now_playing.song == old(core).state.now_playing.song,
        final(core).state.queue == old(core).state.queue,
        final(core).tasks == old(core).tasks,
{
}

} // verus!
