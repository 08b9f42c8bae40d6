//! What playback keeps across operations.

use crate::binary64::Binary64;
use crate::daemon::dispatch::{DirectLoad, Dispatch};
use crate::daemon::engine::{DaemonCore, PlayMode};
use crate::daemon::playback_ops::{
    advance_begun, back_target, carried_out, finish_parts, halted, marked_paused, pause_parts,
    repin_rate, resume_point, skip_target, stop_parts, unload_parts, Advance, Back, Halt,
};
use crate::daemon::state::{Child, PlaybackState};
use vstd::prelude::*;

verus! {

/// The playhead after a position was handed to mpv from `start_at`.
pub open spec fn played_from(core: DaemonCore, start_at: Binary64) -> DaemonCore {
    if start_at.above(0) {
        core.at_position(start_at)
    } else {
        core
    }
}

/// Pausing a playing track and resuming it goes on with the same queue
/// position at the same place in the track, as the same playback instance.
/// `run` is the pause as it is carried out. A playhead is zero or positive.
pub proof fn law_resume_undoes_pause(core: DaemonCore, pos: usize, run: Seq<DaemonCore>)
    requires
        core.state.now_playing.state == PlaybackState::Playing,
        core.state.queue_position == Some(pos),
        pos < core.state.queue@.len(),
        core.state.now_playing.position.bits == 0 || core.state.now_playing.position.above(0),
        carried_out(run, pause_parts()),
        run[0] == marked_paused(core),
    ensures
        ({
            let start = core.state.now_playing.position;
            let song = core.state.queue@[pos as int];
            let resumed = played_from(
                run.last().committed(song, pos, false).without_prebuffer(),
                start,
            );
            &&& resume_point(run.last()) == Some((pos, start))
            &&& resumed.state.queue_position == Some(pos)
            &&& resumed.state.queue == core.state.queue
            &&& resumed.state.now_playing.state == PlaybackState::Playing
            &&& resumed.state.now_playing.position == start
            &&& resumed.state.now_playing.song == Some(song)
            &&& resumed.tasks.play_instance == core.tasks.play_instance
        }),
{
    assert(halted(run[0], pause_parts()[0], run[1]));
    assert(halted(run[1], pause_parts()[1], run[2]));
    assert(halted(run[2], pause_parts()[2], run[3]));
    assert(halted(run[3], pause_parts()[3], run[4]));
}

/// Stopping without clearing the queue and resuming starts the same queue
/// position from the top.
pub proof fn law_resume_after_stop_restarts(run: Seq<DaemonCore>, pos: usize)
    requires
        carried_out(run, finish_parts()),
        run[0].state.queue_position == Some(pos),
    ensures
        run.last().state.now_playing.state == PlaybackState::Stopped,
        run.last().state.queue == run[0].state.queue,
        run.last().state.now_playing.song == run[0].state.now_playing.song,
        resume_point(run.last()) == Some((pos, (Binary64 { bits: 0 }))),
        forall|task: u64| run.last().cancelled(task),
{
    assert(halted(run[0], finish_parts()[0], run[1]));
    assert(halted(run[1], finish_parts()[1], run[2]));
    assert(halted(run[2], finish_parts()[2], run[3]));
    assert(halted(run[3], finish_parts()[3], run[4]));
    assert(halted(run[4], finish_parts()[4], run[5]));
}

/// A full stop leaves nothing queued, nothing loaded and nothing downloading;
/// the volume stays.
pub proof fn law_stop_clears_everything(run: Seq<DaemonCore>)
    requires
        carried_out(run, stop_parts()),
    ensures
        run.last().state.queue@.len() == 0,
        run.last().state.queue_position is None,
        run.last().state.now_playing.state == PlaybackState::Stopped,
        run.last().state.now_playing.song is None,
        run.last().state.now_playing.volume == run[0].state.now_playing.volume,
        resume_point(run.last()) is None,
        forall|task: u64| run.last().cancelled(task),
{
    assert(halted(run[0], stop_parts()[0], run[1]));
    assert(halted(run[1], stop_parts()[1], run[2]));
    assert(halted(run[2], stop_parts()[2], run[3]));
    assert(halted(run[3], stop_parts()[3], run[4]));
    assert(halted(run[4], stop_parts()[4], run[5]));
    assert(halted(run[5], stop_parts()[5], run[6]));
    assert(halted(run[6], stop_parts()[6], run[7]));
}

/// Unloading keeps the queue and the place in it, so playback can be taken up
/// from the top of the same position.
pub proof fn law_unload_keeps_the_queue(run: Seq<DaemonCore>, pos: usize)
    requires
        carried_out(run, unload_parts()),
        run[0].state.queue_position == Some(pos),
    ensures
        run.last().state.queue == run[0].state.queue,
        run.last().state.now_playing.song is None,
        resume_point(run.last()) == Some((pos, (Binary64 { bits: 0 }))),
        forall|task: u64| run.last().cancelled(task),
{
    assert(halted(run[0], unload_parts()[0], run[1]));
    assert(halted(run[1], unload_parts()[1], run[2]));
    assert(halted(run[2], unload_parts()[2], run[3]));
    assert(halted(run[3], unload_parts()[3], run[4]));
    assert(halted(run[4], unload_parts()[4], run[5]));
}

/// Every way of leaving playback first cancels a download, then stops mpv, and
/// releases the device last, when mpv no longer holds it.
pub proof fn law_leaving_playback_releases_the_device(parts: Seq<Halt>)
    requires
        parts == pause_parts() || parts == finish_parts() || parts == stop_parts() || parts
            == unload_parts(),
    ensures
        parts[0] == Halt::CancelPrebuffer,
        parts[1] == Halt::StopMpv,
        parts.last() == Halt::ReleaseRate,
        parts.contains(Halt::TellNowPlaying),
{
    if parts == pause_parts() {
        assert(parts[2] == Halt::TellNowPlaying);
    } else if parts == stop_parts() {
        assert(parts[4] == Halt::TellNowPlaying);
    } else {
        assert(parts[3] == Halt::TellNowPlaying);
    }
}

/// While one automatic advance is under way no other begins.
pub proof fn law_one_advance_at_a_time(core: DaemonCore)
    ensures
        advance_begun(advance_begun(core).1).0 is None,
        advance_begun(core).1.tasks.advance_in_flight,
{
}

/// A manual start makes an advance that was asked for before it void: the
/// playback instance that the advance is for is no longer current.
pub proof fn law_manual_start_voids_a_pending_advance(core: DaemonCore, song: Child, pos: usize)
    ensures
        core.committed(song, pos, true).tasks.play_instance != core.tasks.play_instance,
        core.committed(song, pos, false).tasks.play_instance == core.tasks.play_instance,
{
}

/// Committing a position supersedes the settle of the load before it.
pub proof fn law_commit_supersedes_older_settles(
    core: DaemonCore,
    song: Child,
    pos: usize,
    new_instance: bool,
)
    ensures
        core.committed(song, pos, new_instance).superseded(core.tasks.loadfile_gen),
{
}

/// A committed position is one in the queue, and can be counted on from.
pub proof fn law_committed_position_is_in_the_queue(
    core: DaemonCore,
    pos: usize,
    new_instance: bool,
)
    requires
        pos < core.state.queue@.len(),
    ensures
        core.committed(core.state.queue@[pos as int], pos, new_instance).position_in_range(),
        core.committed(core.state.queue@[pos as int], pos, new_instance).state.queue@
            == core.state.queue@,
{
    assert(core.state.queue.len() == core.state.queue@.len());
}

/// From a position in the queue, stepping back within the first three seconds
/// after a skip leads back to it.
pub proof fn law_back_undoes_skip(core: DaemonCore, pos: usize, next: usize, after: DaemonCore)
    requires
        core.state.queue_position == Some(pos),
        pos < core.state.queue@.len(),
        skip_target(core) == Advance::Play(next),
        after.state.queue@ == core.state.queue@,
        after.state.queue_position == Some(next),
        after.state.config.repeat_mode == core.state.config.repeat_mode,
        after.state.now_playing.position.below(3),
    ensures
        back_target(after) == Back::Play(pos),
{
    assert(core.state.queue.len() == core.state.queue@.len());
    let len = core.state.queue@.len() as int;
    let target = core.state.config.repeat_mode.manual_target(pos as int, len);
    if pos + 1 < len {
        vstd::arithmetic::div_mod::lemma_small_mod((pos + 1) as nat, len as nat);
    } else {
        vstd::arithmetic::div_mod::lemma_mod_self_0(len);
    }
    assert(target is Some);
}

/// A usable offset reaches mpv exactly once: in the load where mpv can decode
/// from it, in a seek afterwards where it cannot. An offset that is not a
/// positive finite number never does.
pub proof fn law_offset_reaches_mpv_once(
    core: DaemonCore,
    url: Seq<char>,
    pos: usize,
    mode: PlayMode,
    start_at: Binary64,
    load: DirectLoad,
)
    requires
        core.dispatches(url, pos, mode, start_at, Dispatch::Direct(load)),
    ensures
        load.start is None || load.seek_after is None,
        start_at.finite() && start_at.above(0) <==> load.start == Some(start_at) || load.seek_after
            == Some(start_at),
        load.start matches Some(at) ==> at.finite() && at.above(0),
        load.seek_after matches Some(at) ==> at.finite() && at.above(0),
{
}

/// Without `pw-metadata` no track counts as a change of rate and no resume
/// switches the device, so nothing is ever waited for.
pub proof fn law_unavailable_device_is_never_waited_for(core: DaemonCore, rate: u32)
    requires
        !core.pipewire@.available,
    ensures
        !core.rate_changes(rate),
        repin_rate(core) is None,
{
}

/// A pause clears the pin, so the resume of a track with a known rate switches
/// the device back.
pub proof fn law_resume_after_release_switches_back(core: DaemonCore, rate: u32)
    requires
        core.state.now_playing.state == PlaybackState::Paused,
        core.pipewire@.available,
        core.pipewire@.current is None,
        core.state.now_playing.sample_rate == Some(rate),
    ensures
        repin_rate(core) == Some(rate),
{
}

} // verus!
