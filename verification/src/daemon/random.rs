//! Auto-continue: random songs when the queue has ended.

use crate::binary64::Binary64;
use crate::daemon::dispatch::{source_url, Dispatch};
use crate::daemon::engine::{DaemonCore, Notice};
use crate::daemon::playback_ops::PlayIntent;
use crate::daemon::state::{Child, DaemonState};
use crate::strings::{holds_text, joined, texts};
use vstd::prelude::*;

verus! {

/// How often the server is asked for a batch.
pub const ATTEMPTS: u32 = 3;

/// How many songs are picked at most.
pub const LOOKAHEAD: usize = 20;

/// A song that the server offers, and whether the playback filters let it in.
#[derive(Debug, PartialEq, Eq)]
pub struct Candidate {
    pub song: Child,
    pub passes: bool,
}

/// The songs of a batch that are new and let in, in order, at most `room` of
/// them. A song counts as seen once it was looked at, let in or not.
pub open spec fn picked(batch: Seq<Candidate>, seen: Set<Seq<char>>, room: nat) -> Seq<Child>
    decreases batch.len(),
{
    if batch.len() == 0 || room == 0 {
        Seq::empty()
    } else {
        let c = batch[0];
        let id = c.song.id@;
        if seen.contains(id) {
            picked(batch.skip(1), seen, room)
        } else if c.passes {
            seq![c.song] + picked(batch.skip(1), seen.insert(id), (room - 1) as nat)
        } else {
            picked(batch.skip(1), seen.insert(id), room)
        }
    }
}

/// The ids that are seen once a batch was looked through for `room` songs.
pub open spec fn seen_after(batch: Seq<Candidate>, seen: Set<Seq<char>>, room: nat) -> Set<
    Seq<char>,
>
    decreases batch.len(),
{
    if batch.len() == 0 || room == 0 {
        seen
    } else {
        let c = batch[0];
        let id = c.song.id@;
        if seen.contains(id) {
            seen_after(batch.skip(1), seen, room)
        } else if c.passes {
            seen_after(batch.skip(1), seen.insert(id), (room - 1) as nat)
        } else {
            seen_after(batch.skip(1), seen.insert(id), room)
        }
    }
}

/// The songs of a batch.
pub open spec fn songs_of(batch: Seq<Candidate>) -> Seq<Child> {
    batch.map_values(|c: Candidate| c.song)
}

/// The ids of the songs in a queue.
pub open spec fn ids_of(queue: Seq<Child>) -> Set<Seq<char>> {
    id_texts(queue).to_set()
}

/// The id of each song in a queue.
pub open spec fn id_texts(queue: Seq<Child>) -> Seq<Seq<char>> {
    queue.map_values(|s: Child| s.id@)
}

/// At most the first `LOOKAHEAD` of `songs`.
pub open spec fn first_songs(songs: Seq<Child>) -> Seq<Child> {
    if songs.len() > LOOKAHEAD {
        songs.take(LOOKAHEAD as int)
    } else {
        songs
    }
}

/// A pick under way.
pub struct RandomPick {
    seen: Vec<String>,
    fresh: Vec<Child>,
    fallback: Vec<Child>,
    attempts: u32,
}

/// A pick as mathematical values.
pub struct PickView {
    /// The ids that do not count as new.
    pub seen: Set<Seq<char>>,
    /// The songs picked so far.
    pub fresh: Seq<Child>,
    /// The first batch that held anything.
    pub fallback: Seq<Child>,
    /// How many batches were looked through.
    pub attempts: u32,
}

impl View for RandomPick {
    type V = PickView;

    closed spec fn view(&self) -> PickView {
        PickView {
            seen: texts(self.seen@).to_set(),
            fresh: self.fresh@,
            fallback: self.fallback@,
            attempts: self.attempts,
        }
    }
}

/// A pick after it was offered a batch.
pub open spec fn offered(before: PickView, batch: Seq<Candidate>) -> PickView {
    if batch.len() == 0 {
        PickView { attempts: (before.attempts + 1) as u32, ..before }
    } else {
        PickView {
            seen: seen_after(batch, before.seen, LOOKAHEAD as nat),
            fresh: picked(batch, before.seen, LOOKAHEAD as nat),
            fallback: if before.fallback.len() == 0 {
                songs_of(batch)
            } else {
                before.fallback
            },
            attempts: (before.attempts + 1) as u32,
        }
    }
}

/// Another batch is wanted after this one: it held something, but nothing
/// new, and the server was not asked too often.
pub open spec fn wants_more(before: PickView, batch: Seq<Candidate>) -> bool {
    batch.len() > 0 && offered(before, batch).fresh.len() == 0 && offered(before, batch).attempts
        < ATTEMPTS
}

/// The songs that a pick ends with: the new ones, or the first batch where
/// there was nothing new.
pub open spec fn pick_result(pick: PickView) -> Seq<Child> {
    if pick.fresh.len() == 0 {
        first_songs(pick.fallback)
    } else {
        pick.fresh
    }
}

proof fn lemma_insert_text(v: Seq<String>, s: String)
    ensures
        texts(v.push(s)).to_set() == texts(v).to_set().insert(s@),
{
    assert(texts(v.push(s)) =~= texts(v).push(s@));
    let a = texts(v);
    assert forall|x: Seq<char>| #[trigger] a.push(s@).to_set().contains(x) <==> a.to_set().insert(
        s@,
    ).contains(x) by {
        if a.contains(x) {
            let k = choose|k: int| 0 <= k < a.len() && a[k] == x;
            assert(a.push(s@)[k] == x);
        }
        if x == s@ {
            assert(a.push(s@)[a.len() as int] == x);
        }
        if a.push(s@).contains(x) {
            let k = choose|k: int| 0 <= k < a.push(s@).len() && a.push(s@)[k] == x;
            if k < a.len() {
                assert(a[k] == x);
            }
        }
    }
    assert(texts(v.push(s)).to_set() =~= texts(v).to_set().insert(s@));
}

impl RandomPick {
    /// Begins a pick of songs that are not in the queue.
    pub fn begin(queue: &Vec<Child>) -> (r: RandomPick)
        ensures
            r@.seen == ids_of(queue@),
            r@.fresh.len() == 0,
            r@.fallback.len() == 0,
            r@.attempts == 0,
    {
        let mut seen: Vec<String> = Vec::new();
        for i in 0..queue.len()
            invariant
                texts(seen@) == id_texts(queue@).take(i as int),
        {
            let ghost before = seen@;
            seen.push(queue[i].id.clone());
            proof {
                let ids = id_texts(queue@);
                assert(texts(seen@) =~= texts(before).push(queue@[i as int].id@));
                assert(ids.take(i as int + 1) =~= ids.take(i as int).push(ids[i as int]));
            }
        }
        proof {
            assert(id_texts(queue@).take(queue@.len() as int) =~= id_texts(queue@));
        }
        RandomPick { seen, fresh: Vec::new(), fallback: Vec::new(), attempts: 0 }
    }

    /// Looks through a batch. Returns whether another batch is wanted: only
    /// while nothing new was found, a bounded number of times, and not after
    /// an empty batch.
    pub fn offer(&mut self, batch: &Vec<Candidate>) -> (r: bool)
        requires
            old(self)@.attempts < ATTEMPTS,
            old(self)@.fresh.len() == 0,
        ensures
            final(self)@ == offered(old(self)@, batch@),
            r == wants_more(old(self)@, batch@),
    {
        self.attempts = self.attempts + 1;
        if batch.len() == 0 {
            return false;
        }
        if self.fallback.len() == 0 {
            self.fallback = songs_in(batch);
        }
        let ghost seen0 = texts(self.seen@).to_set();
        let mut seen: Vec<String> = Vec::new();
        for i in 0..self.seen.len()
            invariant
                seen@ == self.seen@.take(i as int),
        {
            seen.push(self.seen[i].clone());
        }
        proof {
            assert(self.seen@.take(self.seen@.len() as int) =~= self.seen@);
        }
        let mut fresh: Vec<Child> = Vec::new();
        let mut i: usize = 0;
        proof {
            assert(batch@.skip(0) =~= batch@);
            assert(fresh@ + picked(batch@, seen0, LOOKAHEAD as nat) =~= picked(
                batch@,
                seen0,
                LOOKAHEAD as nat,
            ));
        }
        while i < batch.len() && fresh.len() < LOOKAHEAD
            invariant
                i <= batch@.len(),
                fresh@.len() <= LOOKAHEAD,
                fresh@ + picked(
                    batch@.skip(i as int),
                    texts(seen@).to_set(),
                    (LOOKAHEAD - fresh@.len()) as nat,
                ) == picked(batch@, seen0, LOOKAHEAD as nat),
                seen_after(
                    batch@.skip(i as int),
                    texts(seen@).to_set(),
                    (LOOKAHEAD - fresh@.len()) as nat,
                ) == seen_after(batch@, seen0, LOOKAHEAD as nat),
            decreases batch@.len() - i,
        {
            let ghost rest = batch@.skip(i as int);
            let ghost s = texts(seen@).to_set();
            let ghost f = fresh@;
            proof {
                assert(rest.skip(1) =~= batch@.skip(i as int + 1));
            }
            let id = batch[i].song.id.clone();
            if !holds_text(&seen, id.as_str()) {
                proof {
                    lemma_insert_text(seen@, id);
                }
                seen.push(id);
                if batch[i].passes {
                    fresh.push(batch[i].song.clone());
                    proof {
                        let tail = picked(
                            rest.skip(1),
                            s.insert(id@),
                            (LOOKAHEAD - f.len() - 1) as nat,
                        );
                        assert(f + (seq![rest[0].song] + tail) =~= fresh@ + tail);
                    }
                }
            }
            i = i + 1;
        }
        proof {
            assert(fresh@ + Seq::<Child>::empty() =~= fresh@);
        }
        self.seen = seen;
        self.fresh = fresh;
        self.fresh.len() == 0 && self.attempts < ATTEMPTS
    }

    /// Ends a pick. Without anything new the first batch is handed out, so the
    /// caller can repeat songs once the library is exhausted.
    pub fn finish(self) -> (r: Vec<Child>)
        ensures
            r@ == pick_result(self@),
    {
        if self.fresh.len() == 0 {
            let mut songs = self.fallback;
            if songs.len() > LOOKAHEAD {
                songs.truncate(LOOKAHEAD);
            }
            proof {
                assert(songs@ =~= first_songs(self.fallback@));
            }
            songs
        } else {
            self.fresh
        }
    }
}

fn songs_in(batch: &Vec<Candidate>) -> (r: Vec<Child>)
    ensures
        r@ == songs_of(batch@),
{
    let mut out: Vec<Child> = Vec::new();
    for i in 0..batch.len()
        invariant
            out@ == songs_of(batch@).take(i as int),
    {
        out.push(batch[i].song.clone());
        proof {
            assert(songs_of(batch@).take(i as int + 1) =~= songs_of(batch@).take(i as int).push(
                batch@[i as int].song,
            ));
        }
    }
    proof {
        assert(songs_of(batch@).take(batch@.len() as int) =~= songs_of(batch@));
    }
    out
}

/// The songs that the playback filters let in, in order.
pub open spec fn passing(batch: Seq<Candidate>) -> Seq<Child>
    decreases batch.len(),
{
    if batch.len() == 0 {
        Seq::empty()
    } else if batch.last().passes {
        passing(batch.drop_last()).push(batch.last().song)
    } else {
        passing(batch.drop_last())
    }
}

/// Keeps the songs that the playback filters let in, in order.
#[must_use]
pub fn filter_for_playback(batch: &Vec<Candidate>) -> (r: Vec<Child>)
    ensures
        r@ == passing(batch@),
{
    let mut out: Vec<Child> = Vec::new();
    for i in 0..batch.len()
        invariant
            out@ == passing(batch@.take(i as int)),
    {
        proof {
            assert(batch@.take(i as int + 1).drop_last() =~= batch@.take(i as int));
        }
        if batch[i].passes {
            out.push(batch[i].song.clone());
        }
    }
    proof {
        assert(batch@.take(batch@.len() as int) =~= batch@);
    }
    out
}

/// Judges a pick: the songs, or what the clients are told.
///
/// # Errors
/// A notice where the server failed or offered nothing.
pub fn auto_continue_songs(picked: Result<Vec<Child>, String>) -> (r: Result<Vec<Child>, Notice>)
    ensures
        match picked {
            Ok(songs) => if songs@.len() > 0 {
                r == Ok::<Vec<Child>, Notice>(songs)
            } else {
                r matches Err(n) && n.is_error && n.message@
                    == "Auto-continue: server returned no songs"@
            },
            Err(e) => r matches Err(n) && n.is_error && n.message@ == "Auto-continue failed: "@
                + e@,
        },
{
    match picked {
        Ok(songs) => {
            if songs.len() > 0 {
                Ok(songs)
            } else {
                Err(
                    Notice {
                        message: "Auto-continue: server returned no songs".to_owned(),
                        is_error: true,
                    },
                )
            }
        },
        Err(e) => Err(
            Notice { message: joined("Auto-continue failed: ", e.as_str()), is_error: true },
        ),
    }
}

/// What continuing with more songs came to.
pub enum Continued {
    /// There was nothing to continue with.
    NoSongs,
    /// The songs are queued, but the first of them cannot be played.
    Refused(Option<Notice>),
    /// The first of the songs is current and goes to mpv like this.
    Playing(Dispatch),
}

impl DaemonCore {
    /// The core with `queue` in place of its queue.
    pub open spec fn with_queue(self, queue: Vec<Child>) -> DaemonCore {
        DaemonCore { state: DaemonState { queue, ..self.state }, ..self }
    }

    /// Puts songs behind the queue and plays the first of them, in one go, so
    /// nothing can move the queue in between. `stream_url` is what the server's
    /// client answered for the first song, `cached` its cached copy, where
    /// there is one.
    pub fn extend_with_random_and_play(
        &mut self,
        songs: Vec<Child>,
        stream_url: Result<String, String>,
        cached: Option<String>,
    ) -> (r: Continued)
        ensures
            songs@.len() == 0 ==> r is NoSongs && *final(self) == *old(self),
            songs@.len() > 0 ==> {
                let start = old(self).state.queue@.len() as usize;
                let grown = old(self).with_queue(final(self).state.queue);
                &&& final(self).state.queue@ == old(self).state.queue@ + songs@
                &&& match stream_url {
                    Err(e) => {
                        &&& r matches Continued::Refused(Some(n)) && n.is_error && n.message@
                            == "Failed to get stream URL: "@ + e@
                        &&& *final(self) == grown
                    },
                    Ok(url) => {
                        let committed = grown.committed(songs@[0], start, true);
                        let from = source_url(
                            old(self).state.config.offline_cache_enabled,
                            url@,
                            cached,
                        );
                        let mode = old(self).start_mode();
                        &&& r matches Continued::Playing(d) && committed.dispatches(
                            from,
                            start,
                            mode,
                            (Binary64 { bits: 0 }),
                            d,
                        )
                        &&& *final(self) == committed.dispatched(from, mode)
                    },
                }
            },
    {
        let start = match self.extend_queue(songs) {
            Some(start) => start,
            None => {
                return Continued::NoSongs;
            },
        };
        let mode = self.preferred_start_mode();
        match self.play_queue_position_at_locked(
            start,
            mode,
            Binary64::zero(),
            PlayIntent::Start,
            stream_url,
            cached,
        ) {
            Ok(dispatch) => Continued::Playing(dispatch),
            Err(notice) => Continued::Refused(notice),
        }
    }

    /// Puts songs behind the queue and says where the first of them stands.
    /// Nothing happens without songs.
    pub fn extend_queue(&mut self, songs: Vec<Child>) -> (r: Option<usize>)
        ensures
            r == (if songs@.len() > 0 {
                Some(old(self).state.queue@.len() as usize)
            } else {
                None
            }),
            final(self).state.queue@ == old(self).state.queue@ + songs@,
            *final(self) == old(self).with_queue(final(self).state.queue),
            songs@.len() == 0 ==> *final(self) == *old(self),
            r matches Some(start) ==> {
                &&& start == old(self).state.queue@.len()
                &&& final(self).state.queue@[start as int] == songs@[0]
            },
    {
        if songs.len() == 0 {
            proof {
                assert(self.state.queue@ + songs@ =~= self.state.queue@);
            }
            return None;
        }
        let start: usize = self.state.queue.len();
        let mut more = songs;
        self.state.queue.append(&mut more);
        Some(start)
    }
}

// ---------------------------------------------------------------------------
// Laws.
// ---------------------------------------------------------------------------

/// `song` stands in `batch`, let in by the filters.
pub open spec fn let_in(batch: Seq<Candidate>, song: Child) -> bool {
    exists|k: int| 0 <= k < batch.len() && batch[k].passes && #[trigger] batch[k].song == song
}

/// What is picked is new, let in by the filters, offered by the server, held
/// only once, and no more than asked for.
pub proof fn law_picked_songs_are_new(batch: Seq<Candidate>, seen: Set<Seq<char>>, room: nat)
    ensures
        picked(batch, seen, room).len() <= room,
        forall|i: int|
            0 <= i < picked(batch, seen, room).len() ==> !seen.contains(
                (#[trigger] picked(batch, seen, room)[i]).id@,
            ) && let_in(batch, picked(batch, seen, room)[i]),
        forall|i: int, j: int|
            0 <= i < j < picked(batch, seen, room).len() ==> (#[trigger] picked(
                batch,
                seen,
                room,
            )[i]).id@ != (#[trigger] picked(batch, seen, room)[j]).id@,
    decreases batch.len(),
{
    if batch.len() > 0 && room > 0 {
        let c = batch[0];
        let id = c.song.id@;
        let tail = batch.skip(1);
        assert forall|s: Child| let_in(tail, s) implies let_in(batch, s) by {
            let k = choose|k: int| 0 <= k < tail.len() && tail[k].passes && #[trigger] tail[k].song
                == s;
            assert(batch[k + 1] == tail[k]);
            assert(batch[k + 1].song == s);
        }
        let all = picked(batch, seen, room);
        if seen.contains(id) {
            law_picked_songs_are_new(tail, seen, room);
            assert(all == picked(tail, seen, room));
        } else if c.passes {
            let rest = picked(tail, seen.insert(id), (room - 1) as nat);
            law_picked_songs_are_new(tail, seen.insert(id), (room - 1) as nat);
            assert(all == seq![c.song] + rest);
            assert(batch[0].song == c.song);
            assert(let_in(batch, c.song));
            assert forall|i: int| 0 <= i < all.len() implies !seen.contains(
                (#[trigger] all[i]).id@,
            ) && let_in(batch, all[i]) by {
                if i > 0 {
                    assert(all[i] == rest[i - 1]);
                }
            }
            assert forall|i: int, j: int| 0 <= i < j < all.len() implies (#[trigger] all[i]).id@
                != (#[trigger] all[j]).id@ by {
                assert(all[j] == rest[j - 1]);
                if i > 0 {
                    assert(all[i] == rest[i - 1]);
                }
            }
        } else {
            law_picked_songs_are_new(tail, seen.insert(id), room);
            let rest = picked(tail, seen.insert(id), room);
            assert(all == rest);
            assert forall|i: int| 0 <= i < all.len() implies !seen.contains(
                (#[trigger] all[i]).id@,
            ) && let_in(batch, all[i]) by {
                assert(rest[i] == all[i]);
            }
        }
    }
}

/// A pick after the server gave `batches` one by one, as long as more were
/// wanted.
pub open spec fn picked_from(pick: PickView, batches: Seq<Seq<Candidate>>) -> PickView
    decreases batches.len(),
{
    if batches.len() == 0 {
        pick
    } else if wants_more(pick, batches[0]) {
        picked_from(offered(pick, batches[0]), batches.skip(1))
    } else {
        offered(pick, batches[0])
    }
}

proof fn lemma_seen_grows(batch: Seq<Candidate>, seen: Set<Seq<char>>, room: nat)
    ensures
        seen.subset_of(seen_after(batch, seen, room)),
    decreases batch.len(),
{
    if batch.len() > 0 && room > 0 {
        let c = batch[0];
        let id = c.song.id@;
        if seen.contains(id) {
            lemma_seen_grows(batch.skip(1), seen, room);
        } else if c.passes {
            lemma_seen_grows(batch.skip(1), seen.insert(id), (room - 1) as nat);
        } else {
            lemma_seen_grows(batch.skip(1), seen.insert(id), room);
        }
    }
}

/// However many batches it takes, auto-continue picks nothing that was queued
/// before, and asks the server no more often than it may.
pub proof fn law_pick_never_repeats_the_queue(
    queued: Set<Seq<char>>,
    pick: PickView,
    batches: Seq<Seq<Candidate>>,
)
    requires
        queued.subset_of(pick.seen),
        pick.fresh.len() == 0,
        pick.attempts < ATTEMPTS,
    ensures
        picked_from(pick, batches).attempts <= ATTEMPTS,
        forall|i: int|
            0 <= i < picked_from(pick, batches).fresh.len() ==> !queued.contains(
                (#[trigger] picked_from(pick, batches).fresh[i]).id@,
            ),
    decreases batches.len(),
{
    if batches.len() > 0 {
        let batch = batches[0];
        law_picked_songs_are_new(batch, pick.seen, LOOKAHEAD as nat);
        lemma_seen_grows(batch, pick.seen, LOOKAHEAD as nat);
        if wants_more(pick, batch) {
            law_pick_never_repeats_the_queue(queued, offered(pick, batch), batches.skip(1));
        }
    }
}

/// Songs that the filters all let in are not shrunk by filtering them once more.
pub proof fn law_filtering_again_takes_nothing(songs: Seq<Candidate>)
    requires
        forall|i: int| 0 <= i < songs.len() ==> (#[trigger] songs[i]).passes,
    ensures
        passing(songs) == songs_of(songs),
    decreases songs.len(),
{
    if songs.len() > 0 {
        assert forall|i: int| 0 <= i < songs.len() - 1 implies (
        #[trigger] songs.drop_last()[i]).passes by {
            assert(songs.drop_last()[i] == songs[i]);
        }
        assert(songs.last() == songs[songs.len() - 1]);
        law_filtering_again_takes_nothing(songs.drop_last());
        assert(songs_of(songs) =~= songs_of(songs.drop_last()).push(songs.last().song));
    } else {
        assert(songs_of(songs) =~= Seq::empty());
    }
}

/// Before place `k` of batch number `i` the filters kept a song with this id out.
pub open spec fn kept_out_before(
    batches: Seq<Seq<Candidate>>,
    i: int,
    k: int,
    id: Seq<char>,
) -> bool {
    exists|j: int, l: int|
        0 <= j <= i && j < batches.len() && 0 <= l < batches[j].len() && (j < i || l < k)
            && !batches[j][l].passes && #[trigger] batches[j][l].song.id@ == id
}

proof fn lemma_nothing_new_in_batch(
    queued: Set<Seq<char>>,
    batches: Seq<Seq<Candidate>>,
    i: int,
    k: int,
    seen: Set<Seq<char>>,
    room: nat,
)
    requires
        0 <= i < batches.len(),
        0 <= k <= batches[i].len(),
        room > 0,
        forall|id: Seq<char>| #[trigger]
            seen.contains(id) ==> queued.contains(id) || kept_out_before(batches, i, k, id),
        picked(batches[i].skip(k), seen, room).len() == 0,
    ensures
        forall|m: int|
            k <= m < batches[i].len() && (#[trigger] batches[i][m]).passes ==> queued.contains(
                batches[i][m].song.id@,
            ) || kept_out_before(batches, i, m, batches[i][m].song.id@),
        forall|id: Seq<char>| #[trigger]
            seen_after(batches[i].skip(k), seen, room).contains(id) ==> queued.contains(id)
                || kept_out_before(batches, i + 1, 0, id),
    decreases batches[i].len() - k,
{
    let rest = batches[i].skip(k);
    if rest.len() == 0 {
        assert(seen_after(rest, seen, room) == seen);
        assert forall|id: Seq<char>| #[trigger] seen.contains(id) implies queued.contains(id)
            || kept_out_before(batches, i + 1, 0, id) by {
            if kept_out_before(batches, i, k, id) {
                lemma_kept_out_stays(batches, i, k, i + 1, 0, id);
            }
        }
    } else {
        let c = batches[i][k];
        let id = c.song.id@;
        assert(rest[0] == c);
        assert(rest.skip(1) =~= batches[i].skip(k + 1));
        let more = if seen.contains(id) {
            seen
        } else {
            seen.insert(id)
        };
        if !seen.contains(id) && c.passes {
            let tail = picked(rest.skip(1), seen.insert(id), (room - 1) as nat);
            assert((seq![c.song] + tail).len() > 0);
        }
        assert forall|x: Seq<char>| #[trigger] more.contains(x) implies queued.contains(x)
            || kept_out_before(batches, i, k + 1, x) by {
            if seen.contains(x) {
                if kept_out_before(batches, i, k, x) {
                    lemma_kept_out_stays(batches, i, k, i, k + 1, x);
                }
            } else {
                assert(batches[i][k].song.id@ == x);
            }
        }
        lemma_nothing_new_in_batch(queued, batches, i, k + 1, more, room);
        assert(seen_after(rest, seen, room) == seen_after(batches[i].skip(k + 1), more, room));
    }
}

proof fn lemma_kept_out_stays(
    batches: Seq<Seq<Candidate>>,
    i: int,
    k: int,
    i2: int,
    k2: int,
    id: Seq<char>,
)
    requires
        kept_out_before(batches, i, k, id),
        i < i2 || (i == i2 && k <= k2),
    ensures
        kept_out_before(batches, i2, k2, id),
{
    let (j, l) = choose|j: int, l: int|
        0 <= j <= i && j < batches.len() && 0 <= l < batches[j].len() && (j < i || l < k)
            && !batches[j][l].passes && #[trigger] batches[j][l].song.id@ == id;
    assert(batches[j][l].song.id@ == id);
}

proof fn lemma_nothing_new_from(
    queued: Set<Seq<char>>,
    pick: PickView,
    batches: Seq<Seq<Candidate>>,
    n: int,
)
    requires
        0 <= n <= batches.len(),
        pick.fresh.len() == 0,
        pick.attempts < ATTEMPTS,
        forall|id: Seq<char>| #[trigger]
            pick.seen.contains(id) ==> queued.contains(id) || kept_out_before(batches, n, 0, id),
        picked_from(pick, batches.skip(n)).fresh.len() == 0,
    ensures
        forall|i: int, k: int|
            n <= i < batches.len() && i - n < picked_from(pick, batches.skip(n)).attempts
                - pick.attempts && 0 <= k < batches[i].len() && (
            #[trigger] batches[i][k]).passes ==> queued.contains(batches[i][k].song.id@)
                || kept_out_before(batches, i, k, batches[i][k].song.id@),
    decreases batches.len() - n,
{
    let rest = batches.skip(n);
    if rest.len() > 0 {
        let batch = batches[n];
        assert(rest[0] == batch);
        assert(rest.skip(1) =~= batches.skip(n + 1));
        assert(batch.skip(0) =~= batch);
        if batch.len() > 0 {
            if wants_more(pick, batch) {
                lemma_nothing_new_in_batch(queued, batches, n, 0, pick.seen, LOOKAHEAD as nat);
                lemma_nothing_new_from(queued, offered(pick, batch), batches, n + 1);
            } else {
                assert(picked_from(pick, rest) == offered(pick, batch));
                lemma_nothing_new_in_batch(queued, batches, n, 0, pick.seen, LOOKAHEAD as nat);
            }
        }
    }
}

/// Songs are repeated only when the server had nothing new: a pick without a
/// new song hands out the first batch, and then every song that any fetched
/// batch held and the filters let in was queued already, or has the id of a
/// song that the filters kept out before it.
pub proof fn law_songs_repeat_only_when_nothing_is_new(
    pick: PickView,
    batches: Seq<Seq<Candidate>>,
)
    requires
        pick.fresh.len() == 0,
        pick.fallback.len() == 0,
        pick.attempts == 0,
    ensures
        picked_from(pick, batches).fresh.len() > 0 ==> pick_result(picked_from(pick, batches))
            == picked_from(pick, batches).fresh,
        picked_from(pick, batches).fresh.len() == 0 ==> {
            &&& pick_result(picked_from(pick, batches)) == (if batches.len() > 0 {
                first_songs(songs_of(batches[0]))
            } else {
                Seq::empty()
            })
            &&& forall|i: int, k: int|
                0 <= i < batches.len() && i < picked_from(pick, batches).attempts && 0 <= k
                    < batches[i].len() && (#[trigger] batches[i][k]).passes
                    ==> pick.seen.contains(batches[i][k].song.id@) || kept_out_before(
                    batches,
                    i,
                    k,
                    batches[i][k].song.id@,
                )
        },
{
    assert(batches.skip(0) =~= batches);
    if picked_from(pick, batches).fresh.len() == 0 {
        lemma_nothing_new_from(pick.seen, pick, batches, 0);
        if batches.len() > 0 {
            if batches[0].len() == 0 {
                assert(songs_of(batches[0]) =~= Seq::empty());
                assert(pick.fallback =~= Seq::empty());
            } else if wants_more(pick, batches[0]) {
                lemma_fallback_stays(offered(pick, batches[0]), batches.skip(1));
            }
        } else {
            assert(pick.fallback =~= Seq::empty());
        }
    }
}

proof fn lemma_fallback_stays(pick: PickView, batches: Seq<Seq<Candidate>>)
    requires
        pick.fallback.len() > 0,
    ensures
        picked_from(pick, batches).fallback == pick.fallback,
    decreases batches.len(),
{
    if batches.len() > 0 && wants_more(pick, batches[0]) {
        lemma_fallback_stays(offered(pick, batches[0]), batches.skip(1));
    }
}

/// The songs of `part` stand in `whole` at the places `at`, one behind the other.
pub open spec fn stands_at(part: Seq<Child>, whole: Seq<Child>, at: Seq<int>) -> bool {
    &&& at.len() == part.len()
    &&& forall|i: int|
        0 <= i < at.len() ==> 0 <= #[trigger] at[i] < whole.len() && whole[at[i]] == part[i]
    &&& forall|i: int, j: int| 0 <= i < j < at.len() ==> #[trigger] at[i] < #[trigger] at[j]
}

/// Picked songs keep the order in which the server offered them.
pub proof fn law_picked_songs_keep_their_order(
    batch: Seq<Candidate>,
    seen: Set<Seq<char>>,
    room: nat,
)
    ensures
        exists|at: Seq<int>| stands_at(picked(batch, seen, room), songs_of(batch), at),
    decreases batch.len(),
{
    let all = picked(batch, seen, room);
    if batch.len() == 0 || room == 0 {
        assert(stands_at(all, songs_of(batch), Seq::empty()));
    } else {
        let c = batch[0];
        let tail = batch.skip(1);
        let id = c.song.id@;
        let first = !seen.contains(id) && c.passes;
        let more = if seen.contains(id) {
            seen
        } else {
            seen.insert(id)
        };
        let left = if first {
            (room - 1) as nat
        } else {
            room
        };
        law_picked_songs_keep_their_order(tail, more, left);
        let rest = picked(tail, more, left);
        let at = choose|at: Seq<int>| stands_at(rest, songs_of(tail), at);
        let shifted = at.map_values(|p: int| p + 1);
        let here = if first {
            seq![0int] + shifted
        } else {
            shifted
        };
        let skipped: int = if first {
            1
        } else {
            0
        };
        assert(all == if first {
            seq![c.song] + rest
        } else {
            rest
        });
        assert forall|i: int| 0 <= i < here.len() implies 0 <= #[trigger] here[i] < songs_of(
            batch,
        ).len() && songs_of(batch)[here[i]] == all[i] by {
            if i >= skipped {
                let p = at[i - skipped];
                assert(here[i] == p + 1);
                assert(songs_of(tail)[p] == rest[i - skipped]);
                assert(tail[p] == batch[p + 1]);
            }
        }
        assert forall|i: int, j: int| 0 <= i < j < here.len() implies #[trigger] here[i]
            < #[trigger] here[j] by {
            assert(here[j] == at[j - skipped] + 1);
            if i >= skipped {
                assert(here[i] == at[i - skipped] + 1);
            }
        }
        assert(stands_at(all, songs_of(batch), here));
    }
}

/// A pick never ends with more songs than it may.
pub proof fn law_pick_is_bounded(before: PickView, batch: Seq<Candidate>)
    requires
        before.fresh.len() <= LOOKAHEAD,
    ensures
        pick_result(offered(before, batch)).len() <= LOOKAHEAD,
        offered(before, batch).fresh.len() <= LOOKAHEAD,
{
    law_picked_songs_are_new(batch, before.seen, LOOKAHEAD as nat);
}

/// The song at place `k` of a batch may be picked: the filters let it in, and
/// its id is neither among `seen` nor that of an earlier song of the batch.
pub open spec fn eligible(batch: Seq<Candidate>, seen: Set<Seq<char>>, k: int) -> bool {
    &&& 0 <= k < batch.len()
    &&& batch[k].passes
    &&& !seen.contains(batch[k].song.id@)
    &&& forall|j: int| 0 <= j < k ==> (#[trigger] batch[j]).song.id@ != batch[k].song.id@
}

/// `songs` stand at the places `at` of the batch, which may all be picked, in
/// the server's order; and no place that may be picked is left out, but for
/// those behind the last one once there are `room` songs.
pub open spec fn first_eligible(
    songs: Seq<Child>,
    batch: Seq<Candidate>,
    seen: Set<Seq<char>>,
    room: nat,
    at: Seq<int>,
) -> bool {
    &&& at.len() == songs.len() <= room
    &&& forall|i: int|
        0 <= i < at.len() ==> eligible(batch, seen, #[trigger] at[i]) && songs[i]
            == batch[at[i]].song
    &&& forall|i: int, j: int| 0 <= i < j < at.len() ==> #[trigger] at[i] < #[trigger] at[j]
    &&& forall|k: int| #[trigger]
        eligible(batch, seen, k) ==> at.contains(k) || (at.len() == room && forall|i: int|
            0 <= i < at.len() ==> #[trigger] at[i] < k)
}

proof fn lemma_eligible_moves(batch: Seq<Candidate>, seen: Set<Seq<char>>, k: int)
    requires
        batch.len() > 0,
        1 <= k,
    ensures
        eligible(batch, seen, k) <==> eligible(
            batch.skip(1),
            seen.insert(batch[0].song.id@),
            k - 1,
        ),
{
    let tail = batch.skip(1);
    let more = seen.insert(batch[0].song.id@);
    if eligible(batch, seen, k) {
        assert(batch[0].song.id@ != batch[k].song.id@);
        assert forall|j: int| 0 <= j < k - 1 implies (#[trigger] tail[j]).song.id@ != tail[k
            - 1].song.id@ by {
            assert(batch[j + 1].song.id@ != batch[k].song.id@);
        }
    }
    if eligible(tail, more, k - 1) {
        assert forall|j: int| 0 <= j < k implies (#[trigger] batch[j]).song.id@
            != batch[k].song.id@ by {
            if j > 0 {
                assert(tail[j - 1].song.id@ != tail[k - 1].song.id@);
            } else {
                assert(more.contains(batch[0].song.id@));
            }
        }
    }
}

/// What is picked from a batch is all that may be picked, in the server's
/// order, up to the room there is: a song that is queued already is passed
/// over, and the songs behind it are not lost.
pub proof fn law_picked_songs_are_all_there_are(
    batch: Seq<Candidate>,
    seen: Set<Seq<char>>,
    room: nat,
)
    ensures
        exists|at: Seq<int>| first_eligible(picked(batch, seen, room), batch, seen, room, at),
    decreases batch.len(),
{
    let all = picked(batch, seen, room);
    if batch.len() == 0 || room == 0 {
        let none = Seq::<int>::empty();
        assert(first_eligible(all, batch, seen, room, none));
    } else {
        let c = batch[0];
        let tail = batch.skip(1);
        let id = c.song.id@;
        let first = !seen.contains(id) && c.passes;
        let more = seen.insert(id);
        if seen.contains(id) {
            assert(more =~= seen);
        }
        let left = if first {
            (room - 1) as nat
        } else {
            room
        };
        law_picked_songs_are_all_there_are(tail, more, left);
        let rest = picked(tail, more, left);
        let at = choose|at: Seq<int>| first_eligible(rest, tail, more, left, at);
        let shifted = at.map_values(|p: int| p + 1);
        let here = if first {
            seq![0int] + shifted
        } else {
            shifted
        };
        let skipped: int = if first {
            1
        } else {
            0
        };
        assert(all == if first {
            seq![c.song] + rest
        } else {
            rest
        });
        assert forall|i: int| 0 <= i < here.len() implies eligible(batch, seen, #[trigger] here[i])
            && all[i] == batch[here[i]].song by {
            if i >= skipped {
                let p = at[i - skipped];
                assert(here[i] == p + 1);
                assert(eligible(tail, more, p));
                lemma_eligible_moves(batch, seen, p + 1);
            }
        }
        assert forall|i: int, j: int| 0 <= i < j < here.len() implies #[trigger] here[i]
            < #[trigger] here[j] by {
            assert(here[j] == at[j - skipped] + 1);
            assert(eligible(tail, more, at[j - skipped]));
            if i >= skipped {
                assert(here[i] == at[i - skipped] + 1);
            }
        }
        assert forall|k: int| #[trigger] eligible(batch, seen, k) implies here.contains(k) || (
        here.len() == room && forall|i: int| 0 <= i < here.len() ==> #[trigger] here[i] < k) by {
            if k == 0 {
                assert(here[0] == 0);
            } else {
                lemma_eligible_moves(batch, seen, k);
                assert(eligible(tail, more, k - 1));
                if at.contains(k - 1) {
                    let i = choose|i: int| 0 <= i < at.len() && at[i] == k - 1;
                    assert(here[i + skipped] == k);
                } else {
                    assert forall|i: int| 0 <= i < here.len() implies #[trigger] here[i] < k by {
                        if i >= skipped {
                            assert(here[i] == at[i - skipped] + 1);
                        }
                    }
                }
            }
        }
        assert(first_eligible(all, batch, seen, room, here));
    }
}

proof fn lemma_seen_is_what_was_looked_at(
    batch: Seq<Candidate>,
    seen: Set<Seq<char>>,
    room: nat,
    id: Seq<char>,
)
    ensures
        seen_after(batch, seen, room).contains(id) ==> seen.contains(id) || exists|j: int|
            0 <= j < batch.len() && (#[trigger] batch[j]).song.id@ == id,
        picked(batch, seen, room).len() < room && (exists|j: int|
            0 <= j < batch.len() && (#[trigger] batch[j]).song.id@ == id) ==> seen_after(
            batch,
            seen,
            room,
        ).contains(id),
    decreases batch.len(),
{
    if batch.len() > 0 && room > 0 {
        let c = batch[0];
        let tail = batch.skip(1);
        let more = if seen.contains(c.song.id@) {
            seen
        } else {
            seen.insert(c.song.id@)
        };
        let left = if !seen.contains(c.song.id@) && c.passes {
            (room - 1) as nat
        } else {
            room
        };
        lemma_seen_is_what_was_looked_at(tail, more, left, id);
        lemma_seen_grows(tail, more, left);
        if exists|j: int| 0 <= j < tail.len() && (#[trigger] tail[j]).song.id@ == id {
            let j = choose|j: int| 0 <= j < tail.len() && (#[trigger] tail[j]).song.id@ == id;
            assert(batch[j + 1].song.id@ == id);
        }
        if exists|j: int| 0 <= j < batch.len() && (#[trigger] batch[j]).song.id@ == id {
            let j = choose|j: int| 0 <= j < batch.len() && (#[trigger] batch[j]).song.id@ == id;
            if j > 0 {
                assert(tail[j - 1].song.id@ == id);
            }
        }
        if id == c.song.id@ {
            assert(batch[0].song.id@ == id);
        }
    }
}

/// Offering a batch picks from it what is new to the pick and let in, all of it
/// up to the limit, in the server's order. Every song that was looked at counts
/// as seen from then on and nothing else does. The first batch that holds
/// anything is kept to fall back on. Another batch is wanted only after a batch
/// that held something but nothing new, and at most twice.
pub proof fn law_offer(pick: &mut RandomPick, batch: Vec<Candidate>, r: bool)
    requires
        call_ensures(RandomPick::offer, (pick, &batch), r),
        old(pick)@.attempts < ATTEMPTS,
        old(pick)@.fresh.len() == 0,
    ensures
        exists|at: Seq<int>|
            first_eligible(final(pick)@.fresh, batch@, old(pick)@.seen, 20, at),
        final(pick)@.fresh.len() < 20 ==> forall|k: int| #[trigger]
            eligible(batch@, old(pick)@.seen, k) ==> final(pick)@.fresh.contains(batch@[k].song),
        forall|id: Seq<char>| #[trigger]
            old(pick)@.seen.contains(id) ==> final(pick)@.seen.contains(id),
        forall|id: Seq<char>| #[trigger]
            final(pick)@.seen.contains(id) ==> old(pick)@.seen.contains(id) || exists|j: int|
                0 <= j < batch@.len() && (#[trigger] batch@[j]).song.id@ == id,
        final(pick)@.fresh.len() < 20 ==> forall|j: int|
            0 <= j < batch@.len() ==> final(pick)@.seen.contains(
                (#[trigger] batch@[j]).song.id@,
            ),
        old(pick)@.fallback.len() > 0 ==> final(pick)@.fallback == old(pick)@.fallback,
        old(pick)@.fallback.len() == 0 ==> final(pick)@.fallback.len() == batch@.len() && forall|
            j: int,
        |
            0 <= j < batch@.len() ==> #[trigger] final(pick)@.fallback[j] == batch@[j].song,
        final(pick)@.attempts == old(pick)@.attempts + 1,
        r <==> batch@.len() > 0 && final(pick)@.fresh.len() == 0 && final(pick)@.attempts < 3,
{
    let seen = old(pick)@.seen;
    law_picked_songs_are_all_there_are(batch@, seen, 20);
    lemma_seen_grows(batch@, seen, 20);
    let found = picked(batch@, seen, 20);
    let at = choose|at: Seq<int>| first_eligible(found, batch@, seen, 20, at);
    if batch@.len() == 0 {
        assert(old(pick)@.fresh =~= found);
        assert forall|k: int| !eligible(batch@, seen, k) by {}
    }
    assert(first_eligible(final(pick)@.fresh, batch@, seen, 20, at));
    if final(pick)@.fresh.len() < 20 {
        assert forall|k: int| #[trigger] eligible(batch@, seen, k) implies final(pick)@.fresh.contains(
            batch@[k].song,
        ) by {
            let i = choose|i: int| 0 <= i < at.len() && at[i] == k;
            assert(final(pick)@.fresh[i] == batch@[k].song);
        }
    }
    assert forall|id: Seq<char>| #[trigger] final(pick)@.seen.contains(id) implies seen.contains(id)
        || exists|j: int| 0 <= j < batch@.len() && (#[trigger] batch@[j]).song.id@ == id by {
        lemma_seen_is_what_was_looked_at(batch@, seen, 20, id);
    }
    if final(pick)@.fresh.len() < 20 {
        assert forall|j: int| 0 <= j < batch@.len() implies final(pick)@.seen.contains(
            (#[trigger] batch@[j]).song.id@,
        ) by {
            lemma_seen_is_what_was_looked_at(batch@, seen, 20, batch@[j].song.id@);
        }
    }
}

/// A pick begins with the ids of the queue seen and nothing picked.
pub proof fn law_pick_begins_with_the_queue(queue: Vec<Child>, r: RandomPick)
    requires
        call_ensures(RandomPick::begin, (&queue,), r),
    ensures
        forall|id: Seq<char>| #[trigger]
            r@.seen.contains(id) <==> exists|i: int|
                0 <= i < queue@.len() && (#[trigger] queue@[i]).id@ == id,
        r@.fresh.len() == 0,
        r@.fallback.len() == 0,
        r@.attempts == 0,
{
    let ids = id_texts(queue@);
    assert forall|id: Seq<char>| #[trigger] r@.seen.contains(id) <==> exists|i: int|
        0 <= i < queue@.len() && (#[trigger] queue@[i]).id@ == id by {
        if ids.contains(id) {
            let i = choose|i: int| 0 <= i < ids.len() && ids[i] == id;
            assert(queue@[i].id@ == id);
        }
        if exists|i: int| 0 <= i < queue@.len() && (#[trigger] queue@[i]).id@ == id {
            let i = choose|i: int| 0 <= i < queue@.len() && (#[trigger] queue@[i]).id@ == id;
            assert(ids[i] == id);
        }
    }
}

/// A pick ends with its new songs, all of them; without any it ends with the
/// front of the batch that it falls back on.
pub proof fn law_pick_ends(pick: RandomPick, r: Vec<Child>)
    requires
        call_ensures(RandomPick::finish, (pick,), r),
    ensures
        pick@.fresh.len() > 0 ==> r@ == pick@.fresh,
        pick@.fresh.len() == 0 ==> {
            &&& r@.len() == if pick@.fallback.len() < 20 {
                pick@.fallback.len()
            } else {
                20
            }
            &&& forall|i: int| 0 <= i < r@.len() ==> #[trigger] r@[i] == pick@.fallback[i]
        },
{
}

/// Filtering keeps what the filters let in, all of it, in order, and nothing
/// else.
pub proof fn law_filtering_keeps_what_is_let_in(batch: Vec<Candidate>, r: Vec<Child>)
    requires
        call_ensures(filter_for_playback, (&batch,), r),
    ensures
        exists|at: Seq<int>| #[trigger] stands_at(r@, songs_of(batch@), at) && forall|k: int|
            0 <= k < batch@.len() ==> (#[trigger] batch@[k].passes <==> at.contains(k)),
{
    lemma_passing_places(batch@);
}

proof fn lemma_passing_places(batch: Seq<Candidate>)
    ensures
        exists|at: Seq<int>| #[trigger] stands_at(passing(batch), songs_of(batch), at) && forall|
            k: int,
        |
            0 <= k < batch.len() ==> (#[trigger] batch[k].passes <==> at.contains(k)),
    decreases batch.len(),
{
    if batch.len() == 0 {
        let none = Seq::<int>::empty();
        assert(stands_at(passing(batch), songs_of(batch), none));
    } else {
        let front = batch.drop_last();
        let last = batch.len() - 1;
        lemma_passing_places(front);
        let at = choose|at: Seq<int>| #[trigger] stands_at(passing(front), songs_of(front), at)
            && forall|k: int|
            0 <= k < front.len() ==> (#[trigger] front[k].passes <==> at.contains(k));
        let here = if batch.last().passes {
            at.push(last)
        } else {
            at
        };
        assert forall|i: int| 0 <= i < here.len() implies 0 <= #[trigger] here[i] < songs_of(
            batch,
        ).len() && songs_of(batch)[here[i]] == passing(batch)[i] by {
            if i < at.len() {
                assert(here[i] == at[i]);
                assert(songs_of(front)[at[i]] == songs_of(batch)[at[i]]);
            }
        }
        assert forall|k: int| 0 <= k < batch.len() implies (#[trigger] batch[k].passes
            <==> here.contains(k)) by {
            if k < last {
                assert(front[k].passes <==> at.contains(k));
                if at.contains(k) {
                    let i = choose|i: int| 0 <= i < at.len() && at[i] == k;
                    assert(here[i] == k);
                }
                if here.contains(k) {
                    let i = choose|i: int| 0 <= i < here.len() && here[i] == k;
                    assert(at[i] == k);
                }
            } else {
                if batch.last().passes {
                    assert(here[at.len() as int] == k);
                } else if here.contains(k) {
                    let i = choose|i: int| 0 <= i < here.len() && here[i] == k;
                    assert(at[i] < songs_of(front).len());
                }
            }
        }
        assert(stands_at(passing(batch), songs_of(batch), here));
    }
}

/// Auto-continue goes on exactly with the songs that were picked; where the
/// server failed or had none, the clients are told so as an error.
pub proof fn law_auto_continue_is_judged(
    picked: Result<Vec<Child>, String>,
    r: Result<Vec<Child>, Notice>,
)
    requires
        call_ensures(auto_continue_songs, (picked,), r),
    ensures
        r is Ok <==> picked is Ok && picked->Ok_0@.len() > 0,
        r matches Ok(songs) ==> picked == Ok::<Vec<Child>, String>(songs),
        r matches Err(notice) ==> notice.is_error,
        r matches Err(notice) ==> (picked matches Err(e) ==> notice.message@
            == "Auto-continue failed: "@ + e@),
        r matches Err(notice) ==> (picked is Ok ==> notice.message@
            == "Auto-continue: server returned no songs"@),
{
}

/// Continuing with songs puts all of them behind the queue, in their order, and
/// plays the first of them as a new playback instance from the front; what was
/// queued stays. Without songs nothing changes, and without a URL the songs are
/// queued and nothing plays that did not before.
pub proof fn law_continue_with_songs(
    core: &mut DaemonCore,
    songs: Vec<Child>,
    stream_url: Result<String, String>,
    cached: Option<String>,
    r: Continued,
)
    requires
        call_ensures(
            DaemonCore::extend_with_random_and_play,
            (core, songs, stream_url, cached),
            r,
        ),
    ensures
        final(core).state.queue@ == old(core).state.queue@ + songs@,
        r is NoSongs <==> songs@.len() == 0,
        r is Playing <==> songs@.len() > 0 && stream_url is Ok,
        r is NoSongs ==> *final(core) == *old(core),
        r is Refused ==> final(core).state.queue_position == old(core).state.queue_position
            && final(core).state.now_playing == old(core).state.now_playing && final(core).tasks
            == old(core).tasks,
        r is Playing ==> {
            &&& final(core).state.queue_position == Some(old(core).state.queue@.len() as usize)
            &&& final(core).state.now_playing.song == Some(songs@[0])
            &&& final(core).state.now_playing.state
                == crate::daemon::state::PlaybackState::Playing
            &&& final(core).state.now_playing.position.bits == 0
            &&& final(core).state.now_playing.volume == old(core).state.now_playing.volume
            &&& final(core).tasks.play_instance != old(core).tasks.play_instance
            &&& final(core).tasks.loadfile_gen != old(core).tasks.loadfile_gen
            &&& final(core).state.config == old(core).state.config
        },
        r matches Continued::Playing(d) ==> {
            let from = if old(core).state.config.offline_cache_enabled && cached is Some {
                cached->0@
            } else {
                stream_url->Ok_0@
            };
            match d {
                Dispatch::Direct(load) => load.url@ == from && load.start is None
                    && load.seek_after is None && load.pos == old(core).state.queue@.len() && (
                old(core).state.config.stream_on_start || (from.len() > 0 && from[0] == '/')),
                Dispatch::Buffered(load) => load.url@ == from && load.pos
                    == old(core).state.queue@.len() && !old(core).state.config.stream_on_start
                    && !(from.len() > 0 && from[0] == '/'),
            }
        },
{
    assert(old(core).state.queue.len() == old(core).state.queue@.len());
    assert(old(core).state.queue@ + Seq::<Child>::empty() =~= old(core).state.queue@);
    if songs@.len() == 0 {
        assert(songs@ =~= Seq::empty());
    }
    assert(!(Binary64 { bits: 0 }).above(0)) by {
        vstd::arithmetic::power2::lemma_pow2_pos(1074);
    }
}

} // verus!
