//! The cache directory as a mathematical object, and what the protocol
//! guarantees on it: processes that publish and look up take turns in any
//! order, each turn one request carried out by a file system that renames
//! atomically, never overwrites by a rename and never loses a file. A
//! process that dies is one that gets no further turn.

use vstd::prelude::*;
use crate::errors::CacheError;
use crate::lookup::{reader_next, reader_request_of, reads_entry, OpenResult, ReaderState};
use crate::marker::{Event, ProbeState, Request, WaitPolicy};
use crate::publish::{ended_well, writer_next, writer_request_of, WriterState};

verus! {

/// The files of the cache directory: name and content of each.
pub type Files = Map<Seq<char>, Seq<u8>>;

/// A process that publishes `bytes`: its publish, its staging file if it has
/// one, the failure `busy` that the file system gives it for a rename
/// onto an existing file, and whether a rename of its own has succeeded.
pub struct WriterModel<E> {
    pub entry: Seq<char>,
    pub marker: Seq<char>,
    pub policy: WaitPolicy,
    pub bytes: Seq<u8>,
    pub busy: E,
    pub state: WriterState<E>,
    pub staged: Option<Seq<u8>>,
    pub renamed: bool,
}

/// A process that looks an entry up, and what it has read if it has.
pub struct ReaderModel<E> {
    pub entry: Seq<char>,
    pub marker: Seq<char>,
    pub policy: WaitPolicy,
    pub state: ReaderState<E>,
    pub read: Option<Seq<u8>>,
}

/// What the file system answers to the request of the writer `w`.
pub open spec fn writer_answer<E>(files: Files, w: WriterModel<E>) -> Event<E> {
    match writer_request_of(w.policy, w.state) {
        Request::Publish => if files.contains_key(w.entry) {
            Event::Occupied(w.busy)
        } else {
            Event::Done
        },
        Request::CheckEntry => Event::Found(files.contains_key(w.entry)),
        Request::CheckMarker => Event::Found(files.contains_key(w.marker)),
        Request::Sleep(_) => Event::Slept,
        _ => Event::Done,
    }
}

/// The directory after the request of the writer `w` was carried out: a
/// rename puts the staged bytes under the entry's name unless that name is
/// taken, setting the marker creates an empty file, nothing else changes a
/// file that others can see.
pub open spec fn writer_files<E>(files: Files, w: WriterModel<E>) -> Files {
    match writer_request_of(w.policy, w.state) {
        Request::Publish => if files.contains_key(w.entry) || w.staged is None {
            files
        } else {
            files.insert(w.entry, w.staged->0)
        },
        Request::Mark => files.insert(w.marker, Seq::empty()),
        _ => files,
    }
}

/// The staging file of the writer `w` after its request was carried out.
pub open spec fn writer_staged<E>(files: Files, w: WriterModel<E>) -> Option<Seq<u8>> {
    match writer_request_of(w.policy, w.state) {
        Request::CreateStaging => Some(Seq::empty()),
        Request::WriteStaging => Some(w.bytes),
        Request::Publish => if files.contains_key(w.entry) {
            w.staged
        } else {
            None
        },
        Request::Discard => None,
        _ => w.staged,
    }
}

/// One turn of a writer: its request is carried out and it takes the answer.
pub open spec fn writer_turn<E>(files: Files, w: WriterModel<E>) -> (Files, WriterModel<E>) {
    (
        writer_files(files, w),
        WriterModel {
            state: writer_next(w.policy, w.state, writer_answer(files, w)),
            staged: writer_staged(files, w),
            renamed: w.renamed || (writer_request_of(w.policy, w.state) == Request::Publish
                && !files.contains_key(w.entry) && w.staged is Some),
            ..w
        },
    )
}

/// `n` turns of a writer that has the directory to itself.
pub open spec fn writer_turns<E>(files: Files, w: WriterModel<E>, n: nat) -> (Files, WriterModel<E>)
    decreases n,
{
    if n == 0 {
        (files, w)
    } else {
        let before = writer_turns(files, w, (n - 1) as nat);
        writer_turn(before.0, before.1)
    }
}

/// What the file system answers to the request of the reader `r`.
pub open spec fn reader_answer<E>(files: Files, r: ReaderModel<E>) -> Event<E> {
    match reader_request_of(r.policy, r.state) {
        Request::CheckEntry => Event::Found(files.contains_key(r.entry)),
        Request::CheckMarker => Event::Found(files.contains_key(r.marker)),
        Request::Sleep(_) => Event::Slept,
        Request::Open => if files.contains_key(r.entry) {
            Event::Done
        } else {
            Event::Missing
        },
        _ => Event::Done,
    }
}

/// One turn of a reader: its request is carried out and it takes the answer.
/// What it opens is what the entry's file holds at that moment.
pub open spec fn reader_turn<E>(files: Files, r: ReaderModel<E>) -> ReaderModel<E> {
    ReaderModel {
        state: reader_next(r.policy, r.state, reader_answer(files, r)),
        read: if reader_request_of(r.policy, r.state) == Request::Open && files.contains_key(
            r.entry,
        ) {
            Some(files[r.entry])
        } else {
            r.read
        },
        ..r
    }
}

/// `n` turns of a reader on a directory that does not change meanwhile.
pub open spec fn reader_turns<E>(files: Files, r: ReaderModel<E>, n: nat) -> ReaderModel<E>
    decreases n,
{
    if n == 0 {
        r
    } else {
        reader_turn(files, reader_turns(files, r, (n - 1) as nat))
    }
}

/// A writer that is about to begin.
pub open spec fn writer_at_start<E>(w: WriterModel<E>) -> bool {
    w.state is Creating && w.staged is None && !w.renamed && w.entry != w.marker
}

/// A reader that is about to begin.
pub open spec fn reader_at_start<E>(r: ReaderModel<E>) -> bool {
    r.state == ReaderState::<E>::Probing(ProbeState::Entry) && r.read is None && r.entry
        != r.marker
}

/// A lookup in a directory without the entry is a miss at its first turn,
/// with nothing read and no wait.
pub proof fn law_lookup_misses_without_entry<E>(files: Files, r: ReaderModel<E>)
    requires
        reader_at_start(r),
        !files.contains_key(r.entry),
    ensures
        reader_turn(files, r).state == ReaderState::<E>::Finished(OpenResult::NotAvailable),
        reader_turn(files, r).read is None,
{
}

/// A writer that has the directory to itself and finds no entry is done
/// after four turns, with success; then the entry holds its bytes, the
/// marker exists and is empty, no staging file is left and no other file
/// has changed.
pub proof fn law_publish_makes_valid_entry<E>(files: Files, w: WriterModel<E>)
    requires
        writer_at_start(w),
        !files.contains_key(w.entry),
    ensures
        writer_turns(files, w, 4).1.state == WriterState::<E>::Finished(Ok(())),
        writer_turns(files, w, 4).1.staged is None,
        writer_turns(files, w, 4).0 == files.insert(w.entry, w.bytes).insert(
            w.marker,
            Seq::empty(),
        ),
{
    reveal_with_fuel(writer_turns, 5);
    let s1 = writer_turn(files, w);
    let s2 = writer_turn(s1.0, s1.1);
    let s3 = writer_turn(s2.0, s2.1);
    let s4 = writer_turn(s3.0, s3.1);
    assert(s1.1.state is Writing);
    assert(s2.1.state is Publishing && s2.1.staged == Some(w.bytes) && s2.0 == files);
    assert(s3.1.state is Marking && s3.0 == files.insert(w.entry, w.bytes));
    assert(writer_turns(files, w, 4) == s4);
}

/// A lookup of an entry that is there with its marker, by a reader that
/// looks for the marker at least once, opens the file at its third turn and
/// reads exactly what the entry holds.
pub proof fn law_lookup_reads_valid_entry<E>(files: Files, r: ReaderModel<E>)
    requires
        reader_at_start(r),
        r.policy.attempts >= 1,
        files.contains_key(r.entry),
        files.contains_key(r.marker),
    ensures
        reader_turns(files, r, 3).state == ReaderState::<E>::Finished(OpenResult::Opened),
        reader_turns(files, r, 3).read == Some(files[r.entry]),
{
    reveal_with_fuel(reader_turns, 4);
    let r1 = reader_turn(files, r);
    let r2 = reader_turn(files, r1);
    let r3 = reader_turn(files, r2);
    assert(r1.state is Probing);
    assert(r2.state is Opening);
    assert(reader_turns(files, r, 3) == r3);
}

/// Publishing onto an entry that is there with its marker succeeds, by a
/// writer that looks for the marker at least once, and changes no file:
/// the stored bytes stay whatever the writer brought, and its staging file
/// is gone.
pub proof fn law_publish_again_changes_nothing<E>(files: Files, w: WriterModel<E>)
    requires
        writer_at_start(w),
        w.policy.attempts >= 1,
        files.contains_key(w.entry),
        files.contains_key(w.marker),
    ensures
        writer_turns(files, w, 6).1.state == WriterState::<E>::Finished(Ok(())),
        writer_turns(files, w, 6).1.staged is None,
        writer_turns(files, w, 6).0 == files,
{
    reveal_with_fuel(writer_turns, 7);
    let s1 = writer_turn(files, w);
    let s2 = writer_turn(s1.0, s1.1);
    let s3 = writer_turn(s2.0, s2.1);
    let s4 = writer_turn(s3.0, s3.1);
    let s5 = writer_turn(s4.0, s4.1);
    let s6 = writer_turn(s5.0, s5.1);
    assert(s1.1.state is Writing);
    assert(s2.1.state is Publishing);
    assert(s3.1.state is Discarding && s3.0 == files);
    assert(s4.1.state is Racing && s4.1.staged is None);
    assert(s5.1.state is Racing);
    assert(writer_turns(files, w, 6) == s6);
}

/// Turns add up: `a + b` turns are `a` turns and then `b` more.
pub proof fn lemma_reader_turns_add<E>(files: Files, r: ReaderModel<E>, a: nat, b: nat)
    ensures
        reader_turns(files, r, a + b) == reader_turns(files, reader_turns(files, r, a), b),
    decreases b,
{
    if b > 0 {
        lemma_reader_turns_add(files, r, a, (b - 1) as nat);
        assert((a + b - 1) as nat == a + (b - 1) as nat);
    }
}

/// A reader that waits for the marker of an entry that never gets one,
/// with `left` looks to follow the one it is at, gives up after as many
/// looks and sleeps, and has read nothing more.
pub proof fn lemma_wait_runs_out<E>(files: Files, r: ReaderModel<E>, left: u32)
    requires
        r.state == ReaderState::<E>::Probing(ProbeState::Marker { left }),
        !files.contains_key(r.marker),
    ensures
        reader_turns(files, r, 2 * (left as nat + 1)).state == ReaderState::<E>::Finished(
            OpenResult::Failed(CacheError::TimedOut),
        ),
        reader_turns(files, r, 2 * (left as nat + 1)).read == r.read,
    decreases left,
{
    reveal_with_fuel(reader_turns, 3);
    let r1 = reader_turn(files, r);
    let r2 = reader_turn(files, r1);
    assert(r1.state == ReaderState::<E>::Probing(ProbeState::Pause { left }));
    assert(reader_turns(files, r, 2) == r2);
    if left > 0 {
        let fewer = (left - 1) as u32;
        assert(r2.state == ReaderState::<E>::Probing(ProbeState::Marker { left: fewer }));
        lemma_wait_runs_out(files, r2, fewer);
        lemma_reader_turns_add(files, r, 2, 2 * (fewer as nat + 1));
        assert(2 + 2 * (fewer as nat + 1) == 2 * (left as nat + 1));
    } else {
        assert(reader_turns(files, r, 2 * (left as nat + 1)) == r2);
    }
}

/// A lookup of an entry that is there without its marker, and gets none,
/// ends after one look at the entry and `attempts` looks at the marker,
/// each followed by a sleep: it fails as timed out and has read nothing.
pub proof fn law_pending_entry_times_out<E>(files: Files, r: ReaderModel<E>)
    requires
        reader_at_start(r),
        files.contains_key(r.entry),
        !files.contains_key(r.marker),
    ensures
        reader_turns(files, r, 1 + 2 * r.policy.attempts as nat).state == ReaderState::<
            E,
        >::Finished(OpenResult::Failed(CacheError::TimedOut)),
        reader_turns(files, r, 1 + 2 * r.policy.attempts as nat).read is None,
{
    reveal_with_fuel(reader_turns, 2);
    let r1 = reader_turn(files, r);
    assert(reader_turns(files, r, 1) == r1);
    if r.policy.attempts > 0 {
        let left = (r.policy.attempts - 1) as u32;
        lemma_wait_runs_out(files, r1, left);
        lemma_reader_turns_add(files, r, 1, 2 * (left as nat + 1));
        assert(1 + 2 * (left as nat + 1) == 1 + 2 * r.policy.attempts as nat);
    }
}

/// Who takes a turn.
pub enum Actor {
    First,
    Second,
    Reader,
}

/// Two processes that publish under one key, one that looks the key up, and
/// the directory they share.
pub struct World<E> {
    pub files: Files,
    pub first: WriterModel<E>,
    pub second: WriterModel<E>,
    pub reader: ReaderModel<E>,
}

/// The world after `who` has taken a turn.
pub open spec fn world_turn<E>(w: World<E>, who: Actor) -> World<E> {
    match who {
        Actor::First => World {
            files: writer_turn(w.files, w.first).0,
            first: writer_turn(w.files, w.first).1,
            ..w
        },
        Actor::Second => World {
            files: writer_turn(w.files, w.second).0,
            second: writer_turn(w.files, w.second).1,
            ..w
        },
        Actor::Reader => World { reader: reader_turn(w.files, w.reader), ..w },
    }
}

/// The world after the turns of `schedule`, in that order.
pub open spec fn world_run<E>(w: World<E>, schedule: Seq<Actor>) -> World<E>
    decreases schedule.len(),
{
    if schedule.len() == 0 {
        w
    } else {
        world_turn(world_run(w, schedule.drop_last()), schedule.last())
    }
}

/// A world in which nothing has happened yet: the three processes are about
/// to begin on the same entry and marker, and neither file exists.
pub open spec fn world_at_start<E>(w: World<E>) -> bool {
    &&& writer_at_start(w.first)
    &&& writer_at_start(w.second)
    &&& reader_at_start(w.reader)
    &&& w.second.entry == w.first.entry
    &&& w.second.marker == w.first.marker
    &&& w.reader.entry == w.first.entry
    &&& w.reader.marker == w.first.marker
    &&& !w.files.contains_key(w.first.entry)
    &&& !w.files.contains_key(w.first.marker)
}

/// What holds of a writer between its turns: it is at the rename only with
/// all its bytes staged, it goes for the marker only after a rename of its
/// own and waits for it only after one that failed, in both cases while the
/// entry is there and its staging file is gone, and it ends either with a
/// valid entry in place or by giving up the wait on an entry that is there.
pub open spec fn writer_sound<E>(files: Files, w: WriterModel<E>) -> bool {
    match w.state {
        WriterState::Creating => !w.renamed,
        WriterState::Writing => !w.renamed,
        WriterState::Publishing => w.staged == Some(w.bytes) && !w.renamed,
        WriterState::Marking => w.staged is None && w.renamed && files.contains_key(w.entry),
        WriterState::Discarding { raced, .. } => raced && !w.renamed && files.contains_key(
            w.entry,
        ),
        WriterState::Racing { probe, .. } => !(probe is Done) && w.staged is None && !w.renamed
            && files.contains_key(w.entry),
        WriterState::Finished(Ok(_)) => w.staged is None && files.contains_key(w.entry)
            && files.contains_key(w.marker),
        WriterState::Finished(Err(e)) => e is TimedOut && w.staged is None && files.contains_key(
            w.entry,
        ),
    }
}

/// What holds of a reader between its turns: it opens the file only while
/// the marker is there, and what it has read is what the entry holds.
pub open spec fn reader_sound<E>(files: Files, r: ReaderModel<E>) -> bool {
    match r.state {
        ReaderState::Probing(probe) => !(probe is Done),
        ReaderState::Opening => files.contains_key(r.marker),
        ReaderState::Finished(OpenResult::Opened) => files.contains_key(r.marker)
            && files.contains_key(r.entry) && r.read == Some(files[r.entry]),
        ReaderState::Finished(_) => true,
    }
}

/// What holds of the world between any two turns.
pub open spec fn world_sound<E>(w: World<E>) -> bool {
    let entry = w.first.entry;
    let marker = w.first.marker;
    &&& entry != marker
    &&& w.second.entry == entry && w.second.marker == marker
    &&& w.reader.entry == entry && w.reader.marker == marker
    &&& writer_sound(w.files, w.first)
    &&& writer_sound(w.files, w.second)
    &&& reader_sound(w.files, w.reader)
    &&& w.files.contains_key(marker) ==> w.files.contains_key(entry)
    &&& w.files.contains_key(entry) ==> w.files[entry] == w.first.bytes || w.files[entry]
        == w.second.bytes
    &&& w.files.contains_key(entry) && !w.files.contains_key(marker) ==> w.first.state
        is Marking || w.second.state is Marking
    &&& w.files.contains_key(entry) <==> w.first.renamed || w.second.renamed
    &&& !(w.first.renamed && w.second.renamed)
    &&& w.first.renamed ==> w.files[entry] == w.first.bytes
    &&& w.second.renamed ==> w.files[entry] == w.second.bytes
}

/// Whether every file of `before` is still there in `after`, the entry
/// `entry` with the same content.
pub open spec fn files_kept(before: Files, after: Files, entry: Seq<char>) -> bool {
    &&& forall|name: Seq<char>| before.contains_key(name) ==> after.contains_key(name)
    &&& before.contains_key(entry) ==> after[entry] == before[entry]
}

/// A turn keeps the world sound, the bytes that the writers bring, and
/// every file that is there.
pub proof fn lemma_world_turn<E>(w: World<E>, who: Actor)
    requires
        world_sound(w),
    ensures
        world_sound(world_turn(w, who)),
        world_turn(w, who).first.bytes == w.first.bytes,
        world_turn(w, who).second.bytes == w.second.bytes,
        world_turn(w, who).first.entry == w.first.entry,
        world_turn(w, who).first.marker == w.first.marker,
        files_kept(w.files, world_turn(w, who).files, w.first.entry),
{
}

/// Whether a publish has ended by giving up the wait for a marker.
pub open spec fn gave_up<E>(state: WriterState<E>) -> bool {
    state matches WriterState::Finished(Err(CacheError::TimedOut))
}

/// However the turns of two writers of one key and of a reader fall, and
/// wherever any of them stops for good:
/// the marker is never there without the entry; the entry, once there,
/// holds all the bytes of one of the two writers and nothing else; a writer
/// that has ended has either succeeded, with entry and marker in place, or
/// has given up waiting for the other's marker, and has no staging file
/// left; when both have ended the entry is valid; at most one rename has
/// succeeded, the entry is there exactly when one has, and it holds the
/// bytes of the writer whose rename it was; and the reader opens the entry only while its marker is
/// there, so what it has read are all the bytes of one writer.
pub proof fn law_race_leaves_one_whole_entry<E>(w: World<E>, schedule: Seq<Actor>)
    requires
        world_at_start(w),
    ensures
        ({
            let end = world_run(w, schedule);
            let entry = w.first.entry;
            let marker = w.first.marker;
            &&& world_sound(end)
            &&& end.files.contains_key(marker) ==> end.files.contains_key(entry)
            &&& end.files.contains_key(entry) ==> end.files[entry] == w.first.bytes
                || end.files[entry] == w.second.bytes
            &&& end.first.state is Finished ==> ended_well(end.first.state) || gave_up(
                end.first.state,
            )
            &&& end.second.state is Finished ==> ended_well(end.second.state) || gave_up(
                end.second.state,
            )
            &&& ended_well(end.first.state) || ended_well(end.second.state)
                ==> end.files.contains_key(entry) && end.files.contains_key(marker)
            &&& end.first.state is Finished ==> end.first.staged is None
            &&& end.second.state is Finished ==> end.second.staged is None
            &&& end.first.state is Finished && end.second.state is Finished
                ==> end.files.contains_key(entry) && end.files.contains_key(marker)
            &&& !(end.first.renamed && end.second.renamed)
            &&& end.files.contains_key(entry) <==> end.first.renamed || end.second.renamed
            &&& end.first.renamed ==> end.files[entry] == w.first.bytes
            &&& end.second.renamed ==> end.files[entry] == w.second.bytes
            &&& reads_entry(end.reader.state) ==> end.files.contains_key(marker)
            &&& end.reader.state == ReaderState::<E>::Finished(OpenResult::Opened) ==> end.reader.read
                == Some(w.first.bytes) || end.reader.read == Some(w.second.bytes)
        }),
{
    lemma_race_sound(w, schedule);
}

/// The world stays sound along every schedule, and the writers keep their
/// bytes and their key.
pub proof fn lemma_race_sound<E>(w: World<E>, schedule: Seq<Actor>)
    requires
        world_at_start(w),
    ensures
        world_sound(world_run(w, schedule)),
        world_run(w, schedule).first.bytes == w.first.bytes,
        world_run(w, schedule).second.bytes == w.second.bytes,
        world_run(w, schedule).first.entry == w.first.entry,
        world_run(w, schedule).first.marker == w.first.marker,
    decreases schedule.len(),
{
    if schedule.len() > 0 {
        lemma_race_sound(w, schedule.drop_last());
        lemma_world_turn(world_run(w, schedule.drop_last()), schedule.last());
    }
}

/// Once an entry is valid it stays valid with the same bytes, whatever
/// turns follow: no turn removes a file or changes what the entry holds.
pub proof fn law_valid_entry_stays<E>(w: World<E>, schedule: Seq<Actor>)
    requires
        world_sound(w),
    ensures
        world_sound(world_run(w, schedule)),
        world_run(w, schedule).first.entry == w.first.entry,
        world_run(w, schedule).first.marker == w.first.marker,
        files_kept(w.files, world_run(w, schedule).files, w.first.entry),
    decreases schedule.len(),
{
    if schedule.len() > 0 {
        law_valid_entry_stays(w, schedule.drop_last());
        lemma_world_turn(world_run(w, schedule.drop_last()), schedule.last());
    }
}

/// Whether a publish in `state` is at its last look for the marker: the
/// wait is over if this look does not find it.
pub open spec fn at_last_look<E>(state: WriterState<E>) -> bool {
    match state {
        WriterState::Racing { probe: ProbeState::Marker { left }, .. } => left == 0,
        _ => false,
    }
}

/// Whether a publish in `state` sleeps after its last look, with nothing
/// left but to give up.
pub open spec fn wait_is_lost<E>(state: WriterState<E>) -> bool {
    match state {
        WriterState::Racing { probe: ProbeState::Pause { left }, .. } => left == 0,
        _ => false,
    }
}

/// Whether the turn of `who` in `w` is not a writer's last look for a
/// marker that is not there yet.
pub open spec fn turn_in_time<E>(w: World<E>, who: Actor) -> bool {
    &&& who is First && at_last_look(w.first.state) ==> w.files.contains_key(w.first.marker)
    &&& who is Second && at_last_look(w.second.state) ==> w.files.contains_key(w.second.marker)
}

/// Whether on `schedule` the marker is set within the bound of every wait
/// for it: whenever a writer takes its last look for the marker, the marker
/// is there. How many turns the winner of the rename takes to set it, and
/// how the turns before that look fall, is left open.
pub open spec fn marker_in_time<E>(w: World<E>, schedule: Seq<Actor>) -> bool {
    forall|i: int|
        0 <= i < schedule.len() ==> turn_in_time(
            #[trigger] world_run(w, schedule.take(i)),
            schedule[i],
        )
}

/// Whether a writer looks for the marker at least once and has neither
/// given up nor lost its wait.
pub open spec fn still_hopes<E>(w: WriterModel<E>) -> bool {
    &&& w.policy.attempts >= 1
    &&& !gave_up(w.state)
    &&& !wait_is_lost(w.state)
}

/// The world along a schedule on which the marker is set in time: it stays
/// sound, and no writer loses its wait or gives up.
pub proof fn lemma_race_in_time<E>(w: World<E>, schedule: Seq<Actor>)
    requires
        world_at_start(w),
        w.first.policy.attempts >= 1,
        w.second.policy.attempts >= 1,
        marker_in_time(w, schedule),
    ensures
        world_sound(world_run(w, schedule)),
        still_hopes(world_run(w, schedule).first),
        still_hopes(world_run(w, schedule).second),
    decreases schedule.len(),
{
    if schedule.len() > 0 {
        let before = schedule.drop_last();
        let last = schedule.len() - 1;
        assert(before =~= schedule.take(last));
        assert forall|i: int| 0 <= i < before.len() implies turn_in_time(
            #[trigger] world_run(w, before.take(i)),
            before[i],
        ) by {
            assert(before.take(i) =~= schedule.take(i));
            assert(before[i] == schedule[i]);
        }
        lemma_race_in_time(w, before);
        let mid = world_run(w, before);
        assert(turn_in_time(world_run(w, schedule.take(last)), schedule[last]));
        lemma_world_turn(mid, schedule.last());
    }
}

/// Two writers of one key that begin on a directory without the entry,
/// each looking for the marker at least once, both succeed, however their
/// turns fall, where the marker is set within the bound of the loser's
/// wait: whichever has ended has succeeded; and once both have ended,
/// exactly one rename has succeeded, the entry is valid, and it holds all
/// the bytes of the writer whose rename it was.
pub proof fn law_race_in_time_succeeds_for_both<E>(w: World<E>, schedule: Seq<Actor>)
    requires
        world_at_start(w),
        w.first.policy.attempts >= 1,
        w.second.policy.attempts >= 1,
        marker_in_time(w, schedule),
    ensures
        ({
            let end = world_run(w, schedule);
            let entry = w.first.entry;
            let marker = w.first.marker;
            &&& end.first.state is Finished ==> ended_well(end.first.state)
            &&& end.second.state is Finished ==> ended_well(end.second.state)
            &&& end.first.state is Finished && end.second.state is Finished ==> {
                &&& end.files.contains_key(entry)
                &&& end.files.contains_key(marker)
                &&& end.first.renamed != end.second.renamed
                &&& end.files[entry] == if end.first.renamed {
                    w.first.bytes
                } else {
                    w.second.bytes
                }
            }
        }),
{
    lemma_race_in_time(w, schedule);
    lemma_race_sound(w, schedule);
}

/// Whether the writer that has renamed its file sets the marker before
/// anyone else moves: at every turn of `schedule`, a writer that is about
/// to set the marker is the one that takes the turn.
pub open spec fn marks_promptly<E>(w: World<E>, schedule: Seq<Actor>) -> bool {
    forall|i: int|
        0 <= i < schedule.len() ==> turn_is_prompt(
            #[trigger] world_run(w, schedule.take(i)),
            schedule[i],
        )
}

/// Whether `who` may move in `w` without holding up a writer that is about
/// to set the marker.
pub open spec fn turn_is_prompt<E>(w: World<E>, who: Actor) -> bool {
    &&& w.first.state is Marking ==> who is First
    &&& w.second.state is Marking ==> who is Second
}

/// A marker that is set promptly is set in time, whatever the bound: on a
/// schedule on which the winner of the rename sets the marker before
/// anyone else moves, no writer ever looks for a marker that is not there.
/// So the schedules on which both writers succeed are not only those on
/// which nobody has to wait.
pub proof fn law_prompt_marker_is_in_time<E>(w: World<E>, schedule: Seq<Actor>)
    requires
        world_at_start(w),
        marks_promptly(w, schedule),
    ensures
        marker_in_time(w, schedule),
{
    assert forall|i: int| 0 <= i < schedule.len() implies turn_in_time(
        #[trigger] world_run(w, schedule.take(i)),
        schedule[i],
    ) by {
        lemma_race_sound(w, schedule.take(i));
        assert(turn_is_prompt(world_run(w, schedule.take(i)), schedule[i]));
    }
}

/// A turn in a world where the file system may fail: who moves, and the
/// failure that the file system answers with, if it does.
pub struct Turn<E> {
    pub who: Actor,
    pub fault: Option<E>,
}

/// What a failing file system answers to the request of the writer `w`: a
/// look finds nothing, anything that touches a file fails with `e` and
/// leaves the directory as it is. Sleeping and removing the staging file
/// are taken to succeed.
pub open spec fn writer_failed_answer<E>(w: WriterModel<E>, e: E) -> Event<E> {
    match writer_request_of(w.policy, w.state) {
        Request::CheckEntry => Event::Found(false),
        Request::CheckMarker => Event::Found(false),
        Request::Sleep(_) => Event::Slept,
        Request::Discard => Event::Done,
        Request::Nothing => Event::Done,
        _ => Event::Failed(e),
    }
}

/// One turn of a writer whose request fails with `e`.
pub open spec fn writer_failed_turn<E>(w: WriterModel<E>, e: E) -> WriterModel<E> {
    WriterModel {
        state: writer_next(w.policy, w.state, writer_failed_answer(w, e)),
        staged: if writer_request_of(w.policy, w.state) == Request::Discard {
            None
        } else {
            w.staged
        },
        ..w
    }
}

/// One turn of a reader whose request fails with `e`: a look finds nothing,
/// the file cannot be opened.
pub open spec fn reader_failed_turn<E>(r: ReaderModel<E>, e: E) -> ReaderModel<E> {
    ReaderModel {
        state: reader_next(
            r.policy,
            r.state,
            match reader_request_of(r.policy, r.state) {
                Request::CheckEntry => Event::Found(false),
                Request::CheckMarker => Event::Found(false),
                Request::Sleep(_) => Event::Slept,
                Request::Open => Event::Failed(e),
                _ => Event::Done,
            },
        ),
        ..r
    }
}

/// The world after one turn that may have failed.
pub open spec fn world_step<E>(w: World<E>, turn: Turn<E>) -> World<E> {
    match turn.fault {
        None => world_turn(w, turn.who),
        Some(e) => match turn.who {
            Actor::First => World { first: writer_failed_turn(w.first, e), ..w },
            Actor::Second => World { second: writer_failed_turn(w.second, e), ..w },
            Actor::Reader => World { reader: reader_failed_turn(w.reader, e), ..w },
        },
    }
}

/// The world after the turns of `history`, in that order.
pub open spec fn world_history<E>(w: World<E>, history: Seq<Turn<E>>) -> World<E>
    decreases history.len(),
{
    if history.len() == 0 {
        w
    } else {
        world_step(world_history(w, history.drop_last()), history.last())
    }
}

/// What holds of a writer between its turns even where requests fail: it
/// has no staging file before it made one nor after it gave it up, it is at
/// the rename only with all its bytes staged, it goes for the marker only
/// with the entry in place, and it reports success only of a valid entry.
pub open spec fn writer_safe<E>(files: Files, w: WriterModel<E>) -> bool {
    match w.state {
        WriterState::Creating => w.staged is None && !w.renamed,
        WriterState::Writing => !w.renamed,
        WriterState::Publishing => w.staged == Some(w.bytes) && !w.renamed,
        WriterState::Marking => w.staged is None && files.contains_key(w.entry),
        WriterState::Discarding { .. } => true,
        WriterState::Racing { probe, .. } => !(probe is Done) && w.staged is None,
        WriterState::Finished(Ok(_)) => w.staged is None && files.contains_key(w.entry)
            && files.contains_key(w.marker),
        WriterState::Finished(Err(_)) => w.staged is None,
    }
}

/// What holds of the world between any two turns even where requests fail.
pub open spec fn world_safe<E>(w: World<E>) -> bool {
    let entry = w.first.entry;
    let marker = w.first.marker;
    &&& entry != marker
    &&& w.second.entry == entry && w.second.marker == marker
    &&& w.reader.entry == entry && w.reader.marker == marker
    &&& writer_safe(w.files, w.first)
    &&& writer_safe(w.files, w.second)
    &&& reader_sound(w.files, w.reader)
    &&& w.files.contains_key(marker) ==> w.files.contains_key(entry)
    &&& w.files.contains_key(entry) ==> w.files[entry] == w.first.bytes || w.files[entry]
        == w.second.bytes
    &&& w.files.contains_key(entry) <==> w.first.renamed || w.second.renamed
    &&& !(w.first.renamed && w.second.renamed)
    &&& w.first.renamed ==> w.files[entry] == w.first.bytes
    &&& w.second.renamed ==> w.files[entry] == w.second.bytes
}

/// A turn, failed or not, keeps the world safe, the bytes that the writers
/// bring, and every file that is there.
pub proof fn lemma_world_step<E>(w: World<E>, turn: Turn<E>)
    requires
        world_safe(w),
    ensures
        world_safe(world_step(w, turn)),
        world_step(w, turn).first.bytes == w.first.bytes,
        world_step(w, turn).second.bytes == w.second.bytes,
        world_step(w, turn).first.entry == w.first.entry,
        world_step(w, turn).first.marker == w.first.marker,
        files_kept(w.files, world_step(w, turn).files, w.first.entry),
{
}

/// The world stays safe along every history.
pub proof fn lemma_history_safe<E>(w: World<E>, history: Seq<Turn<E>>)
    requires
        world_safe(w),
    ensures
        world_safe(world_history(w, history)),
        world_history(w, history).first.bytes == w.first.bytes,
        world_history(w, history).second.bytes == w.second.bytes,
        world_history(w, history).first.entry == w.first.entry,
        world_history(w, history).first.marker == w.first.marker,
        files_kept(w.files, world_history(w, history).files, w.first.entry),
    decreases history.len(),
{
    if history.len() > 0 {
        lemma_history_safe(w, history.drop_last());
        lemma_world_step(world_history(w, history.drop_last()), history.last());
    }
}

/// Whatever fails, whoever stops, and however the turns fall: the marker
/// is never there without the entry; the entry, once there, holds all the
/// bytes of one of the two writers; at most one rename succeeds, and the
/// entry holds the bytes of the writer whose rename it was; a writer
/// reports success only of an entry that is there with its marker; a writer that has ended has no
/// staging file left; and the reader opens the entry only while its marker
/// is there, so what it reports as opened are all the bytes of one writer,
/// never a part of them.
pub proof fn law_failures_expose_no_partial_entry<E>(w: World<E>, history: Seq<Turn<E>>)
    requires
        world_at_start(w),
    ensures
        ({
            let end = world_history(w, history);
            let entry = w.first.entry;
            let marker = w.first.marker;
            &&& end.files.contains_key(marker) ==> end.files.contains_key(entry)
            &&& end.files.contains_key(entry) ==> end.files[entry] == w.first.bytes
                || end.files[entry] == w.second.bytes
            &&& ended_well(end.first.state) || ended_well(end.second.state)
                ==> end.files.contains_key(entry) && end.files.contains_key(marker)
            &&& end.first.state is Finished ==> end.first.staged is None
            &&& end.second.state is Finished ==> end.second.staged is None
            &&& !(end.first.renamed && end.second.renamed)
            &&& end.files.contains_key(entry) <==> end.first.renamed || end.second.renamed
            &&& end.first.renamed ==> end.files[entry] == w.first.bytes
            &&& end.second.renamed ==> end.files[entry] == w.second.bytes
            &&& reads_entry(end.reader.state) ==> end.files.contains_key(marker)
            &&& end.reader.state == ReaderState::<E>::Finished(OpenResult::Opened) ==> end.reader.read
                == Some(w.first.bytes) || end.reader.read == Some(w.second.bytes)
        }),
{
    lemma_history_safe(w, history);
}

} // verus!
