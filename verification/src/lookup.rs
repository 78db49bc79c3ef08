//! The lookup path: opening an entry only when its marker says that it is
//! complete.

use vstd::prelude::*;
use crate::cache::{entry_path, marker_path, CachePath, FormatCache};
use crate::errors::CacheError;
use crate::layout::{no_separator, stem_of, valid_stem};
use crate::marker::{
    probe_event, probe_event_of, probe_next, probe_request, probe_request_of, probe_step, Event,
    ProbeOutcome, ProbeState, Request, WaitPolicy,
};

verus! {

/// How a lookup ended.
#[derive(Debug, PartialEq, Eq)]
pub enum OpenResult<E> {
    /// The entry is valid and its file was opened.
    Opened,
    /// There is no entry: the caller makes the artifact and publishes it.
    NotAvailable,
    /// The lookup failed.
    Failed(CacheError<E>),
}

/// Where a lookup stands.
#[derive(Debug, PartialEq, Eq)]
pub enum ReaderState<E> {
    /// The entry is being probed.
    Probing(ProbeState),
    /// The entry is valid and its file is being opened.
    Opening,
    /// The lookup is over.
    Finished(OpenResult<E>),
}

/// The request that a lookup in `state` is waiting on.
pub open spec fn reader_request_of<E>(policy: WaitPolicy, state: ReaderState<E>) -> Request {
    match state {
        ReaderState::Probing(probe) => probe_request_of(policy, probe),
        ReaderState::Opening => Request::Open,
        ReaderState::Finished(_) => Request::Nothing,
    }
}

/// How a lookup goes on once its probe stands at `probe`: an absent entry
/// is a miss, a valid one is opened, a time-out is a failure.
pub open spec fn after_lookup_probe<E>(probe: ProbeState) -> ReaderState<E> {
    match probe {
        ProbeState::Done(ProbeOutcome::Absent) => ReaderState::Finished(OpenResult::NotAvailable),
        ProbeState::Done(ProbeOutcome::Valid) => ReaderState::Opening,
        ProbeState::Done(ProbeOutcome::TimedOut) => ReaderState::Finished(
            OpenResult::Failed(CacheError::TimedOut),
        ),
        _ => ReaderState::Probing(probe),
    }
}

/// The state after `event` has answered the request of `state`. An event that
/// does not answer it changes nothing.
pub open spec fn reader_next<E>(policy: WaitPolicy, state: ReaderState<E>, event: Event<E>) -> ReaderState<E> {
    match (state, event) {
        (ReaderState::Probing(probe), _) => after_lookup_probe(
            probe_next(policy, probe, probe_event_of(event)),
        ),
        (ReaderState::Opening, Event::Done) => ReaderState::Finished(OpenResult::Opened),
        (ReaderState::Opening, Event::Missing) => ReaderState::Finished(OpenResult::NotAvailable),
        (ReaderState::Opening, Event::Failed(e)) => ReaderState::Finished(
            OpenResult::Failed(CacheError::Io(e)),
        ),
        (ReaderState::Opening, Event::Occupied(e)) => ReaderState::Finished(
            OpenResult::Failed(CacheError::Io(e)),
        ),
        _ => state,
    }
}

/// The state of a lookup after a sequence of events.
pub open spec fn reader_run<E>(policy: WaitPolicy, state: ReaderState<E>, events: Seq<Event<E>>) -> ReaderState<E>
    decreases events.len(),
{
    if events.len() == 0 {
        state
    } else {
        reader_next(policy, reader_run(policy, state, events.drop_last()), events.last())
    }
}

/// Whether `event` says that a file exists.
pub open spec fn found_file<E>(event: Event<E>) -> bool {
    event matches Event::Found(true)
}

/// Whether a lookup in `state` has asked for the entry's file and waits for
/// the answer.
pub open spec fn looks_at_entry<E>(state: ReaderState<E>) -> bool {
    state matches ReaderState::Probing(ProbeState::Entry)
}

/// Whether a lookup in `state` has asked for the marker and waits for the
/// answer.
pub open spec fn looks_at_marker<E>(state: ReaderState<E>) -> bool {
    state matches ReaderState::Probing(ProbeState::Marker { .. })
}

/// Whether a lookup in `state` waits on a probe that has ended.
pub open spec fn probe_ended<E>(state: ReaderState<E>) -> bool {
    state matches ReaderState::Probing(ProbeState::Done(_))
}

/// Whether a lookup in `state` reads the entry's file, or has read it.
pub open spec fn reads_entry<E>(state: ReaderState<E>) -> bool {
    state is Opening || state matches ReaderState::Finished(OpenResult::Opened)
}

/// A lookup that never finds a marker never reads the entry: as long as
/// the only files found are found by the look at the entry itself, the
/// lookup neither opens the file nor reports it opened, whatever else
/// happens and however long it is run.
pub proof fn law_no_marker_no_read<E>(policy: WaitPolicy, state: ReaderState<E>, events: Seq<Event<E>>)
    requires
        state is Probing,
        !probe_ended(state),
        forall|i: int|
            0 <= i < events.len() && found_file(events[i]) ==> looks_at_entry(
                #[trigger] reader_run(policy, state, events.take(i)),
            ),
    ensures
        !reads_entry(reader_run(policy, state, events)),
        !probe_ended(reader_run(policy, state, events)),
    decreases events.len(),
{
    if events.len() > 0 {
        let before = events.drop_last();
        assert(before =~= events.take(events.len() - 1));
        assert forall|i: int| 0 <= i < before.len() && found_file(before[i]) implies looks_at_entry(
            #[trigger] reader_run(policy, state, before.take(i)),
        ) by {
            assert(before.take(i) =~= events.take(i));
            assert(before[i] == events[i]);
        }
        law_no_marker_no_read(policy, state, before);
        let i = events.len() - 1;
        assert(events[i] == events.last());
        assert(reader_run(policy, state, events.take(i)) == reader_run(policy, state, before));
    }
}

/// One lookup of one artifact: the paths it works on, the bound on its
/// wait, and where it stands.
#[derive(Debug, PartialEq, Eq)]
pub struct Lookup<E> {
    /// The file that holds the entry.
    pub entry: CachePath,
    /// The marker that says the entry is complete.
    pub marker: CachePath,
    /// The bound on the wait for the marker.
    pub policy: WaitPolicy,
    /// Where the lookup stands.
    pub state: ReaderState<E>,
}

impl<E> Lookup<E> {
    /// A lookup never waits on a probe that has ended. Every lookup that
    /// `input_open_format` begins is so, and `step` keeps it so.
    pub open spec fn well_formed(&self) -> bool {
        self.state matches ReaderState::Probing(probe) ==> !(probe is Done)
    }

    /// The request that the lookup is waiting on; `Nothing` once it is over.
    pub fn request(&self) -> (r: Request)
        ensures
            r == reader_request_of(self.policy, self.state),
            self.well_formed() ==> (r == Request::Nothing <==> self.state is Finished),
            r == Request::Open <==> self.state is Opening,
    {
        match &self.state {
            ReaderState::Probing(probe) => probe_request(self.policy, *probe),
            ReaderState::Opening => Request::Open,
            ReaderState::Finished(_) => Request::Nothing,
        }
    }

    /// Takes the answer to the outstanding request. The paths and the bound
    /// stay; the state moves as `reader_next` says. The file is opened only
    /// on a look that found the marker.
    pub fn step(self, event: Event<E>) -> (r: Lookup<E>)
        ensures
            r.entry == self.entry,
            r.marker == self.marker,
            r.policy == self.policy,
            r.state == reader_next(self.policy, self.state, event),
            self.well_formed() ==> r.well_formed(),
            self.well_formed() && r.state is Opening && !(self.state is Opening) ==> looks_at_marker(
                self.state,
            ) && found_file(event),
            (r.state matches ReaderState::Finished(OpenResult::Opened)) && !(self.state
                is Finished) ==> self.state is Opening && event is Done,
    {
        let Lookup { entry, marker, policy, state } = self;
        let next = match state {
            ReaderState::Probing(probe) => {
                let seen = probe_event(&event);
                match probe_step(policy, probe, seen) {
                    ProbeState::Done(ProbeOutcome::Absent) => ReaderState::Finished(
                        OpenResult::NotAvailable,
                    ),
                    ProbeState::Done(ProbeOutcome::Valid) => ReaderState::Opening,
                    ProbeState::Done(ProbeOutcome::TimedOut) => ReaderState::Finished(
                        OpenResult::Failed(CacheError::TimedOut),
                    ),
                    p => ReaderState::Probing(p),
                }
            },
            ReaderState::Opening => match event {
                Event::Done => ReaderState::Finished(OpenResult::Opened),
                Event::Missing => ReaderState::Finished(OpenResult::NotAvailable),
                Event::Failed(e) => ReaderState::Finished(OpenResult::Failed(CacheError::Io(e))),
                Event::Occupied(e) => ReaderState::Finished(OpenResult::Failed(CacheError::Io(e))),
                _ => ReaderState::Opening,
            },
            ReaderState::Finished(r) => ReaderState::Finished(r),
        };
        Lookup { entry, marker, policy, state: next }
    }

    /// Whether the lookup is over.
    pub fn is_finished(&self) -> (r: bool)
        ensures
            r == self.state is Finished,
    {
        match &self.state {
            ReaderState::Finished(_) => true,
            _ => false,
        }
    }

    /// The result of a lookup that is over.
    pub fn finish(self) -> (r: Option<OpenResult<E>>)
        ensures
            r == match self.state {
                ReaderState::Finished(x) => Some(x),
                _ => None,
            },
    {
        match self.state {
            ReaderState::Finished(x) => Some(x),
            _ => None,
        }
    }
}

impl FormatCache {
    /// Begins the lookup of the artifact `name`: resolves the entry and its
    /// marker and asks whether the entry's file exists. A name without a
    /// stem, or with a separator in it, is refused before anything is
    /// asked of the file system.
    pub fn input_open_format<E>(&self, name: &str) -> (r: Result<Lookup<E>, CacheError<E>>)
        ensures
            r is Ok <==> stem_of(name@).len() > 0 && valid_stem(stem_of(name@)),
            r matches Ok(p) ==> p.entry@ == entry_path(self@, stem_of(name@)) && p.marker@
                == marker_path(p.entry@) && no_separator(p.entry@.file_name) && no_separator(
                p.marker@.file_name,
            ) && p.policy == self@.policy && p.state
                == ReaderState::<E>::Probing(ProbeState::Entry) && p.well_formed(),
            r matches Err(e) ==> e matches CacheError::Naming(n) && n.name@ == name@,
    {
        match self.path_for_format(name) {
            Ok(entry) => {
                let marker = FormatCache::path_for_format_marker(&entry);
                Ok(
                    Lookup {
                        entry,
                        marker,
                        policy: self.wait_policy(),
                        state: ReaderState::Probing(ProbeState::Entry),
                    },
                )
            },
            Err(e) => Err(CacheError::Naming(e)),
        }
    }
}

} // verus!
