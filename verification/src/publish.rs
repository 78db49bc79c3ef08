//! The commit path: staging an artifact and publishing it under the entry's
//! name, so that a marker is only ever set on a complete file.

use vstd::prelude::*;
use crate::cache::{entry_path, marker_path, CachePath, FormatCache};
use crate::errors::CacheError;
use crate::layout::{no_separator, stem_of, valid_stem};
use crate::marker::{
    probe_event, probe_event_of, probe_next, probe_request, probe_request_of, probe_step, Event,
    ProbeOutcome, ProbeState, Request, WaitPolicy,
};

verus! {

/// Where a publish stands.
#[derive(Debug, PartialEq, Eq)]
pub enum WriterState<E> {
    /// A staging file is being created.
    Creating,
    /// The bytes are being written to the staging file.
    Writing,
    /// The staging file is being renamed to the entry's name.
    Publishing,
    /// The rename succeeded and the marker is being created.
    Marking,
    /// The staging file is being removed after the failure `cause`; `raced`
    /// says that the failure was a rename onto an existing entry.
    Discarding { cause: E, raced: bool },
    /// Another writer owns the entry; its marker is waited for.
    Racing { probe: ProbeState, cause: E },
    /// The publish is over.
    Finished(Result<(), CacheError<E>>),
}

/// The request that a publish in `state` is waiting on.
pub open spec fn writer_request_of<E>(policy: WaitPolicy, state: WriterState<E>) -> Request {
    match state {
        WriterState::Creating => Request::CreateStaging,
        WriterState::Writing => Request::WriteStaging,
        WriterState::Publishing => Request::Publish,
        WriterState::Marking => Request::Mark,
        WriterState::Discarding { .. } => Request::Discard,
        WriterState::Racing { probe, .. } => probe_request_of(policy, probe),
        WriterState::Finished(_) => Request::Nothing,
    }
}

/// How a publish that lost the race goes on once its probe stands at
/// `probe`: a valid entry is success whoever wrote it, a time-out is
/// reported as such, and an entry that has gone is the failure of the
/// rename.
pub open spec fn after_probe<E>(probe: ProbeState, cause: E) -> WriterState<E> {
    match probe {
        ProbeState::Done(ProbeOutcome::Valid) => WriterState::Finished(Ok(())),
        ProbeState::Done(ProbeOutcome::TimedOut) => WriterState::Finished(
            Err(CacheError::TimedOut),
        ),
        ProbeState::Done(ProbeOutcome::Absent) => WriterState::Finished(
            Err(CacheError::Io(cause)),
        ),
        _ => WriterState::Racing { probe, cause },
    }
}

/// The state after `event` has answered the request of `state`. An event that
/// does not answer it changes nothing.
pub open spec fn writer_next<E>(policy: WaitPolicy, state: WriterState<E>, event: Event<E>) -> WriterState<E> {
    match (state, event) {
        (WriterState::Creating, Event::Done) => WriterState::Writing,
        (WriterState::Creating, Event::Failed(e)) => WriterState::Finished(Err(CacheError::Io(e))),
        (WriterState::Creating, Event::Occupied(e)) => WriterState::Finished(
            Err(CacheError::Io(e)),
        ),
        (WriterState::Writing, Event::Done) => WriterState::Publishing,
        (WriterState::Writing, Event::Failed(e)) => WriterState::Discarding {
            cause: e,
            raced: false,
        },
        (WriterState::Writing, Event::Occupied(e)) => WriterState::Discarding {
            cause: e,
            raced: false,
        },
        (WriterState::Publishing, Event::Done) => WriterState::Marking,
        (WriterState::Publishing, Event::Failed(e)) => WriterState::Discarding {
            cause: e,
            raced: false,
        },
        (WriterState::Publishing, Event::Occupied(e)) => WriterState::Discarding {
            cause: e,
            raced: true,
        },
        (WriterState::Marking, Event::Done) => WriterState::Finished(Ok(())),
        (WriterState::Marking, Event::Failed(e)) => WriterState::Finished(Err(CacheError::Io(e))),
        (WriterState::Marking, Event::Occupied(e)) => WriterState::Finished(
            Err(CacheError::Io(e)),
        ),
        (WriterState::Discarding { cause, raced }, Event::Done) => after_discard(cause, raced),
        (WriterState::Discarding { cause, raced }, Event::Failed(_)) => after_discard(
            cause,
            raced,
        ),
        (WriterState::Discarding { cause, raced }, Event::Occupied(_)) => after_discard(
            cause,
            raced,
        ),
        (WriterState::Racing { probe, cause }, _) => after_probe(
            probe_next(policy, probe, probe_event_of(event)),
            cause,
        ),
        _ => state,
    }
}

/// How a publish goes on once its staging file is gone: a lost race turns
/// into a probe of the entry, any other failure ends the publish.
pub open spec fn after_discard<E>(cause: E, raced: bool) -> WriterState<E> {
    if raced {
        WriterState::Racing { probe: ProbeState::Entry, cause }
    } else {
        WriterState::Finished(Err(CacheError::Io(cause)))
    }
}

/// Whether a publish in `state` has ended with success.
pub open spec fn ended_well<E>(state: WriterState<E>) -> bool {
    state matches WriterState::Finished(Ok(_))
}

/// Whether a publish in `state` has lost the race and is looking for the
/// winner's marker.
pub open spec fn awaits_marker<E>(state: WriterState<E>) -> bool {
    state matches WriterState::Racing { probe: ProbeState::Marker { .. }, .. }
}

/// Whether a publish in `state` owns a staging file.
pub open spec fn holds_staging<E>(state: WriterState<E>) -> bool {
    state is Writing || state is Publishing || state is Discarding
}

/// One publish of one artifact: the paths it works on, the bound on its
/// wait, and where it stands.
#[derive(Debug, PartialEq, Eq)]
pub struct Publish<E> {
    /// The path of the entry: the name that the staging file is renamed
    /// to. The staging file is created in its directory.
    pub entry: CachePath,
    /// The marker that is set once the entry is in place.
    pub marker: CachePath,
    /// The bound on the wait for another writer's marker.
    pub policy: WaitPolicy,
    /// Where the publish stands.
    pub state: WriterState<E>,
}

impl<E> Publish<E> {
    /// A publish never waits on a probe that has ended: the end of the
    /// probe is the end of the publish. Every publish that `write_format`
    /// begins is so, and `step` keeps it so.
    pub open spec fn well_formed(&self) -> bool {
        self.state matches WriterState::Racing { probe, .. } ==> !(probe is Done)
    }

    /// The request that the publish is waiting on; `Nothing` once it is
    /// over. A publish that lost the race only looks and sleeps: it writes
    /// nothing any more.
    pub fn request(&self) -> (r: Request)
        ensures
            r == writer_request_of(self.policy, self.state),
            self.well_formed() ==> (r == Request::Nothing <==> self.state is Finished),
            self.well_formed() && self.state is Racing ==> r == Request::CheckEntry || r
                == Request::CheckMarker || r == Request::Sleep(self.policy.interval_ms),
            r == Request::Mark <==> self.state is Marking,
    {
        match &self.state {
            WriterState::Creating => Request::CreateStaging,
            WriterState::Writing => Request::WriteStaging,
            WriterState::Publishing => Request::Publish,
            WriterState::Marking => Request::Mark,
            WriterState::Discarding { .. } => Request::Discard,
            WriterState::Racing { probe, .. } => probe_request(self.policy, *probe),
            WriterState::Finished(_) => Request::Nothing,
        }
    }

    /// Takes the answer to the outstanding request. The paths and the bound
    /// stay; the state moves as `writer_next` says. The marker is asked for
    /// only after a rename that succeeded, and a staging file is given up
    /// only by that rename or by a discard.
    pub fn step(self, event: Event<E>) -> (r: Publish<E>)
        ensures
            r.entry == self.entry,
            r.marker == self.marker,
            r.policy == self.policy,
            r.state == writer_next(self.policy, self.state, event),
            self.well_formed() ==> r.well_formed(),
            self.well_formed() && ended_well(r.state) && !(self.state is Finished) ==> (self.state
                is Marking && event is Done) || (awaits_marker(self.state) && (event
                matches Event::Found(true))),
            r.state is Marking ==> self.state is Marking || (self.state is Publishing && event
                is Done),
            holds_staging(self.state) && !holds_staging(r.state) ==> (self.state is Publishing
                && event is Done) || self.state is Discarding,
    {
        let Publish { entry, marker, policy, state } = self;
        let next = match state {
            WriterState::Creating => match event {
                Event::Done => WriterState::Writing,
                Event::Failed(e) => WriterState::Finished(Err(CacheError::Io(e))),
                Event::Occupied(e) => WriterState::Finished(Err(CacheError::Io(e))),
                _ => WriterState::Creating,
            },
            WriterState::Writing => match event {
                Event::Done => WriterState::Publishing,
                Event::Failed(e) => WriterState::Discarding { cause: e, raced: false },
                Event::Occupied(e) => WriterState::Discarding { cause: e, raced: false },
                _ => WriterState::Writing,
            },
            WriterState::Publishing => match event {
                Event::Done => WriterState::Marking,
                Event::Failed(e) => WriterState::Discarding { cause: e, raced: false },
                Event::Occupied(e) => WriterState::Discarding { cause: e, raced: true },
                _ => WriterState::Publishing,
            },
            WriterState::Marking => match event {
                Event::Done => WriterState::Finished(Ok(())),
                Event::Failed(e) => WriterState::Finished(Err(CacheError::Io(e))),
                Event::Occupied(e) => WriterState::Finished(Err(CacheError::Io(e))),
                _ => WriterState::Marking,
            },
            WriterState::Discarding { cause, raced } => match event {
                Event::Done | Event::Failed(_) | Event::Occupied(_) => {
                    if raced {
                        WriterState::Racing { probe: ProbeState::Entry, cause }
                    } else {
                        WriterState::Finished(Err(CacheError::Io(cause)))
                    }
                },
                _ => WriterState::Discarding { cause, raced },
            },
            WriterState::Racing { probe, cause } => {
                let seen = probe_event(&event);
                match probe_step(policy, probe, seen) {
                    ProbeState::Done(ProbeOutcome::Valid) => WriterState::Finished(Ok(())),
                    ProbeState::Done(ProbeOutcome::TimedOut) => WriterState::Finished(
                        Err(CacheError::TimedOut),
                    ),
                    ProbeState::Done(ProbeOutcome::Absent) => WriterState::Finished(
                        Err(CacheError::Io(cause)),
                    ),
                    p => WriterState::Racing { probe: p, cause },
                }
            },
            WriterState::Finished(r) => WriterState::Finished(r),
        };
        Publish { entry, marker, policy, state: next }
    }

    /// Whether the publish is over.
    pub fn is_finished(&self) -> (r: bool)
        ensures
            r == self.state is Finished,
    {
        match &self.state {
            WriterState::Finished(_) => true,
            _ => false,
        }
    }

    /// The result of a publish that is over.
    pub fn finish(self) -> (r: Option<Result<(), CacheError<E>>>)
        ensures
            r == match self.state {
                WriterState::Finished(x) => Some(x),
                _ => None,
            },
    {
        match self.state {
            WriterState::Finished(x) => Some(x),
            _ => None,
        }
    }
}

impl FormatCache {
    /// Begins the publish of the artifact `name`: resolves the entry and its
    /// marker and asks for a staging file. The bytes stay with the caller,
    /// who writes them when the publish asks for it. A name without a stem,
    /// or with a separator in it, is refused before anything is asked of
    /// the file system.
    pub fn write_format<E>(&self, name: &str) -> (r: Result<Publish<E>, CacheError<E>>)
        ensures
            r is Ok <==> stem_of(name@).len() > 0 && valid_stem(stem_of(name@)),
            r matches Ok(p) ==> p.entry@ == entry_path(self@, stem_of(name@)) && p.marker@
                == marker_path(p.entry@) && no_separator(p.entry@.file_name) && no_separator(
                p.marker@.file_name,
            ) && p.policy == self@.policy && p.state
                is Creating && p.well_formed(),
            r matches Err(e) ==> e matches CacheError::Naming(n) && n.name@ == name@,
    {
        match self.path_for_format(name) {
            Ok(entry) => {
                let marker = FormatCache::path_for_format_marker(&entry);
                Ok(
                    Publish {
                        entry,
                        marker,
                        policy: self.wait_policy(),
                        state: WriterState::Creating,
                    },
                )
            },
            Err(e) => Err(CacheError::Naming(e)),
        }
    }
}

} // verus!
