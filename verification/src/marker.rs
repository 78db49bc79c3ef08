//! The marker protocol: whether an entry is absent, still being written, or
//! complete, told from the existence of two files.

use vstd::prelude::*;

verus! {

/// What the two files say about an entry.
#[derive(Clone, Copy, Debug, PartialEq, Eq, Structural)]
pub enum EntryState {
    /// The entry's file does not exist.
    Absent,
    /// The entry's file exists and its marker does not: a writer is at work,
    /// or died at it.
    Pending,
    /// Both exist: the entry is complete and may be read.
    Valid,
}

/// The state of an entry whose file and marker exist or not.
pub open spec fn entry_state(entry_exists: bool, marker_exists: bool) -> EntryState {
    if !entry_exists {
        EntryState::Absent
    } else if marker_exists {
        EntryState::Valid
    } else {
        EntryState::Pending
    }
}

/// Tells an entry's state from the existence of its file and of its marker.
pub fn classify(entry_exists: bool, marker_exists: bool) -> (r: EntryState)
    ensures
        r == entry_state(entry_exists, marker_exists),
        r == EntryState::Valid <==> entry_exists && marker_exists,
{
    if !entry_exists {
        EntryState::Absent
    } else if marker_exists {
        EntryState::Valid
    } else {
        EntryState::Pending
    }
}

/// How long a probe waits for the marker of an entry whose file exists.
#[derive(Clone, Copy, Debug, PartialEq, Eq, Structural)]
pub struct WaitPolicy {
    /// How often the marker is looked for before the probe gives up.
    pub attempts: u32,
    /// Milliseconds of sleep after each look that did not find it.
    pub interval_ms: u64,
}

impl WaitPolicy {
    /// Twenty looks, a tenth of a second apart.
    pub fn standard() -> (r: WaitPolicy)
        ensures
            r.attempts == 20,
            r.interval_ms == 100,
    {
        WaitPolicy { attempts: 20, interval_ms: 100 }
    }
}

/// What the cache asks of the file system, one request at a time.
#[derive(Clone, Copy, Debug, PartialEq, Eq, Structural)]
pub enum Request {
    /// Does the entry's file exist?
    CheckEntry,
    /// Does the entry's marker exist?
    CheckMarker,
    /// Sleep for so many milliseconds.
    Sleep(u64),
    /// Create a staging file under a random name in the cache directory.
    CreateStaging,
    /// Write all the bytes to the staging file and flush them.
    WriteStaging,
    /// Rename the staging file to the entry's name, failing if that exists.
    Publish,
    /// Create the marker.
    Mark,
    /// Remove the staging file.
    Discard,
    /// Open the entry's file for reading.
    Open,
    /// Nothing is left to do.
    Nothing,
}

/// What a probe has seen.
#[derive(Clone, Copy, Debug, PartialEq, Eq, Structural)]
pub enum ProbeEvent {
    /// The file asked about exists, or does not.
    Found(bool),
    /// The sleep is over.
    Slept,
    /// Anything that answers no request of a probe.
    Other,
}

/// What the file system answered to a request. `E` is the caller's own
/// value for a failure.
#[derive(Debug, PartialEq, Eq)]
pub enum Event<E> {
    /// The request was carried out.
    Done,
    /// The request failed.
    Failed(E),
    /// The request failed because the destination already exists.
    Occupied(E),
    /// The file to open does not exist.
    Missing,
    /// The file asked about exists, or does not.
    Found(bool),
    /// The sleep is over.
    Slept,
}

/// What `event` means to a probe.
pub open spec fn probe_event_of<E>(event: Event<E>) -> ProbeEvent {
    match event {
        Event::Found(b) => ProbeEvent::Found(b),
        Event::Slept => ProbeEvent::Slept,
        _ => ProbeEvent::Other,
    }
}

/// What `event` means to a probe.
pub fn probe_event<E>(event: &Event<E>) -> (r: ProbeEvent)
    ensures
        r == probe_event_of(*event),
{
    match event {
        Event::Found(b) => ProbeEvent::Found(*b),
        Event::Slept => ProbeEvent::Slept,
        _ => ProbeEvent::Other,
    }
}

/// How a probe ended.
#[derive(Clone, Copy, Debug, PartialEq, Eq, Structural)]
pub enum ProbeOutcome {
    /// The entry's file does not exist.
    Absent,
    /// The entry's file and its marker exist.
    Valid,
    /// The entry's file exists and the marker did not appear in time.
    TimedOut,
}

/// Where a probe stands.
#[derive(Clone, Copy, Debug, PartialEq, Eq, Structural)]
pub enum ProbeState {
    /// It has asked whether the entry's file exists.
    Entry,
    /// It has asked whether the marker exists; `left` more looks may follow.
    Marker { left: u32 },
    /// It sleeps; `left` looks may follow.
    Pause { left: u32 },
    /// It has ended.
    Done(ProbeOutcome),
}

/// The request that a probe in `state` is waiting on.
pub open spec fn probe_request_of(policy: WaitPolicy, state: ProbeState) -> Request {
    match state {
        ProbeState::Entry => Request::CheckEntry,
        ProbeState::Marker { .. } => Request::CheckMarker,
        ProbeState::Pause { .. } => Request::Sleep(policy.interval_ms),
        ProbeState::Done(_) => Request::Nothing,
    }
}

/// The state in which a probe waits for its next look at the marker, or the
/// time-out where no look is left.
pub open spec fn next_look(left: u32) -> ProbeState {
    if left == 0 {
        ProbeState::Done(ProbeOutcome::TimedOut)
    } else {
        ProbeState::Marker { left: (left - 1) as u32 }
    }
}

/// The state after `event` has answered the request of `state`. An event that
/// does not answer it changes nothing.
pub open spec fn probe_next(policy: WaitPolicy, state: ProbeState, event: ProbeEvent) -> ProbeState {
    match (state, event) {
        (ProbeState::Entry, ProbeEvent::Found(false)) => ProbeState::Done(ProbeOutcome::Absent),
        (ProbeState::Entry, ProbeEvent::Found(true)) => next_look(policy.attempts),
        (ProbeState::Marker { left }, ProbeEvent::Found(true)) => ProbeState::Done(
            ProbeOutcome::Valid,
        ),
        (ProbeState::Marker { left }, ProbeEvent::Found(false)) => ProbeState::Pause { left },
        (ProbeState::Pause { left }, ProbeEvent::Slept) => next_look(left),
        _ => state,
    }
}

/// Whether `event` answers the request of `state`.
pub open spec fn probe_answers(state: ProbeState, event: ProbeEvent) -> bool {
    match (state, event) {
        (ProbeState::Entry, ProbeEvent::Found(_)) => true,
        (ProbeState::Marker { .. }, ProbeEvent::Found(_)) => true,
        (ProbeState::Pause { .. }, ProbeEvent::Slept) => true,
        _ => false,
    }
}

/// An upper bound on the requests that a probe in `state` still makes.
pub open spec fn probe_fuel(policy: WaitPolicy, state: ProbeState) -> nat {
    match state {
        ProbeState::Entry => 2 * policy.attempts as nat + 1,
        ProbeState::Marker { left } => 2 * left as nat + 2,
        ProbeState::Pause { left } => 2 * left as nat + 1,
        ProbeState::Done(_) => 0,
    }
}

/// The probe's first state: it begins by asking for the entry's file.
pub fn probe_start() -> (r: ProbeState)
    ensures
        r == ProbeState::Entry,
{
    ProbeState::Entry
}

/// The request that a probe in `state` is waiting on.
pub fn probe_request(policy: WaitPolicy, state: ProbeState) -> (r: Request)
    ensures
        r == probe_request_of(policy, state),
        r == Request::Nothing <==> state is Done,
{
    match state {
        ProbeState::Entry => Request::CheckEntry,
        ProbeState::Marker { .. } => Request::CheckMarker,
        ProbeState::Pause { .. } => Request::Sleep(policy.interval_ms),
        ProbeState::Done(_) => Request::Nothing,
    }
}

/// One step of probe-and-wait: takes the answer to the outstanding request
/// and gives the next state. An absent entry ends the probe at once; a
/// present one is followed by at most `policy.attempts` looks for the marker,
/// a sleep after each that fails, and then the time-out.
pub fn probe_step(policy: WaitPolicy, state: ProbeState, event: ProbeEvent) -> (r: ProbeState)
    ensures
        r == probe_next(policy, state, event),
        probe_answers(state, event) ==> probe_fuel(policy, r) < probe_fuel(policy, state),
        !probe_answers(state, event) ==> r == state,
        r == ProbeState::Done(ProbeOutcome::Valid) && state != r ==> state is Marker && event
            == ProbeEvent::Found(true),
        r == ProbeState::Done(ProbeOutcome::Absent) && state != r ==> state is Entry && event
            == ProbeEvent::Found(false),
{
    match state {
        ProbeState::Entry => match event {
            ProbeEvent::Found(false) => ProbeState::Done(ProbeOutcome::Absent),
            ProbeEvent::Found(true) => look_again(policy.attempts),
            _ => state,
        },
        ProbeState::Marker { left } => match event {
            ProbeEvent::Found(true) => ProbeState::Done(ProbeOutcome::Valid),
            ProbeEvent::Found(false) => ProbeState::Pause { left },
            _ => state,
        },
        ProbeState::Pause { left } => match event {
            ProbeEvent::Slept => look_again(left),
            _ => state,
        },
        ProbeState::Done(_) => state,
    }
}

/// The next look at the marker, or the time-out where none is left.
fn look_again(left: u32) -> (r: ProbeState)
    ensures
        r == next_look(left),
{
    if left == 0 {
        ProbeState::Done(ProbeOutcome::TimedOut)
    } else {
        ProbeState::Marker { left: left - 1 }
    }
}

/// The state of a probe after a sequence of events, each answering the
/// request that the state before it makes.
pub open spec fn probe_run(policy: WaitPolicy, state: ProbeState, events: Seq<ProbeEvent>) -> ProbeState
    decreases events.len(),
{
    if events.len() == 0 {
        state
    } else {
        probe_run(policy, probe_next(policy, state, events[0]), events.drop_first())
    }
}

/// A probe of an entry whose marker is never found does not end as valid,
/// whatever else it sees and however long it is run.
pub proof fn law_no_marker_never_valid(policy: WaitPolicy, state: ProbeState, events: Seq<ProbeEvent>)
    requires
        state != ProbeState::Done(ProbeOutcome::Valid),
        forall|i: int| 0 <= i < events.len() ==> events[i] != ProbeEvent::Found(true),
    ensures
        probe_run(policy, state, events) != ProbeState::Done(ProbeOutcome::Valid),
    decreases events.len(),
{
    if events.len() > 0 {
        let rest = events.drop_first();
        assert forall|i: int| 0 <= i < rest.len() implies rest[i] != ProbeEvent::Found(true) by {
            assert(rest[i] == events[i + 1]);
        }
        law_no_marker_never_valid(policy, probe_next(policy, state, events[0]), rest);
    }
}

/// A probe is over after as many answered requests as its fuel: at most one
/// look at the entry, `attempts` looks at the marker and as many sleeps.
pub proof fn law_probe_ends(policy: WaitPolicy, state: ProbeState, events: Seq<ProbeEvent>)
    requires
        events.len() >= probe_fuel(policy, state),
        forall|i: int|
            0 <= i < events.len() ==> probe_answers(
                #[trigger] probe_run(policy, state, events.take(i)),
                events[i],
            ) || probe_run(policy, state, events.take(i)) is Done,
    ensures
        probe_run(policy, state, events) is Done,
    decreases events.len(),
{
    if events.len() == 0 {
    } else {
        let rest = events.drop_first();
        let next = probe_next(policy, state, events[0]);
        assert(events.take(0) =~= Seq::<ProbeEvent>::empty());
        assert(probe_run(policy, state, events.take(0)) == state);
        assert forall|i: int| 0 <= i < rest.len() implies probe_answers(
            #[trigger] probe_run(policy, next, rest.take(i)),
            rest[i],
        ) || probe_run(policy, next, rest.take(i)) is Done by {
            assert(events.take(i + 1).drop_first() =~= rest.take(i));
            assert(events.take(i + 1)[0] == events[0]);
            assert(probe_run(policy, state, events.take(i + 1)) == probe_run(
                policy,
                next,
                rest.take(i),
            ));
            assert(rest[i] == events[i + 1]);
        }
        law_probe_ends(policy, next, rest);
    }
}

} // verus!
