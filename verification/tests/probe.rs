use format_cache::marker::{
    classify, probe_request, probe_start, probe_step, EntryState, ProbeEvent, ProbeOutcome,
    ProbeState, Request, WaitPolicy,
};

fn policy(attempts: u32) -> WaitPolicy {
    WaitPolicy { attempts, interval_ms: 5 }
}

/// Runs a probe on an entry whose file exists or not and whose marker
/// appears at the given look (counted from 1), if at all; returns the
/// outcome with the numbers of looks at the marker and of sleeps.
fn run_probe(p: WaitPolicy, entry: bool, marker_at: Option<u32>) -> (ProbeOutcome, u32, u32) {
    let mut state = probe_start();
    let mut looks: u32 = 0;
    let mut sleeps: u32 = 0;
    for _ in 0..10_000 {
        let event = match probe_request(p, state) {
            Request::CheckEntry => ProbeEvent::Found(entry),
            Request::CheckMarker => {
                looks += 1;
                ProbeEvent::Found(marker_at.map_or(false, |k| looks >= k))
            }
            Request::Sleep(ms) => {
                assert_eq!(ms, p.interval_ms);
                sleeps += 1;
                ProbeEvent::Slept
            }
            Request::Nothing => match state {
                ProbeState::Done(o) => return (o, looks, sleeps),
                _ => panic!("nothing asked by a probe that is not over"),
            },
            other => panic!("a probe asked for {:?}", other),
        };
        state = probe_step(p, state, event);
    }
    panic!("the probe did not end");
}

#[test]
fn entry_states() {
    assert_eq!(classify(false, false), EntryState::Absent);
    assert_eq!(classify(false, true), EntryState::Absent);
    assert_eq!(classify(true, false), EntryState::Pending);
    assert_eq!(classify(true, true), EntryState::Valid);
}

#[test]
fn standard_policy_is_twenty_looks_a_tenth_of_a_second_apart() {
    assert_eq!(WaitPolicy::standard(), WaitPolicy { attempts: 20, interval_ms: 100 });
}

#[test]
fn absent_entry_ends_the_probe_without_a_wait() {
    assert_eq!(run_probe(WaitPolicy::standard(), false, None), (ProbeOutcome::Absent, 0, 0));
    assert_eq!(run_probe(WaitPolicy::standard(), false, Some(1)), (ProbeOutcome::Absent, 0, 0));
}

#[test]
fn marker_at_first_look_is_valid_without_a_sleep() {
    assert_eq!(run_probe(WaitPolicy::standard(), true, Some(1)), (ProbeOutcome::Valid, 1, 0));
}

#[test]
fn marker_that_appears_in_time_is_valid() {
    assert_eq!(run_probe(WaitPolicy::standard(), true, Some(4)), (ProbeOutcome::Valid, 4, 3));
    assert_eq!(run_probe(WaitPolicy::standard(), true, Some(20)), (ProbeOutcome::Valid, 20, 19));
}

#[test]
fn marker_that_never_appears_times_out_after_all_looks() {
    assert_eq!(run_probe(WaitPolicy::standard(), true, None), (ProbeOutcome::TimedOut, 20, 20));
    assert_eq!(run_probe(WaitPolicy::standard(), true, Some(21)), (ProbeOutcome::TimedOut, 20, 20));
    assert_eq!(run_probe(policy(3), true, None), (ProbeOutcome::TimedOut, 3, 3));
}

#[test]
fn no_attempts_time_out_at_once() {
    assert_eq!(run_probe(policy(0), true, Some(1)), (ProbeOutcome::TimedOut, 0, 0));
}

#[test]
fn probe_steps_one_by_one() {
    let p = policy(2);
    let s = probe_step(p, ProbeState::Entry, ProbeEvent::Found(true));
    assert_eq!(s, ProbeState::Marker { left: 1 });
    let s = probe_step(p, s, ProbeEvent::Found(false));
    assert_eq!(s, ProbeState::Pause { left: 1 });
    assert_eq!(probe_request(p, s), Request::Sleep(5));
    let s = probe_step(p, s, ProbeEvent::Slept);
    assert_eq!(s, ProbeState::Marker { left: 0 });
    let s = probe_step(p, s, ProbeEvent::Found(false));
    assert_eq!(s, ProbeState::Pause { left: 0 });
    let s = probe_step(p, s, ProbeEvent::Slept);
    assert_eq!(s, ProbeState::Done(ProbeOutcome::TimedOut));
}

#[test]
fn event_that_answers_nothing_is_ignored() {
    let p = policy(2);
    assert_eq!(probe_step(p, ProbeState::Entry, ProbeEvent::Slept), ProbeState::Entry);
    assert_eq!(probe_step(p, ProbeState::Entry, ProbeEvent::Other), ProbeState::Entry);
    let pause = ProbeState::Pause { left: 1 };
    assert_eq!(probe_step(p, pause, ProbeEvent::Found(true)), pause);
    let over = ProbeState::Done(ProbeOutcome::Valid);
    assert_eq!(probe_step(p, over, ProbeEvent::Found(false)), over);
    assert_eq!(probe_request(p, over), Request::Nothing);
}
