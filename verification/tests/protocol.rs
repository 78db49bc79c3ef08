use std::collections::HashMap;

use format_cache::cache::FormatCache;
use format_cache::digest::DigestData;
use format_cache::errors::{CacheError, NamingError};
use format_cache::lookup::{Lookup, OpenResult, ReaderState};
use format_cache::marker::{Event, ProbeState, Request, WaitPolicy};
use format_cache::publish::{Publish, WriterState};

/// A directory in memory: file names and what the files hold.
struct Dir {
    files: HashMap<String, Vec<u8>>,
    sleeps: u32,
}

fn empty_dir() -> Dir {
    Dir { files: HashMap::new(), sleeps: 0 }
}

/// A writer at work: its publish, its bytes, and its staging file if it has one.
struct Writer {
    publish: Publish<String>,
    bytes: Vec<u8>,
    staging: Option<Vec<u8>>,
    log: Vec<Request>,
}

fn cache() -> FormatCache {
    FormatCache::new(DigestData::new([0x5a; 32]), String::from("cache"), 28)
        .with_wait_policy(WaitPolicy { attempts: 3, interval_ms: 1 })
}

fn writer(name: &str, bytes: &[u8]) -> Writer {
    let publish = cache().write_format::<String>(name).unwrap();
    Writer { publish, bytes: bytes.to_vec(), staging: None, log: Vec::new() }
}

/// Carries out the writer's outstanding request on the directory and hands
/// the answer to it. Returns false once the publish is over.
fn advance(dir: &mut Dir, w: Writer) -> (Writer, bool) {
    let Writer { publish, bytes, mut staging, mut log } = w;
    let request = publish.request();
    log.push(request);
    let entry = publish.entry.file_name.clone();
    let marker = publish.marker.file_name.clone();
    let event = match request {
        Request::CreateStaging => {
            staging = Some(Vec::new());
            Event::Done
        }
        Request::WriteStaging => {
            staging = Some(bytes.clone());
            Event::Done
        }
        Request::Publish => {
            if dir.files.contains_key(&entry) {
                Event::Occupied(String::from("exists"))
            } else {
                dir.files.insert(entry, staging.take().unwrap());
                Event::Done
            }
        }
        Request::Mark => {
            dir.files.insert(marker, Vec::new());
            Event::Done
        }
        Request::Discard => {
            staging = None;
            Event::Done
        }
        Request::CheckEntry => Event::Found(dir.files.contains_key(&entry)),
        Request::CheckMarker => Event::Found(dir.files.contains_key(&marker)),
        Request::Sleep(_) => {
            dir.sleeps += 1;
            Event::Slept
        }
        Request::Open => panic!("a publish asked to open the entry"),
        Request::Nothing => return (Writer { publish, bytes, staging, log }, false),
    };
    (Writer { publish: publish.step(event), bytes, staging, log }, true)
}

fn publish_all(dir: &mut Dir, name: &str, bytes: &[u8]) -> (Result<(), CacheError<String>>, Vec<Request>) {
    let mut w = writer(name, bytes);
    for _ in 0..1000 {
        let (next, going) = advance(dir, w);
        w = next;
        if !going {
            assert!(w.staging.is_none());
            assert!(w.publish.is_finished());
            return (w.publish.finish().unwrap(), w.log);
        }
    }
    panic!("the publish did not end");
}

fn lookup_all(dir: &mut Dir, name: &str) -> (OpenResult<String>, Option<Vec<u8>>) {
    let mut l: Lookup<String> = match cache().input_open_format(name) {
        Ok(l) => l,
        Err(e) => return (OpenResult::Failed(e), None),
    };
    let mut read: Option<Vec<u8>> = None;
    for _ in 0..1000 {
        let entry = l.entry.file_name.clone();
        let marker = l.marker.file_name.clone();
        let event = match l.request() {
            Request::CheckEntry => Event::Found(dir.files.contains_key(&entry)),
            Request::CheckMarker => Event::Found(dir.files.contains_key(&marker)),
            Request::Sleep(_) => {
                dir.sleeps += 1;
                Event::Slept
            }
            Request::Open => match dir.files.get(&entry) {
                Some(b) => {
                    read = Some(b.clone());
                    Event::Done
                }
                None => Event::Missing,
            },
            Request::Nothing => return (l.finish().unwrap(), read),
            other => panic!("a lookup asked for {:?}", other),
        };
        l = l.step(event);
    }
    panic!("the lookup did not end");
}

#[test]
fn lookup_misses_then_hits_after_publish() {
    let mut dir = empty_dir();
    assert_eq!(lookup_all(&mut dir, "x"), (OpenResult::NotAvailable, None));
    assert_eq!(dir.sleeps, 0);
    let (r, log) = publish_all(&mut dir, "x", b"format bytes");
    assert_eq!(r, Ok(()));
    assert_eq!(
        log,
        vec![Request::CreateStaging, Request::WriteStaging, Request::Publish, Request::Mark, Request::Nothing]
    );
    assert_eq!(lookup_all(&mut dir, "x.fmt"), (OpenResult::Opened, Some(b"format bytes".to_vec())));
    assert_eq!(dir.files.len(), 2);
    let name = format!("{}-x-28.fmt", "5a".repeat(32));
    assert_eq!(dir.files.get(&name), Some(&b"format bytes".to_vec()));
    assert!(dir.files.contains_key(&format!("{}.ok", name)));
}

#[test]
fn second_publish_succeeds_and_leaves_the_bytes() {
    let mut dir = empty_dir();
    assert_eq!(publish_all(&mut dir, "x", b"first").0, Ok(()));
    let (r, log) = publish_all(&mut dir, "x", b"first");
    assert_eq!(r, Ok(()));
    assert_eq!(
        log,
        vec![
            Request::CreateStaging,
            Request::WriteStaging,
            Request::Publish,
            Request::Discard,
            Request::CheckEntry,
            Request::CheckMarker,
            Request::Nothing
        ]
    );
    assert_eq!(publish_all(&mut dir, "x", b"other").0, Ok(()));
    assert_eq!(lookup_all(&mut dir, "x"), (OpenResult::Opened, Some(b"first".to_vec())));
    assert_eq!(dir.files.len(), 2);
}

#[test]
fn two_racing_writers_both_succeed_and_one_file_wins() {
    for first in 0..2 {
        let mut dir = empty_dir();
        let mut a = writer("x", b"bytes of a");
        let mut b = writer("x", b"bytes of b, which are longer");
        let mut a_going = true;
        let mut b_going = true;
        let mut turn = first;
        for _ in 0..1000 {
            if turn % 2 == 0 && a_going {
                let (n, g) = advance(&mut dir, a);
                a = n;
                a_going = g;
            } else if b_going {
                let (n, g) = advance(&mut dir, b);
                b = n;
                b_going = g;
            }
            turn += 1;
        }
        assert!(!a_going && !b_going);
        assert_eq!(a.publish.finish(), Some(Ok(())));
        assert_eq!(b.publish.finish(), Some(Ok(())));
        assert!(a.staging.is_none() && b.staging.is_none());
        assert_eq!(dir.files.len(), 2);
        let (r, read) = lookup_all(&mut dir, "x");
        assert_eq!(r, OpenResult::Opened);
        let read = read.unwrap();
        assert!(read == b"bytes of a".to_vec() || read == b"bytes of b, which are longer".to_vec());
    }
}

#[test]
fn entry_without_marker_is_never_read() {
    let mut dir = empty_dir();
    // a writer that dies after the rename and before the marker
    let mut w = writer("x", b"partial");
    while w.publish.request() != Request::Mark {
        w = advance(&mut dir, w).0;
    }
    assert_eq!(dir.files.len(), 1);
    for _ in 0..3 {
        let (r, read) = lookup_all(&mut dir, "x");
        assert_eq!(r, OpenResult::Failed(CacheError::TimedOut));
        assert_eq!(read, None);
    }
    assert_eq!(dir.sleeps, 9);
    // a later writer loses the race against the dead one and says so
    let (r, _) = publish_all(&mut dir, "x", b"whole");
    assert_eq!(r, Err(CacheError::TimedOut));
    assert_eq!(dir.files.len(), 1);
}

#[test]
fn naming_error_comes_before_any_request() {
    let l = cache().input_open_format::<String>(".fmt");
    assert_eq!(l.err(), Some(CacheError::Naming(NamingError { name: String::from(".fmt") })));
    let p = cache().write_format::<String>("");
    assert_eq!(p.err(), Some(CacheError::Naming(NamingError { name: String::new() })));
    let mut dir = empty_dir();
    let (r, read) = lookup_all(&mut dir, ".ext");
    assert_eq!(r, OpenResult::Failed(CacheError::Naming(NamingError { name: String::from(".ext") })));
    assert_eq!(read, None);
}

#[test]
fn sessions_carry_the_paths_and_the_policy() {
    let p = cache().write_format::<String>("latex.fmt").unwrap();
    assert_eq!(p.entry.dir, "cache");
    assert_eq!(p.entry.file_name, format!("{}-latex-28.fmt", "5a".repeat(32)));
    assert_eq!(p.marker.file_name, format!("{}-latex-28.fmt.ok", "5a".repeat(32)));
    assert_eq!(p.policy, WaitPolicy { attempts: 3, interval_ms: 1 });
    assert_eq!(p.state, WriterState::Creating);
    assert_eq!(p.finish(), None);
    let l = cache().input_open_format::<String>("latex.fmt").unwrap();
    assert_eq!(l.entry.file_name, format!("{}-latex-28.fmt", "5a".repeat(32)));
    assert_eq!(l.marker.file_name, format!("{}-latex-28.fmt.ok", "5a".repeat(32)));
    assert_eq!(l.state, ReaderState::Probing(ProbeState::Entry));
    assert!(!l.is_finished());
    let standard = FormatCache::new(DigestData::new([0; 32]), String::from("d"), 1);
    assert_eq!(standard.wait_policy(), WaitPolicy::standard());
}

fn at(state: WriterState<String>) -> Publish<String> {
    let mut p = cache().write_format::<String>("x").unwrap();
    p.state = state;
    p
}

fn io(text: &str) -> Result<(), CacheError<String>> {
    Err(CacheError::Io(String::from(text)))
}

#[test]
fn failure_to_create_the_staging_file_ends_the_publish() {
    let p = at(WriterState::Creating).step(Event::Failed(String::from("read-only")));
    assert_eq!(p.state, WriterState::Finished(io("read-only")));
    assert_eq!(p.request(), Request::Nothing);
}

#[test]
fn failure_to_write_discards_the_staging_file() {
    let p = at(WriterState::Writing).step(Event::Failed(String::from("disk full")));
    assert_eq!(p.state, WriterState::Discarding { cause: String::from("disk full"), raced: false });
    assert_eq!(p.request(), Request::Discard);
    let p = p.step(Event::Done);
    assert_eq!(p.finish(), Some(io("disk full")));
}

#[test]
fn other_rename_failure_is_handed_on_without_a_wait() {
    let p = at(WriterState::Publishing).step(Event::Failed(String::from("cross-device")));
    assert_eq!(p.request(), Request::Discard);
    let p = p.step(Event::Failed(String::from("ignored")));
    assert_eq!(p.finish(), Some(io("cross-device")));
}

#[test]
fn failure_to_set_the_marker_is_an_error() {
    let p = at(WriterState::Marking).step(Event::Failed(String::from("denied")));
    assert_eq!(p.finish(), Some(io("denied")));
}

#[test]
fn lost_race_waits_for_the_marker() {
    let p = at(WriterState::Publishing).step(Event::Occupied(String::from("exists")));
    assert_eq!(p.request(), Request::Discard);
    let p = p.step(Event::Done);
    assert_eq!(p.request(), Request::CheckEntry);
    let p = p.step(Event::Found(true));
    assert_eq!(p.request(), Request::CheckMarker);
    let p = p.step(Event::Found(false));
    assert_eq!(p.request(), Request::Sleep(1));
    let p = p.step(Event::Slept);
    assert_eq!(p.request(), Request::CheckMarker);
    let p = p.step(Event::Found(true));
    assert_eq!(p.finish(), Some(Ok(())));
}

#[test]
fn lost_race_whose_entry_has_gone_reports_the_rename() {
    let p = at(WriterState::Publishing)
        .step(Event::Occupied(String::from("exists")))
        .step(Event::Done)
        .step(Event::Found(false));
    assert_eq!(p.finish(), Some(io("exists")));
}

#[test]
fn publish_ignores_what_answers_nothing() {
    let p = at(WriterState::Creating).step(Event::Slept).step(Event::Found(true)).step(Event::Missing);
    assert_eq!(p.state, WriterState::Creating);
    let p = at(WriterState::Finished(Ok(()))).step(Event::Failed(String::from("late")));
    assert_eq!(p.state, WriterState::Finished(Ok(())));
}

fn looking(state: ReaderState<String>) -> Lookup<String> {
    let mut l = cache().input_open_format::<String>("x").unwrap();
    l.state = state;
    l
}

#[test]
fn entry_that_vanished_before_the_open_is_a_miss() {
    let l = looking(ReaderState::Opening).step(Event::Missing);
    assert_eq!(l.finish(), Some(OpenResult::NotAvailable));
}

#[test]
fn failure_to_open_is_an_error() {
    let l = looking(ReaderState::Opening).step(Event::Failed(String::from("denied")));
    assert_eq!(l.finish(), Some(OpenResult::Failed(CacheError::Io(String::from("denied")))));
}

#[test]
fn lookup_opens_only_after_the_marker_was_found() {
    let l = looking(ReaderState::Probing(ProbeState::Entry)).step(Event::Found(true));
    assert_eq!(l.request(), Request::CheckMarker);
    let l = l.step(Event::Done);
    assert_eq!(l.request(), Request::CheckMarker);
    let l = l.step(Event::Found(true));
    assert_eq!(l.state, ReaderState::Opening);
    assert_eq!(l.request(), Request::Open);
    let l = l.step(Event::Done);
    assert_eq!(l.finish(), Some(OpenResult::Opened));
}

#[test]
fn name_with_a_separator_is_refused_before_any_request() {
    for name in ["a/b", "/x.fmt", "a\\b", "a\0.fmt"] {
        let refused = CacheError::Naming(NamingError { name: String::from(name) });
        assert_eq!(cache().write_format::<String>(name).err(), Some(refused));
        let refused = CacheError::Naming(NamingError { name: String::from(name) });
        assert_eq!(cache().input_open_format::<String>(name).err(), Some(refused));
        let mut dir = empty_dir();
        let (r, read) = lookup_all(&mut dir, name);
        assert_eq!(r, OpenResult::Failed(CacheError::Naming(NamingError { name: String::from(name) })));
        assert_eq!(read, None);
        assert!(dir.files.is_empty());
        assert_eq!(dir.sleeps, 0);
    }
}

#[test]
fn loser_succeeds_when_the_marker_comes_within_its_wait() {
    let mut dir = empty_dir();
    let mut a = writer("x", b"bytes of a");
    while a.publish.request() != Request::Mark {
        a = advance(&mut dir, a).0;
    }
    // the loser looks twice in vain and sleeps twice; one look is left
    let mut b = writer("x", b"bytes of b");
    while dir.sleeps < 2 {
        b = advance(&mut dir, b).0;
    }
    assert_eq!(b.publish.request(), Request::CheckMarker);
    assert!(!b.publish.is_finished());
    a = advance(&mut dir, a).0;
    assert_eq!(a.publish.finish(), Some(Ok(())));
    b = advance(&mut dir, b).0;
    assert!(b.staging.is_none());
    assert_eq!(b.publish.finish(), Some(Ok(())));
    assert_eq!(dir.files.len(), 2);
    assert_eq!(lookup_all(&mut dir, "x"), (OpenResult::Opened, Some(b"bytes of a".to_vec())));
}
