//! The cache itself: which file holds the entry for an artifact name.

use vstd::prelude::*;
use vstd::string::*;
use crate::digest::DigestData;
use crate::digits::decimal_string;
use crate::errors::NamingError;
use crate::layout::{
    entry_name, is_valid_stem, law_entry_name_is_one_component, lemma_entry_name_injective,
    lemma_first_dot, lemma_marker_name_is_one_component, lemma_stem_of, marker_name, no_separator,
    stem, stem_of, valid_stem,
};
use crate::marker::WaitPolicy;

verus! {

/// A file in a cache directory: the directory as it was configured, and the
/// file's name in it. The paths that a cache resolves have a name without
/// separator, so that they are files of that directory itself.
#[derive(Debug, PartialEq, Eq)]
pub struct CachePath {
    pub dir: String,
    pub file_name: String,
}

/// A `CachePath` as two texts.
pub struct PathModel {
    pub dir: Seq<char>,
    pub file_name: Seq<char>,
}

impl View for CachePath {
    type V = PathModel;

    open spec fn view(&self) -> PathModel {
        PathModel { dir: self.dir@, file_name: self.file_name@ }
    }
}

/// A local cache for compiled format files.
///
/// It names the entries of one digest and one format generation in one
/// directory, and carries the bound on the wait for a marker.
#[derive(Debug)]
pub struct FormatCache {
    bundle_digest: DigestData,
    formats_base: String,
    generation: u32,
    policy: WaitPolicy,
}

/// A `FormatCache` as plain values.
pub struct CacheModel {
    pub digest: Seq<u8>,
    pub dir: Seq<char>,
    pub generation: nat,
    pub policy: WaitPolicy,
}

impl View for FormatCache {
    type V = CacheModel;

    closed spec fn view(&self) -> CacheModel {
        CacheModel {
            digest: self.bundle_digest@,
            dir: self.formats_base@,
            generation: self.generation as nat,
            policy: self.policy,
        }
    }
}

/// The path of the entry that a cache keeps for a stem.
pub open spec fn entry_path(cache: CacheModel, stem: Seq<char>) -> PathModel {
    PathModel { dir: cache.dir, file_name: entry_name(cache.digest, stem, cache.generation) }
}

/// The path of the marker that belongs to the entry at `path`.
pub open spec fn marker_path(path: PathModel) -> PathModel {
    PathModel { dir: path.dir, file_name: marker_name(path.file_name) }
}

impl FormatCache {
    /// A cache in the directory `formats_base` for the resources that
    /// `bundle_digest` identifies and the given format generation, with the
    /// standard bound on waits.
    pub fn new(bundle_digest: DigestData, formats_base: String, generation: u32) -> (r:
        FormatCache)
        ensures
            r@.digest == bundle_digest@,
            r@.dir == formats_base@,
            r@.generation == generation,
            r@.policy == (WaitPolicy { attempts: 20, interval_ms: 100 }),
            r@.digest.len() == 32,
    {
        FormatCache { bundle_digest, formats_base, generation, policy: WaitPolicy::standard() }
    }

    /// The same cache with another bound on waits.
    pub fn with_wait_policy(self, policy: WaitPolicy) -> (r: FormatCache)
        ensures
            r@ == (CacheModel { policy: policy, ..self@ }),
    {
        FormatCache {
            bundle_digest: self.bundle_digest,
            formats_base: self.formats_base,
            generation: self.generation,
            policy,
        }
    }

    /// The bound on waits.
    pub fn wait_policy(&self) -> (r: WaitPolicy)
        ensures
            r == self@.policy,
    {
        self.policy
    }

    /// Every cache is made for a digest of 32 bytes.
    pub proof fn lemma_digest_len(&self)
        ensures
            self@.digest.len() == 32,
    {
    }

    /// The path of the entry for the artifact `name`; it may or may not
    /// exist. Only what stands before the first `.` of `name` counts. A name
    /// with nothing there, or with a `/`, a `\` or a NUL there, is refused,
    /// with the name in the error. The file name of a resolved path is one
    /// path component: the entry is a file of the cache directory itself.
    pub fn path_for_format(&self, name: &str) -> (r: Result<CachePath, NamingError>)
        ensures
            r is Ok <==> stem_of(name@).len() > 0 && valid_stem(stem_of(name@)),
            r matches Ok(p) ==> p@ == entry_path(self@, stem_of(name@)) && no_separator(
                p@.file_name,
            ),
            r matches Err(e) ==> e.name@ == name@,
    {
        let stem = stem(name);
        if stem.unicode_len() == 0 || !is_valid_stem(stem) {
            return Err(NamingError { name: String::from_str(name) });
        }
        proof {
            law_entry_name_is_one_component(self@.digest, stem@, self@.generation);
        }
        let mut file_name = self.bundle_digest.to_string();
        file_name.append("-");
        file_name.append(stem);
        file_name.append("-");
        let serial = decimal_string(self.generation);
        file_name.append(serial.as_str());
        file_name.append(".fmt");
        proof {
            reveal_strlit("-");
            reveal_strlit(".fmt");
            assert("-"@ =~= seq!['-']);
            assert(".fmt"@ =~= seq!['.', 'f', 'm', 't']);
        }
        Ok(CachePath { dir: self.formats_base.clone(), file_name })
    }

    /// The path of the marker for the entry at `path`: the same directory,
    /// and the file name with `.ok` behind it, which is one path component
    /// where the entry's is.
    pub fn path_for_format_marker(path: &CachePath) -> (r: CachePath)
        ensures
            r@ == marker_path(path@),
            no_separator(path@.file_name) ==> no_separator(r@.file_name),
    {
        let mut file_name = path.file_name.clone();
        file_name.append(".ok");
        proof {
            reveal_strlit(".ok");
            assert(".ok"@ =~= seq!['.', 'o', 'k']);
            if no_separator(path@.file_name) {
                lemma_marker_name_is_one_component(path@.file_name);
            }
        }
        CachePath { dir: path.dir.clone(), file_name }
    }
}

/// Two caches give two stems the same entry path exactly when they agree in
/// directory, digest and format generation and the stems are the same: the
/// path is a function of the key, and no two keys share one.
pub proof fn law_entry_path_identifies_key(
    a: FormatCache,
    b: FormatCache,
    s: Seq<char>,
    t: Seq<char>,
)
    ensures
        entry_path(a@, s) == entry_path(b@, t) <==> a@.dir == b@.dir && a@.digest == b@.digest
            && a@.generation == b@.generation && s == t,
{
    a.lemma_digest_len();
    b.lemma_digest_len();
    if entry_path(a@, s) == entry_path(b@, t) {
        lemma_entry_name_injective(a@.digest, s, a@.generation, b@.digest, t, b@.generation);
    }
}

/// The marker of an entry is a file of its own, and equal markers belong
/// to equal entries.
pub proof fn law_marker_path_identifies_entry(p: PathModel, q: PathModel)
    ensures
        marker_path(p) != p,
        marker_name(p.file_name) != p.file_name,
        marker_path(p) == marker_path(q) <==> p == q,
{
    assert(marker_name(p.file_name).len() == p.file_name.len() + 3);
    if marker_path(p) == marker_path(q) {
        assert(marker_name(q.file_name).len() == q.file_name.len() + 3);
        assert(p.file_name =~= marker_name(p.file_name).take(p.file_name.len() as int));
        assert(q.file_name =~= marker_name(q.file_name).take(q.file_name.len() as int));
    }
}

/// What follows the first `.` of a name does not count: a stem without `.`,
/// followed by `.` and any text, has that stem.
pub proof fn law_suffix_ignored(stem: Seq<char>, suffix: Seq<char>)
    requires
        forall|i: int| 0 <= i < stem.len() ==> stem[i] != '.',
    ensures
        stem_of(stem + seq!['.'] + suffix) == stem,
        stem_of(stem) == stem,
{
    let name = stem + seq!['.'] + suffix;
    lemma_first_dot(name, stem.len() as int);
    assert(name.take(stem.len() as int) =~= stem);
    lemma_first_dot(stem, stem.len() as int);
    assert(stem.take(stem.len() as int) =~= stem);
}

/// A name has no stem exactly when it is empty or begins with `.`: the
/// cache refuses those, and the names whose stem holds a separator.
pub proof fn law_names_without_stem(name: Seq<char>)
    ensures
        stem_of(name).len() == 0 <==> name.len() == 0 || name[0] == '.',
{
    lemma_stem_of(name);
}

} // verus!
