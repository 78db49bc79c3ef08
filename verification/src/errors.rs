//! What can go wrong in the cache.

use vstd::prelude::*;

verus! {

/// An artifact name from which no cache entry can be named: nothing stands
/// before its first `.`, or what stands there holds a `/`, a `\` or a NUL.
#[derive(Debug, PartialEq, Eq)]
pub struct NamingError {
    /// The name as the caller gave it.
    pub name: String,
}

impl NamingError {
    /// A sentence for diagnostics, holding the rejected name.
    pub fn message(&self) -> (r: String)
        ensures
            r@ == "incomprehensible format file name \""@ + self.name@ + "\""@,
    {
        let head = String::from_str("incomprehensible format file name \"");
        head.concat(self.name.as_str()).concat("\"")
    }
}

/// The failures of a lookup or a publish. `E` is the caller's own value for
/// a failure of the file system; the cache hands it on as it came.
#[derive(Debug, PartialEq, Eq)]
pub enum CacheError<E> {
    /// The artifact name has no stem, or one that cannot be part of a
    /// file's name.
    Naming(NamingError),
    /// An entry stayed without its marker for the whole bounded wait.
    TimedOut,
    /// The file system failed in a way that is not the sign of a lost race.
    Io(E),
}

} // verus!
