//! Advisory locking of important files through marker files.
//!
//! A file is locked while a marker file, at the file's path with its extension
//! replaced by `lock`, exists. The library decides; the caller checks for the
//! marker, creates it on success and removes it when the lock is let go.

use vstd::prelude::*;

verus! {

/// The marker path for a guarded path, as std's `Path::with_extension` makes it.
pub uninterp spec fn lock_marker(path: Seq<char>) -> Seq<char>;

/// Relies on std's `Path::with_extension`: the path with its extension
/// replaced by `lock`, which depends on the path alone. A path made from a
/// `str` stays valid UTF-8, so the lossy conversion loses nothing.
#[verifier::external_body]
fn marker_for(path: &str) -> (r: String)
    ensures
        r@ == lock_marker(path@),
{
    std::path::Path::new(path).with_extension("lock").to_string_lossy().into_owned()
}

/// The marker path for `path`: its extension replaced by `lock`.
pub fn lock_path(path: &str) -> (r: String)
    ensures
        r@ == lock_marker(path@),
{
    marker_for(path)
}

/// A lock on an important file, held while its marker file exists.
#[derive(Debug)]
pub struct Lock {
    path: String,
}

/// The guarded path was locked already.
#[derive(Debug, Clone, Copy, PartialEq, Eq, Structural)]
pub struct AlreadyLocked;

impl Lock {
    /// The marker file that stands for this lock.
    pub closed spec fn marker(&self) -> Seq<char> {
        self.path@
    }

    /// The path of the marker file, to be removed when the lock is let go.
    pub fn marker_path(&self) -> (r: &str)
        ensures
            r@ == self.marker(),
    {
        self.path.as_str()
    }
}

/// Locks `path`, given whether its marker file is present already.
///
/// Fails exactly where the marker is present; otherwise the caller creates the
/// marker file that the returned lock names.
pub fn lock(path: &str, marker_present: bool) -> (r: Result<Lock, AlreadyLocked>)
    ensures
        r is Err <==> marker_present,
        r matches Ok(l) ==> l.marker() == lock_marker(path@),
{
    if marker_present {
        Err(AlreadyLocked)
    } else {
        Ok(Lock { path: marker_for(path) })
    }
}

/// One lock attempt on `path` against the set of marker files present: whether
/// it succeeds, and the markers present after it.
pub open spec fn acquire(markers: Set<Seq<char>>, path: Seq<char>) -> (bool, Set<Seq<char>>) {
    if markers.contains(lock_marker(path)) {
        (false, markers)
    } else {
        (true, markers.insert(lock_marker(path)))
    }
}

/// The markers present once a lock is let go.
pub open spec fn release(markers: Set<Seq<char>>, path: Seq<char>) -> Set<Seq<char>> {
    markers.remove(lock_marker(path))
}

/// Of two lock attempts in a row on one free path only the first succeeds;
/// once that lock is let go, the next attempt succeeds again.
pub proof fn lemma_exclusive(markers: Set<Seq<char>>, path: Seq<char>)
    requires
        !markers.contains(lock_marker(path)),
    ensures
        ({
            let first = acquire(markers, path);
            let second = acquire(first.1, path);
            let third = acquire(release(second.1, path), path);
            first.0 && !second.0 && third.0
        }),
{
}

} // verus!
