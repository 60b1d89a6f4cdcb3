//! The watch mode: what it keeps of the directory that it watches, and
//! what it decides on each scan.
//!
//! Scanning the directory and waiting between scans are the host's part.
//! Times are lengths of time since a file was last changed, in
//! nanoseconds.

use vstd::prelude::*;
use vstd::string::*;
use crate::text::{ends_with, has_suffix, same_text};

verus! {

/// The way in which a directory is watched.
#[derive(Clone, Copy, Debug, PartialEq, Eq, Structural)]
pub enum WatchMode {
    /// The directory is scanned at a fixed interval.
    Default,
}

/// A directory, and whether and how it is watched.
#[derive(Debug)]
pub struct Watcher {
    mode: WatchMode,
    watching: bool,
    watch_dir: String,
}

impl Watcher {
    /// A watcher of `watch_dir`. There is one mode, which is taken
    /// whatever `mode` is.
    pub fn new(mode: Option<WatchMode>, watching: bool, watch_dir: String) -> (r: Self)
        ensures
            r.mode() == WatchMode::Default,
            r.watching() == watching,
            r.directory() == watch_dir@,
    {
        Watcher { mode: WatchMode::Default, watching, watch_dir }
    }

    /// The mode of the watcher.
    pub closed spec fn mode(&self) -> WatchMode {
        self.mode
    }

    /// Whether the directory is being watched.
    pub closed spec fn watching(&self) -> bool {
        self.watching
    }

    /// The directory.
    pub closed spec fn directory(&self) -> Seq<char> {
        self.watch_dir@
    }

    /// The mode of the watcher.
    pub fn get_mode(&self) -> (r: WatchMode)
        ensures
            r == self.mode(),
    {
        self.mode
    }

    /// Whether the directory is being watched.
    pub fn is_watching(&self) -> (r: bool)
        ensures
            r == self.watching(),
    {
        self.watching
    }

    /// The directory.
    pub fn get_watch_dir(&self) -> (r: &str)
        ensures
            r@ == self.directory(),
    {
        self.watch_dir.as_str()
    }
}

/// Whether `least` is the least of `start` and `times`.
pub open spec fn is_least_of(least: u128, start: u128, times: Seq<u128>) -> bool {
    &&& least <= start
    &&& forall|i: int| 0 <= i < times.len() ==> least <= times[i]
    &&& least == start || exists|i: int| 0 <= i < times.len() && least == times[i]
}

/// The shortest time since a file was changed: the least of the times of
/// the files, and `since_epoch` where no file is known or none was changed
/// since.
pub fn get_least_time(since_epoch: u128, elapsed_times: &Vec<u128>) -> (least_time: u128)
    ensures
        is_least_of(least_time, since_epoch, elapsed_times@),
{
    let mut least_time = since_epoch;
    let mut i: usize = 0;
    while i < elapsed_times.len()
        invariant
            i <= elapsed_times.len(),
            is_least_of(least_time, since_epoch, elapsed_times@.take(i as int)),
        decreases elapsed_times.len() - i,
    {
        let ghost before = least_time;
        if elapsed_times[i] < least_time {
            least_time = elapsed_times[i];
        }
        proof {
            let seen = elapsed_times@.take(i as int);
            let more = elapsed_times@.take(i + 1);
            assert(more[i as int] == elapsed_times@[i as int]);
            assert forall|j: int| 0 <= j < more.len() implies least_time <= more[j] by {
                if j < i {
                    assert(seen[j] == more[j]);
                }
            }
            if least_time != since_epoch && least_time == before {
                let k = choose|k: int| 0 <= k < seen.len() && before == seen[k];
                assert(more[k] == seen[k]);
            }
        }
        i += 1;
    }
    assert(elapsed_times@.take(elapsed_times.len() as int) =~= elapsed_times@);
    least_time
}

/// Whether a scan found a change: a file was changed more recently than
/// the most recent change that the scan before it found.
pub fn changed_since(checked_time: u128, recent_file_changed: u128) -> (r: bool)
    ensures
        r == (checked_time < recent_file_changed),
{
    checked_time < recent_file_changed
}

/// Whether a file is left out of watching by its name: the lock file of
/// a package is, and so is a compiled class, a file with the extension
/// `class` after a name that is not empty.
pub open spec fn is_unwatched(file_name: Seq<char>) -> bool {
    ||| file_name == "package-lock.json"@
    ||| (ends_with(file_name, ".class"@) && file_name.len() > ".class"@.len())
}

/// Whether a file is left out of watching by its name.
pub fn skips_file(file_name: &str) -> (r: bool)
    ensures
        r == is_unwatched(file_name@),
{
    same_text(file_name, "package-lock.json") || (has_suffix(file_name, ".class")
        && file_name.unicode_len() > ".class".unicode_len())
}

/// Whether `path` is one of `ignore_dirs`.
pub open spec fn is_ignored(path: Seq<char>, ignore_dirs: Seq<Seq<char>>) -> bool {
    exists|i: int| 0 <= i < ignore_dirs.len() && ignore_dirs[i] == path
}

/// Whether the scan enters the directory `path`: it does unless the
/// directory is one of `ignore_dirs`.
pub fn enters_directory(path: &str, ignore_dirs: &Vec<String>) -> (r: bool)
    ensures
        r == !is_ignored(path@, crate::text::texts(ignore_dirs@)),
{
    let mut i: usize = 0;
    while i < ignore_dirs.len()
        invariant
            i <= ignore_dirs.len(),
            forall|j: int| 0 <= j < i ==> ignore_dirs@[j]@ != path@,
        decreases ignore_dirs.len() - i,
    {
        if same_text(ignore_dirs[i].as_str(), path) {
            assert(crate::text::texts(ignore_dirs@)[i as int] == path@);
            return false;
        }
        i += 1;
    }
    assert forall|j: int| 0 <= j < ignore_dirs@.len() implies crate::text::texts(
        ignore_dirs@,
    )[j] != path@ by {
        assert(crate::text::texts(ignore_dirs@)[j] == ignore_dirs@[j]@);
    }
    true
}

} // verus!
