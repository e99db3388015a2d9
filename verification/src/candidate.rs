//! What a walk of a source tree reports about one entry.

use vstd::prelude::*;

verus! {

/// The deepest parent depth from which entries are taken: an entry lies
/// directly under the source root (depth 0) or one level further down (depth 1).
pub const MAX_PARENT_DEPTH: usize = 1;

/// Seconds in one day, the unit in which modification times are compared.
pub const SECONDS_PER_DAY: u64 = 86_400;

/// The day, counted from the epoch, into which a time in seconds falls. A time
/// before the epoch falls into a day before day 0.
pub open spec fn day_of(seconds: int) -> int {
    seconds / SECONDS_PER_DAY as int
}

/// One entry of a source tree, as found by a walk.
#[derive(Clone, Debug)]
pub struct FileCandidate {
    /// Where the entry lies.
    pub path: String,
    /// Its base name, the last component of `path`.
    pub file_name: String,
    /// How many directories lie between the source root and the entry.
    pub depth: usize,
    /// Whether the entry is a regular file.
    pub is_regular_file: bool,
    /// When it was last modified, in seconds since the epoch; `None` where the
    /// time could not be read.
    pub modified_secs: Option<u64>,
}

/// A `FileCandidate` as contracts see it.
pub struct CandidateView {
    pub path: Seq<char>,
    pub file_name: Seq<char>,
    pub depth: nat,
    pub is_regular_file: bool,
    pub modified_secs: Option<u64>,
}

impl View for FileCandidate {
    type V = CandidateView;

    open spec fn view(&self) -> CandidateView {
        CandidateView {
            path: self.path@,
            file_name: self.file_name@,
            depth: self.depth as nat,
            is_regular_file: self.is_regular_file,
            modified_secs: self.modified_secs,
        }
    }
}

impl CandidateView {
    /// The entry is a regular file within the depth that a walk covers.
    pub open spec fn in_reach(self) -> bool {
        self.is_regular_file && self.depth <= MAX_PARENT_DEPTH
    }

    /// The entry's modification time is known and falls into the same day as `now_secs`.
    pub open spec fn modified_on_day_of(self, now_secs: i64) -> bool {
        match self.modified_secs {
            Some(modified) => day_of(modified as int) == day_of(now_secs as int),
            None => false,
        }
    }
}

/// The views of a list of entries, in the list's order.
pub open spec fn candidate_views(entries: Seq<FileCandidate>) -> Seq<CandidateView> {
    entries.map_values(|c: FileCandidate| c@)
}

impl FileCandidate {
    /// A regular file at `path`, named `file_name`, `depth` directories below the source root.
    pub fn new(path: String, file_name: String, depth: usize, modified_secs: Option<u64>) -> (entry:
        FileCandidate)
        ensures
            entry@ == (CandidateView {
                path: path@,
                file_name: file_name@,
                depth: depth as nat,
                is_regular_file: true,
                modified_secs,
            }),
    {
        FileCandidate { path, file_name, depth, is_regular_file: true, modified_secs }
    }

    /// Whether the entry is a regular file within the depth that a walk covers.
    pub fn in_reach(&self) -> (reached: bool)
        ensures
            reached == self@.in_reach(),
    {
        self.is_regular_file && self.depth <= MAX_PARENT_DEPTH
    }

    /// Whether the entry was last modified on the day into which `now_secs` falls.
    /// An entry whose modification time is unknown was not.
    pub fn modified_on_day_of(&self, now_secs: i64) -> (same_day: bool)
        ensures
            same_day == self@.modified_on_day_of(now_secs),
    {
        match self.modified_secs {
            Some(modified) => {
                if now_secs < 0 {
                    false
                } else {
                    modified / SECONDS_PER_DAY == (now_secs as u64) / SECONDS_PER_DAY
                }
            },
            None => false,
        }
    }
}

} // verus!
