use vstd::prelude::*;

verus! {

/// File status in git
#[derive(Debug, Clone, Copy, PartialEq, Eq, Structural)]
pub enum FileStatus {
    Modified,
    Added,
    Deleted,
    Renamed,
    Unchanged,
}

impl FileStatus {
    /// The one-letter marker shown next to a file.
    pub open spec fn spec_as_char(self) -> char {
        match self {
            FileStatus::Modified => 'M',
            FileStatus::Added => 'A',
            FileStatus::Deleted => 'D',
            FileStatus::Renamed => 'R',
            FileStatus::Unchanged => ' ',
        }
    }

    pub fn as_char(&self) -> (c: char)
        ensures
            c == self.spec_as_char(),
    {
        match self {
            FileStatus::Modified => 'M',
            FileStatus::Added => 'A',
            FileStatus::Deleted => 'D',
            FileStatus::Renamed => 'R',
            FileStatus::Unchanged => ' ',
        }
    }

    /// The marker as text, for display.
    pub fn to_text(&self) -> (s: String)
        ensures
            s@ == seq![self.spec_as_char()],
    {
        let mut s = String::new();
        s.push(self.as_char());
        s
    }
}

/// A file with its status
#[derive(Debug, Clone)]
pub struct StatusEntry {
    pub path: String,
    pub status: FileStatus,
    /// True if file has uncommitted changes
    pub uncommitted: bool,
}

/// Diff statistics
#[derive(Debug, Clone)]
pub struct DiffStats {
    pub added: usize,
    pub removed: usize,
}

impl Default for DiffStats {
    fn default() -> (s: Self)
        ensures
            s.added == 0,
            s.removed == 0,
    {
        DiffStats { added: 0, removed: 0 }
    }
}

/// Blame information for a single line
#[derive(Debug, Clone)]
pub struct BlameInfo {
    pub line: usize,
    pub author: String,
    pub date: String,
    pub commit_id: String,
    pub summary: String,
}

/// Blame data for a file
#[derive(Debug, Clone)]
pub struct FileBlame {
    pub path: String,
    pub lines: Vec<BlameInfo>,
}

impl Default for FileBlame {
    fn default() -> (b: Self)
        ensures
            b.path@.len() == 0,
            b.lines@.len() == 0,
    {
        FileBlame { path: String::new(), lines: Vec::new() }
    }
}

/// One entry of the commit log.
#[derive(Debug, Clone)]
pub struct Commit {
    pub hash: String,
    pub author: String,
    pub date: String,
    pub subject: String,
}

/// The text of a commit's fields.
pub struct CommitView {
    pub hash: Seq<char>,
    pub author: Seq<char>,
    pub date: Seq<char>,
    pub subject: Seq<char>,
}

impl View for Commit {
    type V = CommitView;

    open spec fn view(&self) -> CommitView {
        CommitView {
            hash: self.hash@,
            author: self.author@,
            date: self.date@,
            subject: self.subject@,
        }
    }
}

/// The deepest single-commit step the timeline offers.
pub const MAX_COMMIT_DEPTH: usize = 16;

/// Timeline position for viewing PR history
/// Order: Browse → Wip → FullDiff → -1 → -2 → ... → -16
/// FullDiff is the default (primary code review view)
#[derive(Debug, Clone, Copy, PartialEq, Eq, Structural)]
pub enum TimelinePosition {
    /// Browse full file content (no diff)
    Browse,
    /// View only uncommitted changes: HEAD → working tree
    Wip,
    /// View all committed changes: base → HEAD (default)
    FullDiff,
    /// View changes from a single commit: HEAD~N → HEAD~(N-1)
    CommitDiff(usize),
}

/// One end of a range of history.
#[derive(Debug, Clone, Copy, PartialEq, Eq, Structural)]
pub enum Revision {
    /// The commit that the branch started from.
    Base,
    /// The commit so many steps before `HEAD`; zero steps is `HEAD` itself.
    Ancestor(usize),
    /// The files as they are on disk.
    WorkingTree,
}

/// The range of history whose changes a position shows.
#[derive(Debug, Clone, Copy, PartialEq, Eq, Structural)]
pub struct RevisionRange {
    pub from: Revision,
    pub to: Revision,
}

impl Default for TimelinePosition {
    fn default() -> (p: Self)
        ensures
            p == TimelinePosition::FullDiff,
    {
        TimelinePosition::FullDiff
    }
}

impl TimelinePosition {
    /// The largest `n` for which `CommitDiff(n)` can be reached with `max_commits` commits.
    pub open spec fn cap(max_commits: usize) -> usize {
        if max_commits < MAX_COMMIT_DEPTH {
            max_commits
        } else {
            MAX_COMMIT_DEPTH
        }
    }

    /// A single-commit position counts from one.
    pub open spec fn in_domain(self) -> bool {
        self matches TimelinePosition::CommitDiff(n) ==> n >= 1
    }

    /// A position that `max_commits` commits allow.
    pub open spec fn within(self, max_commits: usize) -> bool {
        self matches TimelinePosition::CommitDiff(n) ==> 1 <= n <= Self::cap(max_commits)
    }

    /// Place in the order Browse < Wip < FullDiff < CommitDiff(1) < CommitDiff(2) < ...
    pub open spec fn rank(self) -> int {
        match self {
            TimelinePosition::Browse => 0,
            TimelinePosition::Wip => 1,
            TimelinePosition::FullDiff => 2,
            TimelinePosition::CommitDiff(n) => 2 + n,
        }
    }

    pub open spec fn spec_next(self, max_commits: usize) -> Self {
        match self {
            TimelinePosition::Browse => TimelinePosition::Wip,
            TimelinePosition::Wip => TimelinePosition::FullDiff,
            TimelinePosition::FullDiff => if max_commits > 0 {
                TimelinePosition::CommitDiff(1)
            } else {
                TimelinePosition::FullDiff
            },
            TimelinePosition::CommitDiff(n) => if n < Self::cap(max_commits) {
                TimelinePosition::CommitDiff((n + 1) as usize)
            } else {
                self
            },
        }
    }

    pub open spec fn spec_prev(self) -> Self {
        match self {
            TimelinePosition::Browse => TimelinePosition::Browse,
            TimelinePosition::Wip => TimelinePosition::Browse,
            TimelinePosition::FullDiff => TimelinePosition::Wip,
            TimelinePosition::CommitDiff(n) => if n <= 1 {
                TimelinePosition::FullDiff
            } else {
                TimelinePosition::CommitDiff((n - 1) as usize)
            },
        }
    }

    /// The range that a position selects: uncommitted changes run from `HEAD` to the
    /// working tree, the full diff from the base to `HEAD`, and the diff of commit `n`
    /// from `HEAD~n` to `HEAD~(n-1)`. Browsing shows files, not a range.
    pub open spec fn spec_range(self) -> Option<RevisionRange> {
        match self {
            TimelinePosition::Browse => None,
            TimelinePosition::Wip => Some(
                RevisionRange { from: Revision::Ancestor(0), to: Revision::WorkingTree },
            ),
            TimelinePosition::FullDiff => Some(
                RevisionRange { from: Revision::Base, to: Revision::Ancestor(0) },
            ),
            TimelinePosition::CommitDiff(n) => Some(
                RevisionRange {
                    from: Revision::Ancestor(n),
                    to: Revision::Ancestor((n - 1) as usize),
                },
            ),
        }
    }

    /// The range of history to ask the repository for.
    pub fn range(self) -> (r: Option<RevisionRange>)
        requires
            self.in_domain(),
        ensures
            r == self.spec_range(),
    {
        match self {
            TimelinePosition::Browse => None,
            TimelinePosition::Wip => Some(
                RevisionRange { from: Revision::Ancestor(0), to: Revision::WorkingTree },
            ),
            TimelinePosition::FullDiff => Some(
                RevisionRange { from: Revision::Base, to: Revision::Ancestor(0) },
            ),
            TimelinePosition::CommitDiff(n) => Some(
                RevisionRange { from: Revision::Ancestor(n), to: Revision::Ancestor(n - 1) },
            ),
        }
    }

    /// Move to next position (towards older commits: Browse → Wip → FullDiff → -1 → -2 → ...)
    pub fn next(self, max_commits: usize) -> (p: Self)
        ensures
            p == self.spec_next(max_commits),
            self.within(max_commits) ==> p.within(max_commits),
    {
        match self {
            TimelinePosition::Browse => TimelinePosition::Wip,
            TimelinePosition::Wip => TimelinePosition::FullDiff,
            TimelinePosition::FullDiff => {
                if max_commits > 0 {
                    TimelinePosition::CommitDiff(1)
                } else {
                    TimelinePosition::FullDiff
                }
            },
            TimelinePosition::CommitDiff(n) => {
                if n < max_commits && n < MAX_COMMIT_DEPTH {
                    TimelinePosition::CommitDiff(n + 1)
                } else {
                    self
                }
            },
        }
    }

    /// Move to previous position (towards newer: ... → -1 → FullDiff → Wip → Browse)
    pub fn prev(self) -> (p: Self)
        requires
            self.in_domain(),
        ensures
            p == self.spec_prev(),
            p.in_domain(),
    {
        match self {
            TimelinePosition::Browse => TimelinePosition::Browse,
            TimelinePosition::Wip => TimelinePosition::Browse,
            TimelinePosition::FullDiff => TimelinePosition::Wip,
            TimelinePosition::CommitDiff(n) => {
                if n == 1 {
                    TimelinePosition::FullDiff
                } else {
                    TimelinePosition::CommitDiff(n - 1)
                }
            },
        }
    }
}

/// Stepping towards older history moves at most one place up the order, and stays put
/// exactly at the oldest position that `max_commits` allows.
pub proof fn lemma_next_advances(p: TimelinePosition, max_commits: usize)
    requires
        p.within(max_commits),
    ensures
        p.spec_next(max_commits).within(max_commits),
        p.spec_next(max_commits).rank() == p.rank() + 1 || p.spec_next(max_commits) == p,
        p.spec_next(max_commits) == p <==> p.rank() == 2 + TimelinePosition::cap(max_commits),
{
}

/// Stepping towards newer history moves at most one place down the order, and stays put
/// exactly at `Browse`.
pub proof fn lemma_prev_retreats(p: TimelinePosition)
    requires
        p.in_domain(),
    ensures
        p.spec_prev().in_domain(),
        p.spec_prev().rank() == p.rank() - 1 || p.spec_prev() == p,
        p.spec_prev() == p <==> p == TimelinePosition::Browse,
{
}

/// `prev` undoes every `next` that moved.
pub proof fn lemma_prev_undoes_next(p: TimelinePosition, max_commits: usize)
    requires
        p.within(max_commits),
        p.spec_next(max_commits) != p,
    ensures
        p.spec_next(max_commits).spec_prev() == p,
{
}

/// `next` undoes every `prev` that moved.
pub proof fn lemma_next_undoes_prev(p: TimelinePosition, max_commits: usize)
    requires
        p.within(max_commits),
        p.spec_prev() != p,
    ensures
        p.spec_prev().spec_next(max_commits) == p,
{
}

} // verus!
