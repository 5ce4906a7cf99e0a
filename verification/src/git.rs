//! Values exchanged with the version-control side: file status, blame, commits
//! and the position on the review timeline.

pub mod types;

pub use types::{
    BlameInfo, Commit, CommitView, DiffStats, FileBlame, FileStatus, Revision, RevisionRange,
    StatusEntry, TimelinePosition,
};
