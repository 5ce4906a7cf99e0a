use kimchi::git::{FileStatus, Revision, RevisionRange, TimelinePosition};

#[test]
fn next_walks_to_the_cap_and_stays() {
    let p = TimelinePosition::Browse;
    let p = p.next(3);
    assert_eq!(p, TimelinePosition::Wip);
    let p = p.next(3);
    assert_eq!(p, TimelinePosition::FullDiff);
    let p = p.next(3);
    assert_eq!(p, TimelinePosition::CommitDiff(1));
    let p = p.next(3);
    assert_eq!(p, TimelinePosition::CommitDiff(2));
    let p = p.next(3);
    assert_eq!(p, TimelinePosition::CommitDiff(3));
    let p = p.next(3);
    assert_eq!(p, TimelinePosition::CommitDiff(3));
}

#[test]
fn prev_from_first_commit_is_full_diff() {
    assert_eq!(TimelinePosition::CommitDiff(1).prev(), TimelinePosition::FullDiff);
}

#[test]
fn prev_from_browse_stays() {
    assert_eq!(TimelinePosition::Browse.prev(), TimelinePosition::Browse);
}

#[test]
fn prev_walks_back_to_browse() {
    assert_eq!(TimelinePosition::CommitDiff(5).prev(), TimelinePosition::CommitDiff(4));
    assert_eq!(TimelinePosition::CommitDiff(2).prev(), TimelinePosition::CommitDiff(1));
    assert_eq!(TimelinePosition::FullDiff.prev(), TimelinePosition::Wip);
    assert_eq!(TimelinePosition::Wip.prev(), TimelinePosition::Browse);
}

#[test]
fn next_without_commits_stays_at_full_diff() {
    assert_eq!(TimelinePosition::FullDiff.next(0), TimelinePosition::FullDiff);
    assert_eq!(TimelinePosition::Wip.next(0), TimelinePosition::FullDiff);
}

#[test]
fn next_never_passes_sixteen() {
    let mut p = TimelinePosition::FullDiff;
    for _ in 0..40 {
        p = p.next(100);
    }
    assert_eq!(p, TimelinePosition::CommitDiff(16));
    assert_eq!(TimelinePosition::CommitDiff(15).next(100), TimelinePosition::CommitDiff(16));
    assert_eq!(TimelinePosition::CommitDiff(16).next(17), TimelinePosition::CommitDiff(16));
}

#[test]
fn next_stops_at_max_commits_below_sixteen() {
    assert_eq!(TimelinePosition::CommitDiff(1).next(1), TimelinePosition::CommitDiff(1));
    assert_eq!(TimelinePosition::CommitDiff(6).next(7), TimelinePosition::CommitDiff(7));
    assert_eq!(TimelinePosition::CommitDiff(7).next(7), TimelinePosition::CommitDiff(7));
}

#[test]
fn prev_undoes_next_where_next_moved() {
    let all = [
        TimelinePosition::Browse,
        TimelinePosition::Wip,
        TimelinePosition::FullDiff,
        TimelinePosition::CommitDiff(1),
        TimelinePosition::CommitDiff(2),
        TimelinePosition::CommitDiff(3),
    ];
    for p in all {
        let n = p.next(3);
        if n != p {
            assert_eq!(n.prev(), p);
        }
    }
}

#[test]
fn default_position_is_full_diff() {
    assert_eq!(TimelinePosition::default(), TimelinePosition::FullDiff);
}

#[test]
fn file_status_markers() {
    assert_eq!(FileStatus::Modified.as_char(), 'M');
    assert_eq!(FileStatus::Added.as_char(), 'A');
    assert_eq!(FileStatus::Deleted.as_char(), 'D');
    assert_eq!(FileStatus::Renamed.as_char(), 'R');
    assert_eq!(FileStatus::Unchanged.as_char(), ' ');
    assert_eq!(FileStatus::Renamed.to_text(), "R");
}

#[test]
fn positions_select_ranges() {
    assert_eq!(TimelinePosition::Browse.range(), None);
    assert_eq!(
        TimelinePosition::Wip.range(),
        Some(RevisionRange { from: Revision::Ancestor(0), to: Revision::WorkingTree })
    );
    assert_eq!(
        TimelinePosition::FullDiff.range(),
        Some(RevisionRange { from: Revision::Base, to: Revision::Ancestor(0) })
    );
    assert_eq!(
        TimelinePosition::CommitDiff(1).range(),
        Some(RevisionRange { from: Revision::Ancestor(1), to: Revision::Ancestor(0) })
    );
    assert_eq!(
        TimelinePosition::CommitDiff(16).range(),
        Some(RevisionRange { from: Revision::Ancestor(16), to: Revision::Ancestor(15) })
    );
}
