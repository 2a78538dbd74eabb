use git_hist::app::commit::CommitInfo;
use git_hist::app::diff::{Change, ChangeStatus, FileSide};
use git_hist::app::trace::{find_producer, history_from_changes, trace_changes, CommitChanges};

fn side(id: u8, path: &str) -> FileSide {
    FileSide::new(vec![id; 20], Some(path.as_bytes().to_vec()))
}

fn change(status: ChangeStatus, old: FileSide, new: FileSide) -> Change {
    Change::new(status, old, new)
}

fn step(n: u8, changes: Vec<Change>) -> CommitChanges {
    CommitChanges { commit: CommitInfo::new(vec![n; 20], Some(format!("c{}", n))), changes }
}

/// Newest first: c0 edits b.txt (3 -> 4), c1 touches another file, c2
/// renames a.txt to b.txt (2 -> 3), c3 edits a.txt (1 -> 2), c4 adds a.txt.
fn steps() -> Vec<CommitChanges> {
    vec![
        step(0, vec![
            change(ChangeStatus::Modified, side(50, "other.txt"), side(51, "other.txt")),
            change(ChangeStatus::Modified, side(3, "b.txt"), side(4, "b.txt")),
        ]),
        step(1, vec![change(ChangeStatus::Modified, side(60, "other.txt"), side(50, "other.txt"))]),
        step(2, vec![change(ChangeStatus::Renamed, side(3, "a.txt"), side(3, "b.txt"))]),
        step(3, vec![change(ChangeStatus::Modified, side(2, "a.txt"), side(3, "a.txt"))]),
        step(4, vec![change(ChangeStatus::Added, FileSide::new(vec![0; 20], Some(b"a.txt".to_vec())), side(2, "a.txt"))]),
    ]
}

#[test]
fn trace_follows_edits_and_renames() {
    let found = trace_changes(&steps(), &side(4, "b.txt"));
    assert_eq!(found, vec![(0, 1), (2, 0), (3, 0), (4, 0)]);
}

#[test]
fn trace_of_a_file_that_no_commit_made_is_empty() {
    let found = trace_changes(&steps(), &side(9, "c.txt"));
    assert_eq!(found, vec![]);
}

#[test]
fn a_version_without_a_path_is_never_produced() {
    let found = trace_changes(&steps(), &FileSide::new(vec![4; 20], None));
    assert_eq!(found, vec![]);
}

#[test]
fn same_path_with_another_content_is_not_produced() {
    // b.txt at content 5 was never made by any commit.
    let found = trace_changes(&steps(), &side(5, "b.txt"));
    assert_eq!(found, vec![]);
}

#[test]
fn find_producer_picks_the_first_match() {
    let changes = vec![
        change(ChangeStatus::Modified, side(1, "x"), side(2, "y")),
        change(ChangeStatus::Modified, side(3, "z"), side(2, "x")),
        change(ChangeStatus::Copied, side(4, "w"), side(2, "x")),
    ];
    assert_eq!(find_producer(&changes, &side(2, "x")), Some(1));
    assert_eq!(find_producer(&changes, &side(2, "y")), Some(0));
    assert_eq!(find_producer(&changes, &side(9, "x")), None);
    assert_eq!(find_producer(&vec![], &side(2, "x")), None);
}

#[test]
fn history_from_changes_builds_the_turning_points() {
    let history = history_from_changes(&steps(), &side(4, "b.txt")).ok().unwrap();
    let mut summaries = Vec::new();
    let mut point = history.latest();
    while let Some(p) = point {
        summaries.push(p.commit().summary().unwrap().to_string());
        point = history.backward(p);
    }
    assert_eq!(summaries, vec!["c0", "c2", "c3", "c4"]);
    let latest = history.latest().unwrap();
    assert!(latest.is_latest());
    assert_eq!(latest.diff().new_file().id, vec![4; 20]);
}

#[test]
fn history_from_changes_links_each_point_to_the_next() {
    let history = history_from_changes(&steps(), &side(4, "b.txt")).ok().unwrap();
    let mut point = history.latest().unwrap();
    while let Some(older) = history.backward(point) {
        assert_eq!(older.diff().new_file().id, point.diff().old_file().id);
        assert_eq!(older.diff().new_file().path, point.diff().old_file().path);
        point = older;
    }
    assert!(point.is_earliest());
    assert_eq!(point.diff().status(), ChangeStatus::Added);
}

#[test]
fn history_from_changes_refuses_when_nothing_changed_the_file() {
    assert!(history_from_changes(&steps(), &side(9, "c.txt")).is_err());
    assert!(history_from_changes(&vec![], &side(4, "b.txt")).is_err());
}
