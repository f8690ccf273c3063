use git_commits::{
    classify_all, classify_delta, Change, Delta, DeltaChanges, DeltaStatus, FileRef,
};

fn file(path: &str, size: usize) -> Option<FileRef> {
    Some(FileRef { path: path.to_string(), size })
}

fn delta(status: DeltaStatus, old_file: Option<FileRef>, new_file: Option<FileRef>) -> Delta {
    Delta { status, old_file, new_file }
}

fn drain(mut cursor: DeltaChanges) -> Vec<Change> {
    let mut out = Vec::new();
    while let Some(c) = cursor.next() {
        out.push(c);
    }
    out
}

#[test]
fn added_delta_yields_one_added() {
    let d = delta(DeltaStatus::Added, None, file("a.txt", 3));
    let (first, second) = classify_delta(&d).unwrap();
    assert_eq!(first.path(), "a.txt");
    assert_eq!(first.size(), 3);
    assert!(first.is_added());
    assert!(second.is_none());
}

#[test]
fn copied_delta_yields_one_added() {
    let d = delta(DeltaStatus::Copied, file("src.txt", 5), file("copy.txt", 5));
    let (first, second) = classify_delta(&d).unwrap();
    assert!(first.is_added());
    assert_eq!(first.path(), "copy.txt");
    assert_eq!(first.size(), 5);
    assert!(second.is_none());
}

#[test]
fn modified_delta_yields_one_modified() {
    let d = delta(DeltaStatus::Modified, file("f.txt", 10), file("f.txt", 20));
    let (first, second) = classify_delta(&d).unwrap();
    assert!(first.is_modified());
    assert_eq!(first.path(), "f.txt");
    assert_eq!(first.sizes(), (Some(10), 20));
    assert!(second.is_none());
}

#[test]
fn deleted_delta_yields_one_deleted() {
    let d = delta(DeltaStatus::Deleted, file("gone.txt", 8), None);
    let (first, second) = classify_delta(&d).unwrap();
    assert!(first.is_deleted());
    assert_eq!(first.path(), "gone.txt");
    assert_eq!(first.size(), 8);
    assert!(second.is_none());
}

#[test]
fn rename_same_size_yields_one_renamed() {
    let d = delta(DeltaStatus::Renamed, file("a.txt", 4), file("b.txt", 4));
    let (first, second) = classify_delta(&d).unwrap();
    assert!(first.is_renamed());
    assert_eq!(first.old_path().map(|p| p.as_str()), Some("a.txt"));
    assert_eq!(first.path(), "b.txt");
    assert_eq!(first.size(), 4);
    assert!(second.is_none());
}

#[test]
fn rename_with_size_change_yields_modified_then_renamed() {
    let d = delta(DeltaStatus::Renamed, file("a.txt", 3), file("b.txt", 5));
    let (first, second) = classify_delta(&d).unwrap();
    assert!(first.is_modified());
    assert_eq!(first.path(), "b.txt");
    assert_eq!(first.sizes(), (Some(3), 5));
    let second = second.unwrap();
    assert!(second.is_renamed());
    assert_eq!(second.old_path().map(|p| p.as_str()), Some("a.txt"));
    assert_eq!(second.path(), "b.txt");
    assert_eq!(second.size(), 5);
}

#[test]
fn rename_to_same_path_same_size_yields_nothing() {
    let d = delta(DeltaStatus::Renamed, file("a.txt", 4), file("a.txt", 4));
    assert!(classify_delta(&d).is_none());
}

#[test]
fn rename_to_same_path_new_size_yields_one_modified() {
    let d = delta(DeltaStatus::Renamed, file("a.txt", 4), file("a.txt", 6));
    let (first, second) = classify_delta(&d).unwrap();
    assert!(first.is_modified());
    assert_eq!(first.sizes(), (Some(4), 6));
    assert!(second.is_none());
}

#[test]
fn boundary_statuses_yield_nothing() {
    let statuses = vec![
        DeltaStatus::Unmodified,
        DeltaStatus::Ignored,
        DeltaStatus::Untracked,
        DeltaStatus::Typechange,
        DeltaStatus::Unreadable,
        DeltaStatus::Conflicted,
    ];
    for status in statuses {
        let d = delta(status, file("a.txt", 3), file("a.txt", 5));
        assert!(classify_delta(&d).is_none());
    }
}

#[test]
fn unresolvable_required_side_is_skipped() {
    assert!(classify_delta(&delta(DeltaStatus::Added, None, None)).is_none());
    assert!(classify_delta(&delta(DeltaStatus::Deleted, None, file("x", 1))).is_none());
    assert!(classify_delta(&delta(DeltaStatus::Modified, file("x", 1), None)).is_none());
    assert!(classify_delta(&delta(DeltaStatus::Renamed, file("x", 1), None)).is_none());
    assert!(classify_delta(&delta(DeltaStatus::Added, None, file("", 1))).is_none());
    assert!(classify_delta(&delta(DeltaStatus::Deleted, file("", 1), None)).is_none());
}

fn sample_deltas() -> Vec<Delta> {
    vec![
        delta(DeltaStatus::Added, None, file("new.txt", 7)),
        delta(DeltaStatus::Untracked, None, file("junk.txt", 1)),
        delta(DeltaStatus::Renamed, file("a.txt", 3), file("b.txt", 5)),
        delta(DeltaStatus::Deleted, file("old.txt", 2), None),
        delta(DeltaStatus::Modified, file("m.txt", 1), file("m.txt", 9)),
    ]
}

#[test]
fn classify_all_flattens_in_delta_order() {
    let changes = classify_all(&sample_deltas());
    let rendered: Vec<String> = changes.iter().map(|c| c.display_string()).collect();
    assert_eq!(
        rendered,
        vec![
            "A new.txt (7 bytes)",
            "M b.txt (3 -> 5 bytes)",
            "R a.txt -> b.txt (5 bytes)",
            "D old.txt (2 bytes)",
            "M m.txt (1 -> 9 bytes)",
        ]
    );
}

#[test]
fn cursor_yields_the_same_sequence_as_classify_all() {
    let eager = classify_all(&sample_deltas());
    let lazy = drain(DeltaChanges::new(sample_deltas()));
    assert_eq!(eager, lazy);
}

#[test]
fn cursor_is_exhausted_after_draining() {
    let mut cursor = DeltaChanges::new(sample_deltas());
    while cursor.next().is_some() {}
    assert!(cursor.next().is_none());
    assert!(cursor.next().is_none());
}

#[test]
fn classification_is_idempotent() {
    let first_run = drain(DeltaChanges::new(sample_deltas()));
    let second_run = drain(DeltaChanges::new(sample_deltas()));
    assert_eq!(first_run, second_run);
}

fn net_of(changes: &[Change]) -> i64 {
    changes
        .iter()
        .map(|c| match c.sizes() {
            (Some(old_size), new_size) => new_size as i64 - old_size as i64,
            (None, size) => {
                if c.is_added() {
                    size as i64
                } else if c.is_deleted() {
                    -(size as i64)
                } else {
                    0
                }
            },
        })
        .sum()
}

#[test]
fn net_size_matches_tree_delta() {
    // Per delta: +7 (added), 0 (skipped), +2 (rename 3 -> 5),
    // -2 (deleted), +8 (modified 1 -> 9): 15 in total.
    let changes = classify_all(&sample_deltas());
    assert_eq!(net_of(&changes), 15);
}

#[test]
fn empty_delta_list_yields_no_changes() {
    assert!(classify_all(&Vec::new()).is_empty());
    assert!(DeltaChanges::new(Vec::new()).next().is_none());
}
