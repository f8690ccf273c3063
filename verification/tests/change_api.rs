use git_commits::{Added, Change, ChangeKind, Deleted, Modified, Renamed};

fn added(path: &str, size: usize) -> Change {
    Change::Added(Added { path: path.to_string(), size })
}

fn modified(path: &str, old_size: usize, new_size: usize) -> Change {
    Change::Modified(Modified { path: path.to_string(), old_size, new_size })
}

fn deleted(path: &str, size: usize) -> Change {
    Change::Deleted(Deleted { path: path.to_string(), size })
}

fn renamed(old_path: &str, new_path: &str, size: usize) -> Change {
    Change::Renamed(Renamed {
        old_path: old_path.to_string(),
        new_path: new_path.to_string(),
        size,
    })
}

#[test]
fn kind_letters() {
    assert_eq!(ChangeKind::Added.letter(), 'A');
    assert_eq!(ChangeKind::Modified.letter(), 'M');
    assert_eq!(ChangeKind::Deleted.letter(), 'D');
    assert_eq!(ChangeKind::Renamed.letter(), 'R');
}

#[test]
fn kind_symbols() {
    assert_eq!(ChangeKind::Added.symbol(), '+');
    assert_eq!(ChangeKind::Modified.symbol(), '~');
    assert_eq!(ChangeKind::Deleted.symbol(), '-');
    assert_eq!(ChangeKind::Renamed.symbol(), '>');
}

#[test]
fn kind_predicates() {
    assert!(ChangeKind::Added.is_added());
    assert!(!ChangeKind::Added.is_modified());
    assert!(ChangeKind::Modified.is_modified());
    assert!(!ChangeKind::Modified.is_deleted());
    assert!(ChangeKind::Deleted.is_deleted());
    assert!(!ChangeKind::Deleted.is_renamed());
    assert!(ChangeKind::Renamed.is_renamed());
    assert!(!ChangeKind::Renamed.is_added());
}

#[test]
fn change_kind_of_each_variant() {
    assert_eq!(added("a", 1).kind(), ChangeKind::Added);
    assert_eq!(modified("a", 1, 2).kind(), ChangeKind::Modified);
    assert_eq!(deleted("a", 1).kind(), ChangeKind::Deleted);
    assert_eq!(renamed("a", "b", 1).kind(), ChangeKind::Renamed);
}

#[test]
fn change_predicates() {
    assert!(added("a", 1).is_added());
    assert!(modified("a", 1, 2).is_modified());
    assert!(deleted("a", 1).is_deleted());
    assert!(renamed("a", "b", 1).is_renamed());
    assert!(!added("a", 1).is_renamed());
    assert!(!renamed("a", "b", 1).is_added());
}

#[test]
fn change_path_is_the_new_path() {
    assert_eq!(added("a.txt", 1).path(), "a.txt");
    assert_eq!(modified("m.txt", 1, 2).path(), "m.txt");
    assert_eq!(deleted("d.txt", 1).path(), "d.txt");
    assert_eq!(renamed("old.txt", "new.txt", 1).path(), "new.txt");
    assert_eq!(renamed("old.txt", "new.txt", 1).into_path(), "new.txt");
}

#[test]
fn change_old_path_only_for_renames() {
    assert_eq!(added("a", 1).old_path(), None);
    assert_eq!(modified("a", 1, 2).old_path(), None);
    assert_eq!(deleted("a", 1).old_path(), None);
    assert_eq!(
        renamed("old.txt", "new.txt", 1).old_path().map(|p| p.as_str()),
        Some("old.txt")
    );
}

#[test]
fn change_paths_pairs() {
    let r = renamed("old.txt", "new.txt", 1);
    let (old_path, path) = r.paths();
    assert_eq!(old_path.map(|p| p.as_str()), Some("old.txt"));
    assert_eq!(path, "new.txt");

    let a = added("a.txt", 1);
    let (old_path, path) = a.paths();
    assert!(old_path.is_none());
    assert_eq!(path, "a.txt");

    let (old_path, path) = renamed("x", "y", 2).into_paths();
    assert_eq!(old_path.as_deref(), Some("x"));
    assert_eq!(path, "y");

    let (old_path, path) = deleted("z", 2).into_paths();
    assert!(old_path.is_none());
    assert_eq!(path, "z");
}

#[test]
fn change_size_is_the_new_size() {
    assert_eq!(added("a", 3).size(), 3);
    assert_eq!(modified("a", 3, 7).size(), 7);
    assert_eq!(deleted("a", 4).size(), 4);
    assert_eq!(renamed("a", "b", 5).size(), 5);
}

#[test]
fn change_old_size_only_for_modifications() {
    assert_eq!(added("a", 3).old_size(), None);
    assert_eq!(modified("a", 3, 7).old_size(), Some(3));
    assert_eq!(deleted("a", 4).old_size(), None);
    assert_eq!(renamed("a", "b", 5).old_size(), None);
}

#[test]
fn change_sizes_pairs() {
    assert_eq!(added("a", 3).sizes(), (None, 3));
    assert_eq!(modified("a", 3, 7).sizes(), (Some(3), 7));
    assert_eq!(deleted("a", 4).sizes(), (None, 4));
    assert_eq!(renamed("a", "b", 5).sizes(), (None, 5));
}

#[test]
fn change_as_variant_accessors() {
    let a = added("a", 1);
    assert!(a.as_added().is_some());
    assert!(a.as_modified().is_none());
    assert!(a.as_deleted().is_none());
    assert!(a.as_renamed().is_none());

    let m = modified("m", 1, 2);
    let inner = m.as_modified().unwrap();
    assert_eq!(inner.old_size(), 1);
    assert_eq!(inner.new_size(), 2);
    assert_eq!(inner.sizes(), (1, 2));
    assert_eq!(inner.path(), "m");
    assert_eq!(inner.kind(), ChangeKind::Modified);

    let r = renamed("x", "y", 9);
    let inner = r.as_renamed().unwrap();
    assert_eq!(inner.old_path(), "x");
    assert_eq!(inner.new_path(), "y");
    assert_eq!(inner.paths(), (&"x".to_string(), &"y".to_string()));
    assert_eq!(inner.size(), 9);
    assert_eq!(inner.kind(), ChangeKind::Renamed);

    let d = deleted("d", 2);
    let inner = d.as_deleted().unwrap();
    assert_eq!(inner.path(), "d");
    assert_eq!(inner.size(), 2);
    assert_eq!(inner.kind(), ChangeKind::Deleted);

    let inner = added("q", 8);
    let inner = inner.as_added().unwrap();
    assert_eq!(inner.path(), "q");
    assert_eq!(inner.size(), 8);
    assert_eq!(inner.kind(), ChangeKind::Added);
}

#[test]
fn change_from_variants() {
    let c: Change = Change::from(Added { path: "a".to_string(), size: 1 });
    assert!(c.is_added());
    let c: Change = Change::from(Modified { path: "a".to_string(), old_size: 1, new_size: 2 });
    assert!(c.is_modified());
    let c: Change = Change::from(Deleted { path: "a".to_string(), size: 1 });
    assert!(c.is_deleted());
    let c: Change = Change::from(Renamed {
        old_path: "a".to_string(),
        new_path: "b".to_string(),
        size: 1,
    });
    assert!(c.is_renamed());
}

#[test]
fn decimal_rendering() {
    assert_eq!(git_commits::usize_to_decimal(0), "0");
    assert_eq!(git_commits::usize_to_decimal(7), "7");
    assert_eq!(git_commits::usize_to_decimal(10), "10");
    assert_eq!(git_commits::usize_to_decimal(105), "105");
    assert_eq!(git_commits::usize_to_decimal(123456789), "123456789");
}

#[test]
fn display_strings() {
    assert_eq!(added("a.txt", 3).display_string(), "A a.txt (3 bytes)");
    assert_eq!(
        modified("m.txt", 10, 20).display_string(),
        "M m.txt (10 -> 20 bytes)"
    );
    assert_eq!(deleted("d.txt", 4).display_string(), "D d.txt (4 bytes)");
    assert_eq!(
        renamed("a.txt", "b.txt", 5).display_string(),
        "R a.txt -> b.txt (5 bytes)"
    );
}

#[test]
fn into_path_moves_each_variant() {
    assert_eq!(added("a", 1).into_path(), "a");
    assert_eq!(modified("m", 1, 2).into_path(), "m");
    assert_eq!(deleted("d", 1).into_path(), "d");
    let inner = Added { path: "p".to_string(), size: 2 };
    assert_eq!(inner.into_path(), "p");
    let inner = Renamed { old_path: "x".to_string(), new_path: "y".to_string(), size: 2 };
    assert_eq!(inner.into_paths(), ("x".to_string(), "y".to_string()));
}
