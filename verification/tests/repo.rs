use std::time::{SystemTime, UNIX_EPOCH};

use git_commits::{Change, Commit, Repo, Sort};

/// A fresh path under the system's scratch directory, unique per call.
fn scratch_path(tag: &str) -> String {
    let nanos = SystemTime::now()
        .duration_since(UNIX_EPOCH)
        .unwrap()
        .as_nanos();
    format!("/tmp/git_commits_it_{tag}_{nanos}")
}

struct TestRepo {
    raw: git2::Repository,
    path: String,
}

impl TestRepo {
    fn new(tag: &str) -> TestRepo {
        let path = scratch_path(tag);
        let raw = git2::Repository::init_bare(&path).unwrap();
        TestRepo { raw, path }
    }

    /// Writes one commit whose tree holds exactly `files`, on top of
    /// `parent`, at the given commit time.
    fn commit(
        &self,
        parent: Option<git2::Oid>,
        files: &[(&str, &[u8])],
        message: &str,
        seconds: i64,
    ) -> git2::Oid {
        let mut builder = self.raw.treebuilder(None).unwrap();
        for (name, content) in files {
            let blob = self.raw.blob(content).unwrap();
            builder.insert(name, blob, 0o100644).unwrap();
        }
        let tree_oid = builder.write().unwrap();
        let tree = self.raw.find_tree(tree_oid).unwrap();
        let time = git2::Time::new(seconds, 0);
        let sig = git2::Signature::new("Alice", "alice@example.com", &time).unwrap();
        let parents: Vec<git2::Commit<'_>> =
            parent.map(|p| self.raw.find_commit(p).unwrap()).into_iter().collect();
        let parent_refs: Vec<&git2::Commit<'_>> = parents.iter().collect();
        self.raw
            .commit(Some("HEAD"), &sig, &sig, message, &tree, &parent_refs)
            .unwrap()
    }

    fn open(&self) -> Repo {
        Repo::open(&self.path).unwrap()
    }
}

fn collect_changes(commit: &Commit<'_>) -> Vec<Change> {
    let mut changes = commit.changes().unwrap();
    let mut out = Vec::new();
    while let Some(c) = changes.next() {
        out.push(c.unwrap());
    }
    out
}

fn collect_shas(repo: &Repo, sort: Sort) -> Vec<String> {
    let mut commits = repo.commits_ext(sort).unwrap();
    let mut out = Vec::new();
    while let Some(c) = commits.next() {
        out.push(c.unwrap().sha());
    }
    out
}

#[test]
fn root_commit_adds_every_file_with_its_stored_size() {
    let tr = TestRepo::new("root");
    let oid = tr.commit(None, &[("a.txt", b"abc"), ("b.txt", b"hello")], "root", 1000);
    let repo = tr.open();
    let mut commits = repo.commits().unwrap();
    let commit = commits.next().unwrap().unwrap();
    assert_eq!(commit.sha(), oid.to_string());
    let changes = collect_changes(&commit);
    let mut seen: Vec<(String, usize)> = changes
        .iter()
        .map(|c| {
            assert!(c.is_added());
            (c.path().clone(), c.size())
        })
        .collect();
    seen.sort();
    assert_eq!(
        seen,
        vec![("a.txt".to_string(), 3), ("b.txt".to_string(), 5)]
    );
    assert!(commits.next().is_none());
}

#[test]
fn editing_content_at_a_stable_path_yields_one_modified() {
    let tr = TestRepo::new("edit");
    let root = tr.commit(None, &[("a.txt", b"abc")], "root", 1000);
    let edit = tr.commit(Some(root), &[("a.txt", b"abcdef")], "edit", 2000);
    let repo = tr.open();
    let mut commits = repo.commits_ext(Sort::by_time()).unwrap();
    let newest = commits.next().unwrap().unwrap();
    assert_eq!(newest.sha(), edit.to_string());
    let changes = collect_changes(&newest);
    assert_eq!(changes.len(), 1);
    assert_eq!(changes[0].display_string(), "M a.txt (3 -> 6 bytes)");
}

const PROSE: &[u8] = b"one two three four five six seven eight nine ten\n\
    eleven twelve thirteen fourteen fifteen sixteen seventeen\n\
    eighteen nineteen twenty twenty-one twenty-two twenty-three\n\
    twenty-four twenty-five twenty-six twenty-seven twenty-eight\n";

#[test]
fn rename_without_content_change_yields_one_renamed() {
    let tr = TestRepo::new("rename");
    let root = tr.commit(None, &[("a.txt", PROSE)], "root", 1000);
    tr.commit(Some(root), &[("b.txt", PROSE)], "rename", 2000);
    let repo = tr.open();
    let mut commits = repo.commits_ext(Sort::by_time()).unwrap();
    let newest = commits.next().unwrap().unwrap();
    let changes = collect_changes(&newest);
    assert_eq!(changes.len(), 1);
    let renamed = changes[0].as_renamed().unwrap();
    assert_eq!(renamed.old_path(), "a.txt");
    assert_eq!(renamed.new_path(), "b.txt");
    assert_eq!(renamed.size(), PROSE.len());
}

#[test]
fn rename_with_content_change_yields_modified_then_renamed() {
    let tr = TestRepo::new("rename_edit");
    let mut longer = PROSE.to_vec();
    longer.extend_from_slice(b"twenty-nine thirty\n");
    let root = tr.commit(None, &[("a.txt", PROSE)], "root", 1000);
    tr.commit(Some(root), &[("b.txt", &longer)], "rename and edit", 2000);
    let repo = tr.open();
    let mut commits = repo.commits_ext(Sort::by_time()).unwrap();
    let newest = commits.next().unwrap().unwrap();
    let changes = collect_changes(&newest);
    assert_eq!(changes.len(), 2);
    let modified = changes[0].as_modified().unwrap();
    assert_eq!(modified.path(), "b.txt");
    assert_eq!(modified.sizes(), (PROSE.len(), longer.len()));
    let renamed = changes[1].as_renamed().unwrap();
    assert_eq!(renamed.old_path(), "a.txt");
    assert_eq!(renamed.new_path(), "b.txt");
    assert_eq!(renamed.size(), longer.len());
}

#[test]
fn changes_requested_twice_are_value_equal() {
    let tr = TestRepo::new("idempotent");
    let mut longer = PROSE.to_vec();
    longer.extend_from_slice(b"twenty-nine thirty\n");
    let root = tr.commit(None, &[("a.txt", PROSE), ("keep.txt", b"same")], "root", 1000);
    tr.commit(
        Some(root),
        &[("b.txt", &longer), ("keep.txt", b"same"), ("new.txt", b"xy")],
        "mix",
        2000,
    );
    let repo = tr.open();
    let mut commits = repo.commits_ext(Sort::by_time()).unwrap();
    let newest = commits.next().unwrap().unwrap();
    let first_run = collect_changes(&newest);
    let second_run = collect_changes(&newest);
    assert_eq!(first_run, second_run);
    assert!(!first_run.is_empty());
}

#[test]
fn commits_cover_history_exactly_once_and_reverse_cleanly() {
    let tr = TestRepo::new("order");
    let c1 = tr.commit(None, &[("a.txt", b"1")], "one", 1000);
    let c2 = tr.commit(Some(c1), &[("a.txt", b"22")], "two", 2000);
    let c3 = tr.commit(Some(c2), &[("a.txt", b"333")], "three", 3000);
    let repo = tr.open();

    let newest_first = collect_shas(&repo, Sort::by_time());
    assert_eq!(
        newest_first,
        vec![c3.to_string(), c2.to_string(), c1.to_string()]
    );

    let oldest_first = collect_shas(&repo, Sort::by_time_reversed());
    let mut reversed = newest_first.clone();
    reversed.reverse();
    assert_eq!(oldest_first, reversed);

    let mut default_order = collect_shas(&repo, Sort::unsorted());
    default_order.sort();
    let mut expected = vec![c1.to_string(), c2.to_string(), c3.to_string()];
    expected.sort();
    assert_eq!(default_order, expected);
}

#[test]
fn commit_metadata_is_exposed() {
    let tr = TestRepo::new("meta");
    let oid = tr.commit(None, &[("a.txt", b"abc")], "a message", 1234);
    let repo = tr.open();
    let mut commits = repo.commits().unwrap();
    let commit = commits.next().unwrap().unwrap();
    assert_eq!(commit.sha(), oid.to_string());
    assert_eq!(commit.sha().len(), 40);
    assert_eq!(commit.message(), Some("a message".to_string()));
    assert_eq!(commit.message_lossy(), "a message");
    assert_eq!(commit.message_bytes(), b"a message".to_vec());
    assert_eq!(commit.when(), (1234, 0));
    let author = commit.author();
    assert_eq!(author.name(), Some("Alice".to_string()));
    assert_eq!(author.email(), Some("alice@example.com".to_string()));
    assert_eq!(author.when(), (1234, 0));
    let committer = commit.committer();
    assert_eq!(committer.name_lossy(), "Alice");
    assert_eq!(
        commit.time().unwrap().display_string(),
        "1970-01-01 00:20:34 +00:00"
    );
    assert!(commit.time_utc().is_some());
    assert!(commit.time_local().is_some());
}

#[test]
fn net_size_delta_matches_the_tree_delta() {
    let tr = TestRepo::new("net");
    let root = tr.commit(
        None,
        &[("a.txt", b"abc"), ("b.txt", b"hello"), ("c.txt", b"xy")],
        "root",
        1000,
    );
    // Tree goes from 3 + 5 + 2 = 10 bytes to 6 + 2 = 8 bytes.
    tr.commit(
        Some(root),
        &[("a.txt", b"abcdef"), ("c.txt", b"xy")],
        "edit and delete",
        2000,
    );
    let repo = tr.open();
    let mut commits = repo.commits_ext(Sort::by_time()).unwrap();
    let newest = commits.next().unwrap().unwrap();
    let net: i64 = collect_changes(&newest)
        .iter()
        .map(|c| match c.sizes() {
            (Some(old_size), new_size) => new_size as i64 - old_size as i64,
            (None, size) => {
                if c.is_added() {
                    size as i64
                } else if c.is_deleted() {
                    -(size as i64)
                } else {
                    0
                }
            },
        })
        .sum();
    assert_eq!(net, -2);

    let root_commit = commits.next().unwrap().unwrap();
    let root_total: usize = collect_changes(&root_commit).iter().map(|c| c.size()).sum();
    assert_eq!(root_total, 10);
}

#[test]
fn opening_a_missing_repository_fails_with_a_message() {
    let err = match Repo::open(&scratch_path("missing")) {
        Ok(_) => panic!("opening a missing repository must fail"),
        Err(e) => e,
    };
    assert!(!err.message().is_empty());
    assert!(!err.is_user_cancel());
    assert!(git_commits::open(&scratch_path("missing2")).is_err());
}

#[test]
fn discover_finds_the_repository_from_its_own_path() {
    let tr = TestRepo::new("discover");
    tr.commit(None, &[("a.txt", b"abc")], "root", 1000);
    let repo = Repo::discover(&tr.path).unwrap();
    let shas = collect_shas(&repo, Sort::unsorted());
    assert_eq!(shas.len(), 1);
}
