//! The change classifier: turns the raw deltas of a tree-to-tree diff
//! into the canonical sequence of typed [`Change`] values.
//!
//! The mapping per delta, keyed by its status:
//! added or copied entries yield one `Added`; modified entries one
//! `Modified`; deleted entries one `Deleted`; a rename that keeps the
//! content size yields one `Renamed`, while a rename that also changes
//! the size yields a `Modified` (at the new path) followed by a
//! `Renamed` — two events from one delta, in that fixed order, so the
//! path change is always reported on the already-updated size. Every
//! other status is silently skipped, as is a delta whose required side
//! is absent or has an empty path.

use vstd::prelude::*;

use crate::change::{Added, Change, ChangeView, Deleted, Modified, Renamed};
use crate::commit::Commit;
use crate::delta::{Delta, DeltaStatus, DeltaView, FileRef, FileRefView};
use crate::git;
use crate::git::GitError;

verus! {

/// Whether a side of a delta is usable by the classifier: present, with
/// a non-empty path.
pub open spec fn file_ok(f: Option<FileRefView>) -> bool {
    match f {
        Some(r) => r.path.len() > 0,
        None => false,
    }
}

/// The canonical changes emitted for one delta: zero, one, or two,
/// in emission order.
pub open spec fn changes_of_delta(d: DeltaView) -> Seq<ChangeView> {
    match d.status {
        DeltaStatus::Added | DeltaStatus::Copied => match d.new_file {
            Some(new_f) => {
                if new_f.path.len() > 0 {
                    seq![ChangeView::Added { path: new_f.path, size: new_f.size }]
                } else {
                    Seq::empty()
                }
            },
            None => Seq::empty(),
        },
        DeltaStatus::Modified => match (d.old_file, d.new_file) {
            (Some(old_f), Some(new_f)) => {
                if old_f.path.len() > 0 && new_f.path.len() > 0 {
                    seq![ChangeView::Modified {
                        path: new_f.path,
                        old_size: old_f.size,
                        new_size: new_f.size,
                    }]
                } else {
                    Seq::empty()
                }
            },
            _ => Seq::empty(),
        },
        DeltaStatus::Deleted => match d.old_file {
            Some(old_f) => {
                if old_f.path.len() > 0 {
                    seq![ChangeView::Deleted { path: old_f.path, size: old_f.size }]
                } else {
                    Seq::empty()
                }
            },
            None => Seq::empty(),
        },
        DeltaStatus::Renamed => match (d.old_file, d.new_file) {
            (Some(old_f), Some(new_f)) => {
                if old_f.path.len() > 0 && new_f.path.len() > 0 {
                    if old_f.path == new_f.path {
                        // Not a path change after all; report the size
                        // change alone, or nothing.
                        if old_f.size == new_f.size {
                            Seq::empty()
                        } else {
                            seq![ChangeView::Modified {
                                path: new_f.path,
                                old_size: old_f.size,
                                new_size: new_f.size,
                            }]
                        }
                    } else if old_f.size == new_f.size {
                        seq![ChangeView::Renamed {
                            old_path: old_f.path,
                            new_path: new_f.path,
                            size: new_f.size,
                        }]
                    } else {
                        seq![
                            ChangeView::Modified {
                                path: new_f.path,
                                old_size: old_f.size,
                                new_size: new_f.size,
                            },
                            ChangeView::Renamed {
                                old_path: old_f.path,
                                new_path: new_f.path,
                                size: new_f.size,
                            },
                        ]
                    }
                } else {
                    Seq::empty()
                }
            },
            _ => Seq::empty(),
        },
        DeltaStatus::Unmodified
        | DeltaStatus::Ignored
        | DeltaStatus::Untracked
        | DeltaStatus::Typechange
        | DeltaStatus::Unreadable
        | DeltaStatus::Conflicted => Seq::empty(),
    }
}

/// The canonical changes emitted for a delta sequence, in delta order.
pub open spec fn changes_of_deltas(ds: Seq<DeltaView>) -> Seq<ChangeView>
    decreases ds.len(),
{
    if ds.len() == 0 {
        Seq::empty()
    } else {
        changes_of_delta(ds[0]) + changes_of_deltas(ds.skip(1))
    }
}

/// The views of a delta sequence.
pub open spec fn delta_views(ds: Seq<Delta>) -> Seq<DeltaView> {
    ds.map_values(|d: Delta| d@)
}

/// The views of a change sequence.
pub open spec fn change_views(cs: Seq<Change>) -> Seq<ChangeView> {
    cs.map_values(|c: Change| c@)
}

/// The changes named by a classifier result: the first change, then the
/// buffered second one, if any.
pub open spec fn emitted_of_pair(r: Option<(Change, Option<Change>)>) -> Seq<ChangeView> {
    match r {
        None => Seq::empty(),
        Some((first, None)) => seq![first@],
        Some((first, Some(second))) => seq![first@, second@],
    }
}

/// Classifies one delta: nothing for a skipped delta, otherwise the
/// first change and, for a rename that also changes the size, the
/// buffered second one.
pub fn classify_delta(delta: &Delta) -> (r: Option<(Change, Option<Change>)>)
    ensures
        emitted_of_pair(r) == changes_of_delta(delta@),
        (r is None) == (changes_of_delta(delta@).len() == 0),
        r matches Some((first, _)) ==> first@ == changes_of_delta(delta@)[0],
        r matches Some((_, Some(second))) ==> changes_of_delta(delta@).len() == 2 && second@
            == changes_of_delta(delta@)[1],
        r matches Some((_, second)) && second is None ==> changes_of_delta(delta@).len() == 1,
{
    match delta.status {
        DeltaStatus::Added | DeltaStatus::Copied => match &delta.new_file {
            Some(new_f) => {
                if new_f.path.as_str().is_empty() {
                    None
                } else {
                    Some((
                        Change::Added(Added { path: new_f.path.clone(), size: new_f.size }),
                        None,
                    ))
                }
            },
            None => None,
        },
        DeltaStatus::Modified => match (&delta.old_file, &delta.new_file) {
            (Some(old_f), Some(new_f)) => {
                if old_f.path.as_str().is_empty() || new_f.path.as_str().is_empty() {
                    None
                } else {
                    Some((
                        Change::Modified(Modified {
                            path: new_f.path.clone(),
                            old_size: old_f.size,
                            new_size: new_f.size,
                        }),
                        None,
                    ))
                }
            },
            _ => None,
        },
        DeltaStatus::Deleted => match &delta.old_file {
            Some(old_f) => {
                if old_f.path.as_str().is_empty() {
                    None
                } else {
                    Some((
                        Change::Deleted(Deleted { path: old_f.path.clone(), size: old_f.size }),
                        None,
                    ))
                }
            },
            None => None,
        },
        DeltaStatus::Renamed => match (&delta.old_file, &delta.new_file) {
            (Some(old_f), Some(new_f)) => {
                if old_f.path.as_str().is_empty() || new_f.path.as_str().is_empty() {
                    None
                } else if old_f.path == new_f.path {
                    if old_f.size == new_f.size {
                        None
                    } else {
                        Some((
                            Change::Modified(Modified {
                                path: new_f.path.clone(),
                                old_size: old_f.size,
                                new_size: new_f.size,
                            }),
                            None,
                        ))
                    }
                } else {
                    let renamed = Change::Renamed(Renamed {
                        old_path: old_f.path.clone(),
                        new_path: new_f.path.clone(),
                        size: new_f.size,
                    });
                    if old_f.size == new_f.size {
                        Some((renamed, None))
                    } else {
                        Some((
                            Change::Modified(Modified {
                                path: new_f.path.clone(),
                                old_size: old_f.size,
                                new_size: new_f.size,
                            }),
                            Some(renamed),
                        ))
                    }
                }
            },
            _ => None,
        },
        DeltaStatus::Unmodified
        | DeltaStatus::Ignored
        | DeltaStatus::Untracked
        | DeltaStatus::Typechange
        | DeltaStatus::Unreadable
        | DeltaStatus::Conflicted => None,
    }
}

/// Splitting a delta sequence at a position splits its changes there.
proof fn lemma_changes_of_deltas_split(ds: Seq<DeltaView>, i: int)
    requires
        0 <= i < ds.len(),
    ensures
        changes_of_deltas(ds.skip(i)) == changes_of_delta(ds[i]) + changes_of_deltas(ds.skip(i + 1)),
{
    let s = ds.skip(i);
    assert(s[0] == ds[i]);
    assert(s.skip(1) =~= ds.skip(i + 1));
}

/// The changes a buffered pending value stands for.
pub open spec fn pending_views(p: Option<Change>) -> Seq<ChangeView> {
    match p {
        Some(c) => seq![c@],
        None => Seq::empty(),
    }
}

/// A single-pass, forward-only cursor over the canonical changes of a
/// delta sequence: the sequence's state machine made explicit. At most
/// one synthesized second event (from a rename that also changes the
/// size) is buffered between pulls.
pub struct DeltaChanges {
    deltas: Vec<Delta>,
    idx: usize,
    pending: Option<Change>,
}

impl DeltaChanges {
    /// The cursor never points past the end of its deltas.
    pub closed spec fn wf(self) -> bool {
        self.idx <= self.deltas@.len()
    }

    /// The changes this cursor has yet to yield, in order.
    pub closed spec fn remaining(self) -> Seq<ChangeView> {
        pending_views(self.pending) + changes_of_deltas(
            delta_views(self.deltas@).skip(self.idx as int),
        )
    }

    /// Starts a cursor over the given deltas; it will yield exactly
    /// their canonical changes.
    pub fn new(deltas: Vec<Delta>) -> (r: DeltaChanges)
        ensures
            r.wf(),
            r.remaining() == changes_of_deltas(delta_views(deltas@)),
    {
        let r = DeltaChanges { deltas, idx: 0, pending: None };
        proof {
            assert(delta_views(r.deltas@).skip(0) =~= delta_views(r.deltas@));
            assert(r.remaining() =~= changes_of_deltas(delta_views(r.deltas@)));
        }
        r
    }

    /// Pulls the next canonical change, or nothing once the deltas are
    /// exhausted.
    #[verifier::loop_isolation(false)]
    pub fn next(&mut self) -> (r: Option<Change>)
        requires
            old(self).wf(),
        ensures
            final(self).wf(),
            old(self).remaining().len() == 0 ==> r is None && final(self).remaining()
                == old(self).remaining(),
            old(self).remaining().len() > 0 ==> (r matches Some(c) && c@ == old(self).remaining()[0]
                && final(self).remaining() == old(self).remaining().skip(1)),
    {
        if self.pending.is_some() {
            let c = self.pending.take().unwrap();
            proof {
                assert(old(self).remaining().skip(1) =~= self.remaining());
            }
            return Some(c);
        }
        loop
            invariant
                self.wf(),
                self.pending is None,
                self.remaining() == old(self).remaining(),
            decreases self.deltas@.len() - self.idx,
        {
            if self.idx >= self.deltas.len() {
                proof {
                    assert(delta_views(self.deltas@).skip(self.idx as int)
                        =~= Seq::<DeltaView>::empty());
                    assert(self.remaining() =~= Seq::<ChangeView>::empty());
                }
                return None;
            }
            let i = self.idx;
            self.idx = i + 1;
            let ghost views = delta_views(self.deltas@);
            proof {
                lemma_changes_of_deltas_split(views, i as int);
                assert(views[i as int] == self.deltas@[i as int]@);
            }
            let pair = classify_delta(&self.deltas[i]);
            match pair {
                None => {
                    proof {
                        assert(changes_of_delta(views[i as int]) + changes_of_deltas(
                            views.skip(i as int + 1),
                        ) =~= changes_of_deltas(views.skip(i as int + 1)));
                    }
                },
                Some((first, second)) => {
                    let ghost before = old(self).remaining();
                    let ghost sec_views = pending_views(second);
                    self.pending = second;
                    proof {
                        let rest = changes_of_deltas(views.skip(i as int + 1));
                        assert(before =~= emitted_of_pair(pair) + rest);
                        assert(before[0] == first@);
                        assert(before.skip(1) =~= sec_views + rest);
                        assert(self.remaining() =~= sec_views + rest);
                    }
                    return Some(first);
                },
            }
        }
    }
}

/// Classifies a whole delta sequence at once, materializing the
/// canonical change list.
#[verifier::loop_isolation(false)]
pub fn classify_all(deltas: &Vec<Delta>) -> (r: Vec<Change>)
    ensures
        change_views(r@) == changes_of_deltas(delta_views(deltas@)),
{
    let ghost views = delta_views(deltas@);
    let mut out: Vec<Change> = Vec::new();
    let mut i: usize = 0;
    proof {
        assert(views.skip(0) =~= views);
        assert(change_views(out@) =~= Seq::<ChangeView>::empty());
    }
    while i < deltas.len()
        invariant
            i <= deltas@.len(),
            change_views(out@) + changes_of_deltas(views.skip(i as int)) == changes_of_deltas(views),
        decreases deltas@.len() - i,
    {
        proof {
            lemma_changes_of_deltas_split(views, i as int);
            assert(views[i as int] == deltas@[i as int]@);
        }
        let ghost out_before = change_views(out@);
        let ghost rest = changes_of_deltas(views.skip(i as int + 1));
        let pair = classify_delta(&deltas[i]);
        match pair {
            None => {
                proof {
                    assert(out_before + changes_of_deltas(views.skip(i as int))
                        =~= out_before + rest);
                }
            },
            Some((first, second)) => {
                let ghost emitted = emitted_of_pair(pair);
                match second {
                    None => {
                        out.push(first);
                        proof {
                            assert(change_views(out@) =~= out_before.push(first@));
                            assert(change_views(out@) + rest =~= out_before + (emitted + rest));
                        }
                    },
                    Some(sec) => {
                        out.push(first);
                        out.push(sec);
                        proof {
                            assert(change_views(out@) =~= out_before.push(first@).push(sec@));
                            assert(change_views(out@) + rest =~= out_before + (emitted + rest));
                        }
                    },
                }
            },
        }
        i = i + 1;
    }
    proof {
        assert(views.skip(i as int) =~= Seq::<DeltaView>::empty());
        assert(change_views(out@) + changes_of_deltas(views.skip(i as int)) =~= change_views(out@));
    }
    out
}

/// The signed byte contribution of one change: what it adds to the
/// total byte count of the tree.
pub open spec fn change_net(c: ChangeView) -> int {
    match c {
        ChangeView::Added { size, .. } => size as int,
        ChangeView::Modified { old_size, new_size, .. } => new_size as int - old_size as int,
        ChangeView::Deleted { size, .. } => -(size as int),
        ChangeView::Renamed { .. } => 0,
    }
}

/// The sum of the signed byte contributions of a change sequence.
pub open spec fn net_of_changes(cs: Seq<ChangeView>) -> int
    decreases cs.len(),
{
    if cs.len() == 0 {
        0
    } else {
        change_net(cs[0]) + net_of_changes(cs.skip(1))
    }
}

/// The net byte-count contribution of one delta to the tree: the size
/// of its usable new side minus the size of its usable old side, and
/// zero for a skipped delta.
pub open spec fn delta_net(d: DeltaView) -> int {
    match d.status {
        DeltaStatus::Added | DeltaStatus::Copied => match d.new_file {
            Some(new_f) => if new_f.path.len() > 0 {
                new_f.size as int
            } else {
                0
            },
            None => 0,
        },
        DeltaStatus::Modified | DeltaStatus::Renamed => match (d.old_file, d.new_file) {
            (Some(old_f), Some(new_f)) => if old_f.path.len() > 0 && new_f.path.len() > 0 {
                new_f.size as int - old_f.size as int
            } else {
                0
            },
            _ => 0,
        },
        DeltaStatus::Deleted => match d.old_file {
            Some(old_f) => if old_f.path.len() > 0 {
                -(old_f.size as int)
            } else {
                0
            },
            None => 0,
        },
        DeltaStatus::Unmodified
        | DeltaStatus::Ignored
        | DeltaStatus::Untracked
        | DeltaStatus::Typechange
        | DeltaStatus::Unreadable
        | DeltaStatus::Conflicted => 0,
    }
}

/// The net byte-count delta of a whole delta sequence.
pub open spec fn net_of_deltas(ds: Seq<DeltaView>) -> int
    decreases ds.len(),
{
    if ds.len() == 0 {
        0
    } else {
        delta_net(ds[0]) + net_of_deltas(ds.skip(1))
    }
}

proof fn lemma_net_singleton(c: ChangeView)
    ensures
        net_of_changes(seq![c]) == change_net(c),
{
    assert(seq![c].skip(1) =~= Seq::<ChangeView>::empty());
    assert(net_of_changes(Seq::<ChangeView>::empty()) == 0);
    assert(seq![c][0] == c);
}

proof fn lemma_net_pair(a: ChangeView, b: ChangeView)
    ensures
        net_of_changes(seq![a, b]) == change_net(a) + change_net(b),
{
    assert(seq![a, b].skip(1) =~= seq![b]);
    lemma_net_singleton(b);
}

proof fn lemma_net_concat(a: Seq<ChangeView>, b: Seq<ChangeView>)
    ensures
        net_of_changes(a + b) == net_of_changes(a) + net_of_changes(b),
    decreases a.len(),
{
    if a.len() == 0 {
        assert(a + b =~= b);
    } else {
        lemma_net_concat(a.skip(1), b);
        assert((a + b).skip(1) =~= a.skip(1) + b);
        assert((a + b)[0] == a[0]);
    }
}

/// Law: the changes of one delta sum to that delta's net byte-count
/// contribution.
pub proof fn lemma_change_net_of_delta(d: DeltaView)
    ensures
        net_of_changes(changes_of_delta(d)) == delta_net(d),
{
    let cs = changes_of_delta(d);
    if cs.len() == 1 {
        assert(cs =~= seq![cs[0]]);
        lemma_net_singleton(cs[0]);
    } else if cs.len() == 2 {
        assert(cs =~= seq![cs[0], cs[1]]);
        lemma_net_pair(cs[0], cs[1]);
    }
}

/// Law: the sum of `Added` sizes, minus `Deleted` sizes, plus the
/// `new_size - old_size` of `Modified` changes, across a delta
/// sequence's canonical changes, equals the net byte-count delta of
/// the tree.
pub proof fn lemma_net_size(ds: Seq<DeltaView>)
    ensures
        net_of_changes(changes_of_deltas(ds)) == net_of_deltas(ds),
    decreases ds.len(),
{
    if ds.len() > 0 {
        lemma_change_net_of_delta(ds[0]);
        lemma_net_size(ds.skip(1));
        lemma_net_concat(changes_of_delta(ds[0]), changes_of_deltas(ds.skip(1)));
    }
}

/// Law: a delta whose status is unmodified, ignored, untracked, a type
/// change, unreadable, or conflicted never produces a change.
pub proof fn lemma_skipped_status_is_silent(d: DeltaView)
    requires
        d.status is Unmodified || d.status is Ignored || d.status is Untracked
            || d.status is Typechange || d.status is Unreadable || d.status is Conflicted,
    ensures
        changes_of_delta(d) == Seq::<ChangeView>::empty(),
{
}

/// Law: every emitted change is well formed — its relevant paths are
/// non-empty, and a rename never maps a path to itself.
pub proof fn lemma_changes_well_formed(d: DeltaView)
    ensures
        forall|i: int| 0 <= i < changes_of_delta(d).len() ==> (#[trigger] changes_of_delta(d)[i]).wf(),
{
}

/// Law: classification is a pure function of the delta sequence, so
/// running it twice over equal inputs yields value-equal change
/// sequences.
pub proof fn lemma_classification_deterministic(a: Seq<DeltaView>, b: Seq<DeltaView>)
    requires
        a == b,
    ensures
        changes_of_deltas(a) == changes_of_deltas(b),
{
}

/// Law: when every delta of a sequence is an addition with a usable new
/// side — as in the diff of a root commit against the empty tree — the
/// canonical changes are exactly one addition per delta, in order, each
/// carrying that delta's path and stored byte size.
pub proof fn lemma_root_commit_all_added(ds: Seq<DeltaView>)
    requires
        forall|i: int| 0 <= i < ds.len() ==> (#[trigger] ds[i]).status is Added && file_ok(
            ds[i].new_file,
        ),
    ensures
        changes_of_deltas(ds).len() == ds.len(),
        forall|i: int| 0 <= i < ds.len() ==> #[trigger] changes_of_deltas(ds)[i] == (ChangeView::Added {
            path: ds[i].new_file.unwrap().path,
            size: ds[i].new_file.unwrap().size,
        }),
    decreases ds.len(),
{
    if ds.len() > 0 {
        assert(forall|i: int| 0 <= i < ds.skip(1).len() ==> #[trigger] ds.skip(1)[i] == ds[i + 1]);
        lemma_root_commit_all_added(ds.skip(1));
        let head = changes_of_delta(ds[0]);
        assert(head =~= seq![ChangeView::Added {
            path: ds[0].new_file.unwrap().path,
            size: ds[0].new_file.unwrap().size,
        }]);
        assert forall|i: int| 0 <= i < ds.len() implies #[trigger] changes_of_deltas(ds)[i]
            == (ChangeView::Added {
            path: ds[i].new_file.unwrap().path,
            size: ds[i].new_file.unwrap().size,
        }) by {
            if i > 0 {
                assert(changes_of_deltas(ds)[i] == changes_of_deltas(ds.skip(1))[i - 1]);
                assert(ds.skip(1)[i - 1] == ds[i]);
            }
        }
    }
}

/// How many deltas a diff holds: a pure function of the diff value,
/// relied on through [`git::diff_get_delta`]'s contract.
pub uninterp spec fn diff_delta_count(d: git2::Diff<'_>) -> nat;

/// Resolves one side of a delta to its path and stored byte size,
/// without materializing the content. An absent side, a side without a
/// path, and a side whose object cannot be found in the store all
/// resolve to nothing, so the classifier skips such a delta silently
/// rather than surfacing an error — availability of the remaining
/// stream is favored over strict completeness.
fn resolve_file(repo: &git2::Repository, file: &git2::DiffFile<'_>) -> (r: Option<FileRef>)
    ensures
        r matches Some(f) ==> f.path@.len() > 0,
{
    if !git::file_exists(file) {
        return None;
    }
    let path = match git::file_path_string(file) {
        Some(p) => p,
        None => {
            return None;
        },
    };
    if path.as_str().is_empty() {
        return None;
    }
    let oid = git::file_oid(file);
    let blob = match git::repo_find_blob(repo, oid) {
        Ok(b) => b,
        Err(_) => {
            return None;
        },
    };
    let size = git::blob_size(&blob);
    Some(FileRef { path, size })
}

/// Reads one raw delta of the diff into the library's model: the status
/// tag plus the two resolved sides.
fn read_delta(repo: &git2::Repository, raw: &git2::DiffDelta<'_>) -> Delta {
    let status = git::delta_status(raw);
    let old_raw = git::delta_old_file(raw);
    let new_raw = git::delta_new_file(raw);
    let old_file = resolve_file(repo, &old_raw);
    let new_file = resolve_file(repo, &new_raw);
    Delta { status, old_file, new_file }
}

/// A lazy, single-pass sequence of the canonical changes one commit
/// introduced. Deltas are pulled from the diff one at a time; at most
/// one synthesized second event is buffered between pulls.
pub struct Changes<'repo> {
    repo: &'repo git2::Repository,
    diff: git2::Diff<'repo>,
    idx_delta: usize,
    next_change: Option<Change>,
}

impl<'repo> Changes<'repo> {
    /// The buffered synthesized second event, if one is pending.
    pub closed spec fn pending(self) -> Option<ChangeView> {
        match self.next_change {
            Some(c) => Some(c@),
            None => None,
        }
    }

    /// How many deltas of the diff the sequence has consumed.
    pub closed spec fn position(self) -> int {
        self.idx_delta as int
    }

    /// Computes the diff of `commit` against its first parent, or
    /// against the empty tree for a root commit, with rename detection
    /// enabled, and starts the change sequence on it.
    pub(crate) fn from_commit(commit: &Commit<'repo>) -> (r: Result<Changes<'repo>, GitError>)
        ensures
            r matches Ok(c) ==> c.pending() is None && c.position() == 0,
    {
        let current_tree = match git::commit_tree(&commit.commit) {
            Ok(t) => t,
            Err(e) => {
                return Err(e);
            },
        };
        let parent_tree = match git::commit_parent(&commit.commit, 0) {
            Ok(parent) => match git::commit_tree(&parent) {
                Ok(t) => Some(t),
                Err(e) => {
                    return Err(e);
                },
            },
            Err(_) => None,
        };
        let mut diff = match git::diff_tree_to_tree(
            commit.repo,
            parent_tree.as_ref(),
            Some(&current_tree),
        ) {
            Ok(d) => d,
            Err(e) => {
                return Err(e);
            },
        };
        match git::diff_find_similar(&mut diff) {
            Ok(()) => {},
            Err(e) => {
                return Err(e);
            },
        }
        Ok(Changes { repo: commit.repo, diff, idx_delta: 0, next_change: None })
    }

    /// Advances the sequence: a buffered second event if one is
    /// pending, else the first change of the next delta that yields
    /// any, else nothing once the deltas are exhausted.
    #[verifier::loop_isolation(false)]
    pub fn next(&mut self) -> (r: Option<Result<Change, GitError>>)
        ensures
            old(self).pending() matches Some(c) ==> (r matches Some(rr) && rr matches Ok(ch)
                && ch@ == c && final(self).pending() is None && final(self).position() == old(
                self,
            ).position()),
            final(self).position() >= old(self).position(),
            r is None ==> final(self).pending() is None,
    {
        if self.next_change.is_some() {
            let c = self.next_change.take().unwrap();
            return Some(Ok(c));
        }
        loop
            invariant
                self.next_change is None,
                self.position() >= old(self).position(),
            decreases diff_delta_count(self.diff) - self.idx_delta,
        {
            let raw = match git::diff_get_delta(&self.diff, self.idx_delta) {
                Some(d) => d,
                None => {
                    return None;
                },
            };
            let delta = read_delta(self.repo, &raw);
            self.idx_delta = self.idx_delta + 1;
            match classify_delta(&delta) {
                None => {},
                Some((first, second)) => {
                    self.next_change = second;
                    return Some(Ok(first));
                },
            }
        }
    }
}

} // verus!
