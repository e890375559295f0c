//! Deleting worktrees, one or many: which may go, what is offered, and
//! which branches go with them.
#![verifier::loop_isolation(false)]

use vstd::prelude::*;
use crate::git::{branch_unique_to, is_branch_unique_to_worktree, worktree_line, WorktreeInfo};
use crate::text::{concat3, owned, str_eq};

verus! {

/// Why a worktree may not be deleted.
#[derive(Debug, Clone, Copy, PartialEq, Eq, Structural)]
pub enum DeleteError {
    /// No name was given.
    EmptyName,
    /// The main worktree (`main` or `master`) is never deleted.
    MainWorktree,
}

/// Refuses an empty name and the main worktree's names.
pub fn validate_deletion_target(name: &str) -> (r: Result<(), DeleteError>)
    ensures
        name@.len() == 0 ==> r == Err::<(), DeleteError>(DeleteError::EmptyName),
        name@.len() > 0 && (name@ == "main"@ || name@ == "master"@) ==> r == Err::<(), DeleteError>(
            DeleteError::MainWorktree,
        ),
        r is Ok <==> name@.len() > 0 && name@ != "main"@ && name@ != "master"@,
{
    if name.is_empty() {
        return Err(DeleteError::EmptyName);
    }
    if str_eq(name, "main") || str_eq(name, "master") {
        return Err(DeleteError::MainWorktree);
    }
    Ok(())
}

/// A branch is deleted with its worktree when no other worktree uses it
/// and it is named after the worktree.
pub fn should_delete_orphaned_branch(is_branch_unique: bool, branch_name: &str, worktree_name: &str) -> (r: bool)
    ensures
        r == (is_branch_unique && branch_name@ == worktree_name@),
{
    is_branch_unique && str_eq(branch_name, worktree_name)
}

/// What a batch deletion was asked for.
#[derive(Debug, Clone)]
pub struct BatchDeleteConfig {
    pub selected_worktrees: Vec<String>,
    pub delete_orphaned_branches: bool,
}

/// What deleting one worktree does.
#[derive(Debug, Clone)]
pub struct WorktreeDeleteConfig {
    /// The name Git knows the worktree by.
    pub name: String,
    pub path: String,
    pub branch: String,
    /// Whether its branch goes too.
    pub delete_branch: bool,
}

/// The facts about a worktree chosen for deletion.
#[derive(Debug, Clone)]
pub struct DeletionAnalysis {
    pub worktree: WorktreeInfo,
    /// Its branch is checked out nowhere else.
    pub is_branch_unique: bool,
    /// Deleting the branch too is suggested.
    pub delete_branch_recommended: bool,
}

/// The worktrees that may be deleted: all but the current one.
pub open spec fn deletable(s: Seq<WorktreeInfo>) -> Seq<WorktreeInfo> {
    s.filter(|w: WorktreeInfo| !w.is_current)
}

/// The worktrees other than the current one, in order.
pub fn get_deletable_worktrees(worktrees: &Vec<WorktreeInfo>) -> (r: Vec<WorktreeInfo>)
    ensures
        r@ == deletable(worktrees@),
{
    let ghost s = worktrees@;
    let mut r: Vec<WorktreeInfo> = Vec::new();
    let mut i: usize = 0;
    while i < worktrees.len()
        invariant
            i <= worktrees.len(),
            r@ == deletable(s.subrange(0, i as int)),
        decreases worktrees.len() - i,
    {
        proof {
            reveal(Seq::filter);
            assert(s.subrange(0, i + 1).drop_last() =~= s.subrange(0, i as int));
        }
        if !worktrees[i].is_current {
            r.push(worktrees[i].duplicate());
        }
        i = i + 1;
    }
    assert(s.subrange(0, s.len() as int) =~= s);
    r
}

/// The choices offered for deletion: `name (branch)` of each worktree
/// other than the current one, in order.
pub fn prepare_batch_delete_items(worktrees: &Vec<WorktreeInfo>) -> (r: Vec<String>)
    ensures
        r@.map_values(|x: String| x@) == deletable(worktrees@).map_values(|w: WorktreeInfo| worktree_line(w)),
{
    let d = get_deletable_worktrees(worktrees);
    let items = crate::git::list_worktrees(&d);
    assert(items@.map_values(|x: String| x@) =~= deletable(worktrees@).map_values(
        |w: WorktreeInfo| worktree_line(w),
    ));
    items
}

/// What the deletion screen shows first.
#[derive(Debug, Clone, Copy, PartialEq, Eq, Structural)]
pub enum DeletionAvailability {
    /// There are no worktrees.
    NoWorktrees,
    /// The current worktree is the only one.
    NoneDeletable,
    /// Some worktree can be chosen.
    Available,
}

/// What the deletion screen shows first.
pub fn deletion_availability(worktrees: &Vec<WorktreeInfo>) -> (r: DeletionAvailability)
    ensures
        worktrees@.len() == 0 ==> r == DeletionAvailability::NoWorktrees,
        worktrees@.len() > 0 && deletable(worktrees@).len() == 0 ==> r
            == DeletionAvailability::NoneDeletable,
        deletable(worktrees@).len() > 0 ==> r == DeletionAvailability::Available,
{
    if worktrees.len() == 0 {
        proof {
            reveal(Seq::filter);
        }
        return DeletionAvailability::NoWorktrees;
    }
    let d = get_deletable_worktrees(worktrees);
    if d.len() == 0 {
        DeletionAvailability::NoneDeletable
    } else {
        DeletionAvailability::Available
    }
}

/// The facts about deleting `worktree`, given all listed worktrees.
pub fn analyze_deletion(worktree: &WorktreeInfo, all: &Vec<WorktreeInfo>) -> (r: DeletionAnalysis)
    ensures
        r.worktree == *worktree,
        r.is_branch_unique == branch_unique_to(all@, worktree.branch@, worktree.name@),
        r.delete_branch_recommended == r.is_branch_unique,
{
    let is_branch_unique = is_branch_unique_to_worktree(all, worktree.branch.as_str(), worktree.name.as_str());
    DeletionAnalysis {
        worktree: worktree.duplicate(),
        is_branch_unique,
        delete_branch_recommended: is_branch_unique,
    }
}

/// The deletion to perform once the user has confirmed it; the branch goes
/// too only when it is unique to the worktree and the user agreed.
pub fn deletion_config(analysis: &DeletionAnalysis, also_delete_branch: bool) -> (r: WorktreeDeleteConfig)
    ensures
        r.name == analysis.worktree.git_name,
        r.path == analysis.worktree.path,
        r.branch == analysis.worktree.branch,
        r.delete_branch == (analysis.is_branch_unique && also_delete_branch),
{
    WorktreeDeleteConfig {
        name: analysis.worktree.git_name.clone(),
        path: analysis.worktree.path.clone(),
        branch: analysis.worktree.branch.clone(),
        delete_branch: analysis.is_branch_unique && also_delete_branch,
    }
}

/// The worktrees picked by the indices `selections` into `deletable`.
pub fn selected_worktrees(deletable: &Vec<WorktreeInfo>, selections: &Vec<usize>) -> (r: Vec<WorktreeInfo>)
    requires
        forall|k: int| 0 <= k < selections@.len() ==> #[trigger] selections@[k] < deletable@.len(),
    ensures
        r@.len() == selections@.len(),
        forall|k: int| 0 <= k < r@.len() ==> #[trigger] r@[k] == deletable@[selections@[k] as int],
{
    let mut r: Vec<WorktreeInfo> = Vec::new();
    let mut k: usize = 0;
    while k < selections.len()
        invariant
            k <= selections.len(),
            r@.len() == k,
            forall|j: int| 0 <= j < k ==> #[trigger] r@[j] == deletable@[selections@[j] as int],
        decreases selections.len() - k,
    {
        let i = selections[k];
        r.push(deletable[i].duplicate());
        k = k + 1;
    }
    r
}

/// The branches that would be orphaned by deleting `selected`: for each
/// selected worktree whose branch no other worktree uses, its branch and
/// name, in order.
pub open spec fn orphaned(selected: Seq<WorktreeInfo>, all: Seq<WorktreeInfo>) -> Seq<(Seq<char>, Seq<char>)>
    decreases selected.len(),
{
    if selected.len() == 0 {
        Seq::empty()
    } else {
        let rest = orphaned(selected.drop_last(), all);
        let w = selected.last();
        if branch_unique_to(all, w.branch@, w.name@) {
            rest.push((w.branch@, w.name@))
        } else {
            rest
        }
    }
}

/// The view of branch/worktree pairs.
pub open spec fn pair_views(s: Seq<(String, String)>) -> Seq<(Seq<char>, Seq<char>)> {
    s.map_values(|p: (String, String)| (p.0@, p.1@))
}

/// The branches deleting `selected` would orphan, with their worktrees.
pub fn orphaned_branches(selected: &Vec<WorktreeInfo>, all: &Vec<WorktreeInfo>) -> (r: Vec<(String, String)>)
    ensures
        pair_views(r@) == orphaned(selected@, all@),
{
    let mut r: Vec<(String, String)> = Vec::new();
    let mut i: usize = 0;
    while i < selected.len()
        invariant
            i <= selected.len(),
            pair_views(r@) == orphaned(selected@.subrange(0, i as int), all@),
        decreases selected.len() - i,
    {
        assert(selected@.subrange(0, i + 1).drop_last() =~= selected@.subrange(0, i as int));
        let w = &selected[i];
        if is_branch_unique_to_worktree(all, w.branch.as_str(), w.name.as_str()) {
            let ghost prev = r@;
            r.push((w.branch.clone(), w.name.clone()));
            assert(pair_views(r@) =~= pair_views(prev).push((w.branch@, w.name@)));
        }
        i = i + 1;
    }
    assert(selected@.subrange(0, selected.len() as int) =~= selected@);
    r
}

/// Whether the pair `(branch, worktree)` is among `pairs`.
pub open spec fn has_pair(pairs: Seq<(Seq<char>, Seq<char>)>, branch: Seq<char>, worktree: Seq<char>) -> bool {
    exists|j: int| 0 <= j < pairs.len() && #[trigger] pairs[j] == (branch, worktree)
}

/// The orphaned branches to delete: those whose worktree was deleted, in
/// order.
pub open spec fn branches_after(orphans: Seq<(Seq<char>, Seq<char>)>, deleted: Seq<(Seq<char>, Seq<char>)>) -> Seq<Seq<char>>
    decreases orphans.len(),
{
    if orphans.len() == 0 {
        Seq::empty()
    } else {
        let rest = branches_after(orphans.drop_last(), deleted);
        let o = orphans.last();
        if has_pair(deleted, o.0, o.1) {
            rest.push(o.0)
        } else {
            rest
        }
    }
}

/// The orphaned branches to delete once the worktrees `deleted` (branch
/// and name of each) are gone.
pub fn branches_to_delete(orphans: &Vec<(String, String)>, deleted: &Vec<(String, String)>) -> (r: Vec<String>)
    ensures
        r@.map_values(|x: String| x@) == branches_after(pair_views(orphans@), pair_views(deleted@)),
{
    let ghost ov = pair_views(orphans@);
    let ghost dv = pair_views(deleted@);
    let mut r: Vec<String> = Vec::new();
    let mut i: usize = 0;
    while i < orphans.len()
        invariant
            i <= orphans.len(),
            ov == pair_views(orphans@),
            dv == pair_views(deleted@),
            r@.map_values(|x: String| x@) == branches_after(ov.subrange(0, i as int), dv),
        decreases orphans.len() - i,
    {
        assert(ov.subrange(0, i + 1).drop_last() =~= ov.subrange(0, i as int));
        let mut found = false;
        let mut j: usize = 0;
        while j < deleted.len()
            invariant
                j <= deleted.len(),
                found == exists|m: int| 0 <= m < j && #[trigger] dv[m] == ov[i as int],
            decreases deleted.len() - j,
        {
            if str_eq(deleted[j].0.as_str(), orphans[i].0.as_str()) && str_eq(
                deleted[j].1.as_str(),
                orphans[i].1.as_str(),
            ) {
                assert(dv[j as int] == ov[i as int]);
                found = true;
            }
            j = j + 1;
        }
        if found {
            let ghost prev = r@;
            r.push(orphans[i].0.clone());
            assert(r@.map_values(|x: String| x@) =~= prev.map_values(|x: String| x@).push(
                ov[i as int].0,
            ));
        }
        i = i + 1;
    }
    assert(ov.subrange(0, orphans.len() as int) =~= ov);
    r
}

proof fn lemma_branch_from_orphan(o: Seq<(Seq<char>, Seq<char>)>, d: Seq<(Seq<char>, Seq<char>)>, k: int) -> (j: int)
    requires
        0 <= k < branches_after(o, d).len(),
    ensures
        0 <= j < o.len(),
        o[j].0 == branches_after(o, d)[k],
        has_pair(d, o[j].0, o[j].1),
    decreases o.len(),
{
    let rest = branches_after(o.drop_last(), d);
    if k < rest.len() {
        let j = lemma_branch_from_orphan(o.drop_last(), d, k);
        j
    } else {
        o.len() - 1
    }
}

proof fn lemma_orphan_from_selection(s: Seq<WorktreeInfo>, all: Seq<WorktreeInfo>, j: int) -> (i: int)
    requires
        0 <= j < orphaned(s, all).len(),
    ensures
        0 <= i < s.len(),
        orphaned(s, all)[j] == (s[i].branch@, s[i].name@),
        branch_unique_to(all, s[i].branch@, s[i].name@),
    decreases s.len(),
{
    let rest = orphaned(s.drop_last(), all);
    if j < rest.len() {
        let i = lemma_orphan_from_selection(s.drop_last(), all, j);
        i
    } else {
        s.len() - 1
    }
}

/// A branch is deleted with a batch only when a worktree that was selected
/// and then actually deleted used it, and no other worktree uses it: the
/// result names such a worktree for the branch at position `k`.
pub proof fn law_only_orphaned_branches_deleted(
    selected: Seq<WorktreeInfo>,
    all: Seq<WorktreeInfo>,
    deleted: Seq<(Seq<char>, Seq<char>)>,
    k: int,
) -> (i: int)
    requires
        0 <= k < branches_after(orphaned(selected, all), deleted).len(),
    ensures
        0 <= i < selected.len(),
        selected[i].branch@ == branches_after(orphaned(selected, all), deleted)[k],
        has_pair(deleted, selected[i].branch@, selected[i].name@),
        branch_unique_to(all, selected[i].branch@, selected[i].name@),
{
    let o = orphaned(selected, all);
    let j = lemma_branch_from_orphan(o, deleted, k);
    let i = lemma_orphan_from_selection(selected, all, j);
    i
}

} // verus!
