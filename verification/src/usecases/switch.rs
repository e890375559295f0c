//! Switching to another worktree, and finding one by search.
#![verifier::loop_isolation(false)]

use vstd::prelude::*;
use vstd::seq_lib::*;
use crate::constants::SEARCH_CURRENT_INDICATOR;
use crate::git::{worktree_line, WorktreeInfo};
use crate::sorting::{sort_by_key, sorted_by_key, SortKey};
use crate::text::{concat2, contains_char, chars_of, lex_lt};

verus! {

/// Why a switch target or selection was refused.
#[derive(Debug, Clone, Copy, PartialEq, Eq, Structural)]
pub enum SwitchError {
    /// No target was given.
    EmptyTarget,
    /// The target contains a space, tab or line feed.
    WhitespaceInTarget,
    /// The selection is past the end of the list.
    InvalidSelection,
}

/// Refuses an empty target and one containing a space, tab or line feed.
pub fn validate_switch_target(name: &str) -> (r: Result<(), SwitchError>)
    ensures
        name@.len() == 0 ==> r == Err::<(), SwitchError>(SwitchError::EmptyTarget),
        name@.len() > 0 && (name@.contains(' ') || name@.contains('\t') || name@.contains('\n'))
            ==> r == Err::<(), SwitchError>(SwitchError::WhitespaceInTarget),
        r is Ok <==> name@.len() > 0 && !name@.contains(' ') && !name@.contains('\t')
            && !name@.contains('\n'),
{
    if name.is_empty() {
        return Err(SwitchError::EmptyTarget);
    }
    let c = chars_of(name);
    if contains_char(c.as_slice(), ' ') || contains_char(c.as_slice(), '\t') || contains_char(
        c.as_slice(),
        '\n',
    ) {
        return Err(SwitchError::WhitespaceInTarget);
    }
    Ok(())
}

/// Whether the current worktree is already `target`.
pub fn is_already_in_worktree(current: &Option<String>, target: &str) -> (r: bool)
    ensures
        r == match current {
            Some(c) => c@ == target@,
            None => false,
        },
{
    match current {
        Some(c) => crate::text::str_eq(c.as_str(), target),
        None => false,
    }
}

/// What a switch was asked for.
#[derive(Debug, Clone)]
pub struct SwitchConfig {
    pub target_name: String,
    pub target_path: String,
    pub source_name: Option<String>,
    pub save_changes: bool,
}

/// What switching to a worktree does.
#[derive(Debug, Clone)]
pub struct WorktreeSwitchConfig {
    pub target_name: String,
    pub target_path: String,
    pub target_branch: String,
}

/// The facts about a chosen switch target.
#[derive(Debug, Clone)]
pub struct SwitchAnalysis {
    pub worktrees: Vec<WorktreeInfo>,
    /// Where the current worktree is in the list.
    pub current_worktree_index: Option<usize>,
    /// The chosen worktree is the current one.
    pub is_already_current: bool,
}

/// The display order of worktrees: the current ones first, and by name
/// within each group.
pub open spec fn display_ordered(s: Seq<WorktreeInfo>) -> bool {
    forall|i: int, j: int|
        0 <= i < j < s.len() ==> ((#[trigger] s[i]).is_current && !(#[trigger] s[j]).is_current)
            || (s[i].is_current == s[j].is_current && !lex_lt(s[j].name@, s[i].name@))
}

/// The worktrees in display order: current first, then by name.
pub fn sort_worktrees_for_display(worktrees: Vec<WorktreeInfo>) -> (r: Vec<WorktreeInfo>)
    ensures
        r@.to_multiset() == worktrees@.to_multiset(),
        display_ordered(r@),
{
    broadcast use group_to_multiset_ensures;

    let ghost all = worktrees@;
    let mut current: Vec<WorktreeInfo> = Vec::new();
    let mut others: Vec<WorktreeInfo> = Vec::new();
    let mut rest = worktrees;
    while rest.len() > 0
        invariant
            forall|k: int| 0 <= k < current@.len() ==> (#[trigger] current@[k]).is_current,
            forall|k: int| 0 <= k < others@.len() ==> !(#[trigger] others@[k]).is_current,
            all.to_multiset() == rest@.to_multiset().add(current@.to_multiset()).add(
                others@.to_multiset(),
            ),
        decreases rest.len(),
    {
        let ghost before = rest@;
        let w = rest.pop().unwrap();
        assert(before =~= rest@.push(w));
        if w.is_current {
            current.push(w);
        } else {
            others.push(w);
        }
    }
    let ghost cur = current@;
    let ghost oth = others@;
    let current_sorted = sort_by_key(current, false);
    let others_sorted = sort_by_key(others, false);
    let mut r = current_sorted;
    let ghost cs = r@;
    let mut k: usize = 0;
    let n = others_sorted.len();
    while k < n
        invariant
            n == others_sorted@.len(),
            k <= n,
            r@ == cs + others_sorted@.subrange(0, k as int),
        decreases n - k,
    {
        r.push(others_sorted[k].duplicate());
        k = k + 1;
        assert(r@ =~= cs + others_sorted@.subrange(0, k as int));
    }
    proof {
        let os = others_sorted@;
        assert(os.subrange(0, n as int) =~= os);
        assert(r@ == cs + os);
        lemma_multiset_commutative(cs, os);
        assert forall|m: int| 0 <= m < cs.len() implies (#[trigger] cs[m]).is_current by {
            to_multiset_contains(cs, cs[m]);
            to_multiset_contains(cur, cs[m]);
            let k = choose|k: int| 0 <= k < cur.len() && cur[k] == cs[m];
            assert(cur[k].is_current);
        }
        assert forall|m: int| 0 <= m < os.len() implies !(#[trigger] os[m]).is_current by {
            to_multiset_contains(os, os[m]);
            to_multiset_contains(oth, os[m]);
            let k = choose|k: int| 0 <= k < oth.len() && oth[k] == os[m];
            assert(!oth[k].is_current);
        }
        let s = r@;
        assert forall|i: int, j: int| 0 <= i < j < s.len() implies ((#[trigger] s[i]).is_current
            && !(#[trigger] s[j]).is_current) || (s[i].is_current == s[j].is_current && !lex_lt(
            s[j].name@,
            s[i].name@,
        )) by {
            if j < cs.len() {
                assert(s[i] == cs[i] && s[j] == cs[j]);
                assert(crate::sorting::key_le(cs[i].key_view(), cs[j].key_view(), false));
            } else if i >= cs.len() {
                assert(s[i] == os[i - cs.len()] && s[j] == os[j - cs.len()]);
                assert(crate::sorting::key_le(
                    os[i - cs.len()].key_view(),
                    os[j - cs.len()].key_view(),
                    false,
                ));
            } else {
                assert(s[i] == cs[i] && s[j] == os[j - cs.len()]);
            }
        }
    }
    r
}

/// `name (branch)`, with ` [current]` after the current worktree.
pub open spec fn switch_item(w: WorktreeInfo) -> Seq<char> {
    if w.is_current {
        worktree_line(w) + " [current]"@
    } else {
        worktree_line(w)
    }
}

/// The choices offered when switching, in order.
pub fn switch_items(worktrees: &Vec<WorktreeInfo>) -> (r: Vec<String>)
    ensures
        r@.len() == worktrees@.len(),
        forall|i: int| 0 <= i < r@.len() ==> #[trigger] r@[i]@ == switch_item(worktrees@[i]),
{
    let lines = crate::git::list_worktrees(worktrees);
    let mut r: Vec<String> = Vec::new();
    let mut i: usize = 0;
    while i < lines.len()
        invariant
            i <= lines.len(),
            lines@.len() == worktrees@.len(),
            r@.len() == i,
            forall|j: int| 0 <= j < i ==> #[trigger] r@[j]@ == switch_item(worktrees@[j]),
        decreases lines.len() - i,
    {
        if worktrees[i].is_current {
            r.push(concat2(lines[i].as_str(), " [current]"));
        } else {
            r.push(lines[i].clone());
        }
        i = i + 1;
    }
    r
}

/// The position of the first current worktree, if any.
pub open spec fn first_current(s: Seq<WorktreeInfo>) -> Option<int>
    decreases s.len(),
{
    if s.len() == 0 {
        None
    } else {
        match first_current(s.drop_last()) {
            Some(i) => Some(i),
            None => if s.last().is_current {
                Some(s.len() - 1)
            } else {
                None
            },
        }
    }
}

/// The facts about switching to the worktree at `selected_index`.
pub fn analyze_switch_target(worktrees: &Vec<WorktreeInfo>, selected_index: usize) -> (r: Result<SwitchAnalysis, SwitchError>)
    ensures
        selected_index >= worktrees@.len() ==> r == Err::<SwitchAnalysis, SwitchError>(
            SwitchError::InvalidSelection,
        ),
        r matches Ok(a) ==> a.worktrees@ == worktrees@ && match a.current_worktree_index {
            Some(i) => first_current(worktrees@) == Some(i as int),
            None => first_current(worktrees@) is None,
        } && a.is_already_current == worktrees@[selected_index as int].is_current,
        selected_index < worktrees@.len() ==> r is Ok,
{
    if selected_index >= worktrees.len() {
        return Err(SwitchError::InvalidSelection);
    }
    let mut current_index: Option<usize> = None;
    let mut i: usize = 0;
    while i < worktrees.len()
        invariant
            i <= worktrees.len(),
            match current_index {
                Some(c) => first_current(worktrees@.subrange(0, i as int)) == Some(c as int),
                None => first_current(worktrees@.subrange(0, i as int)) is None,
            },
        decreases worktrees.len() - i,
    {
        assert(worktrees@.subrange(0, i + 1).drop_last() =~= worktrees@.subrange(0, i as int));
        if current_index.is_none() && worktrees[i].is_current {
            current_index = Some(i);
        }
        proof {
            if current_index.is_some() {
                lemma_first_current_extend(worktrees@, i as int);
            }
        }
        i = i + 1;
    }
    assert(worktrees@.subrange(0, worktrees.len() as int) =~= worktrees@);
    Ok(
        SwitchAnalysis {
            worktrees: crate::git::copy_worktree_list(worktrees),
            current_worktree_index: current_index,
            is_already_current: worktrees[selected_index].is_current,
        },
    )
}

proof fn lemma_first_current_extend(s: Seq<WorktreeInfo>, i: int)
    requires
        0 <= i < s.len(),
    ensures
        first_current(s.subrange(0, i + 1)) == match first_current(s.subrange(0, i)) {
            Some(c) => Some(c),
            None => if s[i].is_current {
                Some(i)
            } else {
                None
            },
        },
{
    assert(s.subrange(0, i + 1).drop_last() =~= s.subrange(0, i));
}

/// The switch to perform to the worktree `w`.
pub fn switch_config(w: &WorktreeInfo) -> (r: WorktreeSwitchConfig)
    ensures
        r.target_name == w.name,
        r.target_path == w.path,
        r.target_branch == w.branch,
{
    WorktreeSwitchConfig {
        target_name: w.name.clone(),
        target_path: w.path.clone(),
        target_branch: w.branch.clone(),
    }
}

/// What a search was asked for.
#[derive(Debug, Clone)]
pub struct SearchConfig {
    pub query: String,
    pub show_current_indicator: bool,
}

/// The choices a search offers.
#[derive(Debug, Clone)]
pub struct SearchAnalysis {
    /// `name (branch)` of each worktree, with ` (current)` after the current one.
    pub items: Vec<String>,
    /// The number of worktrees.
    pub total_count: usize,
    /// Whether one of them is the current worktree.
    pub has_current: bool,
}

/// A search choice: `name (branch)`, with ` (current)` after the current
/// worktree.
pub open spec fn search_item(w: WorktreeInfo) -> Seq<char> {
    if w.is_current {
        worktree_line(w) + " (current)"@
    } else {
        worktree_line(w)
    }
}

/// The choices a search offers over `worktrees`.
pub fn create_search_items(worktrees: &Vec<WorktreeInfo>) -> (r: SearchAnalysis)
    ensures
        r.items@.len() == worktrees@.len(),
        forall|i: int| 0 <= i < r.items@.len() ==> #[trigger] r.items@[i]@ == search_item(worktrees@[i]),
        r.total_count == worktrees@.len(),
        r.has_current == exists|i: int| 0 <= i < worktrees@.len() && #[trigger] worktrees@[i].is_current,
{
    let lines = crate::git::list_worktrees(worktrees);
    let mut items: Vec<String> = Vec::new();
    let mut has_current = false;
    let mut i: usize = 0;
    while i < lines.len()
        invariant
            i <= lines.len(),
            lines@.len() == worktrees@.len(),
            items@.len() == i,
            forall|j: int| 0 <= j < i ==> #[trigger] items@[j]@ == search_item(worktrees@[j]),
            has_current == exists|j: int| 0 <= j < i && #[trigger] worktrees@[j].is_current,
        decreases lines.len() - i,
    {
        if worktrees[i].is_current {
            items.push(concat2(lines[i].as_str(), SEARCH_CURRENT_INDICATOR));
            has_current = true;
        } else {
            items.push(lines[i].clone());
        }
        i = i + 1;
    }
    SearchAnalysis { items, total_count: worktrees.len(), has_current }
}

/// The worktree at `selection_index`, if the index is in the list.
pub fn validate_search_selection(worktrees: &Vec<WorktreeInfo>, selection_index: usize) -> (r: Result<WorktreeInfo, SwitchError>)
    ensures
        selection_index < worktrees@.len() ==> r == Ok::<WorktreeInfo, SwitchError>(
            worktrees@[selection_index as int],
        ),
        selection_index >= worktrees@.len() ==> r == Err::<WorktreeInfo, SwitchError>(
            SwitchError::InvalidSelection,
        ),
{
    if selection_index >= worktrees.len() {
        return Err(SwitchError::InvalidSelection);
    }
    Ok(worktrees[selection_index].duplicate())
}

} // verus!
