//! An in-memory Git repository that implements [`GitInterface`], with
//! expectations a test can set on the operations it performs.
#![verifier::loop_isolation(false)]

use vstd::prelude::*;
use crate::git_interface::{
    copy_branches, copy_opt, copy_tags, copy_worktrees, BranchInfo, GitError, GitInterface,
    RepositoryInfo, TagInfo, WorktreeConfig, WorktreeInfo,
};
use crate::pathname::opt_view;
use crate::string_map::StringMap;
use crate::text::{owned, str_eq};

verus! {

/// An operation a test expects the mock to be asked for.
#[derive(Debug, Clone)]
pub enum Expectation {
    CreateWorktree { name: String, branch: Option<String> },
    RemoveWorktree { name: String },
    CreateBranch { name: String, base: Option<String> },
    DeleteBranch { name: String },
    ListWorktrees,
    ListBranches,
}

/// The kind of an expectation; expectations are matched by kind alone.
pub open spec fn expectation_kind(e: Expectation) -> int {
    match e {
        Expectation::CreateWorktree { .. } => 0,
        Expectation::RemoveWorktree { .. } => 1,
        Expectation::CreateBranch { .. } => 2,
        Expectation::DeleteBranch { .. } => 3,
        Expectation::ListWorktrees => 4,
        Expectation::ListBranches => 5,
    }
}

fn kind_of(e: &Expectation) -> (r: u8)
    ensures
        r as int == expectation_kind(*e),
{
    match e {
        Expectation::CreateWorktree { .. } => 0,
        Expectation::RemoveWorktree { .. } => 1,
        Expectation::CreateBranch { .. } => 2,
        Expectation::DeleteBranch { .. } => 3,
        Expectation::ListWorktrees => 4,
        Expectation::ListBranches => 5,
    }
}

/// Whether `i` is the first position in `s` of an expectation of kind `k`.
pub open spec fn is_first_of_kind(s: Seq<Expectation>, k: int, i: int) -> bool {
    &&& 0 <= i < s.len()
    &&& expectation_kind(s[i]) == k
    &&& forall|j: int| 0 <= j < i ==> expectation_kind(#[trigger] s[j]) != k
}

/// The expectations `s` after an operation of kind `k`: the first one of
/// that kind is met and leaves the list; without one, nothing changes.
pub open spec fn meet_expectation(s: Seq<Expectation>, k: int) -> Seq<Expectation> {
    if exists|i: int| is_first_of_kind(s, k, i) {
        s.remove(choose|i: int| is_first_of_kind(s, k, i))
    } else {
        s
    }
}

/// No two worktrees in `s` share a name.
pub open spec fn names_distinct(s: Seq<WorktreeInfo>) -> bool {
    forall|i: int, j: int|
        0 <= i < s.len() && 0 <= j < s.len() && #[trigger] s[i].name@ == #[trigger] s[j].name@
            ==> i == j
}

/// Whether entry `i` of `s` is the worktree called `n`.
pub open spec fn named_at(s: Seq<WorktreeInfo>, i: int, n: Seq<char>) -> bool {
    0 <= i < s.len() && s[i].name@ == n
}

/// Whether `s` holds a worktree called `n`.
pub open spec fn has_worktree(s: Seq<WorktreeInfo>, n: Seq<char>) -> bool {
    exists|i: int| named_at(s, i, n)
}

/// The position of the worktree called `n` in `s`.
pub open spec fn worktree_pos(s: Seq<WorktreeInfo>, n: Seq<char>) -> int {
    choose|i: int| named_at(s, i, n)
}

/// The worktree called `n` in `s`, if there is one.
pub open spec fn lookup_worktree(s: Seq<WorktreeInfo>, n: Seq<char>) -> Option<WorktreeInfo> {
    if has_worktree(s, n) {
        Some(s[worktree_pos(s, n)])
    } else {
        None
    }
}

/// `s` with `w` stored under its name, replacing a worktree of that name.
pub open spec fn store_worktree(s: Seq<WorktreeInfo>, w: WorktreeInfo) -> Seq<WorktreeInfo> {
    if has_worktree(s, w.name@) {
        s.update(worktree_pos(s, w.name@), w)
    } else {
        s.push(w)
    }
}

/// Whether `s` holds a branch called `n`.
pub open spec fn has_branch(s: Seq<BranchInfo>, n: Seq<char>) -> bool {
    exists|i: int| 0 <= i < s.len() && #[trigger] s[i].name@ == n
}

/// `s` without the branches called `n`, in order.
pub open spec fn without_branch(s: Seq<BranchInfo>, n: Seq<char>) -> Seq<BranchInfo> {
    s.filter(|b: BranchInfo| b.name@ != n)
}

/// The first main worktree of `s`, if there is one.
pub open spec fn first_main(s: Seq<WorktreeInfo>) -> Option<WorktreeInfo>
    decreases s.len(),
{
    if s.len() == 0 {
        None
    } else if s[0].is_main {
        Some(s[0])
    } else {
        first_main(s.drop_first())
    }
}

/// The branch records with the branch map they determine: each worktree's
/// branch maps to the worktree's name, later worktrees winning.
pub open spec fn branch_map_of(s: Seq<WorktreeInfo>) -> Map<Seq<char>, Seq<char>>
    decreases s.len(),
{
    if s.len() == 0 {
        Map::empty()
    } else {
        let m = branch_map_of(s.drop_last());
        match s.last().branch {
            Some(b) => m.insert(b@, s.last().name@),
            None => m,
        }
    }
}

struct GitState {
    worktrees: Vec<WorktreeInfo>,
    branches: Vec<BranchInfo>,
    tags: Vec<TagInfo>,
    current_branch: Option<String>,
    repository_path: String,
    is_bare: bool,
    branch_worktree_map: StringMap,
    expectations: Vec<Expectation>,
}

impl GitState {
    spec fn wf(&self) -> bool {
        names_distinct(self.worktrees@)
    }

    fn empty() -> (r: Self)
        ensures
            r.wf(),
            r.worktrees@.len() == 0,
            r.branches@.len() == 0,
            r.tags@.len() == 0,
            r.current_branch is None,
            r.repository_path@.len() == 0,
            !r.is_bare,
            r.branch_worktree_map@ == Map::<Seq<char>, Seq<char>>::empty(),
            r.expectations@.len() == 0,
    {
        GitState {
            worktrees: Vec::new(),
            branches: Vec::new(),
            tags: Vec::new(),
            current_branch: None,
            repository_path: String::new(),
            is_bare: false,
            branch_worktree_map: StringMap::new(),
            expectations: Vec::new(),
        }
    }

    /// Meets the first expectation of the kind of `e`, if any.
    fn check_expectation(&mut self, e: &Expectation) -> (r: bool)
        ensures
            final(self).expectations@ == meet_expectation(
                old(self).expectations@,
                expectation_kind(*e),
            ),
            r == exists|i: int|
                is_first_of_kind(old(self).expectations@, expectation_kind(*e), i),
            final(self).worktrees == old(self).worktrees,
            final(self).branches == old(self).branches,
            final(self).tags == old(self).tags,
            final(self).current_branch == old(self).current_branch,
            final(self).repository_path == old(self).repository_path,
            final(self).is_bare == old(self).is_bare,
            final(self).branch_worktree_map == old(self).branch_worktree_map,
    {
        let k = kind_of(e);
        let ghost s = self.expectations@;
        let mut i: usize = 0;
        while i < self.expectations.len()
            invariant
                i <= self.expectations.len(),
                *self == *old(self),
                self.expectations@ == s,
                forall|j: int| 0 <= j < i ==> expectation_kind(#[trigger] s[j]) != k,
            decreases self.expectations.len() - i,
        {
            if kind_of(&self.expectations[i]) == k {
                proof {
                    assert(is_first_of_kind(s, k as int, i as int));
                    let c = choose|c: int| is_first_of_kind(s, k as int, c);
                    assert(is_first_of_kind(s, k as int, c));
                    if c < i {
                        assert(expectation_kind(s[c]) != k);
                    }
                    if c > i {
                        assert(expectation_kind(s[i as int]) != k);
                    }
                }
                self.expectations.remove(i);
                return true;
            }
            i = i + 1;
        }
        proof {
            if exists|c: int| is_first_of_kind(s, k as int, c) {
                let c = choose|c: int| is_first_of_kind(s, k as int, c);
                assert(expectation_kind(s[c]) != k);
            }
        }
        false
    }

    fn find_worktree(&self, name: &str) -> (r: Option<usize>)
        requires
            self.wf(),
        ensures
            match r {
                Some(i) => has_worktree(self.worktrees@, name@) && i as int == worktree_pos(
                    self.worktrees@,
                    name@,
                ),
                None => !has_worktree(self.worktrees@, name@),
            },
    {
        let mut i: usize = 0;
        while i < self.worktrees.len()
            invariant
                i <= self.worktrees.len(),
                forall|j: int| 0 <= j < i ==> self.worktrees@[j].name@ != name@,
            decreases self.worktrees.len() - i,
        {
            if str_eq(self.worktrees[i].name.as_str(), name) {
                proof {
                    assert(named_at(self.worktrees@, i as int, name@));
                    let c = worktree_pos(self.worktrees@, name@);
                    assert(named_at(self.worktrees@, c, name@));
                }
                return Some(i);
            }
            i = i + 1;
        }
        proof {
            if has_worktree(self.worktrees@, name@) {
                let c = worktree_pos(self.worktrees@, name@);
                assert(named_at(self.worktrees@, c, name@));
            }
        }
        None
    }

    fn branch_known(&self, name: &str) -> (r: bool)
        ensures
            r == has_branch(self.branches@, name@),
    {
        let mut i: usize = 0;
        while i < self.branches.len()
            invariant
                i <= self.branches.len(),
                forall|j: int| 0 <= j < i ==> self.branches@[j].name@ != name@,
            decreases self.branches.len() - i,
        {
            if str_eq(self.branches[i].name.as_str(), name) {
                assert(self.branches@[i as int].name@ == name@);
                return true;
            }
            i = i + 1;
        }
        false
    }

    fn store(&mut self, w: WorktreeInfo)
        requires
            old(self).wf(),
        ensures
            final(self).wf(),
            final(self).worktrees@ == store_worktree(old(self).worktrees@, w),
            final(self).branches == old(self).branches,
            final(self).tags == old(self).tags,
            final(self).current_branch == old(self).current_branch,
            final(self).repository_path == old(self).repository_path,
            final(self).is_bare == old(self).is_bare,
            final(self).branch_worktree_map == old(self).branch_worktree_map,
            final(self).expectations == old(self).expectations,
    {
        let ghost before = self.worktrees@;
        match self.find_worktree(w.name.as_str()) {
            Some(i) => {
                self.worktrees.set(i, w);
                proof {
                    let s = self.worktrees@;
                    assert forall|a: int, b: int|
                        0 <= a < s.len() && 0 <= b < s.len() && #[trigger] s[a].name@
                            == #[trigger] s[b].name@ implies a == b by {
                        assert(s[a].name@ == before[a].name@);
                        assert(s[b].name@ == before[b].name@);
                    }
                }
            },
            None => {
                self.worktrees.push(w);
                proof {
                    let s = self.worktrees@;
                    assert forall|a: int, b: int|
                        0 <= a < s.len() && 0 <= b < s.len() && #[trigger] s[a].name@
                            == #[trigger] s[b].name@ implies a == b by {
                        if a < before.len() && b == before.len() {
                            assert(named_at(before, a, w.name@));
                        }
                        if b < before.len() && a == before.len() {
                            assert(named_at(before, b, w.name@));
                        }
                        if a < before.len() && b < before.len() {
                            assert(before[a].name@ == before[b].name@);
                        }
                    }
                }
            },
        }
    }

    fn record_branch(&mut self, w: &WorktreeInfo)
        requires
            old(self).wf(),
        ensures
            final(self).wf(),
            final(self).branch_worktree_map@ == match w.branch {
                Some(b) => old(self).branch_worktree_map@.insert(b@, w.name@),
                None => old(self).branch_worktree_map@,
            },
            final(self).worktrees == old(self).worktrees,
            final(self).branches == old(self).branches,
            final(self).tags == old(self).tags,
            final(self).current_branch == old(self).current_branch,
            final(self).repository_path == old(self).repository_path,
            final(self).is_bare == old(self).is_bare,
            final(self).expectations == old(self).expectations,
    {
        match &w.branch {
            Some(b) => {
                self.branch_worktree_map.insert(b.clone(), w.name.clone());
            },
            None => {},
        }
    }
}

/// An in-memory Git repository for tests.
///
/// Worktrees are kept by name (storing one under a taken name replaces
/// the old one), branches and tags in the order they were added.
pub struct MockGitInterface {
    state: GitState,
}

impl MockGitInterface {
    #[verifier::type_invariant]
    spec fn inv(&self) -> bool {
        self.state.wf()
    }

    /// The worktrees, by name.
    pub closed spec fn worktrees(&self) -> Seq<WorktreeInfo> {
        self.state.worktrees@
    }

    /// The branches, in order.
    pub closed spec fn branches(&self) -> Seq<BranchInfo> {
        self.state.branches@
    }

    /// The tags, in order.
    pub closed spec fn tags(&self) -> Seq<TagInfo> {
        self.state.tags@
    }

    /// The current branch.
    pub closed spec fn current_branch(&self) -> Option<String> {
        self.state.current_branch
    }

    /// The repository's path.
    pub closed spec fn repository_path(&self) -> Seq<char> {
        self.state.repository_path@
    }

    /// Whether the repository is bare.
    pub closed spec fn is_bare(&self) -> bool {
        self.state.is_bare
    }

    /// Which worktree each checked-out branch is in.
    pub closed spec fn branch_map(&self) -> Map<Seq<char>, Seq<char>> {
        self.state.branch_worktree_map@
    }

    /// The expectations not yet met.
    pub closed spec fn expectations(&self) -> Seq<Expectation> {
        self.state.expectations@
    }

    fn take_state(&mut self) -> (r: GitState)
        ensures
            r == old(self).state,
            r.wf(),
    {
        proof {
            use_type_invariant(&*self);
        }
        let mut st = GitState::empty();
        std::mem::swap(&mut st, &mut self.state);
        st
    }

    /// A repository at `/mock/repo` on branch `main`, with the one branch
    /// `main` (upstream `origin/main`, commit `abc123`) and nothing else.
    pub fn new() -> (r: Self)
        ensures
            names_distinct(r.worktrees()),
            r.worktrees().len() == 0,
            r.branches().len() == 1,
            r.branches()[0].name@ == "main"@,
            !r.branches()[0].is_remote,
            opt_view(r.branches()[0].upstream) == Some("origin/main"@),
            r.branches()[0].commit@ == "abc123"@,
            r.tags().len() == 0,
            opt_view(r.current_branch()) == Some("main"@),
            r.repository_path() == "/mock/repo"@,
            !r.is_bare(),
            r.branch_map() == Map::<Seq<char>, Seq<char>>::empty(),
            r.expectations().len() == 0,
    {
        let branches = vec![
            BranchInfo {
                name: owned("main"),
                is_remote: false,
                upstream: Some(owned("origin/main")),
                commit: owned("abc123"),
            },
        ];
        let state = GitState {
            worktrees: Vec::new(),
            branches,
            tags: Vec::new(),
            current_branch: Some(owned("main")),
            repository_path: owned("/mock/repo"),
            is_bare: false,
            branch_worktree_map: StringMap::new(),
            expectations: Vec::new(),
        };
        MockGitInterface { state }
    }

    /// A repository holding the given records.  Worktrees are stored by
    /// name, a later one replacing an earlier one of the same name; each
    /// worktree's branch maps to its name, later worktrees winning.
    pub fn with_scenario(
        worktrees: Vec<WorktreeInfo>,
        branches: Vec<BranchInfo>,
        tags: Vec<TagInfo>,
        repo_info: RepositoryInfo,
    ) -> (r: Self)
        ensures
            names_distinct(r.worktrees()),
            forall|n: Seq<char>|
                #![trigger lookup_worktree(r.worktrees(), n)]
                lookup_worktree(r.worktrees(), n) == lookup_last(worktrees@, n),
            r.branches() == branches@,
            r.tags() == tags@,
            r.current_branch() == repo_info.current_branch,
            r.repository_path() == repo_info.path@,
            r.is_bare() == repo_info.is_bare,
            r.branch_map() == branch_map_of(worktrees@),
            r.expectations().len() == 0,
    {
        let mut st = GitState {
            worktrees: Vec::new(),
            branches,
            tags,
            current_branch: repo_info.current_branch,
            repository_path: repo_info.path,
            is_bare: repo_info.is_bare,
            branch_worktree_map: StringMap::new(),
            expectations: Vec::new(),
        };
        let mut i: usize = 0;
        while i < worktrees.len()
            invariant
                i <= worktrees.len(),
                st.wf(),
                st.branches@ == branches@,
                st.tags@ == tags@,
                st.current_branch == repo_info.current_branch,
                st.repository_path == repo_info.path,
                st.is_bare == repo_info.is_bare,
                st.expectations@.len() == 0,
                st.branch_worktree_map@ == branch_map_of(worktrees@.subrange(0, i as int)),
                forall|n: Seq<char>|
                    #![trigger lookup_worktree(st.worktrees@, n)]
                    lookup_worktree(st.worktrees@, n) == lookup_last(
                        worktrees@.subrange(0, i as int),
                        n,
                    ),
            decreases worktrees.len() - i,
        {
            let w = worktrees[i].duplicate();
            let ghost prev = st.worktrees@;
            st.record_branch(&w);
            st.store(w);
            proof {
                let pre = worktrees@.subrange(0, i as int);
                let post = worktrees@.subrange(0, i + 1);
                assert(post.drop_last() =~= pre);
                assert forall|n: Seq<char>|
                    #![trigger lookup_worktree(st.worktrees@, n)]
                    lookup_worktree(st.worktrees@, n) == lookup_last(post, n) by {
                    lemma_store_lookup(prev, worktrees@[i as int], n);
                }
            }
            i = i + 1;
        }
        assert(worktrees@.subrange(0, worktrees.len() as int) =~= worktrees@);
        MockGitInterface { state: st }
    }

    /// Stores `worktree` under its name and maps its branch to it.
    pub fn add_worktree(&mut self, worktree: WorktreeInfo) -> (r: Result<(), GitError>)
        ensures
            names_distinct(final(self).worktrees()),
            r is Ok,
            final(self).worktrees() == store_worktree(old(self).worktrees(), worktree),
            forall|n: Seq<char>|
                #![trigger lookup_worktree(final(self).worktrees(), n)]
                lookup_worktree(final(self).worktrees(), n) == if n == worktree.name@ {
                    Some(worktree)
                } else {
                    lookup_worktree(old(self).worktrees(), n)
                },
            final(self).branch_map() == match worktree.branch {
                Some(b) => old(self).branch_map().insert(b@, worktree.name@),
                None => old(self).branch_map(),
            },
            final(self).branches() == old(self).branches(),
            final(self).tags() == old(self).tags(),
            final(self).current_branch() == old(self).current_branch(),
            final(self).repository_path() == old(self).repository_path(),
            final(self).is_bare() == old(self).is_bare(),
            final(self).expectations() == old(self).expectations(),
    {
        let mut st = self.take_state();
        let ghost before = st.worktrees@;
        let ghost w = worktree;
        st.record_branch(&worktree);
        st.store(worktree);
        self.state = st;
        proof {
            assert forall|n: Seq<char>| #[trigger] lookup_worktree(store_worktree(before, w), n) == if n == w.name@ {
                Some(w)
            } else {
                lookup_worktree(before, n)
            } by {
                lemma_store_lookup(before, w, n);
            }
        }
        Ok(())
    }

    /// Appends a branch.
    pub fn add_branch(&mut self, branch: BranchInfo) -> (r: Result<(), GitError>)
        ensures
            r is Ok,
            final(self).branches() == old(self).branches().push(branch),
            final(self).worktrees() == old(self).worktrees(),
            final(self).tags() == old(self).tags(),
            final(self).current_branch() == old(self).current_branch(),
            final(self).repository_path() == old(self).repository_path(),
            final(self).is_bare() == old(self).is_bare(),
            final(self).branch_map() == old(self).branch_map(),
            final(self).expectations() == old(self).expectations(),
    {
        let mut st = self.take_state();
        st.branches.push(branch);
        self.state = st;
        Ok(())
    }

    /// Appends a tag.
    pub fn add_tag(&mut self, tag: TagInfo) -> (r: Result<(), GitError>)
        ensures
            r is Ok,
            final(self).tags() == old(self).tags().push(tag),
            final(self).worktrees() == old(self).worktrees(),
            final(self).branches() == old(self).branches(),
            final(self).current_branch() == old(self).current_branch(),
            final(self).repository_path() == old(self).repository_path(),
            final(self).is_bare() == old(self).is_bare(),
            final(self).branch_map() == old(self).branch_map(),
            final(self).expectations() == old(self).expectations(),
    {
        let mut st = self.take_state();
        st.tags.push(tag);
        self.state = st;
        Ok(())
    }

    /// Sets the current branch.
    pub fn set_current_branch(&mut self, branch: Option<String>) -> (r: Result<(), GitError>)
        ensures
            r is Ok,
            final(self).current_branch() == branch,
            final(self).worktrees() == old(self).worktrees(),
            final(self).branches() == old(self).branches(),
            final(self).tags() == old(self).tags(),
            final(self).repository_path() == old(self).repository_path(),
            final(self).is_bare() == old(self).is_bare(),
            final(self).branch_map() == old(self).branch_map(),
            final(self).expectations() == old(self).expectations(),
    {
        let mut st = self.take_state();
        st.current_branch = branch;
        self.state = st;
        Ok(())
    }

    /// Adds an expectation.
    pub fn expect_operation(&mut self, expectation: Expectation)
        ensures
            final(self).expectations() == old(self).expectations().push(expectation),
            final(self).worktrees() == old(self).worktrees(),
            final(self).branches() == old(self).branches(),
            final(self).tags() == old(self).tags(),
            final(self).current_branch() == old(self).current_branch(),
            final(self).repository_path() == old(self).repository_path(),
            final(self).is_bare() == old(self).is_bare(),
            final(self).branch_map() == old(self).branch_map(),
    {
        let mut st = self.take_state();
        st.expectations.push(expectation);
        self.state = st;
    }

    /// Succeeds exactly when every expectation has been met.
    pub fn verify_expectations(&self) -> (r: Result<(), GitError>)
        ensures
            r is Ok <==> self.expectations().len() == 0,
            r matches Err(e) ==> e == GitError::UnmetExpectations(self.expectations().len() as usize),
    {
        if self.state.expectations.len() > 0 {
            return Err(GitError::UnmetExpectations(self.state.expectations.len()));
        }
        Ok(())
    }

    /// Drops every expectation.
    pub fn clear_expectations(&mut self)
        ensures
            final(self).expectations().len() == 0,
            final(self).worktrees() == old(self).worktrees(),
            final(self).branches() == old(self).branches(),
            final(self).tags() == old(self).tags(),
            final(self).current_branch() == old(self).current_branch(),
            final(self).repository_path() == old(self).repository_path(),
            final(self).is_bare() == old(self).is_bare(),
            final(self).branch_map() == old(self).branch_map(),
    {
        let mut st = self.take_state();
        st.expectations = Vec::new();
        self.state = st;
    }
}


impl GitInterface for MockGitInterface {
    /// The repository's path, bareness and current branch; the remote is
    /// `https://github.com/mock/repo.git`.
    fn get_repository_info(&self) -> (r: Result<RepositoryInfo, GitError>)
        ensures
            r matches Ok(info) && info.path@ == self.repository_path() && info.is_bare
                == self.is_bare() && info.current_branch == self.current_branch() && opt_view(
                info.remote_url,
            ) == Some("https://github.com/mock/repo.git"@),
    {
        Ok(
            RepositoryInfo {
                path: self.state.repository_path.clone(),
                is_bare: self.state.is_bare,
                current_branch: copy_opt(&self.state.current_branch),
                remote_url: Some(owned("https://github.com/mock/repo.git")),
            },
        )
    }

    /// The worktrees; meets a `ListWorktrees` expectation.
    fn list_worktrees(&mut self) -> (r: Result<Vec<WorktreeInfo>, GitError>)
        ensures
            r matches Ok(v) && v@ == old(self).worktrees(),
            final(self).expectations() == meet_expectation(old(self).expectations(), 4),
            final(self).worktrees() == old(self).worktrees(),
            final(self).branches() == old(self).branches(),
            final(self).tags() == old(self).tags(),
            final(self).current_branch() == old(self).current_branch(),
            final(self).repository_path() == old(self).repository_path(),
            final(self).is_bare() == old(self).is_bare(),
            final(self).branch_map() == old(self).branch_map(),
    {
        let mut st = self.take_state();
        st.check_expectation(&Expectation::ListWorktrees);
        let v = copy_worktrees(&st.worktrees);
        self.state = st;
        Ok(v)
    }

    /// Creates a worktree at commit `new123`, and first, when asked, its
    /// branch at commit `new456`... (see the contract).  Meets a
    /// `CreateWorktree` expectation whatever the outcome.
    fn create_worktree(&mut self, config: &WorktreeConfig) -> (r: Result<WorktreeInfo, GitError>)
        ensures
            names_distinct(final(self).worktrees()),
            final(self).expectations() == meet_expectation(old(self).expectations(), 0),
            final(self).tags() == old(self).tags(),
            final(self).current_branch() == old(self).current_branch(),
            final(self).repository_path() == old(self).repository_path(),
            final(self).is_bare() == old(self).is_bare(),
            has_worktree(old(self).worktrees(), config.name@) ==> r == Err::<WorktreeInfo, GitError>(
                GitError::WorktreeExists(config.name),
            ),
            !has_worktree(old(self).worktrees(), config.name@) && config.create_branch
                && config.branch is None ==> r == Err::<WorktreeInfo, GitError>(
                GitError::BranchNameRequired,
            ),
            !has_worktree(old(self).worktrees(), config.name@) && config.create_branch
                && config.branch is Some && has_branch(old(self).branches(), config.branch->0@)
                ==> r == Err::<WorktreeInfo, GitError>(GitError::BranchExists(config.branch->0)),
            r is Err ==> final(self).worktrees() == old(self).worktrees() && final(self).branches()
                == old(self).branches() && final(self).branch_map() == old(self).branch_map(),
            r is Ok <==> !has_worktree(old(self).worktrees(), config.name@) && (config.create_branch
                ==> config.branch is Some && !has_branch(old(self).branches(), config.branch->0@)),
            r matches Ok(w) ==> {
                &&& w.name == config.name
                &&& w.path == config.path
                &&& w.branch == config.branch
                &&& w.commit@ == "new123"@
                &&& !w.is_bare
                &&& !w.is_main
                &&& final(self).worktrees() == old(self).worktrees().push(w)
                &&& final(self).branch_map() == match config.branch {
                    Some(b) => old(self).branch_map().insert(b@, config.name@),
                    None => old(self).branch_map(),
                }
                &&& if config.create_branch {
                    &&& final(self).branches().len() == old(self).branches().len() + 1
                    &&& final(self).branches().drop_last() == old(self).branches()
                    &&& Some(final(self).branches().last().name) == config.branch
                    &&& !final(self).branches().last().is_remote
                    &&& final(self).branches().last().upstream is None
                    &&& final(self).branches().last().commit@ == "new123"@
                } else {
                    final(self).branches() == old(self).branches()
                }
            },
    {
        let mut st = self.take_state();
        st.check_expectation(
            &Expectation::CreateWorktree { name: config.name.clone(), branch: copy_opt(&config.branch) },
        );
        if st.find_worktree(config.name.as_str()).is_some() {
            self.state = st;
            return Err(GitError::WorktreeExists(config.name.clone()));
        }
        if config.create_branch {
            match &config.branch {
                None => {
                    self.state = st;
                    return Err(GitError::BranchNameRequired);
                },
                Some(b) => {
                    if st.branch_known(b.as_str()) {
                        self.state = st;
                        return Err(GitError::BranchExists(b.clone()));
                    }
                    let ghost before = st.branches@;
                    st.branches.push(
                        BranchInfo {
                            name: b.clone(),
                            is_remote: false,
                            upstream: None,
                            commit: owned("new123"),
                        },
                    );
                    assert(st.branches@.drop_last() =~= before);
                },
            }
        }
        let worktree = WorktreeInfo {
            name: config.name.clone(),
            path: config.path.clone(),
            branch: copy_opt(&config.branch),
            commit: owned("new123"),
            is_bare: false,
            is_main: false,
        };
        st.record_branch(&worktree);
        let stored = worktree.duplicate();
        st.store(stored);
        self.state = st;
        Ok(worktree)
    }

    /// Removes the worktree called `name` and its branch's map entry.
    /// Meets a `RemoveWorktree` expectation whatever the outcome.
    fn remove_worktree(&mut self, name: &str) -> (r: Result<(), GitError>)
        ensures
            names_distinct(final(self).worktrees()),
            final(self).expectations() == meet_expectation(old(self).expectations(), 1),
            final(self).branches() == old(self).branches(),
            final(self).tags() == old(self).tags(),
            final(self).current_branch() == old(self).current_branch(),
            final(self).repository_path() == old(self).repository_path(),
            final(self).is_bare() == old(self).is_bare(),
            r is Ok <==> has_worktree(old(self).worktrees(), name@),
            r matches Err(e) ==> e matches GitError::WorktreeNotFound(n) && n@ == name@,
            r is Err ==> final(self).worktrees() == old(self).worktrees() && final(self).branch_map()
                == old(self).branch_map(),
            r is Ok ==> {
                let w = old(self).worktrees()[worktree_pos(old(self).worktrees(), name@)];
                &&& final(self).worktrees() == old(self).worktrees().remove(
                    worktree_pos(old(self).worktrees(), name@),
                )
                &&& final(self).branch_map() == match w.branch {
                    Some(b) => old(self).branch_map().remove(b@),
                    None => old(self).branch_map(),
                }
            },
    {
        let mut st = self.take_state();
        st.check_expectation(&Expectation::RemoveWorktree { name: owned(name) });
        match st.find_worktree(name) {
            None => {
                self.state = st;
                Err(GitError::WorktreeNotFound(owned(name)))
            },
            Some(i) => {
                let ghost before = st.worktrees@;
                let w = st.worktrees.remove(i);
                proof {
                    let s = st.worktrees@;
                    assert forall|a: int, b: int|
                        0 <= a < s.len() && 0 <= b < s.len() && #[trigger] s[a].name@
                            == #[trigger] s[b].name@ implies a == b by {
                        let ia = if a < i { a } else { a + 1 };
                        let ib = if b < i { b } else { b + 1 };
                        assert(s[a] == before[ia]);
                        assert(s[b] == before[ib]);
                    }
                }
                match &w.branch {
                    Some(b) => st.branch_worktree_map.remove(b.as_str()),
                    None => {},
                }
                self.state = st;
                Ok(())
            },
        }
    }

    /// The branches; meets a `ListBranches` expectation.
    fn list_branches(&mut self) -> (r: Result<Vec<BranchInfo>, GitError>)
        ensures
            r matches Ok(v) && v@ == old(self).branches(),
            final(self).expectations() == meet_expectation(old(self).expectations(), 5),
            final(self).worktrees() == old(self).worktrees(),
            final(self).branches() == old(self).branches(),
            final(self).tags() == old(self).tags(),
            final(self).current_branch() == old(self).current_branch(),
            final(self).repository_path() == old(self).repository_path(),
            final(self).is_bare() == old(self).is_bare(),
            final(self).branch_map() == old(self).branch_map(),
    {
        let mut st = self.take_state();
        st.check_expectation(&Expectation::ListBranches);
        let v = copy_branches(&st.branches);
        self.state = st;
        Ok(v)
    }

    /// The tags.
    fn list_tags(&self) -> (r: Result<Vec<TagInfo>, GitError>)
        ensures
            r matches Ok(v) && v@ == self.tags(),
    {
        Ok(copy_tags(&self.state.tags))
    }

    /// The current branch.
    fn get_current_branch(&self) -> (r: Result<Option<String>, GitError>)
        ensures
            r == Ok::<Option<String>, GitError>(self.current_branch()),
    {
        Ok(copy_opt(&self.state.current_branch))
    }

    /// Whether a branch of this name is listed.
    fn branch_exists(&self, name: &str) -> (r: Result<bool, GitError>)
        ensures
            r == Ok::<bool, GitError>(has_branch(self.branches(), name@)),
    {
        Ok(self.state.branch_known(name))
    }

    /// Appends the local branch `name` at commit `new456`, unless a branch
    /// of that name exists.  Meets a `CreateBranch` expectation whatever
    /// the outcome.
    fn create_branch(&mut self, name: &str, base: Option<&str>) -> (r: Result<(), GitError>)
        ensures
            final(self).expectations() == meet_expectation(old(self).expectations(), 2),
            final(self).worktrees() == old(self).worktrees(),
            final(self).tags() == old(self).tags(),
            final(self).current_branch() == old(self).current_branch(),
            final(self).repository_path() == old(self).repository_path(),
            final(self).is_bare() == old(self).is_bare(),
            final(self).branch_map() == old(self).branch_map(),
            r is Ok <==> !has_branch(old(self).branches(), name@),
            r matches Err(e) ==> e matches GitError::BranchExists(n) && n@ == name@,
            r is Err ==> final(self).branches() == old(self).branches(),
            r is Ok ==> {
                &&& final(self).branches().len() == old(self).branches().len() + 1
                &&& final(self).branches().drop_last() == old(self).branches()
                &&& final(self).branches().last().name@ == name@
                &&& !final(self).branches().last().is_remote
                &&& final(self).branches().last().upstream is None
                &&& final(self).branches().last().commit@ == "new456"@
            },
    {
        let mut st = self.take_state();
        let b = match base {
            Some(x) => Some(owned(x)),
            None => None,
        };
        st.check_expectation(&Expectation::CreateBranch { name: owned(name), base: b });
        if st.branch_known(name) {
            self.state = st;
            return Err(GitError::BranchExists(owned(name)));
        }
        let ghost before = st.branches@;
        st.branches.push(
            BranchInfo { name: owned(name), is_remote: false, upstream: None, commit: owned("new456") },
        );
        assert(st.branches@.drop_last() =~= before);
        self.state = st;
        Ok(())
    }

    /// Deletes every branch called `name`; without `force`, refuses one
    /// that the branch map shows checked out.  Meets a `DeleteBranch`
    /// expectation whatever the outcome.
    fn delete_branch(&mut self, name: &str, force: bool) -> (r: Result<(), GitError>)
        ensures
            final(self).expectations() == meet_expectation(old(self).expectations(), 3),
            final(self).worktrees() == old(self).worktrees(),
            final(self).tags() == old(self).tags(),
            final(self).current_branch() == old(self).current_branch(),
            final(self).repository_path() == old(self).repository_path(),
            final(self).is_bare() == old(self).is_bare(),
            final(self).branch_map() == old(self).branch_map(),
            r is Err <==> !force && old(self).branch_map().contains_key(name@),
            r matches Err(e) ==> e matches GitError::BranchCheckedOut(n) && n@ == name@,
            r is Err ==> final(self).branches() == old(self).branches(),
            r is Ok ==> final(self).branches() == without_branch(old(self).branches(), name@),
    {
        let mut st = self.take_state();
        st.check_expectation(&Expectation::DeleteBranch { name: owned(name) });
        if !force && st.branch_worktree_map.contains_key(name) {
            self.state = st;
            return Err(GitError::BranchCheckedOut(owned(name)));
        }
        let ghost before = st.branches@;
        let mut kept: Vec<BranchInfo> = Vec::new();
        let mut i: usize = 0;
        while i < st.branches.len()
            invariant
                i <= st.branches.len(),
                st.branches@ == before,
                kept@ == without_branch(before.subrange(0, i as int), name@),
            decreases st.branches.len() - i,
        {
            proof {
                reveal(Seq::filter);
                assert(before.subrange(0, i + 1).drop_last() =~= before.subrange(0, i as int));
            }
            if !str_eq(st.branches[i].name.as_str(), name) {
                kept.push(st.branches[i].duplicate());
            }
            i = i + 1;
        }
        assert(before.subrange(0, before.len() as int) =~= before);
        st.branches = kept;
        self.state = st;
        Ok(())
    }

    /// The worktree called `name`, if there is one.
    fn get_worktree(&self, name: &str) -> (r: Result<Option<WorktreeInfo>, GitError>)
        ensures
            r == Ok::<Option<WorktreeInfo>, GitError>(lookup_worktree(self.worktrees(), name@)),
    {
        proof {
            use_type_invariant(self);
        }
        match self.state.find_worktree(name) {
            Some(i) => Ok(Some(self.state.worktrees[i].duplicate())),
            None => Ok(None),
        }
    }

    /// Gives the worktree `old_name` the name `new_name`.  The worktree is
    /// taken out before the new name is checked, so when the new name is
    /// taken the old worktree is gone and the error is returned.
    fn rename_worktree(&mut self, old_name: &str, new_name: &str) -> (r: Result<(), GitError>)
        ensures
            names_distinct(final(self).worktrees()),
            final(self).expectations() == old(self).expectations(),
            final(self).branches() == old(self).branches(),
            final(self).tags() == old(self).tags(),
            final(self).current_branch() == old(self).current_branch(),
            final(self).repository_path() == old(self).repository_path(),
            final(self).is_bare() == old(self).is_bare(),
            !has_worktree(old(self).worktrees(), old_name@) ==> {
                &&& r matches Err(e) && e matches GitError::WorktreeNotFound(n) && n@ == old_name@
                &&& final(self).worktrees() == old(self).worktrees()
                &&& final(self).branch_map() == old(self).branch_map()
            },
            has_worktree(old(self).worktrees(), old_name@) ==> {
                let p = worktree_pos(old(self).worktrees(), old_name@);
                let w = old(self).worktrees()[p];
                let rest = old(self).worktrees().remove(p);
                if has_worktree(rest, new_name@) {
                    &&& r matches Err(e) && e matches GitError::WorktreeExists(n) && n@ == new_name@
                    &&& final(self).worktrees() == rest
                    &&& final(self).branch_map() == old(self).branch_map()
                } else {
                    &&& r is Ok
                    &&& final(self).worktrees().len() == old(self).worktrees().len()
                    &&& final(self).worktrees().drop_last() == rest
                    &&& final(self).worktrees().last() == (WorktreeInfo { name: final(self).worktrees().last().name, ..w })
                    &&& final(self).worktrees().last().name@ == new_name@
                    &&& final(self).branch_map() == match w.branch {
                        Some(b) => old(self).branch_map().insert(b@, new_name@),
                        None => old(self).branch_map(),
                    }
                }
            },
    {
        let mut st = self.take_state();
        match st.find_worktree(old_name) {
            None => {
                self.state = st;
                Err(GitError::WorktreeNotFound(owned(old_name)))
            },
            Some(i) => {
                let ghost before = st.worktrees@;
                let w = st.worktrees.remove(i);
                proof {
                    let s = st.worktrees@;
                    assert forall|a: int, b: int|
                        0 <= a < s.len() && 0 <= b < s.len() && #[trigger] s[a].name@
                            == #[trigger] s[b].name@ implies a == b by {
                        let ia = if a < i { a } else { a + 1 };
                        let ib = if b < i { b } else { b + 1 };
                        assert(s[a] == before[ia]);
                        assert(s[b] == before[ib]);
                    }
                }
                if st.find_worktree(new_name).is_some() {
                    self.state = st;
                    return Err(GitError::WorktreeExists(owned(new_name)));
                }
                let renamed = WorktreeInfo {
                    name: owned(new_name),
                    path: w.path,
                    branch: w.branch,
                    commit: w.commit,
                    is_bare: w.is_bare,
                    is_main: w.is_main,
                };
                st.record_branch(&renamed);
                let ghost rest = st.worktrees@;
                st.store(renamed);
                assert(st.worktrees@.drop_last() =~= rest);
                self.state = st;
                Ok(())
            },
        }
    }

    /// Nothing to clean up in memory.
    fn prune_worktrees(&mut self) -> (r: Result<(), GitError>)
        ensures
            r is Ok,
            final(self).worktrees() == old(self).worktrees(),
            final(self).branches() == old(self).branches(),
            final(self).tags() == old(self).tags(),
            final(self).current_branch() == old(self).current_branch(),
            final(self).repository_path() == old(self).repository_path(),
            final(self).is_bare() == old(self).is_bare(),
            final(self).branch_map() == old(self).branch_map(),
            final(self).expectations() == old(self).expectations(),
    {
        Ok(())
    }

    /// The first main worktree, if there is one.
    fn get_main_worktree(&self) -> (r: Result<Option<WorktreeInfo>, GitError>)
        ensures
            r == Ok::<Option<WorktreeInfo>, GitError>(first_main(self.worktrees())),
    {
        let mut i: usize = 0;
        assert(self.worktrees().subrange(0, self.worktrees().len() as int) =~= self.worktrees());
        while i < self.state.worktrees.len()
            invariant
                i <= self.state.worktrees.len(),
                first_main(self.worktrees()) == first_main(self.worktrees().subrange(i as int, self.worktrees().len() as int)),
            decreases self.state.worktrees.len() - i,
        {
            let ghost rest = self.worktrees().subrange(i as int, self.worktrees().len() as int);
            assert(rest.drop_first() =~= self.worktrees().subrange(i + 1, self.worktrees().len() as int));
            if self.state.worktrees[i].is_main {
                return Ok(Some(self.state.worktrees[i].duplicate()));
            }
            i = i + 1;
        }
        Ok(None)
    }

    /// Whether any worktree is stored.
    fn has_worktrees(&self) -> (r: Result<bool, GitError>)
        ensures
            r == Ok::<bool, GitError>(self.worktrees().len() > 0),
    {
        Ok(self.state.worktrees.len() > 0)
    }

    /// The branch map.
    fn get_branch_worktree_map(&self) -> (r: Result<StringMap, GitError>)
        ensures
            r matches Ok(m) && m@ == self.branch_map(),
    {
        proof {
            use_type_invariant(self);
        }
        Ok(self.state.branch_worktree_map.duplicate())
    }
}

/// The last worktree called `n` in `s`, if there is one.
pub open spec fn lookup_last(s: Seq<WorktreeInfo>, n: Seq<char>) -> Option<WorktreeInfo>
    decreases s.len(),
{
    if s.len() == 0 {
        None
    } else if s.last().name@ == n {
        Some(s.last())
    } else {
        lookup_last(s.drop_last(), n)
    }
}

/// Storing `w` makes it what is found under its name, and leaves the
/// other names as they were.
pub proof fn lemma_store_lookup(s: Seq<WorktreeInfo>, w: WorktreeInfo, n: Seq<char>)
    requires
        names_distinct(s),
    ensures
        names_distinct(store_worktree(s, w)),
        lookup_worktree(store_worktree(s, w), n) == if n == w.name@ {
            Some(w)
        } else {
            lookup_worktree(s, n)
        },
{
    let t = store_worktree(s, w);
    if has_worktree(s, w.name@) {
        let p = worktree_pos(s, w.name@);
        assert(named_at(s, p, w.name@));
        assert(names_distinct(t)) by {
            assert forall|a: int, b: int|
                0 <= a < t.len() && 0 <= b < t.len() && #[trigger] t[a].name@ == #[trigger] t[b].name@
                implies a == b by {
                assert(t[a].name@ == s[a].name@);
                assert(t[b].name@ == s[b].name@);
            }
        }
        if n == w.name@ {
            assert(named_at(t, p, n));
            let q = worktree_pos(t, n);
            assert(named_at(t, q, n));
        } else {
            if has_worktree(s, n) {
                let q = worktree_pos(s, n);
                assert(named_at(s, q, n));
                assert(named_at(t, q, n));
                let q2 = worktree_pos(t, n);
                assert(named_at(t, q2, n));
            }
            if has_worktree(t, n) {
                let q2 = worktree_pos(t, n);
                assert(named_at(t, q2, n));
                assert(named_at(s, q2, n));
            }
        }
    } else {
        let m = s.len() as int;
        assert(names_distinct(t)) by {
            assert forall|a: int, b: int|
                0 <= a < t.len() && 0 <= b < t.len() && #[trigger] t[a].name@ == #[trigger] t[b].name@
                implies a == b by {
                if a < m && b == m {
                    assert(named_at(s, a, w.name@));
                }
                if b < m && a == m {
                    assert(named_at(s, b, w.name@));
                }
                if a < m && b < m {
                    assert(s[a].name@ == s[b].name@);
                }
            }
        }
        if n == w.name@ {
            assert(named_at(t, m, n));
            let q = worktree_pos(t, n);
            assert(named_at(t, q, n));
        } else {
            if has_worktree(s, n) {
                let q = worktree_pos(s, n);
                assert(named_at(s, q, n));
                assert(named_at(t, q, n));
                let q2 = worktree_pos(t, n);
                assert(named_at(t, q2, n));
            }
            if has_worktree(t, n) {
                let q2 = worktree_pos(t, n);
                assert(named_at(t, q2, n));
                assert(named_at(s, q2, n));
            }
        }
    }
}

/// A worktree created under a free name is what is then found under that
/// name; every other name finds what it found before.
pub proof fn law_created_worktree_is_found(s: Seq<WorktreeInfo>, w: WorktreeInfo, n: Seq<char>)
    requires
        names_distinct(s),
        !has_worktree(s, w.name@),
    ensures
        names_distinct(s.push(w)),
        lookup_worktree(s.push(w), n) == if n == w.name@ {
            Some(w)
        } else {
            lookup_worktree(s, n)
        },
{
    lemma_store_lookup(s, w, n);
    assert(store_worktree(s, w) == s.push(w));
}

/// A removed worktree is no longer found under its name; every other name
/// finds what it found before.
pub proof fn law_removed_worktree_is_gone(s: Seq<WorktreeInfo>, name: Seq<char>, n: Seq<char>)
    requires
        names_distinct(s),
        has_worktree(s, name),
    ensures
        names_distinct(s.remove(worktree_pos(s, name))),
        lookup_worktree(s.remove(worktree_pos(s, name)), n) == if n == name {
            None
        } else {
            lookup_worktree(s, n)
        },
{
    let p = worktree_pos(s, name);
    assert(named_at(s, p, name));
    let t = s.remove(p);
    let idx = |j: int| if j < p { j } else { j + 1 };
    assert forall|j: int| 0 <= j < t.len() implies #[trigger] t[j] == s[idx(j)] by {}
    assert(names_distinct(t)) by {
        assert forall|a: int, b: int|
            0 <= a < t.len() && 0 <= b < t.len() && #[trigger] t[a].name@ == #[trigger] t[b].name@
            implies a == b by {
            assert(t[a] == s[idx(a)]);
            assert(t[b] == s[idx(b)]);
        }
    }
    if has_worktree(t, n) {
        let q = worktree_pos(t, n);
        assert(named_at(t, q, n));
        assert(t[q] == s[idx(q)]);
        assert(named_at(s, idx(q), n));
        if n == name {
            assert(idx(q) == p);
        } else {
            let q2 = worktree_pos(s, n);
            assert(named_at(s, q2, n));
        }
    } else if n != name && has_worktree(s, n) {
        let q2 = worktree_pos(s, n);
        assert(named_at(s, q2, n));
        assert(q2 != p);
        let j = if q2 < p { q2 } else { q2 - 1 };
        assert(t[j] == s[idx(j)]);
        assert(named_at(t, j, n));
    }
}

/// A created branch is listed; a deleted branch is not.
pub proof fn law_branch_created_then_deleted(s: Seq<BranchInfo>, b: BranchInfo)
    ensures
        has_branch(s.push(b), b.name@),
        !has_branch(without_branch(s.push(b), b.name@), b.name@),
        forall|n: Seq<char>|
            n != b.name@ ==> (has_branch(without_branch(s, b.name@), n) <==> has_branch(s, n)),
{
    assert(s.push(b)[s.len() as int].name@ == b.name@);
    let t = without_branch(s.push(b), b.name@);
    let pred = |x: BranchInfo| x.name@ != b.name@;
    assert forall|i: int| 0 <= i < t.len() implies #[trigger] t[i].name@ != b.name@ by {
        s.push(b).lemma_filter_pred(pred, i);
    }
    assert forall|n: Seq<char>| n != b.name@ implies (has_branch(without_branch(s, b.name@), n)
        <==> has_branch(s, n)) by {
        let f = without_branch(s, b.name@);
        if has_branch(f, n) {
            let i = choose|i: int| 0 <= i < f.len() && #[trigger] f[i].name@ == n;
            s.lemma_filter_contains_rev(pred, f[i]);
            s.lemma_filter_pred(pred, i);
            assert(f.contains(f[i]));
            let k = choose|k: int| 0 <= k < s.len() && s[k] == f[i];
            assert(s[k].name@ == n);
        }
        if has_branch(s, n) {
            let k = choose|k: int| 0 <= k < s.len() && #[trigger] s[k].name@ == n;
            s.lemma_filter_contains(pred, k);
            assert(f.contains(s[k]));
            let i = choose|i: int| 0 <= i < f.len() && f[i] == s[k];
            assert(f[i].name@ == n);
        }
    }
}

} // verus!
