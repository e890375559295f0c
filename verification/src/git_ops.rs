//! Read-only Git operations behind a trait, with an in-memory
//! implementation for tests.
#![verifier::loop_isolation(false)]

use vstd::prelude::*;
use crate::git::{copy_worktree_list, WorktreeInfo};
use crate::git_interface::GitError;
use crate::string_map::StringMap;
use crate::text::{concat2, concat3, owned, str_eq};

verus! {

/// A branch, local or remote.
#[derive(Debug, Clone)]
pub struct BranchInfo {
    /// The branch name (remote names without `origin/`).
    pub name: String,
    /// Whether it is a remote branch.
    pub is_remote: bool,
}

/// A tag, with the message of an annotated tag.
#[derive(Debug, Clone)]
pub struct TagInfo {
    pub name: String,
    pub message: Option<String>,
}

impl BranchInfo {
    /// A copy of this record.
    pub fn duplicate(&self) -> (r: Self)
        ensures
            r == *self,
    {
        BranchInfo { name: self.name.clone(), is_remote: self.is_remote }
    }
}

impl TagInfo {
    /// A copy of this record.
    pub fn duplicate(&self) -> (r: Self)
        ensures
            r == *self,
    {
        TagInfo { name: self.name.clone(), message: crate::git_interface::copy_opt(&self.message) }
    }
}

/// The branch records of the given local and remote names: local ones
/// first, each list in its order.
pub fn branch_infos(local: Vec<String>, remote: Vec<String>) -> (r: Vec<BranchInfo>)
    ensures
        r@.len() == local@.len() + remote@.len(),
        forall|i: int|
            0 <= i < local@.len() ==> (#[trigger] r@[i]).name == local@[i] && !r@[i].is_remote,
        forall|i: int|
            local@.len() <= i < r@.len() ==> (#[trigger] r@[i]).name == remote@[i - local@.len()]
                && r@[i].is_remote,
{
    let mut r: Vec<BranchInfo> = Vec::new();
    let mut i: usize = 0;
    while i < local.len()
        invariant
            i <= local.len(),
            r@.len() == i,
            forall|j: int| 0 <= j < i ==> (#[trigger] r@[j]).name == local@[j] && !r@[j].is_remote,
        decreases local.len() - i,
    {
        r.push(BranchInfo { name: local[i].clone(), is_remote: false });
        i = i + 1;
    }
    let mut k: usize = 0;
    while k < remote.len()
        invariant
            k <= remote.len(),
            r@.len() == local@.len() + k,
            forall|j: int| 0 <= j < local@.len() ==> (#[trigger] r@[j]).name == local@[j] && !r@[j].is_remote,
            forall|j: int|
                local@.len() <= j < r@.len() ==> (#[trigger] r@[j]).name == remote@[j - local@.len()]
                    && r@[j].is_remote,
        decreases remote.len() - k,
    {
        r.push(BranchInfo { name: remote[k].clone(), is_remote: true });
        k = k + 1;
    }
    r
}

/// The text describing a repository: `<root> (bare)` for a bare one, else
/// `<root> on <branch>`.
pub open spec fn repository_description(root: Seq<char>, is_bare: bool, branch: Seq<char>) -> Seq<char> {
    if is_bare {
        root + " (bare)"@
    } else {
        root + " on "@ + branch
    }
}

/// The read-only Git operations the interactive flows use.
pub trait GitReadOperations {
    /// All worktrees.
    fn list_worktrees(&self) -> Result<Vec<WorktreeInfo>, GitError>;

    /// All branches, local and remote.
    fn list_branches(&self) -> Result<Vec<BranchInfo>, GitError>;

    /// All tags with their messages.
    fn list_tags(&self) -> Result<Vec<TagInfo>, GitError>;

    /// The current branch (`HEAD` when detached).
    fn get_current_branch(&self) -> Result<String, GitError>;

    /// A one-line description of the repository.
    fn get_repository_info(&self) -> Result<String, GitError>;

    /// Whether the repository is bare.
    fn is_bare_repository(&self) -> Result<bool, GitError>;

    /// The repository's root directory.
    fn get_repository_root(&self) -> Result<String, GitError>;

    /// Whether a worktree called `name` exists.
    fn worktree_exists(&self, name: &str) -> Result<bool, GitError>;

    /// Which worktree each checked-out branch is in.
    fn get_branch_worktree_map(&self) -> Result<StringMap, GitError>;
}

/// An in-memory repository for tests of read-only flows.
pub struct MockGitOperations {
    worktrees: Vec<WorktreeInfo>,
    branches: Vec<BranchInfo>,
    tags: Vec<TagInfo>,
    current_branch: String,
    is_bare: bool,
    repository_root: String,
    branch_worktree_map: StringMap,
}

/// The worktree record `with_worktree` adds.
pub open spec fn added_worktree(w: WorktreeInfo, name: Seq<char>, path: Seq<char>, branch: Option<&str>) -> bool {
    &&& w.name@ == name
    &&& w.git_name@ == name
    &&& w.path@ == path
    &&& w.branch@ == match branch {
        Some(b) => b@,
        None => "HEAD"@,
    }
    &&& !w.is_locked
    &&& !w.is_current
    &&& !w.has_changes
    &&& w.last_commit is None
    &&& w.ahead_behind is None
}

impl MockGitOperations {
    /// The worktrees, in the order added.
    pub closed spec fn worktree_seq(&self) -> Seq<WorktreeInfo> {
        self.worktrees@
    }

    /// The branches, in the order added.
    pub closed spec fn branch_seq(&self) -> Seq<BranchInfo> {
        self.branches@
    }

    /// The tags, in the order added.
    pub closed spec fn tag_seq(&self) -> Seq<TagInfo> {
        self.tags@
    }

    /// The current branch.
    pub closed spec fn current(&self) -> Seq<char> {
        self.current_branch@
    }

    /// Whether the repository is bare.
    pub closed spec fn bare(&self) -> bool {
        self.is_bare
    }

    /// The repository root.
    pub closed spec fn root(&self) -> Seq<char> {
        self.repository_root@
    }

    /// Which worktree each branch given to `with_worktree` is in.
    pub closed spec fn branch_map(&self) -> Map<Seq<char>, Seq<char>> {
        self.branch_worktree_map@
    }

    /// An empty, non-bare repository at `/mock/repo` on branch `main`.
    pub fn new() -> (r: Self)
        ensures
            r.worktree_seq().len() == 0,
            r.branch_seq().len() == 0,
            r.tag_seq().len() == 0,
            r.current() == "main"@,
            !r.bare(),
            r.root() == "/mock/repo"@,
            r.branch_map() == Map::<Seq<char>, Seq<char>>::empty(),
    {
        MockGitOperations {
            worktrees: Vec::new(),
            branches: Vec::new(),
            tags: Vec::new(),
            current_branch: owned("main"),
            is_bare: false,
            repository_root: owned("/mock/repo"),
            branch_worktree_map: StringMap::new(),
        }
    }

    /// Adds a worktree (on `HEAD` when no branch is given); a given branch
    /// maps to the worktree.
    pub fn with_worktree(self, name: &str, path: &str, branch: Option<&str>) -> (r: Self)
        ensures
            r.worktree_seq().len() == self.worktree_seq().len() + 1,
            r.worktree_seq().drop_last() == self.worktree_seq(),
            added_worktree(r.worktree_seq().last(), name@, path@, branch),
            r.branch_map() == match branch {
                Some(b) => self.branch_map().insert(b@, name@),
                None => self.branch_map(),
            },
            r.branch_seq() == self.branch_seq(),
            r.tag_seq() == self.tag_seq(),
            r.current() == self.current(),
            r.bare() == self.bare(),
            r.root() == self.root(),
    {
        let mut s = self;
        let b = match branch {
            Some(x) => owned(x),
            None => owned("HEAD"),
        };
        s.worktrees.push(
            WorktreeInfo {
                name: owned(name),
                git_name: owned(name),
                path: owned(path),
                branch: b,
                is_locked: false,
                is_current: false,
                has_changes: false,
                last_commit: None,
                ahead_behind: None,
            },
        );
        assert(s.worktrees@.drop_last() =~= self.worktrees@);
        match branch {
            Some(x) => s.branch_worktree_map.insert(owned(x), owned(name)),
            None => {},
        }
        s
    }

    /// Adds a branch.
    pub fn with_branch(self, name: &str, is_remote: bool) -> (r: Self)
        ensures
            r.branch_seq().len() == self.branch_seq().len() + 1,
            r.branch_seq().drop_last() == self.branch_seq(),
            r.branch_seq().last().name@ == name@,
            r.branch_seq().last().is_remote == is_remote,
            r.worktree_seq() == self.worktree_seq(),
            r.tag_seq() == self.tag_seq(),
            r.current() == self.current(),
            r.bare() == self.bare(),
            r.root() == self.root(),
            r.branch_map() == self.branch_map(),
    {
        let mut s = self;
        s.branches.push(BranchInfo { name: owned(name), is_remote });
        assert(s.branches@.drop_last() =~= self.branches@);
        s
    }

    /// Adds a tag.
    pub fn with_tag(self, name: &str, message: Option<&str>) -> (r: Self)
        ensures
            r.tag_seq().len() == self.tag_seq().len() + 1,
            r.tag_seq().drop_last() == self.tag_seq(),
            r.tag_seq().last().name@ == name@,
            crate::pathname::opt_view(r.tag_seq().last().message) == crate::text::opt_str_view(message),
            r.worktree_seq() == self.worktree_seq(),
            r.branch_seq() == self.branch_seq(),
            r.current() == self.current(),
            r.bare() == self.bare(),
            r.root() == self.root(),
            r.branch_map() == self.branch_map(),
    {
        let mut s = self;
        let m = match message {
            Some(x) => Some(owned(x)),
            None => None,
        };
        s.tags.push(TagInfo { name: owned(name), message: m });
        assert(s.tags@.drop_last() =~= self.tags@);
        s
    }

    /// Sets the current branch.
    pub fn with_current_branch(self, branch: &str) -> (r: Self)
        ensures
            r.current() == branch@,
            r.worktree_seq() == self.worktree_seq(),
            r.branch_seq() == self.branch_seq(),
            r.tag_seq() == self.tag_seq(),
            r.bare() == self.bare(),
            r.root() == self.root(),
            r.branch_map() == self.branch_map(),
    {
        let mut s = self;
        s.current_branch = owned(branch);
        s
    }

    /// Makes the repository bare.
    pub fn as_bare(self) -> (r: Self)
        ensures
            r.bare(),
            r.worktree_seq() == self.worktree_seq(),
            r.branch_seq() == self.branch_seq(),
            r.tag_seq() == self.tag_seq(),
            r.current() == self.current(),
            r.root() == self.root(),
            r.branch_map() == self.branch_map(),
    {
        let mut s = self;
        s.is_bare = true;
        s
    }

    /// Sets the repository root.
    pub fn with_repository_root(self, path: &str) -> (r: Self)
        ensures
            r.root() == path@,
            r.worktree_seq() == self.worktree_seq(),
            r.branch_seq() == self.branch_seq(),
            r.tag_seq() == self.tag_seq(),
            r.current() == self.current(),
            r.bare() == self.bare(),
            r.branch_map() == self.branch_map(),
    {
        let mut s = self;
        s.repository_root = owned(path);
        s
    }

    /// Marks the worktree called `name` as the current one and every other
    /// one as not current.
    pub fn with_current_worktree(self, name: &str) -> (r: Self)
        ensures
            r.worktree_seq().len() == self.worktree_seq().len(),
            forall|i: int|
                0 <= i < r.worktree_seq().len() ==> #[trigger] r.worktree_seq()[i] == (WorktreeInfo {
                    is_current: self.worktree_seq()[i].name@ == name@,
                    ..self.worktree_seq()[i]
                }),
            r.branch_seq() == self.branch_seq(),
            r.tag_seq() == self.tag_seq(),
            r.current() == self.current(),
            r.bare() == self.bare(),
            r.root() == self.root(),
            r.branch_map() == self.branch_map(),
    {
        let mut s = self;
        let mut i: usize = 0;
        while i < s.worktrees.len()
            invariant
                i <= s.worktrees.len(),
                s.worktrees@.len() == self.worktrees@.len(),
                s.branches == self.branches,
                s.tags == self.tags,
                s.current_branch == self.current_branch,
                s.is_bare == self.is_bare,
                s.repository_root == self.repository_root,
                s.branch_worktree_map == self.branch_worktree_map,
                forall|j: int|
                    0 <= j < i ==> #[trigger] s.worktrees@[j] == (WorktreeInfo {
                        is_current: self.worktrees@[j].name@ == name@,
                        ..self.worktrees@[j]
                    }),
                forall|j: int| i <= j < s.worktrees@.len() ==> #[trigger] s.worktrees@[j] == self.worktrees@[j],
            decreases s.worktrees.len() - i,
        {
            let mut w = s.worktrees[i].duplicate();
            w.is_current = str_eq(w.name.as_str(), name);
            s.worktrees.set(i, w);
            i = i + 1;
        }
        s
    }

    /// Marks the worktrees called `name` as having changes.
    pub fn with_worktree_changes(self, name: &str) -> (r: Self)
        ensures
            r.worktree_seq().len() == self.worktree_seq().len(),
            forall|i: int|
                0 <= i < r.worktree_seq().len() ==> #[trigger] r.worktree_seq()[i] == (WorktreeInfo {
                    has_changes: self.worktree_seq()[i].has_changes || self.worktree_seq()[i].name@
                        == name@,
                    ..self.worktree_seq()[i]
                }),
            r.branch_seq() == self.branch_seq(),
            r.tag_seq() == self.tag_seq(),
            r.current() == self.current(),
            r.bare() == self.bare(),
            r.root() == self.root(),
            r.branch_map() == self.branch_map(),
    {
        let mut s = self;
        let mut i: usize = 0;
        while i < s.worktrees.len()
            invariant
                i <= s.worktrees.len(),
                s.worktrees@.len() == self.worktrees@.len(),
                s.branches == self.branches,
                s.tags == self.tags,
                s.current_branch == self.current_branch,
                s.is_bare == self.is_bare,
                s.repository_root == self.repository_root,
                s.branch_worktree_map == self.branch_worktree_map,
                forall|j: int|
                    0 <= j < i ==> #[trigger] s.worktrees@[j] == (WorktreeInfo {
                        has_changes: self.worktrees@[j].has_changes || self.worktrees@[j].name@ == name@,
                        ..self.worktrees@[j]
                    }),
                forall|j: int| i <= j < s.worktrees@.len() ==> #[trigger] s.worktrees@[j] == self.worktrees@[j],
            decreases s.worktrees.len() - i,
        {
            if str_eq(s.worktrees[i].name.as_str(), name) {
                let mut w = s.worktrees[i].duplicate();
                w.has_changes = true;
                s.worktrees.set(i, w);
            }
            i = i + 1;
        }
        s
    }
}

impl GitReadOperations for MockGitOperations {
    fn list_worktrees(&self) -> (r: Result<Vec<WorktreeInfo>, GitError>)
        ensures
            r matches Ok(v) && v@ == self.worktree_seq(),
    {
        Ok(copy_worktree_list(&self.worktrees))
    }

    fn list_branches(&self) -> (r: Result<Vec<BranchInfo>, GitError>)
        ensures
            r matches Ok(v) && v@ == self.branch_seq(),
    {
        let mut v: Vec<BranchInfo> = Vec::new();
        let mut i: usize = 0;
        while i < self.branches.len()
            invariant
                i <= self.branches.len(),
                v@ == self.branches@.subrange(0, i as int),
            decreases self.branches.len() - i,
        {
            v.push(self.branches[i].duplicate());
            i = i + 1;
            assert(v@ =~= self.branches@.subrange(0, i as int));
        }
        assert(self.branches@.subrange(0, self.branches.len() as int) =~= self.branches@);
        Ok(v)
    }

    fn list_tags(&self) -> (r: Result<Vec<TagInfo>, GitError>)
        ensures
            r matches Ok(v) && v@ == self.tag_seq(),
    {
        let mut v: Vec<TagInfo> = Vec::new();
        let mut i: usize = 0;
        while i < self.tags.len()
            invariant
                i <= self.tags.len(),
                v@ == self.tags@.subrange(0, i as int),
            decreases self.tags.len() - i,
        {
            v.push(self.tags[i].duplicate());
            i = i + 1;
            assert(v@ =~= self.tags@.subrange(0, i as int));
        }
        assert(self.tags@.subrange(0, self.tags.len() as int) =~= self.tags@);
        Ok(v)
    }

    fn get_current_branch(&self) -> (r: Result<String, GitError>)
        ensures
            r matches Ok(b) && b@ == self.current(),
    {
        Ok(self.current_branch.clone())
    }

    fn get_repository_info(&self) -> (r: Result<String, GitError>)
        ensures
            r matches Ok(s) && s@ == repository_description(self.root(), self.bare(), self.current()),
    {
        if self.is_bare {
            Ok(concat2(self.repository_root.as_str(), " (bare)"))
        } else {
            Ok(concat3(self.repository_root.as_str(), " on ", self.current_branch.as_str()))
        }
    }

    fn is_bare_repository(&self) -> (r: Result<bool, GitError>)
        ensures
            r == Ok::<bool, GitError>(self.bare()),
    {
        Ok(self.is_bare)
    }

    fn get_repository_root(&self) -> (r: Result<String, GitError>)
        ensures
            r matches Ok(p) && p@ == self.root(),
    {
        Ok(self.repository_root.clone())
    }

    fn worktree_exists(&self, name: &str) -> (r: Result<bool, GitError>)
        ensures
            r == Ok::<bool, GitError>(
                exists|i: int| 0 <= i < self.worktree_seq().len() && #[trigger] self.worktree_seq()[i].name@ == name@,
            ),
    {
        let mut i: usize = 0;
        while i < self.worktrees.len()
            invariant
                i <= self.worktrees.len(),
                forall|j: int| 0 <= j < i ==> self.worktrees@[j].name@ != name@,
            decreases self.worktrees.len() - i,
        {
            if str_eq(self.worktrees[i].name.as_str(), name) {
                assert(self.worktree_seq()[i as int].name@ == name@);
                return Ok(true);
            }
            i = i + 1;
        }
        Ok(false)
    }

    fn get_branch_worktree_map(&self) -> (r: Result<StringMap, GitError>)
        ensures
            r matches Ok(m) && m@ == self.branch_map(),
    {
        Ok(self.branch_worktree_map.duplicate())
    }
}

} // verus!
