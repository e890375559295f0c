//! The Git operations the worktree manager needs, as a trait, with the
//! records they exchange and an in-memory implementation.

use vstd::prelude::*;
use crate::pathname::opt_view;
use crate::text::{opt_str_view, owned};

pub mod mock_git;
pub mod porcelain;

pub use mock_git::MockGitInterface;

verus! {

/// A Git worktree with its metadata.
#[derive(Debug, Clone, PartialEq)]
pub struct WorktreeInfo {
    pub name: String,
    pub path: String,
    pub branch: Option<String>,
    pub commit: String,
    pub is_bare: bool,
    pub is_main: bool,
}

/// What to create a worktree with.
#[derive(Debug, Clone)]
pub struct WorktreeConfig {
    pub name: String,
    pub path: String,
    pub branch: Option<String>,
    pub create_branch: bool,
    pub base_branch: Option<String>,
}

/// A Git branch.
#[derive(Debug, Clone, PartialEq)]
pub struct BranchInfo {
    pub name: String,
    pub is_remote: bool,
    pub upstream: Option<String>,
    pub commit: String,
}

/// A Git tag.
#[derive(Debug, Clone, PartialEq)]
pub struct TagInfo {
    pub name: String,
    pub commit: String,
    pub message: Option<String>,
    pub is_annotated: bool,
}

/// Facts about a repository.
#[derive(Debug, Clone)]
pub struct RepositoryInfo {
    pub path: String,
    pub is_bare: bool,
    pub current_branch: Option<String>,
    pub remote_url: Option<String>,
}

/// Why a Git operation failed.
#[derive(Debug, Clone, PartialEq)]
pub enum GitError {
    /// A worktree of this name exists already.
    WorktreeExists(String),
    /// No worktree has this name.
    WorktreeNotFound(String),
    /// A new branch was asked for without a name.
    BranchNameRequired,
    /// A branch of this name exists already.
    BranchExists(String),
    /// The branch is checked out in a worktree.
    BranchCheckedOut(String),
    /// Expectations were set that no operation met; their number.
    UnmetExpectations(usize),
    /// The underlying Git backend reported this failure.
    Backend(String),
}

/// An optional string, copied.
pub fn copy_opt(o: &Option<String>) -> (r: Option<String>)
    ensures
        r == *o,
{
    match o {
        Some(s) => Some(s.clone()),
        None => None,
    }
}

impl WorktreeInfo {
    /// A copy of this record.
    pub fn duplicate(&self) -> (r: Self)
        ensures
            r == *self,
    {
        WorktreeInfo {
            name: self.name.clone(),
            path: self.path.clone(),
            branch: copy_opt(&self.branch),
            commit: self.commit.clone(),
            is_bare: self.is_bare,
            is_main: self.is_main,
        }
    }
}

impl BranchInfo {
    /// A copy of this record.
    pub fn duplicate(&self) -> (r: Self)
        ensures
            r == *self,
    {
        BranchInfo {
            name: self.name.clone(),
            is_remote: self.is_remote,
            upstream: copy_opt(&self.upstream),
            commit: self.commit.clone(),
        }
    }
}

impl TagInfo {
    /// A copy of this record.
    pub fn duplicate(&self) -> (r: Self)
        ensures
            r == *self,
    {
        TagInfo {
            name: self.name.clone(),
            commit: self.commit.clone(),
            message: copy_opt(&self.message),
            is_annotated: self.is_annotated,
        }
    }
}

/// Copies of the worktree records `v`, in order.
pub fn copy_worktrees(v: &Vec<WorktreeInfo>) -> (r: Vec<WorktreeInfo>)
    ensures
        r@ == v@,
{
    let mut r: Vec<WorktreeInfo> = Vec::new();
    let mut i: usize = 0;
    while i < v.len()
        invariant
            i <= v.len(),
            r@ == v@.subrange(0, i as int),
        decreases v.len() - i,
    {
        r.push(v[i].duplicate());
        i = i + 1;
        assert(r@ =~= v@.subrange(0, i as int));
    }
    assert(v@.subrange(0, v.len() as int) =~= v@);
    r
}

/// Copies of the branch records `v`, in order.
pub fn copy_branches(v: &Vec<BranchInfo>) -> (r: Vec<BranchInfo>)
    ensures
        r@ == v@,
{
    let mut r: Vec<BranchInfo> = Vec::new();
    let mut i: usize = 0;
    while i < v.len()
        invariant
            i <= v.len(),
            r@ == v@.subrange(0, i as int),
        decreases v.len() - i,
    {
        r.push(v[i].duplicate());
        i = i + 1;
        assert(r@ =~= v@.subrange(0, i as int));
    }
    assert(v@.subrange(0, v.len() as int) =~= v@);
    r
}

/// Copies of the tag records `v`, in order.
pub fn copy_tags(v: &Vec<TagInfo>) -> (r: Vec<TagInfo>)
    ensures
        r@ == v@,
{
    let mut r: Vec<TagInfo> = Vec::new();
    let mut i: usize = 0;
    while i < v.len()
        invariant
            i <= v.len(),
            r@ == v@.subrange(0, i as int),
        decreases v.len() - i,
    {
        r.push(v[i].duplicate());
        i = i + 1;
        assert(r@ =~= v@.subrange(0, i as int));
    }
    assert(v@.subrange(0, v.len() as int) =~= v@);
    r
}

/// The operations on a Git repository that the worktree manager uses.
///
/// Operations that change the repository take `&mut self`.
pub trait GitInterface {
    /// Facts about the repository.
    fn get_repository_info(&self) -> Result<RepositoryInfo, GitError>;

    /// All worktrees of the repository.
    fn list_worktrees(&mut self) -> Result<Vec<WorktreeInfo>, GitError>;

    /// Creates a worktree as `config` describes.
    fn create_worktree(&mut self, config: &WorktreeConfig) -> Result<WorktreeInfo, GitError>;

    /// Removes the worktree called `name`.
    fn remove_worktree(&mut self, name: &str) -> Result<(), GitError>;

    /// All branches.
    fn list_branches(&mut self) -> Result<Vec<BranchInfo>, GitError>;

    /// All tags.
    fn list_tags(&self) -> Result<Vec<TagInfo>, GitError>;

    /// The branch checked out at HEAD, if HEAD is on a branch.
    fn get_current_branch(&self) -> Result<Option<String>, GitError>;

    /// Whether a branch called `name` exists.
    fn branch_exists(&self, name: &str) -> Result<bool, GitError>;

    /// Creates the branch `name`, from `base` or from HEAD.
    fn create_branch(&mut self, name: &str, base: Option<&str>) -> Result<(), GitError>;

    /// Deletes the branch `name`.
    fn delete_branch(&mut self, name: &str, force: bool) -> Result<(), GitError>;

    /// The worktree called `name`, if there is one.
    fn get_worktree(&self, name: &str) -> Result<Option<WorktreeInfo>, GitError>;

    /// Gives the worktree `old_name` the name `new_name`.
    fn rename_worktree(&mut self, old_name: &str, new_name: &str) -> Result<(), GitError>;

    /// Cleans up stale worktree entries.
    fn prune_worktrees(&mut self) -> Result<(), GitError>;

    /// The main worktree, if there is one.
    fn get_main_worktree(&self) -> Result<Option<WorktreeInfo>, GitError>;

    /// Whether the repository has any worktree.
    fn has_worktrees(&self) -> Result<bool, GitError>;

    /// Which worktree each checked-out branch is in.
    fn get_branch_worktree_map(&self) -> Result<crate::string_map::StringMap, GitError>;
}

/// Builds the records of a test scenario: worktrees, branches, tags and
/// repository facts.
pub struct GitScenarioBuilder {
    worktrees: Vec<WorktreeInfo>,
    branches: Vec<BranchInfo>,
    tags: Vec<TagInfo>,
    current_branch: Option<String>,
    repository_path: String,
    is_bare: bool,
}

impl GitScenarioBuilder {
    /// The worktrees added so far.
    pub closed spec fn worktree_seq(&self) -> Seq<WorktreeInfo> {
        self.worktrees@
    }

    /// The branches added so far.
    pub closed spec fn branch_seq(&self) -> Seq<BranchInfo> {
        self.branches@
    }

    /// The tags added so far.
    pub closed spec fn tag_seq(&self) -> Seq<TagInfo> {
        self.tags@
    }

    /// The current branch of the scenario.
    pub closed spec fn current(&self) -> Option<String> {
        self.current_branch
    }

    /// Whether the scenario's repository is bare.
    pub closed spec fn bare(&self) -> bool {
        self.is_bare
    }

    /// The scenario's repository path.
    pub closed spec fn repo_path(&self) -> Seq<char> {
        self.repository_path@
    }

    /// An empty scenario: no worktrees, branches or tags, on branch `main`,
    /// at `/test/repo`, not bare.
    pub fn new() -> (r: Self)
        ensures
            r.worktree_seq().len() == 0,
            r.branch_seq().len() == 0,
            r.tag_seq().len() == 0,
            opt_view(r.current()) == Some("main"@),
            r.repo_path() == "/test/repo"@,
            !r.bare(),
    {
        GitScenarioBuilder {
            worktrees: Vec::new(),
            branches: Vec::new(),
            tags: Vec::new(),
            current_branch: Some(owned("main")),
            repository_path: owned("/test/repo"),
            is_bare: false,
        }
    }

    /// Adds a worktree at commit `abc123`; it is the main one when its name
    /// is `main`.
    pub fn with_worktree(self, name: &str, path: &str, branch: Option<&str>) -> (r: Self)
        ensures
            r.worktree_seq().len() == self.worktree_seq().len() + 1,
            r.worktree_seq().drop_last() == self.worktree_seq(),
            r.worktree_seq().last().name@ == name@,
            r.worktree_seq().last().path@ == path@,
            opt_view(r.worktree_seq().last().branch) == opt_str_view(branch),
            r.worktree_seq().last().commit@ == "abc123"@,
            !r.worktree_seq().last().is_bare,
            r.worktree_seq().last().is_main == (name@ == "main"@),
            r.branch_seq() == self.branch_seq(),
            r.tag_seq() == self.tag_seq(),
            r.current() == self.current(),
            r.repo_path() == self.repo_path(),
            r.bare() == self.bare(),
    {
        let mut s = self;
        let is_main = crate::text::str_eq(name, "main");
        let b = match branch {
            Some(x) => Some(owned(x)),
            None => None,
        };
        s.worktrees.push(
            WorktreeInfo {
                name: owned(name),
                path: owned(path),
                branch: b,
                commit: owned("abc123"),
                is_bare: false,
                is_main,
            },
        );
        assert(s.worktrees@.drop_last() =~= self.worktrees@);
        s
    }

    /// Adds a branch at commit `def456`; a local branch gets the upstream
    /// `origin/<name>`.
    pub fn with_branch(self, name: &str, is_remote: bool) -> (r: Self)
        ensures
            r.branch_seq().len() == self.branch_seq().len() + 1,
            r.branch_seq().drop_last() == self.branch_seq(),
            r.branch_seq().last().name@ == name@,
            r.branch_seq().last().is_remote == is_remote,
            is_remote ==> r.branch_seq().last().upstream is None,
            !is_remote ==> opt_view(r.branch_seq().last().upstream) == Some("origin/"@ + name@),
            r.branch_seq().last().commit@ == "def456"@,
            r.worktree_seq() == self.worktree_seq(),
            r.tag_seq() == self.tag_seq(),
            r.current() == self.current(),
            r.repo_path() == self.repo_path(),
            r.bare() == self.bare(),
    {
        let mut s = self;
        let upstream = if is_remote {
            None
        } else {
            Some(crate::text::concat2("origin/", name))
        };
        s.branches.push(
            BranchInfo { name: owned(name), is_remote, upstream, commit: owned("def456") },
        );
        assert(s.branches@.drop_last() =~= self.branches@);
        s
    }

    /// Adds a tag at commit `tag789`; it is annotated when it has a message.
    pub fn with_tag(self, name: &str, message: Option<&str>) -> (r: Self)
        ensures
            r.tag_seq().len() == self.tag_seq().len() + 1,
            r.tag_seq().drop_last() == self.tag_seq(),
            r.tag_seq().last().name@ == name@,
            r.tag_seq().last().commit@ == "tag789"@,
            opt_view(r.tag_seq().last().message) == opt_str_view(message),
            r.tag_seq().last().is_annotated == message is Some,
            r.worktree_seq() == self.worktree_seq(),
            r.branch_seq() == self.branch_seq(),
            r.current() == self.current(),
            r.repo_path() == self.repo_path(),
            r.bare() == self.bare(),
    {
        let mut s = self;
        let m = match message {
            Some(x) => Some(owned(x)),
            None => None,
        };
        let is_annotated = message.is_some();
        s.tags.push(TagInfo { name: owned(name), commit: owned("tag789"), message: m, is_annotated });
        assert(s.tags@.drop_last() =~= self.tags@);
        s
    }

    /// Sets the current branch.
    pub fn with_current_branch(self, branch: &str) -> (r: Self)
        ensures
            opt_view(r.current()) == Some(branch@),
            r.worktree_seq() == self.worktree_seq(),
            r.branch_seq() == self.branch_seq(),
            r.tag_seq() == self.tag_seq(),
            r.repo_path() == self.repo_path(),
            r.bare() == self.bare(),
    {
        let mut s = self;
        s.current_branch = Some(owned(branch));
        s
    }

    /// Sets whether the repository is bare.
    pub fn with_bare_repository(self, is_bare: bool) -> (r: Self)
        ensures
            r.bare() == is_bare,
            r.worktree_seq() == self.worktree_seq(),
            r.branch_seq() == self.branch_seq(),
            r.tag_seq() == self.tag_seq(),
            r.current() == self.current(),
            r.repo_path() == self.repo_path(),
    {
        let mut s = self;
        s.is_bare = is_bare;
        s
    }

    /// The scenario's records; the repository's remote is
    /// `https://github.com/test/repo.git`.
    pub fn build(self) -> (r: (Vec<WorktreeInfo>, Vec<BranchInfo>, Vec<TagInfo>, RepositoryInfo))
        ensures
            r.0@ == self.worktree_seq(),
            r.1@ == self.branch_seq(),
            r.2@ == self.tag_seq(),
            r.3.path@ == self.repo_path(),
            r.3.is_bare == self.bare(),
            r.3.current_branch == self.current(),
            opt_view(r.3.remote_url) == Some("https://github.com/test/repo.git"@),
    {
        let repo_info = RepositoryInfo {
            path: self.repository_path,
            is_bare: self.is_bare,
            current_branch: self.current_branch,
            remote_url: Some(owned("https://github.com/test/repo.git")),
        };
        (self.worktrees, self.branches, self.tags, repo_info)
    }
}

} // verus!
