//! Worktree records as the manager displays them, and the decisions the
//! Git worktree manager takes around the repository: where a new worktree
//! goes, which `git worktree add` arguments check out a branch or tag, how
//! branch and tag lists are tidied, and what renaming a worktree writes.
#![verifier::loop_isolation(false)]

use vstd::prelude::*;
use crate::constants::{
    DEFAULT_MESSAGE_NONE, DEFAULT_AUTHOR_UNKNOWN, GIT_ADD, GIT_GITDIR_PREFIX, GIT_GITDIR_SUFFIX,
    GIT_OPT_BRANCH, GIT_REFS_TAGS, GIT_REMOTE_PREFIX, GIT_WORKTREE,
};
use crate::pathname::{opt_view, path_eq, path_join, path_parent, std_path_eq, std_path_join,
    std_path_parent};
use crate::sorting::{lemma_multiset_map, sort_by_key, sorted_by_key, SortKey};
use crate::text::{chars_of, concat2, concat3, contains_char, is_prefix, is_white_space, owned,
    starts_with_chars, str_eq, string_from_chars};

verus! {

/// The last commit of a worktree, for display.
#[derive(Debug, Clone)]
pub struct CommitInfo {
    /// The first characters of the commit id.
    pub id: String,
    /// The first line of the commit message.
    pub message: String,
    /// The author's name.
    pub author: String,
    /// The commit time as `YYYY-MM-DD HH:MM` (UTC).
    pub time: String,
}

/// A worktree as the manager lists it.
#[derive(Debug, Clone)]
pub struct WorktreeInfo {
    /// The worktree's name as shown.
    pub name: String,
    /// The name Git knows the worktree by.
    pub git_name: String,
    /// Its absolute path.
    pub path: String,
    /// The branch checked out, or `detached` / `unknown`.
    pub branch: String,
    /// Whether the worktree is locked.
    pub is_locked: bool,
    /// Whether the current directory lies in it.
    pub is_current: bool,
    /// Whether it has uncommitted changes.
    pub has_changes: bool,
    /// Its last commit.
    pub last_commit: Option<CommitInfo>,
    /// Commits ahead of and behind the upstream branch.
    pub ahead_behind: Option<(usize, usize)>,
}

impl CommitInfo {
    /// A copy of this record.
    pub fn duplicate(&self) -> (r: Self)
        ensures
            r == *self,
    {
        CommitInfo {
            id: self.id.clone(),
            message: self.message.clone(),
            author: self.author.clone(),
            time: self.time.clone(),
        }
    }
}

impl WorktreeInfo {
    /// A copy of this record.
    pub fn duplicate(&self) -> (r: Self)
        ensures
            r == *self,
    {
        let last_commit = match &self.last_commit {
            Some(c) => Some(c.duplicate()),
            None => None,
        };
        WorktreeInfo {
            name: self.name.clone(),
            git_name: self.git_name.clone(),
            path: self.path.clone(),
            branch: self.branch.clone(),
            is_locked: self.is_locked,
            is_current: self.is_current,
            has_changes: self.has_changes,
            last_commit,
            ahead_behind: self.ahead_behind,
        }
    }
}

impl SortKey for WorktreeInfo {
    open spec fn key_view(&self) -> Seq<char> {
        self.name@
    }

    fn sort_key(&self) -> (r: &str) {
        self.name.as_str()
    }
}

/// Copies of the worktree records `v`, in order.
pub fn copy_worktree_list(v: &Vec<WorktreeInfo>) -> (r: Vec<WorktreeInfo>)
    ensures
        r@ == v@,
{
    let mut r: Vec<WorktreeInfo> = Vec::new();
    let mut i: usize = 0;
    while i < v.len()
        invariant
            i <= v.len(),
            r@ == v@.subrange(0, i as int),
        decreases v.len() - i,
    {
        r.push(v[i].duplicate());
        i = i + 1;
        assert(r@ =~= v@.subrange(0, i as int));
    }
    assert(v@.subrange(0, v.len() as int) =~= v@);
    r
}

/// The worktrees sorted by name, as the manager lists them.
pub fn sort_worktrees_by_name(worktrees: Vec<WorktreeInfo>) -> (r: Vec<WorktreeInfo>)
    ensures
        r@.to_multiset() == worktrees@.to_multiset(),
        sorted_by_key(r@, false),
{
    sort_by_key(worktrees, false)
}

/// `name (branch)`, the one-line form of a worktree.
pub open spec fn worktree_line(w: WorktreeInfo) -> Seq<char> {
    w.name@ + " ("@ + w.branch@ + ")"@
}

/// Each worktree as `name (branch)`, in order.
pub fn list_worktrees(worktrees: &Vec<WorktreeInfo>) -> (r: Vec<String>)
    ensures
        r@.len() == worktrees@.len(),
        forall|i: int| 0 <= i < r@.len() ==> #[trigger] r@[i]@ == worktree_line(worktrees@[i]),
{
    let mut r: Vec<String> = Vec::new();
    let mut i: usize = 0;
    while i < worktrees.len()
        invariant
            i <= worktrees.len(),
            r@.len() == i,
            forall|j: int| 0 <= j < i ==> #[trigger] r@[j]@ == worktree_line(worktrees@[j]),
        decreases worktrees.len() - i,
    {
        let w = &worktrees[i];
        let mut line = concat3(w.name.as_str(), " (", w.branch.as_str());
        line.append(")");
        r.push(line);
        i = i + 1;
    }
    r
}

/// The parents of the worktrees' paths, skipping paths without one.
pub open spec fn parent_paths(s: Seq<WorktreeInfo>) -> Seq<Seq<char>>
    decreases s.len(),
{
    if s.len() == 0 {
        Seq::empty()
    } else {
        let rest = parent_paths(s.drop_last());
        match std_path_parent(s.last().path@) {
            Some(p) => rest.push(p),
            None => rest,
        }
    }
}

/// The parent directory every worktree shares: `None` for no worktrees or
/// when two consecutive parents differ.
pub open spec fn common_parent(s: Seq<WorktreeInfo>) -> Option<Seq<char>> {
    let ps = parent_paths(s);
    if s.len() == 0 {
        None
    } else if forall|i: int| 0 <= i < ps.len() - 1 ==> std_path_eq(#[trigger] ps[i], ps[i + 1]) {
        if ps.len() > 0 {
            Some(ps[0])
        } else {
            None
        }
    } else {
        None
    }
}

/// The parent directory the worktrees share, used to place new worktrees
/// beside the existing ones.
pub fn find_common_parent(worktrees: &Vec<WorktreeInfo>) -> (r: Option<String>)
    ensures
        opt_view(r) == common_parent(worktrees@),
{
    if worktrees.len() == 0 {
        return None;
    }
    let mut parents: Vec<String> = Vec::new();
    let mut i: usize = 0;
    while i < worktrees.len()
        invariant
            i <= worktrees.len(),
            parents@.map_values(|p: String| p@) == parent_paths(worktrees@.subrange(0, i as int)),
        decreases worktrees.len() - i,
    {
        assert(worktrees@.subrange(0, i + 1).drop_last() =~= worktrees@.subrange(0, i as int));
        match path_parent(worktrees[i].path.as_str()) {
            Some(p) => {
                parents.push(p);
                assert(parents@.map_values(|p: String| p@) =~= parent_paths(
                    worktrees@.subrange(0, i as int),
                ).push(parents@.last()@));
            },
            None => {},
        }
        i = i + 1;
    }
    assert(worktrees@.subrange(0, worktrees.len() as int) =~= worktrees@);
    let ghost ps = parent_paths(worktrees@);
    assert(ps.len() == parents@.len());
    assert(forall|k: int| 0 <= k < parents@.len() ==> #[trigger] ps[k] == parents@[k]@);
    let mut k: usize = 0;
    while k < parents.len() && parents.len() - k > 1
        invariant
            k <= parents.len(),
            forall|j: int| 0 <= j < k ==> std_path_eq(#[trigger] ps[j], ps[j + 1]),
        decreases parents.len() - k,
    {
        if !path_eq(parents[k].as_str(), parents[k + 1].as_str()) {
            assert(!std_path_eq(ps[k as int], ps[k + 1]));
            return None;
        }
        k = k + 1;
    }
    if parents.len() > 0 {
        Some(parents[0].clone())
    } else {
        None
    }
}

/// The number of worktrees with `branch` checked out.
pub open spec fn branch_count(s: Seq<WorktreeInfo>, branch: Seq<char>) -> nat {
    s.filter(|w: WorktreeInfo| w.branch@ == branch).len()
}

/// Whether `branch` is checked out in the worktree `worktree_name` and in
/// no other worktree.
pub open spec fn branch_unique_to(s: Seq<WorktreeInfo>, branch: Seq<char>, worktree_name: Seq<char>) -> bool {
    &&& branch_count(s, branch) == 1
    &&& exists|i: int| 0 <= i < s.len() && #[trigger] s[i].branch@ == branch && s[i].name@ == worktree_name
}

/// Whether `branch_name` is checked out in `worktree_name` only, among the
/// listed worktrees; a branch deleted with a worktree must be unique to it.
pub fn is_branch_unique_to_worktree(
    worktrees: &Vec<WorktreeInfo>,
    branch_name: &str,
    worktree_name: &str,
) -> (r: bool)
    ensures
        r == branch_unique_to(worktrees@, branch_name@, worktree_name@),
{
    let ghost s = worktrees@;
    let ghost pred = |w: WorktreeInfo| w.branch@ == branch_name@;
    let mut count: usize = 0;
    let mut found = false;
    let mut i: usize = 0;
    while i < worktrees.len()
        invariant
            i <= worktrees.len(),
            count == s.subrange(0, i as int).filter(pred).len(),
            count <= i,
            found == exists|j: int|
                0 <= j < i && #[trigger] s[j].branch@ == branch_name@ && s[j].name@ == worktree_name@,
        decreases worktrees.len() - i,
    {
        proof {
            reveal(Seq::filter);
            assert(s.subrange(0, i + 1).drop_last() =~= s.subrange(0, i as int));
        }
        if str_eq(worktrees[i].branch.as_str(), branch_name) {
            count = count + 1;
            if str_eq(worktrees[i].name.as_str(), worktree_name) {
                found = true;
            }
        }
        i = i + 1;
    }
    assert(s.subrange(0, s.len() as int) =~= s);
    found && count == 1
}

/// `s` without the prefix `p`, when it starts with it.
pub open spec fn strip_prefix_or_keep(s: Seq<char>, p: Seq<char>) -> Seq<char> {
    if is_prefix(p, s) {
        s.subrange(p.len() as int, s.len() as int)
    } else {
        s
    }
}

/// `s` without the prefix `p`, when it starts with it (`str::strip_prefix`
/// with `s` itself kept otherwise).
pub fn strip_prefix_str(s: &str, p: &str) -> (r: String)
    ensures
        r@ == strip_prefix_or_keep(s@, p@),
{
    let cs = chars_of(s);
    let ps = chars_of(p);
    if starts_with_chars(cs.as_slice(), ps.as_slice()) {
        let mut tail: Vec<char> = Vec::new();
        let mut i: usize = ps.len();
        while i < cs.len()
            invariant
                ps.len() <= i <= cs.len(),
                tail@ == cs@.subrange(ps.len() as int, i as int),
            decreases cs.len() - i,
        {
            tail.push(cs[i]);
            i = i + 1;
            assert(tail@ =~= cs@.subrange(ps.len() as int, i as int));
        }
        string_from_chars(tail.as_slice())
    } else {
        owned(s)
    }
}

/// The remote branch names shown: `origin/` taken off, `HEAD` left out.
pub open spec fn shown_remote_names(s: Seq<String>) -> Seq<Seq<char>>
    decreases s.len(),
{
    if s.len() == 0 {
        Seq::empty()
    } else {
        let rest = shown_remote_names(s.drop_last());
        let clean = strip_prefix_or_keep(s.last()@, "origin/"@);
        if clean == "HEAD"@ {
            rest
        } else {
            rest.push(clean)
        }
    }
}

/// The local and remote branch lists as the manager shows them: remote
/// names lose their `origin/` prefix and `HEAD` is left out; both lists are
/// sorted.
pub fn tidy_branch_lists(local: Vec<String>, remote: Vec<String>) -> (r: (Vec<String>, Vec<String>))
    ensures
        r.0@.to_multiset() == local@.to_multiset(),
        sorted_by_key(r.0@, false),
        r.1@.map_values(|x: String| x@).to_multiset() == shown_remote_names(remote@).to_multiset(),
        sorted_by_key(r.1@, false),
{
    let mut cleaned: Vec<String> = Vec::new();
    let mut i: usize = 0;
    while i < remote.len()
        invariant
            i <= remote.len(),
            cleaned@.map_values(|x: String| x@) == shown_remote_names(remote@.subrange(0, i as int)),
        decreases remote.len() - i,
    {
        assert(remote@.subrange(0, i + 1).drop_last() =~= remote@.subrange(0, i as int));
        let clean = strip_prefix_str(remote[i].as_str(), GIT_REMOTE_PREFIX);
        if !str_eq(clean.as_str(), "HEAD") {
            cleaned.push(clean);
            assert(cleaned@.map_values(|x: String| x@) =~= shown_remote_names(
                remote@.subrange(0, i as int),
            ).push(cleaned@.last()@));
        }
        i = i + 1;
    }
    assert(remote@.subrange(0, remote.len() as int) =~= remote@);
    let ghost before = cleaned@;
    let sorted_remote = sort_by_key(cleaned, false);
    proof {
        lemma_multiset_map(sorted_remote@, before, |x: String| x@);
    }
    (sort_by_key(local, false), sorted_remote)
}

/// Tags as the manager lists them: `refs/tags/` taken off the names, newest
/// names (in descending order) first.
pub fn tidy_tag_list(tags: Vec<(String, Option<String>)>) -> (r: Vec<(String, Option<String>)>)
    ensures
        r@.map_values(|t: (String, Option<String>)| (t.0@, t.1)).to_multiset() == tags@.map_values(
            |t: (String, Option<String>)| (strip_prefix_or_keep(t.0@, "refs/tags/"@), t.1),
        ).to_multiset(),
        sorted_by_key(r@, true),
{
    let mut cleaned: Vec<(String, Option<String>)> = Vec::new();
    let mut i: usize = 0;
    while i < tags.len()
        invariant
            i <= tags.len(),
            cleaned@.len() == i,
            forall|j: int|
                0 <= j < i ==> (#[trigger] cleaned@[j]).0@ == strip_prefix_or_keep(
                    tags@[j].0@,
                    "refs/tags/"@,
                ) && cleaned@[j].1 == tags@[j].1,
        decreases tags.len() - i,
    {
        let name = strip_prefix_str(tags[i].0.as_str(), GIT_REFS_TAGS);
        let msg = crate::git_interface::copy_opt(&tags[i].1);
        cleaned.push((name, msg));
        i = i + 1;
    }
    let ghost before = cleaned@;
    let r = sort_by_key(cleaned, true);
    proof {
        lemma_multiset_map(r@, before, |t: (String, Option<String>)| (t.0@, t.1));
        assert(before.map_values(|t: (String, Option<String>)| (t.0@, t.1)) =~= tags@.map_values(
            |t: (String, Option<String>)| (strip_prefix_or_keep(t.0@, "refs/tags/"@), t.1),
        ));
    }
    r
}

/// Why a worktree operation of the manager could not go ahead.
#[derive(Debug, Clone, PartialEq)]
pub enum ManagerError {
    /// The repository directory cannot be determined.
    NoRepositoryDir,
    /// A bare repository's directory has no parent.
    NoParentOfBareRepository,
    /// The repository has no working directory.
    NoWorkingDirectory,
    /// The working directory has no parent.
    NoParentDirectory,
    /// A local branch of the remote branch's name exists.
    LocalBranchExists { remote: String, local: String },
}

/// The directory new worktrees go into when no layout is recognised: the
/// parent of a bare repository's directory, else of the working directory.
pub open spec fn default_base_path(is_bare: bool, repo_path: Seq<char>, workdir: Option<Seq<char>>) -> Result<Seq<char>, ManagerError> {
    if is_bare {
        match std_path_parent(repo_path) {
            Some(p) => Ok(p),
            None => Err(ManagerError::NoParentOfBareRepository),
        }
    } else {
        match workdir {
            None => Err(ManagerError::NoWorkingDirectory),
            Some(w) => match std_path_parent(w) {
                Some(p) => Ok(p),
                None => Err(ManagerError::NoParentDirectory),
            },
        }
    }
}

/// The view of a path result.
pub open spec fn path_result(r: Result<String, ManagerError>) -> Result<Seq<char>, ManagerError> {
    match r {
        Ok(p) => Ok(p@),
        Err(e) => Err(e),
    }
}

/// The directory new worktrees go into when no layout is recognised.
pub fn get_default_worktree_base_path(is_bare: bool, repo_path: &str, workdir: Option<&str>) -> (r: Result<String, ManagerError>)
    ensures
        path_result(r) == default_base_path(is_bare, repo_path@, crate::text::opt_str_view(workdir)),
{
    if is_bare {
        match path_parent(repo_path) {
            Some(p) => Ok(p),
            None => Err(ManagerError::NoParentOfBareRepository),
        }
    } else {
        match workdir {
            None => Err(ManagerError::NoWorkingDirectory),
            Some(w) => match path_parent(w) {
                Some(p) => Ok(p),
                None => Err(ManagerError::NoParentDirectory),
            },
        }
    }
}

/// The directory new worktrees go into: where the existing worktrees sit
/// together, else the default.
pub fn determine_worktree_base_path(existing: Option<&Vec<WorktreeInfo>>, default_base: Result<String, ManagerError>) -> (r: Result<String, ManagerError>)
    ensures
        match existing {
            Some(ws) => match common_parent(ws@) {
                Some(p) => r matches Ok(q) && q@ == p,
                None => r == default_base,
            },
            None => r == default_base,
        },
{
    match existing {
        Some(ws) => match find_common_parent(ws) {
            Some(p) => Ok(p),
            None => default_base,
        },
        None => default_base,
    }
}

/// Where the worktree `name` is created: `../<name>` relative to the
/// repository directory (the working directory, else the parent of a bare
/// repository's directory); a name with `/` under the working directory
/// (or the bare repository's directory); a plain name under `base_path`.
pub open spec fn new_worktree_path(name: Seq<char>, workdir: Option<Seq<char>>, repo_path: Seq<char>, base_path: Seq<char>) -> Result<Seq<char>, ManagerError> {
    if is_prefix("../"@, name) {
        let dir = match workdir {
            Some(w) => Some(w),
            None => std_path_parent(repo_path),
        };
        match dir {
            Some(d) => Ok(std_path_join(d, name)),
            None => Err(ManagerError::NoRepositoryDir),
        }
    } else if name.contains('/') {
        let dir = match workdir {
            Some(w) => w,
            None => repo_path,
        };
        Ok(std_path_join(dir, name))
    } else {
        Ok(std_path_join(base_path, name))
    }
}

/// Where the worktree `name` is created.
pub fn resolve_worktree_path(name: &str, workdir: Option<&str>, repo_path: &str, base_path: &str) -> (r: Result<String, ManagerError>)
    ensures
        path_result(r) == new_worktree_path(name@, crate::text::opt_str_view(workdir), repo_path@, base_path@),
{
    let c = chars_of(name);
    let prefix = chars_of("../");
    if starts_with_chars(c.as_slice(), prefix.as_slice()) {
        let dir = match workdir {
            Some(w) => Some(owned(w)),
            None => path_parent(repo_path),
        };
        match dir {
            Some(d) => Ok(path_join(d.as_str(), name)),
            None => Err(ManagerError::NoRepositoryDir),
        }
    } else if contains_char(c.as_slice(), '/') {
        let dir = match workdir {
            Some(w) => w,
            None => repo_path,
        };
        Ok(path_join(dir, name))
    } else {
        Ok(path_join(base_path, name))
    }
}

/// `git worktree add` arguments that check out `branch_name` at `path`: a
/// tag detached; a remote `origin/<b>` as a new local branch `<b>` (refused
/// when a local `<b>` exists); an existing local branch as it is; else a
/// new branch of that name.
pub open spec fn checkout_args(path: Seq<char>, branch_name: Seq<char>, is_tag: bool, local_exists: bool) -> Result<Seq<Seq<char>>, ManagerError> {
    if is_tag {
        Ok(seq!["worktree"@, "add"@, path, branch_name])
    } else if is_prefix("origin/"@, branch_name) {
        let local = branch_name.subrange(7, branch_name.len() as int);
        if local_exists {
            Err(ManagerError::LocalBranchExists { remote: arbitrary(), local: arbitrary() })
        } else {
            Ok(seq!["worktree"@, "add"@, "-b"@, local, path, branch_name])
        }
    } else if local_exists {
        Ok(seq!["worktree"@, "add"@, path, branch_name])
    } else {
        Ok(seq!["worktree"@, "add"@, "-b"@, branch_name, path])
    }
}

/// The local branch a branch name refers to: without `origin/`.
pub fn local_branch_name(branch_name: &str) -> (r: String)
    ensures
        r@ == strip_prefix_or_keep(branch_name@, "origin/"@),
{
    strip_prefix_str(branch_name, GIT_REMOTE_PREFIX)
}

/// The view of an argument result, with the names in an error left out.
pub open spec fn args_result(r: Result<Vec<String>, ManagerError>) -> Result<Seq<Seq<char>>, ManagerError> {
    match r {
        Ok(v) => Ok(v@.map_values(|x: String| x@)),
        Err(ManagerError::LocalBranchExists { .. }) => Err(ManagerError::LocalBranchExists { remote: arbitrary(), local: arbitrary() }),
        Err(e) => Err(e),
    }
}

/// `git worktree add` arguments that check out `branch_name` at `path`;
/// `is_tag` tells whether `refs/tags/<branch_name>` exists and
/// `local_exists` whether the local branch (`local_branch_name`) exists.
pub fn worktree_checkout_args(path: &str, branch_name: &str, is_tag: bool, local_exists: bool) -> (r: Result<Vec<String>, ManagerError>)
    ensures
        args_result(r) == checkout_args(path@, branch_name@, is_tag, local_exists),
        r matches Err(ManagerError::LocalBranchExists { remote, local }) ==> remote@ == branch_name@
            && local@ == strip_prefix_or_keep(branch_name@, "origin/"@),
{
    proof {
        reveal_strlit("origin/");
    }
    let r = if is_tag {
        vec![owned(GIT_WORKTREE), owned(GIT_ADD), owned(path), owned(branch_name)]
    } else {
        let c = chars_of(branch_name);
        let o = chars_of("origin/");
        if starts_with_chars(c.as_slice(), o.as_slice()) {
            let local = local_branch_name(branch_name);
            if local_exists {
                return Err(ManagerError::LocalBranchExists { remote: owned(branch_name), local });
            }
            vec![owned(GIT_WORKTREE), owned(GIT_ADD), owned(GIT_OPT_BRANCH), local, owned(path), owned(branch_name)]
        } else if local_exists {
            vec![owned(GIT_WORKTREE), owned(GIT_ADD), owned(path), owned(branch_name)]
        } else {
            vec![owned(GIT_WORKTREE), owned(GIT_ADD), owned(GIT_OPT_BRANCH), owned(branch_name), owned(path)]
        }
    };
    assert(r@.map_values(|x: String| x@) =~= checkout_args(path@, branch_name@, is_tag, local_exists)->Ok_0);
    Ok(r)
}

/// The commit time as `chrono` formats it: the UTC time of `seconds` since
/// the epoch (the epoch itself when out of range) as `%Y-%m-%d %H:%M`.
pub uninterp spec fn chrono_minute_text(seconds: i64) -> Seq<char>;

/// `chrono::DateTime::from_timestamp(seconds, 0)`, the epoch when out of
/// range, formatted with `%Y-%m-%d %H:%M`.
///
/// Claimed of chrono: the text is `chrono_minute_text(seconds)`, a function
/// of `seconds` alone (the time is in UTC); its form is not stated.
#[verifier::external_body]
fn format_commit_time(seconds: i64) -> (r: String)
    ensures
        r@ == chrono_minute_text(seconds),
{
    chrono::DateTime::from_timestamp(seconds, 0).unwrap_or_default().format(crate::constants::TIME_FORMAT).to_string()
}

/// The commit record shown for a worktree: the first 8 characters of the
/// id, the summary (or `No message`), the author (or `Unknown`) and the
/// commit time.  A Git object id has at least 8 characters.
pub fn commit_info(id: &str, summary: Option<&str>, author: Option<&str>, seconds: i64) -> (r: CommitInfo)
    requires
        id@.len() >= 8,
    ensures
        r.id@ == id@.take(8),
        r.message@ == match summary {
            Some(s) => s@,
            None => "No message"@,
        },
        r.author@ == match author {
            Some(a) => a@,
            None => "Unknown"@,
        },
        r.time@ == chrono_minute_text(seconds),
{
    let c = chars_of(id);
    let mut short: Vec<char> = Vec::new();
    let mut i: usize = 0;
    while i < 8
        invariant
            i <= 8,
            c@ == id@,
            c@.len() >= 8,
            short@ == c@.take(i as int),
        decreases 8 - i,
    {
        short.push(c[i]);
        i = i + 1;
        assert(short@ =~= c@.take(i as int));
    }
    let message = match summary {
        Some(s) => owned(s),
        None => owned(DEFAULT_MESSAGE_NONE),
    };
    let author_name = match author {
        Some(a) => owned(a),
        None => owned(DEFAULT_AUTHOR_UNKNOWN),
    };
    CommitInfo {
        id: string_from_chars(short.as_slice()),
        message,
        author: author_name,
        time: format_commit_time(seconds),
    }
}

/// The branch shown for a worktree: the short name of HEAD when it can be
/// read, `detached` otherwise, and `unknown` when the worktree cannot be
/// opened.
pub open spec fn shown_branch(opened: bool, head_shorthand: Option<Seq<char>>) -> Seq<char> {
    if !opened {
        "unknown"@
    } else {
        match head_shorthand {
            Some(b) => b,
            None => "detached"@,
        }
    }
}

/// The branch shown for a worktree.
pub fn worktree_branch_label(opened: bool, head_shorthand: Option<&str>) -> (r: String)
    ensures
        r@ == shown_branch(opened, crate::text::opt_str_view(head_shorthand)),
{
    if !opened {
        owned(crate::constants::DEFAULT_BRANCH_UNKNOWN)
    } else {
        match head_shorthand {
            Some(b) => owned(b),
            None => owned(crate::constants::DEFAULT_BRANCH_DETACHED),
        }
    }
}

/// The name the main worktree has in the branch map: its working
/// directory's name, or `main`.
pub fn main_worktree_name(workdir: Option<&str>) -> (r: String)
    ensures
        r@ == match workdir {
            Some(w) => match crate::pathname::std_path_file_name(w@) {
                Some(n) => n,
                None => "main"@,
            },
            None => "main"@,
        },
{
    match workdir {
        Some(w) => match crate::pathname::path_file_name(w) {
            Some(n) => n,
            None => owned(crate::constants::GIT_DEFAULT_MAIN_WORKTREE),
        },
        None => owned(crate::constants::GIT_DEFAULT_MAIN_WORKTREE),
    }
}

/// The path of the worktree lock file in the Git directory `git_dir`.
pub fn lock_file_path(git_dir: &str) -> (r: String)
    ensures
        r@ == std_path_join(git_dir@, crate::constants::LOCK_FILE_NAME@),
{
    path_join(git_dir, crate::constants::LOCK_FILE_NAME)
}

/// A lock file whose last change lies `secs` seconds and `nanos`
/// nanoseconds back is stale when that is more than the timeout; an age
/// that cannot be read (`None`) leaves the lock in place.
pub fn lock_is_stale(age: Option<(u64, u32)>) -> (r: bool)
    ensures
        r == match age {
            Some((secs, nanos)) => secs > crate::constants::STALE_LOCK_TIMEOUT_SECS || (secs
                == crate::constants::STALE_LOCK_TIMEOUT_SECS && nanos > 0),
            None => false,
        },
{
    match age {
        Some((secs, nanos)) => secs > crate::constants::STALE_LOCK_TIMEOUT_SECS || (secs
            == crate::constants::STALE_LOCK_TIMEOUT_SECS && nanos > 0),
        None => false,
    }
}

/// The message when the lock cannot be taken: another process holds it
/// (`already_exists`), or creating the file failed with `detail`.
pub fn lock_error_message(already_exists: bool, detail: &str) -> (r: String)
    ensures
        already_exists ==> r@ == crate::constants::ERROR_LOCK_EXISTS@,
        !already_exists ==> r@ == "Failed to create lock file: "@ + detail@,
{
    if already_exists {
        owned(crate::constants::ERROR_LOCK_EXISTS)
    } else {
        concat2("Failed to create lock file: ", detail)
    }
}

/// A name with a `/` that does not start with `../` is placed under the
/// working directory (the repository directory when there is none),
/// whatever the base path of the other worktrees is; a plain name is
/// placed under that base path.
pub proof fn law_nested_names_stay_in_the_repository(
    name: Seq<char>,
    workdir: Option<Seq<char>>,
    repo_path: Seq<char>,
    base_a: Seq<char>,
    base_b: Seq<char>,
)
    ensures
        !is_prefix("../"@, name) && name.contains('/') ==> {
            &&& new_worktree_path(name, workdir, repo_path, base_a) == new_worktree_path(
                name,
                workdir,
                repo_path,
                base_b,
            )
            &&& new_worktree_path(name, workdir, repo_path, base_a) == Ok::<Seq<char>, ManagerError>(
                std_path_join(
                    match workdir {
                        Some(w) => w,
                        None => repo_path,
                    },
                    name,
                ),
            )
        },
        !name.contains('/') ==> new_worktree_path(name, workdir, repo_path, base_a) == Ok::<
            Seq<char>,
            ManagerError,
        >(std_path_join(base_a, name)),
{
    if !name.contains('/') {
        assert(!is_prefix("../"@, name)) by {
            reveal_strlit("../");
            if is_prefix("../"@, name) {
                assert(name.subrange(0, 3)[2] == name[2]);
                assert(name[2] == '/');
                assert(name.contains('/'));
            }
        }
    }
}

/// A remote branch `origin/<b>` with no local `<b>` is checked out as a
/// new local branch named `<b>`, the branch name without `origin/` (as
/// `local_branch_name` gives it), tracking the remote branch.
pub proof fn law_remote_branch_gets_local_name(path: Seq<char>, b: Seq<char>)
    ensures
        checkout_args(path, "origin/"@ + b, false, false) == Ok::<Seq<Seq<char>>, ManagerError>(
            seq!["worktree"@, "add"@, "-b"@, b, path, "origin/"@ + b],
        ),
        strip_prefix_or_keep("origin/"@ + b, "origin/"@) == b,
{
    reveal_strlit("origin/");
    let n = "origin/"@ + b;
    assert(n.subrange(0, 7) =~= "origin/"@);
    assert(n.subrange(7, n.len() as int) =~= b);
}

} // verus!
