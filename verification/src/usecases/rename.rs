//! Renaming a worktree, and its branch when the branch is named after it.
#![verifier::loop_isolation(false)]

use vstd::prelude::*;
use crate::constants::{DEFAULT_BRANCH_DETACHED, DEFAULT_BRANCH_UNKNOWN, GIT_GITDIR_PREFIX, GIT_GITDIR_SUFFIX, GIT_DIR, WORKTREES_SUBDIR};
use crate::git::WorktreeInfo;
use crate::pathname::{opt_view, path_join, path_parent, std_path_join, std_path_parent};
use crate::text::{chars_of, concat2, concat3, contains_char, is_prefix, is_white_space, owned, str_eq, trim, trim_str};
use crate::usecases::delete::{deletable, get_deletable_worktrees};

verus! {

/// Why a rename was refused.
#[derive(Debug, Clone, PartialEq)]
pub enum RenameError {
    /// The current name is empty.
    EmptyOldName,
    /// The new name is empty.
    EmptyNewName,
    /// The new name equals the current one.
    SameName,
    /// The main worktree (`main` or `master`) is never renamed.
    RenameMain,
    /// Nothing is renamed to `main` or `master`.
    RenameToMain,
    /// The new name contains white space.
    NameHasWhitespace,
    /// The worktree's path has no parent directory.
    NoParent,
    /// Something exists at the target path already.
    TargetExists(String),
    /// The worktree is the current one.
    CurrentWorktree,
    /// The worktree's HEAD is detached.
    DetachedHead,
    /// The worktree's HEAD could not be read.
    UnreadableHead,
}

/// A branch is renamed with its worktree only when the user wants it and
/// it carries the worktree's name.
pub fn should_rename_branch(worktree_name: &str, branch_name: &str, user_wants_rename: bool) -> (r: bool)
    ensures
        r == (user_wants_rename && worktree_name@ == branch_name@),
{
    user_wants_rename && str_eq(worktree_name, branch_name)
}

/// What a rename was asked for.
#[derive(Debug, Clone)]
pub struct RenameConfig {
    pub old_name: String,
    pub new_name: String,
    pub old_path: String,
    pub new_path: String,
    pub rename_branch: bool,
}

/// What renaming a worktree does.
#[derive(Debug, Clone)]
pub struct WorktreeRenameConfig {
    pub old_name: String,
    pub new_name: String,
    pub old_path: String,
    pub new_path: String,
    pub old_branch: String,
    pub new_branch: Option<String>,
    pub rename_branch: bool,
}

/// The facts about a worktree chosen for renaming.
#[derive(Debug, Clone)]
pub struct RenameAnalysis {
    pub worktree: WorktreeInfo,
    /// Its branch carries its name and can be renamed with it.
    pub can_rename_branch: bool,
    /// The branch name after renaming, when the branch can be renamed.
    pub suggested_branch_name: Option<String>,
    /// The branch is under `feature/`.
    pub is_feature_branch: bool,
}

/// The worktrees that may be renamed: all but the current one, in order.
pub fn get_renameable_worktrees(worktrees: &Vec<WorktreeInfo>) -> (r: Vec<WorktreeInfo>)
    ensures
        r@ == deletable(worktrees@),
{
    get_deletable_worktrees(worktrees)
}

/// Whether the worktree's branch follows its name: it is on a branch and
/// the branch is the name or `feature/` and the name.
pub open spec fn branch_follows_name(w: WorktreeInfo) -> bool {
    &&& w.branch@ != "detached"@
    &&& w.branch@ != "unknown"@
    &&& (w.branch@ == w.name@ || w.branch@ == "feature/"@ + w.name@)
}

/// What renaming `worktree` involves: whether its branch follows its name,
/// and if so the branch's new name (`feature/<name>` for a feature branch).
pub fn analyze_rename_requirements(worktree: &WorktreeInfo) -> (r: RenameAnalysis)
    ensures
        r.worktree == *worktree,
        r.can_rename_branch == branch_follows_name(*worktree),
        r.is_feature_branch == is_prefix("feature/"@, worktree.branch@),
        r.can_rename_branch ==> opt_view(r.suggested_branch_name) == Some(
            if r.is_feature_branch {
                "feature/"@ + worktree.name@
            } else {
                worktree.name@
            },
        ),
        !r.can_rename_branch ==> r.suggested_branch_name is None,
{
    let feature_name = concat2("feature/", worktree.name.as_str());
    let can_rename_branch = !str_eq(worktree.branch.as_str(), DEFAULT_BRANCH_DETACHED) && !str_eq(
        worktree.branch.as_str(),
        DEFAULT_BRANCH_UNKNOWN,
    ) && (str_eq(worktree.branch.as_str(), worktree.name.as_str()) || str_eq(
        worktree.branch.as_str(),
        feature_name.as_str(),
    ));
    let b = chars_of(worktree.branch.as_str());
    let f = chars_of("feature/");
    let is_feature_branch = crate::text::starts_with_chars(b.as_slice(), f.as_slice());
    let suggested_branch_name = if can_rename_branch {
        if is_feature_branch {
            Some(feature_name)
        } else {
            Some(worktree.name.clone())
        }
    } else {
        None
    };
    RenameAnalysis {
        worktree: worktree.duplicate(),
        can_rename_branch,
        suggested_branch_name,
        is_feature_branch,
    }
}

/// Whether `n` is a main worktree's name.
pub open spec fn is_main_name(n: Seq<char>) -> bool {
    n == "main"@ || n == "master"@
}

/// Refuses empty names, an unchanged name, and renaming from or to the
/// main worktree's names, checked in that order.
pub fn validate_rename_operation(old_name: &str, new_name: &str) -> (r: Result<(), RenameError>)
    ensures
        old_name@.len() == 0 ==> r == Err::<(), RenameError>(RenameError::EmptyOldName),
        old_name@.len() > 0 && new_name@.len() == 0 ==> r == Err::<(), RenameError>(
            RenameError::EmptyNewName,
        ),
        old_name@.len() > 0 && new_name@.len() > 0 && new_name@ == old_name@ ==> r == Err::<
            (),
            RenameError,
        >(RenameError::SameName),
        old_name@.len() > 0 && new_name@.len() > 0 && new_name@ != old_name@ && is_main_name(
            old_name@,
        ) ==> r == Err::<(), RenameError>(RenameError::RenameMain),
        old_name@.len() > 0 && new_name@.len() > 0 && new_name@ != old_name@ && !is_main_name(
            old_name@,
        ) && is_main_name(new_name@) ==> r == Err::<(), RenameError>(RenameError::RenameToMain),
        r is Ok <==> old_name@.len() > 0 && new_name@.len() > 0 && new_name@ != old_name@
            && !is_main_name(old_name@) && !is_main_name(new_name@),
{
    if old_name.is_empty() {
        return Err(RenameError::EmptyOldName);
    }
    if new_name.is_empty() {
        return Err(RenameError::EmptyNewName);
    }
    if str_eq(new_name, old_name) {
        return Err(RenameError::SameName);
    }
    if str_eq(old_name, "main") || str_eq(old_name, "master") {
        return Err(RenameError::RenameMain);
    }
    if str_eq(new_name, "main") || str_eq(new_name, "master") {
        return Err(RenameError::RenameToMain);
    }
    Ok(())
}

/// The branch's new name when the branch is renamed too.
pub fn new_branch_name(analysis: &RenameAnalysis, new_name: &str, rename_branch: bool) -> (r: Option<String>)
    ensures
        !rename_branch ==> r is None,
        rename_branch ==> opt_view(r) == Some(
            if analysis.is_feature_branch {
                "feature/"@ + new_name@
            } else {
                new_name@
            },
        ),
{
    if rename_branch {
        if analysis.is_feature_branch {
            Some(concat2("feature/", new_name))
        } else {
            Some(owned(new_name))
        }
    } else {
        None
    }
}

/// The rename to perform for `worktree`: it moves beside its old place
/// under the new name.
pub fn rename_config(worktree: &WorktreeInfo, new_name: &str, new_branch: Option<String>, rename_branch: bool) -> (r: Result<WorktreeRenameConfig, RenameError>)
    ensures
        std_path_parent(worktree.path@) is None ==> r == Err::<WorktreeRenameConfig, RenameError>(
            RenameError::NoParent,
        ),
        r matches Ok(c) ==> std_path_parent(worktree.path@) matches Some(p) && c.new_path@
            == std_path_join(p, new_name@) && c.old_name == worktree.name && c.new_name@
            == new_name@ && c.old_path == worktree.path && c.old_branch == worktree.branch
            && c.new_branch == new_branch && c.rename_branch == rename_branch,
        std_path_parent(worktree.path@) is Some ==> r is Ok,
{
    let parent = match path_parent(worktree.path.as_str()) {
        Some(p) => p,
        None => {
            return Err(RenameError::NoParent);
        },
    };
    Ok(
        WorktreeRenameConfig {
            old_name: worktree.name.clone(),
            new_name: owned(new_name),
            old_path: worktree.path.clone(),
            new_path: path_join(parent.as_str(), new_name),
            old_branch: worktree.branch.clone(),
            new_branch,
            rename_branch,
        },
    )
}

/// The files and directories renaming a worktree touches.
#[derive(Debug, Clone)]
pub struct RenamePlan {
    /// Where the worktree directory moves to.
    pub new_path: String,
    /// The worktree's metadata directory under the common Git directory.
    pub old_metadata_dir: String,
    /// Where the metadata directory moves to.
    pub new_metadata_dir: String,
    /// The `gitdir` file in the moved metadata directory.
    pub gitdir_file: String,
    /// What the `gitdir` file then holds.
    pub gitdir_contents: String,
    /// The `.git` file in the moved worktree.
    pub git_file: String,
    /// What the `.git` file then holds.
    pub git_file_contents: String,
}

/// Whether `s` contains a white-space character.
pub open spec fn has_white_space(s: Seq<char>) -> bool {
    exists|i: int| 0 <= i < s.len() && is_white_space(#[trigger] s[i])
}

/// Plans renaming the worktree `old_name` at `old_path` to `new_name`,
/// refusing a name with white space, a path without parent, a taken
/// target, the current worktree and a detached or unreadable HEAD (`head`
/// is whether HEAD is on a branch, `None` when it cannot be read), in that
/// order.  `git_common_dir` is the repository's common Git directory.
pub fn rename_worktree_plan(
    old_name: &str,
    new_name: &str,
    old_path: &str,
    target_exists: bool,
    is_current: bool,
    head: Option<bool>,
    git_common_dir: &str,
) -> (r: Result<RenamePlan, RenameError>)
    ensures
        has_white_space(new_name@) ==> r == Err::<RenamePlan, RenameError>(RenameError::NameHasWhitespace),
        !has_white_space(new_name@) && std_path_parent(old_path@) is None ==> r == Err::<RenamePlan, RenameError>(RenameError::NoParent),
        !has_white_space(new_name@) && std_path_parent(old_path@) is Some && target_exists ==> (r matches Err(e) && e matches RenameError::TargetExists(p) && p@ == std_path_join(std_path_parent(old_path@)->0, new_name@)),
        !has_white_space(new_name@) && std_path_parent(old_path@) is Some && !target_exists && is_current ==> r == Err::<RenamePlan, RenameError>(RenameError::CurrentWorktree),
        !has_white_space(new_name@) && std_path_parent(old_path@) is Some && !target_exists && !is_current && head == Some(false) ==> r == Err::<RenamePlan, RenameError>(RenameError::DetachedHead),
        !has_white_space(new_name@) && std_path_parent(old_path@) is Some && !target_exists && !is_current && head is None ==> r == Err::<RenamePlan, RenameError>(RenameError::UnreadableHead),
        r is Ok <==> !has_white_space(new_name@) && std_path_parent(old_path@) is Some && !target_exists && !is_current && head == Some(true),
        r matches Ok(plan) ==> {
            let new_path = std_path_join(std_path_parent(old_path@)->0, new_name@);
            let new_meta = std_path_join(std_path_join(git_common_dir@, "worktrees"@), new_name@);
            &&& plan.new_path@ == new_path
            &&& plan.old_metadata_dir@ == std_path_join(std_path_join(git_common_dir@, "worktrees"@), old_name@)
            &&& plan.new_metadata_dir@ == new_meta
            &&& plan.gitdir_file@ == std_path_join(new_meta, "gitdir"@)
            &&& plan.gitdir_contents@ == new_path + "/.git\n"@
            &&& plan.git_file@ == std_path_join(new_path, ".git"@)
            &&& plan.git_file_contents@ == "gitdir: "@ + new_meta + "\n"@
        },
{
    let chars = chars_of(new_name);
    let mut i: usize = 0;
    while i < chars.len()
        invariant
            i <= chars.len(),
            chars@ == new_name@,
            forall|j: int| 0 <= j < i ==> !is_white_space(chars@[j]),
        decreases chars.len() - i,
    {
        if crate::text::is_whitespace_char(chars[i]) {
            assert(is_white_space(new_name@[i as int]));
            return Err(RenameError::NameHasWhitespace);
        }
        i = i + 1;
    }
    let parent = match path_parent(old_path) {
        Some(p) => p,
        None => {
            return Err(RenameError::NoParent);
        },
    };
    let new_path = path_join(parent.as_str(), new_name);
    if target_exists {
        return Err(RenameError::TargetExists(new_path));
    }
    if is_current {
        return Err(RenameError::CurrentWorktree);
    }
    match head {
        Some(true) => {},
        Some(false) => {
            return Err(RenameError::DetachedHead);
        },
        None => {
            return Err(RenameError::UnreadableHead);
        },
    }
    let meta_root = path_join(git_common_dir, WORKTREES_SUBDIR);
    let old_metadata_dir = path_join(meta_root.as_str(), old_name);
    let new_metadata_dir = path_join(meta_root.as_str(), new_name);
    let gitdir_file = path_join(new_metadata_dir.as_str(), "gitdir");
    let gitdir_contents = concat2(new_path.as_str(), GIT_GITDIR_SUFFIX);
    let git_file = path_join(new_path.as_str(), GIT_DIR);
    let git_file_contents = concat3(GIT_GITDIR_PREFIX, new_metadata_dir.as_str(), "\n");
    Ok(
        RenamePlan {
            new_path,
            old_metadata_dir,
            new_metadata_dir,
            gitdir_file,
            gitdir_contents,
            git_file,
            git_file_contents,
        },
    )
}

/// The common Git directory: the trimmed output of
/// `git rev-parse --git-common-dir` when it succeeded, else the
/// repository's own directory.
pub fn git_common_dir(rev_parse_output: Option<&str>, repo_path: &str) -> (r: String)
    ensures
        r@ == match rev_parse_output {
            Some(o) => trim(o@),
            None => repo_path@,
        },
{
    match rev_parse_output {
        Some(o) => trim_str(o),
        None => owned(repo_path),
    }
}

/// The name Git knows the first worktree called `name` among `s` by;
/// `name` itself when none is called so.
pub open spec fn git_name_for(s: Seq<WorktreeInfo>, name: Seq<char>) -> Seq<char>
    decreases s.len(),
{
    if s.len() == 0 {
        name
    } else if s[0].name@ == name {
        s[0].git_name@
    } else {
        git_name_for(s.drop_first(), name)
    }
}

/// The name Git knows the worktree `name` by, looked up among `worktrees`.
pub fn git_name_of(worktrees: &Vec<WorktreeInfo>, name: &str) -> (r: String)
    ensures
        r@ == git_name_for(worktrees@, name@),
{
    let mut i: usize = 0;
    assert(worktrees@.subrange(0, worktrees@.len() as int) =~= worktrees@);
    while i < worktrees.len()
        invariant
            i <= worktrees.len(),
            git_name_for(worktrees@.subrange(i as int, worktrees@.len() as int), name@) == git_name_for(
                worktrees@,
                name@,
            ),
        decreases worktrees.len() - i,
    {
        let ghost rest = worktrees@.subrange(i as int, worktrees@.len() as int);
        assert(rest[0] == worktrees@[i as int]);
        if str_eq(worktrees[i].name.as_str(), name) {
            return worktrees[i].git_name.clone();
        }
        assert(rest.drop_first() =~= worktrees@.subrange(i + 1, worktrees@.len() as int));
        i = i + 1;
    }
    owned(name)
}

} // verus!
