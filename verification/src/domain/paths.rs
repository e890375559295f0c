//! Where a new worktree goes, and whether it can go there.
#![verifier::loop_isolation(false)]

use vstd::prelude::*;
use crate::constants::{STRING_CUSTOM, STRING_SAME_LEVEL, STRING_SUBDIRECTORY};
use crate::git::WorktreeInfo;
use crate::pathname::{
    path_eq, path_file_name, path_join, path_parent, std_path_eq, std_path_file_name, std_path_join,
    std_path_parent,
};
use crate::text::{owned, str_eq};

verus! {

/// Why a worktree location was refused.
#[derive(Debug, Clone, PartialEq)]
pub enum PathsError {
    /// The location type is none of `same-level`, `subdirectory`, `custom`.
    InvalidLocation(String),
    /// The repository directory has no parent.
    NoParent,
    /// A custom location was chosen without a path.
    CustomPathRequired,
}

/// Whether `location` names a supported location type.
pub open spec fn known_location(location: Seq<char>) -> bool {
    location == "same-level"@ || location == "subdirectory"@ || location == "custom"@
}

/// Accepts the location types `same-level`, `subdirectory` and `custom`.
pub fn validate_worktree_location(location: &str) -> (r: Result<(), PathsError>)
    ensures
        r is Ok <==> known_location(location@),
        r matches Err(e) ==> (e matches PathsError::InvalidLocation(l) && l@ == location@),
{
    if str_eq(location, STRING_SAME_LEVEL) || str_eq(location, STRING_SUBDIRECTORY) || str_eq(
        location,
        STRING_CUSTOM,
    ) {
        Ok(())
    } else {
        Err(PathsError::InvalidLocation(owned(location)))
    }
}

/// The path and location type of a new worktree `name`: beside the
/// repository directory `git_dir` for `same-level`, in the `worktrees`
/// directory of the repository directory (named as `git_dir` ends, `repo`
/// when it has no last component) for `subdirectory`, `git_dir` joined with
/// the given path for `custom`.
pub open spec fn worktree_path_for(
    git_dir: Seq<char>,
    name: Seq<char>,
    location: Seq<char>,
    custom_path: Option<Seq<char>>,
) -> Result<(Seq<char>, Seq<char>), PathsError> {
    if location == "same-level"@ {
        match std_path_parent(git_dir) {
            Some(p) => Ok((std_path_join(p, name), "same-level"@)),
            None => Err(PathsError::NoParent),
        }
    } else if location == "subdirectory"@ {
        let repo_name = match std_path_file_name(git_dir) {
            Some(n) => n,
            None => "repo"@,
        };
        match std_path_parent(git_dir) {
            Some(p) => Ok((std_path_join(std_path_join(std_path_join(p, repo_name), "worktrees"@), name), "subdirectory"@)),
            None => Err(PathsError::NoParent),
        }
    } else if location == "custom"@ {
        match custom_path {
            Some(c) => Ok((std_path_join(git_dir, c), "custom"@)),
            None => Err(PathsError::CustomPathRequired),
        }
    } else {
        Err(PathsError::InvalidLocation(arbitrary()))
    }
}

/// The view of a path result.
pub open spec fn path_result_view(r: Result<(String, String), PathsError>) -> Result<(Seq<char>, Seq<char>), PathsError> {
    match r {
        Ok((p, l)) => Ok((p@, l@)),
        Err(PathsError::InvalidLocation(_)) => Err(PathsError::InvalidLocation(arbitrary())),
        Err(e) => Err(e),
    }
}

/// Where the new worktree `name` goes, with its location type.
pub fn determine_worktree_path(
    git_dir: &str,
    name: &str,
    location: &str,
    custom_path: Option<String>,
) -> (r: Result<(String, String), PathsError>)
    ensures
        path_result_view(r) == worktree_path_for(
            git_dir@,
            name@,
            location@,
            crate::pathname::opt_view(custom_path),
        ),
        r matches Err(PathsError::InvalidLocation(l)) ==> l@ == location@,
{
    validate_worktree_location(location)?;
    if str_eq(location, STRING_SAME_LEVEL) {
        match path_parent(git_dir) {
            Some(p) => Ok((path_join(p.as_str(), name), owned(STRING_SAME_LEVEL))),
            None => Err(PathsError::NoParent),
        }
    } else if str_eq(location, STRING_SUBDIRECTORY) {
        let repo_name = match path_file_name(git_dir) {
            Some(n) => n,
            None => owned("repo"),
        };
        match path_parent(git_dir) {
            Some(p) => {
                let repo_dir = path_join(p.as_str(), repo_name.as_str());
                let subdir = path_join(repo_dir.as_str(), "worktrees");
                Ok((path_join(subdir.as_str(), name), owned(STRING_SUBDIRECTORY)))
            },
            None => Err(PathsError::NoParent),
        }
    } else {
        match custom_path {
            Some(c) => Ok((path_join(git_dir, c.as_str()), owned(STRING_CUSTOM))),
            None => Err(PathsError::CustomPathRequired),
        }
    }
}

/// Why a worktree cannot be created.
#[derive(Debug, Clone, PartialEq)]
pub enum CreationError {
    /// A worktree of this name exists.
    AlreadyExists(String),
    /// A worktree lives at this path.
    PathInUse(String),
}

/// A worktree called `name` exists among `existing`.
pub open spec fn name_taken(existing: Seq<WorktreeInfo>, name: Seq<char>) -> bool {
    exists|i: int| 0 <= i < existing.len() && #[trigger] existing[i].name@ == name
}

/// A worktree at `path` exists among `existing`.
pub open spec fn path_taken(existing: Seq<WorktreeInfo>, path: Seq<char>) -> bool {
    exists|i: int| 0 <= i < existing.len() && std_path_eq(#[trigger] existing[i].path@, path)
}

/// Refuses a worktree whose name or path an existing worktree has, the
/// name checked first.
pub fn validate_worktree_creation(name: &str, path: &str, existing_worktrees: &Vec<WorktreeInfo>) -> (r: Result<(), CreationError>)
    ensures
        r is Ok <==> !name_taken(existing_worktrees@, name@) && !path_taken(existing_worktrees@, path@),
        name_taken(existing_worktrees@, name@) ==> (r matches Err(e) && e matches CreationError::AlreadyExists(n) && n@ == name@),
        !name_taken(existing_worktrees@, name@) && path_taken(existing_worktrees@, path@) ==> (r matches Err(e) && e matches CreationError::PathInUse(p) && p@ == path@),
{
    let mut i: usize = 0;
    while i < existing_worktrees.len()
        invariant
            i <= existing_worktrees.len(),
            forall|j: int| 0 <= j < i ==> existing_worktrees@[j].name@ != name@,
        decreases existing_worktrees.len() - i,
    {
        if str_eq(existing_worktrees[i].name.as_str(), name) {
            assert(existing_worktrees@[i as int].name@ == name@);
            return Err(CreationError::AlreadyExists(owned(name)));
        }
        i = i + 1;
    }
    let mut k: usize = 0;
    while k < existing_worktrees.len()
        invariant
            k <= existing_worktrees.len(),
            !name_taken(existing_worktrees@, name@),
            forall|j: int| 0 <= j < k ==> !std_path_eq(existing_worktrees@[j].path@, path@),
        decreases existing_worktrees.len() - k,
    {
        if path_eq(existing_worktrees[k].path.as_str(), path) {
            assert(std_path_eq(existing_worktrees@[k as int].path@, path@));
            return Err(CreationError::PathInUse(owned(path)));
        }
        k = k + 1;
    }
    Ok(())
}

} // verus!
