//! The repository's display name, as the header shows it: the repository
//! name, with the worktree in parentheses when inside a linked worktree.

use vstd::prelude::*;
use crate::constants::{MAIN_SUFFIX, UNKNOWN_VALUE};
use crate::pathname::{opt_view, path_file_name, path_parent, std_path_file_name, std_path_parent};
use crate::text::{chars_of, concat2, ends_with_chars, is_suffix, owned, str_eq, string_from_chars};

verus! {

/// `s` without the suffix `.bare`, when it has it.
pub open spec fn without_bare(s: Seq<char>) -> Seq<char> {
    if is_suffix(".bare"@, s) {
        s.subrange(0, s.len() - 5)
    } else {
        s
    }
}

/// `s` without the suffix `.bare`, when it has it.
pub fn strip_bare_suffix(s: &str) -> (r: String)
    ensures
        r@ == without_bare(s@),
{
    proof {
        reveal_strlit(".bare");
    }
    let c = chars_of(s);
    let b = chars_of(".bare");
    if ends_with_chars(c.as_slice(), b.as_slice()) {
        let mut v = c;
        let k = v.len() - 5;
        v.truncate(k);
        string_from_chars(v.as_slice())
    } else {
        owned(s)
    }
}

/// What `git rev-parse --show-toplevel` gave: not run (the command could
/// not be started or printed no text), failed, or a path.
pub enum Toplevel {
    Unavailable,
    Failed,
    Path(String),
}

/// The repository name found from the Git directory `git_dir` (the
/// trimmed output of `git rev-parse --git-dir` run in `path`):
/// the top level's name for a `.git` directory; the directory's own name
/// (without `.bare`) when the Git directory is `.`; for a linked worktree's
/// Git directory (`.../worktrees/<name>`), the repository directory's name
/// (without `.bare`, or its parent's name for `.git`); a `.bare` directory's
/// name without the suffix; nothing otherwise.
pub open spec fn repo_name_spec(path: Seq<char>, git_dir: Seq<char>, toplevel: Option<Option<Seq<char>>>) -> Option<Option<Seq<char>>> {
    if std_path_file_name(git_dir) == Some(".git"@) && toplevel is None {
        None
    } else if std_path_file_name(git_dir) == Some(".git"@) && toplevel matches Some(Some(t)) {
        Some(std_path_file_name(toplevel->0->0))
    } else if git_dir == "."@ && std_path_file_name(path) is Some {
        Some(Some(without_bare(std_path_file_name(path)->0)))
    } else {
        Some(linked_or_bare_name(git_dir))
    }
}

/// The name found from a linked worktree's or bare repository's Git
/// directory.
pub open spec fn linked_or_bare_name(git_dir: Seq<char>) -> Option<Seq<char>> {
    let linked = match std_path_parent(git_dir) {
        Some(parent) => if std_path_file_name(parent) == Some("worktrees"@) {
            match std_path_parent(parent) {
                Some(repo_dir) => match std_path_file_name(repo_dir) {
                    Some(n) => if is_suffix(".bare"@, n) {
                        Some(Some(without_bare(n)))
                    } else if n == ".git"@ {
                        match std_path_parent(repo_dir) {
                            Some(a) => match std_path_file_name(a) {
                                Some(m) => Some(Some(m)),
                                None => None,
                            },
                            None => None,
                        }
                    } else {
                        Some(Some(n))
                    },
                    None => None,
                },
                None => None,
            }
        } else {
            None
        },
        None => None,
    };
    match linked {
        Some(found) => found,
        None => match std_path_file_name(git_dir) {
            Some(n) => if is_suffix(".bare"@, n) {
                Some(without_bare(n))
            } else {
                None
            },
            None => None,
        },
    }
}

fn has_bare_suffix(s: &str) -> (r: bool)
    ensures
        r == is_suffix(".bare"@, s@),
{
    let c = chars_of(s);
    let b = chars_of(".bare");
    ends_with_chars(c.as_slice(), b.as_slice())
}

fn linked_or_bare_name_exec(git_dir: &str) -> (r: Option<String>)
    ensures
        opt_view(r) == linked_or_bare_name(git_dir@),
{
    if let Some(parent) = path_parent(git_dir) {
        if let Some(pn) = path_file_name(parent.as_str()) {
            if str_eq(pn.as_str(), "worktrees") {
                if let Some(repo_dir) = path_parent(parent.as_str()) {
                    if let Some(n) = path_file_name(repo_dir.as_str()) {
                        if has_bare_suffix(n.as_str()) {
                            return Some(strip_bare_suffix(n.as_str()));
                        } else if str_eq(n.as_str(), ".git") {
                            if let Some(a) = path_parent(repo_dir.as_str()) {
                                if let Some(m) = path_file_name(a.as_str()) {
                                    return Some(m);
                                }
                            }
                        } else {
                            return Some(n);
                        }
                    }
                }
            }
        }
    }
    match path_file_name(git_dir) {
        Some(n) => if has_bare_suffix(n.as_str()) {
            Some(strip_bare_suffix(n.as_str()))
        } else {
            None
        },
        None => None,
    }
}

/// The view of what `git rev-parse --show-toplevel` gave: `None` when
/// unavailable, `Some(None)` when it failed.
pub open spec fn toplevel_view(t: Toplevel) -> Option<Option<Seq<char>>> {
    match t {
        Toplevel::Unavailable => None,
        Toplevel::Failed => Some(None),
        Toplevel::Path(p) => Some(Some(p@)),
    }
}

/// Whether the top level must be asked for: the Git directory is `.git`.
pub fn needs_toplevel(git_dir: &str) -> (r: bool)
    ensures
        r == (std_path_file_name(git_dir@) == Some(".git"@)),
{
    match path_file_name(git_dir) {
        Some(n) => str_eq(n.as_str(), ".git"),
        None => false,
    }
}

/// The repository name from the Git directory (see `repo_name_spec`);
/// `None` when no name is found, and when the top level was needed but
/// not available.
pub fn repo_name_from_git_dir(path: &str, git_dir: &str, toplevel: Toplevel) -> (r: Option<String>)
    ensures
        match repo_name_spec(path@, git_dir@, toplevel_view(toplevel)) {
            None => r is None,
            Some(n) => opt_view(r) == n,
        },
{
    if needs_toplevel(git_dir) {
        match toplevel {
            Toplevel::Unavailable => {
                return None;
            },
            Toplevel::Path(t) => {
                return path_file_name(t.as_str());
            },
            Toplevel::Failed => {},
        }
    }
    if str_eq(git_dir, ".") {
        if let Some(n) = path_file_name(path) {
            return Some(strip_bare_suffix(n.as_str()));
        }
    }
    linked_or_bare_name_exec(git_dir)
}

/// What is known of the repository around the current directory.
pub struct RepositoryFacts {
    pub is_bare: bool,
    /// The repository's Git directory.
    pub repo_path: String,
    /// The main working directory, unless bare.
    pub workdir: Option<String>,
    /// `<current>/.git` is a file: the current directory is a linked worktree.
    pub dot_git_is_file: bool,
    /// `<git dir>/worktrees` exists: the repository has linked worktrees.
    pub worktrees_dir_exists: bool,
    /// The working directory is the current directory.
    pub workdir_is_current: bool,
}

/// The last component of `p`, or `unknown`.
pub open spec fn name_or_unknown(p: Seq<char>) -> Seq<char> {
    match std_path_file_name(p) {
        Some(n) => n,
        None => "unknown"@,
    }
}

fn name_or_unknown_exec(p: &str) -> (r: String)
    ensures
        r@ == name_or_unknown(p@),
{
    match path_file_name(p) {
        Some(n) => n,
        None => owned(UNKNOWN_VALUE),
    }
}

/// The repository's name when `git` did not give one: a bare repository's
/// directory name without `.bare`, else the working directory's name, else
/// the current directory's.
pub open spec fn fallback_name(current: Seq<char>, f: RepositoryFacts) -> Seq<char> {
    if f.is_bare {
        match std_path_file_name(f.repo_path@) {
            Some(n) => without_bare(n),
            None => "unknown"@,
        }
    } else {
        match f.workdir {
            Some(w) => name_or_unknown(w@),
            None => name_or_unknown(current),
        }
    }
}

/// The header's repository line: outside a repository the current
/// directory's name; in a bare repository its name; in a linked worktree
/// `<repo> (<worktree>)`; in the main worktree of a repository with linked
/// worktrees `<repo>` when it is the current directory and `<repo> (main)`
/// otherwise; else `<repo>`.
pub open spec fn repository_display(current: Seq<char>, facts: Option<RepositoryFacts>, git_name: Option<Seq<char>>) -> Seq<char> {
    match facts {
        None => name_or_unknown(current),
        Some(f) => {
            let repo = match git_name {
                Some(n) => n,
                None => fallback_name(current, f),
            };
            if f.is_bare {
                repo
            } else if f.dot_git_is_file {
                repo + " ("@ + name_or_unknown(current) + ")"@
            } else if f.worktrees_dir_exists {
                if f.workdir is Some && f.workdir_is_current {
                    repo
                } else {
                    repo + " (main)"@
                }
            } else {
                repo
            }
        },
    }
}

/// The header's repository line for the directory `current`.
pub fn repository_display_name(current: &str, facts: Option<RepositoryFacts>, git_name: Option<String>) -> (r: String)
    ensures
        r@ == repository_display(current@, facts, opt_view(git_name)),
{
    match facts {
        None => name_or_unknown_exec(current),
        Some(f) => {
            let repo = match git_name {
                Some(n) => n,
                None => if f.is_bare {
                    match path_file_name(f.repo_path.as_str()) {
                        Some(n) => strip_bare_suffix(n.as_str()),
                        None => owned(UNKNOWN_VALUE),
                    }
                } else {
                    match &f.workdir {
                        Some(w) => name_or_unknown_exec(w.as_str()),
                        None => name_or_unknown_exec(current),
                    }
                },
            };
            if f.is_bare {
                repo
            } else if f.dot_git_is_file {
                let w = name_or_unknown_exec(current);
                let mut s = concat2(repo.as_str(), " (");
                s.append(w.as_str());
                s.append(")");
                s
            } else if f.worktrees_dir_exists {
                if f.workdir.is_some() && f.workdir_is_current {
                    repo
                } else {
                    concat2(repo.as_str(), MAIN_SUFFIX)
                }
            } else {
                repo
            }
        },
    }
}

} // verus!
