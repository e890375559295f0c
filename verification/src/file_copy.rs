//! Copying configured files (such as `.env`) into a new worktree: which
//! paths are safe, where they are copied from, and which are too large.
#![verifier::loop_isolation(false)]

use vstd::prelude::*;
use crate::constants::{CONFIG_FILE_NAME, MAX_FILE_SIZE, WORKTREES_SUBDIR};
use crate::git::WorktreeInfo;
use crate::pathname::{opt_view, path_file_name, path_is_absolute, path_join, path_parent,
    std_path_file_name, std_path_is_absolute, std_path_join, std_path_parent};
use crate::text::{byte_len, chars_of, owned, split_on, str_eq, utf8_len};

verus! {

/// `s` split at every `/` and `\`.
pub open spec fn split_separators(s: Seq<char>) -> Seq<Seq<char>>
    decreases s.len(),
{
    if s.len() == 0 {
        seq![Seq::<char>::empty()]
    } else {
        let rest = split_separators(s.drop_first());
        if s[0] == '/' || s[0] == '\\' {
            seq![Seq::<char>::empty()] + rest
        } else {
            rest.update(0, seq![s[0]] + rest[0])
        }
    }
}

proof fn lemma_split_separators_nonempty(s: Seq<char>)
    ensures
        split_separators(s).len() >= 1,
    decreases s.len(),
{
    if s.len() > 0 {
        lemma_split_separators_nonempty(s.drop_first());
    }
}

/// Whether a configured path may be copied: it is relative (not empty, not
/// starting with a separator, no drive letter), and no component is `.`
/// or `..`.
pub open spec fn safe_path(p: Seq<char>) -> bool {
    &&& p.len() > 0
    &&& p[0] != '/' && p[0] != '\\'
    &&& !(utf8_len(p) >= 3 && p.len() >= 2 && p[1] == ':')
    &&& forall|i: int| 0 <= i < split_separators(p).len() ==> #[trigger] split_separators(p)[i] != ".."@
        && split_separators(p)[i] != "."@
}

/// Whether the configured path `path` may be copied.
pub fn is_safe_path(path: &str) -> (r: bool)
    ensures
        r == safe_path(path@),
{
    let c = chars_of(path);
    if c.len() == 0 {
        return false;
    }
    if c[0] == '/' || c[0] == '\\' {
        return false;
    }
    if byte_len(path) >= 3 && c.len() >= 2 && c[1] == ':' {
        return false;
    }
    let n = c.len();
    let mut current: Vec<char> = Vec::new();
    let mut i: usize = n;
    proof {
        lemma_split_separators_nonempty(c@);
    }
    // Components are read from the end; `current` is the first piece of
    // the suffix read so far.
    assert(split_separators(c@.subrange(n as int, n as int)) =~= seq![Seq::<char>::empty()]);
    while i > 0
        invariant
            i <= n,
            n == c@.len(),
            c@ == path@,
            current@ == split_separators(c@.subrange(i as int, n as int))[0],
            forall|k: int| 1 <= k < split_separators(c@.subrange(i as int, n as int)).len() ==> #[trigger] split_separators(c@.subrange(i as int, n as int))[k] != ".."@
                && split_separators(c@.subrange(i as int, n as int))[k] != "."@,
        decreases i,
    {
        let ghost sub = c@.subrange(i - 1, n as int);
        let ghost rest = c@.subrange(i as int, n as int);
        assert(sub.drop_first() =~= rest);
        proof {
            lemma_split_separators_nonempty(rest);
        }
        let ch = c[i - 1];
        if ch == '/' || ch == '\\' {
            if is_dot_component(&current) {
                proof {
                    assert(split_separators(c@)[0] =~= split_separators(c@)[0]);
                    lemma_suffix_component(c@, (i - 1) as int, 1);
                }
                return false;
            }
            current = Vec::new();
        } else {
            let ghost before = current@;
            current.insert(0, ch);
            assert(current@ =~= seq![ch] + before);
        }
        i = i - 1;
    }
    assert(c@.subrange(0, n as int) =~= c@);
    if is_dot_component(&current) {
        return false;
    }
    true
}

fn is_dot_component(v: &Vec<char>) -> (r: bool)
    ensures
        r == (v@ == ".."@ || v@ == "."@),
{
    proof {
        reveal_strlit("..");
        reveal_strlit(".");
    }
    let two = v.len() == 2 && v[0] == '.' && v[1] == '.';
    let one = v.len() == 1 && v[0] == '.';
    proof {
        if two {
            assert(v@ =~= ".."@);
        }
        if one {
            assert(v@ =~= "."@);
        }
        if v@ == ".."@ {
            assert(v@[0] == ".."@[0] && v@[1] == ".."@[1]);
        }
        if v@ == "."@ {
            assert(v@[0] == "."@[0]);
        }
    }
    two || one
}

/// The components of a suffix of `s` are components of `s` itself: the
/// component at position `k >= 1` of the suffix from `j` is one of `s`'s.
proof fn lemma_suffix_component(s: Seq<char>, j: int, k: int)
    requires
        0 <= j <= s.len(),
        1 <= k < split_separators(s.subrange(j, s.len() as int)).len(),
    ensures
        exists|m: int| 0 <= m < split_separators(s).len() && #[trigger] split_separators(s)[m]
            == split_separators(s.subrange(j, s.len() as int))[k],
    decreases j,
{
    if j == 0 {
        assert(s.subrange(0, s.len() as int) =~= s);
        assert(split_separators(s)[k] == split_separators(s.subrange(j, s.len() as int))[k]);
    } else {
        let t = s.subrange(j - 1, s.len() as int);
        let u = s.subrange(j, s.len() as int);
        assert(t.drop_first() =~= u);
        lemma_split_separators_nonempty(u);
        if t[0] == '/' || t[0] == '\\' {
            assert(split_separators(t)[k + 1] == split_separators(u)[k]);
            lemma_suffix_component(s, j - 1, k + 1);
        } else {
            assert(split_separators(t)[k] == split_separators(u)[k]);
            lemma_suffix_component(s, j - 1, k);
        }
    }
}

/// The main worktree of a list: the first called `main` or `master`, else
/// the first whose parent directory is named and not `worktrees`.
pub open spec fn main_worktree_of(s: Seq<WorktreeInfo>) -> Option<WorktreeInfo> {
    if exists|i: int| 0 <= i < s.len() && (#[trigger] s[i].name@ == "main"@ || s[i].name@ == "master"@) {
        Some(s[choose|i: int| 0 <= i < s.len() && (#[trigger] s[i].name@ == "main"@ || s[i].name@ == "master"@) && forall|j: int| 0 <= j < i ==> !(s[j].name@ == "main"@ || s[j].name@ == "master"@)])
    } else if exists|i: int| 0 <= i < s.len() && outside_worktrees_dir(#[trigger] s[i]) {
        Some(s[choose|i: int| 0 <= i < s.len() && outside_worktrees_dir(#[trigger] s[i]) && forall|j: int| 0 <= j < i ==> !outside_worktrees_dir(s[j])])
    } else {
        None
    }
}

/// The worktree's parent directory has a name other than `worktrees`.
pub open spec fn outside_worktrees_dir(w: WorktreeInfo) -> bool {
    match std_path_parent(w.path@) {
        Some(p) => match std_path_file_name(p) {
            Some(n) => n != "worktrees"@,
            None => false,
        },
        None => false,
    }
}

fn is_outside_worktrees_dir(w: &WorktreeInfo) -> (r: bool)
    ensures
        r == outside_worktrees_dir(*w),
{
    match path_parent(w.path.as_str()) {
        Some(p) => match path_file_name(p.as_str()) {
            Some(n) => !str_eq(n.as_str(), WORKTREES_SUBDIR),
            None => false,
        },
        None => false,
    }
}

/// The worktree whose files are copied into new worktrees.
pub fn find_main_worktree(worktrees: &Vec<WorktreeInfo>) -> (r: Option<WorktreeInfo>)
    ensures
        r == main_worktree_of(worktrees@),
{
    let ghost s = worktrees@;
    let mut i: usize = 0;
    while i < worktrees.len()
        invariant
            i <= worktrees.len(),
            forall|j: int| 0 <= j < i ==> !(s[j].name@ == "main"@ || s[j].name@ == "master"@),
        decreases worktrees.len() - i,
    {
        if str_eq(worktrees[i].name.as_str(), "main") || str_eq(worktrees[i].name.as_str(), "master") {
            proof {
                let c = choose|c: int| 0 <= c < s.len() && (#[trigger] s[c].name@ == "main"@ || s[c].name@ == "master"@) && forall|j: int| 0 <= j < c ==> !(s[j].name@ == "main"@ || s[j].name@ == "master"@);
                assert(0 <= i < s.len() && (s[i as int].name@ == "main"@ || s[i as int].name@ == "master"@) && forall|j: int| 0 <= j < i ==> !(s[j].name@ == "main"@ || s[j].name@ == "master"@));
                assert(c == i);
            }
            return Some(worktrees[i].duplicate());
        }
        i = i + 1;
    }
    let mut k: usize = 0;
    while k < worktrees.len()
        invariant
            k <= worktrees.len(),
            forall|j: int| 0 <= j < s.len() ==> !(s[j].name@ == "main"@ || s[j].name@ == "master"@),
            forall|j: int| 0 <= j < k ==> !outside_worktrees_dir(s[j]),
        decreases worktrees.len() - k,
    {
        if is_outside_worktrees_dir(&worktrees[k]) {
            proof {
                let c = choose|c: int| 0 <= c < s.len() && outside_worktrees_dir(#[trigger] s[c]) && forall|j: int| 0 <= j < c ==> !outside_worktrees_dir(s[j]);
                assert(0 <= k < s.len() && outside_worktrees_dir(s[k as int]) && forall|j: int| 0 <= j < k ==> !outside_worktrees_dir(s[j]));
                assert(c == k);
            }
            return Some(worktrees[k].duplicate());
        }
        k = k + 1;
    }
    None
}

/// The configured source directory: an absolute path as it is, a relative
/// one under the repository directory `repo_path`.
pub fn configured_source_directory(source: &str, repo_path: &str) -> (r: String)
    ensures
        r@ == if std_path_is_absolute(source@) {
            source@
        } else {
            std_path_join(repo_path@, source@)
        },
{
    if path_is_absolute(source) {
        owned(source)
    } else {
        path_join(repo_path, source)
    }
}

/// The directories a bare repository's files may be copied from, in the
/// order they are tried: the main worktree (if any), then `main` and
/// `master` beside the repository directory.  The first holding a
/// configuration file is used.
pub fn bare_source_candidates(main_worktree_path: Option<&str>, git_dir_parent: &str) -> (r: Vec<String>)
    ensures
        r@.map_values(|x: String| x@) == (match main_worktree_path {
            Some(p) => seq![p@],
            None => Seq::empty(),
        }) + seq![std_path_join(git_dir_parent@, "main"@), std_path_join(git_dir_parent@, "master"@)],
{
    let mut r: Vec<String> = Vec::new();
    match main_worktree_path {
        Some(p) => r.push(owned(p)),
        None => {},
    }
    r.push(path_join(git_dir_parent, "main"));
    r.push(path_join(git_dir_parent, "master"));
    assert(r@.map_values(|x: String| x@) =~= (match main_worktree_path {
        Some(p) => seq![p@],
        None => Seq::empty(),
    }) + seq![std_path_join(git_dir_parent@, "main"@), std_path_join(git_dir_parent@, "master"@)]);
    r
}

/// Whether a file of `size` bytes is skipped as too large (over 100 MiB).
pub fn is_too_large(size: u64, is_file: bool) -> (r: bool)
    ensures
        r == (size > 104857600 && is_file),
{
    size > MAX_FILE_SIZE && is_file
}

/// Whether copying a directory `depth` levels down is refused as too deep
/// (a likely circular reference).
pub fn is_too_deep(depth: usize) -> (r: bool)
    ensures
        r == (depth >= 50),
{
    depth >= crate::constants::MAX_DIRECTORY_DEPTH
}

/// When some worktree is called `main` or `master`, the main worktree is
/// the first such, wherever the others lie.
pub proof fn law_main_or_master_is_main(s: Seq<WorktreeInfo>, k: int)
    requires
        0 <= k < s.len(),
        s[k].name@ == "main"@ || s[k].name@ == "master"@,
        forall|j: int| 0 <= j < k ==> !(s[j].name@ == "main"@ || s[j].name@ == "master"@),
    ensures
        main_worktree_of(s) == Some(s[k]),
{
    let c = choose|i: int|
        0 <= i < s.len() && (#[trigger] s[i].name@ == "main"@ || s[i].name@ == "master"@) && forall|j: int|
            0 <= j < i ==> !(s[j].name@ == "main"@ || s[j].name@ == "master"@);
    assert(0 <= k < s.len() && (s[k].name@ == "main"@ || s[k].name@ == "master"@) && forall|j: int|
        0 <= j < k ==> !(s[j].name@ == "main"@ || s[j].name@ == "master"@));
    if c < k {
        assert(!(s[c].name@ == "main"@ || s[c].name@ == "master"@));
    } else if c > k {
        assert(!(s[k].name@ == "main"@ || s[k].name@ == "master"@));
    }
}

} // verus!
