//! Creating a worktree: the name, where it goes, which branch or tag it
//! starts from, and how a branch already checked out elsewhere is handled.
#![verifier::loop_isolation(false)]

use vstd::prelude::*;
use crate::constants::{
    FUZZY_SEARCH_THRESHOLD, GIT_REMOTE_PREFIX, OPTION_CUSTOM_PATH_FULL, TAG_MESSAGE_TRUNCATE_LENGTH,
};
use crate::domain::validation::{
    custom_path_verdict, name_verdict, validate_custom_path, validate_worktree_name, NameError,
    PathError,
};
use crate::pathname::{opt_view, path_file_name, std_path_file_name};
use crate::string_map::StringMap;
use crate::text::{
    chars_of, concat2, concat3, lines, lines_of, owned, str_eq, string_from_chars, trim, trim_str,
    utf8_char_len, utf8_len, views,
};

verus! {

/// Where a new worktree's branch comes from.
#[derive(Debug, Clone)]
pub enum BranchSource {
    /// The current HEAD.
    Head,
    /// An existing branch.
    Branch(String),
    /// A tag.
    Tag(String),
    /// A new branch from a base.
    NewBranch { name: String, base: String },
}

/// What creating a worktree was asked for.
#[derive(Debug, Clone)]
pub struct WorktreeCreateConfig {
    pub name: String,
    pub path: String,
    pub branch_source: BranchSource,
    pub switch_to_new: bool,
}

/// Why creating a worktree stopped.
#[derive(Debug, Clone, PartialEq)]
pub enum CreateError {
    /// The name is empty.
    EmptyName,
    /// The name breaks a naming rule.
    InvalidName(NameError),
    /// The custom path is empty.
    CustomPathEmpty,
    /// The custom path breaks a path rule.
    InvalidCustomPath(PathError),
    /// The location choice is neither of the offered ones.
    InvalidLocationSelection(usize),
    /// A custom location was chosen without a path.
    CustomPathMissing,
    /// The new branch name is empty.
    EmptyBranchName,
    /// A branch of this name exists.
    BranchExists(String),
    /// The branch is checked out in this worktree.
    BranchInUse(String, String),
    /// The user cancelled.
    Cancelled,
}

/// The worktree name typed by the user, trimmed and validated.
pub fn worktree_name_from_input(input: &str) -> (r: Result<String, CreateError>)
    ensures
        trim(input@).len() == 0 ==> r == Err::<String, CreateError>(CreateError::EmptyName),
        trim(input@).len() > 0 ==> match name_verdict(trim(input@)) {
            Ok(n) => r matches Ok(s) && s@ == n,
            Err(e) => r == Err::<String, CreateError>(CreateError::InvalidName(e)),
        },
{
    let t = trim_str(input);
    if t.as_str().is_empty() {
        return Err(CreateError::EmptyName);
    }
    match validate_worktree_name(t.as_str()) {
        Ok(n) => Ok(n),
        Err(e) => Err(CreateError::InvalidName(e)),
    }
}

/// The path `name` gets from a location choice: `../<name>` for choice 0,
/// `worktrees/<name>` for choice 1, the validated custom path for choice 2.
pub fn determine_worktree_path_legacy(
    name: &str,
    location_choice: usize,
    custom_path: Option<&str>,
    repo_name: &str,
) -> (r: Result<String, CreateError>)
    ensures
        location_choice == 0 ==> (r matches Ok(p) && p@ == "../"@ + name@),
        location_choice == 1 ==> (r matches Ok(p) && p@ == "worktrees/"@ + name@),
        location_choice == 2 && custom_path is None ==> r == Err::<String, CreateError>(
            CreateError::CustomPathMissing,
        ),
        location_choice == 2 && custom_path is Some ==> match custom_path_verdict(custom_path->0@) {
            Ok(_) => r matches Ok(p) && p@ == custom_path->0@,
            Err(e) => r == Err::<String, CreateError>(CreateError::InvalidCustomPath(e)),
        },
        location_choice > 2 ==> r == Err::<String, CreateError>(
            CreateError::InvalidLocationSelection(location_choice),
        ),
{
    if location_choice == 0 {
        Ok(concat2("../", name))
    } else if location_choice == 1 {
        Ok(concat2("worktrees/", name))
    } else if location_choice == 2 {
        match custom_path {
            None => Err(CreateError::CustomPathMissing),
            Some(p) => match validate_custom_path(p) {
                Ok(()) => Ok(owned(p)),
                Err(e) => Err(CreateError::InvalidCustomPath(e)),
            },
        }
    } else {
        Err(CreateError::InvalidLocationSelection(location_choice))
    }
}

/// The choices offered for placing the first worktree `name` of the
/// repository `repo_name`: beside it, in its `worktrees` directory, or a
/// custom path.
pub fn location_options(name: &str, repo_name: &str) -> (r: Vec<String>)
    ensures
        r@.len() == 3,
        r@[0]@ == "Same level as repository (../"@ + name@ + ")"@,
        r@[1]@ == "In subdirectory ("@ + repo_name@ + "/worktrees/"@ + name@ + ")"@,
        r@[2]@ == OPTION_CUSTOM_PATH_FULL@,
{
    let first = concat3("Same level as repository (../", name, ")");
    let head = concat3("In subdirectory (", repo_name, "/worktrees/");
    let second = concat3(head.as_str(), name, ")");
    let r = vec![first, second, owned(OPTION_CUSTOM_PATH_FULL)];
    r
}

/// The repository name shown in the location choices: the last component
/// of the working directory `workdir`, or `repo`.
pub fn location_repo_name(workdir: Option<&str>) -> (r: String)
    ensures
        r@ == match workdir {
            Some(w) => match std_path_file_name(w@) {
                Some(n) => n,
                None => "repo"@,
            },
            None => "repo"@,
        },
{
    match workdir {
        Some(w) => match path_file_name(w) {
            Some(n) => n,
            None => owned("repo"),
        },
        None => owned("repo"),
    }
}

/// `s` without trailing `/` characters.
pub open spec fn trim_slashes(s: Seq<char>) -> Seq<char>
    decreases s.len(),
{
    if s.len() > 0 && s.last() == '/' {
        trim_slashes(s.drop_last())
    } else {
        s
    }
}

/// Where the worktree `name` goes under the custom directory `dir`
/// (already trimmed): `name` alone for an empty directory, `./<name>` for
/// `.`, else `<dir>/<name>`.
pub open spec fn custom_location(dir: Seq<char>, name: Seq<char>) -> Seq<char> {
    let d = trim_slashes(dir);
    if d.len() == 0 {
        name
    } else if d == "."@ {
        "./"@ + name
    } else {
        d + "/"@ + name
    }
}

/// The worktree path for the first worktree, from the location choice
/// (0 beside the repository, 1 in its `worktrees` directory, 2 a custom
/// directory typed by the user).
pub fn first_worktree_location(name: &str, selection: usize, custom_input: Option<&str>) -> (r: Result<String, CreateError>)
    ensures
        selection == 0 ==> (r matches Ok(p) && p@ == "../"@ + name@),
        selection == 1 ==> (r matches Ok(p) && p@ == "worktrees/"@ + name@),
        selection == 2 && custom_input is None ==> r == Err::<String, CreateError>(CreateError::Cancelled),
        selection == 2 && custom_input is Some && trim(custom_input->0@).len() == 0 ==> r == Err::<
            String,
            CreateError,
        >(CreateError::CustomPathEmpty),
        selection == 2 && custom_input is Some && trim(custom_input->0@).len() > 0 ==> match custom_path_verdict(
            custom_location(trim(custom_input->0@), name@),
        ) {
            Ok(_) => r matches Ok(p) && p@ == custom_location(trim(custom_input->0@), name@),
            Err(e) => r == Err::<String, CreateError>(CreateError::InvalidCustomPath(e)),
        },
        selection > 2 ==> r == Err::<String, CreateError>(CreateError::InvalidLocationSelection(selection)),
{
    if selection == 0 {
        return Ok(concat2("../", name));
    }
    if selection == 1 {
        return Ok(concat2("worktrees/", name));
    }
    if selection != 2 {
        return Err(CreateError::InvalidLocationSelection(selection));
    }
    let input = match custom_input {
        Some(i) => i,
        None => {
            return Err(CreateError::Cancelled);
        },
    };
    let t = trim_str(input);
    if t.as_str().is_empty() {
        return Err(CreateError::CustomPathEmpty);
    }
    let mut d = chars_of(t.as_str());
    while d.len() > 0 && d[d.len() - 1] == '/'
        invariant
            trim_slashes(d@) == trim_slashes(t@),
        decreases d.len(),
    {
        let ghost before = d@;
        d.pop();
        assert(d@ =~= before.drop_last());
    }
    let dir = string_from_chars(d.as_slice());
    proof {
        reveal_strlit(".");
    }
    let final_path = if dir.as_str().is_empty() {
        owned(name)
    } else if str_eq(dir.as_str(), ".") {
        concat2("./", name)
    } else {
        concat3(dir.as_str(), "/", name)
    };
    match validate_custom_path(final_path.as_str()) {
        Ok(()) => Ok(final_path),
        Err(e) => Err(CreateError::InvalidCustomPath(e)),
    }
}

/// The choice line of a local branch.
pub open spec fn local_branch_item(branch: Seq<char>, map: Map<Seq<char>, Seq<char>>) -> Seq<char> {
    if map.contains_key(branch) {
        "💻 "@ + branch + " (in use by '"@ + map[branch] + "')"@
    } else {
        "💻 "@ + branch
    }
}

/// The choice line of a remote branch (`origin/<branch>`).
pub open spec fn remote_branch_item(branch: Seq<char>, map: Map<Seq<char>, Seq<char>>) -> Seq<char> {
    let full = "origin/"@ + branch;
    if map.contains_key(full) {
        "↑ "@ + full + " (in use by '"@ + map[full] + "')"@
    } else {
        "↑ "@ + full
    }
}

fn branch_item(icon: &str, branch: &str, map: &StringMap) -> (r: String)
    ensures
        r@ == if map@.contains_key(branch@) {
            icon@ + branch@ + " (in use by '"@ + map@[branch@] + "')"@
        } else {
            icon@ + branch@
        },
{
    let mut s = concat2(icon, branch);
    match map.get(branch) {
        Some(w) => {
            s.append(" (in use by '");
            s.append(w.as_str());
            s.append("')");
        },
        None => {},
    }
    s
}

/// The branch choices: each local branch, then each remote one, marked
/// with the worktree using it; with them, each choice's branch name and
/// whether it is remote.
pub fn branch_choices(local: &Vec<String>, remote: &Vec<String>, map: &StringMap) -> (r: (Vec<String>, Vec<(String, bool)>))
    ensures
        r.0@.len() == local@.len() + remote@.len(),
        r.1@.len() == r.0@.len(),
        forall|i: int| 0 <= i < local@.len() ==> (#[trigger] r.0@[i])@ == local_branch_item(local@[i]@, map@)
            && r.1@[i].0 == local@[i] && !r.1@[i].1,
        forall|i: int| local@.len() <= i < r.0@.len() ==> (#[trigger] r.0@[i])@ == remote_branch_item(
            remote@[i - local@.len()]@, map@) && r.1@[i].0 == remote@[i - local@.len()] && r.1@[i].1,
{
    proof {
        reveal_strlit("origin/");
    }
    let mut items: Vec<String> = Vec::new();
    let mut refs: Vec<(String, bool)> = Vec::new();
    let mut i: usize = 0;
    while i < local.len()
        invariant
            i <= local.len(),
            items@.len() == i,
            refs@.len() == i,
            forall|j: int| 0 <= j < i ==> (#[trigger] items@[j])@ == local_branch_item(local@[j]@, map@)
                && refs@[j].0 == local@[j] && !refs@[j].1,
        decreases local.len() - i,
    {
        items.push(branch_item("💻 ", local[i].as_str(), map));
        refs.push((local[i].clone(), false));
        i = i + 1;
    }
    let mut k: usize = 0;
    while k < remote.len()
        invariant
            k <= remote.len(),
            items@.len() == local@.len() + k,
            refs@.len() == items@.len(),
            forall|j: int| 0 <= j < local@.len() ==> (#[trigger] items@[j])@ == local_branch_item(local@[j]@, map@)
                && refs@[j].0 == local@[j] && !refs@[j].1,
            forall|j: int| local@.len() <= j < items@.len() ==> (#[trigger] items@[j])@ == remote_branch_item(
                remote@[j - local@.len()]@, map@) && refs@[j].0 == remote@[j - local@.len()] && refs@[j].1,
        decreases remote.len() - k,
    {
        let full = concat2("origin/", remote[k].as_str());
        let ghost old_items = items@;
        let ghost old_refs = refs@;
        let item = branch_item("↑ ", full.as_str(), map);
        assert(item@ == remote_branch_item(remote@[k as int]@, map@));
        items.push(item);
        refs.push((remote[k].clone(), true));
        assert(forall|j: int| 0 <= j < old_items.len() ==> items@[j] == old_items[j] && refs@[j] == old_refs[j]);
        k = k + 1;
    }
    (items, refs)
}

/// Whether choosing among `n` items uses fuzzy search.
pub fn uses_fuzzy_search(n: usize) -> (r: bool)
    ensures
        r == (n > 5),
{
    n > FUZZY_SEARCH_THRESHOLD
}

/// What choosing a branch leads to.
#[derive(Debug, Clone)]
pub enum BranchPick {
    /// Use this branch (or `origin/<remote>`) as it is.
    Use(String),
    /// The local branch is checked out in the named worktree; the user is
    /// asked what to do instead.
    LocalInUse { branch: String, worktree: String },
    /// A local branch of the remote branch's name exists; the user is
    /// asked which to use.
    LocalShadowsRemote { branch: String },
}

/// What choosing `branch` (remote when `is_remote`) leads to, given the
/// local branches and the branch map.
pub fn pick_branch(branch: &str, is_remote: bool, local: &Vec<String>, map: &StringMap) -> (r: BranchPick)
    ensures
        !is_remote && map@.contains_key(branch@) ==> (r matches BranchPick::LocalInUse { branch: b, worktree: w } && b@ == branch@ && w@ == map@[branch@]),
        !is_remote && !map@.contains_key(branch@) ==> (r matches BranchPick::Use(b) && b@ == branch@),
        is_remote && views(local@).contains(branch@) ==> (r matches BranchPick::LocalShadowsRemote { branch: b } && b@ == branch@),
        is_remote && !views(local@).contains(branch@) ==> (r matches BranchPick::Use(b) && b@ == "origin/"@ + branch@),
{
    if !is_remote {
        match map.get(branch) {
            Some(w) => BranchPick::LocalInUse { branch: owned(branch), worktree: w.clone() },
            None => BranchPick::Use(owned(branch)),
        }
    } else if contains_name(local, branch) {
        BranchPick::LocalShadowsRemote { branch: owned(branch) }
    } else {
        BranchPick::Use(concat2(GIT_REMOTE_PREFIX, branch))
    }
}

/// Whether `name` is among `names`.
pub fn contains_name(names: &Vec<String>, name: &str) -> (r: bool)
    ensures
        r == views(names@).contains(name@),
{
    let mut i: usize = 0;
    while i < names.len()
        invariant
            i <= names.len(),
            forall|j: int| 0 <= j < i ==> names@[j]@ != name@,
        decreases names.len() - i,
    {
        if str_eq(names[i].as_str(), name) {
            assert(views(names@)[i as int] == name@);
            return true;
        }
        i = i + 1;
    }
    assert(!views(names@).contains(name@)) by {
        if views(names@).contains(name@) {
            let j = choose|j: int| 0 <= j < views(names@).len() && views(names@)[j] == name@;
            assert(names@[j]@ == name@);
        }
    }
    false
}

/// The branch to check out and the new branch to create, once a conflict
/// over a local branch in use has been answered: choice 0 makes the new
/// branch `name` from it, choice 1 makes the branch the user typed
/// (trimmed; it must be new and non-empty), anything else cancels.
pub fn resolve_branch_in_use(
    branch: &str,
    name: &str,
    choice: usize,
    typed: Option<&str>,
    local: &Vec<String>,
) -> (r: Result<(String, String), CreateError>)
    ensures
        choice == 0 ==> (r matches Ok((b, n)) && b@ == branch@ && n@ == name@),
        choice == 1 && typed is None ==> r == Err::<(String, String), CreateError>(CreateError::Cancelled),
        choice == 1 && typed is Some && trim(typed->0@).len() == 0 ==> r == Err::<(String, String), CreateError>(CreateError::EmptyBranchName),
        choice == 1 && typed is Some && trim(typed->0@).len() > 0 && views(local@).contains(trim(typed->0@)) ==> (r matches Err(e) && e matches CreateError::BranchExists(n) && n@ == trim(typed->0@)),
        choice == 1 && typed is Some && trim(typed->0@).len() > 0 && !views(local@).contains(trim(typed->0@)) ==> (r matches Ok((b, n)) && b@ == branch@ && n@ == trim(typed->0@)),
        choice > 1 ==> r == Err::<(String, String), CreateError>(CreateError::Cancelled),
{
    if choice == 0 {
        return Ok((owned(branch), owned(name)));
    }
    if choice != 1 {
        return Err(CreateError::Cancelled);
    }
    let t = match typed {
        Some(x) => trim_str(x),
        None => {
            return Err(CreateError::Cancelled);
        },
    };
    if t.as_str().is_empty() {
        return Err(CreateError::EmptyBranchName);
    }
    if contains_name(local, t.as_str()) {
        return Err(CreateError::BranchExists(t));
    }
    Ok((owned(branch), t))
}

/// The branch to check out and the new branch to create (if any), once a
/// remote branch shadowed by a local one has been answered: choice 0 makes
/// the new branch `name` from `origin/<branch>`, choice 1 uses the local
/// branch unless a worktree has it checked out, anything else cancels.
pub fn resolve_local_shadow(
    branch: &str,
    name: &str,
    choice: usize,
    map: &StringMap,
) -> (r: Result<(String, Option<String>), CreateError>)
    ensures
        choice == 0 ==> (r matches Ok((b, Some(n))) && b@ == "origin/"@ + branch@ && n@ == name@),
        choice == 1 && map@.contains_key(branch@) ==> (r matches Err(e) && e matches CreateError::BranchInUse(b, w) && b@ == branch@ && w@ == map@[branch@]),
        choice == 1 && !map@.contains_key(branch@) ==> (r matches Ok((b, None)) && b@ == branch@),
        choice > 1 ==> r == Err::<(String, Option<String>), CreateError>(CreateError::Cancelled),
{
    if choice == 0 {
        return Ok((concat2(GIT_REMOTE_PREFIX, branch), Some(owned(name))));
    }
    if choice == 1 {
        match map.get(branch) {
            Some(w) => {
                return Err(CreateError::BranchInUse(owned(branch), w.clone()));
            },
            None => {
                return Ok((owned(branch), None));
            },
        }
    }
    Err(CreateError::Cancelled)
}

/// The first line of a tag message (empty for an empty message).
pub open spec fn first_line(msg: Seq<char>) -> Seq<char> {
    if lines_of(msg).len() > 0 {
        lines_of(msg)[0]
    } else {
        Seq::empty()
    }
}

/// The longest prefix of `s` whose UTF-8 encoding has at most `n` bytes.
pub open spec fn cut_at(s: Seq<char>, n: nat) -> bool {
    exists|k: int| 0 <= k <= s.len() && utf8_len(s.take(k)) == n
}

/// The choice line of a tag: its name, and for an annotated tag the
/// message's first line, cut to 50 bytes with `...` after.
pub open spec fn tag_item(name: Seq<char>, message: Option<Seq<char>>) -> Seq<char> {
    match message {
        None => "🏷️  "@ + name,
        Some(m) => {
            let l = first_line(m);
            let shown = if utf8_len(l) > 50 {
                l.take(choose|k: int| 0 <= k <= l.len() && utf8_len(l.take(k)) == 50) + "..."@
            } else {
                l
            };
            "🏷️  "@ + name + " - "@ + shown
        },
    }
}

proof fn lemma_take_len_step(s: Seq<char>, k: int)
    requires
        0 <= k < s.len(),
    ensures
        utf8_len(s.take(k + 1)) == utf8_len(s.take(k)) + utf8_char_len(s[k]),
{
    assert(s.take(k + 1).drop_last() =~= s.take(k));
}

proof fn lemma_take_len_mono(s: Seq<char>, a: int, b: int)
    requires
        0 <= a <= b <= s.len(),
    ensures
        utf8_len(s.take(a)) <= utf8_len(s.take(b)),
        a < b ==> utf8_len(s.take(a)) < utf8_len(s.take(b)),
    decreases b - a,
{
    if a < b {
        lemma_take_len_mono(s, a, b - 1);
        lemma_take_len_step(s, b - 1);
    }
}

/// The choice line of a tag.  A message whose first line is longer than
/// 50 bytes must have a character boundary at byte 50.
pub fn tag_choice(name: &str, message: &Option<String>) -> (r: String)
    requires
        message is Some && utf8_len(first_line(message->0@)) > 50 ==> cut_at(first_line(message->0@), 50),
    ensures
        r@ == tag_item(name@, opt_view(*message)),
{
    match message {
        None => concat2("🏷️  ", name),
        Some(m) => {
            let ls = lines(m.as_str());
            let l: Vec<char> = if ls.len() > 0 {
                chars_of(ls[0].as_str())
            } else {
                Vec::new()
            };
            let ghost fl = first_line(m@);
            assert(l@ == fl);
            let mut shown: Vec<char> = Vec::new();
            let mut total: usize = 0;
            let mut i: usize = 0;
            let mut long = false;
            while i < l.len()
                invariant
                    i <= l.len(),
                    l@ == fl,
                    shown@ == fl.take(i as int),
                    total == utf8_len(fl.take(i as int)),
                    total <= 50,
                    !long,
                decreases l.len() - i,
            {
                proof {
                    lemma_take_len_step(fl, i as int);
                }
                let c = l[i];
                let u = c as u32;
                let w: usize = if u < 0x80 { 1 } else if u < 0x800 { 2 } else if u < 0x10000 { 3 } else { 4 };
                if total + w > 50 {
                    long = true;
                    break;
                }
                shown.push(c);
                total = total + w;
                i = i + 1;
                assert(shown@ =~= fl.take(i as int));
            }
            let mut out = concat3("🏷️  ", name, " - ");
            if long {
                proof {
                    assert(utf8_len(fl) > 50) by {
                        lemma_take_len_mono(fl, i + 1, fl.len() as int);
                        assert(fl.take(fl.len() as int) =~= fl);
                    }
                    let k = choose|k: int| 0 <= k <= fl.len() && utf8_len(fl.take(k)) == 50;
                    if k < i {
                        lemma_take_len_mono(fl, k, i as int);
                    } else if k > i {
                        lemma_take_len_mono(fl, i + 1, k);
                    }
                    assert(k == i);
                }
                let cut = string_from_chars(shown.as_slice());
                out.append(cut.as_str());
                out.append("...");
            } else {
                assert(fl.take(fl.len() as int) =~= fl);
                assert(!(utf8_len(fl) > 50));
                let whole = string_from_chars(l.as_slice());
                out.append(whole.as_str());
            }
            out
        },
    }
}

/// How the worktree is created: with a new branch from a base, or from a
/// branch or tag, or from HEAD.
#[derive(Debug, Clone, PartialEq)]
pub enum CreationCall {
    /// `create_worktree_with_new_branch(name, new_branch, base)`.
    WithNewBranch { new_branch: String, base: String },
    /// `create_worktree(name, branch)`.
    Plain { branch: Option<String> },
}

/// The creation call for the chosen branch and new branch; a new branch
/// always has a base.
pub fn creation_call(branch: Option<String>, new_branch: Option<String>) -> (r: CreationCall)
    requires
        new_branch is Some ==> branch is Some,
    ensures
        new_branch matches Some(n) ==> r == (CreationCall::WithNewBranch { new_branch: n, base: branch->0 }),
        new_branch is None ==> r == (CreationCall::Plain { branch }),
{
    match new_branch {
        Some(n) => match branch {
            Some(b) => CreationCall::WithNewBranch { new_branch: n, base: b },
            None => CreationCall::Plain { branch: None },
        },
        None => CreationCall::Plain { branch },
    }
}

} // verus!
