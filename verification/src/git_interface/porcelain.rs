//! Parsing of `git worktree list --porcelain` output, and the arguments of
//! `git worktree add` for a worktree configuration.
#![verifier::loop_isolation(false)]

use vstd::prelude::*;
use crate::git_interface::{GitError, WorktreeConfig, WorktreeInfo};
use crate::pathname::{opt_view, path_file_name, std_path_file_name};
use crate::string_map::StringMap;
use crate::text::{chars_of, is_prefix, lines, lines_of, owned, starts_with_chars, str_eq,
    string_from_chars, views};

verus! {

/// A worktree record by its views: name, path, branch, commit, bare, main.
pub type WorktreeView = (Seq<char>, Seq<char>, Option<Seq<char>>, Seq<char>, bool, bool);

/// The view of a worktree record.
pub open spec fn worktree_view(w: WorktreeInfo) -> WorktreeView {
    (w.name@, w.path@, opt_view(w.branch), w.commit@, w.is_bare, w.is_main)
}

/// What the parser has gathered so far: the finished worktrees, the path
/// of the worktree being read, and its path, branch and commit as far as
/// seen, and whether a `bare` line has been seen.
pub struct ParseState {
    pub done: Seq<WorktreeView>,
    pub current: Option<Seq<char>>,
    pub path: Option<Seq<char>>,
    pub branch: Option<Seq<char>>,
    pub commit: Option<Seq<char>>,
    pub is_bare: bool,
}

/// The worktree record made from a path, branch and commit: named after
/// the path's last component (`unknown` without one), and the main one
/// when that name is `main` or `master`.
pub open spec fn finished(p: Seq<char>, branch: Option<Seq<char>>, c: Seq<char>, is_bare: bool) -> WorktreeView {
    let name = match std_path_file_name(p) {
        Some(n) => n,
        None => "unknown"@,
    };
    (name, p, branch, c, is_bare, name == "main"@ || name == "master"@)
}

/// The state after the line `l`.
pub open spec fn parse_step(st: ParseState, l: Seq<char>) -> ParseState {
    let st1 = if is_prefix("worktree "@, l) {
        let rest = l.subrange(9, l.len() as int);
        if st.current is Some {
            if st.path is Some && st.commit is Some {
                ParseState {
                    done: st.done.push(finished(st.path->0, st.branch, st.commit->0, st.is_bare)),
                    current: Some(rest),
                    path: None,
                    branch: None,
                    commit: None,
                    is_bare: st.is_bare,
                }
            } else {
                ParseState { current: Some(rest), path: None, commit: None, ..st }
            }
        } else {
            ParseState { current: Some(rest), ..st }
        }
    } else if is_prefix("HEAD "@, l) {
        ParseState { commit: Some(l.subrange(5, l.len() as int)), ..st }
    } else if is_prefix("branch "@, l) {
        ParseState { branch: Some(l.subrange(7, l.len() as int)), ..st }
    } else if l == "bare"@ {
        ParseState { is_bare: true, ..st }
    } else {
        st
    };
    if st1.current is Some && st1.path is None {
        ParseState { path: st1.current, ..st1 }
    } else {
        st1
    }
}

/// The state after the lines `ls`, from the empty state.
pub open spec fn parse_lines(ls: Seq<Seq<char>>) -> ParseState
    decreases ls.len(),
{
    if ls.len() == 0 {
        ParseState { done: Seq::empty(), current: None, path: None, branch: None, commit: None, is_bare: false }
    } else {
        parse_step(parse_lines(ls.drop_last()), ls.last())
    }
}

/// The worktrees of a porcelain listing.
pub open spec fn parsed_worktrees(output: Seq<char>) -> Seq<WorktreeView> {
    let st = parse_lines(lines_of(output));
    if st.current is Some && st.path is Some && st.commit is Some {
        st.done.push(finished(st.path->0, st.branch, st.commit->0, st.is_bare))
    } else {
        st.done
    }
}

/// `s` from character `k` on.
fn tail_from(s: &Vec<char>, k: usize) -> (r: String)
    requires
        k <= s@.len(),
    ensures
        r@ == s@.subrange(k as int, s@.len() as int),
{
    let mut t: Vec<char> = Vec::new();
    let mut i: usize = k;
    while i < s.len()
        invariant
            k <= i <= s.len(),
            t@ == s@.subrange(k as int, i as int),
        decreases s.len() - i,
    {
        t.push(s[i]);
        i = i + 1;
        assert(t@ =~= s@.subrange(k as int, i as int));
    }
    string_from_chars(t.as_slice())
}

fn make_worktree(p: String, branch: Option<String>, c: String, is_bare: bool) -> (r: WorktreeInfo)
    ensures
        worktree_view(r) == finished(p@, opt_view(branch), c@, is_bare),
{
    let name = match path_file_name(p.as_str()) {
        Some(n) => n,
        None => owned("unknown"),
    };
    let is_main = str_eq(name.as_str(), "main") || str_eq(name.as_str(), "master");
    WorktreeInfo { name, path: p, branch, commit: c, is_bare, is_main }
}

fn opt_string_view(o: &Option<String>) -> (r: Option<String>)
    ensures
        opt_view(r) == opt_view(*o),
{
    match o {
        Some(s) => Some(s.clone()),
        None => None,
    }
}

/// The worktrees listed in `git worktree list --porcelain` output: each
/// `worktree <path>` line starts a record, `HEAD <commit>` and
/// `branch <ref>` lines fill it, a `bare` line marks the listing bare, and
/// a record is kept once its path and commit are known.
pub fn parse_worktree_list(output: &str) -> (r: Vec<WorktreeInfo>)
    ensures
        r@.map_values(|w: WorktreeInfo| worktree_view(w)) == parsed_worktrees(output@),
{
    proof {
        reveal_strlit("worktree ");
        reveal_strlit("HEAD ");
        reveal_strlit("branch ");
        reveal_strlit("bare");
    }
    let ls = lines(output);
    let ghost lv = lines_of(output@);
    let mut done: Vec<WorktreeInfo> = Vec::new();
    let mut current: Option<String> = None;
    let mut path: Option<String> = None;
    let mut branch: Option<String> = None;
    let mut commit: Option<String> = None;
    let mut is_bare = false;
    let wt_prefix = chars_of("worktree ");
    let head_prefix = chars_of("HEAD ");
    let branch_prefix = chars_of("branch ");
    let mut i: usize = 0;
    while i < ls.len()
        invariant
            i <= ls.len(),
            views(ls@) == lv,
            wt_prefix@ == "worktree "@,
            head_prefix@ == "HEAD "@,
            branch_prefix@ == "branch "@,
            ({
                let st = parse_lines(lv.subrange(0, i as int));
                &&& done@.map_values(|w: WorktreeInfo| worktree_view(w)) == st.done
                &&& opt_view(current) == st.current
                &&& opt_view(path) == st.path
                &&& opt_view(branch) == st.branch
                &&& opt_view(commit) == st.commit
                &&& is_bare == st.is_bare
            }),
        decreases ls.len() - i,
    {
        assert(lv.subrange(0, i + 1).drop_last() =~= lv.subrange(0, i as int));
        let ghost l = lv[i as int];
        let line = chars_of(ls[i].as_str());
        assert(line@ == l);
        if starts_with_chars(line.as_slice(), wt_prefix.as_slice()) {
            let rest = tail_from(&line, 9);
            if current.is_some() {
                let p = path;
                let c = commit;
                path = None;
                commit = None;
                match (p, c) {
                    (Some(p), Some(c)) => {
                        let b = branch;
                        branch = None;
                        let ghost before = done@;
                        done.push(make_worktree(p, b, c, is_bare));
                        assert(done@.map_values(|w: WorktreeInfo| worktree_view(w)) =~= before.map_values(
                            |w: WorktreeInfo| worktree_view(w),
                        ).push(worktree_view(done@.last())));
                    },
                    _ => {},
                }
            }
            current = Some(rest);
        } else if starts_with_chars(line.as_slice(), head_prefix.as_slice()) {
            commit = Some(tail_from(&line, 5));
        } else if starts_with_chars(line.as_slice(), branch_prefix.as_slice()) {
            branch = Some(tail_from(&line, 7));
        } else if str_eq(ls[i].as_str(), "bare") {
            is_bare = true;
        }
        if current.is_some() && path.is_none() {
            path = opt_string_view(&current);
        }
        i = i + 1;
    }
    assert(lv.subrange(0, ls.len() as int) =~= lv);
    if current.is_some() {
        match (path, commit) {
            (Some(p), Some(c)) => {
                let ghost before = done@;
                done.push(make_worktree(p, branch, c, is_bare));
                assert(done@.map_values(|w: WorktreeInfo| worktree_view(w)) =~= before.map_values(
                    |w: WorktreeInfo| worktree_view(w),
                ).push(worktree_view(done@.last())));
            },
            _ => {},
        }
    }
    done
}

/// The arguments of `git worktree add` for `config`: the path, then
/// `-b <branch>` and the base (if any) for a new branch, or the branch to
/// check out.
pub open spec fn worktree_add_args_spec(config: WorktreeConfig) -> Option<Seq<Seq<char>>> {
    let head = seq!["worktree"@, "add"@, config.path@];
    if config.create_branch {
        match config.branch {
            None => None,
            Some(b) => Some(head + seq!["-b"@, b@] + match config.base_branch {
                Some(base) => seq![base@],
                None => Seq::empty(),
            }),
        }
    } else {
        match config.branch {
            Some(b) => Some(head.push(b@)),
            None => Some(head),
        }
    }
}

/// The arguments of `git worktree add` that create the worktree `config`
/// describes; a new branch needs a name.
pub fn worktree_add_args(config: &WorktreeConfig) -> (r: Result<Vec<String>, GitError>)
    ensures
        match worktree_add_args_spec(*config) {
            Some(a) => r matches Ok(v) && views(v@) == a,
            None => r == Err::<Vec<String>, GitError>(GitError::BranchNameRequired),
        },
{
    let mut args: Vec<String> = vec![owned("worktree"), owned("add"), config.path.clone()];
    if config.create_branch {
        match &config.branch {
            None => {
                return Err(GitError::BranchNameRequired);
            },
            Some(b) => {
                args.push(owned("-b"));
                args.push(b.clone());
                match &config.base_branch {
                    Some(base) => args.push(base.clone()),
                    None => {},
                }
            },
        }
    } else {
        match &config.branch {
            Some(b) => args.push(b.clone()),
            None => {},
        }
    }
    assert(views(args@) =~= worktree_add_args_spec(*config)->0);
    Ok(args)
}

/// The branch map of a worktree list: each worktree's branch maps to its
/// name, later worktrees winning.
pub open spec fn listed_branch_map(s: Seq<WorktreeInfo>) -> Map<Seq<char>, Seq<char>>
    decreases s.len(),
{
    if s.len() == 0 {
        Map::empty()
    } else {
        let m = listed_branch_map(s.drop_last());
        match s.last().branch {
            Some(b) => m.insert(b@, s.last().name@),
            None => m,
        }
    }
}

/// Which worktree each branch in the list is checked out in.
pub fn branch_worktree_map(worktrees: &Vec<WorktreeInfo>) -> (r: StringMap)
    ensures
        r@ == listed_branch_map(worktrees@),
{
    let mut m = StringMap::new();
    let mut i: usize = 0;
    while i < worktrees.len()
        invariant
            i <= worktrees.len(),
            m@ == listed_branch_map(worktrees@.subrange(0, i as int)),
        decreases worktrees.len() - i,
    {
        assert(worktrees@.subrange(0, i + 1).drop_last() =~= worktrees@.subrange(0, i as int));
        match &worktrees[i].branch {
            Some(b) => m.insert(b.clone(), worktrees[i].name.clone()),
            None => {},
        }
        i = i + 1;
    }
    assert(worktrees@.subrange(0, worktrees.len() as int) =~= worktrees@);
    m
}

/// Until a `worktree` line has been read, no path is known.
proof fn lemma_no_path_before_a_record(ls: Seq<Seq<char>>)
    ensures
        parse_lines(ls).current is None ==> parse_lines(ls).path is None,
    decreases ls.len(),
{
    if ls.len() > 0 {
        lemma_no_path_before_a_record(ls.drop_last());
    }
}

/// The parse of `ls` followed by one line `l`.
proof fn lemma_parse_push(ls: Seq<Seq<char>>, l: Seq<char>)
    ensures
        parse_lines(ls.push(l)) == parse_step(parse_lines(ls), l),
{
    assert(ls.push(l).drop_last() =~= ls);
}

/// A complete record at the end of a listing, a `worktree <p>` line and a
/// `HEAD <c>` line with possibly a `branch <b>` line, yields a worktree
/// with that path and commit as the last of the list; a listing of that
/// record alone yields exactly that one worktree.
pub proof fn law_last_record_is_kept(
    output: Seq<char>,
    before: Seq<Seq<char>>,
    p: Seq<char>,
    c: Seq<char>,
    b: Option<Seq<char>>,
)
    requires
        lines_of(output) == before + seq!["worktree "@ + p, "HEAD "@ + c] + match b {
            Some(x) => seq!["branch "@ + x],
            None => Seq::<Seq<char>>::empty(),
        },
    ensures
        parsed_worktrees(output).len() > 0,
        parsed_worktrees(output).last().1 == p,
        parsed_worktrees(output).last().3 == c,
        before.len() == 0 ==> parsed_worktrees(output) == seq![finished(p, b, c, false)],
{
    reveal_strlit("worktree ");
    reveal_strlit("HEAD ");
    reveal_strlit("branch ");
    reveal_strlit("bare");
    let w = "worktree "@ + p;
    let h = "HEAD "@ + c;
    assert(w.subrange(0, 9) =~= "worktree "@);
    assert(w.subrange(9, w.len() as int) =~= p);
    assert(h.subrange(0, 5) =~= "HEAD "@);
    assert(h.subrange(5, h.len() as int) =~= c);
    assert(h[0] == 'H');
    assert(!is_prefix("worktree "@, h)) by {
        if is_prefix("worktree "@, h) {
            assert(h.subrange(0, 9)[0] == h[0]);
        }
    }
    assert(!is_prefix("HEAD "@, w)) by {
        if is_prefix("HEAD "@, w) {
            assert(w.subrange(0, 5)[0] == w[0]);
            assert(w[0] == 'w');
        }
    }
    lemma_no_path_before_a_record(before);
    let st0 = parse_lines(before);
    let l1 = before.push(w);
    let l2 = l1.push(h);
    lemma_parse_push(before, w);
    lemma_parse_push(l1, h);
    let st1 = parse_lines(l1);
    let st2 = parse_lines(l2);
    assert(st1.current == Some(p) && st1.path == Some(p));
    assert(st2.current == Some(p) && st2.path == Some(p) && st2.commit == Some(c));
    assert(before.len() == 0 ==> st2.done.len() == 0 && st2.branch is None && !st2.is_bare);
    match b {
        Some(x) => {
            let br = "branch "@ + x;
            assert(br.subrange(0, 7) =~= "branch "@);
            assert(br.subrange(7, br.len() as int) =~= x);
            assert(br[0] == 'b');
            assert(!is_prefix("worktree "@, br)) by {
                if is_prefix("worktree "@, br) {
                    assert(br.subrange(0, 9)[0] == br[0]);
                }
            }
            assert(!is_prefix("HEAD "@, br)) by {
                if is_prefix("HEAD "@, br) {
                    assert(br.subrange(0, 5)[0] == br[0]);
                }
            }
            let l3 = l2.push(br);
            lemma_parse_push(l2, br);
            assert(lines_of(output) =~= l3);
            let st3 = parse_lines(l3);
            assert(st3.current == Some(p) && st3.path == Some(p) && st3.commit == Some(c));
            assert(st3.branch == Some(x));
            assert(before.len() == 0 ==> st3.done.len() == 0 && !st3.is_bare);
        },
        None => {
            assert(lines_of(output) =~= l2);
        },
    }
}

} // verus!
