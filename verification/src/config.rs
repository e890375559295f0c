//! The configuration of a repository (`.git-workers.toml`): its records,
//! where it is looked for, and when its hooks may be trusted.
#![verifier::loop_isolation(false)]

use vstd::prelude::*;
use crate::constants::{
    BRANCH_SUBDIR, CONFIG_FILE_NAME, DEFAULT_BRANCH_MAIN, DEFAULT_BRANCH_MASTER, GIT_DIR,
    WORKTREES_SUBDIR,
};
use crate::pathname::{opt_view, path_eq, path_file_name, path_join, path_parent, std_path_eq,
    std_path_file_name, std_path_join, std_path_parent};
use crate::string_map::KeyedMap;
use crate::text::{chars_of, ends_with_chars, is_suffix, lines, lines_of, owned, std_lowercase,
    str_eq, string_from_chars, to_lowercase, views};

verus! {

/// The `[repository]` table.
pub struct RepositoryConfig {
    /// The remote URL the configuration is meant for.
    pub url: Option<String>,
}

/// The `[files]` table.
pub struct FilesConfig {
    /// Files to copy into a new worktree.
    pub copy: Vec<String>,
    /// The directory to copy them from.
    pub source: Option<String>,
}

/// The whole configuration.
pub struct Config {
    pub repository: RepositoryConfig,
    /// Hook commands by hook type.
    pub hooks: KeyedMap<Vec<String>>,
    pub files: FilesConfig,
}

impl Default for RepositoryConfig {
    fn default() -> (r: Self)
        ensures
            r.url is None,
    {
        RepositoryConfig { url: None }
    }
}

impl Default for FilesConfig {
    fn default() -> (r: Self)
        ensures
            r.copy@.len() == 0,
            r.source is None,
    {
        FilesConfig { copy: Vec::new(), source: None }
    }
}

impl Config {
    /// The empty configuration: no URL, no hooks, no files.
    pub fn empty() -> (r: Self)
        ensures
            r.repository.url is None,
            r.hooks@ == Map::<Seq<char>, Seq<String>>::empty(),
            r.files.copy@.len() == 0,
            r.files.source is None,
    {
        Config {
            repository: RepositoryConfig { url: None },
            hooks: KeyedMap::new(),
            files: FilesConfig { copy: Vec::new(), source: None },
        }
    }
}

impl Default for Config {
    fn default() -> (r: Self)
        ensures
            r.repository.url is None,
            r.hooks@ == Map::<Seq<char>, Seq<String>>::empty(),
            r.files.copy@.len() == 0,
            r.files.source is None,
    {
        Config::empty()
    }
}

/// `s` with every trailing repetition of `p` removed
/// (`str::trim_end_matches`).
pub open spec fn trim_end_all(s: Seq<char>, p: Seq<char>) -> Seq<char>
    decreases s.len(),
{
    if p.len() > 0 && is_suffix(p, s) {
        trim_end_all(s.subrange(0, s.len() - p.len()), p)
    } else {
        s
    }
}

fn trim_end_all_exec(s: &str, p: &str) -> (r: String)
    requires
        p@.len() > 0,
    ensures
        r@ == trim_end_all(s@, p@),
{
    let mut cs = chars_of(s);
    let ps = chars_of(p);
    assert(trim_end_all(s@, p@) == trim_end_all(cs@, p@));
    while ends_with_chars(cs.as_slice(), ps.as_slice())
        invariant
            ps@ == p@,
            p@.len() > 0,
            trim_end_all(s@, p@) == trim_end_all(cs@, p@),
        decreases cs.len(),
    {
        let k = cs.len() - ps.len();
        let ghost before = cs@;
        cs.truncate(k);
        assert(cs@ =~= before.subrange(0, before.len() - p@.len()));
    }
    string_from_chars(cs.as_slice())
}

/// A repository URL in the form it is compared in: trailing `.git` and
/// `/` taken off, then lower-cased.
pub open spec fn normalized_url(url: Seq<char>) -> Seq<char> {
    std_lowercase(trim_end_all(trim_end_all(url, ".git"@), "/"@))
}

/// `url` in the form it is compared in.
pub fn normalize_repository_url(url: &str) -> (r: String)
    ensures
        r@ == normalized_url(url@),
{
    proof {
        reveal_strlit(".git");
        reveal_strlit("/");
    }
    let a = trim_end_all_exec(url, ".git");
    let b = trim_end_all_exec(a.as_str(), "/");
    to_lowercase(b.as_str())
}

/// Whether a configuration meant for `expected` may be used in a
/// repository whose `origin` remote has the URL `actual`: yes without such
/// a remote URL, else when the normalized URLs agree.
pub fn repository_url_matches(expected: &str, actual: Option<&str>) -> (r: bool)
    ensures
        r == match actual {
            None => true,
            Some(a) => normalized_url(expected@) == normalized_url(a@),
        },
{
    match actual {
        None => true,
        Some(a) => {
            let e = normalize_repository_url(expected);
            let n = normalize_repository_url(a);
            str_eq(e.as_str(), n.as_str())
        },
    }
}

/// The configuration that applies once one has been read: the empty
/// configuration when it names a repository URL that the `origin` remote
/// (with URL `actual_url`) does not match, the configuration itself
/// otherwise.
pub fn config_for_repository(config: Config, actual_url: Option<&str>) -> (r: Config)
    ensures
        match config.repository.url {
            Some(u) => !repository_url_matches_spec(u@, actual_url),
            None => false,
        } ==> r.repository.url is None && r.hooks@ == Map::<Seq<char>, Seq<String>>::empty()
            && r.files.copy@.len() == 0 && r.files.source is None,
        !match config.repository.url {
            Some(u) => !repository_url_matches_spec(u@, actual_url),
            None => false,
        } ==> r == config,
{
    let refused = match &config.repository.url {
        Some(u) => !repository_url_matches(u.as_str(), actual_url),
        None => false,
    };
    if refused {
        Config::empty()
    } else {
        config
    }
}

/// Whether a configuration meant for `expected` may be used where the
/// `origin` URL is `actual`.
pub open spec fn repository_url_matches_spec(expected: Seq<char>, actual: Option<&str>) -> bool {
    match actual {
        None => true,
        Some(a) => normalized_url(expected) == normalized_url(a@),
    }
}

/// A repository URL written with a trailing `.git` is compared as the URL
/// without it, so a configuration for either applies to both.
pub proof fn law_url_ignores_git_suffix(url: Seq<char>)
    ensures
        normalized_url(url + ".git"@) == normalized_url(url),
{
    reveal_strlit(".git");
    let s = url + ".git"@;
    assert(s.subrange(s.len() - 4, s.len() as int) =~= ".git"@);
    assert(s.subrange(0, s.len() - 4) =~= url);
}

/// A place the configuration file may be: the file's path and, when the
/// file only counts beside a Git directory, that directory's path.
pub struct ConfigProbe {
    pub path: String,
    pub git_dir: Option<String>,
}

/// The view of a probe.
pub open spec fn probe_view(p: ConfigProbe) -> (Seq<char>, Option<Seq<char>>) {
    (p.path@, opt_view(p.git_dir))
}

/// `a/b/c`.
pub open spec fn join3(a: Seq<char>, b: Seq<char>, c: Seq<char>) -> Seq<char> {
    std_path_join(std_path_join(a, b), c)
}

/// A probe of a file that counts wherever it is.
pub open spec fn plain(p: Seq<char>) -> (Seq<char>, Option<Seq<char>>) {
    (p, None)
}

/// The configuration files of the other default branch under `dir`:
/// `main`'s unless `main` is the default, then `master`'s unless `master`
/// is the default.
pub open spec fn other_default_branch_files(dir: Seq<char>, default_branch: Seq<char>, file: Seq<char>) -> Seq<Seq<char>> {
    (if default_branch != "main"@ {
        seq![join3(dir, "main"@, file)]
    } else {
        Seq::empty()
    }) + (if default_branch != "master"@ {
        seq![join3(dir, "master"@, file)]
    } else {
        Seq::empty()
    })
}

/// The configuration files of the other default branch under `dir`, in the
/// order they are looked for.
pub fn default_branch_config_candidates(dir: &str, default_branch: &str, config_file: &str) -> (r: Vec<String>)
    ensures
        views(r@) == other_default_branch_files(dir@, default_branch@, config_file@),
{
    let mut r: Vec<String> = Vec::new();
    if !str_eq(default_branch, DEFAULT_BRANCH_MAIN) {
        let d = path_join(dir, DEFAULT_BRANCH_MAIN);
        r.push(path_join(d.as_str(), config_file));
    }
    if !str_eq(default_branch, DEFAULT_BRANCH_MASTER) {
        let d = path_join(dir, DEFAULT_BRANCH_MASTER);
        r.push(path_join(d.as_str(), config_file));
    }
    assert(views(r@) =~= other_default_branch_files(dir@, default_branch@, config_file@));
    r
}

/// The directories of the other default branch under `dir`: `main` unless
/// `main` is the default, then `master` unless `master` is the default.
pub open spec fn other_default_branch_dirs(dir: Seq<char>, default_branch: Seq<char>) -> Seq<Seq<char>> {
    (if default_branch != "main"@ {
        seq![std_path_join(dir, "main"@)]
    } else {
        Seq::empty()
    }) + (if default_branch != "master"@ {
        seq![std_path_join(dir, "master"@)]
    } else {
        Seq::empty()
    })
}

/// The directories of the other default branch under `dir`, in the order
/// they are looked for; the first that is a directory is taken.
pub fn default_branch_dir_candidates(dir: &str, default_branch: &str) -> (r: Vec<String>)
    ensures
        views(r@) == other_default_branch_dirs(dir@, default_branch@),
{
    let mut r: Vec<String> = Vec::new();
    if !str_eq(default_branch, DEFAULT_BRANCH_MAIN) {
        r.push(path_join(dir, DEFAULT_BRANCH_MAIN));
    }
    if !str_eq(default_branch, DEFAULT_BRANCH_MASTER) {
        r.push(path_join(dir, DEFAULT_BRANCH_MASTER));
    }
    assert(views(r@) =~= other_default_branch_dirs(dir@, default_branch@));
    r
}

/// `s` with every leading repetition of `p` removed
/// (`str::trim_start_matches`).
pub open spec fn trim_start_all(s: Seq<char>, p: Seq<char>) -> Seq<char>
    decreases s.len(),
{
    if p.len() > 0 && crate::text::is_prefix(p, s) {
        trim_start_all(s.subrange(p.len() as int, s.len() as int), p)
    } else {
        s
    }
}

/// The worktree paths named by `git worktree list --porcelain` lines.
pub open spec fn listed_worktree_paths(ls: Seq<Seq<char>>) -> Seq<Seq<char>>
    decreases ls.len(),
{
    if ls.len() == 0 {
        Seq::empty()
    } else {
        let rest = listed_worktree_paths(ls.drop_last());
        if crate::text::is_prefix("worktree "@, ls.last()) {
            rest.push(trim_start_all(ls.last(), "worktree "@))
        } else {
            rest
        }
    }
}

/// The parents of the paths, skipping paths without one.
pub open spec fn parents_of(ps: Seq<Seq<char>>) -> Seq<Seq<char>>
    decreases ps.len(),
{
    if ps.len() == 0 {
        Seq::empty()
    } else {
        let rest = parents_of(ps.drop_last());
        match std_path_parent(ps.last()) {
            Some(p) => rest.push(p),
            None => rest,
        }
    }
}

/// Where a bare repository's worktrees sit side by side, the
/// configuration files of the default branch's worktree there.
pub open spec fn shared_parent_files(default_branch: Seq<char>, listing: Option<Seq<char>>) -> Seq<Seq<char>> {
    match listing {
        None => Seq::empty(),
        Some(out) => {
            let ps = parents_of(listed_worktree_paths(lines_of(out)));
            if ps.len() > 0 && forall|i: int| 0 <= i < ps.len() ==> std_path_eq(#[trigger] ps[i], ps[0]) {
                seq![join3(ps[0], default_branch, ".git-workers.toml"@)] + other_default_branch_files(
                    ps[0],
                    default_branch,
                    ".git-workers.toml"@,
                )
            } else {
                Seq::empty()
            }
        },
    }
}

/// The places a bare repository's configuration is looked for, in order,
/// from the directory `cwd`, with `default_branch` the branch at HEAD and
/// `listing` the output of `git worktree list --porcelain` if it ran.
pub open spec fn bare_probe_paths(cwd: Seq<char>, default_branch: Seq<char>, listing: Option<Seq<char>>) -> Seq<Seq<char>> {
    let c = ".git-workers.toml"@;
    seq![std_path_join(cwd, c), join3(cwd, default_branch, c)] + other_default_branch_files(
        cwd,
        default_branch,
        c,
    ) + shared_parent_files(default_branch, listing) + seq![
        join3(std_path_join(cwd, "branch"@), default_branch, c),
        join3(std_path_join(cwd, "worktrees"@), default_branch, c),
    ] + match std_path_parent(cwd) {
        Some(p) => seq![join3(p, default_branch, c)],
        None => Seq::empty(),
    }
}

fn push_plain(v: &mut Vec<ConfigProbe>, path: String)
    ensures
        final(v)@.map_values(|p: ConfigProbe| probe_view(p)) == old(v)@.map_values(
            |p: ConfigProbe| probe_view(p),
        ).push(plain(path@)),
{
    let ghost before = v@;
    v.push(ConfigProbe { path, git_dir: None });
    assert(v@.map_values(|p: ConfigProbe| probe_view(p)) =~= before.map_values(
        |p: ConfigProbe| probe_view(p),
    ).push(plain(path@)));
}

fn push_all_plain(v: &mut Vec<ConfigProbe>, paths: Vec<String>)
    ensures
        final(v)@.map_values(|p: ConfigProbe| probe_view(p)) == old(v)@.map_values(
            |p: ConfigProbe| probe_view(p),
        ) + views(paths@).map_values(|s: Seq<char>| plain(s)),
{
    let ghost start = v@.map_values(|p: ConfigProbe| probe_view(p));
    let mut i: usize = 0;
    while i < paths.len()
        invariant
            i <= paths.len(),
            v@.map_values(|p: ConfigProbe| probe_view(p)) == start + views(paths@).subrange(
                0,
                i as int,
            ).map_values(|s: Seq<char>| plain(s)),
        decreases paths.len() - i,
    {
        push_plain(v, paths[i].clone());
        assert(views(paths@).subrange(0, i + 1).map_values(|s: Seq<char>| plain(s))
            =~= views(paths@).subrange(0, i as int).map_values(|s: Seq<char>| plain(s)).push(
            plain(paths@[i as int]@),
        ));
        i = i + 1;
    }
    assert(views(paths@).subrange(0, paths.len() as int) =~= views(paths@));
}

/// The configuration files of the default branch's worktree beside the
/// bare repository's other worktrees.
fn shared_parent_candidates(default_branch: &str, listing: &str) -> (r: Vec<String>)
    ensures
        views(r@) == shared_parent_files(default_branch@, Some(listing@)),
{
    let ls = lines(listing);
    let ghost lv = lines_of(listing@);
    let mut paths: Vec<String> = Vec::new();
    let mut i: usize = 0;
    while i < ls.len()
        invariant
            i <= ls.len(),
            views(ls@) == lv,
            views(paths@) == listed_worktree_paths(lv.subrange(0, i as int)),
        decreases ls.len() - i,
    {
        assert(lv.subrange(0, i + 1).drop_last() =~= lv.subrange(0, i as int));
        let line = chars_of(ls[i].as_str());
        let prefix = chars_of("worktree ");
        proof {
            reveal_strlit("worktree ");
        }
        if crate::text::starts_with_chars(line.as_slice(), prefix.as_slice()) {
            let mut rest = line;
            let ghost whole = rest@;
            while crate::text::starts_with_chars(rest.as_slice(), prefix.as_slice())
                invariant
                    prefix@ == "worktree "@,
                    prefix@.len() > 0,
                    trim_start_all(rest@, "worktree "@) == trim_start_all(whole, "worktree "@),
                decreases rest.len(),
            {
                let ghost before = rest@;
                let mut tail: Vec<char> = Vec::new();
                let mut k: usize = prefix.len();
                while k < rest.len()
                    invariant
                        prefix.len() <= k <= rest.len(),
                        tail@ == rest@.subrange(prefix.len() as int, k as int),
                    decreases rest.len() - k,
                {
                    tail.push(rest[k]);
                    k = k + 1;
                    assert(tail@ =~= rest@.subrange(prefix.len() as int, k as int));
                }
                rest = tail;
            }
            let p = string_from_chars(rest.as_slice());
            paths.push(p);
            assert(views(paths@) =~= listed_worktree_paths(lv.subrange(0, i as int)).push(
                trim_start_all(lv[i as int], "worktree "@),
            ));
        }
        i = i + 1;
    }
    assert(lv.subrange(0, ls.len() as int) =~= lv);
    let ghost wp = listed_worktree_paths(lv);
    let mut parents: Vec<String> = Vec::new();
    let mut j: usize = 0;
    while j < paths.len()
        invariant
            j <= paths.len(),
            views(paths@) == wp,
            views(parents@) == parents_of(wp.subrange(0, j as int)),
        decreases paths.len() - j,
    {
        assert(wp.subrange(0, j + 1).drop_last() =~= wp.subrange(0, j as int));
        match path_parent(paths[j].as_str()) {
            Some(q) => {
                parents.push(q);
                assert(views(parents@) =~= parents_of(wp.subrange(0, j as int)).push(
                    parents@.last()@,
                ));
            },
            None => {},
        }
        j = j + 1;
    }
    assert(wp.subrange(0, paths.len() as int) =~= wp);
    let ghost ps = parents_of(wp);
    let mut r: Vec<String> = Vec::new();
    if parents.len() == 0 {
        assert(views(r@) =~= shared_parent_files(default_branch@, Some(listing@)));
        return r;
    }
    assert(parents@[0]@ == ps[0]);
    let mut k: usize = 0;
    while k < parents.len()
        invariant
            k <= parents.len(),
            views(parents@) == ps,
            forall|m: int| 0 <= m < k ==> std_path_eq(#[trigger] ps[m], ps[0]),
        decreases parents.len() - k,
    {
        assert(parents@[k as int]@ == ps[k as int]);
        if !path_eq(parents[k].as_str(), parents[0].as_str()) {
            assert(!std_path_eq(ps[k as int], ps[0]));
            assert(views(r@) =~= shared_parent_files(default_branch@, Some(listing@)));
            return r;
        }
        k = k + 1;
    }
    let first = parents[0].as_str();
    let d = path_join(first, default_branch);
    r.push(path_join(d.as_str(), CONFIG_FILE_NAME));
    let others = default_branch_config_candidates(first, default_branch, CONFIG_FILE_NAME);
    let mut m: usize = 0;
    let ghost head = views(r@);
    while m < others.len()
        invariant
            m <= others.len(),
            views(r@) == head + views(others@).subrange(0, m as int),
        decreases others.len() - m,
    {
        let ghost prev = r@;
        r.push(others[m].clone());
        assert(views(r@) =~= views(prev).push(others@[m as int]@));
        m = m + 1;
        assert(views(r@) =~= head + views(others@).subrange(0, m as int));
    }
    assert(views(others@).subrange(0, others.len() as int) =~= views(others@));
    assert(views(r@) =~= shared_parent_files(default_branch@, Some(listing@)));
    r
}

/// The places a bare repository's configuration is looked for, in order;
/// the first that exists is read.
pub fn config_probes_bare(cwd: &str, default_branch: &str, listing: Option<&str>) -> (r: Vec<ConfigProbe>)
    ensures
        r@.map_values(|p: ConfigProbe| probe_view(p)) == bare_probe_paths(
            cwd@,
            default_branch@,
            crate::text::opt_str_view(listing),
        ).map_values(|s: Seq<char>| plain(s)),
{
    let mut r: Vec<ConfigProbe> = Vec::new();
    push_plain(&mut r, path_join(cwd, CONFIG_FILE_NAME));
    let d = path_join(cwd, default_branch);
    push_plain(&mut r, path_join(d.as_str(), CONFIG_FILE_NAME));
    push_all_plain(&mut r, default_branch_config_candidates(cwd, default_branch, CONFIG_FILE_NAME));
    match listing {
        Some(out) => push_all_plain(&mut r, shared_parent_candidates(default_branch, out)),
        None => {},
    }
    let b = path_join(cwd, BRANCH_SUBDIR);
    let bd = path_join(b.as_str(), default_branch);
    push_plain(&mut r, path_join(bd.as_str(), CONFIG_FILE_NAME));
    let w = path_join(cwd, WORKTREES_SUBDIR);
    let wd = path_join(w.as_str(), default_branch);
    push_plain(&mut r, path_join(wd.as_str(), CONFIG_FILE_NAME));
    match path_parent(cwd) {
        Some(p) => {
            let pd = path_join(p.as_str(), default_branch);
            push_plain(&mut r, path_join(pd.as_str(), CONFIG_FILE_NAME));
        },
        None => {},
    }
    assert(r@.map_values(|p: ConfigProbe| probe_view(p)) =~= bare_probe_paths(
        cwd@,
        default_branch@,
        crate::text::opt_str_view(listing),
    ).map_values(|s: Seq<char>| plain(s)));
    r
}

/// The places a non-bare repository's configuration is looked for from the
/// directory `cwd`, in order; `cwd_has_git_dir` tells whether `cwd/.git`
/// is a directory.  A probe with a Git directory counts only where that
/// directory exists.
pub open spec fn non_bare_probes(cwd: Seq<char>, cwd_has_git_dir: bool) -> Seq<(Seq<char>, Option<Seq<char>>)> {
    let c = ".git-workers.toml"@;
    seq![plain(std_path_join(cwd, c))] + if std_path_file_name(cwd) == Some("worktrees"@) {
        match std_path_parent(cwd) {
            Some(p) => seq![(std_path_join(p, c), Some(std_path_join(p, ".git"@)))],
            None => Seq::empty(),
        }
    } else if !cwd_has_git_dir {
        match std_path_parent(cwd) {
            Some(p) => if std_path_file_name(p) == Some("worktrees"@) {
                match std_path_parent(p) {
                    Some(g) => seq![
                        (std_path_join(g, c), Some(std_path_join(g, ".git"@))),
                        plain(join3(g, "main"@, c)),
                        plain(join3(g, "master"@, c)),
                    ],
                    None => Seq::empty(),
                }
            } else {
                seq![plain(join3(p, "main"@, c)), plain(join3(p, "master"@, c))]
            },
            None => Seq::empty(),
        }
    } else {
        Seq::empty()
    }
}

fn is_worktrees_dir_name(p: &str) -> (r: bool)
    ensures
        r == (std_path_file_name(p@) == Some("worktrees"@)),
{
    match path_file_name(p) {
        Some(n) => str_eq(n.as_str(), WORKTREES_SUBDIR),
        None => false,
    }
}

/// The places a non-bare repository's configuration is looked for, in
/// order; the first that exists (beside its Git directory, where one is
/// named) is read.
pub fn config_probes_non_bare(cwd: &str, cwd_has_git_dir: bool) -> (r: Vec<ConfigProbe>)
    ensures
        r@.map_values(|p: ConfigProbe| probe_view(p)) == non_bare_probes(cwd@, cwd_has_git_dir),
{
    let mut r: Vec<ConfigProbe> = Vec::new();
    push_plain(&mut r, path_join(cwd, CONFIG_FILE_NAME));
    if is_worktrees_dir_name(cwd) {
        match path_parent(cwd) {
            Some(p) => {
                let ghost before = r@.map_values(|q: ConfigProbe| probe_view(q));
                r.push(
                    ConfigProbe {
                        path: path_join(p.as_str(), CONFIG_FILE_NAME),
                        git_dir: Some(path_join(p.as_str(), GIT_DIR)),
                    },
                );
                assert(r@.map_values(|q: ConfigProbe| probe_view(q)) =~= before.push(
                    probe_view(r@.last()),
                ));
            },
            None => {},
        }
    } else if !cwd_has_git_dir {
        match path_parent(cwd) {
            Some(p) => {
                if is_worktrees_dir_name(p.as_str()) {
                    match path_parent(p.as_str()) {
                        Some(g) => {
                            let ghost before = r@.map_values(|q: ConfigProbe| probe_view(q));
                            r.push(
                                ConfigProbe {
                                    path: path_join(g.as_str(), CONFIG_FILE_NAME),
                                    git_dir: Some(path_join(g.as_str(), GIT_DIR)),
                                },
                            );
                            assert(r@.map_values(|q: ConfigProbe| probe_view(q)) =~= before.push(
                                probe_view(r@.last()),
                            ));
                            let m = path_join(g.as_str(), DEFAULT_BRANCH_MAIN);
                            push_plain(&mut r, path_join(m.as_str(), CONFIG_FILE_NAME));
                            let ms = path_join(g.as_str(), DEFAULT_BRANCH_MASTER);
                            push_plain(&mut r, path_join(ms.as_str(), CONFIG_FILE_NAME));
                        },
                        None => {},
                    }
                } else {
                    let m = path_join(p.as_str(), DEFAULT_BRANCH_MAIN);
                    push_plain(&mut r, path_join(m.as_str(), CONFIG_FILE_NAME));
                    let ms = path_join(p.as_str(), DEFAULT_BRANCH_MASTER);
                    push_plain(&mut r, path_join(ms.as_str(), CONFIG_FILE_NAME));
                }
            },
            None => {},
        }
    }
    assert(r@.map_values(|p: ConfigProbe| probe_view(p)) =~= non_bare_probes(cwd@, cwd_has_git_dir));
    r
}

/// The probe that decides: the first whose file exists (and whose Git
/// directory exists, where it names one).  `file_exists[i]` and
/// `git_dir_exists[i]` are the facts found for probe `i`.
pub open spec fn first_satisfied(file_exists: Seq<bool>, git_dir_exists: Seq<bool>, needs_git_dir: Seq<bool>) -> Option<int>
    decreases file_exists.len(),
{
    if file_exists.len() == 0 {
        None
    } else {
        match first_satisfied(file_exists.drop_last(), git_dir_exists.drop_last(), needs_git_dir.drop_last()) {
            Some(i) => Some(i),
            None => if file_exists.last() && (!needs_git_dir.last() || git_dir_exists.last()) {
                Some(file_exists.len() - 1)
            } else {
                None
            },
        }
    }
}

proof fn lemma_first_satisfied_first(f: Seq<bool>, g: Seq<bool>, n: Seq<bool>)
    requires
        f.len() > 0,
        f.len() == g.len() == n.len(),
        f[0],
        !n[0],
    ensures
        first_satisfied(f, g, n) == Some(0int),
    decreases f.len(),
{
    if f.len() > 1 {
        assert(f.drop_last()[0] == f[0] && n.drop_last()[0] == n[0]);
        lemma_first_satisfied_first(f.drop_last(), g.drop_last(), n.drop_last());
    } else {
        assert(first_satisfied(f.drop_last(), g.drop_last(), n.drop_last()) is None);
        assert(f.last() == f[0] && n.last() == n[0]);
    }
}

/// The configuration file in the current directory comes first: where it
/// exists it is the one read, in bare and non-bare repositories alike.
/// `found[i]` and `git_dirs[i]` are what was found on disk for probe `i`.
pub proof fn law_current_directory_config_first(
    cwd: Seq<char>,
    cwd_has_git_dir: bool,
    default_branch: Seq<char>,
    listing: Option<Seq<char>>,
    found: Seq<bool>,
    git_dirs: Seq<bool>,
    bare: bool,
)
    requires
        found.len() == git_dirs.len(),
        bare ==> found.len() == bare_probe_paths(cwd, default_branch, listing).len(),
        !bare ==> found.len() == non_bare_probes(cwd, cwd_has_git_dir).len(),
        found.len() > 0 && found[0],
    ensures
        bare ==> bare_probe_paths(cwd, default_branch, listing)[0] == std_path_join(cwd, CONFIG_FILE_NAME@)
            && first_satisfied(found, git_dirs, bare_probe_paths(cwd, default_branch, listing).map_values(
                |s: Seq<char>| plain(s),
            ).map_values(|p: (Seq<char>, Option<Seq<char>>)| p.1 is Some)) == Some(0int),
        !bare ==> non_bare_probes(cwd, cwd_has_git_dir)[0] == plain(std_path_join(cwd, CONFIG_FILE_NAME@))
            && first_satisfied(found, git_dirs, non_bare_probes(cwd, cwd_has_git_dir).map_values(
                |p: (Seq<char>, Option<Seq<char>>)| p.1 is Some,
            )) == Some(0int),
{
    if bare {
        let ps = bare_probe_paths(cwd, default_branch, listing).map_values(|s: Seq<char>| plain(s));
        let n = ps.map_values(|p: (Seq<char>, Option<Seq<char>>)| p.1 is Some);
        assert(!n[0]);
        lemma_first_satisfied_first(found, git_dirs, n);
    } else {
        let ps = non_bare_probes(cwd, cwd_has_git_dir);
        let n = ps.map_values(|p: (Seq<char>, Option<Seq<char>>)| p.1 is Some);
        assert(ps[0] == plain(std_path_join(cwd, ".git-workers.toml"@)));
        assert(!n[0]);
        lemma_first_satisfied_first(found, git_dirs, n);
    }
}

/// The index of the probe whose file is read, given what was found on
/// disk for each probe; `None` when no configuration applies.
pub fn chosen_probe(probes: &Vec<ConfigProbe>, file_exists: &Vec<bool>, git_dir_exists: &Vec<bool>) -> (r: Option<usize>)
    requires
        file_exists@.len() == probes@.len(),
        git_dir_exists@.len() == probes@.len(),
    ensures
        match r {
            Some(i) => Some(i as int) == first_satisfied(file_exists@, git_dir_exists@, probes@.map_values(|p: ConfigProbe| p.git_dir is Some)),
            None => first_satisfied(file_exists@, git_dir_exists@, probes@.map_values(|p: ConfigProbe| p.git_dir is Some)) is None,
        },
{
    let ghost needs = probes@.map_values(|p: ConfigProbe| p.git_dir is Some);
    let mut i: usize = 0;
    while i < probes.len()
        invariant
            i <= probes.len(),
            first_satisfied(file_exists@.subrange(0, i as int), git_dir_exists@.subrange(0, i as int), needs.subrange(0, i as int)) is None,
        decreases probes.len() - i,
    {
        assert(file_exists@.subrange(0, i + 1).drop_last() =~= file_exists@.subrange(0, i as int));
        assert(git_dir_exists@.subrange(0, i + 1).drop_last() =~= git_dir_exists@.subrange(0, i as int));
        assert(needs.subrange(0, i + 1).drop_last() =~= needs.subrange(0, i as int));
        if file_exists[i] && (probes[i].git_dir.is_none() || git_dir_exists[i]) {
            proof {
                lemma_first_satisfied_prefix(file_exists@, git_dir_exists@, needs, i as int);
            }
            return Some(i);
        }
        i = i + 1;
    }
    assert(file_exists@.subrange(0, i as int) =~= file_exists@);
    assert(git_dir_exists@.subrange(0, i as int) =~= git_dir_exists@);
    assert(needs.subrange(0, i as int) =~= needs);
    None
}

proof fn lemma_first_satisfied_prefix(f: Seq<bool>, g: Seq<bool>, n: Seq<bool>, i: int)
    requires
        f.len() == g.len() == n.len(),
        0 <= i < f.len(),
        first_satisfied(f.subrange(0, i + 1), g.subrange(0, i + 1), n.subrange(0, i + 1)) == Some(i),
    ensures
        first_satisfied(f, g, n) == Some(i),
    decreases f.len(),
{
    if i + 1 < f.len() {
        assert(f.drop_last() =~= f.subrange(0, f.len() - 1));
        assert(f.subrange(0, f.len() - 1).subrange(0, i + 1) =~= f.subrange(0, i + 1));
        assert(g.subrange(0, g.len() - 1).subrange(0, i + 1) =~= g.subrange(0, i + 1));
        assert(n.subrange(0, n.len() - 1).subrange(0, i + 1) =~= n.subrange(0, i + 1));
        lemma_first_satisfied_prefix(f.drop_last(), g.drop_last(), n.drop_last(), i);
    } else {
        assert(f.subrange(0, i + 1) =~= f);
        assert(g.subrange(0, i + 1) =~= g);
        assert(n.subrange(0, i + 1) =~= n);
    }
}

/// From a linked worktree (no `.git` directory in `cwd`, neither it nor
/// its parent called `worktrees`) the configuration is looked for in
/// `cwd`, then in the `main` and then the `master` worktree beside it;
/// from a repository's own directory (with a `.git` directory) only in
/// `cwd`.  So the linked worktree's probes extend the main one's.
pub proof fn law_linked_worktree_finds_main_config(cwd: Seq<char>, parent: Seq<char>)
    requires
        std_path_file_name(cwd) != Some("worktrees"@),
        std_path_parent(cwd) == Some(parent),
        std_path_file_name(parent) != Some("worktrees"@),
    ensures
        non_bare_probes(cwd, false) == seq![
            (std_path_join(cwd, ".git-workers.toml"@), None::<Seq<char>>),
            (std_path_join(std_path_join(parent, "main"@), ".git-workers.toml"@), None::<Seq<char>>),
            (std_path_join(std_path_join(parent, "master"@), ".git-workers.toml"@), None::<Seq<char>>),
        ],
        non_bare_probes(cwd, true) == seq![(std_path_join(cwd, ".git-workers.toml"@), None::<Seq<char>>)],
        non_bare_probes(cwd, true) == non_bare_probes(cwd, false).subrange(0, 1),
{
    assert(non_bare_probes(cwd, false) =~= seq![
        (std_path_join(cwd, ".git-workers.toml"@), None::<Seq<char>>),
        (std_path_join(std_path_join(parent, "main"@), ".git-workers.toml"@), None::<Seq<char>>),
        (std_path_join(std_path_join(parent, "master"@), ".git-workers.toml"@), None::<Seq<char>>),
    ]);
    assert(non_bare_probes(cwd, true) =~= seq![(std_path_join(cwd, ".git-workers.toml"@), None::<Seq<char>>)]);
}

} // verus!
