//! Listing worktrees: the one-line summary, the filter, and the table's
//! column widths.
#![verifier::loop_isolation(false)]

use vstd::prelude::*;
use crate::constants::{CURRENT_MARKER, ICON_CURRENT_WORKTREE, ICON_OTHER_WORKTREE, MODIFIED_STATUS_NO, MODIFIED_STATUS_YES};
use crate::git::WorktreeInfo;
use crate::text::{byte_len, chars_of, concat2, concat3, contains_chars, contains_sub, decimal, join, owned, usize_to_string, utf8_len, views};

verus! {

/// The parts of a worktree's one-line summary, in order.
pub open spec fn display_parts(w: WorktreeInfo, verbose: bool) -> Seq<Seq<char>> {
    let base = seq![w.name@] + (if w.is_current {
        seq!["(current)"@]
    } else {
        Seq::empty()
    }) + (if w.is_locked {
        seq!["(locked)"@]
    } else {
        Seq::empty()
    }) + (if w.has_changes {
        seq!["(changes)"@]
    } else {
        Seq::empty()
    });
    if verbose {
        base + seq!["- "@ + w.path@] + (match w.last_commit {
            Some(c) => seq!["["@ + c.id@ + "]"@],
            None => Seq::empty(),
        }) + (match w.ahead_behind {
            Some((a, b)) => seq!["↑"@ + decimal(a as nat) + " ↓"@ + decimal(b as nat)],
            None => Seq::empty(),
        })
    } else {
        base
    }
}

fn push_part(parts: &mut Vec<String>, p: String)
    ensures
        views(final(parts)@) == views(old(parts)@).push(p@),
{
    let ghost before = parts@;
    parts.push(p);
    assert(views(parts@) =~= views(before).push(p@));
}

/// The worktree's one-line summary: name, then `(current)`, `(locked)`
/// and `(changes)` as they apply, and when verbose `- <path>`,
/// `[<commit>]` and `↑<ahead> ↓<behind>` where known, separated by spaces.
pub fn format_worktree_display(worktree: &WorktreeInfo, verbose: bool) -> (r: String)
    ensures
        r@ == join(display_parts(*worktree, verbose), " "@),
{
    let mut parts: Vec<String> = Vec::new();
    push_part(&mut parts, worktree.name.clone());
    if worktree.is_current {
        push_part(&mut parts, owned("(current)"));
    }
    if worktree.is_locked {
        push_part(&mut parts, owned("(locked)"));
    }
    if worktree.has_changes {
        push_part(&mut parts, owned("(changes)"));
    }
    if verbose {
        push_part(&mut parts, concat2("- ", worktree.path.as_str()));
        match &worktree.last_commit {
            Some(c) => push_part(&mut parts, concat3("[", c.id.as_str(), "]")),
            None => {},
        }
        match worktree.ahead_behind {
            Some((a, b)) => {
                let a_text = usize_to_string(a);
                let b_text = usize_to_string(b);
                let mut s = concat3("↑", a_text.as_str(), " ↓");
                s.append(b_text.as_str());
                push_part(&mut parts, s);
            },
            None => {},
        }
    }
    assert(views(parts@) =~= display_parts(*worktree, verbose));
    crate::text::join_strings(&parts, " ")
}

/// Whether the list shows a worktree: with a filter, when its name
/// contains the filter; else all when `show_all`, or only those with
/// changes.
pub fn should_show_worktree(worktree: &WorktreeInfo, show_all: bool, filter: Option<&str>) -> (r: bool)
    ensures
        r == match filter {
            Some(f) => contains_sub(worktree.name@, f@),
            None => show_all || worktree.has_changes,
        },
{
    match filter {
        Some(f) => {
            let n = chars_of(worktree.name.as_str());
            let fc = chars_of(f);
            contains_chars(n.as_slice(), fc.as_slice())
        },
        None => show_all || worktree.has_changes,
    }
}

/// The largest byte length among the names (`by_name`) or branches of `s`.
pub open spec fn max_len(s: Seq<WorktreeInfo>, by_name: bool) -> nat
    decreases s.len(),
{
    if s.len() == 0 {
        0
    } else {
        let rest = max_len(s.drop_last(), by_name);
        let l = if by_name {
            utf8_len(s.last().name@)
        } else {
            utf8_len(s.last().branch@)
        };
        if l > rest {
            l
        } else {
            rest
        }
    }
}

/// The widths of the name and branch columns of the worktree table: the
/// longest name, at least 10; the longest branch, at least 10, plus 10 for
/// the current marker.
pub fn table_widths(worktrees: &Vec<WorktreeInfo>) -> (r: (usize, usize))
    requires
        max_len(worktrees@, false) + 10 <= usize::MAX,
    ensures
        r.0 == if max_len(worktrees@, true) > 10 { max_len(worktrees@, true) } else { 10 },
        r.1 == (if max_len(worktrees@, false) > 10 { max_len(worktrees@, false) } else { 10 }) + 10,
{
    let mut name_w: usize = 0;
    let mut branch_w: usize = 0;
    let mut i: usize = 0;
    while i < worktrees.len()
        invariant
            i <= worktrees.len(),
            name_w == max_len(worktrees@.subrange(0, i as int), true),
            branch_w == max_len(worktrees@.subrange(0, i as int), false),
        decreases worktrees.len() - i,
    {
        assert(worktrees@.subrange(0, i + 1).drop_last() =~= worktrees@.subrange(0, i as int));
        let n = byte_len(worktrees[i].name.as_str());
        let b = byte_len(worktrees[i].branch.as_str());
        if n > name_w {
            name_w = n;
        }
        if b > branch_w {
            branch_w = b;
        }
        i = i + 1;
    }
    assert(worktrees@.subrange(0, worktrees.len() as int) =~= worktrees@);
    let nw = if name_w > 10 { name_w } else { 10 };
    let bw = if branch_w > 10 { branch_w } else { 10 };
    (nw, bw + 10)
}

/// The icon, branch and modified cells of a worktree's row in the table:
/// the current worktree gets its own icon and `[current]` after its
/// branch; the modified cell says whether it has changes.
pub fn table_cells(w: &WorktreeInfo) -> (r: (String, String, String))
    ensures
        r.0@ == if w.is_current { ICON_CURRENT_WORKTREE@ } else { ICON_OTHER_WORKTREE@ },
        r.1@ == if w.is_current { w.branch@ + " "@ + CURRENT_MARKER@ } else { w.branch@ },
        r.2@ == if w.has_changes { MODIFIED_STATUS_YES@ } else { MODIFIED_STATUS_NO@ },
{
    let icon = if w.is_current { owned(ICON_CURRENT_WORKTREE) } else { owned(ICON_OTHER_WORKTREE) };
    let branch = if w.is_current {
        concat3(w.branch.as_str(), " ", CURRENT_MARKER)
    } else {
        w.branch.clone()
    };
    let modified = if w.has_changes { owned(MODIFIED_STATUS_YES) } else { owned(MODIFIED_STATUS_NO) };
    (icon, branch, modified)
}

/// The display width of `s` in terminal columns, as `unicode-width`
/// computes it (Ambiguous characters one column wide).
pub uninterp spec fn unicode_display_width(s: Seq<char>) -> nat;

/// `UnicodeWidthStr::width` of the `unicode-width` crate.
///
/// Claimed of the crate: the result is `unicode_display_width` of the
/// string, a function of its characters alone; the per-character table is
/// not stated.
#[verifier::external_body]
fn display_width(s: &str) -> (r: usize)
    ensures
        r == unicode_display_width(s@),
{
    unicode_width::UnicodeWidthStr::width(s)
}

/// The largest display width among the names (`by_name`) or branches of
/// `s`.
pub open spec fn max_width(s: Seq<WorktreeInfo>, by_name: bool) -> nat
    decreases s.len(),
{
    if s.len() == 0 {
        0
    } else {
        let rest = max_width(s.drop_last(), by_name);
        let w = if by_name {
            unicode_display_width(s.last().name@)
        } else {
            unicode_display_width(s.last().branch@)
        };
        if w > rest {
            w
        } else {
            rest
        }
    }
}

/// The column widths of the paged worktree table, by display width: the
/// widest name, at least 8; the widest branch, at least 10, plus 10 for the
/// current marker.  `None` when the branch column would not fit in a
/// `usize`.
pub fn paged_table_widths(worktrees: &Vec<WorktreeInfo>) -> (r: Option<(usize, usize)>)
    ensures
        max_width(worktrees@, false) + 10 > usize::MAX <==> r is None,
        r matches Some(w) ==> w.0 == (if max_width(worktrees@, true) > 8 { max_width(worktrees@, true) } else { 8 })
            && w.1 == (if max_width(worktrees@, false) > 10 { max_width(worktrees@, false) } else { 10 }) + 10,
{
    let mut name_w: usize = 0;
    let mut branch_w: usize = 0;
    let mut i: usize = 0;
    while i < worktrees.len()
        invariant
            i <= worktrees.len(),
            name_w == max_width(worktrees@.subrange(0, i as int), true),
            branch_w == max_width(worktrees@.subrange(0, i as int), false),
        decreases worktrees.len() - i,
    {
        assert(worktrees@.subrange(0, i + 1).drop_last() =~= worktrees@.subrange(0, i as int));
        let n = display_width(worktrees[i].name.as_str());
        let b = display_width(worktrees[i].branch.as_str());
        if n > name_w {
            name_w = n;
        }
        if b > branch_w {
            branch_w = b;
        }
        i = i + 1;
    }
    assert(worktrees@.subrange(0, worktrees.len() as int) =~= worktrees@);
    let nw = if name_w > 8 { name_w } else { 8 };
    let bw = if branch_w > 10 { branch_w } else { 10 };
    if bw > usize::MAX - 10 {
        return None;
    }
    Some((nw, bw + 10))
}

/// Rows per page on a terminal `height` lines high: what is left after 7
/// header and 4 footer lines, but at least 5.
pub open spec fn rows_per_page(height: int) -> int {
    if height - 11 > 5 {
        height - 11
    } else {
        5
    }
}

/// Rows per page on a terminal `height` lines high.
pub fn items_per_page(height: usize) -> (r: usize)
    ensures
        r == rows_per_page(height as int),
{
    let available = if height > 11 { height - 11 } else { 0 };
    if available > 5 { available } else { 5 }
}

/// The number of pages for `len` rows, `per_page` to a page (rounded up).
pub fn page_count(len: usize, per_page: usize) -> (r: usize)
    requires
        per_page > 0,
    ensures
        r * per_page >= len,
        r == 0 || (r - 1) * per_page < len,
{
    let q = len / per_page;
    let rem = len % per_page;
    proof {
        assert(len == q * per_page + rem) by (nonlinear_arith)
            requires
                q == len / per_page,
                rem == len % per_page,
                per_page > 0,
        ;
    }
    if rem == 0 {
        proof {
            assert(q == 0 || (q - 1) * per_page < len) by (nonlinear_arith)
                requires
                    len == q * per_page,
                    per_page > 0,
            ;
        }
        q
    } else {
        proof {
            assert((q + 1) * per_page >= len && q * per_page < len && q < len) by (nonlinear_arith)
                requires
                    len == q * per_page + rem,
                    0 < rem < per_page,
            ;
        }
        q + 1
    }
}

/// The rows shown on page `page` (counted from 0): from `page * per_page`
/// up to the next page's start or the end of the list.
pub fn page_bounds(page: usize, per_page: usize, len: usize) -> (r: (usize, usize))
    requires
        (page + 1) * per_page <= usize::MAX,
        page * per_page <= len,
    ensures
        r.0 == page * per_page,
        r.1 == if (page + 1) * per_page < len { (page + 1) * per_page } else { len as int },
        r.0 <= r.1,
{
    proof {
        assert(page * per_page <= (page + 1) * per_page && (page + 1) * per_page == page * per_page
            + per_page) by (nonlinear_arith);
    }
    let start = page * per_page;
    let next = start + per_page;
    let end = if next < len { next } else { len };
    (start, end)
}

/// A key pressed under the paged table.
#[derive(Debug, Clone, Copy, PartialEq, Eq, Structural)]
pub enum PageKey {
    /// The left arrow.
    Left,
    /// The right arrow.
    Right,
    /// Any other key.
    Other,
}

/// The page shown after `key` on page `current` of `total`: the previous
/// page on Left (unless on the first), the next on Right (unless on the
/// last); `None` leaves the table.
pub fn next_page(current: usize, total: usize, key: PageKey) -> (r: Option<usize>)
    requires
        total >= 1,
    ensures
        key == PageKey::Left && current > 0 ==> r == Some((current - 1) as usize),
        key == PageKey::Right && current < total - 1 ==> r == Some((current + 1) as usize),
        !(key == PageKey::Left && current > 0) && !(key == PageKey::Right && current < total - 1)
            ==> r is None,
{
    match key {
        PageKey::Left => if current > 0 { Some(current - 1) } else { None },
        PageKey::Right => if current < total - 1 { Some(current + 1) } else { None },
        PageKey::Other => None,
    }
}

} // verus!
