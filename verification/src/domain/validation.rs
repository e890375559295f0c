//! Validation of worktree names and user-supplied worktree paths.

use vstd::prelude::*;
use crate::text::{
    all_ascii, all_ascii_exec, char_views, chars_eq, chars_of, contains_char, first_contained,
    first_contained_exec, is_prefix, split_chars, split_on, starts_with_chars, std_lowercase,
    string_from_chars, to_lowercase, trim, trim_chars, utf8_len, utf8_len_exceeds,
};

verus! {

/// Names that Git uses inside its metadata directory.
pub open spec fn git_reserved_names() -> Seq<Seq<char>> {
    seq!["HEAD"@, "refs"@, "hooks"@, "info"@, "objects"@, "logs"@]
}

/// Names that Git uses inside its metadata directory.
pub fn git_reserved_name_list() -> (r: Vec<&'static str>)
    ensures
        r@.map_values(|s: &str| s@) == git_reserved_names(),
{
    let r = vec!["HEAD", "refs", "hooks", "info", "objects", "logs"];
    assert(r@.map_values(|s: &str| s@) =~= git_reserved_names());
    r
}

/// Characters that are not accepted in names on common filesystems.
pub open spec fn invalid_filesystem_chars() -> Seq<char> {
    seq!['/', '\\', ':', '*', '?', '"', '<', '>', '|', '\0', ';', '\'', '`']
}

/// Characters Windows reserves in file names.
pub open spec fn windows_reserved_chars() -> Seq<char> {
    seq!['<', '>', ':', '"', '|', '?', '*']
}

fn invalid_filesystem_char_list() -> (r: Vec<char>)
    ensures
        r@ == invalid_filesystem_chars(),
{
    let r = vec!['/', '\\', ':', '*', '?', '"', '<', '>', '|', '\0', ';', '\'', '`'];
    assert(r@ =~= invalid_filesystem_chars());
    r
}

fn windows_reserved_char_list() -> (r: Vec<char>)
    ensures
        r@ == windows_reserved_chars(),
{
    let r = vec!['<', '>', ':', '"', '|', '?', '*'];
    assert(r@ =~= windows_reserved_chars());
    r
}

/// Why a worktree name was refused.
#[derive(Debug, Clone, Copy, PartialEq, Eq, Structural)]
pub enum NameError {
    /// Nothing is left after trimming white space.
    Empty,
    /// The trimmed name is longer than 255 bytes.
    TooLong,
    /// The name equals a Git-reserved name, ignoring case.
    Reserved,
    /// The name contains a character filesystems do not accept.
    InvalidChar(char),
    /// The name contains a character Windows reserves.
    WindowsChar(char),
    /// The name contains a NUL character.
    NullByte,
    /// The name starts with a dot.
    Hidden,
    /// The name contains a non-ASCII character.
    NonAscii,
}

/// Whether the trimmed name `t` equals a reserved Git name, ignoring case.
pub open spec fn is_reserved_ignoring_case(t: Seq<char>) -> bool {
    exists|k: int|
        0 <= k < git_reserved_names().len() && std_lowercase(t) == std_lowercase(
            #[trigger] git_reserved_names()[k],
        )
}

/// The outcome of validating the worktree name `name`: the trimmed name, or
/// the first rule it breaks, in the order the rules are checked.
pub open spec fn name_verdict(name: Seq<char>) -> Result<Seq<char>, NameError> {
    let t = trim(name);
    if t.len() == 0 {
        Err(NameError::Empty)
    } else if utf8_len(t) > 255 {
        Err(NameError::TooLong)
    } else if is_reserved_ignoring_case(t) {
        Err(NameError::Reserved)
    } else if first_contained(invalid_filesystem_chars(), t) is Some {
        Err(NameError::InvalidChar(first_contained(invalid_filesystem_chars(), t)->0))
    } else if first_contained(windows_reserved_chars(), t) is Some {
        Err(NameError::WindowsChar(first_contained(windows_reserved_chars(), t)->0))
    } else if t.contains('\0') {
        Err(NameError::NullByte)
    } else if t[0] == '.' {
        Err(NameError::Hidden)
    } else if !all_ascii(t) {
        Err(NameError::NonAscii)
    } else {
        Ok(t)
    }
}

/// The view of a string result.
pub open spec fn result_view<E>(r: Result<String, E>) -> Result<Seq<char>, E> {
    match r {
        Ok(s) => Ok(s@),
        Err(e) => Err(e),
    }
}

/// Validates a worktree name and returns it trimmed.
///
/// The name is trimmed of white space; it must then be non-empty, at most
/// 255 bytes long, differ from the reserved Git names (ignoring case),
/// contain none of `/ \ : * ? " < > | ; ' `` ` and no NUL, not start with a
/// dot, and be ASCII.
#[verifier::loop_isolation(false)]
pub fn validate_worktree_name(name: &str) -> (r: Result<String, NameError>)
    ensures
        result_view(r) == name_verdict(name@),
{
    let chars = chars_of(name);
    let t = trim_chars(chars.as_slice());
    if t.len() == 0 {
        return Err(NameError::Empty);
    }
    if utf8_len_exceeds(t.as_slice(), 255) {
        return Err(NameError::TooLong);
    }
    let trimmed = string_from_chars(t.as_slice());
    let lower = to_lowercase(trimmed.as_str());
    let reserved = git_reserved_name_list();
    let mut k: usize = 0;
    while k < reserved.len()
        invariant
            k <= reserved.len(),
            reserved@.map_values(|s: &str| s@) == git_reserved_names(),
            lower@ == std_lowercase(t@),
            forall|j: int|
                0 <= j < k ==> std_lowercase(t@) != std_lowercase(
                    #[trigger] git_reserved_names()[j],
                ),
        decreases reserved.len() - k,
    {
        let rl = to_lowercase(reserved[k]);
        let a = chars_of(lower.as_str());
        let b = chars_of(rl.as_str());
        assert(reserved@.map_values(|s: &str| s@)[k as int] == reserved@[k as int]@);
        if chars_eq(a.as_slice(), b.as_slice()) {
            assert(std_lowercase(t@) == std_lowercase(git_reserved_names()[k as int]));
            assert(is_reserved_ignoring_case(t@));
            return Err(NameError::Reserved);
        }
        k = k + 1;
    }
    assert(!is_reserved_ignoring_case(t@));
    let invalid = invalid_filesystem_char_list();
    match first_contained_exec(invalid.as_slice(), t.as_slice()) {
        Some(c) => {
            return Err(NameError::InvalidChar(c));
        },
        None => {},
    }
    let windows = windows_reserved_char_list();
    match first_contained_exec(windows.as_slice(), t.as_slice()) {
        Some(c) => {
            return Err(NameError::WindowsChar(c));
        },
        None => {},
    }
    if contains_char(t.as_slice(), '\0') {
        return Err(NameError::NullByte);
    }
    if t[0] == '.' {
        return Err(NameError::Hidden);
    }
    if !all_ascii_exec(t.as_slice()) {
        return Err(NameError::NonAscii);
    }
    Ok(trimmed)
}

/// Why a custom worktree path was refused.  Component errors carry the
/// index of the offending component in the `/`-separated path.
#[derive(Debug, Clone, Copy, PartialEq, Eq, Structural)]
pub enum PathError {
    /// Nothing is left after trimming white space.
    Empty,
    /// The path starts with `/` or has a drive letter (`C:`).
    Absolute,
    /// The path starts with `\\`.
    Unc,
    /// The path ends with `/` or `\`.
    TrailingSeparator,
    /// `..` components climb more than one level above the start.
    Traversal,
    /// A component is a reserved Git name.
    ReservedComponent(usize),
    /// A component contains a character filesystems do not accept.
    InvalidChar(usize, char),
    /// A component contains a character Windows reserves.
    WindowsChar(usize, char),
    /// A component is longer than 255 bytes.
    ComponentTooLong(usize),
}

/// The component `..`.
pub open spec fn dot_dot() -> Seq<char> {
    seq!['.', '.']
}

/// The component `.`.
pub open spec fn single_dot() -> Seq<char> {
    seq!['.']
}

/// Whether walking `comps` from directory depth `depth`, where `..` goes up
/// one level and every other non-empty component except `.` goes down one,
/// ever reaches a depth below -1.
pub open spec fn climbs_too_far(comps: Seq<Seq<char>>, depth: int) -> bool
    decreases comps.len(),
{
    if comps.len() == 0 {
        false
    } else if comps[0] == dot_dot() {
        depth - 1 < -1 || climbs_too_far(comps.drop_first(), depth - 1)
    } else if comps[0] != single_dot() && comps[0].len() > 0 {
        climbs_too_far(comps.drop_first(), depth + 1)
    } else {
        climbs_too_far(comps.drop_first(), depth)
    }
}

/// Characters refused in path components: the filesystem-invalid ones
/// except the backslash.
pub open spec fn component_invalid_chars() -> Seq<char> {
    seq!['/', ':', '*', '?', '"', '<', '>', '|', '\0', ';', '\'', '`']
}

/// The error of the single component `c`, found at index `index`.
pub open spec fn component_error(c: Seq<char>, index: usize) -> Option<PathError> {
    if c.len() == 0 || c == single_dot() || c == dot_dot() {
        None
    } else if git_reserved_names().contains(c) {
        Some(PathError::ReservedComponent(index))
    } else if first_contained(component_invalid_chars(), c) is Some {
        Some(PathError::InvalidChar(index, first_contained(component_invalid_chars(), c)->0))
    } else if first_contained(windows_reserved_chars(), c) is Some {
        Some(PathError::WindowsChar(index, first_contained(windows_reserved_chars(), c)->0))
    } else if utf8_len(c) > 255 {
        Some(PathError::ComponentTooLong(index))
    } else {
        None
    }
}

/// The error of the first offending component of `comps`, whose first
/// element has index `start`.
pub open spec fn first_component_error(comps: Seq<Seq<char>>, start: nat) -> Option<PathError>
    decreases comps.len(),
{
    if comps.len() == 0 {
        None
    } else if component_error(comps[0], start as usize) is Some {
        component_error(comps[0], start as usize)
    } else {
        first_component_error(comps.drop_first(), start + 1)
    }
}

/// The outcome of validating the custom path `path`.
pub open spec fn custom_path_verdict(path: Seq<char>) -> Result<(), PathError> {
    let t = trim(path);
    if t.len() == 0 {
        Err(PathError::Empty)
    } else if t[0] == '/' || (t.len() >= 2 && t[1] == ':') {
        Err(PathError::Absolute)
    } else if is_prefix(seq!['\\', '\\'], t) {
        Err(PathError::Unc)
    } else if t.last() == '/' || t.last() == '\\' {
        Err(PathError::TrailingSeparator)
    } else if climbs_too_far(split_on(t, '/'), 0) {
        Err(PathError::Traversal)
    } else if first_component_error(split_on(t, '/'), 0) is Some {
        Err(first_component_error(split_on(t, '/'), 0)->0)
    } else {
        Ok(())
    }
}

#[verifier::loop_isolation(false)]
fn component_error_exec(c: &[char], index: usize) -> (r: Option<PathError>)
    ensures
        r == component_error(c@, index),
{
    let dd = vec!['.', '.'];
    let d = vec!['.'];
    assert(dd@ =~= dot_dot());
    assert(d@ =~= single_dot());
    if c.len() == 0 || chars_eq(c, d.as_slice()) || chars_eq(c, dd.as_slice()) {
        return None;
    }
    let reserved = git_reserved_name_list();
    let mut k: usize = 0;
    while k < reserved.len()
        invariant
            k <= reserved.len(),
            reserved@.map_values(|s: &str| s@) == git_reserved_names(),
            forall|j: int| 0 <= j < k ==> git_reserved_names()[j] != c@,
        decreases reserved.len() - k,
    {
        let r = chars_of(reserved[k]);
        assert(reserved@.map_values(|s: &str| s@)[k as int] == reserved@[k as int]@);
        if chars_eq(r.as_slice(), c) {
            assert(git_reserved_names()[k as int] == c@);
            assert(git_reserved_names().contains(c@));
            return Some(PathError::ReservedComponent(index));
        }
        k = k + 1;
    }
    assert(!git_reserved_names().contains(c@));
    let invalid = vec!['/', ':', '*', '?', '"', '<', '>', '|', '\0', ';', '\'', '`'];
    assert(invalid@ =~= component_invalid_chars());
    match first_contained_exec(invalid.as_slice(), c) {
        Some(ch) => {
            return Some(PathError::InvalidChar(index, ch));
        },
        None => {},
    }
    let windows = windows_reserved_char_list();
    match first_contained_exec(windows.as_slice(), c) {
        Some(ch) => {
            return Some(PathError::WindowsChar(index, ch));
        },
        None => {},
    }
    if utf8_len_exceeds(c, 255) {
        return Some(PathError::ComponentTooLong(index));
    }
    None
}

/// Validates a custom worktree path, given relative to the project root.
///
/// After trimming, the path must be non-empty, relative (no leading `/`, no
/// drive letter), not a UNC path, must not end with a separator, must not
/// climb more than one level with `..`, and each component other than `.`,
/// `..` and empty ones must not be a reserved Git name, must avoid the
/// filesystem- and Windows-reserved characters, and be at most 255 bytes.
#[verifier::loop_isolation(false)]
pub fn validate_custom_path(path: &str) -> (r: Result<(), PathError>)
    ensures
        r == custom_path_verdict(path@),
{
    let chars = chars_of(path);
    let t = trim_chars(chars.as_slice());
    if t.len() == 0 {
        return Err(PathError::Empty);
    }
    if t[0] == '/' || (t.len() >= 2 && t[1] == ':') {
        return Err(PathError::Absolute);
    }
    let unc = vec!['\\', '\\'];
    assert(unc@ =~= seq!['\\', '\\']);
    if starts_with_chars(t.as_slice(), unc.as_slice()) {
        return Err(PathError::Unc);
    }
    let last = t[t.len() - 1];
    if last == '/' || last == '\\' {
        return Err(PathError::TrailingSeparator);
    }
    let comps = split_chars(t.as_slice(), '/');
    let dd = vec!['.', '.'];
    let d = vec!['.'];
    assert(dd@ =~= dot_dot());
    assert(d@ =~= single_dot());
    let mut depth: i128 = 0;
    let mut i: usize = 0;
    assert(char_views(comps@).subrange(0, comps.len() as int) =~= char_views(comps@));
    while i < comps.len()
        invariant
            i <= comps.len(),
            -1 <= depth <= i,
            dd@ == dot_dot(),
            d@ == single_dot(),
            climbs_too_far(char_views(comps@), 0) == climbs_too_far(
                char_views(comps@).subrange(i as int, comps.len() as int),
                depth as int,
            ),
        decreases comps.len() - i,
    {
        let ghost rest = char_views(comps@).subrange(i as int, comps.len() as int);
        assert(rest.drop_first() =~= char_views(comps@).subrange(i + 1, comps.len() as int));
        assert(rest[0] == comps@[i as int]@);
        let c = &comps[i];
        if chars_eq(c.as_slice(), dd.as_slice()) {
            if depth - 1 < -1 {
                assert(rest[0] == dot_dot());
                assert(climbs_too_far(rest, depth as int));
                return Err(PathError::Traversal);
            }
            depth = depth - 1;
        } else if !chars_eq(c.as_slice(), d.as_slice()) && c.len() > 0 {
            depth = depth + 1;
        }
        i = i + 1;
    }
    let mut j: usize = 0;
    assert(char_views(comps@).subrange(0, comps.len() as int) =~= char_views(comps@));
    while j < comps.len()
        invariant
            j <= comps.len(),
            first_component_error(char_views(comps@), 0) == first_component_error(
                char_views(comps@).subrange(j as int, comps.len() as int),
                j as nat,
            ),
        decreases comps.len() - j,
    {
        let ghost rest = char_views(comps@).subrange(j as int, comps.len() as int);
        assert(rest.drop_first() =~= char_views(comps@).subrange(j + 1, comps.len() as int));
        assert(rest[0] == comps@[j as int]@);
        let e = component_error_exec(comps[j].as_slice(), j);
        if e.is_some() {
            assert(component_error(rest[0], (j as nat) as usize) is Some);
            assert(first_component_error(rest, j as nat) == e);
            return Err(e.unwrap());
        }
        j = j + 1;
    }
    Ok(())
}

} // verus!
