//! Filesystem path operations of `std::path`, for UTF-8 paths held as
//! strings.
//!
//! The results are named, not described: each name stands for what
//! `std::path::Path` computes on this build target from its arguments.

use vstd::prelude::*;

verus! {

/// What `Path::parent` returns for the path `p`.
pub uninterp spec fn std_path_parent(p: Seq<char>) -> Option<Seq<char>>;

/// What `Path::file_name` returns for the path `p`.
pub uninterp spec fn std_path_file_name(p: Seq<char>) -> Option<Seq<char>>;

/// What `Path::join` returns for `base` and `tail`.
pub uninterp spec fn std_path_join(base: Seq<char>, tail: Seq<char>) -> Seq<char>;

/// What `Path == Path` (component-wise comparison) returns.
pub uninterp spec fn std_path_eq(a: Seq<char>, b: Seq<char>) -> bool;

/// What `Path::is_absolute` returns for the path `p`.
pub uninterp spec fn std_path_is_absolute(p: Seq<char>) -> bool;

/// The view of an optional string.
pub open spec fn opt_view(o: Option<String>) -> Option<Seq<char>> {
    match o {
        Some(s) => Some(s@),
        None => None,
    }
}

/// `Path::parent`: the path without its final component.
///
/// Claimed of std: the result is `std_path_parent` of the argument; the
/// parent of a UTF-8 path is UTF-8, so the conversion back is lossless.
#[verifier::external_body]
pub fn path_parent(p: &str) -> (r: Option<String>)
    ensures
        opt_view(r) == std_path_parent(p@),
{
    match std::path::Path::new(p).parent() {
        Some(q) => Some(q.to_string_lossy().into_owned()),
        None => None,
    }
}

/// `Path::file_name`: the final component, unless it is `..` or absent.
///
/// Claimed of std: the result is `std_path_file_name` of the argument.
#[verifier::external_body]
pub fn path_file_name(p: &str) -> (r: Option<String>)
    ensures
        opt_view(r) == std_path_file_name(p@),
{
    match std::path::Path::new(p).file_name() {
        Some(q) => Some(q.to_string_lossy().into_owned()),
        None => None,
    }
}

/// `Path::join`: `tail` appended to `base` (or `tail` alone when absolute).
///
/// Claimed of std: the result is `std_path_join` of the two arguments.
#[verifier::external_body]
pub fn path_join(base: &str, tail: &str) -> (r: String)
    ensures
        r@ == std_path_join(base@, tail@),
{
    std::path::Path::new(base).join(tail).to_string_lossy().into_owned()
}

/// `Path == Path`: equality of the two paths' component sequences.
///
/// Claimed of std: the result is `std_path_eq` of the two arguments.
#[verifier::external_body]
pub fn path_eq(a: &str, b: &str) -> (r: bool)
    ensures
        r == std_path_eq(a@, b@),
{
    std::path::Path::new(a) == std::path::Path::new(b)
}

/// `Path::is_absolute`.
///
/// Claimed of std: the result is `std_path_is_absolute` of the argument.
#[verifier::external_body]
pub fn path_is_absolute(p: &str) -> (r: bool)
    ensures
        r == std_path_is_absolute(p@),
{
    std::path::Path::new(p).is_absolute()
}

} // verus!
