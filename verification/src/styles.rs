//! Section headers and separators, coloured with `colored` when the
//! terminal takes colours.

use vstd::prelude::*;
use crate::constants::{HEADER_SEPARATOR_WIDTH, SEPARATOR_WIDTH};
use crate::text::{concat3, contains_sub, push_char};

verus! {

/// `text.bright_cyan().bold()` of `colored`, as a string.
///
/// Claimed of colored: the result holds `text` (with the style's escape
/// codes before and a reset after when colours are on, as plain text
/// otherwise), for text without an escape character; whether colours are
/// on depends on the environment and is not stated.
#[verifier::external_body]
fn paint_title(text: &str) -> (r: String)
    ensures
        !text@.contains('\x1b') ==> contains_sub(r@, text@),
{
    colored::Colorize::bold(colored::Colorize::bright_cyan(text)).to_string()
}

/// `text.bright_blue()` of `colored`, as a string.
///
/// Claimed of colored: as for `paint_title`, the result holds `text` for
/// text without an escape character.
#[verifier::external_body]
fn paint_rule(text: &str) -> (r: String)
    ensures
        !text@.contains('\x1b') ==> contains_sub(r@, text@),
{
    colored::Colorize::bright_blue(text).to_string()
}

/// `n` copies of `c`.
pub fn repeat_char(c: char, n: usize) -> (r: String)
    ensures
        r@ == Seq::new(n as nat, |i: int| c),
{
    let mut s = String::new();
    let mut i: usize = 0;
    while i < n
        invariant
            i <= n,
            s@ == Seq::new(i as nat, |k: int| c),
        decreases n - i,
    {
        push_char(&mut s, c);
        i = i + 1;
        assert(s@ =~= Seq::new(i as nat, |k: int| c));
    }
    s
}

proof fn lemma_occurs_in_concat(a: Seq<char>, b: Seq<char>, c: Seq<char>, p: Seq<char>, in_a: bool)
    requires
        in_a ==> contains_sub(a, p),
        !in_a ==> contains_sub(c, p),
    ensures
        contains_sub(a + b + c, p),
{
    let s = a + b + c;
    if in_a {
        let i = choose|i: int| crate::text::occurs_at(a, p, i);
        assert(s.subrange(i, i + p.len()) =~= a.subrange(i, i + p.len()));
        assert(crate::text::occurs_at(s, p, i));
    } else {
        let i = choose|i: int| crate::text::occurs_at(c, p, i);
        let o = a.len() + b.len();
        assert(s.subrange(o + i, o + i + p.len()) =~= c.subrange(i, i + p.len()));
        assert(crate::text::occurs_at(s, p, o + i));
    }
}

/// A section header: the title, a line break and a rule of 40 `=`.
pub fn section_header(title: &str) -> (r: String)
    ensures
        !title@.contains('\x1b') ==> contains_sub(r@, title@),
        contains_sub(r@, Seq::new(40, |i: int| '=')),
{
    let rule = repeat_char('=', SEPARATOR_WIDTH);
    let t = paint_title(title);
    let sep = paint_rule(rule.as_str());
    proof {
        assert(!rule@.contains('\x1b')) by {
            if rule@.contains('\x1b') {
                let k = choose|k: int| 0 <= k < rule@.len() && rule@[k] == '\x1b';
                assert(rule@[k] == '=');
            }
        }
        if !title@.contains('\x1b') {
            lemma_occurs_in_concat(t@, "\n"@, sep@, title@, true);
        }
        lemma_occurs_in_concat(t@, "\n"@, sep@, rule@, false);
    }
    concat3(t.as_str(), "\n", sep.as_str())
}

/// The separator under the main header: a rule of 50 `=`.
pub fn header_separator() -> (r: String)
    ensures
        contains_sub(r@, Seq::new(50, |i: int| '=')),
{
    let rule = repeat_char('=', HEADER_SEPARATOR_WIDTH);
    proof {
        assert(!rule@.contains('\x1b')) by {
            if rule@.contains('\x1b') {
                let k = choose|k: int| 0 <= k < rule@.len() && rule@[k] == '\x1b';
                assert(rule@[k] == '=');
            }
        }
    }
    paint_rule(rule.as_str())
}

} // verus!
