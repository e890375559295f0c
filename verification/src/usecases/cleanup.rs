//! The age limit asked for when cleaning up old worktrees.
#![verifier::loop_isolation(false)]

use vstd::prelude::*;
use crate::text::chars_of;

verus! {

/// Whether `c` is an ASCII digit.
pub open spec fn is_digit(c: char) -> bool {
    '0' <= c && c <= '9'
}

/// The number the decimal digits `d` spell.
pub open spec fn digits_value(d: Seq<char>) -> nat
    decreases d.len(),
{
    if d.len() == 0 {
        0
    } else {
        digits_value(d.drop_last()) * 10 + ((d.last() as u32) - 48) as nat
    }
}

/// The digits of `s` after an optional leading `+`.
pub open spec fn unsigned_body(s: Seq<char>) -> Seq<char> {
    if s.len() > 0 && s[0] == '+' {
        s.drop_first()
    } else {
        s
    }
}

/// What `u64::from_str` gives for `s`: the value of an optional `+` and
/// one or more decimal digits, when it fits in 64 bits.
pub open spec fn parsed_u64(s: Seq<char>) -> Option<nat> {
    let b = unsigned_body(s);
    if b.len() > 0 && (forall|i: int| 0 <= i < b.len() ==> is_digit(#[trigger] b[i])) && digits_value(b)
        <= u64::MAX {
        Some(digits_value(b))
    } else {
        None
    }
}

proof fn lemma_digits_value_prefix_grows(b: Seq<char>, k: int)
    requires
        0 <= k <= b.len(),
        forall|i: int| 0 <= i < b.len() ==> is_digit(#[trigger] b[i]),
    ensures
        digits_value(b.take(k)) <= digits_value(b),
    decreases b.len() - k,
{
    if k < b.len() {
        lemma_digits_value_prefix_grows(b, k + 1);
        assert(b.take(k + 1).drop_last() =~= b.take(k));
        assert(is_digit(b[k]));
    } else {
        assert(b.take(k) =~= b);
    }
}

/// Parses an unsigned decimal number as `u64::from_str` does.
pub fn parse_u64(s: &str) -> (r: Option<u64>)
    ensures
        match parsed_u64(s@) {
            Some(v) => r == Some(v as u64),
            None => r is None,
        },
{
    let c = chars_of(s);
    let start: usize = if c.len() > 0 && c[0] == '+' { 1 } else { 0 };
    let ghost b = unsigned_body(s@);
    assert(b =~= c@.subrange(start as int, c@.len() as int));
    if c.len() == start {
        return None;
    }
    let mut value: u64 = 0;
    let mut i: usize = start;
    while i < c.len()
        invariant
            start <= i <= c.len(),
            c@ == s@,
            b == c@.subrange(start as int, c@.len() as int),
            forall|k: int| 0 <= k < i - start ==> is_digit(#[trigger] b[k]),
            value == digits_value(b.take(i - start)),
        decreases c.len() - i,
    {
        let ch = c[i];
        let ghost k = i - start;
        assert(b[k] == ch);
        if !('0' <= ch && ch <= '9') {
            return None;
        }
        let d = (ch as u32 - 48) as u64;
        assert(b.take(k + 1).drop_last() =~= b.take(k));
        let next = match value.checked_mul(10) {
            Some(m) => m.checked_add(d),
            None => None,
        };
        match next {
            Some(v) => {
                value = v;
            },
            None => {
                proof {
                    if forall|j: int| 0 <= j < b.len() ==> is_digit(#[trigger] b[j]) {
                        lemma_digits_value_prefix_grows(b, k + 1);
                    }
                }
                return None;
            },
        }
        i = i + 1;
    }
    assert(b.take(b.len() as int) =~= b);
    Some(value)
}

/// What the cleanup prompt's answer asks for.
#[derive(Debug, Clone, Copy, PartialEq, Eq, Structural)]
pub enum CleanupRequest {
    /// The prompt was cancelled.
    Cancelled,
    /// The answer is not a number.
    InvalidNumber,
    /// Worktrees older than this many days.
    Days(u64),
}

/// The cleanup request for the prompt's answer (`None` when cancelled).
pub fn cleanup_request(answer: Option<&str>) -> (r: CleanupRequest)
    ensures
        answer is None ==> r == CleanupRequest::Cancelled,
        answer is Some ==> match parsed_u64(answer->0@) {
            Some(v) => r == CleanupRequest::Days(v as u64),
            None => r == CleanupRequest::InvalidNumber,
        },
{
    match answer {
        None => CleanupRequest::Cancelled,
        Some(a) => match parse_u64(a) {
            Some(v) => CleanupRequest::Days(v),
            None => CleanupRequest::InvalidNumber,
        },
    }
}

} // verus!
