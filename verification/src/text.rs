//! Character-wise work on strings that the other modules share.

use vstd::prelude::*;
use vstd::string::*;

verus! {

/// The characters of a string, one by one.
pub(crate) fn chars_of(text: &str) -> (chars: Vec<char>)
    ensures
        chars@ == text@,
{
    let n: usize = text.unicode_len();
    let mut chars: Vec<char> = Vec::new();
    let mut i: usize = 0;
    while i < n
        invariant
            i <= n,
            n == text@.len(),
            chars@ == text@.take(i as int),
        decreases n - i,
    {
        chars.push(text.get_char(i));
        i += 1;
        assert(chars@ =~= text@.take(i as int));
    }
    assert(text@.take(n as int) =~= text@);
    chars
}

/// Whether `pattern` stands in `chars` at index `at`.
pub(crate) fn occurs_at(chars: &Vec<char>, at: usize, pattern: &Vec<char>) -> (r: bool)
    requires
        at + pattern.len() <= chars.len(),
    ensures
        r == (chars@.subrange(at as int, at + pattern.len()) == pattern@),
{
    let m: usize = pattern.len();
    let mut i: usize = 0;
    while i < m
        invariant
            i <= m,
            m == pattern.len(),
            at + m <= chars.len(),
            forall|j: int| 0 <= j < i ==> chars[at + j] == pattern[j],
        decreases m - i,
    {
        if chars[at + i] != pattern[i] {
            assert(chars@.subrange(at as int, at + m)[i as int] != pattern@[i as int]);
            return false;
        }
        i += 1;
    }
    assert(chars@.subrange(at as int, at + m) =~= pattern@);
    true
}

/// Whether `chars` spells `text`.
pub(crate) fn spells(chars: &Vec<char>, text: &str) -> (r: bool)
    ensures
        r == (chars@ == text@),
{
    let other: Vec<char> = chars_of(text);
    if chars.len() != other.len() {
        return false;
    }
    assert(chars@.subrange(0, 0 + other.len()) =~= chars@);
    occurs_at(chars, 0, &other)
}

/// Whether two strings hold the same characters.
pub(crate) fn same_text(a: &str, b: &str) -> (r: bool)
    ensures
        r == (a@ == b@),
{
    let x: Vec<char> = chars_of(a);
    spells(&x, b)
}

} // verus!
