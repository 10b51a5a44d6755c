//! Character-level operations on strings.
//!
//! A string is read as its sequence of characters. The functions that search
//! take the text to search as a slice of characters, which lets them look at
//! any position, and the pattern as a string slice.

use vstd::prelude::*;
use vstd::std_specs::iter::IteratorSpec;

verus! {

/// `pattern` stands in `text` at offset `at`.
pub open spec fn occurs_at(pattern: Seq<char>, text: Seq<char>, at: int) -> bool {
    &&& 0 <= at
    &&& at + pattern.len() <= text.len()
    &&& text.subrange(at, at + pattern.len()) == pattern
}

/// `pattern` stands somewhere in `text`.
pub open spec fn occurs_in(pattern: Seq<char>, text: Seq<char>) -> bool {
    exists|at: int| occurs_at(pattern, text, at)
}

/// `text` without its last `suffix.len()` characters, where it ends with `suffix`.
pub open spec fn strip_suffix(text: Seq<char>, suffix: Seq<char>) -> Option<Seq<char>> {
    if suffix.is_suffix_of(text) {
        Some(text.subrange(0, text.len() - suffix.len()))
    } else {
        None
    }
}

/// The characters of `s`, in order.
pub fn chars_of(s: &str) -> (chars: Vec<char>)
    ensures
        chars@ == s@,
{
    let mut chars: Vec<char> = Vec::new();
    for c in it: s.chars()
        invariant
            chars@ == it.seq().take(it.index() as int),
            it.seq() == s@,
    {
        chars.push(c);
    }
    chars
}

/// Whether `pattern` stands in `text` at offset `at`.
pub fn matches_at(text: &[char], at: usize, pattern: &str) -> (found: bool)
    ensures
        found == occurs_at(pattern@, text@, at as int),
{
    if at > text.len() {
        return false;
    }
    let mut matched: usize = 0;
    let mut found = true;
    for c in it: pattern.chars()
        invariant
            at <= text@.len(),
            it.seq() == pattern@,
            found ==> matched == it.index(),
            found ==> at + matched <= text@.len(),
            found ==> text@.subrange(at as int, at + matched) == pattern@.take(matched as int),
            !found ==> !occurs_at(pattern@, text@, at as int),
    {
        if found {
            if matched < text.len() - at && text[at + matched] == c {
                proof {
                    let grown = text@.subrange(at as int, at + matched + 1);
                    assert(grown.drop_last() == text@.subrange(at as int, at + matched));
                    assert(grown =~= pattern@.take(matched + 1));
                }
                matched = matched + 1;
            } else {
                proof {
                    let window = text@.subrange(at as int, at + pattern@.len());
                    assert(occurs_at(pattern@, text@, at as int) ==> window[matched as int]
                        == pattern@[matched as int]);
                }
                found = false;
            }
        }
    }
    proof {
        if found {
            assert(pattern@.take(matched as int) == pattern@);
        }
    }
    found
}

/// Whether `text` begins with `pattern`.
pub fn starts_with(text: &[char], pattern: &str) -> (found: bool)
    ensures
        found == pattern@.is_prefix_of(text@),
{
    matches_at(text, 0, pattern)
}

/// Whether `text` ends with `pattern`.
pub fn ends_with(text: &[char], pattern: &str) -> (found: bool)
    ensures
        found == pattern@.is_suffix_of(text@),
{
    let width = pattern.unicode_len();
    if width > text.len() {
        false
    } else {
        matches_at(text, text.len() - width, pattern)
    }
}

/// Whether `left` and `right` hold the same characters.
pub fn same(left: &str, right: &str) -> (equal: bool)
    ensures
        equal == (left@ == right@),
{
    let mut rest = right.chars();
    for c in it: left.chars()
        invariant
            it.seq() == left@,
            rest.remaining() == right@.skip(it.index() as int),
            it.index() <= right@.len(),
            left@.take(it.index() as int) == right@.take(it.index() as int),
    {
        match rest.next() {
            Some(d) => {
                if c != d {
                    return false;
                }
            },
            None => {
                return false;
            },
        }
    }
    let beyond = rest.next();
    proof {
        let width = left@.len() as int;
        assert(left@.take(width) =~= left@);
        assert(beyond is None ==> right@.take(width) =~= right@);
    }
    beyond.is_none()
}

/// Whether `pattern` stands somewhere in `text`.
pub fn contains(text: &[char], pattern: &str) -> (found: bool)
    ensures
        found == occurs_in(pattern@, text@),
{
    let mut at: usize = 0;
    while at < text.len()
        invariant
            at <= text@.len(),
            forall|i: int| 0 <= i < at ==> !occurs_at(pattern@, text@, i),
        decreases text@.len() - at,
    {
        if matches_at(text, at, pattern) {
            return true;
        }
        at = at + 1;
    }
    matches_at(text, at, pattern)
}

} // verus!
