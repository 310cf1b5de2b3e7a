//! Strings as sequences of characters.

use vstd::prelude::*;

verus! {

/// The characters of an optional string.
pub open spec fn text_of(value: Option<String>) -> Option<Seq<char>> {
    match value {
        Some(text) => Some(text@),
        None => None,
    }
}

/// Whether `c` is white space, as Unicode defines it.
pub uninterp spec fn is_white_space(c: char) -> bool;

/// `char::is_whitespace`.
///
/// Believed: the answer depends on the character alone.
#[verifier::external_body]
pub(crate) fn char_is_whitespace(c: char) -> (white: bool)
    ensures
        white == is_white_space(c),
{
    c.is_whitespace()
}

/// `text` holds nothing but white space.
pub open spec fn blank(text: Seq<char>) -> bool {
    forall|i: int| 0 <= i < text.len() ==> is_white_space(#[trigger] text[i])
}

/// Whether `pattern` stands in `text` at `at`.
pub open spec fn occurs_at(text: Seq<char>, pattern: Seq<char>, at: int) -> bool {
    &&& 0 <= at
    &&& at + pattern.len() <= text.len()
    &&& text.subrange(at, at + pattern.len()) == pattern
}

/// Where `pattern` first stands in `text` at or after `from`, if it does.
pub open spec fn find_from(text: Seq<char>, pattern: Seq<char>, from: int) -> Option<int>
    decreases text.len() + 1 - from,
{
    if from < 0 || from + pattern.len() > text.len() {
        None
    } else if occurs_at(text, pattern, from) {
        Some(from)
    } else {
        find_from(text, pattern, from + 1)
    }
}

/// Whether `pattern` stands somewhere in `text`.
pub open spec fn contains_text(text: Seq<char>, pattern: Seq<char>) -> bool {
    find_from(text, pattern, 0) is Some
}

/// `find_from` finds a place where the pattern stands, the first at or
/// after `from`, and finds none only where there is none.
pub proof fn lemma_find_from(text: Seq<char>, pattern: Seq<char>, from: int)
    requires
        0 <= from,
    ensures
        match find_from(text, pattern, from) {
            Some(at) => {
                &&& from <= at
                &&& occurs_at(text, pattern, at)
                &&& forall|before: int| from <= before < at ==> !occurs_at(text, pattern, before)
            },
            None => forall|at: int| from <= at ==> !occurs_at(text, pattern, at),
        },
    decreases text.len() + 1 - from,
{
    if from + pattern.len() <= text.len() && !occurs_at(text, pattern, from) {
        lemma_find_from(text, pattern, from + 1);
    }
}

/// Whether `pattern` stands in `text` at `at`.
pub fn matches_at(text: &Vec<char>, pattern: &Vec<char>, at: usize) -> (found: bool)
    ensures
        found == occurs_at(text@, pattern@, at as int),
{
    if pattern.len() > text.len() || at > text.len() - pattern.len() {
        return false;
    }
    let mut i: usize = 0;
    while i < pattern.len()
        invariant
            i <= pattern.len(),
            at + pattern.len() <= text.len(),
            forall|j: int| 0 <= j < i ==> text[at + j] == pattern[j],
        decreases pattern.len() - i,
    {
        if text[at + i] != pattern[i] {
            assert(text@.subrange(at as int, at + pattern.len())[i as int] == text[at + i]);
            return false;
        }
        i += 1;
    }
    assert(text@.subrange(at as int, at + pattern.len()) =~= pattern@);
    true
}

/// Where `pattern` first stands in `text` at or after `from`, if it does.
pub fn find_text(text: &Vec<char>, pattern: &Vec<char>, from: usize) -> (place: Option<usize>)
    ensures
        match place {
            Some(at) => find_from(text@, pattern@, from as int) == Some(at as int),
            None => find_from(text@, pattern@, from as int) is None,
        },
{
    if pattern.len() > text.len() {
        return None;
    }
    let last = text.len() - pattern.len();
    let mut at: usize = from;
    while at <= last
        invariant
            from <= at,
            last == text.len() - pattern.len(),
            find_from(text@, pattern@, from as int) == find_from(text@, pattern@, at as int),
        decreases last - at,
    {
        if matches_at(text, pattern, at) {
            return Some(at);
        }
        if at == last {
            assert(find_from(text@, pattern@, at + 1) is None);
            return None;
        }
        at += 1;
    }
    None
}

/// The characters of `s`, in order.
pub fn chars_of(s: &str) -> (chars: Vec<char>)
    ensures
        chars@ == s@,
{
    let mut chars: Vec<char> = Vec::new();
    for c in it: s.chars()
        invariant
            it.seq() == s@,
            chars@ == s@.take(it.index() as int),
    {
        chars.push(c);
    }
    chars
}

/// Whether `s` holds nothing but white space.
pub fn is_blank(s: &str) -> (empty: bool)
    ensures
        empty == blank(s@),
{
    let chars = chars_of(s);
    let mut i: usize = 0;
    while i < chars.len()
        invariant
            i <= chars.len(),
            chars@ == s@,
            forall|j: int| 0 <= j < i ==> is_white_space(#[trigger] chars[j]),
        decreases chars.len() - i,
    {
        if !char_is_whitespace(chars[i]) {
            return false;
        }
        i += 1;
    }
    true
}

} // verus!
