//! Lines as sequences of characters: literal search and the field in front of
//! a delimiter.

use vstd::prelude::*;
use vstd::std_specs::iter::IteratorSpec;

verus! {

/// `pattern` stands in `line` from position `at` on.
pub open spec fn occurs_at(line: Seq<char>, pattern: Seq<char>, at: int) -> bool {
    &&& 0 <= at
    &&& at + pattern.len() <= line.len()
    &&& line.subrange(at, at + pattern.len()) == pattern
}

/// `pattern` stands somewhere in `line`. The empty pattern stands in every line.
pub open spec fn occurs(line: Seq<char>, pattern: Seq<char>) -> bool {
    exists|at: int| occurs_at(line, pattern, at)
}

/// `at` is the position of the first `delimiter` in `line`.
pub open spec fn first_at(line: Seq<char>, delimiter: char, at: int) -> bool {
    &&& 0 <= at < line.len()
    &&& line[at] == delimiter
    &&& forall|k: int| 0 <= k < at ==> line[k] != delimiter
}

/// The part of `line` in front of its first `delimiter`; `None` where the line
/// holds no `delimiter`.
pub open spec fn field_before(line: Seq<char>, delimiter: char) -> Option<Seq<char>> {
    if exists|at: int| first_at(line, delimiter, at) {
        Some(line.take(choose|at: int| first_at(line, delimiter, at)))
    } else {
        None
    }
}

/// A line has at most one first delimiter, so `field_before` is the text in
/// front of any position that `first_at` accepts.
pub proof fn lemma_field_before(line: Seq<char>, delimiter: char, at: int)
    requires
        first_at(line, delimiter, at),
    ensures
        field_before(line, delimiter) == Some(line.take(at)),
{
    let chosen = choose|k: int| first_at(line, delimiter, k);
    assert(first_at(line, delimiter, chosen));
    if chosen < at {
        assert(line[chosen] != delimiter);
    }
    if at < chosen {
        assert(line[at] != delimiter);
    }
}

/// The characters of `s`, one by one.
pub fn to_chars(s: &str) -> (v: Vec<char>)
    ensures
        v@ == s@,
{
    let mut v: Vec<char> = Vec::new();
    for c in it: s.chars()
        invariant
            it.seq() == s@,
            v@ == s@.take(it.index() as int),
    {
        v.push(c);
    }
    v
}

/// Compares `pattern` with the characters of `line` from `at` on.
fn stands_at(line: &Vec<char>, pattern: &Vec<char>, at: usize) -> (b: bool)
    requires
        at + pattern.len() <= line.len(),
    ensures
        b == occurs_at(line@, pattern@, at as int),
{
    let mut k: usize = 0;
    while k < pattern.len()
        invariant
            k <= pattern.len(),
            at + pattern.len() <= line.len(),
            forall|j: int| 0 <= j < k ==> line@[at + j] == pattern@[j],
        decreases pattern.len() - k,
    {
        if line[at + k] != pattern[k] {
            assert(line@.subrange(at as int, at + pattern.len())[k as int] != pattern@[k as int]);
            return false;
        }
        k += 1;
    }
    assert(line@.subrange(at as int, at + pattern.len()) =~= pattern@);
    true
}

/// Whether `pattern` is a substring of `line`.
pub fn contains(line: &str, pattern: &str) -> (b: bool)
    ensures
        b == occurs(line@, pattern@),
{
    let hay = to_chars(line);
    let needle = to_chars(pattern);
    if needle.len() > hay.len() {
        return false;
    }
    let last: usize = hay.len() - needle.len();
    let mut at: usize = 0;
    loop
        invariant
            hay@ == line@,
            needle@ == pattern@,
            last == hay.len() - needle.len(),
            at <= last,
            forall|k: int| 0 <= k < at ==> !occurs_at(hay@, needle@, k),
        decreases last - at,
    {
        if stands_at(&hay, &needle, at) {
            return true;
        }
        if at == last {
            return false;
        }
        at += 1;
    }
}

/// The text of `line` in front of its first `delimiter`.
pub fn split_before<'a>(line: &'a str, delimiter: char) -> (r: Option<&'a str>)
    ensures
        match r {
            Some(field) => field_before(line@, delimiter) == Some(field@),
            None => field_before(line@, delimiter) is None,
        },
{
    let chars = to_chars(line);
    let mut at: usize = 0;
    while at < chars.len()
        invariant
            at <= chars.len(),
            chars@ == line@,
            forall|k: int| 0 <= k < at ==> chars@[k] != delimiter,
        decreases chars.len() - at,
    {
        if chars[at] == delimiter {
            proof {
                lemma_field_before(line@, delimiter, at as int);
            }
            return Some(line.substring_char(0, at));
        }
        at += 1;
    }
    None
}

} // verus!
