//! Small verified operations on texts.

use vstd::prelude::*;

verus! {

/// Whether two texts hold the same characters.
pub fn same_text(a: &str, b: &str) -> (r: bool)
    ensures
        r == (a@ == b@),
{
    let n = a.unicode_len();
    if n != b.unicode_len() {
        return false;
    }
    let mut i: usize = 0;
    while i < n
        invariant
            n == a@.len(),
            n == b@.len(),
            i <= n,
            forall|j: int| 0 <= j < i ==> a@[j] == b@[j],
        decreases n - i,
    {
        if a.get_char(i) != b.get_char(i) {
            return false;
        }
        i = i + 1;
    }
    assert(a@ =~= b@);
    true
}

/// Whether `text` begins with `prefix`.
pub open spec fn is_prefix(text: Seq<char>, prefix: Seq<char>) -> bool {
    prefix.len() <= text.len() && text.subrange(0, prefix.len() as int) == prefix
}

/// Whether `text` ends with `suffix`.
pub open spec fn is_suffix(text: Seq<char>, suffix: Seq<char>) -> bool {
    suffix.len() <= text.len() && text.subrange(text.len() - suffix.len(), text.len() as int)
        == suffix
}

/// Whether `part` stands in `text` at position `at`.
pub open spec fn occurs_at(text: Seq<char>, at: int, part: Seq<char>) -> bool {
    0 <= at && at + part.len() <= text.len() && text.subrange(at, at + part.len()) == part
}

/// Whether the characters of `part` stand in `text` from position `at` on.
pub fn matches_at(text: &str, at: usize, part: &str) -> (r: bool)
    ensures
        r == occurs_at(text@, at as int, part@),
{
    let n = part.unicode_len();
    let total = text.unicode_len();
    if at > total || n > total - at {
        return false;
    }
    let mut i: usize = 0;
    while i < n
        invariant
            n == part@.len(),
            total == text@.len(),
            at + n <= text@.len(),
            i <= n,
            forall|j: int| 0 <= j < i ==> text@[at + j] == part@[j],
        decreases n - i,
    {
        if text.get_char(at + i) != part.get_char(i) {
            return false;
        }
        i = i + 1;
    }
    assert(text@.subrange(at as int, at + n) =~= part@);
    true
}

/// Whether `text` begins with `prefix`.
pub fn starts_with(text: &str, prefix: &str) -> (r: bool)
    ensures
        r == is_prefix(text@, prefix@),
{
    if prefix.unicode_len() > text.unicode_len() {
        return false;
    }
    matches_at(text, 0, prefix)
}

/// Whether `text` ends with `suffix`.
pub fn ends_with(text: &str, suffix: &str) -> (r: bool)
    ensures
        r == is_suffix(text@, suffix@),
{
    let n = text.unicode_len();
    let m = suffix.unicode_len();
    if m > n {
        return false;
    }
    matches_at(text, n - m, suffix)
}

/// The two texts, one after the other.
pub fn followed_by(a: &str, b: &str) -> (r: String)
    ensures
        r@ == a@ + b@,
{
    let mut out = a.to_owned();
    out.append(b);
    out
}

/// What is left of `text` from position `i` on when every occurrence of
/// `part` is taken out, reading from the left and never reusing a character.
/// An empty `part` occurs nowhere.
pub open spec fn without_from(text: Seq<char>, part: Seq<char>, i: int) -> Seq<char>
    decreases text.len() - i,
{
    if part.len() == 0 || i < 0 || i + part.len() > text.len() {
        text.subrange(i, text.len() as int)
    } else if text.subrange(i, i + part.len()) == part {
        without_from(text, part, i + part.len())
    } else {
        seq![text[i]] + without_from(text, part, i + 1)
    }
}

/// What is left of `text` when every occurrence of `part` is taken out.
pub open spec fn without(text: Seq<char>, part: Seq<char>) -> Seq<char> {
    without_from(text, part, 0)
}

/// Takes every occurrence of `part` out of `text`.
pub fn remove_all(text: &str, part: &str) -> (r: String)
    ensures
        r@ == without(text@, part@),
{
    let n = text.unicode_len();
    let m = part.unicode_len();
    if m == 0 {
        return text.to_owned();
    }
    let mut out = String::new();
    let mut i: usize = 0;
    while m <= n && i <= n - m
        invariant
            n == text@.len(),
            m == part@.len(),
            m > 0,
            i <= n,
            without(text@, part@) == out@ + without_from(text@, part@, i as int),
        decreases n - i,
    {
        if matches_at(text, i, part) {
            i = i + m;
        } else {
            let ghost before = out@;
            out.append(text.substring_char(i, i + 1));
            assert(out@ + without_from(text@, part@, i + 1) == before + (seq![text@[i as int]]
                + without_from(text@, part@, i + 1)));
            i = i + 1;
        }
    }
    out.append(text.substring_char(i, n));
    out
}

/// The texts of `lines` in order with `separator` between each two.
pub open spec fn joined(lines: Seq<String>, separator: Seq<char>) -> Seq<char>
    decreases lines.len(),
{
    if lines.len() == 0 {
        Seq::empty()
    } else if lines.len() == 1 {
        lines[0]@
    } else {
        joined(lines.drop_last(), separator) + separator + lines.last()@
    }
}

/// Joins texts with a separator between each two.
pub fn join(lines: &Vec<String>, separator: &str) -> (r: String)
    ensures
        r@ == joined(lines@, separator@),
{
    let mut out = String::new();
    let mut i: usize = 0;
    while i < lines.len()
        invariant
            i <= lines.len(),
            out@ == joined(lines@.take(i as int), separator@),
        decreases lines.len() - i,
    {
        if i > 0 {
            out.append(separator);
        }
        out.append(lines[i].as_str());
        assert(lines@.take(i + 1).drop_last() == lines@.take(i as int));
        i = i + 1;
    }
    assert(lines@.take(lines@.len() as int) == lines@);
    out
}

} // verus!
