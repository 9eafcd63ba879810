//! The shapes that a manifest's identifier, name and description must have.

use vstd::prelude::*;

verus! {

/// Whether `c` is an ASCII capital letter.
pub open spec fn is_capital(c: char) -> bool {
    'A' <= c && c <= 'Z'
}

/// Whether `c` is an ASCII small letter or digit.
pub open spec fn is_small_or_digit(c: char) -> bool {
    ('a' <= c && c <= 'z') || ('0' <= c && c <= '9')
}

/// Whether the character at position `i` of `text` may stand there in an
/// identifier: a capital letter at the start of a part, and elsewhere a dot,
/// an ASCII letter or a digit.
pub open spec fn fits_id_at(text: Seq<char>, i: int) -> bool {
    if i == 0 || text[i - 1] == '.' {
        is_capital(text[i])
    } else {
        text[i] == '.' || is_capital(text[i]) || is_small_or_digit(text[i])
    }
}

/// Whether `text` is an identifier in the naming convention of C#
/// namespaces: one or more parts joined by single dots, each part a capital
/// letter followed by any number of ASCII letters and digits.
pub open spec fn is_id(text: Seq<char>) -> bool {
    &&& text.len() > 0
    &&& text.last() != '.'
    &&& forall|i: int| 0 <= i < text.len() ==> #[trigger] fits_id_at(text, i)
}

/// Whether `text` is a name: at least one character, and no tab or line
/// break.
pub open spec fn is_name(text: Seq<char>) -> bool {
    &&& text.len() > 0
    &&& forall|i: int|
        0 <= i < text.len() ==> {
            let c = #[trigger] text[i];
            c != '\n' && c != '\r' && c != '\t'
        }
}

/// Whether `text` is one line of a description: no line break in it.
pub open spec fn is_description_line(text: Seq<char>) -> bool {
    forall|i: int|
        0 <= i < text.len() ==> {
            let c = #[trigger] text[i];
            c != '\n' && c != '\r'
        }
}

/// Whether every text of `lines` is one line of a description.
pub open spec fn is_description(lines: Seq<String>) -> bool {
    forall|i: int| 0 <= i < lines.len() ==> is_description_line((#[trigger] lines[i])@)
}

/// Checks an identifier against the naming convention of C# namespaces.
pub fn matches_id(text: &str) -> (r: bool)
    ensures
        r == is_id(text@),
{
    let n = text.unicode_len();
    if n == 0 {
        return false;
    }
    let mut after_dot = true;
    let mut i: usize = 0;
    while i < n
        invariant
            n == text@.len(),
            i <= n,
            after_dot == (i == 0 || text@[i - 1] == '.'),
            forall|j: int| 0 <= j < i ==> #[trigger] fits_id_at(text@, j),
        decreases n - i,
    {
        let c = text.get_char(i);
        let capital = 'A' <= c && c <= 'Z';
        let fits = if after_dot {
            capital
        } else {
            c == '.' || capital || ('a' <= c && c <= 'z') || ('0' <= c && c <= '9')
        };
        if !fits {
            assert(!fits_id_at(text@, i as int));
            return false;
        }
        after_dot = c == '.';
        i = i + 1;
    }
    !after_dot
}

/// Checks a name: at least one character, no tab or line break.
pub fn matches_name(text: &str) -> (r: bool)
    ensures
        r == is_name(text@),
{
    let n = text.unicode_len();
    if n == 0 {
        return false;
    }
    let mut i: usize = 0;
    while i < n
        invariant
            n == text@.len(),
            i <= n,
            forall|j: int|
                0 <= j < i ==> {
                    let c = #[trigger] text@[j];
                    c != '\n' && c != '\r' && c != '\t'
                },
        decreases n - i,
    {
        let c = text.get_char(i);
        if c == '\n' || c == '\r' || c == '\t' {
            return false;
        }
        i = i + 1;
    }
    true
}

/// Checks one line of a description: no line break in it.
pub fn matches_description_line(text: &str) -> (r: bool)
    ensures
        r == is_description_line(text@),
{
    let n = text.unicode_len();
    let mut i: usize = 0;
    while i < n
        invariant
            n == text@.len(),
            i <= n,
            forall|j: int|
                0 <= j < i ==> {
                    let c = #[trigger] text@[j];
                    c != '\n' && c != '\r'
                },
        decreases n - i,
    {
        let c = text.get_char(i);
        if c == '\n' || c == '\r' {
            return false;
        }
        i = i + 1;
    }
    true
}

/// Checks every line of a description.
pub fn matches_description(lines: &Vec<String>) -> (r: bool)
    ensures
        r == is_description(lines@),
{
    let mut i: usize = 0;
    while i < lines.len()
        invariant
            i <= lines.len(),
            forall|j: int| 0 <= j < i ==> is_description_line((#[trigger] lines@[j])@),
        decreases lines.len() - i,
    {
        if !matches_description_line(lines[i].as_str()) {
            return false;
        }
        i = i + 1;
    }
    true
}

} // verus!
