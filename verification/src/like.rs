//! The pattern language of the search. In a pattern `%` stands for any run
//! of characters, also the empty one, and `_` for any single character;
//! every other character stands for itself, the letters A to Z and a to z
//! whatever their case.

use vstd::prelude::*;
use vstd::string::*;

verus! {

/// The number of a character after the letters A to Z were lowered.
pub open spec fn folded(c: char) -> u32 {
    if 65 <= c as u32 <= 90 {
        (c as u32 + 32) as u32
    } else {
        c as u32
    }
}

/// Whether the character `p` of a pattern admits the character `c`.
pub open spec fn admits_char(p: char, c: char) -> bool {
    p == '_' || folded(p) == folded(c)
}

/// Whether the pattern from position `i` on matches the text from position
/// `j` on.
pub open spec fn like_from(pattern: Seq<char>, text: Seq<char>, i: int, j: int) -> bool
    decreases pattern.len() - i, text.len() - j,
{
    if i >= pattern.len() {
        j >= text.len()
    } else if pattern[i] == '%' {
        if like_from(pattern, text, i + 1, j) {
            true
        } else if j < text.len() {
            like_from(pattern, text, i, j + 1)
        } else {
            false
        }
    } else if j >= text.len() {
        false
    } else if admits_char(pattern[i], text[j]) {
        like_from(pattern, text, i + 1, j + 1)
    } else {
        false
    }
}

/// Whether the pattern matches the whole text.
pub open spec fn like(pattern: Seq<char>, text: Seq<char>) -> bool {
    like_from(pattern, text, 0, 0)
}

/// The pattern that finds `query` anywhere in a text.
pub open spec fn containing(query: Seq<char>) -> Seq<char> {
    seq!['%'] + query + seq!['%']
}

/// The number of a character after the letters A to Z were lowered.
pub fn fold(c: char) -> (n: u32)
    ensures
        n == folded(c),
{
    let n: u32 = c as u32;
    if 65 <= n && n <= 90 {
        n + 32
    } else {
        n
    }
}

/// The characters of a text.
pub fn chars_of(text: &str) -> (chars: Vec<char>)
    ensures
        chars@ == text@,
{
    let n = text.unicode_len();
    let mut chars: Vec<char> = Vec::new();
    let mut i: usize = 0;
    while i < n
        invariant
            i <= n,
            n == text@.len(),
            chars@ == text@.take(i as int),
        decreases n - i,
    {
        chars.push(text.get_char(i));
        assert(text@.take(i + 1) =~= text@.take(i as int).push(text@[i as int]));
        i = i + 1;
    }
    assert(text@.take(n as int) =~= text@);
    chars
}

/// Builds the pattern that finds `query` anywhere in a text.
pub fn containing_pattern(query: &str) -> (pattern: Vec<char>)
    ensures
        pattern@ == containing(query@),
{
    let inner = chars_of(query);
    let n = inner.len();
    let mut pattern: Vec<char> = Vec::new();
    pattern.push('%');
    let mut i: usize = 0;
    while i < n
        invariant
            i <= n,
            n == inner.len(),
            pattern@ == seq!['%'] + inner@.take(i as int),
        decreases n - i,
    {
        pattern.push(inner[i]);
        assert(inner@.take(i + 1) =~= inner@.take(i as int).push(inner@[i as int]));
        assert(pattern@ =~= seq!['%'] + inner@.take(i + 1));
        i = i + 1;
    }
    pattern.push('%');
    assert(inner@.take(n as int) =~= inner@);
    assert(pattern@ =~= containing(query@));
    pattern
}

/// Decides whether a pattern matches a whole text.
pub fn like_match(pattern: &Vec<char>, text: &Vec<char>) -> (matched: bool)
    ensures
        matched == like(pattern@, text@),
{
    let n = pattern.len();
    let m = text.len();
    // While the pattern is walked from its end backwards, `row[j]` tells
    // whether the pattern from `i` on matches the text from `j` on, and
    // `at_end` tells the same for the empty rest of the text.
    let mut row: Vec<bool> = Vec::new();
    let mut at_end: bool = true;
    let mut j: usize = 0;
    while j < m
        invariant
            j <= m,
            m == text.len(),
            n == pattern.len(),
            row.len() == j,
            forall|k: int|
                0 <= k < j ==> (#[trigger] row[k]) == like_from(pattern@, text@, n as int, k),
        decreases m - j,
    {
        row.push(false);
        j = j + 1;
    }
    let mut i: usize = n;
    while i > 0
        invariant
            i <= n,
            m == text.len(),
            n == pattern.len(),
            row.len() == m,
            at_end == like_from(pattern@, text@, i as int, m as int),
            forall|k: int|
                0 <= k < m ==> (#[trigger] row[k]) == like_from(pattern@, text@, i as int, k),
        decreases i,
    {
        i = i - 1;
        let p = pattern[i];
        let ghost above = row@;
        let ghost above_end = at_end;
        if p == '%' {
            // A run may be empty, or take one more character of the text:
            // each entry needs the one after it, so fill from the end.
            let mut k: usize = m;
            let mut after: bool = at_end;
            while k > 0
                invariant
                    k <= m,
                    i < n,
                    m == text.len(),
                    n == pattern.len(),
                    row.len() == m,
                    above.len() == m,
                    pattern[i as int] == '%',
                    at_end == like_from(pattern@, text@, i as int, m as int),
                    after == like_from(pattern@, text@, i as int, k as int),
                    forall|q: int|
                        0 <= q < m ==> (#[trigger] above[q]) == like_from(
                            pattern@,
                            text@,
                            i + 1,
                            q,
                        ),
                    forall|q: int| 0 <= q < k ==> (#[trigger] row[q]) == above[q],
                    forall|q: int|
                        k <= q < m ==> (#[trigger] row[q]) == like_from(
                            pattern@,
                            text@,
                            i as int,
                            q,
                        ),
                decreases k,
            {
                k = k - 1;
                let here = row[k] || after;
                row[k] = here;
                after = here;
            }
        } else {
            // A single character takes one character of the text: each
            // entry needs the earlier row's entry after it, so fill from
            // the start.
            let any_one = p == '_';
            let wanted = fold(p);
            let mut k: usize = 0;
            while k < m
                invariant
                    k <= m,
                    i < n,
                    m == text.len(),
                    n == pattern.len(),
                    row.len() == m,
                    above.len() == m,
                    p == pattern[i as int],
                    p != '%',
                    any_one == (p == '_'),
                    wanted == folded(p),
                    at_end == above_end,
                    above_end == like_from(pattern@, text@, i + 1, m as int),
                    forall|q: int|
                        0 <= q < m ==> (#[trigger] above[q]) == like_from(
                            pattern@,
                            text@,
                            i + 1,
                            q,
                        ),
                    forall|q: int| k <= q < m ==> (#[trigger] row[q]) == above[q],
                    forall|q: int|
                        0 <= q < k ==> (#[trigger] row[q]) == like_from(
                            pattern@,
                            text@,
                            i as int,
                            q,
                        ),
                decreases m - k,
            {
                let next = if k + 1 < m {
                    row[k + 1]
                } else {
                    at_end
                };
                let here = (any_one || wanted == fold(text[k])) && next;
                row[k] = here;
                k = k + 1;
            }
            at_end = false;
        }
    }
    if m == 0 {
        at_end
    } else {
        row[0]
    }
}

} // verus!
