//! Character classes and index scans over sequences of characters.
//!
//! These are the building blocks of the line grammar: Unicode whitespace
//! (the set that `str::trim` and the `\s` class recognize), identifier
//! characters, first occurrence of a character, and whitespace trimming.

use vstd::prelude::*;

verus! {

/// A Unicode whitespace character (the `White_Space` property).
pub open spec fn is_space(c: char) -> bool {
    ||| c as u32 == 0x09
    ||| c as u32 == 0x0A
    ||| c as u32 == 0x0B
    ||| c as u32 == 0x0C
    ||| c as u32 == 0x0D
    ||| c as u32 == 0x20
    ||| c as u32 == 0x85
    ||| c as u32 == 0xA0
    ||| c as u32 == 0x1680
    ||| (0x2000 <= c as u32 && c as u32 <= 0x200A)
    ||| c as u32 == 0x2028
    ||| c as u32 == 0x2029
    ||| c as u32 == 0x202F
    ||| c as u32 == 0x205F
    ||| c as u32 == 0x3000
}

/// An identifier character of the message grammar: a letter, a digit,
/// an underscore or a hyphen.
pub open spec fn is_ident_char(c: char) -> bool {
    ||| (0x61 <= c as u32 && c as u32 <= 0x7A)
    ||| (0x41 <= c as u32 && c as u32 <= 0x5A)
    ||| (0x30 <= c as u32 && c as u32 <= 0x39)
    ||| c as u32 == 0x5F
    ||| c as u32 == 0x2D
}

pub fn space_char(c: char) -> (r: bool)
    ensures
        r == is_space(c),
{
    let n = c as u32;
    n == 0x09 || n == 0x0A || n == 0x0B || n == 0x0C || n == 0x0D || n == 0x20 || n == 0x85
        || n == 0xA0 || n == 0x1680 || (0x2000 <= n && n <= 0x200A) || n == 0x2028 || n == 0x2029
        || n == 0x202F || n == 0x205F || n == 0x3000
}

pub fn ident_char(c: char) -> (r: bool)
    ensures
        r == is_ident_char(c),
{
    let n = c as u32;
    (0x61 <= n && n <= 0x7A) || (0x41 <= n && n <= 0x5A) || (0x30 <= n && n <= 0x39) || n == 0x5F
        || n == 0x2D
}

/// The first index at or after `i` whose character is not whitespace,
/// or the length of `s` if all of them are.
pub open spec fn skip_ws(s: Seq<char>, i: int) -> int
    decreases s.len() - i
        when 0 <= i <= s.len()
{
    if i == s.len() {
        i
    } else if is_space(s[i]) {
        skip_ws(s, i + 1)
    } else {
        i
    }
}

/// The first index at or after `i` holding `c`, or the length of `s` if none does.
pub open spec fn find_at(s: Seq<char>, i: int, c: char) -> int
    decreases s.len() - i
        when 0 <= i <= s.len()
{
    if i == s.len() {
        i
    } else if s[i] == c {
        i
    } else {
        find_at(s, i + 1, c)
    }
}

pub proof fn lemma_find_at_bounds(s: Seq<char>, i: int, c: char)
    requires
        0 <= i <= s.len(),
    ensures
        i <= find_at(s, i, c) <= s.len(),
        find_at(s, i, c) < s.len() ==> s[find_at(s, i, c)] == c,
    decreases s.len() - i,
{
    if i < s.len() && s[i] != c {
        lemma_find_at_bounds(s, i + 1, c);
    }
}

/// The end of `s`'s content once trailing whitespace before index `i` is dropped:
/// the least upper bound of the non-whitespace prefix ending at or before `i`.
pub open spec fn rtrim_end(s: Seq<char>, i: int) -> int
    decreases i
        when 0 <= i <= s.len()
{
    if i == 0 {
        0
    } else if is_space(s[i - 1]) {
        rtrim_end(s, i - 1)
    } else {
        i
    }
}

/// `s` with leading and trailing whitespace removed.
pub open spec fn trim_of(s: Seq<char>) -> Seq<char> {
    let a = skip_ws(s, 0);
    if a == s.len() {
        Seq::empty()
    } else {
        s.subrange(a, rtrim_end(s, s.len() as int))
    }
}

/// Advances `from` past whitespace; mirrors `skip_ws`.
pub fn scan_ws(s: &str, from: usize) -> (r: usize)
    requires
        from <= s@.len(),
    ensures
        r as int == skip_ws(s@, from as int),
        from <= r <= s@.len(),
        r < s@.len() ==> !is_space(s@[r as int]),
{
    let n = s.unicode_len();
    let mut j = from;
    while j < n && space_char(s.get_char(j))
        invariant
            from <= j <= n,
            n == s@.len(),
            skip_ws(s@, from as int) == skip_ws(s@, j as int),
        decreases n - j,
    {
        j = j + 1;
    }
    j
}

/// Finds the first occurrence of `c` at or after `from`; mirrors `find_at`.
pub fn scan_char(s: &str, from: usize, c: char) -> (r: usize)
    requires
        from <= s@.len(),
    ensures
        r as int == find_at(s@, from as int, c),
        from <= r <= s@.len(),
        r < s@.len() ==> s@[r as int] == c,
{
    let n = s.unicode_len();
    let mut j = from;
    while j < n && s.get_char(j) != c
        invariant
            from <= j <= n,
            n == s@.len(),
            find_at(s@, from as int, c) == find_at(s@, j as int, c),
        decreases n - j,
    {
        j = j + 1;
    }
    j
}

/// The trimmed window of `s`; its view is `trim_of(s@)`.
pub fn trim_str<'a>(s: &'a str) -> (r: &'a str)
    ensures
        r@ == trim_of(s@),
{
    let n = s.unicode_len();
    let a = scan_ws(s, 0);
    if a == n {
        let empty = s.substring_char(0, 0);
        assert(empty@ =~= trim_of(s@));
        empty
    } else {
        let mut b = n;
        while space_char(s.get_char(b - 1))
            invariant
                a < b <= n,
                n == s@.len(),
                a as int == skip_ws(s@, 0),
                a < s@.len() && !is_space(s@[a as int]),
                rtrim_end(s@, n as int) == rtrim_end(s@, b as int),
            decreases b,
        {
            b = b - 1;
        }
        let r = s.substring_char(a, b);
        assert(r@ =~= trim_of(s@));
        r
    }
}

} // verus!
