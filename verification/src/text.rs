//! Strings as sequences of characters: the few operations that the rest
//! of the library needs, each with an exact contract.

use vstd::prelude::*;
use vstd::string::StrSliceExecFns;

verus! {

/// The ASCII lower-case form of `c`; other characters stay as they are.
pub open spec fn ascii_lower(c: char) -> char {
    if 65 <= c as u32 && c as u32 <= 90 {
        ((c as u32) + 32) as char
    } else {
        c
    }
}

/// The ASCII upper-case form of `c`; other characters stay as they are.
pub open spec fn ascii_upper(c: char) -> char {
    if 97 <= c as u32 && c as u32 <= 122 {
        ((c as u32) - 32) as char
    } else {
        c
    }
}

/// `s` with every character in ASCII lower case.
pub open spec fn lowered(s: Seq<char>) -> Seq<char> {
    Seq::new(s.len(), |i: int| ascii_lower(s[i]))
}

/// `char::to_ascii_lowercase` of the standard library: the letters `A` to
/// `Z` map to `a` to `z`, every other character to itself.
pub assume_specification[ char::to_ascii_lowercase ](c: &char) -> (lower: char)
    ensures
        lower == ascii_lower(*c),
;

/// `char::to_ascii_uppercase` of the standard library: the letters `a` to
/// `z` map to `A` to `Z`, every other character to itself.
pub assume_specification[ char::to_ascii_uppercase ](c: &char) -> (upper: char)
    ensures
        upper == ascii_upper(*c),
;

/// `String::push` of the standard library appends one character.
pub assume_specification[ String::push ](s: &mut String, c: char)
    ensures
        final(s)@ == old(s)@.push(c),
;

/// The characters of `s`, in order.
pub fn chars_of(s: &str) -> (chars: Vec<char>)
    ensures
        chars@ == s@,
{
    let n = s.unicode_len();
    let mut chars: Vec<char> = Vec::new();
    let mut i: usize = 0;
    while i < n
        invariant
            i <= n,
            n == s@.len(),
            chars@ == s@.subrange(0, i as int),
        decreases n - i,
    {
        chars.push(s.get_char(i));
        assert(chars@ =~= s@.subrange(0, i + 1));
        i += 1;
    }
    assert(chars@ =~= s@);
    chars
}

/// The string made of `chars[from..to]`.
pub fn string_of(chars: &Vec<char>, from: usize, to: usize) -> (s: String)
    requires
        from <= to <= chars@.len(),
    ensures
        s@ == chars@.subrange(from as int, to as int),
{
    let mut s = String::new();
    let mut i: usize = from;
    while i < to
        invariant
            from <= i <= to <= chars@.len(),
            s@ == chars@.subrange(from as int, i as int),
        decreases to - i,
    {
        s.push(chars[i]);
        assert(s@ =~= chars@.subrange(from as int, i + 1));
        i += 1;
    }
    s
}

/// The string made of `chars`.
pub fn string_from(chars: &Vec<char>) -> (s: String)
    ensures
        s@ == chars@,
{
    let s = string_of(chars, 0, chars.len());
    assert(chars@.subrange(0, chars@.len() as int) =~= chars@);
    s
}

/// Whether `chars[from..to]` spells `word`.
pub fn spells(chars: &Vec<char>, from: usize, to: usize, word: &str) -> (same: bool)
    requires
        from <= to <= chars@.len(),
    ensures
        same == (chars@.subrange(from as int, to as int) == word@),
{
    let n = word.unicode_len();
    if to - from != n {
        return false;
    }
    let mut i: usize = 0;
    while i < n
        invariant
            i <= n,
            n == word@.len(),
            to - from == n,
            to <= chars@.len(),
            forall|k: int| 0 <= k < i ==> chars@[from + k] == word@[k],
        decreases n - i,
    {
        if chars[from + i] != word.get_char(i) {
            assert(chars@.subrange(from as int, to as int)[i as int] != word@[i as int]);
            return false;
        }
        i += 1;
    }
    assert(chars@.subrange(from as int, to as int) =~= word@);
    true
}

/// Whether `text` is `word`.
pub fn same_text(text: &str, word: &str) -> (same: bool)
    ensures
        same == (text@ == word@),
{
    let chars = chars_of(text);
    assert(chars@.subrange(0, chars@.len() as int) =~= chars@);
    spells(&chars, 0, chars.len(), word)
}

/// Whether `chars[from..]` begins with `word`.
pub fn begins_with(chars: &Vec<char>, from: usize, word: &str) -> (yes: bool)
    requires
        from <= chars@.len(),
    ensures
        yes == (from + word@.len() <= chars@.len() && chars@.subrange(
            from as int,
            from + word@.len(),
        ) == word@),
{
    let n = word.unicode_len();
    if chars.len() - from < n {
        return false;
    }
    spells(chars, from, from + n, word)
}

/// The decimal digits of `n`, most significant first.
pub open spec fn decimal(n: nat) -> Seq<char>
    decreases n,
{
    if n < 10 {
        seq![digit(n)]
    } else {
        decimal(n / 10).push(digit(n % 10))
    }
}

/// The character that writes the digit `d`.
pub open spec fn digit(d: nat) -> char {
    (48 + d) as char
}

/// Appends the decimal digits of `n` to `out`.
pub fn push_decimal(out: &mut Vec<char>, n: u64)
    ensures
        final(out)@ == old(out)@ + decimal(n as nat),
    decreases n,
{
    if n < 10 {
        let d: u8 = 48 + n as u8;
        out.push(d as char);
        assert(final(out)@ =~= old(out)@ + decimal(n as nat));
    } else {
        push_decimal(out, n / 10);
        let d: u8 = 48 + (n % 10) as u8;
        out.push(d as char);
        assert(out@ =~= old(out)@ + decimal(n as nat));
    }
}

/// Appends the characters of `word` to `out`.
pub fn push_str(out: &mut Vec<char>, word: &str)
    ensures
        final(out)@ == old(out)@ + word@,
{
    let n = word.unicode_len();
    let mut i: usize = 0;
    while i < n
        invariant
            i <= n,
            n == word@.len(),
            out@ == old(out)@ + word@.subrange(0, i as int),
        decreases n - i,
    {
        out.push(word.get_char(i));
        assert(out@ =~= old(out)@ + word@.subrange(0, i + 1));
        i += 1;
    }
    assert(word@.subrange(0, n as int) =~= word@);
}

/// A copy of `chars[from..to]`.
pub fn copy_range(chars: &Vec<char>, from: usize, to: usize) -> (out: Vec<char>)
    requires
        from <= to <= chars@.len(),
    ensures
        out@ == chars@.subrange(from as int, to as int),
{
    let mut out: Vec<char> = Vec::new();
    let mut i: usize = from;
    while i < to
        invariant
            from <= i <= to <= chars@.len(),
            out@ == chars@.subrange(from as int, i as int),
        decreases to - i,
    {
        out.push(chars[i]);
        assert(out@ =~= chars@.subrange(from as int, i + 1));
        i += 1;
    }
    out
}

/// How often `c` occurs in `s`.
pub open spec fn occurrences(s: Seq<char>, c: char) -> nat
    decreases s.len(),
{
    if s.len() == 0 {
        0
    } else {
        occurrences(s.drop_last(), c) + if s.last() == c {
            1nat
        } else {
            0nat
        }
    }
}

/// How many lines `s` has: one for every line feed, and one more for
/// what follows the last line feed, if anything does.
pub open spec fn line_count(s: Seq<char>) -> nat {
    occurrences(s, '\n') + if s.len() > 0 && s.last() != '\n' {
        1nat
    } else {
        0nat
    }
}

/// A character occurs in a text no more often than the text is long.
pub proof fn lemma_occurrences_bounded(s: Seq<char>, c: char)
    ensures
        occurrences(s, c) <= s.len(),
    decreases s.len(),
{
    if s.len() > 0 {
        lemma_occurrences_bounded(s.drop_last(), c);
    }
}

/// Counts the lines of `text`.
pub fn count_lines(text: &str) -> (lines: usize)
    ensures
        lines == line_count(text@),
{
    let chars = chars_of(text);
    let n = chars.len();
    let mut lines: usize = 0;
    let mut i: usize = 0;
    while i < n
        invariant
            i <= n,
            n == chars@.len(),
            lines <= i,
            lines == occurrences(chars@.subrange(0, i as int), '\n'),
        decreases n - i,
    {
        assert(chars@.subrange(0, i + 1).drop_last() =~= chars@.subrange(0, i as int));
        if chars[i] == '\n' {
            lines += 1;
        }
        i += 1;
    }
    assert(chars@.subrange(0, n as int) =~= chars@);
    if n > 0 && chars[n - 1] != '\n' {
        proof {
            lemma_occurrences_bounded(chars@.drop_last(), '\n');
        }
        lines += 1;
    }
    lines
}

/// `s` without every occurrence of `pattern`, found from the left and
/// not overlapping, where the search stands at `i` and `out` is what
/// was kept of `s[..i]`.
pub open spec fn removed_from(s: Seq<char>, pattern: Seq<char>, i: int, out: Seq<char>) -> Seq<
    char,
>
    decreases s.len() - i,
{
    if pattern.len() == 0 || i < 0 || i >= s.len() {
        out
    } else if i + pattern.len() <= s.len() && s.subrange(i, i + pattern.len()) == pattern {
        removed_from(s, pattern, i + pattern.len(), out)
    } else {
        removed_from(s, pattern, i + 1, out.push(s[i]))
    }
}

/// `s` without every occurrence of `pattern`.
pub open spec fn removed(s: Seq<char>, pattern: Seq<char>) -> Seq<char> {
    removed_from(s, pattern, 0, Seq::<char>::empty())
}

/// `text` without every occurrence of `pattern`, which is not empty.
pub fn remove_all(text: &str, pattern: &str) -> (out: String)
    requires
        pattern@.len() > 0,
    ensures
        out@ == removed(text@, pattern@),
{
    let chars = chars_of(text);
    let n = chars.len();
    let m = pattern.unicode_len();
    let mut out: Vec<char> = Vec::new();
    let mut i: usize = 0;
    while i < n
        invariant
            i <= n,
            n == chars@.len(),
            chars@ == text@,
            m == pattern@.len(),
            m > 0,
            removed(text@, pattern@) == removed_from(text@, pattern@, i as int, out@),
        decreases n - i,
    {
        if begins_with(&chars, i, pattern) {
            i = i + m;
        } else {
            out.push(chars[i]);
            i += 1;
        }
    }
    string_from(&out)
}

} // verus!
