//! Editing a line of text by characters, with a cursor that counts
//! characters.

use vstd::prelude::*;
use crate::text::{chars_of, string_from};

verus! {

/// `position`, but not past the end of a text of `len` characters.
pub open spec fn clamped(position: nat, len: nat) -> nat {
    if position <= len {
        position
    } else {
        len
    }
}

/// The cursor one character to the left.
pub open spec fn left_of(index: usize, len: nat) -> usize {
    clamped(
        if index == 0 {
            0nat
        } else {
            (index - 1) as nat
        },
        len,
    ) as usize
}

/// The cursor one character to the right.
pub open spec fn right_of(index: usize, len: nat) -> usize {
    clamped(
        if index == usize::MAX {
            index as nat
        } else {
            (index + 1) as nat
        },
        len,
    ) as usize
}

/// The text with `c` put in at the cursor, or at its end where the
/// cursor stands behind it.
pub open spec fn with_char(text: Seq<char>, index: usize, c: char) -> Seq<char> {
    text.insert(clamped(index as nat, text.len()) as int, c)
}

/// The text without the character in front of the cursor.
pub open spec fn without_char(text: Seq<char>, index: usize) -> Seq<char> {
    if index == 0 {
        text
    } else {
        text.take(clamped((index - 1) as nat, text.len()) as int) + text.skip(
            clamped(index as nat, text.len()) as int,
        )
    }
}

/// Keeps a cursor inside a text of `len` characters.
pub fn clamp(position: usize, len: usize) -> (at: usize)
    ensures
        at == clamped(position as nat, len as nat),
{
    if position <= len {
        position
    } else {
        len
    }
}

/// Puts `c` into `input` at the cursor.
pub fn insert_char(input: &mut String, index: usize, c: char)
    ensures
        final(input)@ == with_char(old(input)@, index, c),
{
    let chars = chars_of(input.as_str());
    let at = clamp(index, chars.len());
    let mut out: Vec<char> = Vec::new();
    let mut i: usize = 0;
    while i < at
        invariant
            i <= at <= chars@.len(),
            out@ == chars@.subrange(0, i as int),
        decreases at - i,
    {
        out.push(chars[i]);
        assert(out@ =~= chars@.subrange(0, i + 1));
        i += 1;
    }
    out.push(c);
    while i < chars.len()
        invariant
            at <= i <= chars@.len(),
            out@ == chars@.subrange(0, at as int).push(c) + chars@.subrange(at as int, i as int),
        decreases chars@.len() - i,
    {
        out.push(chars[i]);
        assert(out@ =~= chars@.subrange(0, at as int).push(c) + chars@.subrange(
            at as int,
            i + 1,
        ));
        i += 1;
    }
    assert(out@ =~= chars@.insert(at as int, c));
    *input = string_from(&out);
}

/// Takes the character in front of the cursor out of `input`.
pub fn remove_char(input: &mut String, index: usize)
    ensures
        final(input)@ == without_char(old(input)@, index),
{
    if index == 0 {
        return ;
    }
    let chars = chars_of(input.as_str());
    let keep = clamp(index - 1, chars.len());
    let from = clamp(index, chars.len());
    let mut out: Vec<char> = Vec::new();
    let mut i: usize = 0;
    while i < keep
        invariant
            i <= keep <= chars@.len(),
            out@ == chars@.subrange(0, i as int),
        decreases keep - i,
    {
        out.push(chars[i]);
        assert(out@ =~= chars@.subrange(0, i + 1));
        i += 1;
    }
    let mut j: usize = from;
    while j < chars.len()
        invariant
            from <= j <= chars@.len(),
            keep <= chars@.len(),
            out@ == chars@.subrange(0, keep as int) + chars@.subrange(from as int, j as int),
        decreases chars@.len() - j,
    {
        out.push(chars[j]);
        assert(out@ =~= chars@.subrange(0, keep as int) + chars@.subrange(from as int, j + 1));
        j += 1;
    }
    assert(out@ =~= chars@.take(keep as int) + chars@.skip(from as int));
    *input = string_from(&out);
}

/// How many characters `input` has.
pub fn char_count(input: &String) -> (len: usize)
    ensures
        len == input@.len(),
{
    chars_of(input.as_str()).len()
}

} // verus!
