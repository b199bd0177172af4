//! The written form of keys: `ctrl-alt-a`, `<q>`, `<g><g>`.
//!
//! A key is written as any number of the prefixes `ctrl-`, `alt-` and
//! `shift-` followed by the name of a key or a single ASCII character.
//! Letter case does not matter. A sequence is written as keys in angle
//! brackets, one after the other.

use vstd::prelude::*;
use vstd::string::StrSliceExecFns;
use crate::bindings::press;
use crate::error::Error;
use crate::keys::{KeyCode, KeyEvent, KeyModifiers};
use crate::text::{ascii_upper, begins_with, chars_of, decimal, lowered, push_decimal, push_str, spells, string_from, string_of};

verus! {

/// The bit of the shift key.
pub const SHIFT: u8 = 1;

/// The bit of the control key.
pub const CONTROL: u8 = 2;

/// The bit of the alt key.
pub const ALT: u8 = 4;

/// Whether `s` begins with `p`.
pub open spec fn has_prefix(s: Seq<char>, p: Seq<char>) -> bool {
    p.len() <= s.len() && s.subrange(0, p.len() as int) == p
}

/// The modifier that `raw` begins with: its length in characters and
/// its bit.
pub open spec fn modifier_prefix(raw: Seq<char>) -> Option<(int, u8)> {
    if has_prefix(raw, "ctrl-"@) {
        Some((5, CONTROL))
    } else if has_prefix(raw, "alt-"@) {
        Some((4, ALT))
    } else if has_prefix(raw, "shift-"@) {
        Some((6, SHIFT))
    } else {
        None
    }
}

/// `raw` without its leading modifiers, and `bits` joined with theirs.
pub open spec fn split_modifiers(raw: Seq<char>, bits: u8) -> (Seq<char>, u8)
    decreases raw.len(),
{
    match modifier_prefix(raw) {
        Some((n, bit)) => if 0 < n <= raw.len() {
            split_modifiers(raw.skip(n), bits | bit)
        } else {
            (raw, bits)
        },
        None => (raw, bits),
    }
}

/// The key that `name` names, for the keys that have a name.
pub open spec fn named_key(name: Seq<char>) -> Option<KeyCode> {
    if name == "esc"@ {
        Some(KeyCode::Esc)
    } else if name == "enter"@ {
        Some(KeyCode::Enter)
    } else if name == "left"@ {
        Some(KeyCode::Left)
    } else if name == "right"@ {
        Some(KeyCode::Right)
    } else if name == "up"@ {
        Some(KeyCode::Up)
    } else if name == "down"@ {
        Some(KeyCode::Down)
    } else if name == "home"@ {
        Some(KeyCode::Home)
    } else if name == "end"@ {
        Some(KeyCode::End)
    } else if name == "pageup"@ {
        Some(KeyCode::PageUp)
    } else if name == "pagedown"@ {
        Some(KeyCode::PageDown)
    } else if name == "backtab"@ || name == "back tab"@ {
        Some(KeyCode::BackTab)
    } else if name == "backspace"@ {
        Some(KeyCode::Backspace)
    } else if name == "delete"@ {
        Some(KeyCode::Delete)
    } else if name == "insert"@ {
        Some(KeyCode::Insert)
    } else if name == "f1"@ {
        Some(KeyCode::F(1))
    } else if name == "f2"@ {
        Some(KeyCode::F(2))
    } else if name == "f3"@ {
        Some(KeyCode::F(3))
    } else if name == "f4"@ {
        Some(KeyCode::F(4))
    } else if name == "f5"@ {
        Some(KeyCode::F(5))
    } else if name == "f6"@ {
        Some(KeyCode::F(6))
    } else if name == "f7"@ {
        Some(KeyCode::F(7))
    } else if name == "f8"@ {
        Some(KeyCode::F(8))
    } else if name == "f9"@ {
        Some(KeyCode::F(9))
    } else if name == "f10"@ {
        Some(KeyCode::F(10))
    } else if name == "f11"@ {
        Some(KeyCode::F(11))
    } else if name == "f12"@ {
        Some(KeyCode::F(12))
    } else if name == "space"@ {
        Some(KeyCode::Char(' '))
    } else if name == "hyphen"@ || name == "minus"@ {
        Some(KeyCode::Char('-'))
    } else if name == "tab"@ {
        Some(KeyCode::Tab)
    } else {
        None
    }
}

/// The key that `name` stands for under the modifier `bits`, with the
/// bits it ends up with: a named key, where the back tab brings its own
/// shift, or else a single ASCII character, in upper case under shift.
pub open spec fn key_code_of(name: Seq<char>, bits: u8) -> Option<(KeyCode, u8)> {
    match named_key(name) {
        Some(KeyCode::BackTab) => Some((KeyCode::BackTab, bits | SHIFT)),
        Some(code) => Some((code, bits)),
        None => if name.len() == 1 && (name[0] as u32) < 128 {
            if bits & SHIFT != 0 {
                Some((KeyCode::Char(ascii_upper(name[0])), bits))
            } else {
                Some((KeyCode::Char(name[0]), bits))
            }
        } else {
            None
        },
    }
}

/// What is left of `raw` once it is in lower case and its modifiers are
/// taken off: the part that has to name a key.
pub open spec fn key_part(raw: Seq<char>) -> Seq<char> {
    split_modifiers(lowered(raw), 0).0
}

/// The key event that `raw` writes, if it writes one.
pub open spec fn parsed_key(raw: Seq<char>) -> Option<KeyEvent> {
    let (name, bits) = split_modifiers(lowered(raw), 0);
    match key_code_of(name, bits) {
        Some((code, all)) => Some(press(code, all)),
        None => None,
    }
}

/// `e` reports `text` as something that names no key.
pub open spec fn invalid_key(e: Error, text: Seq<char>) -> bool {
    e matches Error::InvalidKeyEvent(t) && t@ == text
}

fn named(chars: &Vec<char>, from: usize) -> (code: Option<KeyCode>)
    requires
        from <= chars@.len(),
    ensures
        code == named_key(chars@.subrange(from as int, chars@.len() as int)),
{
    let to = chars.len();
    if spells(chars, from, to, "esc") {
        Some(KeyCode::Esc)
    } else if spells(chars, from, to, "enter") {
        Some(KeyCode::Enter)
    } else if spells(chars, from, to, "left") {
        Some(KeyCode::Left)
    } else if spells(chars, from, to, "right") {
        Some(KeyCode::Right)
    } else if spells(chars, from, to, "up") {
        Some(KeyCode::Up)
    } else if spells(chars, from, to, "down") {
        Some(KeyCode::Down)
    } else if spells(chars, from, to, "home") {
        Some(KeyCode::Home)
    } else if spells(chars, from, to, "end") {
        Some(KeyCode::End)
    } else if spells(chars, from, to, "pageup") {
        Some(KeyCode::PageUp)
    } else if spells(chars, from, to, "pagedown") {
        Some(KeyCode::PageDown)
    } else if spells(chars, from, to, "backtab") || spells(chars, from, to, "back tab") {
        Some(KeyCode::BackTab)
    } else if spells(chars, from, to, "backspace") {
        Some(KeyCode::Backspace)
    } else if spells(chars, from, to, "delete") {
        Some(KeyCode::Delete)
    } else if spells(chars, from, to, "insert") {
        Some(KeyCode::Insert)
    } else if spells(chars, from, to, "f1") {
        Some(KeyCode::F(1))
    } else if spells(chars, from, to, "f2") {
        Some(KeyCode::F(2))
    } else if spells(chars, from, to, "f3") {
        Some(KeyCode::F(3))
    } else if spells(chars, from, to, "f4") {
        Some(KeyCode::F(4))
    } else if spells(chars, from, to, "f5") {
        Some(KeyCode::F(5))
    } else if spells(chars, from, to, "f6") {
        Some(KeyCode::F(6))
    } else if spells(chars, from, to, "f7") {
        Some(KeyCode::F(7))
    } else if spells(chars, from, to, "f8") {
        Some(KeyCode::F(8))
    } else if spells(chars, from, to, "f9") {
        Some(KeyCode::F(9))
    } else if spells(chars, from, to, "f10") {
        Some(KeyCode::F(10))
    } else if spells(chars, from, to, "f11") {
        Some(KeyCode::F(11))
    } else if spells(chars, from, to, "f12") {
        Some(KeyCode::F(12))
    } else if spells(chars, from, to, "space") {
        Some(KeyCode::Char(' '))
    } else if spells(chars, from, to, "hyphen") || spells(chars, from, to, "minus") {
        Some(KeyCode::Char('-'))
    } else if spells(chars, from, to, "tab") {
        Some(KeyCode::Tab)
    } else {
        None
    }
}

/// Takes the leading modifiers off `chars[from..]`: where the key's name
/// starts, and the modifiers that came before it.
fn skip_modifiers(chars: &Vec<char>) -> (r: (usize, KeyModifiers))
    ensures
        r.0 <= chars@.len(),
        (chars@.subrange(r.0 as int, chars@.len() as int), r.1.bits) == split_modifiers(
            chars@,
            0,
        ),
{
    let mut from: usize = 0;
    let mut bits: u8 = 0;
    let n = chars.len();
    proof {
        reveal_strlit("ctrl-");
        reveal_strlit("alt-");
        reveal_strlit("shift-");
        assert(chars@.subrange(0, chars@.len() as int) =~= chars@);
    }
    loop
        invariant
            from <= chars@.len(),
            n == chars@.len(),
            "ctrl-"@.len() == 5,
            "alt-"@.len() == 4,
            "shift-"@.len() == 6,
            split_modifiers(chars@, 0) == split_modifiers(
                chars@.subrange(from as int, chars@.len() as int),
                bits,
            ),
        ensures
            from <= chars@.len(),
            (chars@.subrange(from as int, chars@.len() as int), bits) == split_modifiers(
                chars@,
                0,
            ),
        decreases chars@.len() - from,
    {
        let ghost rest = chars@.subrange(from as int, chars@.len() as int);
        let ctrl = begins_with(chars, from, "ctrl-");
        let alt = begins_with(chars, from, "alt-");
        let shift = begins_with(chars, from, "shift-");
        proof {
            assert(ctrl ==> rest.subrange(0, 5) =~= chars@.subrange(from as int, from + 5));
            assert(!ctrl && from + 5 <= chars@.len() ==> rest.subrange(0, 5) =~= chars@.subrange(
                from as int,
                from + 5,
            ));
            assert(from + 4 <= chars@.len() ==> rest.subrange(0, 4) =~= chars@.subrange(
                from as int,
                from + 4,
            ));
            assert(from + 6 <= chars@.len() ==> rest.subrange(0, 6) =~= chars@.subrange(
                from as int,
                from + 6,
            ));
            assert(ctrl == has_prefix(rest, "ctrl-"@));
            assert(alt == has_prefix(rest, "alt-"@));
            assert(shift == has_prefix(rest, "shift-"@));
        }
        if ctrl {
            assert(rest.skip(5) =~= chars@.subrange(from + 5, chars@.len() as int));
            bits = bits | CONTROL;
            from = from + 5;
        } else if alt {
            assert(rest.skip(4) =~= chars@.subrange(from + 4, chars@.len() as int));
            bits = bits | ALT;
            from = from + 4;
        } else if shift {
            assert(rest.skip(6) =~= chars@.subrange(from + 6, chars@.len() as int));
            bits = bits | SHIFT;
            from = from + 6;
        } else {
            break ;
        }
    }
    (from, KeyModifiers { bits })
}

/// Splits the modifiers off the front of `raw`, which is in lower case:
/// the rest of `raw`, and the modifiers found.
pub fn extract_modifiers(raw: &str) -> (r: (&str, KeyModifiers))
    ensures
        (r.0@, r.1.bits) == split_modifiers(raw@, 0),
{
    let chars = chars_of(raw);
    let (from, modifiers) = skip_modifiers(&chars);
    (raw.substring_char(from, chars.len()), modifiers)
}

fn code_with_modifiers(chars: &Vec<char>, from: usize, modifiers: KeyModifiers) -> (key: Option<
    KeyEvent,
>)
    requires
        from <= chars@.len(),
    ensures
        key == match key_code_of(
            chars@.subrange(from as int, chars@.len() as int),
            modifiers.bits,
        ) {
            Some((code, bits)) => Some(press(code, bits)),
            None => None,
        },
{
    let ghost name = chars@.subrange(from as int, chars@.len() as int);
    match named(chars, from) {
        Some(KeyCode::BackTab) => Some(
            KeyEvent::new(KeyCode::BackTab, KeyModifiers { bits: modifiers.bits | SHIFT }),
        ),
        Some(code) => Some(KeyEvent::new(code, modifiers)),
        None => {
            if chars.len() - from == 1 && (chars[from] as u32) < 128 {
                assert(name[0] == chars@[from as int]);
                let c = if modifiers.bits & SHIFT != 0 {
                    chars[from].to_ascii_uppercase()
                } else {
                    chars[from]
                };
                Some(KeyEvent::new(KeyCode::Char(c), modifiers))
            } else {
                None
            }
        },
    }
}

/// Reads the name of a key, written in lower case and without modifier
/// prefixes, as the key pressed under `modifiers`.
pub fn parse_key_code_with_modifiers(raw: &str, modifiers: KeyModifiers) -> (r: Result<
    KeyEvent,
    Error,
>)
    ensures
        match r {
            Ok(key) => key_code_of(raw@, modifiers.bits) matches Some((code, bits)) && key
                == press(code, bits),
            Err(e) => key_code_of(raw@, modifiers.bits).is_none() && invalid_key(e, raw@),
        },
{
    let chars = chars_of(raw);
    assert(chars@.subrange(0, chars@.len() as int) =~= raw@);
    match code_with_modifiers(&chars, 0, modifiers) {
        Some(key) => Ok(key),
        None => Err(Error::InvalidKeyEvent(string_from(&chars))),
    }
}

fn lower_chars(raw: &Vec<char>, from: usize, to: usize) -> (out: Vec<char>)
    requires
        from <= to <= raw@.len(),
    ensures
        out@ == lowered(raw@.subrange(from as int, to as int)),
{
    let mut out: Vec<char> = Vec::new();
    let mut i: usize = from;
    while i < to
        invariant
            from <= i <= to <= raw@.len(),
            out@ == lowered(raw@.subrange(from as int, i as int)),
        decreases to - i,
    {
        out.push(raw[i].to_ascii_lowercase());
        assert(out@ =~= lowered(raw@.subrange(from as int, i + 1)));
        i += 1;
    }
    out
}

fn parse_chars(raw: &Vec<char>, from: usize, to: usize) -> (r: Result<KeyEvent, Error>)
    requires
        from <= to <= raw@.len(),
    ensures
        match r {
            Ok(key) => parsed_key(raw@.subrange(from as int, to as int)) == Some(key),
            Err(e) => parsed_key(raw@.subrange(from as int, to as int)).is_none() && invalid_key(
                e,
                key_part(raw@.subrange(from as int, to as int)),
            ),
        },
{
    let lower = lower_chars(raw, from, to);
    let (start, modifiers) = skip_modifiers(&lower);
    match code_with_modifiers(&lower, start, modifiers) {
        Some(key) => Ok(key),
        None => Err(Error::InvalidKeyEvent(string_of(&lower, start, lower.len()))),
    }
}

/// Reads one key, such as `ctrl-alt-a`. Where `raw` names no key, the
/// error holds the part of it that should have.
pub fn parse_key_event(raw: &str) -> (r: Result<KeyEvent, Error>)
    ensures
        match r {
            Ok(key) => parsed_key(raw@) == Some(key),
            Err(e) => parsed_key(raw@).is_none() && invalid_key(e, key_part(raw@)),
        },
{
    let chars = chars_of(raw);
    assert(chars@.subrange(0, chars@.len() as int) =~= raw@);
    parse_chars(&chars, 0, chars.len())
}


/// How often `c` occurs in `s`.
pub open spec fn count_char(s: Seq<char>, c: char) -> nat
    decreases s.len(),
{
    if s.len() == 0 {
        0
    } else {
        count_char(s.drop_last(), c) + if s.last() == c {
            1nat
        } else {
            0nat
        }
    }
}

/// `s` closes as many angle brackets as it opens.
pub open spec fn balanced(s: Seq<char>) -> bool {
    count_char(s, '<') == count_char(s, '>')
}

/// One key ends at `i` and the next begins right after: `s` reads `><`
/// there.
pub open spec fn seam_at(s: Seq<char>, i: int) -> bool {
    0 <= i && i + 1 < s.len() && s[i] == '>' && s[i + 1] == '<'
}

/// `s` without the bracket it opens with, where it writes a single key.
/// Where it writes several, it stays whole.
pub open spec fn unbracketed(s: Seq<char>) -> Seq<char> {
    if exists|i: int| seam_at(s, i) {
        s
    } else {
        let opened = if s.len() > 0 && s[0] == '<' {
            s.skip(1)
        } else {
            s
        };
        if opened.len() > 0 && opened[0] == '>' {
            opened.skip(1)
        } else {
            opened
        }
    }
}

/// The pieces into which the seams of `s` cut `s[start..]`, where the
/// search for the next seam stands at `i`. Seams are taken from the
/// left and do not overlap.
pub open spec fn pieces_from(s: Seq<char>, start: int, i: int) -> Seq<Seq<char>>
    decreases s.len() - i,
{
    if !(0 <= start <= i) || i + 1 >= s.len() {
        seq![s.subrange(start, s.len() as int)]
    } else if seam_at(s, i) {
        seq![s.subrange(start, i)] + pieces_from(s, i + 2, i + 2)
    } else {
        pieces_from(s, start, i + 1)
    }
}

/// A piece without the bracket that the cut left on it: the opening
/// one, or else the closing one.
pub open spec fn bare(piece: Seq<char>) -> Seq<char> {
    if piece.len() > 0 && piece[0] == '<' {
        piece.skip(1)
    } else if piece.len() > 0 && piece.last() == '>' {
        piece.drop_last()
    } else {
        piece
    }
}

/// The keys that `raw` writes, each still as text.
pub open spec fn written_keys(raw: Seq<char>) -> Seq<Seq<char>> {
    let cut = pieces_from(unbracketed(raw), 0, 0);
    Seq::new(cut.len(), |k: int| bare(cut[k]))
}

fn count(chars: &Vec<char>, c: char) -> (n: usize)
    ensures
        n == count_char(chars@, c),
{
    let mut n: usize = 0;
    let mut i: usize = 0;
    while i < chars.len()
        invariant
            i <= chars@.len(),
            n <= i,
            n == count_char(chars@.subrange(0, i as int), c),
        decreases chars@.len() - i,
    {
        assert(chars@.subrange(0, i + 1).drop_last() =~= chars@.subrange(0, i as int));
        if chars[i] == c {
            n += 1;
        }
        i += 1;
    }
    assert(chars@.subrange(0, i as int) =~= chars@);
    n
}

/// Where the first seam of `chars` lies.
fn first_seam(chars: &Vec<char>) -> (at: Option<usize>)
    ensures
        match at {
            Some(i) => seam_at(chars@, i as int),
            None => forall|j: int| !seam_at(chars@, j),
        },
{
    let n = chars.len();
    let mut i: usize = 0;
    while n > 1 && i < n - 1
        invariant
            n == chars@.len(),
            forall|j: int| j < i ==> !seam_at(chars@, j),
            i <= n,
        decreases n - i,
    {
        if chars[i] == '>' && chars[i + 1] == '<' {
            return Some(i);
        }
        i += 1;
    }
    None
}

/// Where `unbracketed` starts in `chars`.
fn body_start(chars: &Vec<char>) -> (lo: usize)
    ensures
        lo <= chars@.len(),
        chars@.subrange(lo as int, chars@.len() as int) == unbracketed(chars@),
{
    if first_seam(chars).is_some() {
        assert(chars@.subrange(0, chars@.len() as int) =~= chars@);
        return 0;
    }
    let mut lo: usize = 0;
    if chars.len() > 0 && chars[0] == '<' {
        lo = 1;
    }
    let ghost opened = chars@.subrange(lo as int, chars@.len() as int);
    assert(opened =~= if chars@.len() > 0 && chars@[0] == '<' {
        chars@.skip(1)
    } else {
        chars@
    });
    if lo < chars.len() && chars[lo] == '>' {
        lo = lo + 1;
        assert(chars@.subrange(lo as int, chars@.len() as int) =~= opened.skip(1));
    }
    lo
}

fn bare_and_parse(body: &Vec<char>, start: usize, end: usize) -> (r: Result<KeyEvent, Error>)
    requires
        start <= end <= body@.len(),
    ensures
        match r {
            Ok(key) => parsed_key(bare(body@.subrange(start as int, end as int))) == Some(key),
            Err(e) => parsed_key(bare(body@.subrange(start as int, end as int))).is_none()
                && invalid_key(e, key_part(bare(body@.subrange(start as int, end as int)))),
        },
{
    let ghost piece = body@.subrange(start as int, end as int);
    if end > start && body[start] == '<' {
        assert(piece.skip(1) =~= body@.subrange(start + 1, end as int));
        parse_chars(body, start + 1, end)
    } else if end > start && body[end - 1] == '>' {
        assert(piece.drop_last() =~= body@.subrange(start as int, end - 1));
        parse_chars(body, start, end - 1)
    } else {
        parse_chars(body, start, end)
    }
}

/// What `parse_key_sequence` owes for `raw`.
pub open spec fn sequence_parsed(raw: Seq<char>, r: Result<Vec<KeyEvent>, Error>) -> bool {
    let written = written_keys(raw);
    match r {
        Ok(keys) => {
            &&& balanced(raw)
            &&& keys@.len() == written.len()
            &&& forall|k: int| 0 <= k < written.len() ==> parsed_key(written[k]) == Some(keys@[k])
        },
        Err(e) => if !balanced(raw) {
            invalid_key(e, raw)
        } else {
            exists|k: int|
                {
                    &&& 0 <= k < written.len()
                    &&& #[trigger] parsed_key(written[k]).is_none()
                    &&& invalid_key(e, key_part(written[k]))
                    &&& forall|j: int| 0 <= j < k ==> parsed_key(written[j]).is_some()
                }
        },
    }
}

/// Reads a key sequence such as `<q>` or `<ctrl-x><ctrl-s>`: every key
/// it writes, in order. It fails where the angle brackets do not pair
/// up, with the whole text, and at the first key that names none, with
/// that key's name.
pub fn parse_key_sequence(raw: &str) -> (r: Result<Vec<KeyEvent>, Error>)
    ensures
        sequence_parsed(raw@, r),
{
    let chars = chars_of(raw);
    assert(chars@.subrange(0, chars@.len() as int) =~= raw@);
    if count(&chars, '>') != count(&chars, '<') {
        return Err(Error::InvalidKeyEvent(string_from(&chars)));
    }
    let lo = body_start(&chars);
    let body = crate::text::copy_range(&chars, lo, chars.len());
    let ghost cut = pieces_from(body@, 0, 0);
    let ghost written = written_keys(raw@);
    let n = body.len();
    let mut keys: Vec<KeyEvent> = Vec::new();
    let mut start: usize = 0;
    let mut i: usize = 0;
    let ghost mut done: Seq<Seq<char>> = Seq::empty();
    while i < n && i + 1 < n
        invariant
            n == body@.len(),
            body@ == unbracketed(raw@),
            balanced(raw@),
            cut == pieces_from(body@, 0, 0),
            written == written_keys(raw@),
            start <= i <= n,
            cut == done + pieces_from(body@, start as int, i as int),
            keys@.len() == done.len(),
            forall|k: int| 0 <= k < done.len() ==> parsed_key(bare(done[k])) == Some(keys@[k]),
        decreases n - i,
    {
        if body[i] == '>' && body[i + 1] == '<' {
            let ghost piece = body@.subrange(start as int, i as int);
            let ghost rest = pieces_from(body@, i + 2, i + 2);
            assert(cut =~= done.push(piece) + rest);
            match bare_and_parse(&body, start, i) {
                Ok(key) => {
                    keys.push(key);
                },
                Err(e) => {
                    proof {
                        let k = done.len() as int;
                        assert(cut[k] == piece);
                        assert(written[k] == bare(piece));
                        assert forall|j: int| 0 <= j < k implies parsed_key(
                            written[j],
                        ).is_some() by {
                            assert(cut[j] == done[j]);
                            assert(written[j] == bare(done[j]));
                            assert(parsed_key(bare(done[j])) == Some(keys@[j]));
                        }
                        assert(parsed_key(written[k]).is_none());
                    }
                    return Err(e);
                },
            }
            proof {
                done = done.push(piece);
            }
            start = i + 2;
            i = i + 2;
        } else {
            i = i + 1;
        }
    }
    let ghost piece = body@.subrange(start as int, n as int);
    assert(cut =~= done.push(piece));
    match bare_and_parse(&body, start, n) {
        Ok(key) => {
            keys.push(key);
        },
        Err(e) => {
            proof {
                let k = done.len() as int;
                assert(cut[k] == piece);
                assert(written[k] == bare(piece));
                assert forall|j: int| 0 <= j < k implies parsed_key(written[j]).is_some() by {
                    assert(cut[j] == done[j]);
                    assert(written[j] == bare(done[j]));
                    assert(parsed_key(bare(done[j])) == Some(keys@[j]));
                }
                assert(parsed_key(written[k]).is_none());
            }
            return Err(e);
        },
    }
    proof {
        assert forall|k: int| 0 <= k < written.len() implies parsed_key(written[k]) == Some(
            keys@[k],
        ) by {
            if k < done.len() {
                assert(cut[k] == done[k]);
                assert(written[k] == bare(done[k]));
            } else {
                assert(cut[k] == piece);
                assert(written[k] == bare(piece));
            }
        }
    }
    Ok(keys)
}

/// The name under which a key is written.
pub open spec fn key_name(code: KeyCode) -> Seq<char> {
    match code {
        KeyCode::Backspace => "backspace"@,
        KeyCode::Enter => "enter"@,
        KeyCode::Left => "left"@,
        KeyCode::Right => "right"@,
        KeyCode::Up => "up"@,
        KeyCode::Down => "down"@,
        KeyCode::Home => "home"@,
        KeyCode::End => "end"@,
        KeyCode::PageUp => "pageup"@,
        KeyCode::PageDown => "pagedown"@,
        KeyCode::Tab => "tab"@,
        KeyCode::BackTab => "backtab"@,
        KeyCode::Delete => "delete"@,
        KeyCode::Insert => "insert"@,
        KeyCode::F(n) => "f("@ + decimal(n as nat) + ")"@,
        KeyCode::Char(c) => if c == ' ' {
            "space"@
        } else {
            seq![c]
        },
        KeyCode::Esc => "esc"@,
        KeyCode::Null => Seq::<char>::empty(),
    }
}

/// The modifiers in `bits` as they are written in front of a key:
/// control, shift and alt, in this order, each followed by a hyphen.
pub open spec fn modifier_text(bits: u8) -> Seq<char> {
    let ctrl = if bits & CONTROL != 0 {
        "ctrl-"@
    } else {
        Seq::<char>::empty()
    };
    let shift = if bits & SHIFT != 0 {
        "shift-"@
    } else {
        Seq::<char>::empty()
    };
    let alt = if bits & ALT != 0 {
        "alt-"@
    } else {
        Seq::<char>::empty()
    };
    ctrl + shift + alt
}

/// A key event as it is written.
pub open spec fn key_text(key: KeyEvent) -> Seq<char> {
    modifier_text(key.modifiers.bits) + key_name(key.code)
}

fn push_key_name(out: &mut Vec<char>, code: KeyCode)
    ensures
        final(out)@ == old(out)@ + key_name(code),
{
    match code {
        KeyCode::Backspace => push_str(out, "backspace"),
        KeyCode::Enter => push_str(out, "enter"),
        KeyCode::Left => push_str(out, "left"),
        KeyCode::Right => push_str(out, "right"),
        KeyCode::Up => push_str(out, "up"),
        KeyCode::Down => push_str(out, "down"),
        KeyCode::Home => push_str(out, "home"),
        KeyCode::End => push_str(out, "end"),
        KeyCode::PageUp => push_str(out, "pageup"),
        KeyCode::PageDown => push_str(out, "pagedown"),
        KeyCode::Tab => push_str(out, "tab"),
        KeyCode::BackTab => push_str(out, "backtab"),
        KeyCode::Delete => push_str(out, "delete"),
        KeyCode::Insert => push_str(out, "insert"),
        KeyCode::F(n) => {
            push_str(out, "f(");
            push_decimal(out, n as u64);
            push_str(out, ")");
            assert(out@ =~= old(out)@ + key_name(code));
        },
        KeyCode::Char(c) => {
            if c == ' ' {
                push_str(out, "space");
            } else {
                out.push(c);
                assert(out@ =~= old(out)@ + key_name(code));
            }
        },
        KeyCode::Esc => push_str(out, "esc"),
        KeyCode::Null => {
            assert(out@ =~= old(out)@ + key_name(code));
        },
    }
}

/// Writes a key event: its modifiers, then the name of its key.
pub fn key_event_to_string(key_event: &KeyEvent) -> (text: String)
    ensures
        text@ == key_text(*key_event),
{
    let mut out: Vec<char> = Vec::new();
    let bits = key_event.modifiers.bits;
    if bits & CONTROL != 0 {
        push_str(&mut out, "ctrl-");
    }
    if bits & SHIFT != 0 {
        push_str(&mut out, "shift-");
    }
    if bits & ALT != 0 {
        push_str(&mut out, "alt-");
    }
    assert(out@ =~= modifier_text(bits));
    push_key_name(&mut out, key_event.code);
    string_from(&out)
}

} // verus!
