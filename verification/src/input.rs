//! A single-line text field: its text and the cursor in it.
//!
//! The editing itself is done by the `tui-input` crate; this module maps
//! key events to its requests and states what each request does.

use vstd::prelude::*;
use crate::keys::{KeyCode, KeyEvent, KeyEventKind};
use tui_input::InputRequest as Outside;

verus! {

/// What a key asks of a text field.
#[derive(Debug, Clone, Copy, PartialEq, Eq, Structural)]
pub enum InputRequest {
    SetCursor(usize),
    InsertChar(char),
    GoToPrevChar,
    GoToNextChar,
    GoToPrevWord,
    GoToNextWord,
    GoToStart,
    GoToEnd,
    DeletePrevChar,
    DeleteNextChar,
    DeletePrevWord,
    DeleteNextWord,
    DeleteLine,
    DeleteTillEnd,
}

/// No modifier.
pub const NONE: u8 = 0;

/// The shift key alone.
pub const SHIFT: u8 = 1;

/// The control key alone.
pub const CONTROL: u8 = 2;

/// The alt key alone.
pub const ALT: u8 = 4;

/// The meta key alone.
pub const META: u8 = 32;

/// The request that a key makes of a text field, if it makes one. Only
/// keys that go down or repeat make requests, and the modifiers must be
/// exactly the ones named.
pub open spec fn request_of(key: KeyEvent) -> Option<InputRequest> {
    let bits = key.modifiers.bits;
    if key.kind == KeyEventKind::Release {
        None
    } else {
        match key.code {
            KeyCode::Backspace => if bits == NONE {
                Some(InputRequest::DeletePrevChar)
            } else if bits == META || bits == ALT {
                Some(InputRequest::DeletePrevWord)
            } else {
                None
            },
            KeyCode::Delete => if bits == NONE {
                Some(InputRequest::DeleteNextChar)
            } else if bits == CONTROL {
                Some(InputRequest::DeleteNextWord)
            } else {
                None
            },
            KeyCode::Left => if bits == NONE {
                Some(InputRequest::GoToPrevChar)
            } else if bits == CONTROL {
                Some(InputRequest::GoToPrevWord)
            } else {
                None
            },
            KeyCode::Right => if bits == NONE {
                Some(InputRequest::GoToNextChar)
            } else if bits == CONTROL {
                Some(InputRequest::GoToNextWord)
            } else {
                None
            },
            KeyCode::Home => if bits == NONE {
                Some(InputRequest::GoToStart)
            } else {
                None
            },
            KeyCode::End => if bits == NONE {
                Some(InputRequest::GoToEnd)
            } else {
                None
            },
            KeyCode::Char(c) => if bits == CONTROL {
                control_request(c)
            } else if bits == META {
                meta_request(c)
            } else if bits == NONE || bits == SHIFT {
                Some(InputRequest::InsertChar(c))
            } else {
                None
            },
            _ => None,
        }
    }
}

/// The request of the letter `c` struck with the control key.
pub open spec fn control_request(c: char) -> Option<InputRequest> {
    if c == 'h' {
        Some(InputRequest::DeletePrevChar)
    } else if c == 'b' {
        Some(InputRequest::GoToPrevChar)
    } else if c == 'f' {
        Some(InputRequest::GoToNextChar)
    } else if c == 'u' {
        Some(InputRequest::DeleteLine)
    } else if c == 'w' {
        Some(InputRequest::DeletePrevWord)
    } else if c == 'k' {
        Some(InputRequest::DeleteTillEnd)
    } else if c == 'a' {
        Some(InputRequest::GoToStart)
    } else if c == 'e' {
        Some(InputRequest::GoToEnd)
    } else {
        None
    }
}

/// The request of the letter `c` struck with the meta key.
pub open spec fn meta_request(c: char) -> Option<InputRequest> {
    if c == 'b' {
        Some(InputRequest::GoToPrevWord)
    } else if c == 'f' {
        Some(InputRequest::GoToNextWord)
    } else if c == 'd' {
        Some(InputRequest::DeletePrevWord)
    } else {
        None
    }
}

/// Maps a key event to the request it makes of a text field.
pub fn to_input_request(key: &KeyEvent) -> (request: Option<InputRequest>)
    ensures
        request == request_of(*key),
{
    let bits = key.modifiers.bits;
    if key.kind == KeyEventKind::Release {
        return None;
    }
    match key.code {
        KeyCode::Backspace => if bits == NONE {
            Some(InputRequest::DeletePrevChar)
        } else if bits == META || bits == ALT {
            Some(InputRequest::DeletePrevWord)
        } else {
            None
        },
        KeyCode::Delete => if bits == NONE {
            Some(InputRequest::DeleteNextChar)
        } else if bits == CONTROL {
            Some(InputRequest::DeleteNextWord)
        } else {
            None
        },
        KeyCode::Left => if bits == NONE {
            Some(InputRequest::GoToPrevChar)
        } else if bits == CONTROL {
            Some(InputRequest::GoToPrevWord)
        } else {
            None
        },
        KeyCode::Right => if bits == NONE {
            Some(InputRequest::GoToNextChar)
        } else if bits == CONTROL {
            Some(InputRequest::GoToNextWord)
        } else {
            None
        },
        KeyCode::Home => if bits == NONE {
            Some(InputRequest::GoToStart)
        } else {
            None
        },
        KeyCode::End => if bits == NONE {
            Some(InputRequest::GoToEnd)
        } else {
            None
        },
        KeyCode::Char(c) => {
            if bits == CONTROL {
                match c {
                    'h' => Some(InputRequest::DeletePrevChar),
                    'b' => Some(InputRequest::GoToPrevChar),
                    'f' => Some(InputRequest::GoToNextChar),
                    'u' => Some(InputRequest::DeleteLine),
                    'w' => Some(InputRequest::DeletePrevWord),
                    'k' => Some(InputRequest::DeleteTillEnd),
                    'a' => Some(InputRequest::GoToStart),
                    'e' => Some(InputRequest::GoToEnd),
                    _ => None,
                }
            } else if bits == META {
                match c {
                    'b' => Some(InputRequest::GoToPrevWord),
                    'f' => Some(InputRequest::GoToNextWord),
                    'd' => Some(InputRequest::DeletePrevWord),
                    _ => None,
                }
            } else if bits == NONE || bits == SHIFT {
                Some(InputRequest::InsertChar(c))
            } else {
                None
            }
        },
        _ => None,
    }
}

/// Text and cursor of a field after `tui-input` has handled `request`
/// on a field that held `value` with the cursor at `cursor`.
pub uninterp spec fn input_after(value: Seq<char>, cursor: nat, request: InputRequest) -> (
    Seq<char>,
    nat,
);

/// What the requests that move or edit by single characters do, for a
/// cursor inside the text. The requests that work by words are left to
/// `input_after`.
pub open spec fn plain_edit(value: Seq<char>, cursor: nat, request: InputRequest) -> Option<
    (Seq<char>, nat),
> {
    let len = value.len();
    match request {
        InputRequest::SetCursor(at) => Some(
            (
                value,
                if at <= len {
                    at as nat
                } else {
                    len
                },
            ),
        ),
        InputRequest::InsertChar(c) => Some((value.insert(cursor as int, c), cursor + 1)),
        InputRequest::GoToPrevChar => Some(
            (
                value,
                if cursor == 0 {
                    0
                } else {
                    (cursor - 1) as nat
                },
            ),
        ),
        InputRequest::GoToNextChar => Some(
            (
                value,
                if cursor == len {
                    cursor
                } else {
                    cursor + 1
                },
            ),
        ),
        InputRequest::GoToStart => Some((value, 0)),
        InputRequest::GoToEnd => Some((value, len)),
        InputRequest::DeletePrevChar => Some(
            if cursor == 0 {
                (value, cursor)
            } else {
                (value.remove(cursor - 1), (cursor - 1) as nat)
            },
        ),
        InputRequest::DeleteNextChar => Some(
            if cursor == len {
                (value, cursor)
            } else {
                (value.remove(cursor as int), cursor)
            },
        ),
        InputRequest::DeleteLine => Some((Seq::<char>::empty(), 0)),
        InputRequest::DeleteTillEnd => Some((value.take(cursor as int), cursor)),
        _ => None,
    }
}

/// Text and cursor of a field after `request`, on a field that held
/// `value` with the cursor at `cursor`.
pub open spec fn edited(value: Seq<char>, cursor: nat, request: InputRequest) -> (Seq<char>, nat) {
    match plain_edit(value, cursor, request) {
        Some(edit) => edit,
        None => input_after(value, cursor, request),
    }
}

/// `Input::handle` of tui-input, on a field made of `value` with the
/// cursor at `cursor`. The result is the field's text and cursor after
/// the request. For the requests listed in `plain_edit` the contract
/// says what they are; the cursor never leaves the text.
#[verifier::external_body]
fn handled(value: &str, cursor: usize, request: InputRequest) -> (r: (String, usize))
    requires
        cursor <= value@.len(),
    ensures
        (r.0@, r.1 as nat) == match plain_edit(value@, cursor as nat, request) {
            Some(edit) => edit,
            None => input_after(value@, cursor as nat, request),
        },
        r.1 <= r.0@.len(),
{
    let mut input = tui_input::Input::new(value.to_string()).with_cursor(cursor);
    input.handle(match request {
        InputRequest::SetCursor(at) => Outside::SetCursor(at),
        InputRequest::InsertChar(c) => Outside::InsertChar(c),
        InputRequest::GoToPrevChar => Outside::GoToPrevChar, InputRequest::GoToNextChar => Outside::GoToNextChar,
        InputRequest::GoToPrevWord => Outside::GoToPrevWord, InputRequest::GoToNextWord => Outside::GoToNextWord,
        InputRequest::GoToStart => Outside::GoToStart, InputRequest::GoToEnd => Outside::GoToEnd,
        InputRequest::DeletePrevChar => Outside::DeletePrevChar, InputRequest::DeleteNextChar => Outside::DeleteNextChar,
        InputRequest::DeletePrevWord => Outside::DeletePrevWord, InputRequest::DeleteNextWord => Outside::DeleteNextWord,
        InputRequest::DeleteLine => Outside::DeleteLine, InputRequest::DeleteTillEnd => Outside::DeleteTillEnd,
    });
    (input.value().to_string(), input.cursor())
}

/// How many columns of `value` are scrolled out of a window `width`
/// columns wide so that the cursor at `cursor` stays in sight.
pub uninterp spec fn visual_scroll_of(value: Seq<char>, cursor: nat, width: nat) -> nat;

/// `Input::visual_scroll` of tui-input, which goes by the display width
/// of each character.
#[verifier::external_body]
fn scrolled(value: &str, cursor: usize, width: usize) -> (columns: usize)
    requires
        cursor <= value@.len(),
    ensures
        columns == visual_scroll_of(value@, cursor as nat, width as nat),
{
    tui_input::Input::new(value.to_string()).with_cursor(cursor).visual_scroll(width)
}

/// A line of text being edited.
#[derive(Debug)]
pub struct Input {
    pub value: String,
    pub cursor: usize,
}

impl Default for Input {
    fn default() -> (input: Input)
        ensures
            input.value@ == Seq::<char>::empty(),
            input.cursor == 0,
            input.wf(),
    {
        Input { value: String::new(), cursor: 0 }
    }
}

impl Clone for Input {
    fn clone(&self) -> (copy: Input)
        ensures
            copy == *self,
    {
        Input { value: self.value.clone(), cursor: self.cursor }
    }
}

impl Input {
    /// The cursor stands inside the text or right behind it.
    pub open spec fn wf(&self) -> bool {
        self.cursor <= self.value@.len()
    }

    /// The field after `request`.
    pub open spec fn after(&self, request: InputRequest) -> (Seq<char>, nat) {
        edited(self.value@, self.cursor as nat, request)
    }

    /// The field after `key`: a key that makes no request leaves it as
    /// it is.
    pub open spec fn after_key(&self, key: KeyEvent) -> (Seq<char>, nat) {
        match request_of(key) {
            Some(request) => self.after(request),
            None => (self.value@, self.cursor as nat),
        }
    }

    pub fn value(&self) -> (text: &str)
        ensures
            text@ == self.value@,
    {
        self.value.as_str()
    }

    pub fn cursor(&self) -> (at: usize)
        ensures
            at == self.cursor,
    {
        self.cursor
    }

    /// Empties the field.
    pub fn reset(&mut self)
        ensures
            final(self).value@ == Seq::<char>::empty(),
            final(self).cursor == 0,
            final(self).wf(),
    {
        self.value = String::new();
        self.cursor = 0;
    }

    /// Carries out `request`.
    pub fn handle(&mut self, request: InputRequest)
        requires
            old(self).wf(),
        ensures
            (final(self).value@, final(self).cursor as nat) == old(self).after(request),
            final(self).wf(),
    {
        let (value, cursor) = handled(self.value.as_str(), self.cursor, request);
        self.value = value;
        self.cursor = cursor;
    }

    /// Hands `key` to the field. A key that makes no request leaves the
    /// field as it is.
    pub fn handle_event(&mut self, key: &KeyEvent)
        requires
            old(self).wf(),
        ensures
            (final(self).value@, final(self).cursor as nat) == old(self).after_key(*key),
            request_of(*key).is_none() ==> *final(self) == *old(self),
            final(self).wf(),
    {
        if let Some(request) = to_input_request(key) {
            self.handle(request);
        }
    }

    /// How far the text is scrolled in a window of `width` columns.
    pub fn visual_scroll(&self, width: usize) -> (columns: usize)
        requires
            self.wf(),
        ensures
            columns == visual_scroll_of(self.value@, self.cursor as nat, width as nat),
    {
        scrolled(self.value.as_str(), self.cursor, width)
    }
}

} // verus!
