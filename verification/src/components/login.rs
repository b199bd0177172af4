//! The first page of the application: a box for the e-mail address.

use vstd::prelude::*;
use vstd::string::StringSliceAdditionalSpecFns;
use crate::components::editing::{
    char_count, clamp, clamped, insert_char, left_of, remove_char, right_of, with_char,
    without_char,
};
use crate::components::textinput::{
    cursor_at, cursor_position, edited, email_box, texts, InputMode,
};
use crate::keys::{KeyCode, KeyEvent};
use crate::layout::{Layout, Sizing};
use crate::render::{Frame, Widget};
use crate::text::{chars_of, string_of};

verus! {

/// The page with the box for the e-mail address.
pub struct Login {
    /// Current value of the input box
    pub input: String,
    /// Position of cursor in the editor area.
    pub character_index: usize,
    /// Current input mode
    pub input_mode: InputMode,
    /// History of recorded messages
    pub messages: Vec<String>,
}

impl Login {
    pub fn new() -> (page: Login)
        ensures
            page.input@.len() == 0,
            page.character_index == 0,
            page.input_mode == InputMode::Normal,
            page.messages@.len() == 0,
    {
        Login {
            input: String::new(),
            input_mode: InputMode::Normal,
            messages: Vec::new(),
            character_index: 0,
        }
    }

    pub fn move_cursor_left(&mut self)
        ensures
            *final(self) == (Login {
                character_index: left_of(old(self).character_index, old(self).input@.len()),
                ..*old(self)
            }),
    {
        let cursor_moved_left = self.character_index.saturating_sub(1);
        self.character_index = self.clamp_cursor(cursor_moved_left);
    }

    pub fn move_cursor_right(&mut self)
        ensures
            *final(self) == (Login {
                character_index: right_of(old(self).character_index, old(self).input@.len()),
                ..*old(self)
            }),
    {
        let cursor_moved_right = self.character_index.saturating_add(1);
        self.character_index = self.clamp_cursor(cursor_moved_right);
    }

    /// Puts `new_char` in at the cursor and moves the cursor behind it.
    pub fn enter_char(&mut self, new_char: char)
        ensures
            final(self).input@ == with_char(old(self).input@, old(self).character_index, new_char),
            final(self).character_index == right_of(
                old(self).character_index,
                old(self).input@.len() + 1,
            ),
            *final(self) == (Login {
                input: final(self).input,
                character_index: final(self).character_index,
                ..*old(self)
            }),
    {
        insert_char(&mut self.input, self.character_index, new_char);
        self.move_cursor_right();
    }

    /// Returns the byte index based on the character position.
    ///
    /// Since each character in a string can contain multiple bytes, it's necessary to calculate
    /// the byte index based on the index of the character.
    pub fn byte_index(&self) -> (bytes: usize)
        ensures
            bytes == vstd::utf8::encode_utf8(
                self.input@.take(clamped(self.character_index as nat, self.input@.len()) as int),
            ).len() as usize,
    {
        let chars = chars_of(self.input.as_str());
        let at = clamp(self.character_index, chars.len());
        let prefix = string_of(&chars, 0, at);
        assert(chars@.subrange(0, at as int) =~= self.input@.take(at as int));
        prefix.as_str().len()
    }

    /// Takes the character in front of the cursor away and moves the
    /// cursor back.
    pub fn delete_char(&mut self)
        ensures
            final(self).input@ == without_char(old(self).input@, old(self).character_index),
            final(self).character_index == if old(self).character_index == 0 {
                0
            } else {
                left_of(old(self).character_index, final(self).input@.len())
            },
            old(self).character_index == 0 ==> *final(self) == *old(self),
            *final(self) == (Login {
                input: final(self).input,
                character_index: final(self).character_index,
                ..*old(self)
            }),
    {
        let is_not_cursor_leftmost = self.character_index != 0;
        if is_not_cursor_leftmost {
            remove_char(&mut self.input, self.character_index);
            self.move_cursor_left();
        }
    }

    pub fn clamp_cursor(&self, new_cursor_pos: usize) -> (at: usize)
        ensures
            at == clamped(new_cursor_pos as nat, self.input@.len()),
    {
        clamp(new_cursor_pos, char_count(&self.input))
    }

    pub fn reset_cursor(&mut self)
        ensures
            *final(self) == (Login { character_index: 0, ..*old(self) }),
    {
        self.character_index = 0;
    }

    /// Keeps what was typed as a message and empties the box.
    pub fn submit_message(&mut self)
        ensures
            final(self).messages@ == old(self).messages@.push(old(self).input),
            final(self).input@.len() == 0,
            final(self).character_index == 0,
            final(self).input_mode == old(self).input_mode,
    {
        let typed = self.input.clone();
        self.messages.push(typed);
        self.input = String::new();
        self.reset_cursor();
    }

    /// Whether the page handles a key itself: it does while it is typed
    /// into.
    pub open spec fn handles(&self) -> Option<bool> {
        match self.input_mode {
            InputMode::Normal => None,
            InputMode::Editing => Some(true),
        }
    }

    /// The page is what `before` becomes by `key`.
    pub open spec fn keyed(&self, before: Login, key: KeyEvent) -> bool {
        match before.input_mode {
            InputMode::Normal => *self == (Login {
                input_mode: if key.code == KeyCode::Char('e') {
                    InputMode::Editing
                } else {
                    InputMode::Normal
                },
                ..before
            }),
            InputMode::Editing => (
                self.input@,
                self.character_index,
                self.input_mode,
                texts(self.messages@),
            ) == edited(before.input@, before.character_index, texts(before.messages@), key),
        }
    }

    /// `ops` is `before` with the page behind it, and `cursor` the
    /// cursor after `was`.
    pub open spec fn drawn(
        &self,
        before: Seq<crate::render::DrawOp>,
        ops: Seq<crate::render::DrawOp>,
        was: Option<crate::layout::Position>,
        cursor: Option<crate::layout::Position>,
    ) -> bool {
        let n = before.len() as int;
        &&& ops.len() == n + 1
        &&& ops.subrange(0, n) == before
        &&& ops[n].widget matches Widget::Paragraph(p) && p.lines@.len() == 1 && p.lines@[0].text()
            == self.input@
        &&& cursor == if self.input_mode == InputMode::Editing {
            Some(cursor_at(ops[n].area, self.character_index))
        } else {
            was
        }
    }

    /// Takes a key. Outside the typing, `e` starts it, and the key
    /// counts as not handled. In the typing the key edits the text,
    /// moves the cursor, submits or leaves, and counts as handled.
    pub fn handle_events(&mut self, key_event: KeyEvent) -> (handled: Option<bool>)
        ensures
            handled == old(self).handles(),
            final(self).keyed(*old(self), key_event),
    {
        match self.input_mode {
            InputMode::Normal => {
                if let KeyCode::Char('e') = key_event.code {
                    self.input_mode = InputMode::Editing;
                }
                None
            },
            InputMode::Editing => {
                match key_event.code {
                    KeyCode::Enter => {
                        self.submit_message();
                        assert(texts(self.messages@) =~= texts(old(self).messages@).push(
                            old(self).input@,
                        ));
                    },
                    KeyCode::Char(to_insert) => self.enter_char(to_insert),
                    KeyCode::Backspace => self.delete_char(),
                    KeyCode::Left => self.move_cursor_left(),
                    KeyCode::Right => self.move_cursor_right(),
                    KeyCode::Esc => {
                        self.input_mode = InputMode::Normal;
                    },
                    _ => {},
                }
                assert(self.input@ =~= edited(
                    old(self).input@,
                    old(self).character_index,
                    texts(old(self).messages@),
                    key_event,
                ).0);
                Some(true)
            },
        }
    }

    /// Draws the box in the middle of the surface: fifty columns of it,
    /// three rows high, with the cursor in it while it is typed into.
    pub fn draw(&self, frame: &mut Frame)
        ensures
            final(frame).area == old(frame).area,
            self.drawn(old(frame).ops@, final(frame).ops@, old(frame).cursor, final(frame).cursor),
    {
        let vertical = Layout::horizontal(vec![Sizing::Min(1), Sizing::Length(50), Sizing::Min(1)]);
        let columns = vertical.split(frame.area());
        let input = Layout::vertical(vec![Sizing::Min(1), Sizing::Length(3), Sizing::Min(1)]);
        let rows = input.split(columns[1]);
        let input_area = rows[1];
        frame.render_widget(
            email_box(&self.input, self.input_mode == InputMode::Editing),
            input_area,
        );
        if self.input_mode == InputMode::Editing {
            frame.set_cursor_position(cursor_position(input_area, self.character_index));
        }
        assert(final(frame).ops@.subrange(0, old(frame).ops@.len() as int) =~= old(frame).ops@);
    }
}

} // verus!
