//! The box into which an e-mail address is typed and submitted.

use vstd::prelude::*;
use vstd::string::StringSliceAdditionalSpecFns;
use crate::action::{Action, Page};
use crate::component::{emit, handed, ActionSender, Outgoing};
use crate::components::editing::{
    char_count, clamp, clamped, insert_char, left_of, remove_char, right_of, with_char,
    without_char,
};
use crate::keys::{KeyCode, KeyEvent, MouseButton, MouseEvent, MouseEventKind};
use crate::layout::{sat_add, Position, Rect};
use crate::render::{narrow, narrowed, Block, Color, Frame, Line, Paragraph, Style, Widget};
use crate::text::{chars_of, string_of};

verus! {

/// Whether the box is being typed into.
#[derive(Debug, Clone, Copy, PartialEq, Eq, Structural)]
pub enum InputMode {
    Normal,
    Editing,
}

/// The box after a key was struck while it was typed into: its text,
/// its cursor, its mode and the messages it holds.
pub open spec fn edited(
    input: Seq<char>,
    index: usize,
    messages: Seq<Seq<char>>,
    key: KeyEvent,
) -> (Seq<char>, usize, InputMode, Seq<Seq<char>>) {
    match key.code {
        KeyCode::Enter => (Seq::<char>::empty(), 0usize, InputMode::Editing, messages.push(input)),
        KeyCode::Char(c) => (
            with_char(input, index, c),
            right_of(index, input.len() + 1),
            InputMode::Editing,
            messages,
        ),
        KeyCode::Backspace => if index == 0 {
            (input, index, InputMode::Editing, messages)
        } else {
            (
                without_char(input, index),
                left_of(index, without_char(input, index).len()),
                InputMode::Editing,
                messages,
            )
        },
        KeyCode::Left => (input, left_of(index, input.len()), InputMode::Editing, messages),
        KeyCode::Right => (input, right_of(index, input.len()), InputMode::Editing, messages),
        KeyCode::Esc => (input, index, InputMode::Normal, messages),
        _ => (input, index, InputMode::Editing, messages),
    }
}

/// The texts of `messages`.
pub open spec fn texts(messages: Seq<String>) -> Seq<Seq<char>> {
    Seq::new(messages.len(), |i: int| messages[i]@)
}

/// Where the cursor shows in the box at `area`: behind the border and
/// the characters in front of it.
pub open spec fn cursor_at(area: Rect, index: usize) -> Position {
    Position { x: sat_add(sat_add(area.x, narrowed(index)), 1), y: sat_add(area.y, 1) }
}

/// Where the cursor shows in the box at `area`.
pub fn cursor_position(area: Rect, index: usize) -> (cell: Position)
    ensures
        cell == cursor_at(area, index),
{
    Position::new(
        area.x.saturating_add(narrow(index)).saturating_add(1),
        area.y.saturating_add(1),
    )
}

/// The box itself: the text, in yellow while it is typed into, under
/// the title `Email`.
pub fn email_box(input: &String, editing: bool) -> (widget: Widget)
    ensures
        widget matches Widget::Paragraph(p) && p.lines@.len() == 1 && p.lines@[0].text()
            == input@ && p.style.fg == (if editing {
            Some(Color::Yellow)
        } else {
            None
        }) && (p.block matches Some(b) && b.titles@.len() == 1 && b.titles@[0].line.text()
            == "Email"@),
{
    let style = if editing {
        Style::new().fg(Color::Yellow)
    } else {
        Style::new()
    };
    let mut lines: Vec<Line> = Vec::new();
    lines.push(Line::raw(input.clone()));
    Widget::Paragraph(
        Paragraph::new(lines).style(style).block(Block::bordered().title_top(Line::plain("Email"))),
    )
}

/// The box in which an e-mail address is typed.
pub struct TextInput {
    /// Current value of the input box
    pub input: String,
    /// Position of cursor in the editor area.
    pub character_index: usize,
    /// Current input mode
    pub input_mode: InputMode,
    /// History of recorded messages
    pub messages: Vec<String>,
    pub tx: Option<ActionSender>,
}

impl TextInput {
    pub fn new() -> (input: TextInput)
        ensures
            input.input@.len() == 0,
            input.character_index == 0,
            input.input_mode == InputMode::Normal,
            input.messages@.len() == 0,
            input.tx.is_none(),
    {
        TextInput {
            input: String::new(),
            input_mode: InputMode::Normal,
            messages: Vec::new(),
            character_index: 0,
            tx: None,
        }
    }

    pub fn register_action_handler(&mut self, tx: ActionSender)
        ensures
            *final(self) == (TextInput { tx: Some(tx), ..*old(self) }),
    {
        self.tx = Some(tx);
    }

    /// The box after the pointer event `mouse`.
    pub open spec fn pointed(&self, mouse: MouseEvent) -> TextInput {
        TextInput {
            input_mode: if mouse.kind == MouseEventKind::Down(MouseButton::Left) {
                InputMode::Editing
            } else {
                self.input_mode
            },
            ..*self
        }
    }

    /// A press of the left button puts the box into typing.
    pub fn handle_mouse(&mut self, mouse: MouseEvent) -> (action: Option<Action>)
        ensures
            action.is_none(),
            *final(self) == old(self).pointed(mouse),
    {
        if mouse.kind == MouseEventKind::Down(MouseButton::Left) {
            self.input_mode = InputMode::Editing;
        }
        None
    }

    pub fn move_cursor_left(&mut self)
        ensures
            *final(self) == (TextInput {
                character_index: left_of(old(self).character_index, old(self).input@.len()),
                ..*old(self)
            }),
    {
        let cursor_moved_left = self.character_index.saturating_sub(1);
        self.character_index = self.clamp_cursor(cursor_moved_left);
    }

    pub fn move_cursor_right(&mut self)
        ensures
            *final(self) == (TextInput {
                character_index: right_of(old(self).character_index, old(self).input@.len()),
                ..*old(self)
            }),
    {
        let cursor_moved_right = self.character_index.saturating_add(1);
        self.character_index = self.clamp_cursor(cursor_moved_right);
    }

    /// Puts `new_char` in at the cursor and moves the cursor behind it.
    pub fn enter_char(&mut self, new_char: char)
        ensures
            final(self).input@ == with_char(old(self).input@, old(self).character_index, new_char),
            final(self).character_index == right_of(
                old(self).character_index,
                old(self).input@.len() + 1,
            ),
            *final(self) == (TextInput {
                input: final(self).input,
                character_index: final(self).character_index,
                ..*old(self)
            }),
    {
        insert_char(&mut self.input, self.character_index, new_char);
        self.move_cursor_right();
    }

    /// Returns the byte index based on the character position.
    ///
    /// Since each character in a string can contain multiple bytes, it's necessary to calculate
    /// the byte index based on the index of the character.
    pub fn byte_index(&self) -> (bytes: usize)
        ensures
            bytes == vstd::utf8::encode_utf8(
                self.input@.take(clamped(self.character_index as nat, self.input@.len()) as int),
            ).len() as usize,
    {
        let chars = chars_of(self.input.as_str());
        let at = clamp(self.character_index, chars.len());
        let prefix = string_of(&chars, 0, at);
        assert(chars@.subrange(0, at as int) =~= self.input@.take(at as int));
        prefix.as_str().len()
    }

    /// Takes the character in front of the cursor away and moves the
    /// cursor back.
    pub fn delete_char(&mut self)
        ensures
            final(self).input@ == without_char(old(self).input@, old(self).character_index),
            final(self).character_index == if old(self).character_index == 0 {
                0
            } else {
                left_of(old(self).character_index, final(self).input@.len())
            },
            old(self).character_index == 0 ==> *final(self) == *old(self),
            *final(self) == (TextInput {
                input: final(self).input,
                character_index: final(self).character_index,
                ..*old(self)
            }),
    {
        let is_not_cursor_leftmost = self.character_index != 0;
        if is_not_cursor_leftmost {
            remove_char(&mut self.input, self.character_index);
            self.move_cursor_left();
        }
    }

    pub fn clamp_cursor(&self, new_cursor_pos: usize) -> (at: usize)
        ensures
            at == clamped(new_cursor_pos as nat, self.input@.len()),
    {
        clamp(new_cursor_pos, char_count(&self.input))
    }

    pub fn reset_cursor(&mut self)
        ensures
            *final(self) == (TextInput { character_index: 0, ..*old(self) }),
    {
        self.character_index = 0;
    }

    /// Keeps what was typed as a message, empties the box, leaves the
    /// typing and sends the address that the box then holds: none.
    pub fn submit_message(&mut self)
        ensures
            final(self).messages@ == old(self).messages@.push(old(self).input),
            final(self).input@.len() == 0,
            final(self).character_index == 0,
            final(self).input_mode == InputMode::Normal,
            exists|sent: String| #[trigger]
                handed(
                    old(self).tx,
                    final(self).tx,
                    seq![Outgoing::Send(Action::SubmitEmail(sent))],
                ) && sent@.len() == 0,
    {
        let typed = self.input.clone();
        self.messages.push(typed);
        self.input = String::new();
        self.reset_cursor();
        self.input_mode = InputMode::Normal;
        let sent = self.input.clone();
        emit(&mut self.tx, Action::SubmitEmail(sent));
        assert(handed(old(self).tx, self.tx, seq![Outgoing::Send(Action::SubmitEmail(sent))]));
    }

    /// Whether the box handles a key itself: it does while it is typed
    /// into.
    pub open spec fn handles(&self) -> Option<bool> {
        match self.input_mode {
            InputMode::Normal => None,
            InputMode::Editing => Some(true),
        }
    }

    /// The box is what `before` becomes by `key`.
    pub open spec fn keyed(&self, before: TextInput, key: KeyEvent) -> bool {
        match before.input_mode {
            InputMode::Normal => {
                &&& self.input == before.input
                &&& self.character_index == before.character_index
                &&& self.messages == before.messages
                &&& self.input_mode == (if key.code == KeyCode::Char('e') {
                    InputMode::Editing
                } else {
                    InputMode::Normal
                })
                &&& handed(
                    before.tx,
                    self.tx,
                    if key.code == KeyCode::Char('i') {
                        seq![Outgoing::Send(Action::ChangePage(Page::Home))]
                    } else {
                        Seq::<Outgoing>::empty()
                    },
                )
            },
            InputMode::Editing => {
                let after = edited(
                    before.input@,
                    before.character_index,
                    texts(before.messages@),
                    key,
                );
                &&& self.input@ == after.0
                &&& self.character_index == after.1
                &&& self.input_mode == (if key.code is Enter {
                    InputMode::Normal
                } else {
                    after.2
                })
                &&& texts(self.messages@) == after.3
                &&& key.code is Enter ==> exists|sent: String| #[trigger]
                    handed(before.tx, self.tx, seq![Outgoing::Send(Action::SubmitEmail(sent))])
                        && sent@.len() == 0
                &&& !(key.code is Enter) ==> self.tx == before.tx
            },
        }
    }

    /// `ops` is `before` with the box behind it on a surface of `area`,
    /// and `cursor` the cursor after `was`.
    pub open spec fn drawn(
        &self,
        before: Seq<crate::render::DrawOp>,
        ops: Seq<crate::render::DrawOp>,
        area: Rect,
        was: Option<Position>,
        cursor: Option<Position>,
    ) -> bool {
        let n = before.len() as int;
        let middle = area.spec_inner_centered(40, 25);
        &&& ops.len() == n + 3
        &&& ops.subrange(0, n) == before
        &&& ops[n].widget is Clear
        &&& ops[n].area == area
        &&& ops[n + 1].area == middle
        &&& ops[n + 1].widget matches Widget::Paragraph(p) && p.lines@.len() == 1
            && p.lines@[0].text() == self.input@
        &&& ops[n + 2] == (crate::render::DrawOp { widget: Widget::IntroEffect(40), area: middle })
        &&& cursor == if self.input_mode == InputMode::Editing {
            Some(cursor_at(middle, self.character_index))
        } else {
            was
        }
    }

    /// Takes a key. Outside the typing, `i` asks for the home page and
    /// `e` starts the typing; the key counts as not handled. In the
    /// typing the key edits the text, moves the cursor, submits or
    /// leaves, and counts as handled.
    pub fn handle_events(&mut self, key_event: KeyEvent) -> (handled: Option<bool>)
        ensures
            handled == old(self).handles(),
            final(self).keyed(*old(self), key_event),
    {
        proof {
            if old(self).tx.is_some() {
                assert(old(self).tx->0.queue@ + Seq::<Outgoing>::empty() =~= old(self).tx->0.queue@);
            }
        }
        match self.input_mode {
            InputMode::Normal => {
                if let KeyCode::Char('i') = key_event.code {
                    emit(&mut self.tx, Action::ChangePage(Page::Home));
                }
                if let KeyCode::Char('e') = key_event.code {
                    self.input_mode = InputMode::Editing;
                }
                None
            },
            InputMode::Editing => {
                match key_event.code {
                    KeyCode::Enter => {
                        self.submit_message();
                        assert(texts(self.messages@) =~= texts(old(self).messages@).push(
                            old(self).input@,
                        ));
                    },
                    KeyCode::Char(to_insert) => self.enter_char(to_insert),
                    KeyCode::Backspace => self.delete_char(),
                    KeyCode::Left => self.move_cursor_left(),
                    KeyCode::Right => self.move_cursor_right(),
                    KeyCode::Esc => {
                        self.input_mode = InputMode::Normal;
                    },
                    _ => {},
                }
                assert(self.input@ =~= edited(
                    old(self).input@,
                    old(self).character_index,
                    texts(old(self).messages@),
                    key_event,
                ).0);
                Some(true)
            },
        }
    }

    /// Draws the box in the middle of the surface, forty columns wide
    /// and twenty-five rows high: the surface is cleared, the box
    /// drawn, the cursor shown in it while it is typed into, and the
    /// opening effect played over it.
    pub fn draw(&self, frame: &mut Frame)
        ensures
            final(frame).area == old(frame).area,
            self.drawn(
                old(frame).ops@,
                final(frame).ops@,
                old(frame).area,
                old(frame).cursor,
                final(frame).cursor,
            ),
    {
        frame.render_widget(Widget::Clear, frame.area());
        let area = frame.area().inner_centered(40, 25);
        frame.render_widget(
            email_box(&self.input, self.input_mode == InputMode::Editing),
            area,
        );
        if self.input_mode == InputMode::Editing {
            frame.set_cursor_position(cursor_position(area, self.character_index));
        }
        frame.render_widget(Widget::IntroEffect(40), area);
        assert(final(frame).ops@.subrange(0, old(frame).ops@.len() as int) =~= old(frame).ops@);
    }
}

} // verus!
