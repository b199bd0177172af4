//! A stack of dialogs that wait for an answer.

use vstd::prelude::*;
use crate::action::{Action, InputMode};
use crate::component::{ActionSender, Ctx, Keymap, Modal};
use crate::components::toast::TOAST_SECONDS;
use crate::keys::{KeyCode, KeyEvent, MouseEvent};
use crate::layout::{
    bordered_inner, cut_through, cut_twice, framed_in, framed_through, inner_of_bordered, within,
    Direction, Layout, Rect, Sizing, Slack,
};
use crate::render::{Alignment, Block, Color, Frame, Line, Paragraph, Span, Style, Widget};

verus! {

/// The answer after `index` in a dialog of two answers.
pub open spec fn next_answer(index: usize) -> usize {
    ((index + 1) % 2) as usize
}

/// The answer before `index` in a dialog of two answers.
pub open spec fn previous_answer(index: usize) -> usize {
    if index == 0 {
        1
    } else {
        ((index - 1) % 2) as usize
    }
}

/// Moves on to the next of two answers.
pub fn cycle_forward(index: usize) -> (next: usize)
    ensures
        next == next_answer(index),
{
    (index % 2 + 1) % 2
}

/// Moves back to the previous of two answers.
pub fn cycle_back(index: usize) -> (previous: usize)
    ensures
        previous == previous_answer(index),
{
    if index == 0 {
        1
    } else {
        (index - 1) % 2
    }
}

/// The dialog that an action asks for.
pub open spec fn dialog(title: String, body: String) -> Modal {
    Modal { title: Some(title), content: body, subaction: None, duration: TOAST_SECONDS }
}

/// `stack` without its last entry, if it has one.
pub open spec fn popped(stack: Seq<Modal>) -> Seq<Modal> {
    if stack.len() > 0 {
        stack.drop_last()
    } else {
        stack
    }
}

pub struct Popup {
    pub popups: Vec<Modal>,
    pub menu_index: usize,
    pub action_tx: Option<ActionSender>,
    pub keymap: Keymap,
    pub area: Rect,
    pub content_area: Rect,
}

impl Popup {
    /// The stack after `action`.
    pub open spec fn stack_after(&self, action: Action) -> Seq<Modal> {
        let stack = self.popups@;
        match action {
            Action::Popup(title, body) => stack.push(dialog(title, body)),
            Action::SelectOption => if stack.len() > 0 && self.menu_index <= 1 {
                popped(stack)
            } else {
                stack
            },
            Action::ClosePopup => popped(stack),
            _ => stack,
        }
    }

    /// The answer that is marked after `action`.
    pub open spec fn answer_after(&self, action: Action) -> usize {
        if self.popups@.len() == 0 {
            self.menu_index
        } else {
            match action {
                Action::Forward => next_answer(self.menu_index),
                Action::Back => previous_answer(self.menu_index),
                _ => self.menu_index,
            }
        }
    }

    /// What follows from `action`: the follow-up of the dialog in
    /// front, where the answer is yes.
    pub open spec fn follow_up(&self, action: Action) -> Option<Action> {
        if self.popups@.len() > 0 && action is SelectOption && self.menu_index == 1 {
            self.popups@[0].subaction
        } else {
            None
        }
    }

    pub fn new() -> (popup: Popup)
        ensures
            popup.popups@.len() == 0,
            popup.menu_index == 0,
            popup.action_tx.is_none(),
            popup.area == Rect::zero(),
            popup.content_area == Rect::zero(),
            popup.keymap.entries@.len() == 0,
    {
        Popup {
            popups: Vec::new(),
            menu_index: 0,
            action_tx: None,
            keymap: Keymap::new(),
            area: Rect::default(),
            content_area: Rect::default(),
        }
    }

    pub fn keymap(self, keymap: Keymap) -> (popup: Popup)
        ensures
            popup == (Popup { keymap, ..self }),
    {
        Popup { keymap, ..self }
    }

    /// The middle of `area` that dialogs show in, as the layout solver
    /// cuts it: fifteen percent of the rows, `percent_x` percent of the
    /// columns.
    pub fn popup_area(area: Rect, percent_x: u16) -> (middle: Rect)
        ensures
            cut_twice(Direction::Vertical, (0, 0), (0, 0), area, middle),
            within(area, middle),
    {
        let vertical = Layout::vertical(vec![Sizing::Percentage(15)]).flex(Slack::Center);
        let horizontal = Layout::horizontal(vec![Sizing::Percentage(percent_x)]).flex(
            Slack::Center,
        );
        let rows = vertical.single(area);
        let middle = horizontal.single(rows);
        assert(cut_through(Direction::Vertical, (0, 0), (0, 0), area, rows, middle));
        middle
    }

    pub fn current_mode(&self) -> (mode: InputMode)
        ensures
            mode == InputMode::Normal,
    {
        InputMode::Normal
    }

    pub fn register_action_handler(&mut self, tx: ActionSender)
        ensures
            *final(self) == (Popup { action_tx: Some(tx), ..*old(self) }),
    {
        self.action_tx = Some(tx);
    }

    /// Takes the middle of `area` for the frame of the dialog, and what
    /// lies inside its border for the text.
    pub fn register_layout_handler(&mut self, area: Rect)
        ensures
            cut_twice(Direction::Vertical, (0, 0), (0, 0), area, final(self).area),
            within(area, final(self).area),
            framed_in(Direction::Vertical, final(self).area, final(self).content_area),
            final(self).content_area.x == bordered_inner(final(self).area).x,
            final(self).content_area.width == bordered_inner(final(self).area).width,
            final(self).popups == old(self).popups,
            final(self).menu_index == old(self).menu_index,
            final(self).action_tx == old(self).action_tx,
            final(self).keymap == old(self).keymap,
    {
        let area = Popup::popup_area(area, 15);
        self.area = area;
        let layout = Layout::vertical(vec![Sizing::Min(1)]);
        let bottom_area = layout.single(area);
        self.content_area = inner_of_bordered(bottom_area);
        assert(framed_through(Direction::Vertical, self.area, bottom_area, self.content_area));
    }

    /// Dialogs take no pointer events.
    pub fn handle_mouse_events(&mut self, mouse: MouseEvent) -> (action: Option<Action>)
        ensures
            action.is_none(),
            *final(self) == *old(self),
    {
        None
    }

    /// Escape closes the dialog, and the enter key gives the answer.
    pub fn handle_key_events(&mut self, key: KeyEvent) -> (action: Option<Action>)
        ensures
            action == match key.code {
                KeyCode::Esc => Some(Action::ClosePopup),
                KeyCode::Enter => Some(Action::SelectOption),
                _ => None,
            },
            *final(self) == *old(self),
    {
        match key.code {
            KeyCode::Esc => Some(Action::ClosePopup),
            KeyCode::Enter => Some(Action::SelectOption),
            _ => None,
        }
    }

    /// Reacts to `action`. A new dialog goes on the stack. While there
    /// are dialogs, forward and back move between the two answers, and
    /// selecting takes the last dialog off the stack: with the answer
    /// no nothing follows, with the answer yes the follow-up of the
    /// dialog in front does. Closing takes the last dialog off too.
    pub fn update(&mut self, action: Action, ctx: &Ctx) -> (follow_up: Option<Action>)
        ensures
            follow_up == old(self).follow_up(action),
            final(self).popups@ == old(self).stack_after(action),
            final(self).menu_index == old(self).answer_after(action),
            final(self).action_tx == old(self).action_tx,
            final(self).keymap == old(self).keymap,
            final(self).area == old(self).area,
            final(self).content_area == old(self).content_area,
    {
        if self.popups.len() > 0 {
            match action {
                Action::Forward => {
                    self.menu_index = cycle_forward(self.menu_index);
                },
                Action::Back => {
                    self.menu_index = cycle_back(self.menu_index);
                },
                Action::Popup(title, body) => {
                    self.popups.push(
                        Modal {
                            title: Some(title),
                            content: body,
                            subaction: None,
                            duration: TOAST_SECONDS,
                        },
                    );
                },
                Action::SelectOption => {
                    if self.menu_index == 0 {
                        self.popups.pop();
                    } else if self.menu_index == 1 {
                        let thing = match &self.popups[0].subaction {
                            Some(follow) => Some(follow.clone()),
                            None => None,
                        };
                        self.popups.pop();
                        assert(self.popups@ =~= old(self).popups@.drop_last());
                        return thing;
                    }
                    assert(self.popups@ =~= old(self).stack_after(action));
                },
                Action::ClosePopup => {
                    self.popups.pop();
                    assert(self.popups@ =~= old(self).popups@.drop_last());
                },
                _ => {},
            }
        } else if let Action::Popup(title, body) = action {
            self.popups.push(
                Modal {
                    title: Some(title),
                    content: body,
                    subaction: None,
                    duration: TOAST_SECONDS,
                },
            );
        }
        None
    }

    /// The title of the dialog in front: its own, or `Popup`.
    pub open spec fn front_title(&self) -> Seq<char> {
        match self.popups@[0].title {
            Some(title) => title@,
            None => "Popup"@,
        }
    }

    /// The line of answers, with the marked one on yellow.
    pub fn answers(menu_index: usize) -> (line: Line)
        ensures
            line.spans@.len() == 3,
            line.spans@[0].content@ == "No"@,
            line.spans@[1].content@ == "|"@,
            line.spans@[2].content@ == "Yes"@,
            line.spans@[0].style == if menu_index == 0 {
                Style { bg: Some(Color::Yellow), ..Style::plain() }
            } else {
                Style::plain()
            },
            line.spans@[2].style == if menu_index == 1 {
                Style { bg: Some(Color::Yellow), ..Style::plain() }
            } else {
                Style::plain()
            },
    {
        let no = if menu_index == 0 {
            Style::new().bg(Color::Yellow)
        } else {
            Style::new()
        };
        let yes = if menu_index == 1 {
            Style::new().bg(Color::Yellow)
        } else {
            Style::new()
        };
        let mut spans: Vec<Span> = Vec::new();
        spans.push(Span::styled(String::from_str("No"), no));
        spans.push(Span::raw(String::from_str("|")));
        spans.push(Span::styled(String::from_str("Yes"), yes));
        Line::from_spans(spans)
    }

    /// Draws the dialog in front, if there is one: its place is
    /// cleared, then come the frame with the title and, inside it, the
    /// text and the line of answers, which is empty where nothing
    /// follows from the dialog.
    pub fn draw(&self, f: &mut Frame)
        ensures
            final(f).area == old(f).area,
            final(f).cursor == old(f).cursor,
            self.popups@.len() == 0 ==> final(f).ops@ == old(f).ops@,
            self.popups@.len() > 0 ==> {
                let ops = final(f).ops@;
                let n = old(f).ops@.len() as int;
                &&& ops.len() == n + 3
                &&& ops.subrange(0, n) == old(f).ops@
                &&& ops[n].widget is Clear
                &&& ops[n].area == self.area
                &&& ops[n + 1].area == self.area
                &&& ops[n + 1].widget matches Widget::Block(b) && b.titles@.len() == 2
                    && b.titles@[0].line.text() == self.front_title()
                &&& ops[n + 2].area == self.content_area
                &&& ops[n + 2].widget matches Widget::Paragraph(p) && p.lines@.len() == 3
                    && p.lines@[0].text() == self.popups@[0].content@ && p.lines@[2].spans@.len()
                    == (if self.popups@[0].subaction.is_some() {
                    3nat
                } else {
                    0nat
                })
            },
    {
        if self.popups.len() == 0 {
            return ;
        }
        let title = match &self.popups[0].title {
            Some(title) => title.clone(),
            None => String::from_str("Popup"),
        };
        let content = self.popups[0].content.clone();
        let block = Block::bordered().title_top(Line::raw(title).aligned(Alignment::Left)).title_top(
            Line::raw(String::from_str("[x]")).aligned(Alignment::Right),
        ).style(Style::new().bg(Color::Black).fg(Color::White));
        let mut text: Vec<Line> = Vec::new();
        text.push(Line::raw(content).aligned(Alignment::Center));
        text.push(Line::empty());
        if self.popups[0].subaction.is_some() {
            text.push(Popup::answers(self.menu_index));
        } else {
            text.push(Line::empty());
        }
        let confirm = Paragraph::new(text).wrap().style(Style::new().bold()).alignment(
            Alignment::Left,
        );
        f.render_widget(Widget::Clear, self.area);
        f.render_widget(Widget::Block(block), self.area);
        f.render_widget(Widget::Paragraph(confirm), self.content_area);
        assert(final(f).ops@.subrange(0, old(f).ops@.len() as int) =~= old(f).ops@);
    }
}

} // verus!
