//! The dialog that asks before the application closes.

use vstd::prelude::*;
use crate::action::{Action, InputMode};
use crate::component::{emit, handed, ActionSender, Ctx, Keymap, Outgoing};
use crate::components::popup::{cycle_back, cycle_forward, next_answer, previous_answer, Popup};
use crate::keys::{KeyCode, KeyEvent, MouseEvent};
use crate::layout::{
    bordered_inner, cut_from, cut_through, cut_twice, framed_in, framed_through,
    inner_of_bordered, Direction, Layout, Rect, Sizing, Slack,
};
use crate::render::{Alignment, Block, BorderType, Color, Frame, Line, Paragraph, Style, Widget};

verus! {

pub struct Quit {
    pub show: bool,
    pub menu_index: usize,
    pub action_tx: Option<ActionSender>,
    pub keymap: Keymap,
    pub area: Rect,
    pub content_area: Rect,
}

impl Quit {
    /// Whether the dialog shows after `action`.
    pub open spec fn shows_after(&self, action: Action) -> bool {
        if action is ToggleShowQuit {
            true
        } else if !self.show {
            false
        } else {
            match action {
                Action::SelectOption => self.menu_index > 1,
                Action::ClosePopup => false,
                _ => true,
            }
        }
    }

    /// The answer that is marked after `action`.
    pub open spec fn answer_after(&self, action: Action) -> usize {
        if action is ToggleShowQuit {
            0
        } else if !self.show {
            self.menu_index
        } else {
            match action {
                Action::Forward => next_answer(self.menu_index),
                Action::Back => previous_answer(self.menu_index),
                _ => self.menu_index,
            }
        }
    }

    /// What `action` sends: the order to quit, where the dialog shows
    /// and the answer is yes.
    pub open spec fn sends(&self, action: Action) -> Seq<Outgoing> {
        if self.show && action is SelectOption && self.menu_index == 1 {
            seq![Outgoing::Send(Action::Quit)]
        } else {
            Seq::<Outgoing>::empty()
        }
    }

    pub fn new() -> (quit: Quit)
        ensures
            !quit.show,
            quit.menu_index == 0,
            quit.action_tx.is_none(),
            quit.area == Rect::zero(),
            quit.content_area == Rect::zero(),
            quit.keymap.entries@.len() == 0,
    {
        Quit {
            show: false,
            menu_index: 0,
            action_tx: None,
            keymap: Keymap::new(),
            area: Rect::default(),
            content_area: Rect::default(),
        }
    }

    pub fn keymap(self, keymap: Keymap) -> (quit: Quit)
        ensures
            quit == (Quit { keymap, ..self }),
    {
        Quit { keymap, ..self }
    }

    /// The place of the dialog in `area`, as the layout solver cuts it:
    /// three rows below a margin of three, and fifteen percent of the
    /// columns in the middle.
    pub fn quit_area(area: Rect) -> (place: Rect)
        ensures
            cut_twice(Direction::Vertical, (0, 3), (0, 0), area, place),
            cut_from(area, place),
    {
        let vertical = Layout::vertical(vec![Sizing::Length(3)]).flex(
            Slack::Start,
        ).vertical_margin(3);
        let horizontal = Layout::horizontal(vec![Sizing::Percentage(15)]).flex(Slack::Center);
        let rows = vertical.single(area);
        let place = horizontal.single(rows);
        assert(cut_through(Direction::Vertical, (0, 3), (0, 0), area, rows, place));
        place
    }

    pub fn current_mode(&self) -> (mode: InputMode)
        ensures
            mode == InputMode::Normal,
    {
        InputMode::Normal
    }

    pub fn register_action_handler(&mut self, tx: ActionSender)
        ensures
            *final(self) == (Quit { action_tx: Some(tx), ..*old(self) }),
    {
        self.action_tx = Some(tx);
    }

    /// Takes its place in `area` for the frame of the dialog, and what
    /// lies inside the border for the answers.
    pub fn register_layout_handler(&mut self, area: Rect)
        ensures
            cut_twice(Direction::Vertical, (0, 3), (0, 0), area, final(self).area),
            cut_from(area, final(self).area),
            framed_in(Direction::Horizontal, final(self).area, final(self).content_area),
            final(self).content_area.y == bordered_inner(final(self).area).y,
            final(self).content_area.height == bordered_inner(final(self).area).height,
            final(self).show == old(self).show,
            final(self).menu_index == old(self).menu_index,
            final(self).action_tx == old(self).action_tx,
            final(self).keymap == old(self).keymap,
    {
        let area = Quit::quit_area(area);
        let layout = Layout::horizontal(vec![Sizing::Min(1)]);
        let bottom_area = layout.single(area);
        self.area = area;
        self.content_area = inner_of_bordered(bottom_area);
        assert(framed_through(Direction::Horizontal, self.area, bottom_area, self.content_area));
    }

    /// The dialog takes no pointer events.
    pub fn handle_mouse_events(&mut self, mouse: MouseEvent) -> (action: Option<Action>)
        ensures
            action.is_none(),
            *final(self) == *old(self),
    {
        None
    }

    /// While the dialog shows, escape closes it, the enter key gives
    /// the answer, and `h` and `l` move between the answers.
    pub fn handle_key_events(&mut self, key: KeyEvent) -> (action: Option<Action>)
        ensures
            action == if !old(self).show {
                None
            } else {
                match key.code {
                    KeyCode::Esc => Some(Action::ClosePopup),
                    KeyCode::Enter => Some(Action::SelectOption),
                    KeyCode::Char(c) => if c == 'h' {
                        Some(Action::Back)
                    } else if c == 'l' {
                        Some(Action::Forward)
                    } else {
                        None
                    },
                    _ => None,
                }
            },
            *final(self) == *old(self),
    {
        if !self.show {
            return None;
        }
        match key.code {
            KeyCode::Esc => Some(Action::ClosePopup),
            KeyCode::Enter => Some(Action::SelectOption),
            KeyCode::Char('h') => Some(Action::Back),
            KeyCode::Char('l') => Some(Action::Forward),
            _ => None,
        }
    }

    /// Reacts to `action`. While the dialog shows, forward and back
    /// move between the two answers, selecting closes the dialog, and
    /// with the answer yes it sends the order to quit; closing closes
    /// it. The action that asks for the dialog shows it with the answer
    /// no marked.
    pub fn update(&mut self, action: Action, ctx: &Ctx) -> (follow_up: Option<Action>)
        ensures
            follow_up.is_none(),
            final(self).show == old(self).shows_after(action),
            final(self).menu_index == old(self).answer_after(action),
            handed(old(self).action_tx, final(self).action_tx, old(self).sends(action)),
            final(self).keymap == old(self).keymap,
            final(self).area == old(self).area,
            final(self).content_area == old(self).content_area,
    {
        proof {
            if old(self).action_tx.is_some() {
                assert(old(self).action_tx->0.queue@ + Seq::<Outgoing>::empty() =~= old(self).action_tx->0.queue@);
            }
        }
        if self.show {
            match action {
                Action::Forward => {
                    self.menu_index = cycle_forward(self.menu_index);
                },
                Action::SelectOption => {
                    if self.menu_index == 0 {
                        self.show = false;
                    } else if self.menu_index == 1 {
                        emit(&mut self.action_tx, Action::Quit);
                        self.show = false;
                    }
                },
                Action::Back => {
                    self.menu_index = cycle_back(self.menu_index);
                },
                Action::ClosePopup => {
                    self.show = false;
                },
                _ => {},
            }
        }
        if let Action::ToggleShowQuit = action {
            self.menu_index = 0;
            self.show = true;
        }
        None
    }

    /// Draws the dialog while it shows: its place is cleared, then come
    /// the frame with the question and the line of answers inside it.
    pub fn draw(&self, f: &mut Frame)
        ensures
            final(f).area == old(f).area,
            final(f).cursor == old(f).cursor,
            !self.show ==> final(f).ops@ == old(f).ops@,
            self.show ==> {
                let ops = final(f).ops@;
                let n = old(f).ops@.len() as int;
                &&& ops.len() == n + 3
                &&& ops.subrange(0, n) == old(f).ops@
                &&& ops[n].widget is Clear
                &&& ops[n].area == self.area
                &&& ops[n + 1].area == self.area
                &&& ops[n + 1].widget matches Widget::Block(b) && b.titles@.len() == 1
                    && b.titles@[0].line.text() == "Close Application?"@
                &&& ops[n + 2].area == self.content_area
                &&& ops[n + 2].widget matches Widget::Paragraph(p) && p.lines@.len() == 1
                    && p.lines@[0].spans@.len() == 3
            },
    {
        if self.show {
            let block = Block::bordered().border_type(BorderType::Rounded).title_top(
                Line::raw(String::from_str("Close Application?")).aligned(Alignment::Center),
            ).style(Style::new().fg(Color::White));
            let mut text: Vec<Line> = Vec::new();
            text.push(Popup::answers(self.menu_index));
            let confirm = Paragraph::new(text).style(Style::new().bold()).alignment(
                Alignment::Left,
            );
            f.render_widget(Widget::Clear, self.area);
            f.render_widget(Widget::Block(block), self.area);
            f.render_widget(Widget::Paragraph(confirm), self.content_area);
            assert(final(f).ops@.subrange(0, old(f).ops@.len() as int) =~= old(f).ops@);
        }
    }
}

} // verus!
