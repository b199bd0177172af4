//! The panel that lists the key bindings.

use vstd::prelude::*;
use crate::action::{Action, InputMode};
use crate::component::{ActionSender, Ctx, Keymap};
use crate::keys::{KeyCode, KeyEvent, MouseEvent};
use crate::layout::{
    bordered_inner, cut_from, cut_through, cut_twice, framed_in, framed_through,
    inner_of_bordered, Direction, Layout, Rect, Sizing, Slack,
};
use crate::render::{Alignment, Block, BorderType, Color, Frame, Line, Style, Widget};

verus! {

pub struct Help {
    pub show: bool,
    pub menu_index: usize,
    pub action_tx: Option<ActionSender>,
    pub keymap: Keymap,
    pub area: Rect,
    pub content_area: Rect,
}

impl Help {
    pub fn new() -> (help: Help)
        ensures
            !help.show,
            help.menu_index == 0,
            help.action_tx.is_none(),
            help.area == Rect::zero(),
            help.content_area == Rect::zero(),
            help.keymap.entries@.len() == 0,
    {
        Help {
            show: false,
            menu_index: 0,
            action_tx: None,
            keymap: Keymap::new(),
            area: Rect::default(),
            content_area: Rect::default(),
        }
    }

    pub fn keymap(self, keymap: Keymap) -> (help: Help)
        ensures
            help == (Help { keymap, ..self }),
    {
        Help { keymap, ..self }
    }

    /// The place of the panel in `area`, as the layout solver cuts it:
    /// seventeen percent of the columns at the far end, and the rows at
    /// the bottom, both inside a margin of two.
    pub fn popup_area(area: Rect) -> (place: Rect)
        ensures
            cut_twice(Direction::Horizontal, (2, 0), (0, 2), area, place),
            cut_from(area, place),
    {
        let vertical = Layout::vertical(vec![Sizing::Min(3)]).flex(Slack::End).vertical_margin(2);
        let horizontal = Layout::horizontal(vec![Sizing::Percentage(17)]).flex(
            Slack::End,
        ).horizontal_margin(2);
        let columns = horizontal.single(area);
        let place = vertical.single(columns);
        assert(cut_through(Direction::Horizontal, (2, 0), (0, 2), area, columns, place));
        place
    }

    pub fn current_mode(&self) -> (mode: InputMode)
        ensures
            mode == InputMode::Normal,
    {
        InputMode::Normal
    }

    pub fn register_action_handler(&mut self, tx: ActionSender)
        ensures
            *final(self) == (Help { action_tx: Some(tx), ..*old(self) }),
    {
        self.action_tx = Some(tx);
    }

    /// Takes its place in `area` for the frame of the panel, and what
    /// lies inside the border for the list.
    pub fn register_layout_handler(&mut self, area: Rect)
        ensures
            cut_twice(Direction::Horizontal, (2, 0), (0, 2), area, final(self).area),
            cut_from(area, final(self).area),
            framed_in(Direction::Vertical, final(self).area, final(self).content_area),
            final(self).content_area.x == bordered_inner(final(self).area).x,
            final(self).content_area.width == bordered_inner(final(self).area).width,
            final(self).show == old(self).show,
            final(self).menu_index == old(self).menu_index,
            final(self).action_tx == old(self).action_tx,
            final(self).keymap == old(self).keymap,
    {
        let area = Help::popup_area(area);
        let layout = Layout::vertical(vec![Sizing::Min(1)]);
        let bottom_area = layout.single(area);
        self.area = area;
        self.content_area = inner_of_bordered(bottom_area);
        assert(framed_through(Direction::Vertical, self.area, bottom_area, self.content_area));
    }

    /// The panel takes no pointer events.
    pub fn handle_mouse_events(&mut self, mouse: MouseEvent) -> (action: Option<Action>)
        ensures
            action.is_none(),
            *final(self) == *old(self),
    {
        None
    }

    /// Escape hides the panel, and the enter key selects.
    pub fn handle_key_events(&mut self, key: KeyEvent) -> (action: Option<Action>)
        ensures
            action == match key.code {
                KeyCode::Esc => Some(Action::Update),
                KeyCode::Enter => Some(Action::SelectOption),
                _ => None,
            },
            *final(self) == (Help {
                show: if key.code is Esc {
                    false
                } else {
                    old(self).show
                },
                ..*old(self)
            }),
    {
        match key.code {
            KeyCode::Esc => {
                self.show = false;
                Some(Action::Update)
            },
            KeyCode::Enter => Some(Action::SelectOption),
            _ => None,
        }
    }

    /// The action that toggles the help shows the panel or hides it.
    pub fn update(&mut self, action: Action, ctx: &Ctx) -> (follow_up: Option<Action>)
        ensures
            follow_up.is_none(),
            *final(self) == (Help {
                show: if action is ToggleShowHelp {
                    !old(self).show
                } else {
                    old(self).show
                },
                ..*old(self)
            }),
    {
        if let Action::ToggleShowHelp = action {
            self.show = !self.show;
        }
        None
    }

    /// Draws the panel while it shows: its place is cleared, then comes
    /// the frame with its title.
    pub fn draw(&self, f: &mut Frame)
        ensures
            final(f).area == old(f).area,
            final(f).cursor == old(f).cursor,
            !self.show ==> final(f).ops@ == old(f).ops@,
            self.show ==> {
                let ops = final(f).ops@;
                let n = old(f).ops@.len() as int;
                &&& ops.len() == n + 2
                &&& ops.subrange(0, n) == old(f).ops@
                &&& ops[n].widget is Clear
                &&& ops[n].area == self.area
                &&& ops[n + 1].area == self.area
                &&& ops[n + 1].widget matches Widget::Block(b) && b.titles@.len() == 1
                    && b.titles@[0].line.text() == "Key-Bindings"@
            },
    {
        if self.show {
            let block = Block::bordered().border_type(BorderType::Rounded).title_top(
                Line::raw(String::from_str("Key-Bindings")).aligned(Alignment::Right),
            ).style(Style::new().fg(Color::White));
            f.render_widget(Widget::Clear, self.area);
            f.render_widget(Widget::Block(block), self.area);
            assert(final(f).ops@.subrange(0, old(f).ops@.len() as int) =~= old(f).ops@);
        }
    }
}

} // verus!
