//! The menu that lists the pages.

use vstd::prelude::*;
use crate::action::{navigable_modes, Action, InputMode, Mode};
use crate::component::{ActionSender, Ctx, Keymap};
use crate::keys::{KeyCode, KeyEvent, MouseEvent};
use crate::layout::{
    cut_from, cut_through, cut_twice, framed_in, framed_through, inner_of_bordered, Direction,
    Layout, Rect, Sizing, Slack,
};
use crate::list::{next_index, previous_index, ListState, StatefulList};
use crate::render::{
    Alignment, Block, BorderType, Color, Frame, Line, List, ListItem, Style, Widget, BORDER_BOTTOM,
    BORDER_RIGHT, BORDER_TOP,
};

verus! {

/// The page that a list of pages has selected; without a selection, its
/// first page.
pub open spec fn chosen(options: StatefulList<Mode>) -> Option<Mode> {
    let index = match options.state.selected {
        Some(i) => i as int,
        None => 0,
    };
    if index < options.items@.len() {
        Some(options.items@[index])
    } else {
        None
    }
}

/// The page that `options` has selected; without a selection, its first
/// page.
pub fn choose_mode(options: &StatefulList<Mode>) -> (mode: Option<Mode>)
    ensures
        mode == chosen(*options),
{
    let index = match options.state.selected() {
        Some(i) => i,
        None => 0,
    };
    if index < options.items.len() {
        Some(options.items[index])
    } else {
        None
    }
}

/// The rows of a list that names the pages `modes`.
pub fn mode_rows(modes: &Vec<Mode>) -> (rows: Vec<ListItem>)
    ensures
        rows@.len() == modes@.len(),
        forall|i: int|
            0 <= i < rows@.len() ==> (#[trigger] rows@[i]).line.text() == modes@[i].spec_label(),
{
    let mut rows: Vec<ListItem> = Vec::new();
    let mut i: usize = 0;
    while i < modes.len()
        invariant
            i <= modes@.len(),
            rows@.len() == i,
            forall|k: int|
                0 <= k < i ==> (#[trigger] rows@[k]).line.text() == modes@[k].spec_label(),
        decreases modes@.len() - i,
    {
        rows.push(
            ListItem { line: Line::raw(String::from_str(modes[i].label())), style: Style::new() },
        );
        i += 1;
    }
    rows
}

pub struct Menu {
    pub show: bool,
    pub options: StatefulList<Mode>,
    pub action_tx: Option<ActionSender>,
    pub keymap: Keymap,
    pub area: Rect,
    pub areas: Vec<Rect>,
}

impl Menu {
    /// The selection after `action`.
    pub open spec fn selected_after(&self, action: Action) -> Option<usize> {
        if !self.show {
            self.options.state.selected
        } else {
            match action {
                Action::Forward => next_index(self.options.state.selected, self.options.items@.len()),
                Action::Back => previous_index(
                    self.options.state.selected,
                    self.options.items@.len(),
                ),
                _ => self.options.state.selected,
            }
        }
    }

    /// What follows from `action`: while the menu shows, selecting
    /// changes to the page that is selected.
    pub open spec fn follow_up(&self, action: Action) -> Option<Action> {
        if self.show && action is SelectOption {
            match chosen(self.options) {
                Some(mode) => Some(Action::ChangeMode(mode)),
                None => None,
            }
        } else {
            None
        }
    }

    /// A hidden menu of all pages.
    pub fn new() -> (menu: Menu)
        ensures
            !menu.show,
            menu.options.items@ == navigable_modes(),
            menu.options.state == (ListState { offset: 0, selected: None }),
            menu.action_tx.is_none(),
            menu.area == Rect::zero(),
            menu.areas@.len() == 0,
            menu.keymap.entries@.len() == 0,
    {
        Menu {
            show: false,
            options: StatefulList::with_items(Mode::all()),
            action_tx: None,
            keymap: Keymap::new(),
            area: Rect::default(),
            areas: Vec::new(),
        }
    }

    pub fn keymap(self, keymap: Keymap) -> (menu: Menu)
        ensures
            menu == (Menu { keymap, ..self }),
    {
        Menu { keymap, ..self }
    }

    /// The place of the menu in `area`, as the layout solver cuts it: a
    /// row for each page and two for the border, below a margin of two,
    /// and fifteen percent of the columns at the near end.
    pub fn popup_area(area: Rect) -> (place: Rect)
        ensures
            cut_twice(Direction::Vertical, (0, 2), (0, 0), area, place),
            cut_from(area, place),
    {
        let vertical = Layout::vertical(vec![Sizing::Length(Mode::COUNT as u16 + 2)]).flex(
            Slack::Start,
        ).vertical_margin(2);
        let horizontal = Layout::horizontal(vec![Sizing::Percentage(15)]).flex(Slack::Start);
        let rows = vertical.single(area);
        let place = horizontal.single(rows);
        assert(cut_through(Direction::Vertical, (0, 2), (0, 0), area, rows, place));
        place
    }

    pub fn current_mode(&self) -> (mode: InputMode)
        ensures
            mode == InputMode::Normal,
    {
        InputMode::Normal
    }

    pub fn register_action_handler(&mut self, tx: ActionSender)
        ensures
            *final(self) == (Menu { action_tx: Some(tx), ..*old(self) }),
    {
        self.action_tx = Some(tx);
    }

    /// Takes its place in `area` for the frame of the menu, and what
    /// lies inside the border as the one area for the list.
    pub fn register_layout_handler(&mut self, area: Rect)
        ensures
            cut_twice(Direction::Vertical, (0, 2), (0, 0), area, final(self).area),
            cut_from(area, final(self).area),
            framed_in(Direction::Vertical, final(self).area, final(self).areas@[0]),
            final(self).areas@.len() == 1,
            final(self).show == old(self).show,
            final(self).options == old(self).options,
            final(self).action_tx == old(self).action_tx,
            final(self).keymap == old(self).keymap,
    {
        self.area = Menu::popup_area(area);
        let layout = Layout::vertical(vec![Sizing::Min(1)]);
        let bottom_area = layout.single(self.area);
        let content_area = inner_of_bordered(bottom_area);
        self.areas = vec![content_area];
        assert(framed_through(Direction::Vertical, self.area, bottom_area, content_area));
    }

    /// The menu takes no pointer events.
    pub fn handle_mouse_events(&mut self, mouse: MouseEvent) -> (action: Option<Action>)
        ensures
            action.is_none(),
            *final(self) == *old(self),
    {
        None
    }

    /// While the menu shows, escape hides it.
    pub fn handle_key_events(&mut self, key: KeyEvent) -> (action: Option<Action>)
        ensures
            action == if old(self).show && key.code is Esc {
                Some(Action::Update)
            } else {
                None
            },
            *final(self) == (Menu {
                show: old(self).show && !(key.code is Esc),
                ..*old(self)
            }),
    {
        if !self.show {
            return None;
        }
        match key.code {
            KeyCode::Esc => {
                self.show = false;
                Some(Action::Update)
            },
            _ => None,
        }
    }

    /// Reacts to `action` while the menu shows: forward and back move
    /// the selection round the list, and selecting asks for the page
    /// that is selected.
    pub fn update(&mut self, action: Action, ctx: &Ctx) -> (follow_up: Option<Action>)
        ensures
            follow_up == old(self).follow_up(action),
            final(self).options.items == old(self).options.items,
            final(self).options.state.selected == old(self).selected_after(action),
            final(self).options.state.offset == if (old(self).show && (action is Forward || action is Back)) && (old(self).selected_after(action)).is_none() {
                0
            } else {
                old(self).options.state.offset
            },
            final(self).show == old(self).show,
            final(self).action_tx == old(self).action_tx,
            final(self).keymap == old(self).keymap,
            final(self).area == old(self).area,
            final(self).areas == old(self).areas,
    {
        if !self.show {
            return None;
        }
        match action {
            Action::Forward => self.options.next(),
            Action::SelectOption => {
                if let Some(mode) = choose_mode(&self.options) {
                    return Some(Action::ChangeMode(mode));
                }
            },
            Action::Back => self.options.previous(),
            _ => {},
        }
        None
    }

    /// The menu has the area that drawing needs: a layout pass has
    /// cached it.
    pub open spec fn laid_out(&self) -> bool {
        self.areas@.len() > 0
    }

    /// Draws the menu while it shows: its place is cleared, then come
    /// the frame and the list of the pages by name, with the selection.
    /// Before a layout pass has cached the area, nothing is drawn.
    pub fn draw(&self, f: &mut Frame)
        ensures
            final(f).area == old(f).area,
            final(f).cursor == old(f).cursor,
            !(self.show && self.laid_out()) ==> final(f).ops@ == old(f).ops@,
            self.show && self.laid_out() ==> {
                let ops = final(f).ops@;
                let n = old(f).ops@.len() as int;
                &&& ops.len() == n + 3
                &&& ops.subrange(0, n) == old(f).ops@
                &&& ops[n].widget is Clear
                &&& ops[n].area == self.area
                &&& ops[n + 1].area == self.area
                &&& ops[n + 1].widget is Block
                &&& ops[n + 2].area == self.areas@[0]
                &&& ops[n + 2].widget matches Widget::List(list) && list.state == Some(
                    self.options.state,
                ) && list.items@.len() == self.options.items@.len() && forall|i: int|
                    0 <= i < list.items@.len() ==> (#[trigger] list.items@[i]).line.text()
                        == self.options.items@[i].spec_label()
            },
    {
        if self.show && self.areas.len() > 0 {
            let block = Block::new().borders(BORDER_TOP | BORDER_RIGHT | BORDER_BOTTOM).border_type(
                BorderType::Rounded,
            ).title_top(Line::raw(String::from_str("Menu")).aligned(Alignment::Left)).style(
                Style::new().fg(Color::White),
            );
            f.render_widget(Widget::Clear, self.area);
            let text = mode_rows(&self.options.items);
            let options = List::new(text).highlight_style(
                Style::new().bold().bg(Color::Yellow).fg(Color::White),
            );
            f.render_widget(Widget::Block(block), self.area);
            f.render_stateful_widget(options, self.areas[0], &self.options.state);
            assert(final(f).ops@.subrange(0, old(f).ops@.len() as int) =~= old(f).ops@);
        }
    }
}

} // verus!
