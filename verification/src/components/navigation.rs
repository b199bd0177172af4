//! The bar of tabs, one for each page.

use vstd::prelude::*;
use crate::action::{navigable_modes, Action, InputMode, Mode};
use crate::component::{ActionSender, Ctx, Keymap};
use crate::components::menu::{choose_mode, chosen};
use crate::keys::{KeyCode, KeyEvent, MouseButton, MouseEvent, MouseEventKind};
use crate::layout::{column_of, split_holds, Direction, Layout, Position, Rect, Sizing};
use crate::list::{next_index, previous_index, ListState, StatefulList};
use crate::render::{
    Alignment, Block, Color, Frame, Line, Paragraph, Style, Widget, BORDER_BOTTOM,
};
use crate::text::{push_str, string_from};

verus! {

/// The tab that is lit after the pointer moved to `at` and the first
/// `n` tabs were looked at: the last tab that holds the pointer, and
/// none once a tab is found that misses it while the whole bar misses
/// it too.
pub open spec fn lit(
    areas: Seq<Rect>,
    bar: Rect,
    at: Position,
    current: Option<Mode>,
    n: int,
) -> Option<Mode>
    decreases n,
{
    if n <= 0 {
        current
    } else {
        let before = lit(areas, bar, at, current, n - 1);
        let tab = areas[n - 1];
        if tab.spec_contains(at) {
            if n - 1 < navigable_modes().len() {
                Some(navigable_modes()[n - 1])
            } else {
                before
            }
        } else if !bar.spec_contains(at) {
            None
        } else {
            before
        }
    }
}

/// The last of the first `n` tabs that holds `at` and stands for a
/// page.
pub open spec fn hit(areas: Seq<Rect>, at: Position, n: int) -> Option<usize>
    decreases n,
{
    if n <= 0 {
        None
    } else if areas[n - 1].spec_contains(at) && n - 1 < navigable_modes().len() {
        Some((n - 1) as usize)
    } else {
        hit(areas, at, n - 1)
    }
}

/// The name of a tab as it is shown: in brackets where it is the
/// selected one, and else between blanks.
pub open spec fn tab_text(mode: Mode, selected: bool) -> Seq<char> {
    if selected {
        "["@ + mode.spec_label() + "]"@
    } else {
        " "@ + mode.spec_label() + " "@
    }
}

pub struct Navigation {
    pub options: StatefulList<Mode>,
    pub action_tx: Option<ActionSender>,
    pub keymap: Keymap,
    pub mouse: Option<MouseEvent>,
    pub current: Option<Mode>,
    pub areas: Vec<Rect>,
    pub area: Rect,
}

impl Navigation {
    /// Where the pointer was last seen.
    pub open spec fn pointer(&self) -> Position {
        Position { x: self.mouse->0.column, y: self.mouse->0.row }
    }

    /// The tab that is lit after a pointer event.
    pub open spec fn lit_after(&self) -> Option<Mode> {
        match self.mouse {
            Some(mouse) => if mouse.kind is Moved {
                lit(self.areas@, self.area, self.pointer(), self.current, self.areas@.len() as int)
            } else {
                self.current
            },
            None => self.current,
        }
    }

    /// The tab that a pointer event pressed, if it pressed one.
    pub open spec fn pressed(&self) -> Option<usize> {
        match self.mouse {
            Some(mouse) => if mouse.kind == MouseEventKind::Down(MouseButton::Left) {
                hit(self.areas@, self.pointer(), self.areas@.len() as int)
            } else {
                None
            },
            None => None,
        }
    }

    /// The selection after `action`.
    pub open spec fn selected_after(&self, action: Action) -> Option<usize> {
        match action {
            Action::NextView => next_index(self.options.state.selected, self.options.items@.len()),
            Action::PreviousView => previous_index(
                self.options.state.selected,
                self.options.items@.len(),
            ),
            _ => self.options.state.selected,
        }
    }

    /// A bar of all pages.
    pub fn new() -> (navigation: Navigation)
        ensures
            navigation.options.items@ == navigable_modes(),
            navigation.options.state == (ListState { offset: 0, selected: None }),
            navigation.action_tx.is_none(),
            navigation.mouse.is_none(),
            navigation.current.is_none(),
            navigation.areas@.len() == 0,
            navigation.area == Rect::zero(),
            navigation.keymap.entries@.len() == 0,
    {
        Navigation {
            options: StatefulList::with_items(Mode::all()),
            action_tx: None,
            keymap: Keymap::new(),
            mouse: None,
            current: None,
            areas: Vec::new(),
            area: Rect::default(),
        }
    }

    pub fn keymap(self, keymap: Keymap) -> (navigation: Navigation)
        ensures
            navigation == (Navigation { keymap, ..self }),
    {
        Navigation { keymap, ..self }
    }

    pub fn current_mode(&self) -> (mode: InputMode)
        ensures
            mode == InputMode::Normal,
    {
        InputMode::Normal
    }

    pub fn register_action_handler(&mut self, tx: ActionSender)
        ensures
            *final(self) == (Navigation { action_tx: Some(tx), ..*old(self) }),
    {
        self.action_tx = Some(tx);
    }

    /// Takes `area` for the bar and cuts it into a tab for each page:
    /// as many columns of the bar as there are pages.
    pub fn register_layout_handler(&mut self, area: Rect)
        ensures
            final(self).area == area,
            final(self).areas@.len() == Mode::COUNT,
            split_holds(Direction::Horizontal, Mode::COUNT as nat, 0, 0, area, final(self).areas@),
            forall|i: int|
                0 <= i < Mode::COUNT ==> column_of(area, #[trigger] final(self).areas@[i]),
            final(self).options == old(self).options,
            final(self).action_tx == old(self).action_tx,
            final(self).keymap == old(self).keymap,
            final(self).mouse == old(self).mouse,
            final(self).current == old(self).current,
    {
        self.area = area;
        let mut constraints: Vec<Sizing> = Vec::new();
        let mut i: usize = 0;
        while i < Mode::COUNT
            invariant
                i <= Mode::COUNT,
                constraints@.len() == i,
            decreases Mode::COUNT - i,
        {
            constraints.push(Sizing::Min(1));
            i += 1;
        }
        self.areas = Layout::horizontal(constraints).split(area);
    }

    /// Reacts to the pointer event that was noted last. A move lights
    /// the tab under the pointer, or none once the pointer has left the
    /// bar. A press of the left button on a tab selects it and asks for
    /// its page.
    pub fn handle_mouse_events(&mut self, mouse: MouseEvent) -> (action: Option<Action>)
        ensures
            final(self).current == old(self).lit_after(),
            action == match old(self).pressed() {
                Some(i) => Some(Action::ChangeMode(navigable_modes()[i as int])),
                None => None,
            },
            final(self).options.items == old(self).options.items,
            final(self).options.state.selected == match old(self).pressed() {
                Some(i) => Some(i),
                None => old(self).options.state.selected,
            },
            final(self).options.state.offset == old(self).options.state.offset,
            final(self).action_tx == old(self).action_tx,
            final(self).keymap == old(self).keymap,
            final(self).mouse == old(self).mouse,
            final(self).areas == old(self).areas,
            final(self).area == old(self).area,
    {
        let seen = match self.mouse {
            Some(seen) => seen,
            None => {
                return None;
            },
        };
        let at = Position::new(seen.column, seen.row);
        let modes = Mode::all();
        let mut action: Option<Action> = None;
        let mut i: usize = 0;
        while i < self.areas.len()
            invariant
                i <= self.areas@.len(),
                modes@ == navigable_modes(),
                self.mouse == Some(seen),
                at == old(self).pointer(),
                self.areas == old(self).areas,
                self.area == old(self).area,
                self.action_tx == old(self).action_tx,
                self.keymap == old(self).keymap,
                self.mouse == old(self).mouse,
                self.options.items == old(self).options.items,
                self.options.state.offset == old(self).options.state.offset,
                self.current == if seen.kind is Moved {
                    lit(old(self).areas@, old(self).area, at, old(self).current, i as int)
                } else {
                    old(self).current
                },
                seen.kind == MouseEventKind::Down(MouseButton::Left) ==> {
                    &&& self.options.state.selected == match hit(old(self).areas@, at, i as int) {
                        Some(k) => Some(k),
                        None => old(self).options.state.selected,
                    }
                    &&& action == match hit(old(self).areas@, at, i as int) {
                        Some(k) => Some(Action::ChangeMode(navigable_modes()[k as int])),
                        None => None,
                    }
                },
                seen.kind != MouseEventKind::Down(MouseButton::Left) ==> action.is_none()
                    && self.options.state.selected == old(self).options.state.selected,
            decreases self.areas@.len() - i,
        {
            let tab = self.areas[i];
            let inside = tab.contains(at);
            if let MouseEventKind::Moved = seen.kind {
                if inside {
                    if i < modes.len() {
                        self.current = Some(modes[i]);
                    }
                } else if !self.area.contains(at) {
                    self.current = None;
                }
            }
            if seen.kind == MouseEventKind::Down(MouseButton::Left) && inside && i < modes.len() {
                self.options.state.select(Some(i));
                action = Some(Action::ChangeMode(modes[i]));
            }
            i += 1;
        }
        action
    }

    /// Escape leaves the bar, and the enter key selects.
    pub fn handle_key_events(&mut self, key: KeyEvent) -> (action: Option<Action>)
        ensures
            action == match key.code {
                KeyCode::Esc => Some(Action::EnterNormal),
                KeyCode::Enter => Some(Action::SelectOption),
                _ => None,
            },
            *final(self) == *old(self),
    {
        match key.code {
            KeyCode::Esc => Some(Action::EnterNormal),
            KeyCode::Enter => Some(Action::SelectOption),
            _ => None,
        }
    }

    /// Reacts to `action`: going to the next or the previous view moves
    /// the selection round the tabs and asks for the page that is then
    /// selected; a pointer event is noted for `handle_mouse_events`.
    pub fn update(&mut self, action: Action, ctx: &Ctx) -> (follow_up: Option<Action>)
        ensures
            final(self).options.items == old(self).options.items,
            final(self).options.state.selected == old(self).selected_after(action),
            final(self).options.state.offset == if (action is NextView || action is PreviousView) && (old(self).selected_after(action)).is_none() {
                0
            } else {
                old(self).options.state.offset
            },
            follow_up == if action is NextView || action is PreviousView {
                match chosen(final(self).options) {
                    Some(mode) => Some(Action::ChangeMode(mode)),
                    None => None,
                }
            } else {
                None
            },
            final(self).mouse == match action {
                Action::Mouse(mouse) => Some(mouse),
                _ => old(self).mouse,
            },
            final(self).action_tx == old(self).action_tx,
            final(self).keymap == old(self).keymap,
            final(self).current == old(self).current,
            final(self).areas == old(self).areas,
            final(self).area == old(self).area,
    {
        match action {
            Action::NextView => {
                self.options.next();
                if let Some(mode) = choose_mode(&self.options) {
                    return Some(Action::ChangeMode(mode));
                }
            },
            Action::Mouse(mouse) => {
                self.mouse = Some(mouse);
            },
            Action::PreviousView => {
                self.options.previous();
                if let Some(mode) = choose_mode(&self.options) {
                    return Some(Action::ChangeMode(mode));
                }
            },
            _ => {},
        }
        None
    }

    /// Draws the bar: the line under it, then every tab that has a
    /// place, with its name, the selected one in brackets and the lit
    /// one in yellow.
    pub fn draw(&self, f: &mut Frame)
        ensures
            final(f).area == old(f).area,
            final(f).cursor == old(f).cursor,
            ({
                let ops = final(f).ops@;
                let n = old(f).ops@.len() as int;
                let tabs = if self.areas@.len() < Mode::COUNT {
                    self.areas@.len() as int
                } else {
                    Mode::COUNT as int
                };
                &&& ops.len() == n + 1 + tabs
                &&& ops.subrange(0, n) == old(f).ops@
                &&& ops[n].widget is Block
                &&& ops[n].area == self.area
                &&& forall|i: int|
                    0 <= i < tabs ==> {
                        &&& (#[trigger] ops[n + 1 + i]).area == self.areas@[i]
                        &&& ops[n + 1 + i].widget matches Widget::Paragraph(p) && p.lines@.len()
                            == 1 && p.lines@[0].text() == tab_text(
                            navigable_modes()[i],
                            self.options.state.selected == Some(i as usize),
                        ) && p.style.fg == Some(
                            if self.current == Some(navigable_modes()[i]) {
                                Color::Yellow
                            } else {
                                Color::White
                            },
                        )
                    }
            }),
    {
        let block = Block::new().borders(BORDER_BOTTOM);
        f.render_widget(Widget::Block(block), self.area);
        let modes = Mode::all();
        let ghost n = old(f).ops@.len() as int;
        let mut i: usize = 0;
        while i < modes.len() && i < self.areas.len()
            invariant
                i <= Mode::COUNT,
                i <= self.areas@.len(),
                modes@ == navigable_modes(),
                n == old(f).ops@.len(),
                f.area == old(f).area,
                f.cursor == old(f).cursor,
                f.ops@.len() == n + 1 + i,
                f.ops@.subrange(0, n) == old(f).ops@,
                f.ops@[n].widget is Block,
                f.ops@[n].area == self.area,
                forall|k: int|
                    0 <= k < i ==> {
                        &&& (#[trigger] f.ops@[n + 1 + k]).area == self.areas@[k]
                        &&& f.ops@[n + 1 + k].widget matches Widget::Paragraph(p) && p.lines@.len()
                            == 1 && p.lines@[0].text() == tab_text(
                            navigable_modes()[k],
                            self.options.state.selected == Some(k as usize),
                        ) && p.style.fg == Some(
                            if self.current == Some(navigable_modes()[k]) {
                                Color::Yellow
                            } else {
                                Color::White
                            },
                        )
                    },
            decreases Mode::COUNT - i,
        {
            let mode = modes[i];
            let selected = match self.options.state.selected() {
                Some(thing) => thing == i,
                None => false,
            };
            let mut txt: Vec<char> = Vec::new();
            if selected {
                push_str(&mut txt, "[");
                push_str(&mut txt, mode.label());
                push_str(&mut txt, "]");
            } else {
                push_str(&mut txt, " ");
                push_str(&mut txt, mode.label());
                push_str(&mut txt, " ");
            }
            assert(txt@ =~= tab_text(mode, selected));
            let lit = match self.current {
                Some(t) => t == mode,
                None => false,
            };
            let style = if lit {
                Style::new().fg(Color::Yellow).bold()
            } else {
                Style::new().fg(Color::White)
            };
            let mut lines: Vec<Line> = Vec::new();
            lines.push(Line::raw(string_from(&txt)));
            let p = Paragraph::new(lines).style(style).alignment(Alignment::Center);
            let ghost before = f.ops@;
            f.render_widget(Widget::Paragraph(p), self.areas[i]);
            proof {
                assert(f.ops@.subrange(0, n) =~= before.subrange(0, n));
                assert forall|k: int| 0 <= k < i implies #[trigger] f.ops@[n + 1 + k] == before[n + 1
                    + k] by {}
            }
            i += 1;
        }
    }
}

} // verus!
