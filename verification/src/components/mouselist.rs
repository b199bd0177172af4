//! A list whose rows are selected with the pointer.

use vstd::prelude::*;
use crate::action::Action;
use crate::component::{ActionSender, Ctx, Keymap};
use crate::conf::AppConfiguration;
use crate::keys::MouseEvent;
use crate::layout::{row_of, split_holds, Direction, Layout, Position, Rect, Sizing};
use crate::render::{Color, DrawOp, Frame, Line, Paragraph, Style, Widget};
use crate::scroll::{least, minus, plus, scroll_limit, MouseListState, ScrollbarView};

verus! {

impl Clone for MouseListState {
    fn clone(&self) -> (copy: MouseListState)
        ensures
            copy.position == self.position,
            copy.view_size == self.view_size,
            copy.areas@ == self.areas@,
            copy.selected == self.selected,
            copy.max == self.max,
    {
        let mut areas: Vec<Rect> = Vec::new();
        let mut i: usize = 0;
        while i < self.areas.len()
            invariant
                i <= self.areas@.len(),
                areas@ == self.areas@.subrange(0, i as int),
            decreases self.areas@.len() - i,
        {
            areas.push(self.areas[i]);
            assert(areas@ =~= self.areas@.subrange(0, i + 1));
            i += 1;
        }
        assert(areas@ =~= self.areas@);
        MouseListState {
            position: self.position,
            view_size: self.view_size,
            areas,
            selected: self.selected,
            max: self.max,
        }
    }
}

/// Selection and cursor after the first `n` rows were tried against
/// the point `at`: every row that holds the point is selected, and
/// takes the cursor where it is a row below `max`.
pub open spec fn pointed(
    areas: Seq<Rect>,
    at: Position,
    max: usize,
    selected: Option<usize>,
    position: usize,
    n: int,
) -> (Option<usize>, usize)
    decreases n,
{
    if n <= 0 {
        (selected, position)
    } else {
        let before = pointed(areas, at, max, selected, position, n - 1);
        if areas[n - 1].spec_contains(at) {
            (
                Some((n - 1) as usize),
                if n - 1 < max {
                    (n - 1) as usize
                } else {
                    before.1
                },
            )
        } else {
            before
        }
    }
}

pub struct MouseList {
    pub config: Option<AppConfiguration>,
    pub keymap: Keymap,
    pub mouse: Option<MouseEvent>,
    pub area: Rect,
    pub items: Vec<String>,
    pub action_tx: Option<ActionSender>,
    pub state: MouseListState,
}

impl MouseList {
    pub fn new(items: Vec<String>, state: MouseListState) -> (list: MouseList)
        ensures
            list.config.is_none(),
            list.state == state,
            list.items == items,
            list.mouse.is_none(),
            list.action_tx.is_none(),
            list.area == Rect::zero(),
            list.keymap.entries@.len() == 0,
    {
        MouseList {
            config: None,
            state,
            items,
            mouse: None,
            action_tx: None,
            area: Rect::default(),
            keymap: Keymap::new(),
        }
    }

    pub fn scroll_top(&mut self)
        ensures
            final(self).state.position == 0,
            final(self).state.view_size == old(self).state.view_size,
            final(self).state.max == old(self).state.max,
            final(self).state.selected == old(self).state.selected,
            final(self).state.areas == old(self).state.areas,
            *final(self) == (MouseList { state: final(self).state, ..*old(self) }),
    {
        self.state.scroll_top();
    }

    pub fn scroll_up(&mut self)
        ensures
            final(self).state.position == minus(old(self).state.position as nat, 1),
            final(self).state.view_size == old(self).state.view_size,
            final(self).state.max == old(self).state.max,
            final(self).state.selected == old(self).state.selected,
            final(self).state.areas == old(self).state.areas,
            *final(self) == (MouseList { state: final(self).state, ..*old(self) }),
    {
        self.state.scroll_up();
    }

    pub fn scroll_down(&mut self)
        ensures
            final(self).state.position == plus(old(self).state.position as nat, 1),
            final(self).state.view_size == old(self).state.view_size,
            final(self).state.max == old(self).state.max,
            final(self).state.selected == old(self).state.selected,
            final(self).state.areas == old(self).state.areas,
            *final(self) == (MouseList { state: final(self).state, ..*old(self) }),
    {
        self.state.scroll_down();
    }

    pub fn register_action_handler(&mut self, tx: ActionSender)
        ensures
            *final(self) == (MouseList { action_tx: Some(tx), ..*old(self) }),
    {
        self.action_tx = Some(tx);
    }

    /// Takes `area` and cuts it into a row for each item.
    pub fn register_layout_handler(&mut self, area: Rect)
        ensures
            final(self).area == area,
            final(self).state.areas@.len() == old(self).items@.len(),
            split_holds(
                Direction::Vertical,
                old(self).items@.len(),
                0,
                0,
                area,
                final(self).state.areas@,
            ),
            forall|i: int|
                0 <= i < final(self).state.areas@.len() ==> row_of(
                    area,
                    #[trigger] final(self).state.areas@[i],
                ),
            final(self).state.position == old(self).state.position,
            final(self).state.view_size == old(self).state.view_size,
            final(self).state.selected == old(self).state.selected,
            final(self).state.max == old(self).state.max,
            final(self).config == old(self).config,
            final(self).keymap == old(self).keymap,
            final(self).mouse == old(self).mouse,
            final(self).items == old(self).items,
            final(self).action_tx == old(self).action_tx,
    {
        self.area = area;
        let mut constraints: Vec<Sizing> = Vec::new();
        let mut i: usize = 0;
        while i < self.items.len()
            invariant
                i <= self.items@.len(),
                constraints@.len() == i,
            decreases self.items@.len() - i,
        {
            constraints.push(Sizing::Length(1));
            i += 1;
        }
        self.state.areas = Layout::vertical(constraints).split(area);
    }

    /// Reacts to the pointer event that was noted last: every row that
    /// holds the pointer is selected, in the order of the rows.
    pub fn handle_mouse_events(&mut self, mouse: MouseEvent) -> (action: Option<Action>)
        ensures
            action.is_none(),
            final(self).state.areas == old(self).state.areas,
            final(self).state.view_size == old(self).state.view_size,
            final(self).state.max == old(self).state.max,
            (final(self).state.selected, final(self).state.position) == match old(self).mouse {
                Some(seen) => pointed(
                    old(self).state.areas@,
                    Position { x: seen.column, y: seen.row },
                    old(self).state.max,
                    old(self).state.selected,
                    old(self).state.position,
                    old(self).state.areas@.len() as int,
                ),
                None => (old(self).state.selected, old(self).state.position),
            },
            final(self).config == old(self).config,
            final(self).keymap == old(self).keymap,
            final(self).mouse == old(self).mouse,
            final(self).area == old(self).area,
            final(self).items == old(self).items,
            final(self).action_tx == old(self).action_tx,
    {
        if let Some(seen) = self.mouse {
            let at = Position::new(seen.column, seen.row);
            let mut i: usize = 0;
            while i < self.state.areas.len()
                invariant
                    i <= self.state.areas@.len(),
                    self.state.areas == old(self).state.areas,
                    self.state.view_size == old(self).state.view_size,
                    self.state.max == old(self).state.max,
                    (self.state.selected, self.state.position) == pointed(
                        old(self).state.areas@,
                        at,
                        old(self).state.max,
                        old(self).state.selected,
                        old(self).state.position,
                        i as int,
                    ),
                    self.config == old(self).config,
                    self.keymap == old(self).keymap,
                    self.mouse == old(self).mouse,
                    self.area == old(self).area,
                    self.items == old(self).items,
                    self.action_tx == old(self).action_tx,
                decreases self.state.areas@.len() - i,
            {
                if self.state.areas[i].contains(at) {
                    self.state.select(Some(i));
                }
                i += 1;
            }
        }
        None
    }

    /// The list reacts to no action.
    pub fn update(&mut self, action: Action, ctx: &Ctx) -> (follow_up: Option<Action>)
        ensures
            follow_up.is_none(),
            *final(self) == *old(self),
    {
        None
    }

    /// Draws the list: its area is cleared; every item goes into its
    /// row, the selected one in bold on yellow; and the scrollbar shows
    /// the cursor, pulled back to the last window of the items. The
    /// window of the list becomes as high as its area is left beside
    /// the scrollbar.
    pub fn draw(&mut self, frame: &mut Frame)
        ensures
            final(frame).area == old(frame).area,
            final(frame).cursor == old(frame).cursor,
            ({
                let ops = final(frame).ops@;
                let n = old(frame).ops@.len() as int;
                let rows = old(self).items@.len() as int;
                &&& ops.len() == n + 2 + rows
                &&& ops.subrange(0, n) == old(frame).ops@
                &&& ops[n].widget is Clear
                &&& ops[n].area == old(self).area
                &&& forall|i: int|
                    0 <= i < rows ==> {
                        &&& (#[trigger] ops[n + 1 + i]).area == (if i < old(self).state.areas@.len() {
                            old(self).state.areas@[i]
                        } else {
                            Rect::zero()
                        })
                        &&& ops[n + 1 + i].widget matches Widget::Paragraph(p) && p.lines@.len()
                            == 1 && p.lines@[0].text() == old(self).items@[i]@ && p.style.bold == (
                        old(self).state.selected == Some(i as usize))
                    }
                &&& ops[n + 1 + rows].widget == Widget::Scrollbar(
                    ScrollbarView {
                        content_length: scroll_limit(
                            old(self).state.max as nat,
                            old(self).state.view_size as nat,
                        ) as usize,
                        position: least(
                            old(self).state.position as nat,
                            scroll_limit(rows as nat, old(self).state.view_size as nat),
                        ) as usize,
                    },
                )
                &&& final(self).state.view_size <= u16::MAX
                &&& final(self).state.position == old(self).state.position
                &&& final(self).state.selected == old(self).state.selected
                &&& final(self).state.max == old(self).state.max
                &&& final(self).state.areas == old(self).state.areas
                &&& *final(self) == (MouseList { state: final(self).state, ..*old(self) })
            }),
    {
        let area = self.area;
        frame.render_widget(Widget::Clear, area);
        let parts = Layout::horizontal(vec![Sizing::Fill(1), Sizing::Length(1)]).split(area);
        let body = parts[0];
        let scrollbar = parts[1];
        let shown = ScrollbarView {
            content_length: self.state.max.saturating_sub(self.state.view_size),
            position: {
                let limit = self.items.len().saturating_sub(self.state.view_size);
                if self.state.position <= limit {
                    self.state.position
                } else {
                    limit
                }
            },
        };
        self.state.view_size = body.height as usize;
        let ghost n = old(frame).ops@.len() as int;
        let mut i: usize = 0;
        while i < self.items.len()
            invariant
                i <= self.items@.len(),
                n == old(frame).ops@.len(),
                self.items == old(self).items,
                self.state.areas == old(self).state.areas,
                self.state.selected == old(self).state.selected,
                frame.area == old(frame).area,
                frame.cursor == old(frame).cursor,
                frame.ops@.len() == n + 1 + i,
                frame.ops@.subrange(0, n) == old(frame).ops@,
                frame.ops@[n].widget is Clear,
                frame.ops@[n].area == old(self).area,
                forall|k: int|
                    0 <= k < i ==> {
                        &&& (#[trigger] frame.ops@[n + 1 + k]).area == (if k < old(self).state.areas@.len() {
                            old(self).state.areas@[k]
                        } else {
                            Rect::zero()
                        })
                        &&& frame.ops@[n + 1 + k].widget matches Widget::Paragraph(p)
                            && p.lines@.len() == 1 && p.lines@[0].text() == old(self).items@[k]@
                            && p.style.bold == (old(self).state.selected == Some(k as usize))
                    },
            decreases self.items@.len() - i,
        {
            let item_area = if i < self.state.areas.len() {
                self.state.areas[i]
            } else {
                Rect::default()
            };
            let selected = match self.state.selected {
                Some(s) => s == i,
                None => false,
            };
            let style = if selected {
                Style::new().bg(Color::Yellow).bold()
            } else {
                Style::new()
            };
            let mut lines: Vec<Line> = Vec::new();
            lines.push(Line::raw(self.items[i].clone()));
            let ghost before = frame.ops@;
            frame.render_widget(Widget::Paragraph(Paragraph::new(lines).style(style).wrap()), item_area);
            proof {
                assert(frame.ops@.subrange(0, n) =~= before.subrange(0, n));
                assert forall|k: int| 0 <= k < i implies #[trigger] frame.ops@[n + 1 + k] == before[n
                    + 1 + k] by {}
            }
            i += 1;
        }
        let ghost before = frame.ops@;
        frame.render_widget(Widget::Scrollbar(shown), scrollbar);
        proof {
            assert(frame.ops@.subrange(0, n) =~= before.subrange(0, n));
            assert forall|k: int| 0 <= k < i implies #[trigger] frame.ops@[n + 1 + k] == before[n + 1
                + k] by {}
        }
    }
}

impl Default for MouseList {
    fn default() -> (list: MouseList)
        ensures
            list.items@.len() == 0,
            list.state.max == 0,
            list.state.position == 0,
            list.state.selected.is_none(),
            list.state.view_size == 1,
            list.state.areas@.len() == 0,
            list.config.is_none(),
            list.mouse.is_none(),
            list.action_tx.is_none(),
            list.area == Rect::zero(),
            list.keymap.entries@.len() == 0,
    {
        MouseList::new(Vec::new(), MouseListState::new(0))
    }
}

} // verus!
