//! The home page: lines that the user has typed, and an input box.

use vstd::prelude::*;
use crate::action::{Action, InputMode};
use crate::component::{emit, handed, start, ActionSender, Ctx, Keymap, Outgoing, Task};
use crate::input::Input;
use crate::keys::{KeyCode, KeyEvent, MouseEvent};
use crate::layout::{row_of, split_holds, Direction, Layout, Rect, Sizing};
use crate::pages::parts::{
    counted, counter_hint, cursor_cell, cursor_in, events_area, events_line, events_place,
    input_box, is_events_line, is_input_box, push_lines,
};
use crate::render::{
    Alignment, Block, BorderType, Color, Frame, Line, Paragraph, Style, Widget, BORDER_ALL,
};

verus! {

/// `n + 1`, or `n` where `n` is the largest `usize`.
pub open spec fn ticked(n: usize) -> usize {
    if n == usize::MAX {
        n
    } else {
        (n + 1) as usize
    }
}

/// The mode that `action` enters, if it enters one.
pub open spec fn entered(action: Action) -> Option<InputMode> {
    match action {
        Action::EnterNormal => Some(InputMode::Normal),
        Action::EnterInsert => Some(InputMode::Insert),
        Action::EnterProcessing => Some(InputMode::Processing),
        _ => None,
    }
}

/// What a key leads to on a page with an input box: while the box is
/// typed into, escape and the enter key leave it and every other key
/// asks for an update.
pub open spec fn typing_action(mode: InputMode, key: KeyEvent) -> Option<Action> {
    if mode == InputMode::Insert {
        if key.code is Esc || key.code is Enter {
            Some(Action::EnterNormal)
        } else {
            Some(Action::Update)
        }
    } else {
        None
    }
}

pub struct Home {
    pub render_ticker: usize,
    pub mode: InputMode,
    pub input: Input,
    pub action_tx: Option<ActionSender>,
    pub keymap: Keymap,
    pub text: Vec<String>,
    pub last_events: Vec<KeyEvent>,
    pub area: Rect,
    pub areas: Vec<Rect>,
}

impl Home {
    /// The page has the areas that drawing needs: a layout pass has
    /// cached them.
    pub open spec fn laid_out(&self) -> bool {
        self.areas@.len() >= 2
    }

    pub open spec fn wf(&self) -> bool {
        self.input.wf()
    }

    /// What `action` starts: the counters count after a second.
    pub open spec fn starts(action: Action) -> Seq<Outgoing> {
        match action {
            Action::ScheduleIncrement => seq![Outgoing::Spawn(Task::Increment(1))],
            Action::ScheduleDecrement => seq![Outgoing::Spawn(Task::Decrement(1))],
            _ => Seq::<Outgoing>::empty(),
        }
    }

    pub fn new() -> (page: Home)
        ensures
            page.render_ticker == 0,
            page.mode == InputMode::Normal,
            page.input.value@.len() == 0,
            page.action_tx.is_none(),
            page.text@.len() == 0,
            page.last_events@.len() == 0,
            page.area == Rect::zero(),
            page.areas@.len() == 0,
            page.wf(),
            page.keymap.entries@.len() == 0,
    {
        Home {
            render_ticker: 0,
            mode: InputMode::default(),
            input: Input::default(),
            action_tx: None,
            keymap: Keymap::new(),
            text: Vec::new(),
            last_events: Vec::new(),
            area: Rect::default(),
            areas: Vec::new(),
        }
    }

    pub fn keymap(self, keymap: Keymap) -> (page: Home)
        ensures
            page == (Home { keymap, ..self }),
    {
        Home { keymap, ..self }
    }

    /// Counts a rendered frame.
    pub fn render_tick(&mut self)
        ensures
            *final(self) == (Home { render_ticker: ticked(old(self).render_ticker), ..*old(self) }),
    {
        self.render_ticker = self.render_ticker.saturating_add(1);
    }

    /// Adds a line to the text of the page.
    pub fn add(&mut self, s: String)
        ensures
            final(self).text@ == old(self).text@.push(s),
            *final(self) == (Home { text: final(self).text, ..*old(self) }),
    {
        self.text.push(s)
    }

    /// Starts the task that increments by `i` after a second.
    pub fn schedule_increment(&mut self, i: usize)
        ensures
            handed(
                old(self).action_tx,
                final(self).action_tx,
                seq![Outgoing::Spawn(Task::Increment(i))],
            ),
            *final(self) == (Home { action_tx: final(self).action_tx, ..*old(self) }),
    {
        start(&mut self.action_tx, Task::Increment(i));
    }

    /// Starts the task that decrements by `i` after a second.
    pub fn schedule_decrement(&mut self, i: usize)
        ensures
            handed(
                old(self).action_tx,
                final(self).action_tx,
                seq![Outgoing::Spawn(Task::Decrement(i))],
            ),
            *final(self) == (Home { action_tx: final(self).action_tx, ..*old(self) }),
    {
        start(&mut self.action_tx, Task::Decrement(i));
    }

    pub fn register_action_handler(&mut self, tx: ActionSender)
        ensures
            *final(self) == (Home { action_tx: Some(tx), ..*old(self) }),
    {
        self.action_tx = Some(tx);
    }

    pub fn current_mode(&self) -> (mode: InputMode)
        ensures
            mode == self.mode,
    {
        self.mode
    }

    /// Takes `area` and cuts it into the rows of the text and the rows
    /// of the input box.
    pub fn register_layout_handler(&mut self, area: Rect)
        ensures
            final(self).area == area,
            final(self).areas@.len() == 2,
            split_holds(Direction::Vertical, 2, 0, 0, area, final(self).areas@),
            row_of(area, final(self).areas@[0]),
            row_of(area, final(self).areas@[1]),
            *final(self) == (Home { area, areas: final(self).areas, ..*old(self) }),
    {
        self.area = area;
        self.areas = Layout::vertical(vec![Sizing::Percentage(100), Sizing::Min(3)]).split(area);
    }

    /// The page takes no pointer events.
    pub fn handle_mouse_events(&mut self, mouse: MouseEvent) -> (action: Option<Action>)
        ensures
            action.is_none(),
            *final(self) == *old(self),
    {
        None
    }

    /// Notes the key. While the input box is typed into, escape leaves
    /// it, the enter key sends what was typed and leaves it, and every
    /// other key goes to the box and asks for an update.
    pub fn handle_key_events(&mut self, key: KeyEvent) -> (action: Option<Action>)
        requires
            old(self).wf(),
        ensures
            final(self).wf(),
            action == typing_action(old(self).mode, key),
            final(self).last_events@ == old(self).last_events@.push(key),
            handed(
                old(self).action_tx,
                final(self).action_tx,
                if old(self).mode == InputMode::Insert && key.code is Enter {
                    seq![Outgoing::Send(Action::CompleteInput(old(self).input.value))]
                } else {
                    Seq::<Outgoing>::empty()
                },
            ),
            (final(self).input.value@, final(self).input.cursor as nat) == if old(self).mode
                == InputMode::Insert && !(key.code is Esc || key.code is Enter) {
                old(self).input.after_key(key)
            } else {
                (old(self).input.value@, old(self).input.cursor as nat)
            },
            final(self).render_ticker == old(self).render_ticker,
            final(self).mode == old(self).mode,
            final(self).keymap == old(self).keymap,
            final(self).text == old(self).text,
            final(self).area == old(self).area,
            final(self).areas == old(self).areas,
    {
        proof {
            if old(self).action_tx.is_some() {
                assert(old(self).action_tx->0.queue@ + Seq::<Outgoing>::empty() =~= old(self).action_tx->0.queue@);
            }
        }
        self.last_events.push(key);
        match self.mode {
            InputMode::Insert => match key.code {
                KeyCode::Esc => Some(Action::EnterNormal),
                KeyCode::Enter => {
                    emit(&mut self.action_tx, Action::CompleteInput(self.input.value.clone()));
                    Some(Action::EnterNormal)
                },
                _ => {
                    self.input.handle_event(&key);
                    Some(Action::Update)
                },
            },
            _ => None,
        }
    }

    /// Reacts to `action`: render ticks are counted, the counters are
    /// scheduled, what was typed is added to the text, and the actions
    /// that enter a mode enter it.
    pub fn update(&mut self, action: Action, ctx: &Ctx) -> (follow_up: Option<Action>)
        ensures
            follow_up.is_none(),
            final(self).render_ticker == if action is Render {
                ticked(old(self).render_ticker)
            } else {
                old(self).render_ticker
            },
            final(self).mode == match entered(action) {
                Some(mode) => mode,
                None => old(self).mode,
            },
            final(self).text@ == match action {
                Action::CompleteInput(s) => old(self).text@.push(s),
                _ => old(self).text@,
            },
            handed(old(self).action_tx, final(self).action_tx, Home::starts(action)),
            final(self).input == old(self).input,
            final(self).keymap == old(self).keymap,
            final(self).last_events == old(self).last_events,
            final(self).area == old(self).area,
            final(self).areas == old(self).areas,
    {
        proof {
            if old(self).action_tx.is_some() {
                assert(old(self).action_tx->0.queue@ + Seq::<Outgoing>::empty() =~= old(self).action_tx->0.queue@);
            }
        }
        match action {
            Action::Render => self.render_tick(),
            Action::ScheduleIncrement => self.schedule_increment(1),
            Action::ScheduleDecrement => self.schedule_decrement(1),
            Action::CompleteInput(s) => self.add(s),
            Action::EnterNormal => {
                self.mode = InputMode::Normal;
            },
            Action::EnterInsert => {
                self.mode = InputMode::Insert;
            },
            Action::EnterProcessing => {
                self.mode = InputMode::Processing;
            },
            _ => {},
        }
        None
    }

    /// How many lines stand above the text of the page.
    pub const HEADER_LINES: usize = 7;

    /// Draws the page: the text under its header, with the count of
    /// rendered frames in it; the input box, with the cursor in it
    /// while it is typed into; and the line of the keys that were
    /// struck.
    /// Before a layout pass has cached the areas, nothing is drawn.
    pub fn draw(&self, f: &mut Frame)
        requires
            self.wf(),
        ensures
            final(f).area == old(f).area,
            !self.laid_out() ==> final(f).ops@ == old(f).ops@ && final(f).cursor == old(f).cursor,
            self.laid_out() ==> ({
                &&& final(f).cursor == if self.mode == InputMode::Insert {
                    Some(cursor_cell(self.areas@[1], 1, self.input.cursor))
                } else {
                    old(f).cursor
                }
                &&& ({
                    let ops = final(f).ops@;
                    let n = old(f).ops@.len() as int;
                    &&& ops.len() == n + 3
                    &&& ops.subrange(0, n) == old(f).ops@
                    &&& ops[n].area == self.areas@[0]
                    &&& ops[n].widget matches Widget::Paragraph(p) && p.lines@.len()
                        == Home::HEADER_LINES + self.text@.len() && p.lines@[3].text()
                        == "Render Ticker: "@ + crate::text::decimal(self.render_ticker as nat)
                        && forall|i: int|
                        0 <= i < self.text@.len() ==> (#[trigger] p.lines@[Home::HEADER_LINES
                            + i]).text() == self.text@[i]@
                    &&& ops[n + 1].area == self.areas@[1]
                    &&& is_input_box(ops[n + 1].widget, self.input, self.mode, self.areas@[1].width)
                    &&& ops[n + 2].area == events_place(self.area)
                    &&& is_events_line(ops[n + 2].widget, self.last_events@)
                })
            }),
    {
        if !(self.areas.len() >= 2) {
            return ;
        }
        let mut text: Vec<Line> = Vec::new();
        text.push(Line::empty());
        text.push(counter_hint());
        text.push(Line::empty());
        text.push(counted("Render Ticker: ", self.render_ticker));
        text.push(Line::empty());
        text.push(
            Line::styled(
                String::from_str("Type into input and hit enter to display here"),
                Style::new().dim(),
            ),
        );
        text.push(Line::empty());
        let ghost header = text@;
        push_lines(&mut text, &self.text);
        proof {
            assert(text@.subrange(0, 7)[3] == text@[3]);
            assert(header[3].text() == "Render Ticker: "@ + crate::text::decimal(
                self.render_ticker as nat,
            ));
        }
        let border = if self.mode == InputMode::Processing {
            Style::new().fg(Color::Yellow)
        } else {
            Style::new()
        };
        let block = Block::new().title_top(
            Line::plain("ratatui async template").aligned(Alignment::Center),
        ).borders(BORDER_ALL).border_style(border).border_type(BorderType::Rounded);
        f.render_widget(
            Widget::Paragraph(
                Paragraph::new(text).block(block).style(Style::new().fg(Color::Cyan)).alignment(
                    Alignment::Center,
                ),
            ),
            self.areas[0],
        );
        f.render_widget(
            input_box(&self.input, self.mode, self.areas[1].width, BORDER_ALL),
            self.areas[1],
        );
        if self.mode == InputMode::Insert {
            f.set_cursor_position(cursor_in(self.areas[1], 1, self.input.cursor()));
        }
        f.render_widget(events_line(&self.last_events), events_area(self.area));
        assert(final(f).ops@.subrange(0, old(f).ops@.len() as int) =~= old(f).ops@);
    }
}

} // verus!
