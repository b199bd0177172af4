//! The template page: a counter, tickers, typed lines and a help table.

use vstd::prelude::*;
use crate::action::{Action, InputMode};
use crate::component::{emit, handed, start, ActionSender, Ctx, Keymap, Outgoing, Task};
use crate::input::Input;
use crate::keys::{KeyCode, KeyEvent, MouseEvent};
use crate::layout::{margin_inner, row_of, Layout, Rect, Sizing};
use crate::pages::home::{entered, ticked, typing_action, Home};
use crate::pages::parts::{
    counted, counter_hint, cursor_cell, cursor_in, events_area, events_line, events_place,
    input_box, is_events_line, is_input_box, push_lines,
};
use crate::render::{
    Alignment, Block, BorderType, Color, Frame, Line, Paragraph, Style, Table, Widget,
    BORDER_ALL,
};
use crate::scroll::{minus, plus};

verus! {

/// The rows of the help table: a key and what it does.
pub open spec fn help_rows() -> Seq<(Seq<char>, Seq<char>)> {
    seq![
        ("j"@, "Increment"@),
        ("k"@, "Decrement"@),
        ("/"@, "Enter Input"@),
        ("ESC"@, "Exit Input"@),
        ("Enter"@, "Submit Input"@),
        ("q"@, "Quit"@),
        ("?"@, "Open Help"@),
    ]
}

fn help_row(key: &str, action: &str) -> (row: Vec<String>)
    ensures
        row@.len() == 2,
        row@[0]@ == key@,
        row@[1]@ == action@,
{
    vec![String::from_str(key), String::from_str(action)]
}

/// The help table.
pub fn help_table() -> (table: Table)
    ensures
        table.header@.len() == 2,
        table.header@[0]@ == "Key"@,
        table.header@[1]@ == "Action"@,
        table.rows@.len() == help_rows().len(),
        forall|i: int|
            0 <= i < table.rows@.len() ==> (#[trigger] table.rows@[i])@.len() == 2
                && table.rows@[i]@[0]@ == help_rows()[i].0 && table.rows@[i]@[1]@
                == help_rows()[i].1,
{
    let mut rows: Vec<Vec<String>> = Vec::new();
    rows.push(help_row("j", "Increment"));
    rows.push(help_row("k", "Decrement"));
    rows.push(help_row("/", "Enter Input"));
    rows.push(help_row("ESC", "Exit Input"));
    rows.push(help_row("Enter", "Submit Input"));
    rows.push(help_row("q", "Quit"));
    rows.push(help_row("?", "Open Help"));
    Table { header: help_row("Key", "Action"), rows }
}

pub struct Template {
    pub show_help: bool,
    pub counter: usize,
    pub app_ticker: usize,
    pub render_ticker: usize,
    pub mode: InputMode,
    pub input: Input,
    pub action_tx: Option<ActionSender>,
    pub keymap: Keymap,
    pub text: Vec<String>,
    pub last_events: Vec<KeyEvent>,
    pub area: Rect,
}

impl Template {
    pub open spec fn wf(&self) -> bool {
        self.input.wf()
    }

    pub fn new() -> (page: Template)
        ensures
            !page.show_help,
            page.counter == 0,
            page.app_ticker == 0,
            page.render_ticker == 0,
            page.mode == InputMode::Normal,
            page.input.value@.len() == 0,
            page.action_tx.is_none(),
            page.text@.len() == 0,
            page.last_events@.len() == 0,
            page.area == Rect::zero(),
            page.wf(),
            page.keymap.entries@.len() == 0,
    {
        Template {
            show_help: false,
            counter: 0,
            app_ticker: 0,
            render_ticker: 0,
            mode: InputMode::default(),
            input: Input::default(),
            action_tx: None,
            keymap: Keymap::new(),
            text: Vec::new(),
            last_events: Vec::new(),
            area: Rect::default(),
        }
    }

    pub fn keymap(self, keymap: Keymap) -> (page: Template)
        ensures
            page == (Template { keymap, ..self }),
    {
        Template { keymap, ..self }
    }

    /// Counts a tick of the application and forgets the keys that were
    /// struck.
    pub fn tick(&mut self)
        ensures
            final(self).app_ticker == ticked(old(self).app_ticker),
            final(self).last_events@.len() == 0,
            *final(self) == (Template {
                app_ticker: final(self).app_ticker,
                last_events: final(self).last_events,
                ..*old(self)
            }),
    {
        self.app_ticker = self.app_ticker.saturating_add(1);
        self.last_events.clear();
    }

    /// Counts a rendered frame.
    pub fn render_tick(&mut self)
        ensures
            *final(self) == (Template {
                render_ticker: ticked(old(self).render_ticker),
                ..*old(self)
            }),
    {
        self.render_ticker = self.render_ticker.saturating_add(1);
    }

    /// Adds a line to the text of the page.
    pub fn add(&mut self, s: String)
        ensures
            final(self).text@ == old(self).text@.push(s),
            *final(self) == (Template { text: final(self).text, ..*old(self) }),
    {
        self.text.push(s)
    }

    /// Starts the task that increments by `i` after a second.
    pub fn schedule_increment(&mut self, i: usize)
        ensures
            handed(
                old(self).action_tx,
                final(self).action_tx,
                seq![Outgoing::Spawn(Task::Increment(i))],
            ),
            *final(self) == (Template { action_tx: final(self).action_tx, ..*old(self) }),
    {
        start(&mut self.action_tx, Task::Increment(i));
    }

    /// Starts the task that decrements by `i` after a second.
    pub fn schedule_decrement(&mut self, i: usize)
        ensures
            handed(
                old(self).action_tx,
                final(self).action_tx,
                seq![Outgoing::Spawn(Task::Decrement(i))],
            ),
            *final(self) == (Template { action_tx: final(self).action_tx, ..*old(self) }),
    {
        start(&mut self.action_tx, Task::Decrement(i));
    }

    /// Counts up by `i`, as far as the counter goes.
    pub fn increment(&mut self, i: usize)
        ensures
            *final(self) == (Template {
                counter: plus(old(self).counter as nat, i as nat) as usize,
                ..*old(self)
            }),
    {
        self.counter = self.counter.saturating_add(i);
    }

    /// Counts down by `i`, but not below zero.
    pub fn decrement(&mut self, i: usize)
        ensures
            *final(self) == (Template {
                counter: minus(old(self).counter as nat, i as nat) as usize,
                ..*old(self)
            }),
    {
        self.counter = self.counter.saturating_sub(i);
    }

    pub fn register_action_handler(&mut self, tx: ActionSender)
        ensures
            *final(self) == (Template { action_tx: Some(tx), ..*old(self) }),
    {
        self.action_tx = Some(tx);
    }

    pub fn current_mode(&self) -> (mode: InputMode)
        ensures
            mode == self.mode,
    {
        self.mode
    }

    pub fn register_layout_handler(&mut self, area: Rect)
        ensures
            *final(self) == (Template { area, ..*old(self) }),
    {
        self.area = area;
    }

    /// The page takes no pointer events.
    pub fn handle_mouse_events(&mut self, mouse: MouseEvent) -> (action: Option<Action>)
        ensures
            action.is_none(),
            *final(self) == *old(self),
    {
        None
    }

    /// Notes the key. While the input box is typed into, escape leaves
    /// it, the enter key sends what was typed and leaves it, and every
    /// other key goes to the box and asks for an update.
    pub fn handle_key_events(&mut self, key: KeyEvent) -> (action: Option<Action>)
        requires
            old(self).wf(),
        ensures
            final(self).wf(),
            action == typing_action(old(self).mode, key),
            final(self).last_events@ == old(self).last_events@.push(key),
            handed(
                old(self).action_tx,
                final(self).action_tx,
                if old(self).mode == InputMode::Insert && key.code is Enter {
                    seq![Outgoing::Send(Action::CompleteInput(old(self).input.value))]
                } else {
                    Seq::<Outgoing>::empty()
                },
            ),
            (final(self).input.value@, final(self).input.cursor as nat) == if old(self).mode
                == InputMode::Insert && !(key.code is Esc || key.code is Enter) {
                old(self).input.after_key(key)
            } else {
                (old(self).input.value@, old(self).input.cursor as nat)
            },
            final(self).show_help == old(self).show_help,
            final(self).counter == old(self).counter,
            final(self).app_ticker == old(self).app_ticker,
            final(self).render_ticker == old(self).render_ticker,
            final(self).mode == old(self).mode,
            final(self).keymap == old(self).keymap,
            final(self).text == old(self).text,
            final(self).area == old(self).area,
    {
        proof {
            if old(self).action_tx.is_some() {
                assert(old(self).action_tx->0.queue@ + Seq::<Outgoing>::empty() =~= old(self).action_tx->0.queue@);
            }
        }
        self.last_events.push(key);
        match self.mode {
            InputMode::Insert => match key.code {
                KeyCode::Esc => Some(Action::EnterNormal),
                KeyCode::Enter => {
                    emit(&mut self.action_tx, Action::CompleteInput(self.input.value.clone()));
                    Some(Action::EnterNormal)
                },
                _ => {
                    self.input.handle_event(&key);
                    Some(Action::Update)
                },
            },
            _ => None,
        }
    }

    /// Reacts to `action`: ticks are counted, the help shows or hides,
    /// the counters are scheduled and count, what was typed is added to
    /// the text, and the actions that enter a mode enter it.
    pub fn update(&mut self, action: Action, ctx: &Ctx) -> (follow_up: Option<Action>)
        ensures
            follow_up.is_none(),
            final(self).app_ticker == if action is Tick {
                ticked(old(self).app_ticker)
            } else {
                old(self).app_ticker
            },
            final(self).last_events@ == if action is Tick {
                Seq::<KeyEvent>::empty()
            } else {
                old(self).last_events@
            },
            final(self).render_ticker == if action is Render {
                ticked(old(self).render_ticker)
            } else {
                old(self).render_ticker
            },
            final(self).show_help == if action is ToggleShowHelp {
                !old(self).show_help
            } else {
                old(self).show_help
            },
            final(self).counter == match action {
                Action::Increment(i) => plus(old(self).counter as nat, i as nat) as usize,
                Action::Decrement(i) => minus(old(self).counter as nat, i as nat) as usize,
                _ => old(self).counter,
            },
            final(self).mode == match entered(action) {
                Some(mode) => mode,
                None => old(self).mode,
            },
            final(self).text@ == match action {
                Action::CompleteInput(s) => old(self).text@.push(s),
                _ => old(self).text@,
            },
            handed(old(self).action_tx, final(self).action_tx, Home::starts(action)),
            final(self).input == old(self).input,
            final(self).keymap == old(self).keymap,
            final(self).area == old(self).area,
    {
        proof {
            if old(self).action_tx.is_some() {
                assert(old(self).action_tx->0.queue@ + Seq::<Outgoing>::empty() =~= old(self).action_tx->0.queue@);
            }
        }
        match action {
            Action::Tick => self.tick(),
            Action::Render => self.render_tick(),
            Action::ToggleShowHelp => {
                self.show_help = !self.show_help;
            },
            Action::ScheduleIncrement => self.schedule_increment(1),
            Action::ScheduleDecrement => self.schedule_decrement(1),
            Action::Increment(i) => self.increment(i),
            Action::Decrement(i) => self.decrement(i),
            Action::CompleteInput(s) => self.add(s),
            Action::EnterNormal => {
                self.mode = InputMode::Normal;
            },
            Action::EnterInsert => {
                self.mode = InputMode::Insert;
            },
            Action::EnterProcessing => {
                self.mode = InputMode::Processing;
            },
            _ => {},
        }
        None
    }

    /// How many lines stand above the text of the page.
    pub const HEADER_LINES: usize = 9;

    /// Draws the page into `rect`: the text under its header, with the
    /// counter and the tickers in it; the input box, with the cursor in
    /// it while it is typed into; the help table over both while it
    /// shows; and the line of the keys that were struck.
    pub fn draw(&self, f: &mut Frame, rect: Rect)
        requires
            self.wf(),
        ensures
            final(f).area == old(f).area,
            ({
                let ops = final(f).ops@;
                let n = old(f).ops@.len() as int;
                let help = if self.show_help {
                    3int
                } else {
                    0int
                };
                &&& ops.len() == n + 3 + help
                &&& ops.subrange(0, n) == old(f).ops@
                &&& row_of(rect, ops[n].area)
                &&& row_of(rect, ops[n + 1].area)
                &&& ops[n].widget matches Widget::Paragraph(p) && p.lines@.len()
                    == Template::HEADER_LINES + self.text@.len() && p.lines@[3].text()
                    == "Counter: "@ + crate::text::decimal(self.counter as nat) && p.lines@[4].text()
                    == "App Ticker: "@ + crate::text::decimal(self.app_ticker as nat)
                    && p.lines@[5].text() == "Render Ticker: "@ + crate::text::decimal(
                    self.render_ticker as nat,
                ) && forall|i: int|
                    0 <= i < self.text@.len() ==> (#[trigger] p.lines@[Template::HEADER_LINES
                        + i]).text() == self.text@[i]@
                &&& is_input_box(ops[n + 1].widget, self.input, self.mode, ops[n + 1].area.width)
                &&& final(f).cursor == if self.mode == InputMode::Insert {
                    Some(cursor_cell(ops[n + 1].area, 1, self.input.cursor))
                } else {
                    old(f).cursor
                }
                &&& self.show_help ==> {
                    &&& ops[n + 2].widget is Clear
                    &&& ops[n + 2].area == margin_inner(rect, 4, 2)
                    &&& ops[n + 3].widget is Block
                    &&& ops[n + 3].area == margin_inner(rect, 4, 2)
                    &&& ops[n + 4].widget is Table
                    &&& ops[n + 4].area == margin_inner(margin_inner(rect, 4, 2), 2, 4)
                }
                &&& ops[n + 2 + help].area == events_place(rect)
                &&& is_events_line(ops[n + 2 + help].widget, self.last_events@)
            }),
    {
        let rects = Layout::vertical(vec![Sizing::Percentage(100), Sizing::Min(3)]).split(rect);
        let mut text: Vec<Line> = Vec::new();
        text.push(Line::empty());
        text.push(counter_hint());
        text.push(Line::empty());
        text.push(counted("Counter: ", self.counter));
        text.push(counted("App Ticker: ", self.app_ticker));
        text.push(counted("Render Ticker: ", self.render_ticker));
        text.push(Line::empty());
        text.push(
            Line::styled(
                String::from_str("Type into input and hit enter to display here"),
                Style::new().dim(),
            ),
        );
        text.push(Line::empty());
        let ghost header = text@;
        push_lines(&mut text, &self.text);
        proof {
            assert(text@.subrange(0, 9)[3] == text@[3]);
            assert(text@.subrange(0, 9)[4] == text@[4]);
            assert(text@.subrange(0, 9)[5] == text@[5]);
        }
        let border = if self.mode == InputMode::Processing {
            Style::new().fg(Color::Yellow)
        } else {
            Style::new()
        };
        let block = Block::new().title_top(
            Line::plain("ratatui async template").aligned(Alignment::Center),
        ).borders(BORDER_ALL).border_style(border).border_type(BorderType::Rounded);
        f.render_widget(
            Widget::Paragraph(
                Paragraph::new(text).block(block).style(Style::new().fg(Color::Cyan)).alignment(
                    Alignment::Center,
                ),
            ),
            rects[0],
        );
        f.render_widget(input_box(&self.input, self.mode, rects[1].width, BORDER_ALL), rects[1]);
        if self.mode == InputMode::Insert {
            f.set_cursor_position(cursor_in(rects[1], 1, self.input.cursor()));
        }
        if self.show_help {
            let place = rect.inner(4, 2);
            f.render_widget(Widget::Clear, place);
            let block = Block::new().title_top(
                Line::styled(String::from_str("Key Bindings"), Style::new().bold()),
            ).borders(BORDER_ALL).border_style(Style::new().fg(Color::Yellow));
            f.render_widget(Widget::Block(block), place);
            f.render_widget(Widget::Table(help_table()), place.inner(2, 4));
        }
        f.render_widget(events_line(&self.last_events), events_area(rect));
        assert(final(f).ops@.subrange(0, old(f).ops@.len() as int) =~= old(f).ops@);
    }
}

} // verus!
