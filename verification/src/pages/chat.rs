//! The chat page: messages, the lists beside them, and an input box.

use vstd::prelude::*;
use crate::action::{Action, InputMode};
use crate::component::{emit, handed, ActionSender, Ctx, Keymap, Outgoing};
use crate::input::Input;
use crate::keys::{KeyCode, KeyEvent, MouseEvent};
use crate::layout::{split_holds, Direction, Layout, Rect, Sizing, Slack};
use crate::list::{next_index, previous_index, ListState, StatefulList};
use crate::pages::home::ticked;
use crate::pages::parts::{cursor_cell, cursor_in, input_box, is_input_box};
use crate::render::{
    Alignment, Block, BorderType, Color, Frame, Line, List, ListItem, Paragraph, Style, Widget,
    BORDER_BOTTOM, BORDER_LEFT, BORDER_RIGHT, BORDER_TOP,
};
use crate::text::{chars_of, push_str, string_from};

verus! {

/// The lines into which textwrap breaks `text` for `width` columns.
pub uninterp spec fn wrap_lines(text: Seq<char>, width: nat) -> Seq<Seq<char>>;

/// `textwrap::wrap` with a width and its other options at their
/// defaults.
#[verifier::external_body]
fn wrapped(text: &str, width: usize) -> (lines: Vec<String>)
    ensures
        lines@.len() == wrap_lines(text@, width as nat).len(),
        forall|i: int|
            0 <= i < lines@.len() ==> (#[trigger] lines@[i])@ == wrap_lines(text@, width as nat)[i],
{
    textwrap::wrap(text, width).into_iter().map(|line| line.into_owned()).collect()
}

/// How the page writes the time of a message: the hour, a colon, and
/// the month.
pub open spec fn stamp_pattern() -> Seq<char> {
    "%H:%m"@
}

/// The time `seconds` after the start of 1970 as the clock of this
/// machine's time zone shows it, written by chrono by `pattern`; empty
/// where chrono has no date for it. Chrono fails on a pattern that it
/// cannot read, so the one pattern of the page is all that is admitted.
/// Nothing is claimed of the text, which differs from zone to zone.
#[verifier::external_body]
fn local_stamp(seconds: i64, pattern: &str) -> (text: String)
    requires
        pattern@ == stamp_pattern(),
{
    chrono::DateTime::from_timestamp(seconds, 0).map(
        |t| t.with_timezone(&chrono::Local).format(pattern).to_string(),
    ).unwrap_or_default()
}

/// The lines of `lines` behind each other, each followed by a blank.
pub open spec fn spaced(lines: Seq<Seq<char>>) -> Seq<char>
    decreases lines.len(),
{
    if lines.len() == 0 {
        Seq::<char>::empty()
    } else {
        spaced(lines.drop_last()) + lines.last() + " "@
    }
}

/// A message as the list shows it in `width` columns: a blank, then
/// its words as textwrap broke them for the columns less four, each
/// line followed by a blank.
pub open spec fn message_row(message: Seq<char>, width: u16) -> Seq<char> {
    " "@ + spaced(wrap_lines(message, (if width >= 4 {
        width - 4
    } else {
        0
    }) as nat))
}

#[derive(Debug, PartialEq, Eq)]
pub struct ChatMessage {
    pub message: String,
    /// When the message was added, in seconds since the start of 1970.
    pub ctime: i64,
    pub username: String,
}

pub struct Chat {
    pub show_chats: bool,
    pub show_users: bool,
    pub app_ticker: usize,
    pub render_ticker: usize,
    pub mode: InputMode,
    pub input: Input,
    pub action_tx: Option<ActionSender>,
    pub keymap: Keymap,
    pub chats: StatefulList<ChatMessage>,
    pub last_events: Vec<KeyEvent>,
    pub area: Rect,
    pub areas: Vec<Rect>,
    pub overall_areas: Vec<Rect>,
    pub users_areas: Vec<Rect>,
    pub sub_areas: Vec<Rect>,
    pub banner_areas: Vec<Rect>,
    pub mouse: Option<MouseEvent>,
}

impl Chat {
    pub open spec fn wf(&self) -> bool {
        self.input.wf()
    }

    /// The page has as many areas as drawing needs.
    pub open spec fn laid_out(&self) -> bool {
        &&& self.areas@.len() == 3
        &&& self.overall_areas@.len() >= 1
        &&& self.users_areas@.len() >= 1
        &&& self.sub_areas@.len() == 2
        &&& self.banner_areas@.len() == 2
    }

    /// The areas of the page are what the page cuts of `area`: the
    /// list of chats, while it shows, and the rest are columns of
    /// `area`; the messages and the input box are rows of the rest;
    /// the messages and the list of users, while it shows, are columns
    /// of the first of those rows; the banner and the columns of the
    /// messages are rows of the first of those; and the columns of
    /// time, name and text are columns of the second of these.
    pub open spec fn cut_from(&self, area: Rect) -> bool {
        let lists: nat = if self.show_chats {
            2
        } else {
            1
        };
        let users: nat = if self.show_users {
            2
        } else {
            1
        };
        &&& split_holds(Direction::Horizontal, lists, 0, 0, area, self.overall_areas@)
        &&& split_holds(Direction::Vertical, 2, 0, 0, self.overall_areas@.last(), self.sub_areas@)
        &&& split_holds(Direction::Horizontal, users, 0, 0, self.sub_areas@[0], self.users_areas@)
        &&& split_holds(Direction::Vertical, 2, 0, 0, self.users_areas@[0], self.banner_areas@)
        &&& split_holds(Direction::Horizontal, 3, 0, 0, self.banner_areas@[1], self.areas@)
    }

    /// The message that `add` makes of `s` at the time `today`.
    pub open spec fn is_message(m: ChatMessage, s: String, today: i64) -> bool {
        m.message == s && m.ctime == today && m.username@ == "Simplicy"@
    }

    /// The key sends what was typed: the enter key, while the box is
    /// typed into and holds something, and there is a sender.
    pub open spec fn submits(&self, key: KeyEvent) -> bool {
        self.mode == InputMode::Insert && key.code is Enter && self.action_tx.is_some()
            && self.input.value@.len() > 0
    }

    pub fn new() -> (page: Chat)
        ensures
            !page.show_chats,
            !page.show_users,
            page.app_ticker == 0,
            page.render_ticker == 0,
            page.mode == InputMode::Normal,
            page.input.value@.len() == 0,
            page.action_tx.is_none(),
            page.chats.items@.len() == 0,
            page.chats.state.selected.is_none(),
            page.last_events@.len() == 0,
            page.wf(),
            page.keymap.entries@.len() == 0,
            page.area == Rect::zero(),
            page.areas@.len() == 0,
            page.overall_areas@.len() == 0,
            page.users_areas@.len() == 0,
            page.sub_areas@.len() == 0,
            page.banner_areas@.len() == 0,
            page.mouse.is_none(),
    {
        Chat {
            show_chats: false,
            show_users: false,
            app_ticker: 0,
            render_ticker: 0,
            mode: InputMode::default(),
            input: Input::default(),
            action_tx: None,
            keymap: Keymap::new(),
            chats: StatefulList::default(),
            last_events: Vec::new(),
            area: Rect::default(),
            areas: Vec::new(),
            overall_areas: Vec::new(),
            users_areas: Vec::new(),
            sub_areas: Vec::new(),
            banner_areas: Vec::new(),
            mouse: None,
        }
    }

    pub fn keymap(self, keymap: Keymap) -> (page: Chat)
        ensures
            page == (Chat { keymap, ..self }),
    {
        Chat { keymap, ..self }
    }

    /// Counts a tick of the application and forgets the keys that were
    /// struck.
    pub fn tick(&mut self)
        ensures
            final(self).app_ticker == ticked(old(self).app_ticker),
            final(self).last_events@.len() == 0,
            *final(self) == (Chat {
                app_ticker: final(self).app_ticker,
                last_events: final(self).last_events,
                ..*old(self)
            }),
    {
        self.app_ticker = self.app_ticker.saturating_add(1);
        self.last_events.clear();
    }

    /// Counts a rendered frame.
    pub fn render_tick(&mut self)
        ensures
            *final(self) == (Chat { render_ticker: ticked(old(self).render_ticker), ..*old(self) }),
    {
        self.render_ticker = self.render_ticker.saturating_add(1);
    }

    /// Adds the message `s`, sent at the time `today`, to the end of
    /// the chat.
    pub fn add(&mut self, s: String, today: i64)
        ensures
            final(self).chats.items@.len() == old(self).chats.items@.len() + 1,
            final(self).chats.items@.drop_last() == old(self).chats.items@,
            Chat::is_message(final(self).chats.items@.last(), s, today),
            final(self).chats.state == old(self).chats.state,
            *final(self) == (Chat { chats: final(self).chats, ..*old(self) }),
    {
        let s = ChatMessage { message: s, ctime: today, username: String::from_str("Simplicy") };
        self.chats.items.push(s);
        assert(self.chats.items@.drop_last() =~= old(self).chats.items@);
    }

    pub fn register_action_handler(&mut self, tx: ActionSender)
        ensures
            *final(self) == (Chat { action_tx: Some(tx), ..*old(self) }),
    {
        self.action_tx = Some(tx);
    }

    pub fn current_mode(&self) -> (mode: InputMode)
        ensures
            mode == self.mode,
    {
        self.mode
    }

    /// Takes `area` and cuts it up: the list of chats, while it shows,
    /// beside the rest; of the rest, the input box at the bottom; above
    /// it the list of users, while it shows, beside the messages; and
    /// of the messages a banner on top and the three columns of time,
    /// name and text.
    pub fn register_layout_handler(&mut self, area: Rect)
        ensures
            final(self).area == area,
            final(self).laid_out(),
            final(self).cut_from(area),
            *final(self) == (Chat {
                area,
                areas: final(self).areas,
                overall_areas: final(self).overall_areas,
                users_areas: final(self).users_areas,
                sub_areas: final(self).sub_areas,
                banner_areas: final(self).banner_areas,
                ..*old(self)
            }),
    {
        self.area = area;
        let overall = if self.show_chats {
            Layout::horizontal(vec![Sizing::Percentage(18), Sizing::Fill(1)])
        } else {
            Layout::horizontal(vec![Sizing::Fill(1)])
        };
        self.overall_areas = overall.flex(Slack::Start).spacing(1).split(area);
        let rest = self.overall_areas[self.overall_areas.len() - 1];
        self.sub_areas = Layout::vertical(vec![Sizing::Percentage(100), Sizing::Min(2)]).flex(
            Slack::Start,
        ).split(rest);
        let users = if self.show_users {
            Layout::horizontal(vec![Sizing::Fill(1), Sizing::Percentage(15)])
        } else {
            Layout::horizontal(vec![Sizing::Fill(1)])
        };
        self.users_areas = users.flex(Slack::Start).split(self.sub_areas[0]);
        self.banner_areas = Layout::vertical(vec![Sizing::Length(2), Sizing::Fill(1)]).flex(
            Slack::Start,
        ).split(self.users_areas[0]);
        self.areas = Layout::horizontal(
            vec![Sizing::Percentage(5), Sizing::Max(18), Sizing::Fill(1)],
        ).flex(Slack::Start).split(self.banner_areas[1]);
    }

    /// The page takes no pointer events.
    pub fn handle_mouse_events(&mut self, mouse: MouseEvent) -> (action: Option<Action>)
        ensures
            action.is_none(),
            *final(self) == *old(self),
    {
        None
    }

    /// Notes the key. While the input box is typed into, escape leaves
    /// it; the enter key sends what was typed, if anything was and
    /// there is a sender, and empties the box; every other key goes to
    /// the box.
    pub fn handle_key_events(&mut self, key: KeyEvent) -> (action: Option<Action>)
        requires
            old(self).wf(),
        ensures
            final(self).wf(),
            action == if old(self).mode == InputMode::Insert && key.code is Esc {
                Some(Action::EnterNormal)
            } else {
                None
            },
            final(self).last_events@ == old(self).last_events@.push(key),
            handed(
                old(self).action_tx,
                final(self).action_tx,
                if old(self).submits(key) {
                    seq![Outgoing::Send(Action::CompleteInput(old(self).input.value))]
                } else {
                    Seq::<Outgoing>::empty()
                },
            ),
            (final(self).input.value@, final(self).input.cursor as nat) == if old(self).submits(
                key,
            ) {
                (Seq::<char>::empty(), 0nat)
            } else if old(self).mode == InputMode::Insert && !(key.code is Esc
                || key.code is Enter) {
                old(self).input.after_key(key)
            } else {
                (old(self).input.value@, old(self).input.cursor as nat)
            },
            *final(self) == (Chat {
                last_events: final(self).last_events,
                action_tx: final(self).action_tx,
                input: final(self).input,
                ..*old(self)
            }),
    {
        proof {
            if old(self).action_tx.is_some() {
                assert(old(self).action_tx->0.queue@ + Seq::<Outgoing>::empty() =~= old(self).action_tx->0.queue@);
            }
        }
        self.last_events.push(key);
        match self.mode {
            InputMode::Insert => match key.code {
                KeyCode::Esc => Some(Action::EnterNormal),
                KeyCode::Enter => {
                    if self.action_tx.is_some() {
                        if self.input.value().is_empty() {
                            return None;
                        }
                        emit(&mut self.action_tx, Action::CompleteInput(self.input.value.clone()));
                        self.input.reset();
                    }
                    None
                },
                _ => {
                    self.input.handle_event(&key);
                    None
                },
            },
            _ => None,
        }
    }

    /// The selection after `action`.
    pub open spec fn selected_after(&self, action: Action) -> Option<usize> {
        match action {
            Action::Forward => if self.mode != InputMode::Processing {
                next_index(self.chats.state.selected, self.chats.items@.len())
            } else {
                self.chats.state.selected
            },
            Action::Back => if self.mode != InputMode::Processing {
                previous_index(self.chats.state.selected, self.chats.items@.len())
            } else {
                self.chats.state.selected
            },
            Action::EnterInput => None,
            _ => self.chats.state.selected,
        }
    }

    /// The mode that `action` enters, if it enters one.
    pub open spec fn entered(action: Action) -> Option<InputMode> {
        match action {
            Action::EnterNormal => Some(InputMode::Normal),
            Action::EnterInput => Some(InputMode::Insert),
            Action::EnterProcessing => Some(InputMode::Processing),
            _ => None,
        }
    }

    /// Reacts to `action`: ticks are counted; forward and back move the
    /// selection round the messages, unless work is under way; what was
    /// typed becomes a message of the time the action was dispatched;
    /// the lists show or hide; and the actions that enter a mode enter
    /// it, where entering the input also takes the selection away.
    pub fn update(&mut self, action: Action, ctx: &Ctx) -> (follow_up: Option<Action>)
        ensures
            follow_up.is_none(),
            final(self).app_ticker == if action is Tick {
                ticked(old(self).app_ticker)
            } else {
                old(self).app_ticker
            },
            final(self).last_events@ == if action is Tick {
                Seq::<KeyEvent>::empty()
            } else {
                old(self).last_events@
            },
            final(self).render_ticker == if action is Render {
                ticked(old(self).render_ticker)
            } else {
                old(self).render_ticker
            },
            final(self).mode == match Chat::entered(action) {
                Some(mode) => mode,
                None => old(self).mode,
            },
            final(self).show_chats == if action is ToggleChats {
                !old(self).show_chats
            } else {
                old(self).show_chats
            },
            final(self).show_users == if action is ToggleUsers {
                !old(self).show_users
            } else {
                old(self).show_users
            },
            final(self).chats.state.selected == old(self).selected_after(action),
            final(self).chats.state.offset == if (action is EnterInput || (action is Forward || action is Back) && old(self).mode
                != InputMode::Processing) && (old(self).selected_after(action)).is_none() {
                0
            } else {
                old(self).chats.state.offset
            },
            match action {
                Action::CompleteInput(s) => final(self).chats.items@.len() == old(self).chats.items@.len() + 1 && final(self).chats.items@.drop_last() == old(self).chats.items@ && Chat::is_message(final(self).chats.items@.last(), s, ctx.today),
                _ => final(self).chats.items == old(self).chats.items,
            },
            final(self).input == old(self).input,
            final(self).action_tx == old(self).action_tx,
            final(self).keymap == old(self).keymap,
            final(self).area == old(self).area,
            final(self).areas == old(self).areas,
            final(self).overall_areas == old(self).overall_areas,
            final(self).users_areas == old(self).users_areas,
            final(self).sub_areas == old(self).sub_areas,
            final(self).banner_areas == old(self).banner_areas,
            final(self).mouse == old(self).mouse,
    {
        match action {
            Action::Tick => self.tick(),
            Action::Render => self.render_tick(),
            Action::Forward => {
                if self.mode != InputMode::Processing {
                    self.chats.next()
                }
            },
            Action::Back => {
                if self.mode != InputMode::Processing {
                    self.chats.previous()
                }
            },
            Action::CompleteInput(s) => self.add(s, ctx.today),
            Action::ToggleChats => {
                self.show_chats = !self.show_chats;
            },
            Action::ToggleUsers => {
                self.show_users = !self.show_users;
            },
            Action::EnterNormal => {
                self.mode = InputMode::Normal;
            },
            Action::EnterInput => {
                self.chats.state.select(None);
                self.mode = InputMode::Insert;
            },
            Action::EnterProcessing => {
                self.mode = InputMode::Processing;
            },
            _ => {},
        }
        None
    }

    fn join_spaced(lines: &Vec<String>) -> (text: String)
        ensures
            text@ == " "@ + spaced(Seq::new(lines@.len(), |i: int| lines@[i]@)),
    {
        let ghost all = Seq::new(lines@.len(), |i: int| lines@[i]@);
        let mut out: Vec<char> = Vec::new();
        push_str(&mut out, " ");
        let mut i: usize = 0;
        assert(all.subrange(0, 0) =~= Seq::<Seq<char>>::empty());
        assert(out@ =~= " "@ + spaced(all.subrange(0, 0)));
        while i < lines.len()
            invariant
                i <= lines@.len(),
                all == Seq::new(lines@.len(), |k: int| lines@[k]@),
                out@ == " "@ + spaced(all.subrange(0, i as int)),
            decreases lines@.len() - i,
        {
            push_str(&mut out, lines[i].as_str());
            push_str(&mut out, " ");
            proof {
                assert(all.subrange(0, i + 1).drop_last() =~= all.subrange(0, i as int));
                assert(all.subrange(0, i + 1).last() == lines@[i as int]@);
                assert(out@ =~= " "@ + spaced(all.subrange(0, i + 1)));
            }
            i += 1;
        }
        assert(all.subrange(0, i as int) =~= all);
        string_from(&out)
    }

    fn message_rows(&self) -> (rows: Vec<ListItem>)
        requires
            self.areas@.len() == 3,
        ensures
            rows@.len() == self.chats.items@.len(),
            forall|i: int|
                0 <= i < rows@.len() ==> (#[trigger] rows@[i]).line.text() == message_row(
                    self.chats.items@[i].message@,
                    self.areas@[2].width,
                ),
    {
        let width = self.areas[2].width;
        let columns = if width >= 4 {
            (width - 4) as usize
        } else {
            0
        };
        let mut rows: Vec<ListItem> = Vec::new();
        let mut i: usize = 0;
        while i < self.chats.items.len()
            invariant
                i <= self.chats.items@.len(),
                self.areas@.len() == 3,
                width == self.areas@[2].width,
                columns == if width >= 4 {
                    (width - 4) as usize
                } else {
                    0
                },
                rows@.len() == i,
                forall|k: int|
                    0 <= k < i ==> (#[trigger] rows@[k]).line.text() == message_row(
                        self.chats.items@[k].message@,
                        width,
                    ),
            decreases self.chats.items@.len() - i,
        {
            let word = wrapped(self.chats.items[i].message.as_str(), columns);
            assert(Seq::new(word@.len(), |k: int| word@[k]@) =~= wrap_lines(
                self.chats.items@[i as int].message@,
                columns as nat,
            ));
            let text = Chat::join_spaced(&word);
            rows.push(
                ListItem { line: Line::raw(text).aligned(Alignment::Left), style: Style::new() },
            );
            i += 1;
        }
        rows
    }

    fn stamps(&self) -> (lines: Vec<Line>)
        ensures
            lines@.len() == self.chats.items@.len(),
    {
        let mut lines: Vec<Line> = Vec::new();
        let mut i: usize = 0;
        while i < self.chats.items.len()
            invariant
                i <= self.chats.items@.len(),
                lines@.len() == i,
            decreases self.chats.items@.len() - i,
        {
            proof {
                reveal_strlit("%H:%m");
            }
            let stamp = local_stamp(self.chats.items[i].ctime, "%H:%m");
            lines.push(Line::raw(stamp).aligned(Alignment::Left));
            i += 1;
        }
        lines
    }

    fn names(&self) -> (rows: Vec<ListItem>)
        ensures
            rows@.len() == self.chats.items@.len(),
            forall|i: int|
                0 <= i < rows@.len() ==> (#[trigger] rows@[i]).line.text()
                    == self.chats.items@[i].username@ + " "@,
    {
        let mut rows: Vec<ListItem> = Vec::new();
        let mut i: usize = 0;
        while i < self.chats.items.len()
            invariant
                i <= self.chats.items@.len(),
                rows@.len() == i,
                forall|k: int|
                    0 <= k < i ==> (#[trigger] rows@[k]).line.text()
                        == self.chats.items@[k].username@ + " "@,
            decreases self.chats.items@.len() - i,
        {
            let mut name = chars_of(self.chats.items[i].username.as_str());
            push_str(&mut name, " ");
            rows.push(
                ListItem {
                    line: Line::raw(string_from(&name)).aligned(Alignment::Right),
                    style: Style::new(),
                },
            );
            i += 1;
        }
        rows
    }

    /// Draws the page: the frames of the lists that show, the banner,
    /// the times, names and texts of the messages, and the input box,
    /// with the cursor in it while it is typed into.
    /// Before a layout pass has cached the areas, nothing is drawn.
    pub fn draw(&self, f: &mut Frame)
        requires
            self.wf(),
        ensures
            final(f).area == old(f).area,
            !self.laid_out() ==> final(f).ops@ == old(f).ops@ && final(f).cursor == old(f).cursor,
            self.laid_out() ==> ({
                &&& final(f).cursor == if self.mode == InputMode::Insert {
                    Some(cursor_cell(self.sub_areas@[1], 0, self.input.cursor))
                } else {
                    old(f).cursor
                }
                &&& ({
                    let ops = final(f).ops@;
                    let lists = (if self.show_chats {
                        1int
                    } else {
                        0int
                    }) + (if self.show_users {
                        1int
                    } else {
                        0int
                    });
                    let n = old(f).ops@.len() as int + lists;
                    &&& ops.len() == n + 5
                    &&& ops.subrange(0, old(f).ops@.len() as int) == old(f).ops@
                    &&& self.show_chats ==> ops[old(f).ops@.len() as int].area == self.overall_areas@[0]
                    &&& self.show_users ==> ops[n - 1].area == self.users_areas@.last()
                    &&& ops[n].area == self.banner_areas@[0]
                    &&& ops[n + 1].area == self.areas@[0]
                    &&& ops[n + 2].area == self.areas@[1]
                    &&& ops[n + 2].widget matches Widget::List(names) && names.state == Some(
                        self.chats.state,
                    ) && names.items@.len() == self.chats.items@.len()
                    &&& ops[n + 3].area == self.areas@[2]
                    &&& ops[n + 3].widget matches Widget::List(texts) && texts.state == Some(
                        self.chats.state,
                    ) && texts.items@.len() == self.chats.items@.len() && forall|i: int|
                        0 <= i < texts.items@.len() ==> (#[trigger] texts.items@[i]).line.text()
                            == message_row(self.chats.items@[i].message@, self.areas@[2].width)
                    &&& ops[n + 4].area == self.sub_areas@[1]
                    &&& is_input_box(ops[n + 4].widget, self.input, self.mode, self.sub_areas@[1].width)
                })
            }),
    {
        if !(self.areas.len() == 3 && self.overall_areas.len() >= 1 && self.users_areas.len() >= 1
            && self.sub_areas.len() == 2 && self.banner_areas.len() == 2) {
            return ;
        }
        if self.show_chats {
            let block = Block::new().border_type(BorderType::Rounded).borders(BORDER_RIGHT);
            f.render_widget(Widget::Block(block), self.overall_areas[0]);
        }
        if self.show_users {
            let block = Block::new().title_top(Line::plain("Users")).border_type(
                BorderType::Rounded,
            ).borders(BORDER_LEFT);
            f.render_widget(Widget::Block(block), self.users_areas[self.users_areas.len() - 1]);
        }
        let block = Block::new().border_type(BorderType::Rounded).borders(BORDER_BOTTOM);
        f.render_widget(Widget::Block(block), self.banner_areas[0]);
        f.render_widget(
            Widget::Paragraph(
                Paragraph::new(self.stamps()).style(Style::new().fg(Color::Cyan)).alignment(
                    Alignment::Center,
                ),
            ),
            self.areas[0],
        );
        f.render_stateful_widget(
            List::new(self.names()).highlight_style(Style::new().bold()).block(
                Block::new().borders(BORDER_RIGHT),
            ).style(Style::new().fg(Color::Cyan)),
            self.areas[1],
            &self.chats.state,
        );
        let messages = List::new(self.message_rows()).highlight_style(
            Style::new().bold(),
        ).highlight_symbol(String::from_str("> "));
        f.render_stateful_widget(messages, self.areas[2], &self.chats.state);
        f.render_widget(
            input_box(&self.input, self.mode, self.sub_areas[1].width, BORDER_TOP),
            self.sub_areas[1],
        );
        if self.mode == InputMode::Insert {
            f.set_cursor_position(cursor_in(self.sub_areas[1], 0, self.input.cursor()));
        }
        assert(final(f).ops@.subrange(0, old(f).ops@.len() as int) =~= old(f).ops@);
    }
}

} // verus!
