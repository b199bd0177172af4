//! The panel that shows the log of the application.

use vstd::prelude::*;
use crate::action::{Action, InputMode};
use crate::component::{ActionSender, Ctx, Keymap, Read};
use crate::conf::{app_name, name, AppConfiguration};
use crate::keys::{KeyCode, KeyEvent, MouseEvent};
use crate::layout::{
    cut_from, cut_through, cut_twice, inner_of_bordered, Direction, Layout, Rect, Sizing, Slack,
};
use crate::render::{
    narrow, narrowed, Block, BorderType, Color, DrawOp, Frame, Line, Paragraph, Style, Widget,
};
use crate::scroll::{least, scroll_limit, ScrollOp, ScrollState, ScrollbarView};
use crate::text::{chars_of, count_lines, line_count, push_str, string_from};

verus! {

/// How many seconds lie between two readings of the log.
pub const REFRESH_SECONDS: u64 = 5;

/// Where the log lies under the data directory `data_path`.
pub open spec fn log_under(data_path: Seq<char>) -> Seq<char> {
    data_path + "/"@ + app_name() + ".log"@
}

pub struct Log {
    pub show: bool,
    pub action_tx: Option<ActionSender>,
    pub keymap: Keymap,
    pub area: Rect,
    pub config: Option<AppConfiguration>,
    /// When the log was read last, in seconds since the start of 1970.
    pub last_refresh: i64,
    /// How many seconds lie between two readings.
    pub refresh_rate: u64,
    pub log: String,
    pub state: ScrollState,
}

impl Log {
    /// The scroll state of a text of `lines` lines, at its bottom.
    pub open spec fn at_bottom(lines: nat) -> ScrollState {
        ScrollState { position: scroll_limit(lines, 1) as usize, view_size: 1, max: lines as usize }
    }

    /// A hidden panel, as of the time `today`.
    pub fn new(today: i64) -> (panel: Log)
        ensures
            !panel.show,
            panel.state == (ScrollState { position: 0, view_size: 1, max: 0 }),
            panel.action_tx.is_none(),
            panel.area == Rect::zero(),
            panel.refresh_rate == REFRESH_SECONDS,
            panel.config.is_none(),
            panel.last_refresh == today,
            panel.log@ == "test text"@,
            panel.keymap.entries@.len() == 0,
    {
        Log {
            show: false,
            state: ScrollState::new(0),
            action_tx: None,
            keymap: Keymap::new(),
            area: Rect::default(),
            refresh_rate: REFRESH_SECONDS,
            config: None,
            last_refresh: today,
            log: String::from_str("test text"),
        }
    }

    pub fn keymap(self, keymap: Keymap) -> (panel: Log)
        ensures
            panel == (Log { keymap, ..self }),
    {
        Log { keymap, ..self }
    }

    /// Where the log lies, by the configuration; nowhere without one.
    pub fn log_path(&self) -> (path: Option<String>)
        ensures
            match self.config {
                Some(c) => path matches Some(p) && p@ == log_under(c.config.app_data_path@),
                None => path.is_none(),
            },
    {
        match &self.config {
            Some(conf) => {
                let mut path = chars_of(conf.config.app_data_path.as_str());
                push_str(&mut path, "/");
                push_str(&mut path, name());
                push_str(&mut path, ".log");
                Some(string_from(&path))
            },
            None => None,
        }
    }

    /// Takes what was read of the log at the time `today`: the text, or
    /// the notice that it could not be read, scrolled to its bottom.
    /// Without a configuration nothing happens.
    pub fn tick(&mut self, today: i64, read: Read<String>)
        ensures
            old(self).config.is_none() ==> *final(self) == *old(self),
            old(self).config.is_some() ==> {
                &&& final(self).last_refresh == today
                &&& match read {
                    Ok(text) => final(self).log == text,
                    Err(_) => final(self).log@ == "Failed to read log file"@,
                }
                &&& final(self).state == Log::at_bottom(line_count(final(self).log@))
                &&& *final(self) == (Log {
                    last_refresh: final(self).last_refresh,
                    log: final(self).log,
                    state: final(self).state,
                    ..*old(self)
                })
            },
    {
        if self.config.is_none() {
            return ;
        }
        self.last_refresh = today;
        self.log = match read {
            Ok(log) => log,
            Err(_) => String::from_str("Failed to read log file"),
        };
        self.state = ScrollState::new(count_lines(self.log.as_str()));
        self.state.scroll_bottom();
    }

    /// The place of the panel in `area`, as the layout solver cuts it:
    /// four fifths of the columns and three quarters of the rows, in
    /// the middle and inside a margin of two.
    pub fn popup_area(area: Rect) -> (place: Rect)
        ensures
            cut_twice(Direction::Horizontal, (2, 0), (0, 2), area, place),
            cut_from(area, place),
    {
        let vertical = Layout::vertical(vec![Sizing::Percentage(75)]).flex(
            Slack::Center,
        ).vertical_margin(2);
        let horizontal = Layout::horizontal(vec![Sizing::Percentage(80)]).flex(
            Slack::Center,
        ).horizontal_margin(2);
        let columns = horizontal.single(area);
        let place = vertical.single(columns);
        assert(cut_through(Direction::Horizontal, (2, 0), (0, 2), area, columns, place));
        place
    }

    pub fn current_mode(&self) -> (mode: InputMode)
        ensures
            mode == InputMode::Normal,
    {
        InputMode::Normal
    }

    pub fn register_action_handler(&mut self, tx: ActionSender)
        ensures
            *final(self) == (Log { action_tx: Some(tx), ..*old(self) }),
    {
        self.action_tx = Some(tx);
    }

    pub fn register_config_handler(&mut self, config: AppConfiguration)
        ensures
            *final(self) == (Log { config: Some(config), ..*old(self) }),
    {
        self.config = Some(config);
    }

    /// Takes its place in `area`.
    pub fn register_layout_handler(&mut self, area: Rect)
        ensures
            cut_twice(Direction::Horizontal, (2, 0), (0, 2), area, final(self).area),
            cut_from(area, final(self).area),
            *final(self) == (Log { area: final(self).area, ..*old(self) }),
    {
        self.area = Log::popup_area(area);
    }

    /// The panel takes no pointer events.
    pub fn handle_mouse_events(&mut self, mouse: MouseEvent) -> (action: Option<Action>)
        ensures
            action.is_none(),
            *final(self) == *old(self),
    {
        None
    }

    /// Escape hides the panel, and the enter key selects.
    pub fn handle_key_events(&mut self, key: KeyEvent) -> (action: Option<Action>)
        ensures
            action == match key.code {
                KeyCode::Esc => Some(Action::Update),
                KeyCode::Enter => Some(Action::SelectOption),
                _ => None,
            },
            *final(self) == (Log { show: old(self).show && !(key.code is Esc), ..*old(self) }),
    {
        match key.code {
            KeyCode::Esc => {
                self.show = false;
                Some(Action::Update)
            },
            KeyCode::Enter => Some(Action::SelectOption),
            _ => None,
        }
    }

    /// Whether the log has to be read before `action` is handled: for a
    /// tick, while the panel shows and there is a configuration.
    pub fn wants_log(&self, action: &Action) -> (path: Option<String>)
        ensures
            path.is_some() == (self.show && *action is Tick && self.config.is_some()),
            path matches Some(p) ==> p@ == log_under(self.config->0.config.app_data_path@),
    {
        if self.show {
            if let Action::Tick = action {
                return self.log_path();
            }
        }
        None
    }

    /// Reacts to `action`, with what was read of the log where it was
    /// wanted. Toggling the log scrolls it to its bottom and shows or
    /// hides the panel. While the panel shows, a tick takes what was
    /// read, and forward and back scroll by a line.
    pub fn update(&mut self, action: Action, ctx: &Ctx, read: Option<Read<String>>) -> (follow_up:
        Option<Action>)
        ensures
            follow_up.is_none(),
            match action {
                Action::ToggleLog => *final(self) == (Log {
                    show: !old(self).show,
                    state: old(self).state.after(ScrollOp::Bottom),
                    ..*old(self)
                }),
                Action::Forward => *final(self) == (Log {
                    state: if old(self).show {
                        old(self).state.after(ScrollOp::Down)
                    } else {
                        old(self).state
                    },
                    ..*old(self)
                }),
                Action::Back => *final(self) == (Log {
                    state: if old(self).show {
                        old(self).state.after(ScrollOp::Up)
                    } else {
                        old(self).state
                    },
                    ..*old(self)
                }),
                Action::Tick => if old(self).show && old(self).config.is_some() && read.is_some() {
                    &&& final(self).last_refresh == ctx.today
                    &&& match read->0 {
                        Ok(text) => final(self).log == text,
                        Err(_) => final(self).log@ == "Failed to read log file"@,
                    }
                    &&& final(self).state == Log::at_bottom(line_count(final(self).log@))
                    &&& *final(self) == (Log {
                        last_refresh: final(self).last_refresh,
                        log: final(self).log,
                        state: final(self).state,
                        ..*old(self)
                    })
                } else {
                    *final(self) == *old(self)
                },
                _ => *final(self) == *old(self),
            },
    {
        if self.show {
            match action {
                Action::Tick => {
                    if let Some(r) = read {
                        self.tick(ctx.today, r);
                    }
                },
                Action::ToggleLog => {
                    self.state.scroll_bottom();
                    self.show = !self.show;
                },
                Action::Forward => self.state.scroll_down(),
                Action::Back => self.state.scroll_up(),
                _ => {},
            }
        } else if let Action::ToggleLog = action {
            self.state.scroll_bottom();
            self.show = !self.show;
        }
        None
    }

    /// Draws the panel while it shows: its place is cleared and framed;
    /// the text goes inside the frame, from the line the scroll state
    /// stands at, as far as the text has that many windows; the
    /// scrollbar goes beside it. The window of the scroll state becomes
    /// as high as the text area, and the state moves to the line that
    /// shows.
    pub fn draw(&mut self, f: &mut Frame)
        ensures
            final(f).area == old(f).area,
            final(f).cursor == old(f).cursor,
            !old(self).show ==> final(f).ops@ == old(f).ops@ && *final(self) == *old(self),
            old(self).show ==> {
                let ops = final(f).ops@;
                let n = old(f).ops@.len() as int;
                let window = ops[n + 2].area.height as usize;
                let from = least(
                    old(self).state.position as nat,
                    scroll_limit(line_count(old(self).log@), window as nat),
                ) as usize;
                &&& ops.len() == n + 4
                &&& ops.subrange(0, n) == old(f).ops@
                &&& ops[n].widget is Clear
                &&& ops[n].area == old(self).area
                &&& ops[n + 1].widget matches Widget::Block(b) && b.titles@.len() == 1
                    && b.titles@[0].line.text() == "Log"@
                &&& ops[n + 1].area == old(self).area
                &&& ops[n + 2].widget matches Widget::Paragraph(p) && p.lines@.len() == 1
                    && p.lines@[0].text() == old(self).log@ && p.scroll_y == narrowed(from)
                &&& ops[n + 3].widget == Widget::Scrollbar(
                    ScrollbarView {
                        content_length: scroll_limit(
                            old(self).state.max as nat,
                            window as nat,
                        ) as usize,
                        position: from,
                    },
                )
                &&& *final(self) == (Log {
                    state: ScrollState { position: from, view_size: window, ..old(self).state },
                    ..*old(self)
                })
            },
    {
        if self.show {
            let block = Block::bordered().border_type(BorderType::Rounded).title_top(
                Line::plain("Log"),
            ).style(Style::new().fg(Color::White));
            f.render_widget(Widget::Clear, self.area);
            let mut state = self.state;
            f.render_widget(Widget::Block(block), self.area);
            let inner = inner_of_bordered(self.area);
            let whole = Layout::vertical(vec![Sizing::Fill(1)]).single(inner);
            let parts = Layout::horizontal(vec![Sizing::Percentage(95), Sizing::Length(10)]).split(
                whole,
            );
            let body = parts[0];
            let scrollbar = parts[1];
            state.view_size = body.height as usize;
            let height = count_lines(self.log.as_str());
            let limit = height.saturating_sub(state.view_size);
            if state.position > limit {
                state.position = limit;
            }
            let mut lines: Vec<Line> = Vec::new();
            lines.push(Line::raw(self.log.clone()));
            f.render_widget(
                Widget::Paragraph(Paragraph::new(lines).scroll(narrow(state.position), 0).wrap()),
                body,
            );
            f.render_widget(Widget::Scrollbar(state.scrollbar()), scrollbar);
            self.state = state;
            assert(final(f).ops@.subrange(0, old(f).ops@.len() as int) =~= old(f).ops@);
        }
    }
}

} // verus!
