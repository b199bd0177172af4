//! A spinner that shows while something is being worked on.

use vstd::prelude::*;
use crate::action::{Action, InputMode};
use crate::component::{ActionSender, Ctx};
use crate::layout::{row_of, strip, Direction, Layout, Rect, Sizing, Slack};
use crate::render::{Alignment, Block, Frame, Line, Paragraph, Widget};

verus! {

/// How many render ticks one picture of the spinner stays.
pub const TICKS_PER_PICTURE: usize = 3;

/// How many pictures the spinner has.
pub const PICTURES: usize = 8;

/// The pictures of the spinner, in the order they show.
pub open spec fn pictures() -> Seq<Seq<char>> {
    seq!["⡇"@, "⠏"@, "⠛"@, "⠹"@, "⢸"@, "⣰"@, "⣤"@, "⣆"@]
}

/// The picture that shows after `ticks` render ticks.
pub open spec fn picture_at(ticks: usize) -> int {
    (ticks / TICKS_PER_PICTURE) as int % (PICTURES as int)
}

pub struct Loader {
    pub mode: InputMode,
    pub render_ticker: usize,
    pub action_tx: Option<ActionSender>,
    pub area: Rect,
}

impl Loader {
    pub fn new() -> (loader: Loader)
        ensures
            loader.mode == InputMode::Normal,
            loader.render_ticker == 0,
            loader.action_tx.is_none(),
            loader.area == Rect::zero(),
    {
        Loader {
            mode: InputMode::default(),
            render_ticker: 0,
            action_tx: None,
            area: Rect::default(),
        }
    }

    pub fn current_mode(&self) -> (mode: InputMode)
        ensures
            mode == self.mode,
    {
        self.mode
    }

    /// Counts a rendered frame.
    pub fn render_tick(&mut self)
        ensures
            *final(self) == (Loader {
                render_ticker: if old(self).render_ticker == usize::MAX {
                    usize::MAX
                } else {
                    (old(self).render_ticker + 1) as usize
                },
                ..*old(self)
            }),
    {
        self.render_ticker = self.render_ticker.saturating_add(1);
    }

    pub fn register_action_handler(&mut self, tx: ActionSender)
        ensures
            *final(self) == (Loader { action_tx: Some(tx), ..*old(self) }),
    {
        self.action_tx = Some(tx);
    }

    /// Takes one row of `area`, in its middle as the layout solver
    /// finds it.
    pub fn register_layout_handler(&mut self, area: Rect)
        ensures
            strip(Direction::Vertical, 0, 0, area, final(self).area),
            row_of(area, final(self).area),
            final(self).mode == old(self).mode,
            final(self).render_ticker == old(self).render_ticker,
            final(self).action_tx == old(self).action_tx,
    {
        let vertical = Layout::vertical(vec![Sizing::Length(1)]).flex(Slack::Center);
        self.area = vertical.single(area);
    }

    /// Every render action counts as a frame.
    pub fn update(&mut self, action: Action, ctx: &Ctx) -> (follow_up: Option<Action>)
        ensures
            follow_up.is_none(),
            *final(self) == (Loader {
                render_ticker: if action is Render && old(self).render_ticker < usize::MAX {
                    (old(self).render_ticker + 1) as usize
                } else {
                    old(self).render_ticker
                },
                ..*old(self)
            }),
    {
        if let Action::Render = action {
            self.render_tick();
        }
        None
    }

    /// Draws the picture of the spinner that the count of frames has
    /// come to.
    pub fn draw(&self, f: &mut Frame)
        ensures
            final(f).area == old(f).area,
            final(f).cursor == old(f).cursor,
            final(f).ops@.len() == old(f).ops@.len() + 1,
            final(f).ops@.subrange(0, old(f).ops@.len() as int) == old(f).ops@,
            final(f).ops@.last().area == self.area,
            final(f).ops@.last().widget matches Widget::Paragraph(p) && p.lines@.len() == 1
                && p.lines@[0].text() == pictures()[picture_at(self.render_ticker)],
    {
        let i = (self.render_ticker / TICKS_PER_PICTURE) % PICTURES;
        let sign = if i == 0 {
            "⡇"
        } else if i == 1 {
            "⠏"
        } else if i == 2 {
            "⠛"
        } else if i == 3 {
            "⠹"
        } else if i == 4 {
            "⢸"
        } else if i == 5 {
            "⣰"
        } else if i == 6 {
            "⣤"
        } else {
            "⣆"
        };
        let mut lines: Vec<Line> = Vec::new();
        lines.push(Line::raw(String::from_str(sign)));
        let loader = Paragraph::new(lines).alignment(Alignment::Center).block(Block::new());
        f.render_widget(Widget::Paragraph(loader), self.area);
        assert(final(f).ops@.subrange(0, old(f).ops@.len() as int) =~= old(f).ops@);
    }
}

} // verus!
