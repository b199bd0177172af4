//! The bar of the music player: what plays, and for how long.

use vstd::prelude::*;
use crate::action::Action;
use crate::component::{a_second_since, second_passed, ActionSender, Ctx, Keymap};
use crate::keys::MouseEvent;
use crate::layout::{row_of, Layout, Rect, Sizing};
use crate::render::{Block, Color, Frame, Line, LineGauge, Paragraph, Span, Style, Widget};
use crate::scroll::ScrollState;
use crate::text::{decimal, push_decimal, push_str, string_from};

verus! {

/// `n` in two digits or more.
pub open spec fn two_digits(n: nat) -> Seq<char> {
    if n < 10 {
        "0"@ + decimal(n)
    } else {
        decimal(n)
    }
}

/// The label of the gauge after `time` seconds: minutes and seconds,
/// and the signs to wind back, to pause or play, and to wind on.
pub open spec fn gauge_label(time: u64, playing: bool) -> Seq<char> {
    two_digits((time / 60) as nat) + ":"@ + two_digits((time % 60) as nat) + " ⏪︎"@ + (if playing {
        " ⏸︎"@
    } else {
        " ⏯"@
    }) + " ⏩︎ "@
}

fn push_two_digits(out: &mut Vec<char>, n: u64)
    ensures
        final(out)@ == old(out)@ + two_digits(n as nat),
{
    if n < 10 {
        push_str(out, "0");
    }
    push_decimal(out, n);
    assert(out@ =~= old(out)@ + two_digits(n as nat));
}

#[derive(Debug)]
pub struct Controls {
    pub keymap: Keymap,
    pub mouse: Option<MouseEvent>,
    pub area: Rect,
    /// When the running second began.
    pub start_time: u64,
    pub state: ScrollState,
    pub playing: bool,
    /// Seconds played.
    pub time: u64,
    pub action_tx: Option<ActionSender>,
}

impl Controls {
    /// The seconds played after a tick at `now`.
    pub open spec fn time_after_tick(&self, now: u64) -> u64 {
        if self.playing && second_passed(self.start_time, now) && self.time < u64::MAX {
            (self.time + 1) as u64
        } else {
            self.time
        }
    }

    /// When the running second began, after a tick at `now`.
    pub open spec fn start_after_tick(&self, now: u64) -> u64 {
        if self.playing && second_passed(self.start_time, now) {
            now
        } else {
            self.start_time
        }
    }

    /// Controls that are paused at no seconds, as of `now`.
    pub fn new(now: u64) -> (controls: Controls)
        ensures
            controls.state == (ScrollState { position: 0, view_size: 1, max: 0 }),
            controls.mouse.is_none(),
            controls.start_time == now,
            controls.action_tx.is_none(),
            controls.time == 0,
            !controls.playing,
            controls.area == Rect::zero(),
            controls.keymap.entries@.len() == 0,
    {
        Controls {
            state: ScrollState::new(0),
            mouse: None,
            start_time: now,
            action_tx: None,
            time: 0,
            playing: false,
            area: Rect::default(),
            keymap: Keymap::new(),
        }
    }

    /// Counts a second of playing once a second has gone by.
    pub fn tick(&mut self, now: u64)
        ensures
            *final(self) == (Controls {
                start_time: old(self).start_after_tick(now),
                time: old(self).time_after_tick(now),
                ..*old(self)
            }),
    {
        if self.playing {
            if a_second_since(self.start_time, now) {
                self.start_time = now;
                self.time = self.time.saturating_add(1);
            }
        }
    }

    pub fn register_action_handler(&mut self, tx: ActionSender)
        ensures
            *final(self) == (Controls { action_tx: Some(tx), ..*old(self) }),
    {
        self.action_tx = Some(tx);
    }

    pub fn register_layout_handler(&mut self, area: Rect)
        ensures
            *final(self) == (Controls { area, ..*old(self) }),
    {
        self.area = area;
    }

    /// The controls are what `before` becomes by `action` at the time
    /// of `ctx`.
    pub open spec fn updated(&self, before: Controls, action: Action, now: u64) -> bool {
        *self == match action {
            Action::Tick => Controls {
                start_time: before.start_after_tick(now),
                time: before.time_after_tick(now),
                ..before
            },
            Action::PausePlay => Controls { playing: !before.playing, ..before },
            _ => before,
        }
    }

    /// Reacts to `action`: a tick counts the time while it plays, and
    /// the action to pause or play toggles the playing.
    pub fn update(&mut self, action: Action, ctx: &Ctx) -> (follow_up: Option<Action>)
        ensures
            follow_up.is_none(),
            final(self).updated(*old(self), action, ctx.now),
    {
        match action {
            Action::Tick => self.tick(ctx.now),
            Action::PausePlay => {
                self.playing = !self.playing;
            },
            _ => {},
        }
        None
    }

    /// `ops` is `before` with what the controls `was` draw behind it.
    pub open spec fn drawn(
        &self,
        was: Controls,
        before: Seq<crate::render::DrawOp>,
        ops: Seq<crate::render::DrawOp>,
    ) -> bool {
        let n = before.len() as int;
        &&& ops.len() == n + 3
        &&& ops.subrange(0, n) == before
        &&& ops[n].widget is Clear
        &&& ops[n].area == was.area
        &&& row_of(was.area, ops[n + 1].area)
        &&& ops[n + 1].widget matches Widget::LineGauge(g) && g.label@ == gauge_label(
            was.time,
            was.playing,
        )
        &&& row_of(was.area, ops[n + 2].area)
        &&& ops[n + 2].widget matches Widget::Paragraph(p) && p.lines@.len() == 1
            && p.lines@[0].spans@.len() == 2 && p.lines@[0].spans@[0].content@ == "Now Playing: "@
        &&& self.state.position == was.state.position
        &&& self.state.max == was.state.max
        &&& self.state.view_size <= u16::MAX
        &&& *self == (Controls { state: self.state, ..was })
    }

    /// Draws the controls into their area: the area is cleared; the
    /// gauge with the time goes into the last row and the title into
    /// the first. The window of the scroll state becomes as high as
    /// what lies between them.
    pub fn draw(&mut self, frame: &mut Frame)
        ensures
            final(frame).area == old(frame).area,
            final(frame).cursor == old(frame).cursor,
            final(self).drawn(*old(self), old(frame).ops@, final(frame).ops@),
    {
        let mut state = self.state;
        let area = self.area;
        frame.render_widget(Widget::Clear, area);
        let rows = Layout::vertical(vec![Sizing::Length(1), Sizing::Fill(2), Sizing::Length(1)]).split(
            area,
        );
        let header = rows[0];
        let body = rows[1];
        let footer = rows[2];
        let mut label: Vec<char> = Vec::new();
        push_two_digits(&mut label, self.time / 60);
        push_str(&mut label, ":");
        push_two_digits(&mut label, self.time % 60);
        push_str(&mut label, " ⏪︎");
        if self.playing {
            push_str(&mut label, " ⏸︎");
        } else {
            push_str(&mut label, " ⏯");
        }
        push_str(&mut label, " ⏩︎ ");
        assert(label@ =~= gauge_label(self.time, self.playing));
        frame.render_widget(
            Widget::LineGauge(
                LineGauge {
                    label: string_from(&label),
                    filled_style: Style::new().fg(Color::Magenta),
                    thick: true,
                    block: Some(Block::new()),
                },
            ),
            footer,
        );
        state.view_size = body.height as usize;
        self.state = state;
        let mut spans: Vec<Span> = Vec::new();
        spans.push(Span::plain("Now Playing: "));
        spans.push(Span::colored("1093 - YEAT (2093)", Style::new().fg(Color::White).bold()));
        let mut lines: Vec<Line> = Vec::new();
        lines.push(Line::from_spans(spans));
        frame.render_widget(
            Widget::Paragraph(Paragraph::new(lines).style(Style::new().bg(Color::Black))),
            header,
        );
        proof {
            assert(final(frame).ops@.subrange(0, old(frame).ops@.len() as int) =~= old(frame).ops@);
        }
    }
}

} // verus!
