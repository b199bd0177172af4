//! Messages that show for a few seconds and then go away.

use vstd::prelude::*;
use crate::action::{Action, InputMode};
use crate::component::{a_second_since, second_passed, ActionSender, Ctx, Keymap, Modal};
use crate::keys::{KeyCode, KeyEvent, MouseEvent};
use crate::layout::{
    bordered_inner, cut_through, cut_twice, framed_in, framed_through, inner_of_bordered, within,
    Direction, Layout, Rect, Sizing, Slack,
};
use crate::render::{Alignment, Block, Color, Frame, Line, Paragraph, Style, Widget};

verus! {

/// How long a toast stays, in seconds.
pub const TOAST_SECONDS: u64 = 5;

/// The stack after one second went by: the front entry has a second
/// less to stay, and leaves the stack when it has none left.
pub open spec fn aged(toasts: Seq<Modal>) -> Seq<Modal> {
    if toasts.len() == 0 {
        toasts
    } else {
        let front = toasts[0];
        let left = if front.duration >= 1 {
            (front.duration - 1) as u64
        } else {
            front.duration
        };
        if left == 0 {
            toasts.remove(0)
        } else {
            toasts.update(0, Modal { duration: left, ..front })
        }
    }
}

/// The stack after `seconds` seconds went by, one at a time.
pub open spec fn aged_by(toasts: Seq<Modal>, seconds: nat) -> Seq<Modal>
    decreases seconds,
{
    if seconds == 0 {
        toasts
    } else {
        aged(aged_by(toasts, (seconds - 1) as nat))
    }
}

/// A toast that is to stay `d` seconds is still in front of the stack,
/// with the rest of its time, after every second before the `d`-th, and
/// is taken off the stack by the `d`-th. A toast of five seconds is
/// there after four and gone after five.
pub proof fn lemma_toast_leaves_on_time(toasts: Seq<Modal>, d: nat, k: nat)
    requires
        toasts.len() > 0,
        toasts[0].duration == d,
        1 <= d,
        k <= d,
    ensures
        k < d ==> aged_by(toasts, k) == toasts.update(
            0,
            Modal { duration: (d - k) as u64, ..toasts[0] },
        ),
        k == d ==> aged_by(toasts, k) == toasts.remove(0),
    decreases k,
{
    if k == 0 {
        assert(toasts.update(0, Modal { duration: d as u64, ..toasts[0] }) =~= toasts);
    } else {
        lemma_toast_leaves_on_time(toasts, d, (k - 1) as nat);
        let before = aged_by(toasts, (k - 1) as nat);
        assert(before[0].duration == d - (k - 1));
        if k < d {
            assert(aged(before) =~= toasts.update(
                0,
                Modal { duration: (d - k) as u64, ..toasts[0] },
            ));
        } else {
            assert(aged(before) =~= toasts.remove(0));
        }
    }
}

pub struct Toast {
    pub toasts: Vec<Modal>,
    pub menu_index: usize,
    pub action_tx: Option<ActionSender>,
    pub keymap: Keymap,
    /// When the running second began.
    pub render_start_time: u64,
    /// Frames rendered in the running second.
    pub render_frames: u32,
    pub area: Rect,
    pub content_area: Rect,
}

impl Toast {
    /// A toast stack that starts its clock at `now` and greets with one
    /// toast.
    pub fn new(now: u64) -> (toast: Toast)
        ensures
            toast.toasts@.len() == 1,
            toast.toasts@[0].title matches Some(title) && title@ == "Toast"@,
            toast.toasts@[0].content@ == "This is a toast message."@,
            toast.toasts@[0].subaction.is_none(),
            toast.toasts@[0].duration == TOAST_SECONDS,
            toast.render_start_time == now,
            toast.render_frames == 0,
            toast.menu_index == 0,
            toast.action_tx.is_none(),
            toast.area == Rect::zero(),
            toast.content_area == Rect::zero(),
            toast.keymap.entries@.len() == 0,
    {
        let mut toasts: Vec<Modal> = Vec::new();
        toasts.push(
            Modal {
                title: Some(String::from_str("Toast")),
                content: String::from_str("This is a toast message."),
                subaction: None,
                duration: TOAST_SECONDS,
            },
        );
        Toast {
            toasts,
            render_start_time: now,
            render_frames: 0,
            menu_index: 0,
            action_tx: None,
            keymap: Keymap::new(),
            area: Rect::default(),
            content_area: Rect::default(),
        }
    }

    /// Counts a rendered frame at the time `now`. Once a second the
    /// front toast ages, and the count starts over.
    pub fn render_tick(&mut self, now: u64)
        ensures
            final(self).toasts@ == if second_passed(old(self).render_start_time, now) {
                aged(old(self).toasts@)
            } else {
                old(self).toasts@
            },
            final(self).render_start_time == if second_passed(old(self).render_start_time, now) {
                now
            } else {
                old(self).render_start_time
            },
            final(self).render_frames == if second_passed(old(self).render_start_time, now) {
                0
            } else if old(self).render_frames == u32::MAX {
                u32::MAX
            } else {
                (old(self).render_frames + 1) as u32
            },
            final(self).menu_index == old(self).menu_index,
            final(self).action_tx == old(self).action_tx,
            final(self).keymap == old(self).keymap,
            final(self).area == old(self).area,
            final(self).content_area == old(self).content_area,
    {
        self.render_frames = self.render_frames.saturating_add(1);
        if a_second_since(self.render_start_time, now) {
            if self.toasts.len() > 0 {
                let front = self.toasts.remove(0);
                let left = match front.duration.checked_sub(1) {
                    Some(left) => left,
                    None => front.duration,
                };
                if left != 0 {
                    self.toasts.insert(0, Modal { duration: left, ..front });
                    assert(self.toasts@ =~= aged(old(self).toasts@));
                }
            }
            self.render_start_time = now;
            self.render_frames = 0;
        }
    }

    pub fn keymap(self, keymap: Keymap) -> (toast: Toast)
        ensures
            toast.keymap == keymap,
            toast.toasts == self.toasts,
            toast.menu_index == self.menu_index,
            toast.action_tx == self.action_tx,
            toast.render_start_time == self.render_start_time,
            toast.render_frames == self.render_frames,
            toast.area == self.area,
            toast.content_area == self.content_area,
    {
        let mut toast = self;
        toast.keymap = keymap;
        toast
    }

    /// The corner of `area` that toasts show in: fifteen percent of its
    /// rows at the top, and of those `percent_x` percent of the columns
    /// at the far end, as the layout solver cuts them.
    pub fn toast_area(area: Rect, percent_x: u16) -> (corner: Rect)
        ensures
            cut_twice(Direction::Vertical, (0, 0), (0, 0), area, corner),
            within(area, corner),
    {
        let vertical = Layout::vertical(vec![Sizing::Percentage(15)]).flex(Slack::Start);
        let horizontal = Layout::horizontal(vec![Sizing::Percentage(percent_x)]).flex(Slack::End);
        let rows = vertical.single(area);
        let corner = horizontal.single(rows);
        assert(cut_through(Direction::Vertical, (0, 0), (0, 0), area, rows, corner));
        corner
    }

    pub fn current_mode(&self) -> (mode: InputMode)
        ensures
            mode == InputMode::Normal,
    {
        InputMode::Normal
    }

    pub fn register_action_handler(&mut self, tx: ActionSender)
        ensures
            final(self).action_tx == Some(tx),
            final(self).toasts == old(self).toasts,
            final(self).menu_index == old(self).menu_index,
            final(self).keymap == old(self).keymap,
            final(self).render_start_time == old(self).render_start_time,
            final(self).render_frames == old(self).render_frames,
            final(self).area == old(self).area,
            final(self).content_area == old(self).content_area,
    {
        self.action_tx = Some(tx);
    }

    /// Takes the toast corner of `area` for the frame of the toast, and
    /// what lies inside its border for the text. The text has the
    /// columns of the frame less the border.
    pub fn register_layout_handler(&mut self, area: Rect)
        ensures
            cut_twice(Direction::Vertical, (0, 0), (0, 0), area, final(self).area),
            within(area, final(self).area),
            framed_in(Direction::Vertical, final(self).area, final(self).content_area),
            final(self).content_area.x == bordered_inner(final(self).area).x,
            final(self).content_area.width == bordered_inner(final(self).area).width,
            final(self).toasts == old(self).toasts,
            final(self).menu_index == old(self).menu_index,
            final(self).action_tx == old(self).action_tx,
            final(self).keymap == old(self).keymap,
            final(self).render_start_time == old(self).render_start_time,
            final(self).render_frames == old(self).render_frames,
    {
        let area = Toast::toast_area(area, 15);
        self.area = area;
        let layout = Layout::vertical(vec![Sizing::Min(1)]);
        let bottom_area = layout.single(area);
        self.content_area = inner_of_bordered(bottom_area);
        assert(framed_through(Direction::Vertical, self.area, bottom_area, self.content_area));
    }

    /// Toasts take no pointer events.
    pub fn handle_mouse_events(&mut self, mouse: MouseEvent) -> (action: Option<Action>)
        ensures
            action.is_none(),
            *final(self) == *old(self),
    {
        None
    }

    /// Escape closes the toast, and the enter key selects.
    pub fn handle_key_events(&mut self, key: KeyEvent) -> (action: Option<Action>)
        ensures
            action == match key.code {
                KeyCode::Esc => Some(Action::CloseToast),
                KeyCode::Enter => Some(Action::SelectOption),
                _ => None,
            },
            *final(self) == *old(self),
    {
        match key.code {
            KeyCode::Esc => Some(Action::CloseToast),
            KeyCode::Enter => Some(Action::SelectOption),
            _ => None,
        }
    }

    /// Reacts to `action`: a render tick ages the stack, a toast is put
    /// at its end for five seconds, and closing takes the last one off.
    pub fn update(&mut self, action: Action, ctx: &Ctx) -> (follow_up: Option<Action>)
        ensures
            follow_up.is_none(),
            final(self).toasts@ == match action {
                Action::Render => if second_passed(old(self).render_start_time, ctx.now) {
                    aged(old(self).toasts@)
                } else {
                    old(self).toasts@
                },
                Action::Toast(title, body) => old(self).toasts@.push(
                    Modal {
                        title: Some(title),
                        content: body,
                        subaction: None,
                        duration: TOAST_SECONDS,
                    },
                ),
                Action::CloseToast => if old(self).toasts@.len() > 0 {
                    old(self).toasts@.drop_last()
                } else {
                    old(self).toasts@
                },
                _ => old(self).toasts@,
            },
            action is Render ==> final(self).render_start_time == if second_passed(
                old(self).render_start_time,
                ctx.now,
            ) {
                ctx.now
            } else {
                old(self).render_start_time
            },
            !(action is Render) ==> final(self).render_start_time == old(self).render_start_time
                && final(self).render_frames == old(self).render_frames,
            final(self).menu_index == old(self).menu_index,
            final(self).action_tx == old(self).action_tx,
            final(self).keymap == old(self).keymap,
            final(self).area == old(self).area,
            final(self).content_area == old(self).content_area,
    {
        match action {
            Action::Render => self.render_tick(ctx.now),
            Action::Toast(title, body) => {
                self.toasts.push(
                    Modal {
                        title: Some(title),
                        content: body,
                        subaction: None,
                        duration: TOAST_SECONDS,
                    },
                );
            },
            Action::CloseToast => {
                self.toasts.pop();
                assert(old(self).toasts@.len() > 0 ==> self.toasts@ =~= old(self).toasts@.drop_last());
            },
            _ => {},
        }
        None
    }

    /// The title of the toast in front: its own, or `Toast`.
    pub open spec fn front_title(&self) -> Seq<char> {
        match self.toasts@[0].title {
            Some(title) => title@,
            None => "Toast"@,
        }
    }

    /// Draws the toast in front, if there is one: the corner is
    /// cleared, then come the text inside and the frame with the title
    /// around it.
    pub fn draw(&self, f: &mut Frame)
        ensures
            final(f).area == old(f).area,
            final(f).cursor == old(f).cursor,
            self.toasts@.len() == 0 ==> final(f).ops@ == old(f).ops@,
            self.toasts@.len() > 0 ==> {
                let ops = final(f).ops@;
                let n = old(f).ops@.len() as int;
                &&& ops.len() == n + 3
                &&& ops.subrange(0, n) == old(f).ops@
                &&& ops[n].widget is Clear
                &&& ops[n].area == self.area
                &&& ops[n + 1].area == self.content_area
                &&& ops[n + 1].widget matches Widget::Paragraph(p) && p.lines@.len() == 1
                    && p.lines@[0].text() == self.toasts@[0].content@ && p.wrap
                &&& ops[n + 2].area == self.area
                &&& ops[n + 2].widget matches Widget::Block(b) && b.titles@.len() == 1
                    && b.titles@[0].line.text() == self.front_title()
            },
    {
        if self.toasts.len() == 0 {
            return ;
        }
        let title = match &self.toasts[0].title {
            Some(title) => title.clone(),
            None => String::from_str("Toast"),
        };
        let content = self.toasts[0].content.clone();
        let block = Block::bordered().title_top(Line::raw(title).aligned(Alignment::Left)).style(
            Style::new().bg(Color::Black).fg(Color::White),
        );
        f.render_widget(Widget::Clear, self.area);
        let mut lines: Vec<Line> = Vec::new();
        lines.push(Line::raw(content));
        let paragraph = Paragraph::new(lines).wrap().style(Style::new().bold()).alignment(
            Alignment::Left,
        );
        f.render_widget(Widget::Paragraph(paragraph), self.content_area);
        f.render_widget(Widget::Block(block), self.area);
        assert(final(f).ops@.subrange(0, old(f).ops@.len() as int) =~= old(f).ops@);
    }
}

} // verus!
