//! The pane that shows a file: its name, its date and its text, which
//! scrolls.

use vstd::prelude::*;
use crate::action::Action;
use crate::component::{ActionSender, Ctx, Keymap};
use crate::keys::MouseEvent;
use crate::layout::{Layout, Rect, Sizing};
use crate::render::{
    narrow, narrowed, Alignment, Color, Frame, Line, Markdown, Paragraph, Span, Style, Widget,
};
use crate::scroll::{least, scroll_limit, ScrollOp, ScrollState, ScrollbarView};

verus! {

/// How many lines the markdown `source` takes once it is rendered.
pub uninterp spec fn rendered_height(source: Seq<char>) -> nat;

/// `tui_markdown::from_str` followed by `Text::height`: the number of
/// lines of the rendered text.
#[verifier::external_body]
pub(crate) fn markdown_height(source: &str) -> (lines: usize)
    ensures
        lines == rendered_height(source@),
{
    tui_markdown::from_str(source).height()
}

/// How the pane writes a time: the date, a blank, and the time of day.
pub open spec fn time_pattern() -> Seq<char> {
    "%Y-%m-%d %H:%M:%S"@
}

/// The time at `seconds` after the start of 1970 in universal time, as
/// chrono writes it by `pattern`; none where chrono has no date for it.
pub uninterp spec fn time_text(seconds: i64, pattern: Seq<char>) -> Option<Seq<char>>;

/// `DateTime::from_timestamp` of chrono, written out with
/// `DateTime::format` by `pattern`. Chrono fails on a pattern that it
/// cannot read, so the one pattern of the pane is all that is admitted.
#[verifier::external_body]
pub(crate) fn format_time(seconds: i64, pattern: &str) -> (text: Option<String>)
    requires
        pattern@ == time_pattern(),
    ensures
        match text {
            Some(t) => time_text(seconds, pattern@) == Some(t@),
            None => time_text(seconds, pattern@).is_none(),
        },
{
    chrono::DateTime::from_timestamp(seconds, 0).map(|t| t.format(pattern).to_string())
}

pub struct Filestats {
    pub title: String,
    /// When the file was created, in seconds since 1970.
    pub ctime: i64,
    pub markdown: String,
    pub keymap: Keymap,
    pub mouse: Option<MouseEvent>,
    pub area: Rect,
    pub state: ScrollState,
    pub scrollable: bool,
    pub action_tx: Option<ActionSender>,
}

impl Filestats {
    /// The step that `action` asks of the text, while it scrolls.
    pub open spec fn step(action: Action) -> Option<ScrollOp> {
        match action {
            Action::Forward => Some(ScrollOp::Down),
            Action::Back => Some(ScrollOp::Up),
            _ => None,
        }
    }

    /// The scroll state after `action`.
    pub open spec fn state_after(&self, action: Action) -> ScrollState {
        match Filestats::step(action) {
            Some(op) => if self.scrollable {
                self.state.after(op)
            } else {
                self.state
            },
            None => self.state,
        }
    }

    /// A pane for the file `title` of the time `ctime` with the text
    /// `markdown`, which does not scroll yet.
    pub fn new(markdown: String, title: String, ctime: i64, state: ScrollState) -> (pane: Filestats)
        ensures
            pane.title == title,
            pane.ctime == ctime,
            pane.markdown == markdown,
            pane.state == state,
            !pane.scrollable,
            pane.mouse.is_none(),
            pane.action_tx.is_none(),
            pane.area == Rect::zero(),
            pane.keymap.entries@.len() == 0,
    {
        Filestats {
            state,
            ctime,
            title,
            markdown,
            scrollable: false,
            mouse: None,
            action_tx: None,
            area: Rect::default(),
            keymap: Keymap::new(),
        }
    }

    /// An empty pane, as of the time `now`.
    pub fn empty(now: i64) -> (pane: Filestats)
        ensures
            pane.title@.len() == 0,
            pane.markdown@.len() == 0,
            pane.ctime == now,
            pane.state == (ScrollState { position: 0, view_size: 1, max: 0 }),
            !pane.scrollable,
            pane.action_tx.is_none(),
            pane.area == Rect::zero(),
            pane.mouse.is_none(),
            pane.keymap.entries@.len() == 0,
    {
        Filestats::new(String::new(), String::new(), now, ScrollState::new(0))
    }

    pub fn scroll_top(&mut self)
        ensures
            *final(self) == (Filestats { state: old(self).state.after(ScrollOp::Top), ..*old(self) }),
    {
        self.state.scroll_top();
    }

    pub fn scroll_up(&mut self)
        ensures
            *final(self) == (Filestats { state: old(self).state.after(ScrollOp::Up), ..*old(self) }),
    {
        self.state.scroll_up();
    }

    pub fn scroll_down(&mut self)
        ensures
            *final(self) == (Filestats {
                state: old(self).state.after(ScrollOp::Down),
                ..*old(self)
            }),
    {
        self.state.scroll_down();
    }

    pub fn register_action_handler(&mut self, tx: ActionSender)
        ensures
            *final(self) == (Filestats { action_tx: Some(tx), ..*old(self) }),
    {
        self.action_tx = Some(tx);
    }

    pub fn register_layout_handler(&mut self, area: Rect)
        ensures
            *final(self) == (Filestats { area, ..*old(self) }),
    {
        self.area = area;
    }

    /// Reacts to `action`: toggling the sidebar hands the forward and
    /// back keys to the text or takes them away, and while the text has
    /// them they scroll it by a line.
    pub fn update(&mut self, action: Action, ctx: &Ctx) -> (follow_up: Option<Action>)
        ensures
            follow_up.is_none(),
            *final(self) == (Filestats {
                scrollable: if action is ToggleSidebar {
                    !old(self).scrollable
                } else {
                    old(self).scrollable
                },
                state: old(self).state_after(action),
                ..*old(self)
            }),
    {
        match action {
            Action::ToggleSidebar => {
                self.scrollable = !self.scrollable;
            },
            Action::Forward => {
                if self.scrollable {
                    self.scroll_down()
                }
            },
            Action::Back => {
                if self.scrollable {
                    self.scroll_up()
                }
            },
            _ => {},
        }
        None
    }

    /// The line that a scrollbar and a text scroll to when the text of
    /// `lines` lines shows in a window of `view_size`: `position`, but
    /// not past the last window.
    pub open spec fn shown_from(position: usize, lines: nat, view_size: usize) -> usize {
        least(position as nat, scroll_limit(lines, view_size as nat)) as usize
    }

    /// `ops` is `before` with what the pane `was` draws behind it, and
    /// the pane is what drawing makes of it.
    pub open spec fn drawn(
        &self,
        was: Filestats,
        before: Seq<crate::render::DrawOp>,
        ops: Seq<crate::render::DrawOp>,
    ) -> bool {
        let n = before.len() as int;
        let window = ops[n + 3].area.height as usize;
        let from = Filestats::shown_from(
            was.state.position,
            rendered_height(was.markdown@),
            window,
        );
        &&& ops.len() == n + 5
        &&& ops.subrange(0, n) == before
        &&& ops[n].widget is Clear
        &&& ops[n].area == was.area
        &&& ops[n + 1].widget matches Widget::Paragraph(p) && p.lines@.len() == 1
            && p.lines@[0].text() == "File: "@ + was.title@
        &&& ops[n + 2].widget matches Widget::Paragraph(p) && p.lines@.len() == 1
            && p.lines@[0].text() == match time_text(was.ctime, time_pattern()) {
            Some(t) => t,
            None => Seq::<char>::empty(),
        }
        &&& ops[n + 3].widget matches Widget::Markdown(m) && m.source@ == was.markdown@ && m.scroll
            == narrowed(from)
        &&& ops[n + 4].widget == Widget::Scrollbar(
            ScrollbarView {
                content_length: scroll_limit(was.state.max as nat, window as nat) as usize,
                position: from,
            },
        )
        &&& *self == (Filestats { state: ScrollState { view_size: window, ..was.state }, ..was })
    }

    /// Draws the pane into its area: the area is cleared; then come the
    /// name of the file and its date in the first row, the text below
    /// them, and the scrollbar beside the text. The window of the
    /// scroll state becomes as high as the text area, and the text
    /// shows from the line the state stands at, as far as it has that
    /// many windows.
    pub fn draw(&mut self, frame: &mut Frame)
        ensures
            final(frame).area == old(frame).area,
            final(frame).cursor == old(frame).cursor,
            final(self).drawn(*old(self), old(frame).ops@, final(frame).ops@),
    {
        let mut state = self.state;
        let area = self.area;
        frame.render_widget(Widget::Clear, area);
        let height = markdown_height(self.markdown.as_str());
        let rows = Layout::vertical(vec![Sizing::Length(1), Sizing::Fill(2)]).split(area);
        let header = Layout::horizontal(vec![Sizing::Percentage(70), Sizing::Percentage(30)]).split(
            rows[0],
        );
        let columns = Layout::horizontal(vec![Sizing::Fill(1), Sizing::Length(1)]).split(rows[1]);
        let body = columns[0];
        let scrollbar = columns[1];
        state.view_size = body.height as usize;
        self.state = state;
        let limit = height.saturating_sub(state.view_size);
        if state.position > limit {
            state.position = limit;
        }
        let mut spans: Vec<Span> = Vec::new();
        spans.push(Span::raw(String::from_str("File: ")));
        spans.push(Span::styled(self.title.clone(), Style::new().fg(Color::White).bold()));
        proof {
            let all = spans@;
            assert(all.drop_last().drop_last() =~= Seq::<Span>::empty());
            assert(crate::render::joined(all.drop_last().drop_last()) =~= Seq::<char>::empty());
            assert(crate::render::joined(all.drop_last()) =~= "File: "@);
            assert(crate::render::joined(all) =~= "File: "@ + self.title@);
        }
        let mut header_lines: Vec<Line> = Vec::new();
        header_lines.push(Line::from_spans(spans));
        frame.render_widget(
            Widget::Paragraph(Paragraph::new(header_lines).style(Style::new().bg(Color::Black))),
            header[0],
        );
        proof {
            reveal_strlit("%Y-%m-%d %H:%M:%S");
        }
        let time = match format_time(self.ctime, "%Y-%m-%d %H:%M:%S") {
            Some(text) => text,
            None => String::new(),
        };
        let mut time_lines: Vec<Line> = Vec::new();
        time_lines.push(
            Line::styled(time, Style::new().fg(Color::White).bold()).aligned(Alignment::Right),
        );
        frame.render_widget(
            Widget::Paragraph(Paragraph::new(time_lines).style(Style::new().bg(Color::Black))),
            header[1],
        );
        frame.render_widget(
            Widget::Markdown(
                Markdown { source: self.markdown.clone(), scroll: narrow(state.position) },
            ),
            body,
        );
        frame.render_widget(Widget::Scrollbar(state.scrollbar()), scrollbar);
        assert(final(frame).ops@.subrange(0, old(frame).ops@.len() as int) =~= old(frame).ops@);
    }
}

} // verus!
