//! The page that announces the application.

use vstd::prelude::*;
use crate::keys::KeyEvent;
use crate::render::{Alignment, Color, DrawOp, Frame, Line, Paragraph, Style, Widget};

verus! {

/// The address of the project.
pub open spec fn project_address() -> Seq<char> {
    "https://github.com/orhun/ratzilla"@
}

/// The address of the demonstration.
pub open spec fn demo_address() -> Seq<char> {
    "https://orhun.dev/ratzilla/demo"@
}

/// Where a key of the opening screen leads: `g` opens the project in a
/// new tab, and `d` the demonstration in this one.
pub fn handle_key_event(key: KeyEvent) -> (link: Option<(&'static str, bool)>)
    ensures
        match key.code {
            crate::keys::KeyCode::Char(c) => if c == 'g' {
                link matches Some(to) && to.0@ == project_address() && to.1
            } else if c == 'd' {
                link matches Some(to) && to.0@ == demo_address() && !to.1
            } else {
                link.is_none()
            },
            _ => link.is_none(),
        },
{
    match key.code {
        crate::keys::KeyCode::Char('g') => Some(("https://github.com/orhun/ratzilla", true)),
        crate::keys::KeyCode::Char('d') => Some(("https://orhun.dev/ratzilla/demo", false)),
        _ => None,
    }
}

/// The announcement: the name of the application, and that it comes
/// soon.
pub fn announcement() -> (widget: Widget)
    ensures
        widget matches Widget::Paragraph(p) && p.lines@.len() == 2 && p.lines@[0].text()
            == "| S Y M P I L |"@ && p.lines@[1].text() == "Coming soon..."@,
{
    let mut lines: Vec<Line> = Vec::new();
    lines.push(Line::styled(String::from_str("| S Y M P I L |"), Style::new().bold()));
    lines.push(Line::styled(String::from_str("Coming soon..."), Style::new().italic()));
    Widget::Paragraph(
        Paragraph::new(lines).style(Style::new().fg(Color::LightGreen)).alignment(
            Alignment::Center,
        ),
    )
}

/// `ops` is `before` with the opening screen for a surface of `area`
/// behind it: the surface cleared; the announcement in its middle,
/// thirty-three columns wide and two rows high; the link to the project
/// four rows below; and the opening effect over the announcement.
pub open spec fn is_intro(before: Seq<DrawOp>, ops: Seq<DrawOp>, area: crate::layout::Rect) -> bool {
    let n = before.len() as int;
    let middle = area.spec_inner_centered(33, 2);
    &&& ops.len() == n + 4
    &&& ops.subrange(0, n) == before
    &&& ops[n].widget is Clear
    &&& ops[n].area == area
    &&& ops[n + 1].area == middle
    &&& ops[n + 1].widget matches Widget::Paragraph(p) && p.lines@.len() == 2
        && p.lines@[0].text() == "| S Y M P I L |"@
    &&& ops[n + 2].area == middle.spec_moved_down(4)
    &&& ops[n + 2].widget matches Widget::Hyperlink(link) && link@ == project_address()
    &&& ops[n + 3] == (DrawOp { widget: Widget::IntroEffect(40), area: middle })
}

/// Draws the opening screen.
pub fn render_intro(f: &mut Frame)
    ensures
        final(f).area == old(f).area,
        final(f).cursor == old(f).cursor,
        is_intro(old(f).ops@, final(f).ops@, old(f).area),
{
    f.render_widget(Widget::Clear, f.area());
    let area = f.area().inner_centered(33, 2);
    f.render_widget(announcement(), area);
    f.render_widget(
        Widget::Hyperlink(String::from_str("https://github.com/orhun/ratzilla")),
        area.moved_down(4),
    );
    f.render_widget(Widget::IntroEffect(40), area);
    assert(final(f).ops@.subrange(0, old(f).ops@.len() as int) =~= old(f).ops@);
}

/// Draws the menu of the opening screen in the middle of the surface:
/// the keys that lead to the project and to the demonstration, framed
/// and titled, with the effect of the menu over it.
pub fn render_menu(f: &mut Frame)
    ensures
        final(f).area == old(f).area,
        final(f).cursor == old(f).cursor,
        ({
            let ops = final(f).ops@;
            let n = old(f).ops@.len() as int;
            &&& ops.len() == n + 2
            &&& ops.subrange(0, n) == old(f).ops@
            &&& ops[n].widget matches Widget::Paragraph(p) && p.lines@.len() == 3
                && p.lines@[1].text() == "[g] GitHub Repository"@ && p.lines@[2].text()
                == "[d] Demo"@ && (p.block matches Some(b) && b.titles@.len() == 1
                && b.titles@[0].line.text() == " Welcome to Ratzilla "@)
            &&& ops[n + 1] == (DrawOp { widget: Widget::IntroEffect(100), area: ops[n].area })
        }),
{
    let vertical = crate::layout::Layout::vertical(vec![crate::layout::Sizing::Percentage(20)]).flex(
        crate::layout::Slack::Center,
    );
    let horizontal = crate::layout::Layout::horizontal(
        vec![crate::layout::Sizing::Percentage(20)],
    ).flex(crate::layout::Slack::Center);
    let area = horizontal.single(vertical.single(f.area()));
    let green = Style::new().fg(Color::LightGreen);
    let mut first: Vec<crate::render::Span> = Vec::new();
    first.push(crate::render::Span::plain("["));
    first.push(crate::render::Span::colored("g", green));
    first.push(crate::render::Span::plain("] GitHub Repository"));
    let mut second: Vec<crate::render::Span> = Vec::new();
    second.push(crate::render::Span::plain("["));
    second.push(crate::render::Span::colored("d", green));
    second.push(crate::render::Span::plain("] Demo"));
    proof {
        reveal_strlit("[");
        reveal_strlit("g");
        reveal_strlit("d");
        reveal_strlit("] GitHub Repository");
        reveal_strlit("] Demo");
        reveal_strlit("[g] GitHub Repository");
        reveal_strlit("[d] Demo");
        let a = first@;
        assert(a.drop_last().drop_last().drop_last() =~= Seq::<crate::render::Span>::empty());
        assert(crate::render::joined(a.drop_last().drop_last().drop_last()) =~= Seq::<char>::empty());
        assert(crate::render::joined(a.drop_last().drop_last()) =~= "["@);
        assert(crate::render::joined(a.drop_last()) =~= "["@ + "g"@);
        assert(crate::render::joined(a) =~= "[g] GitHub Repository"@);
        let b = second@;
        assert(b.drop_last().drop_last().drop_last() =~= Seq::<crate::render::Span>::empty());
        assert(crate::render::joined(b.drop_last().drop_last().drop_last()) =~= Seq::<char>::empty());
        assert(crate::render::joined(b.drop_last().drop_last()) =~= "["@);
        assert(crate::render::joined(b.drop_last()) =~= "["@ + "d"@);
        assert(crate::render::joined(b) =~= "[d] Demo"@);
    }
    let mut lines: Vec<Line> = Vec::new();
    lines.push(Line::empty());
    lines.push(Line::from_spans(first));
    lines.push(Line::from_spans(second));
    let block = crate::render::Block::bordered().border_type(
        crate::render::BorderType::Rounded,
    ).title_top(Line::plain(" Welcome to Ratzilla ").aligned(Alignment::Center));
    f.render_widget(
        Widget::Paragraph(Paragraph::new(lines).alignment(Alignment::Center).wrap().block(block)),
        area,
    );
    f.render_widget(Widget::IntroEffect(100), area);
    assert(final(f).ops@.subrange(0, old(f).ops@.len() as int) =~= old(f).ops@);
}

#[derive(Debug, PartialEq, Eq)]
pub struct Clip {
    pub text: String,
}

impl Default for Clip {
    fn default() -> (clip: Clip)
        ensures
            clip.text@ == "Press Ctrl+C to copy.\nPress Ctrl+V to paste."@,
    {
        Clip { text: String::from_str("Press Ctrl+C to copy.\nPress Ctrl+V to paste.") }
    }
}

impl Clip {
    pub fn new() -> (clip: Clip)
        ensures
            clip.text@ == "Press Ctrl+C to copy.\nPress Ctrl+V to paste."@,
    {
        Clip::default()
    }

    /// Draws the opening screen.
    pub fn draw(&self, frame: &mut Frame)
        ensures
            final(frame).area == old(frame).area,
            final(frame).cursor == old(frame).cursor,
            is_intro(old(frame).ops@, final(frame).ops@, old(frame).area),
    {
        render_intro(frame);
    }

    /// Draws the text of the clipboard over the whole surface: white on
    /// black and centred, in a rounded frame with its title in the
    /// middle of the top border.
    pub fn render(&self, frame: &mut Frame)
        ensures
            final(frame).area == old(frame).area,
            final(frame).cursor == old(frame).cursor,
            final(frame).ops@.len() == old(frame).ops@.len() + 1,
            final(frame).ops@.drop_last() == old(frame).ops@,
            final(frame).ops@.last().area == old(frame).area,
            final(frame).ops@.last().widget matches Widget::Paragraph(p) && {
                &&& p.lines@.len() == 1
                &&& p.lines@[0].text() == self.text@
                &&& p.style == (Style {
                    fg: Some(Color::White),
                    bg: Some(Color::Black),
                    ..Style::plain()
                })
                &&& p.alignment == Some(Alignment::Center)
                &&& p.block matches Some(b) && b.border_type == crate::render::BorderType::Rounded
                    && b.titles@.len() == 1 && b.titles@[0].line.text() == "Clipboard Example"@
                    && b.titles@[0].line.alignment == Some(Alignment::Center)
            },
    {
        let block = crate::render::Block::bordered().title_top(
            Line::plain("Clipboard Example").aligned(Alignment::Center),
        ).border_type(crate::render::BorderType::Rounded);
        let mut lines: Vec<Line> = Vec::new();
        lines.push(Line::raw(self.text.clone()));
        let paragraph = Paragraph::new(lines).block(block).style(
            Style::new().fg(Color::White).bg(Color::Black),
        ).alignment(Alignment::Center);
        let area = frame.area();
        frame.render_widget(Widget::Paragraph(paragraph), area);
        assert(final(frame).ops@.drop_last() =~= old(frame).ops@);
    }

    /// The page handles no key.
    pub fn handle_events(&mut self, key_event: KeyEvent) -> (handled: Option<bool>)
        ensures
            handled.is_none(),
            *final(self) == *old(self),
    {
        None
    }

    /// What the clipboard example does with a key: with the control
    /// key, `c` copies a fixed text and `v` pastes.
    pub fn clipboard_request(key_event: KeyEvent, ctrl: bool) -> (request: Option<Option<&'static str>>)
        ensures
            request == match key_event.code {
                crate::keys::KeyCode::Char(c) => if ctrl && c == 'c' {
                    Some(Some("i like rats"))
                } else if ctrl && c == 'v' {
                    Some(None::<&'static str>)
                } else {
                    None
                },
                _ => None,
            },
    {
        match key_event.code {
            crate::keys::KeyCode::Char('c') => if ctrl {
                Some(Some("i like rats"))
            } else {
                None
            },
            crate::keys::KeyCode::Char('v') => if ctrl {
                Some(None)
            } else {
                None
            },
            _ => None,
        }
    }

    /// Takes the text that was read from the clipboard.
    pub fn paste(&mut self, clipboard_text: String)
        ensures
            final(self).text == clipboard_text,
    {
        self.text = clipboard_text;
    }
}

} // verus!
