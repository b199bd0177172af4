//! Parts that several pages draw alike: the input box with its prompt
//! and cursor, and the line that shows the keys that were struck.

use vstd::prelude::*;
use crate::action::InputMode;
use crate::input::{visual_scroll_of, Input};
use crate::keynames::{key_event_to_string, key_text};
use crate::keys::KeyEvent;
use crate::layout::{sat_add, sat_sub, Position, Rect};
use crate::render::{
    narrow, narrowed, Alignment, Block, Color, Frame, Line, Paragraph, Span, Style, Widget,
    BORDER_ALL, BORDER_TOP,
};
use crate::text::{push_decimal, push_str, string_from};

verus! {

/// How the standard library writes a list of strings for debugging:
/// in brackets, each string in quotes with its special characters
/// escaped.
pub uninterp spec fn debug_text(items: Seq<Seq<char>>) -> Seq<char>;

/// The `Debug` form of a vector of strings, by `format!`.
#[verifier::external_body]
fn debug_list(items: &Vec<String>) -> (text: String)
    ensures
        text@ == debug_text(Seq::new(items@.len(), |i: int| items@[i]@)),
{
    format!("{:?}", items)
}

/// Where the cursor shows in the field at `area` when it stands behind
/// `cursor` characters, `inset` cells inside the field: but not past
/// the last cell inside the border.
pub open spec fn cursor_cell(area: Rect, inset: u16, cursor: usize) -> Position {
    let wanted = sat_add(sat_add(area.x, inset), narrowed(cursor));
    let last = sat_sub(sat_add(area.x, area.width), 2);
    Position {
        x: if wanted <= last {
            wanted
        } else {
            last
        },
        y: sat_add(area.y, 1),
    }
}

/// Where the cursor shows in the field at `area`.
pub fn cursor_in(area: Rect, inset: u16, cursor: usize) -> (cell: Position)
    ensures
        cell == cursor_cell(area, inset, cursor),
{
    let wanted = area.x.saturating_add(inset).saturating_add(narrow(cursor));
    let last = area.x.saturating_add(area.width).saturating_sub(2);
    Position::new(
        if wanted <= last {
            wanted
        } else {
            last
        },
        area.y.saturating_add(1),
    )
}

/// How many columns the text of a field has inside `width`: all but two
/// for the border and one for the cursor.
pub open spec fn text_columns(width: u16) -> usize {
    if width > 3 {
        (width - 3) as usize
    } else {
        0
    }
}

/// The prompt on the border of an input box.
pub fn prompt() -> (line: Line)
    ensures
        line.spans@.len() == 6,
        line.spans@[0].content@ == "Enter Input InputMode "@,
        line.spans@[2].content@ == "/"@,
        line.spans@[4].content@ == "ESC"@,
{
    let gray = Style::new().fg(Color::DarkGray);
    let key = Style::new().bold().fg(Color::Gray);
    let mut spans: Vec<Span> = Vec::new();
    spans.push(Span::plain("Enter Input InputMode "));
    spans.push(Span::colored("(Press ", gray));
    spans.push(Span::colored("/", key));
    spans.push(Span::colored(" to start, ", gray));
    spans.push(Span::colored("ESC", key));
    spans.push(Span::colored(" to finish)", gray));
    Line::from_spans(spans)
}

/// `widget` is the input box of `input` as it shows in `width`
/// columns: its text, scrolled so that the cursor stays in sight, in
/// yellow while it is typed into, under the prompt.
pub open spec fn is_input_box(widget: Widget, input: Input, mode: InputMode, width: u16) -> bool {
    widget matches Widget::Paragraph(p) && p.lines@.len() == 1 && p.lines@[0].text()
        == input.value@ && p.scroll_y == 0 && p.scroll_x == narrowed(
        visual_scroll_of(input.value@, input.cursor as nat, text_columns(width) as nat) as usize,
    ) && p.style.fg == (if mode == InputMode::Insert {
        Some(Color::Yellow)
    } else {
        None
    }) && (p.block matches Some(b) && b.titles@.len() == 1 && b.titles@[0].line.spans@.len() == 6)
}

/// The input box of `input` for a place `width` columns wide, with the
/// given borders.
pub fn input_box(input: &Input, mode: InputMode, width: u16, borders: u8) -> (widget: Widget)
    requires
        input.wf(),
    ensures
        is_input_box(widget, *input, mode, width),
{
    let columns = if width > 3 {
        width - 3
    } else {
        0
    };
    let scroll = input.visual_scroll(columns as usize);
    let mut lines: Vec<Line> = Vec::new();
    lines.push(Line::raw(input.value.clone()));
    let style = if mode == InputMode::Insert {
        Style::new().fg(Color::Yellow)
    } else {
        Style::new()
    };
    Widget::Paragraph(
        Paragraph::new(lines).style(style).scroll(0, narrow(scroll)).block(
            Block::new().borders(borders).title_top(prompt()),
        ),
    )
}

/// The keys `events` as they are written, in their order.
pub open spec fn written(events: Seq<KeyEvent>) -> Seq<Seq<char>> {
    Seq::new(events.len(), |i: int| key_text(events[i]))
}

/// `widget` is the line that shows the keys `events`: a block whose
/// title lists them as they are written.
pub open spec fn is_events_line(widget: Widget, events: Seq<KeyEvent>) -> bool {
    widget matches Widget::Block(b) && b.titles@.len() == 1 && b.titles@[0].line.text()
        == debug_text(written(events))
}

/// The line that shows the keys that were struck.
pub fn events_line(events: &Vec<KeyEvent>) -> (widget: Widget)
    ensures
        is_events_line(widget, events@),
{
    let mut names: Vec<String> = Vec::new();
    let mut i: usize = 0;
    while i < events.len()
        invariant
            i <= events@.len(),
            names@.len() == i,
            forall|k: int| 0 <= k < i ==> (#[trigger] names@[k])@ == key_text(events@[k]),
        decreases events@.len() - i,
    {
        names.push(key_event_to_string(&events[i]));
        i += 1;
    }
    assert(Seq::new(names@.len(), |k: int| names@[k]@) =~= written(events@));
    let title = Line::styled(debug_list(&names), Style::new().bold()).aligned(Alignment::Right);
    Widget::Block(Block::new().title_top(title))
}

/// Where the line of keys goes on a page that has `area`: one row, a
/// cell in from each side, in the row of the height of the area less
/// one.
pub open spec fn events_place(area: Rect) -> Rect {
    Rect {
        x: sat_add(area.x, 1),
        y: sat_sub(area.height, 1),
        width: sat_sub(area.width, 2),
        height: 1,
    }
}

/// Where the line of keys goes on a page that has `area`.
pub fn events_area(area: Rect) -> (place: Rect)
    ensures
        place == events_place(area),
{
    Rect {
        x: area.x.saturating_add(1),
        y: area.height.saturating_sub(1),
        width: area.width.saturating_sub(2),
        height: 1,
    }
}

/// `label` followed by the number `n`.
pub fn counted(label: &str, n: usize) -> (line: Line)
    ensures
        line.text() == label@ + crate::text::decimal(n as nat),
        line.spans@.len() == 1,
{
    let mut text: Vec<char> = Vec::new();
    push_str(&mut text, label);
    push_decimal(&mut text, n as u64);
    Line::raw(string_from(&text))
}

/// The line that tells which keys count up and down.
pub fn counter_hint() -> (line: Line)
    ensures
        line.spans@.len() == 9,
        line.spans@[0].content@ == "Press "@,
        line.spans@[1].content@ == "j"@,
        line.spans@[3].content@ == "k"@,
{
    let red = Style::new().fg(Color::Red);
    let yellow = Style::new().fg(Color::Yellow);
    let mut spans: Vec<Span> = Vec::new();
    spans.push(Span::plain("Press "));
    spans.push(Span::colored("j", red));
    spans.push(Span::plain(" or "));
    spans.push(Span::colored("k", red));
    spans.push(Span::plain(" to "));
    spans.push(Span::colored("increment", yellow));
    spans.push(Span::plain(" or "));
    spans.push(Span::colored("decrement", yellow));
    spans.push(Span::plain("."));
    Line::from_spans(spans)
}

/// Appends a line for each of `text`, in order.
pub fn push_lines(lines: &mut Vec<Line>, text: &Vec<String>)
    ensures
        final(lines)@.len() == old(lines)@.len() + text@.len(),
        final(lines)@.subrange(0, old(lines)@.len() as int) == old(lines)@,
        forall|i: int|
            0 <= i < text@.len() ==> (#[trigger] final(lines)@[old(lines)@.len() + i]).text()
                == text@[i]@,
{
    let mut i: usize = 0;
    let ghost n = old(lines)@.len() as int;
    while i < text.len()
        invariant
            i <= text@.len(),
            n == old(lines)@.len(),
            lines@.len() == n + i,
            lines@.subrange(0, n) == old(lines)@,
            forall|k: int| 0 <= k < i ==> (#[trigger] lines@[n + k]).text() == text@[k]@,
        decreases text@.len() - i,
    {
        let ghost before = lines@;
        lines.push(Line::raw(text[i].clone()));
        proof {
            assert(lines@.subrange(0, n) =~= before.subrange(0, n));
            assert forall|k: int| 0 <= k < i implies (#[trigger] lines@[n + k]).text()
                == text@[k]@ by {
                assert(lines@[n + k] == before[n + k]);
            }
        }
        i += 1;
    }
}

} // verus!
