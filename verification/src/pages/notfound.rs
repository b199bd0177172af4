//! What is shown in place of a page that does not exist.

use vstd::prelude::*;
use crate::layout::{cut_through, within, Direction, Layout, Rect, Sizing};
use crate::render::{Alignment, DrawOp, Frame, Line, Paragraph, Widget};

verus! {

/// `ops` is `before` with the notice that the page was not found behind
/// it, on a surface of `area`: the number of the error and what it
/// means, each centred in its paragraph. Both paragraphs are rows of
/// one column of `area` and lie within it.
pub open spec fn is_not_found(before: Seq<DrawOp>, ops: Seq<DrawOp>, area: Rect) -> bool {
    let n = before.len() as int;
    &&& ops.len() == n + 2
    &&& ops.subrange(0, n) == before
    &&& ops[n].widget matches Widget::Paragraph(p) && p.lines@.len() == 1 && p.lines@[0].text()
        == "[404]"@ && p.alignment == Some(Alignment::Center)
    &&& ops[n + 1].widget matches Widget::Paragraph(p) && p.lines@.len() == 1
        && p.lines@[0].text() == "Page not found!"@ && p.alignment == Some(Alignment::Center)
    &&& exists|column: Rect| #[trigger]
        cut_through(Direction::Horizontal, (0, 0), (0, 0), area, column, ops[n].area)
            && cut_through(Direction::Horizontal, (0, 0), (0, 0), area, column, ops[n + 1].area)
    &&& within(area, ops[n].area)
    &&& within(area, ops[n + 1].area)
}

/// The page that stands in where the registry has none.
pub struct NotFound {}

impl NotFound {
    pub fn new() -> (page: NotFound) {
        NotFound {  }
    }

    /// Draws the notice in the second of three columns of the surface:
    /// the number of the error, and in another row what it means.
    pub fn draw(&self, frame: &mut Frame)
        ensures
            final(frame).area == old(frame).area,
            final(frame).cursor == old(frame).cursor,
            is_not_found(old(frame).ops@, final(frame).ops@, old(frame).area),
    {
        let vertical = Layout::horizontal(
            vec![Sizing::Fill(1), Sizing::Fill(1), Sizing::Fill(1)],
        );
        let columns = vertical.split(frame.area());
        let input = Layout::vertical(
            vec![Sizing::Min(1), Sizing::Length(2), Sizing::Length(3), Sizing::Min(1)],
        );
        let rows = input.split(columns[1]);
        let text_area = rows[1];
        let input_area = rows[2];
        let mut title: Vec<Line> = Vec::new();
        title.push(Line::raw(String::from_str("[404]")));
        frame.render_widget(
            Widget::Paragraph(Paragraph::new(title).alignment(Alignment::Center)),
            text_area,
        );
        let mut text: Vec<Line> = Vec::new();
        text.push(Line::raw(String::from_str("Page not found!")));
        frame.render_widget(
            Widget::Paragraph(Paragraph::new(text).alignment(Alignment::Center).wrap()),
            input_area,
        );
        assert(final(frame).ops@.subrange(0, old(frame).ops@.len() as int) =~= old(frame).ops@);
        assert(cut_through(
            Direction::Horizontal,
            (0, 0),
            (0, 0),
            old(frame).area,
            columns@[1],
            text_area,
        ));
        assert(cut_through(
            Direction::Horizontal,
            (0, 0),
            (0, 0),
            old(frame).area,
            columns@[1],
            input_area,
        ));
    }
}

} // verus!
