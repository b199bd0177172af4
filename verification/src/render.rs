//! What a component draws, as plain values: a frame records the widgets
//! that were rendered into it, in order, each with its rectangle. The
//! terminal layer turns the record into cells.

use vstd::prelude::*;
use crate::layout::{Position, Rect};
use crate::list::ListState;
use crate::scroll::ScrollbarView;

verus! {

#[derive(Debug, Clone, Copy, PartialEq, Eq, Structural)]
pub enum Color {
    Black,
    Red,
    Green,
    Yellow,
    Magenta,
    Cyan,
    Gray,
    DarkGray,
    LightGreen,
    White,
}

/// Colours and emphasis of a piece of text or of a widget.
#[derive(Debug, Clone, Copy, PartialEq, Eq, Structural)]
pub struct Style {
    pub fg: Option<Color>,
    pub bg: Option<Color>,
    pub bold: bool,
    pub dim: bool,
    pub italic: bool,
}

impl Style {
    /// The style that changes nothing.
    pub open spec fn plain() -> Style {
        Style { fg: None, bg: None, bold: false, dim: false, italic: false }
    }

    pub fn new() -> (style: Style)
        ensures
            style == Style::plain(),
    {
        Style { fg: None, bg: None, bold: false, dim: false, italic: false }
    }

    pub fn fg(self, color: Color) -> (style: Style)
        ensures
            style == (Style { fg: Some(color), ..self }),
    {
        Style { fg: Some(color), ..self }
    }

    pub fn bg(self, color: Color) -> (style: Style)
        ensures
            style == (Style { bg: Some(color), ..self }),
    {
        Style { bg: Some(color), ..self }
    }

    pub fn bold(self) -> (style: Style)
        ensures
            style == (Style { bold: true, ..self }),
    {
        Style { bold: true, ..self }
    }

    pub fn dim(self) -> (style: Style)
        ensures
            style == (Style { dim: true, ..self }),
    {
        Style { dim: true, ..self }
    }

    pub fn italic(self) -> (style: Style)
        ensures
            style == (Style { italic: true, ..self }),
    {
        Style { italic: true, ..self }
    }
}

#[derive(Debug, Clone, Copy, PartialEq, Eq, Structural)]
pub enum Alignment {
    Left,
    Center,
    Right,
}

/// A run of text in one style.
#[derive(Debug, PartialEq, Eq)]
pub struct Span {
    pub content: String,
    pub style: Style,
}

impl Span {
    /// The text `content` in the plain style.
    pub fn plain(content: &str) -> (span: Span)
        ensures
            span.content@ == content@,
            span.style == Style::plain(),
    {
        Span { content: String::from_str(content), style: Style::new() }
    }

    /// The text `content` in `style`.
    pub fn colored(content: &str, style: Style) -> (span: Span)
        ensures
            span.content@ == content@,
            span.style == style,
    {
        Span { content: String::from_str(content), style }
    }

    pub fn raw(content: String) -> (span: Span)
        ensures
            span.content == content,
            span.style == Style::plain(),
    {
        Span { content, style: Style::new() }
    }

    pub fn styled(content: String, style: Style) -> (span: Span)
        ensures
            span.content == content,
            span.style == style,
    {
        Span { content, style }
    }
}

/// One line of text: its spans from left to right.
#[derive(Debug, PartialEq, Eq)]
pub struct Line {
    pub spans: Vec<Span>,
    pub alignment: Option<Alignment>,
}

/// All spans of a line behind each other.
pub open spec fn joined(spans: Seq<Span>) -> Seq<char>
    decreases spans.len(),
{
    if spans.len() == 0 {
        Seq::<char>::empty()
    } else {
        joined(spans.drop_last()) + spans.last().content@
    }
}

impl Line {
    /// The text of the line, whatever its styles.
    pub open spec fn text(&self) -> Seq<char> {
        joined(self.spans@)
    }

    /// A line of one span in the plain style.
    pub fn raw(content: String) -> (line: Line)
        ensures
            line.spans@.len() == 1,
            line.spans@[0].content == content,
            line.spans@[0].style == Style::plain(),
            line.alignment.is_none(),
            line.text() == content@,
    {
        let mut spans: Vec<Span> = Vec::new();
        spans.push(Span::raw(content));
        proof {
            assert(spans@.drop_last() =~= Seq::<Span>::empty());
            assert(joined(spans@.drop_last()) =~= Seq::<char>::empty());
            assert(spans@.last().content == content);
            assert(joined(spans@) =~= content@);
        }
        Line { spans, alignment: None }
    }

    /// A line of one span in `style`.
    pub fn styled(content: String, style: Style) -> (line: Line)
        ensures
            line.spans@.len() == 1,
            line.spans@[0].content == content,
            line.spans@[0].style == style,
            line.alignment.is_none(),
            line.text() == content@,
    {
        let mut spans: Vec<Span> = Vec::new();
        spans.push(Span::styled(content, style));
        proof {
            assert(spans@.drop_last() =~= Seq::<Span>::empty());
            assert(joined(spans@.drop_last()) =~= Seq::<char>::empty());
            assert(spans@.last().content == content);
            assert(joined(spans@) =~= content@);
        }
        Line { spans, alignment: None }
    }

    /// A line of the text `content` in the plain style.
    pub fn plain(content: &str) -> (line: Line)
        ensures
            line.spans@.len() == 1,
            line.spans@[0].content@ == content@,
            line.spans@[0].style == Style::plain(),
            line.alignment.is_none(),
            line.text() == content@,
    {
        Line::raw(String::from_str(content))
    }

    /// An empty line.
    pub fn empty() -> (line: Line)
        ensures
            line.spans@.len() == 0,
            line.alignment.is_none(),
            line.text() == Seq::<char>::empty(),
    {
        Line { spans: Vec::new(), alignment: None }
    }

    pub fn from_spans(spans: Vec<Span>) -> (line: Line)
        ensures
            line.spans == spans,
            line.alignment.is_none(),
    {
        Line { spans, alignment: None }
    }

    pub fn aligned(self, alignment: Alignment) -> (line: Line)
        ensures
            line.spans == self.spans,
            line.alignment == Some(alignment),
    {
        Line { spans: self.spans, alignment: Some(alignment) }
    }
}

/// The top border.
pub const BORDER_TOP: u8 = 1;

/// The right border.
pub const BORDER_RIGHT: u8 = 2;

/// The bottom border.
pub const BORDER_BOTTOM: u8 = 4;

/// The left border.
pub const BORDER_LEFT: u8 = 8;

/// All four borders.
pub const BORDER_ALL: u8 = 15;

#[derive(Debug, Clone, Copy, PartialEq, Eq, Structural)]
pub enum BorderType {
    Plain,
    Rounded,
}

/// A title on the top or on the bottom border of a block.
#[derive(Debug, PartialEq, Eq)]
pub struct Title {
    pub line: Line,
    pub on_bottom: bool,
}

/// A frame around a widget: borders, titles and a background.
#[derive(Debug, PartialEq, Eq)]
pub struct Block {
    pub titles: Vec<Title>,
    pub borders: u8,
    pub border_type: BorderType,
    pub border_style: Style,
    pub style: Style,
}

impl Block {
    /// A block without borders or titles.
    pub fn new() -> (block: Block)
        ensures
            block.titles@.len() == 0,
            block.borders == 0,
            block.border_type == BorderType::Plain,
            block.border_style == Style::plain(),
            block.style == Style::plain(),
    {
        Block {
            titles: Vec::new(),
            borders: 0,
            border_type: BorderType::Plain,
            border_style: Style::new(),
            style: Style::new(),
        }
    }

    /// A block with all four borders.
    pub fn bordered() -> (block: Block)
        ensures
            block.titles@.len() == 0,
            block.borders == BORDER_ALL,
            block.border_type == BorderType::Plain,
            block.border_style == Style::plain(),
            block.style == Style::plain(),
    {
        Block {
            titles: Vec::new(),
            borders: BORDER_ALL,
            border_type: BorderType::Plain,
            border_style: Style::new(),
            style: Style::new(),
        }
    }

    pub fn borders(self, borders: u8) -> (block: Block)
        ensures
            block == (Block { borders, ..self }),
    {
        Block { borders, ..self }
    }

    pub fn border_type(self, border_type: BorderType) -> (block: Block)
        ensures
            block == (Block { border_type, ..self }),
    {
        Block { border_type, ..self }
    }

    pub fn border_style(self, border_style: Style) -> (block: Block)
        ensures
            block == (Block { border_style, ..self }),
    {
        Block { border_style, ..self }
    }

    pub fn style(self, style: Style) -> (block: Block)
        ensures
            block == (Block { style, ..self }),
    {
        Block { style, ..self }
    }

    /// Adds a title on the top border.
    pub fn title_top(self, line: Line) -> (block: Block)
        ensures
            block.titles@ == self.titles@.push(Title { line, on_bottom: false }),
            block.borders == self.borders,
            block.border_type == self.border_type,
            block.border_style == self.border_style,
            block.style == self.style,
    {
        let mut block = self;
        block.titles.push(Title { line, on_bottom: false });
        block
    }

    /// Adds a title on the bottom border.
    pub fn title_bottom(self, line: Line) -> (block: Block)
        ensures
            block.titles@ == self.titles@.push(Title { line, on_bottom: true }),
            block.borders == self.borders,
            block.border_type == self.border_type,
            block.border_style == self.border_style,
            block.style == self.style,
    {
        let mut block = self;
        block.titles.push(Title { line, on_bottom: true });
        block
    }
}

/// Lines of text, wrapped or scrolled.
#[derive(Debug, PartialEq, Eq)]
pub struct Paragraph {
    pub lines: Vec<Line>,
    pub block: Option<Block>,
    pub style: Style,
    pub alignment: Option<Alignment>,
    pub wrap: bool,
    pub scroll_y: u16,
    pub scroll_x: u16,
}

impl Paragraph {
    pub fn new(lines: Vec<Line>) -> (paragraph: Paragraph)
        ensures
            paragraph.lines == lines,
            paragraph.block.is_none(),
            paragraph.style == Style::plain(),
            paragraph.alignment.is_none(),
            !paragraph.wrap,
            paragraph.scroll_y == 0,
            paragraph.scroll_x == 0,
    {
        Paragraph {
            lines,
            block: None,
            style: Style::new(),
            alignment: None,
            wrap: false,
            scroll_y: 0,
            scroll_x: 0,
        }
    }

    pub fn block(self, block: Block) -> (paragraph: Paragraph)
        ensures
            paragraph == (Paragraph { block: Some(block), ..self }),
    {
        Paragraph { block: Some(block), ..self }
    }

    pub fn style(self, style: Style) -> (paragraph: Paragraph)
        ensures
            paragraph == (Paragraph { style, ..self }),
    {
        Paragraph { style, ..self }
    }

    pub fn alignment(self, alignment: Alignment) -> (paragraph: Paragraph)
        ensures
            paragraph == (Paragraph { alignment: Some(alignment), ..self }),
    {
        Paragraph { alignment: Some(alignment), ..self }
    }

    pub fn wrap(self) -> (paragraph: Paragraph)
        ensures
            paragraph == (Paragraph { wrap: true, ..self }),
    {
        Paragraph { wrap: true, ..self }
    }

    pub fn scroll(self, scroll_y: u16, scroll_x: u16) -> (paragraph: Paragraph)
        ensures
            paragraph == (Paragraph { scroll_y, scroll_x, ..self }),
    {
        Paragraph { scroll_y, scroll_x, ..self }
    }
}

/// One row of a list.
#[derive(Debug, PartialEq, Eq)]
pub struct ListItem {
    pub line: Line,
    pub style: Style,
}

/// Rows of which one may be selected.
#[derive(Debug, PartialEq, Eq)]
pub struct List {
    pub items: Vec<ListItem>,
    pub block: Option<Block>,
    pub style: Style,
    pub highlight_style: Style,
    pub highlight_symbol: Option<String>,
    pub state: Option<ListState>,
}

impl List {
    pub fn new(items: Vec<ListItem>) -> (list: List)
        ensures
            list.items == items,
            list.block.is_none(),
            list.style == Style::plain(),
            list.highlight_style == Style::plain(),
            list.highlight_symbol.is_none(),
            list.state.is_none(),
    {
        List {
            items,
            block: None,
            style: Style::new(),
            highlight_style: Style::new(),
            highlight_symbol: None,
            state: None,
        }
    }

    pub fn block(self, block: Block) -> (list: List)
        ensures
            list == (List { block: Some(block), ..self }),
    {
        List { block: Some(block), ..self }
    }

    pub fn style(self, style: Style) -> (list: List)
        ensures
            list == (List { style, ..self }),
    {
        List { style, ..self }
    }

    pub fn highlight_style(self, highlight_style: Style) -> (list: List)
        ensures
            list == (List { highlight_style, ..self }),
    {
        List { highlight_style, ..self }
    }

    pub fn highlight_symbol(self, symbol: String) -> (list: List)
        ensures
            list == (List { highlight_symbol: Some(symbol), ..self }),
    {
        List { highlight_symbol: Some(symbol), ..self }
    }
}

/// A line that fills from the left, with a label in front.
#[derive(Debug, PartialEq, Eq)]
pub struct LineGauge {
    pub label: String,
    pub filled_style: Style,
    pub thick: bool,
    pub block: Option<Block>,
}

/// Rows of cells under a header, in two columns.
#[derive(Debug, PartialEq, Eq)]
pub struct Table {
    pub header: Vec<String>,
    pub rows: Vec<Vec<String>>,
}

/// Markdown that is rendered from its source and scrolled by lines.
#[derive(Debug, PartialEq, Eq)]
pub struct Markdown {
    pub source: String,
    pub scroll: u16,
}

/// One of the widgets that the components of this application draw.
#[derive(Debug, PartialEq, Eq)]
pub enum Widget {
    Clear,
    Block(Block),
    Paragraph(Paragraph),
    List(List),
    Scrollbar(ScrollbarView),
    LineGauge(LineGauge),
    Markdown(Markdown),
    Table(Table),
    /// A link that opens the address it shows.
    Hyperlink(String),
    /// The effect that plays over a part when it first shows, advanced
    /// by the given number of milliseconds.
    IntroEffect(u32),
    Sparkline(Vec<u64>),
    /// The chart of the signals, which the terminal layer computes.
    Chart,
    /// The map of the world with the servers on it.
    WorldMap,
}

/// `n` as a `u16`, or the largest `u16` where it does not fit.
pub open spec fn narrowed(n: usize) -> u16 {
    if n > u16::MAX {
        u16::MAX
    } else {
        n as u16
    }
}

/// `n` as a `u16`, or the largest `u16` where it does not fit.
pub fn narrow(n: usize) -> (m: u16)
    ensures
        m == narrowed(n),
{
    if n > u16::MAX as usize {
        u16::MAX
    } else {
        n as u16
    }
}

/// A widget and the rectangle it was rendered into.
#[derive(Debug, PartialEq, Eq)]
pub struct DrawOp {
    pub widget: Widget,
    pub area: Rect,
}

/// The record of one pass of drawing.
#[derive(Debug, PartialEq, Eq)]
pub struct Frame {
    pub area: Rect,
    pub ops: Vec<DrawOp>,
    pub cursor: Option<Position>,
}

impl Frame {
    /// An empty record for a surface of the size of `area`.
    pub fn new(area: Rect) -> (frame: Frame)
        ensures
            frame.area == area,
            frame.ops@.len() == 0,
            frame.cursor.is_none(),
    {
        Frame { area, ops: Vec::new(), cursor: None }
    }

    pub fn area(&self) -> (area: Rect)
        ensures
            area == self.area,
    {
        self.area
    }

    /// Records `widget` at `area`, behind everything recorded so far.
    pub fn render_widget(&mut self, widget: Widget, area: Rect)
        ensures
            final(self).ops@ == old(self).ops@.push(DrawOp { widget, area }),
            final(self).area == old(self).area,
            final(self).cursor == old(self).cursor,
    {
        self.ops.push(DrawOp { widget, area });
    }

    /// Records a list at `area` together with the state it is shown in.
    pub fn render_stateful_widget(&mut self, list: List, area: Rect, state: &ListState)
        ensures
            final(self).ops@ == old(self).ops@.push(
                DrawOp { widget: Widget::List(List { state: Some(*state), ..list }), area },
            ),
            final(self).area == old(self).area,
            final(self).cursor == old(self).cursor,
    {
        self.ops.push(DrawOp { widget: Widget::List(List { state: Some(*state), ..list }), area });
    }

    /// Asks for the cursor to be shown at `position` after this pass.
    pub fn set_cursor_position(&mut self, position: Position)
        ensures
            final(self).ops == old(self).ops,
            final(self).area == old(self).area,
            final(self).cursor == Some(position),
    {
        self.cursor = Some(position);
    }
}

} // verus!
