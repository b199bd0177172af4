//! Rectangles on the character grid, and the splitting of one rectangle
//! into the rectangles of a component's parts.

use vstd::prelude::*;
use ratatui::layout as tui;

verus! {

/// A cell of the character grid.
#[derive(Debug, Clone, Copy, PartialEq, Eq, Hash, Structural)]
pub struct Position {
    pub x: u16,
    pub y: u16,
}

impl Position {
    pub fn new(x: u16, y: u16) -> (position: Position)
        ensures
            position == (Position { x, y }),
    {
        Position { x, y }
    }
}

/// An axis-aligned rectangle of cells: its top left cell and its size.
#[derive(Debug, Clone, Copy, PartialEq, Eq, Hash, Structural)]
pub struct Rect {
    pub x: u16,
    pub y: u16,
    pub width: u16,
    pub height: u16,
}

/// `a + b`, or the largest `u16` where the sum does not fit.
pub open spec fn sat_add(a: u16, b: u16) -> u16 {
    if a + b > u16::MAX {
        u16::MAX
    } else {
        (a + b) as u16
    }
}

/// `a - b`, or zero where `b` is the larger.
pub open spec fn sat_sub(a: u16, b: u16) -> u16 {
    if a >= b {
        (a - b) as u16
    } else {
        0
    }
}

impl Default for Rect {
    fn default() -> (rect: Rect)
        ensures
            rect == Rect::zero(),
    {
        Rect { x: 0, y: 0, width: 0, height: 0 }
    }
}

impl Rect {
    /// The rectangle without cells in the corner of the grid.
    pub open spec fn zero() -> Rect {
        Rect { x: 0, y: 0, width: 0, height: 0 }
    }

    /// The first column to the right of the rectangle.
    pub open spec fn spec_right(self) -> u16 {
        sat_add(self.x, self.width)
    }

    /// The first row below the rectangle.
    pub open spec fn spec_bottom(self) -> u16 {
        sat_add(self.y, self.height)
    }

    /// The cell `position` lies in the rectangle.
    pub open spec fn spec_contains(self, position: Position) -> bool {
        &&& self.x <= position.x < self.spec_right()
        &&& self.y <= position.y < self.spec_bottom()
    }

    #[verifier::when_used_as_spec(spec_right)]
    pub fn right(self) -> (column: u16)
        ensures
            column == self.spec_right(),
    {
        self.x.saturating_add(self.width)
    }

    #[verifier::when_used_as_spec(spec_bottom)]
    pub fn bottom(self) -> (row: u16)
        ensures
            row == self.spec_bottom(),
    {
        self.y.saturating_add(self.height)
    }

    /// The rectangle of `width` by `height` in the middle of this one,
    /// or as much of it as this one has; it does not reach past the
    /// edge of the grid.
    pub open spec fn spec_inner_centered(self, width: u16, height: u16) -> Rect {
        let x = sat_add(self.x, sat_sub(self.width, width) / 2);
        let y = sat_add(self.y, sat_sub(self.height, height) / 2);
        let w = if width <= self.width {
            width
        } else {
            self.width
        };
        let h = if height <= self.height {
            height
        } else {
            self.height
        };
        Rect {
            x,
            y,
            width: if w > u16::MAX - x {
                (u16::MAX - x) as u16
            } else {
                w
            },
            height: if h > u16::MAX - y {
                (u16::MAX - y) as u16
            } else {
                h
            },
        }
    }

    /// The rectangle of `width` by `height` in the middle of this one.
    pub fn inner_centered(self, width: u16, height: u16) -> (rect: Rect)
        ensures
            rect == self.spec_inner_centered(width, height),
    {
        let x = self.x.saturating_add(self.width.saturating_sub(width) / 2);
        let y = self.y.saturating_add(self.height.saturating_sub(height) / 2);
        let w = if width <= self.width {
            width
        } else {
            self.width
        };
        let h = if height <= self.height {
            height
        } else {
            self.height
        };
        Rect {
            x,
            y,
            width: if w > u16::MAX - x {
                u16::MAX - x
            } else {
                w
            },
            height: if h > u16::MAX - y {
                u16::MAX - y
            } else {
                h
            },
        }
    }

    /// The rectangle moved down by `rows`, as far as the grid goes.
    pub open spec fn spec_moved_down(self, rows: u16) -> Rect {
        Rect {
            y: if self.y + rows > u16::MAX - self.height {
                (u16::MAX - self.height) as u16
            } else {
                (self.y + rows) as u16
            },
            ..self
        }
    }

    /// The rectangle moved down by `rows`, as far as the grid goes.
    pub fn moved_down(self, rows: u16) -> (rect: Rect)
        ensures
            rect == self.spec_moved_down(rows),
    {
        let limit = u16::MAX - self.height;
        let y = if rows > limit || self.y > limit - rows {
            limit
        } else {
            self.y + rows
        };
        Rect { y, ..self }
    }

    /// What is left of the rectangle inside the given margins; nothing
    /// where the margins do not fit.
    pub fn inner(self, horizontal: u16, vertical: u16) -> (rect: Rect)
        ensures
            rect == margin_inner(self, horizontal, vertical),
    {
        let twice_h = horizontal.saturating_add(horizontal);
        let twice_v = vertical.saturating_add(vertical);
        if self.width < twice_h || self.height < twice_v {
            Rect { x: 0, y: 0, width: 0, height: 0 }
        } else {
            Rect {
                x: self.x.saturating_add(horizontal),
                y: self.y.saturating_add(vertical),
                width: self.width.saturating_sub(twice_h),
                height: self.height.saturating_sub(twice_v),
            }
        }
    }

    /// Whether the cell `position` lies in the rectangle.
    #[verifier::when_used_as_spec(spec_contains)]
    pub fn contains(self, position: Position) -> (inside: bool)
        ensures
            inside == self.spec_contains(position),
    {
        position.x >= self.x && position.x < self.right() && position.y >= self.y && position.y
            < self.bottom()
    }
}

/// What is left of `area` inside a border of one cell on each side.
pub open spec fn bordered_inner(area: Rect) -> Rect {
    Rect {
        x: if sat_add(area.x, 1) <= area.spec_right() {
            sat_add(area.x, 1)
        } else {
            area.spec_right()
        },
        y: if sat_add(area.y, 1) <= area.spec_bottom() {
            sat_add(area.y, 1)
        } else {
            area.spec_bottom()
        },
        width: sat_sub(area.width, 2),
        height: sat_sub(area.height, 2),
    }
}

/// `Block::bordered().inner(area)` of ratatui: the area inside a block
/// with all four borders and neither title nor padding. The left and top
/// border move the corner by one cell, but not past the far edge, and
/// each border takes one cell off the size.
#[verifier::external_body]
pub(crate) fn inner_of_bordered(area: Rect) -> (inner: Rect)
    ensures
        inner == bordered_inner(area),
{
    let r = ratatui::widgets::Block::bordered().inner(
        ratatui::layout::Rect { x: area.x, y: area.y, width: area.width, height: area.height },
    );
    Rect { x: r.x, y: r.y, width: r.width, height: r.height }
}

/// How much room a part asks for along the axis that is split.
#[derive(Debug, Clone, Copy, PartialEq, Eq, Hash, Structural)]
pub enum Sizing {
    Min(u16),
    Max(u16),
    Length(u16),
    Percentage(u16),
    Ratio(u32, u32),
    Fill(u16),
}

/// The axis along which an area is split.
#[derive(Debug, Clone, Copy, PartialEq, Eq, Hash, Structural)]
pub enum Direction {
    Horizontal,
    Vertical,
}

impl Direction {
    /// The direction across this one.
    pub open spec fn across(self) -> Direction {
        match self {
            Direction::Horizontal => Direction::Vertical,
            Direction::Vertical => Direction::Horizontal,
        }
    }
}

/// Where room that no part asked for goes.
#[derive(Debug, Clone, Copy, PartialEq, Eq, Hash, Structural)]
pub enum Slack {
    Legacy,
    Start,
    End,
    Center,
    SpaceBetween,
    SpaceAround,
}

/// A plan for splitting an area: the axis, one constraint per part, the
/// margins kept free around the parts and the gap between them.
#[derive(Debug)]
pub struct Layout {
    pub direction: Direction,
    pub constraints: Vec<Sizing>,
    pub horizontal_margin: u16,
    pub vertical_margin: u16,
    pub flex: Slack,
    pub spacing: u16,
}

/// What is left of `area` inside the given margins; nothing where the
/// margins do not fit.
pub open spec fn margin_inner(area: Rect, horizontal: u16, vertical: u16) -> Rect {
    let twice_h = if 2 * horizontal > u16::MAX {
        u16::MAX
    } else {
        (2 * horizontal) as u16
    };
    let twice_v = if 2 * vertical > u16::MAX {
        u16::MAX
    } else {
        (2 * vertical) as u16
    };
    if area.width < twice_h || area.height < twice_v {
        Rect { x: 0, y: 0, width: 0, height: 0 }
    } else {
        Rect {
            x: sat_add(area.x, horizontal),
            y: sat_add(area.y, vertical),
            width: sat_sub(area.width, twice_h),
            height: sat_sub(area.height, twice_v),
        }
    }
}

/// `part` is a strip of what is left of `area` inside the margins: cut
/// along `direction`, it spans the whole of it across, and along the
/// direction it begins and ends inside it.
pub open spec fn strip(
    direction: Direction,
    horizontal_margin: u16,
    vertical_margin: u16,
    area: Rect,
    part: Rect,
) -> bool {
    let inner = margin_inner(area, horizontal_margin, vertical_margin);
    match direction {
        Direction::Horizontal => {
            &&& part.y == inner.y
            &&& part.height == inner.height
            &&& inner.x <= part.x
            &&& part.x + part.width <= inner.spec_right()
        },
        Direction::Vertical => {
            &&& part.x == inner.x
            &&& part.width == inner.width
            &&& inner.y <= part.y
            &&& part.y + part.height <= inner.spec_bottom()
        },
    }
}

/// `part` lies within `area`.
pub open spec fn within(area: Rect, part: Rect) -> bool {
    &&& area.x <= part.x
    &&& area.y <= part.y
    &&& part.spec_right() <= area.spec_right()
    &&& part.spec_bottom() <= area.spec_bottom()
}

/// `part` lies within `area`, or is the rectangle without cells in the
/// corner of the grid: what a cut of `area` gives where margins do not
/// fit.
pub open spec fn cut_from(area: Rect, part: Rect) -> bool {
    within(area, part) || part == Rect::zero()
}

/// A strip of an area is cut from the area.
pub proof fn lemma_strip_is_cut(
    direction: Direction,
    horizontal_margin: u16,
    vertical_margin: u16,
    area: Rect,
    part: Rect,
)
    requires
        strip(direction, horizontal_margin, vertical_margin, area, part),
    ensures
        cut_from(area, part),
{
}

/// `part` is what two cuts leave of `area` by way of `between`: the
/// first takes the strip `between` of `area` along `first`, inside the
/// margins `outer` (the horizontal one, then the vertical one); the
/// second takes of `between` the strip `part` along the direction
/// across, inside the margins `inner`.
pub open spec fn cut_through(
    first: Direction,
    outer: (u16, u16),
    inner: (u16, u16),
    area: Rect,
    between: Rect,
    part: Rect,
) -> bool {
    &&& strip(first, outer.0, outer.1, area, between)
    &&& strip(first.across(), inner.0, inner.1, between, part)
}

/// `part` is what two cuts leave of `area`: a strip, along the
/// direction across `first`, of a strip of `area` along `first`.
pub open spec fn cut_twice(
    first: Direction,
    outer: (u16, u16),
    inner: (u16, u16),
    area: Rect,
    part: Rect,
) -> bool {
    exists|between: Rect| cut_through(first, outer, inner, area, between, part)
}

/// `inner` is what lies inside the border of `frame`, which is a strip
/// of `area` along `direction`.
pub open spec fn framed_through(direction: Direction, area: Rect, frame: Rect, inner: Rect) -> bool {
    &&& strip(direction, 0, 0, area, frame)
    &&& inner == bordered_inner(frame)
}

/// `inner` is what lies inside the border of a strip of `area` along
/// `direction`.
pub open spec fn framed_in(direction: Direction, area: Rect, inner: Rect) -> bool {
    exists|frame: Rect| framed_through(direction, area, frame, inner)
}

/// `part` is a column of `area`: it has its rows.
pub open spec fn column_of(area: Rect, part: Rect) -> bool {
    part.y == area.y && part.height == area.height
}

/// `part` is a row of `area`: it has its columns.
pub open spec fn row_of(area: Rect, part: Rect) -> bool {
    part.x == area.x && part.width == area.width
}

/// What every split of `area` by the plan has: one rectangle per
/// constraint, each a strip of the area inside the margins. Where in it
/// along the axis the rectangles lie is the solver's choice.
pub open spec fn split_holds(
    direction: Direction,
    parts: nat,
    horizontal_margin: u16,
    vertical_margin: u16,
    area: Rect,
    rects: Seq<Rect>,
) -> bool {
    &&& rects.len() == parts
    &&& forall|i: int|
        0 <= i < rects.len() ==> strip(
            direction,
            horizontal_margin,
            vertical_margin,
            area,
            #[trigger] rects[i],
        )
}

#[verifier::external_type_specification]
#[verifier::external_body]
pub struct ExConstraint(ratatui::layout::Constraint);

#[verifier::external_type_specification]
#[verifier::external_body]
pub struct ExFlex(ratatui::layout::Flex);

/// The `Constraint` of ratatui that `constraint` stands for: the
/// variant of the same name with the same numbers. A value of that type
/// is opaque here, so the contract says nothing of it.
#[verifier::external_body]
fn outside_constraint(constraint: &Sizing) -> ratatui::layout::Constraint {
    match *constraint {
        Sizing::Min(n) => ratatui::layout::Constraint::Min(n),
        Sizing::Max(n) => ratatui::layout::Constraint::Max(n),
        Sizing::Length(n) => ratatui::layout::Constraint::Length(n),
        Sizing::Percentage(n) => ratatui::layout::Constraint::Percentage(n),
        Sizing::Ratio(a, b) => ratatui::layout::Constraint::Ratio(a, b),
        Sizing::Fill(n) => ratatui::layout::Constraint::Fill(n),
    }
}

/// The `Flex` of ratatui that `flex` stands for: the variant of the
/// same name. A value of that type is opaque here, so the contract says
/// nothing of it.
#[verifier::external_body]
fn outside_flex(flex: Slack) -> ratatui::layout::Flex {
    match flex {
        Slack::Legacy => ratatui::layout::Flex::Legacy,
        Slack::Start => ratatui::layout::Flex::Start,
        Slack::End => ratatui::layout::Flex::End,
        Slack::Center => ratatui::layout::Flex::Center,
        Slack::SpaceBetween => ratatui::layout::Flex::SpaceBetween,
        Slack::SpaceAround => ratatui::layout::Flex::SpaceAround,
    }
}

/// `Layout::split` of ratatui, which hands the constraints to a
/// constraint solver. The contract states what its source shows of
/// every result: one rectangle for each constraint; across the axis
/// each has the position and size of the area inside the margins; and
/// along the axis each begins and ends between the ends of that area,
/// which the solver is given as required bounds on every position. It
/// states nothing of the solver's choice within those bounds. The call
/// fails only where the solver refuses the constraints, which the
/// builders of the plan give it no reason for.
#[verifier::external_body]
fn solve(
    direction: Direction,
    plan: Vec<tui::Constraint>,
    flex: tui::Flex,
    spacing: u16,
    horizontal_margin: u16,
    vertical_margin: u16,
    area: Rect,
) -> (rects: Vec<Rect>)
    ensures
        split_holds(direction, plan@.len(), horizontal_margin, vertical_margin, area, rects@),
{
    let direction = match direction {
        Direction::Horizontal => tui::Direction::Horizontal,
        Direction::Vertical => tui::Direction::Vertical,
    };
    let layout = tui::Layout::new(direction, plan)
        .flex(flex)
        .spacing(tui::Spacing::Space(spacing))
        .horizontal_margin(horizontal_margin)
        .vertical_margin(vertical_margin);
    let area = tui::Rect { x: area.x, y: area.y, width: area.width, height: area.height };
    layout.split(area).iter().map(|r| Rect { x: r.x, y: r.y, width: r.width, height: r.height }).collect()
}

impl Layout {
    /// What every split of `area` by this plan has.
    pub open spec fn holds(&self, area: Rect, rects: Seq<Rect>) -> bool {
        split_holds(
            self.direction,
            self.constraints@.len(),
            self.horizontal_margin,
            self.vertical_margin,
            area,
            rects,
        )
    }

    /// A plan along `direction` with no margins, no gaps and spare room
    /// at the end.
    pub fn new(direction: Direction, constraints: Vec<Sizing>) -> (layout: Layout)
        ensures
            layout.direction == direction,
            layout.constraints == constraints,
            layout.horizontal_margin == 0,
            layout.vertical_margin == 0,
            layout.flex == Slack::Start,
            layout.spacing == 0,
    {
        Layout {
            direction,
            constraints,
            horizontal_margin: 0,
            vertical_margin: 0,
            flex: Slack::Start,
            spacing: 0,
        }
    }

    /// A plan that puts the parts side by side.
    pub fn horizontal(constraints: Vec<Sizing>) -> (layout: Layout)
        ensures
            layout.direction == Direction::Horizontal,
            layout.constraints == constraints,
            layout.horizontal_margin == 0,
            layout.vertical_margin == 0,
            layout.flex == Slack::Start,
            layout.spacing == 0,
    {
        Layout::new(Direction::Horizontal, constraints)
    }

    /// A plan that puts the parts one below the other.
    pub fn vertical(constraints: Vec<Sizing>) -> (layout: Layout)
        ensures
            layout.direction == Direction::Vertical,
            layout.constraints == constraints,
            layout.horizontal_margin == 0,
            layout.vertical_margin == 0,
            layout.flex == Slack::Start,
            layout.spacing == 0,
    {
        Layout::new(Direction::Vertical, constraints)
    }

    pub fn flex(self, flex: Slack) -> (layout: Layout)
        ensures
            layout == (Layout { flex, ..self }),
    {
        Layout { flex, ..self }
    }

    pub fn spacing(self, spacing: u16) -> (layout: Layout)
        ensures
            layout == (Layout { spacing, ..self }),
    {
        Layout { spacing, ..self }
    }

    pub fn horizontal_margin(self, horizontal_margin: u16) -> (layout: Layout)
        ensures
            layout == (Layout { horizontal_margin, ..self }),
    {
        Layout { horizontal_margin, ..self }
    }

    pub fn vertical_margin(self, vertical_margin: u16) -> (layout: Layout)
        ensures
            layout == (Layout { vertical_margin, ..self }),
    {
        Layout { vertical_margin, ..self }
    }

    /// The one part of a plan that has a single constraint.
    pub fn single(&self, area: Rect) -> (part: Rect)
        requires
            self.constraints@.len() == 1,
        ensures
            strip(self.direction, self.horizontal_margin, self.vertical_margin, area, part),
            cut_from(area, part),
    {
        let rects = self.split(area);
        rects[0]
    }

    /// Splits `area` by this plan. The result has one rectangle for each
    /// constraint, in their order, and each is a strip of the area
    /// inside the margins.
    pub fn split(&self, area: Rect) -> (rects: Vec<Rect>)
        ensures
            self.holds(area, rects@),
            forall|i: int| 0 <= i < rects@.len() ==> cut_from(area, #[trigger] rects@[i]),
    {
        let mut plan: Vec<tui::Constraint> = Vec::new();
        let mut i: usize = 0;
        while i < self.constraints.len()
            invariant
                i <= self.constraints.len(),
                plan@.len() == i,
            decreases self.constraints.len() - i,
        {
            plan.push(outside_constraint(&self.constraints[i]));
            i += 1;
        }
        let rects = solve(
            self.direction,
            plan,
            outside_flex(self.flex),
            self.spacing,
            self.horizontal_margin,
            self.vertical_margin,
            area,
        );
        proof {
            assert forall|i: int| 0 <= i < rects@.len() implies cut_from(
                area,
                #[trigger] rects@[i],
            ) by {
                lemma_strip_is_cut(
                    self.direction,
                    self.horizontal_margin,
                    self.vertical_margin,
                    area,
                    rects@[i],
                );
            }
        }
        rects
    }
}

} // verus!
