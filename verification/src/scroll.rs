//! Cursor and viewport bookkeeping for scrollable text and lists.

use vstd::prelude::*;
use crate::layout::Rect;

verus! {

/// Largest position a cursor may take so that a window of `view_size`
/// lines still ends inside `max` lines of content.
pub open spec fn scroll_limit(max: nat, view_size: nat) -> nat {
    if max >= view_size {
        (max - view_size) as nat
    } else {
        0
    }
}

/// The smaller of two numbers.
pub open spec fn least(a: nat, b: nat) -> nat {
    if a <= b {
        a
    } else {
        b
    }
}

/// `a - b`, or zero where `b` is the larger.
pub open spec fn minus(a: nat, b: nat) -> nat {
    if a >= b {
        (a - b) as nat
    } else {
        0
    }
}

/// `a + b`, or the largest `usize` where the sum does not fit.
pub open spec fn plus(a: nat, b: nat) -> nat {
    if a + b > usize::MAX {
        usize::MAX as nat
    } else {
        a + b
    }
}

/// What a scrollbar shows: how far the content can scroll, and how far
/// it has.
#[derive(Debug, Clone, Copy, PartialEq, Eq, Structural)]
pub struct ScrollbarView {
    pub content_length: usize,
    pub position: usize,
}

/// One step of scrolling.
#[derive(Debug, Clone, Copy, PartialEq, Eq, Structural)]
pub enum ScrollOp {
    Up,
    Down,
    PageUp,
    PageDown,
    Top,
    Bottom,
}

/// Position, window height and content length of a scrollable pane.
#[derive(Debug, Clone, Copy, PartialEq, Eq, Structural)]
pub struct ScrollState {
    pub position: usize,
    pub view_size: usize,
    pub max: usize,
}

impl ScrollState {
    /// The largest position this state admits.
    pub open spec fn limit(&self) -> nat {
        scroll_limit(self.max as nat, self.view_size as nat)
    }

    /// The cursor lies inside the scrollable range.
    pub open spec fn wf(&self) -> bool {
        self.position as nat <= self.limit()
    }

    /// Where the cursor stands after `op`: moved by one line or one
    /// window, or put at one end, and never past the limit.
    pub open spec fn moved(&self, op: ScrollOp) -> nat {
        let p = self.position as nat;
        let v = self.view_size as nat;
        match op {
            ScrollOp::Up => least(minus(p, 1), self.limit()),
            ScrollOp::Down => least(p + 1, self.limit()),
            ScrollOp::PageUp => least(minus(p, v), self.limit()),
            ScrollOp::PageDown => least(p + v, self.limit()),
            ScrollOp::Top => 0,
            ScrollOp::Bottom => self.limit(),
        }
    }

    /// The state after `op`.
    pub open spec fn after(&self, op: ScrollOp) -> ScrollState {
        ScrollState { position: self.moved(op) as usize, ..*self }
    }

    /// The state after the steps `ops`, first to last.
    pub open spec fn after_all(&self, ops: Seq<ScrollOp>) -> ScrollState
        decreases ops.len(),
    {
        if ops.len() == 0 {
            *self
        } else {
            self.after_all(ops.drop_last()).after(ops.last())
        }
    }

    /// A state at the top of `max` lines, with a window of one line.
    pub fn new(max: usize) -> (state: ScrollState)
        ensures
            state == (ScrollState { position: 0, view_size: 1, max }),
            state.wf(),
    {
        ScrollState { position: 0, view_size: 1, max }
    }

    fn bound(&self) -> (limit: usize)
        ensures
            limit == self.limit(),
    {
        self.max.saturating_sub(self.view_size)
    }

    fn put(&mut self, position: usize)
        ensures
            *final(self) == (ScrollState {
                position: least(position as nat, old(self).limit()) as usize,
                ..*old(self)
            }),
    {
        let limit = self.bound();
        self.position = if position <= limit {
            position
        } else {
            limit
        };
    }

    pub fn scroll_down(&mut self)
        ensures
            *final(self) == old(self).after(ScrollOp::Down),
            final(self).wf(),
    {
        self.put(self.position.saturating_add(1));
    }

    pub fn scroll_up(&mut self)
        ensures
            *final(self) == old(self).after(ScrollOp::Up),
            final(self).wf(),
    {
        self.put(self.position.saturating_sub(1));
    }

    pub fn scroll_page_down(&mut self)
        ensures
            *final(self) == old(self).after(ScrollOp::PageDown),
            final(self).wf(),
    {
        self.put(self.position.saturating_add(self.view_size));
    }

    pub fn scroll_page_up(&mut self)
        ensures
            *final(self) == old(self).after(ScrollOp::PageUp),
            final(self).wf(),
    {
        self.put(self.position.saturating_sub(self.view_size));
    }

    pub fn scroll_top(&mut self)
        ensures
            *final(self) == old(self).after(ScrollOp::Top),
            final(self).wf(),
    {
        self.position = 0;
    }

    pub fn scroll_bottom(&mut self)
        ensures
            *final(self) == old(self).after(ScrollOp::Bottom),
            final(self).wf(),
    {
        self.position = self.bound();
    }

    /// Takes `op`, whichever it is.
    pub fn apply(&mut self, op: ScrollOp)
        ensures
            *final(self) == old(self).after(op),
            final(self).wf(),
    {
        match op {
            ScrollOp::Up => self.scroll_up(),
            ScrollOp::Down => self.scroll_down(),
            ScrollOp::PageUp => self.scroll_page_up(),
            ScrollOp::PageDown => self.scroll_page_down(),
            ScrollOp::Top => self.scroll_top(),
            ScrollOp::Bottom => self.scroll_bottom(),
        }
    }

    /// Sets the window to `view_size` lines, as a layout pass found it,
    /// and pulls the cursor back where it would now stand past the
    /// limit.
    pub fn set_view_size(&mut self, view_size: usize)
        ensures
            final(self).view_size == view_size,
            final(self).max == old(self).max,
            final(self).position == least(
                old(self).position as nat,
                scroll_limit(old(self).max as nat, view_size as nat),
            ),
            final(self).wf(),
    {
        self.view_size = view_size;
        self.put(self.position);
    }

    /// What the scrollbar shows of this state.
    pub fn scrollbar(&self) -> (bar: ScrollbarView)
        ensures
            bar.content_length == self.limit(),
            bar.position == self.position,
    {
        ScrollbarView { content_length: self.bound(), position: self.position }
    }
}

/// Every step of scrolling leaves the cursor inside the scrollable
/// range, and leaves the window and the content length as they were.
pub proof fn lemma_scroll_step_in_range(state: ScrollState, op: ScrollOp)
    ensures
        state.after(op).wf(),
        state.after(op).max == state.max,
        state.after(op).view_size == state.view_size,
{
}

/// After any sequence of scroll steps the cursor lies between zero and
/// the content length less the window height, whatever the content
/// length and the window height are. This holds from any state after at
/// least one step, and from a state in range after none.
pub proof fn lemma_scroll_stays_in_range(state: ScrollState, ops: Seq<ScrollOp>)
    ensures
        state.after_all(ops).max == state.max,
        state.after_all(ops).view_size == state.view_size,
        ops.len() > 0 || state.wf() ==> state.after_all(ops).wf(),
        ops.len() > 0 || state.wf() ==> 0 <= state.after_all(ops).position <= scroll_limit(
            state.max as nat,
            state.view_size as nat,
        ),
    decreases ops.len(),
{
    if ops.len() > 0 {
        lemma_scroll_stays_in_range(state, ops.drop_last());
        lemma_scroll_step_in_range(state.after_all(ops.drop_last()), ops.last());
    }
}

/// How many lines are held back from the scroll range of a text of
/// `lines` lines that shows in `height` rows: none where the text fits,
/// and else half the rows less a third of them.
pub open spec fn reserved_lines(lines: nat, height: nat) -> nat {
    if lines < height {
        0
    } else {
        (height / 2 - height / 3) as nat
    }
}

/// The scroll state of a text of `lines` lines that is opened in a
/// pane of `height` rows: at the top, with a window of one line, and
/// with the lines that are held back taken off the content length.
pub fn content_scroll(lines: usize, height: usize) -> (state: ScrollState)
    ensures
        state == (ScrollState {
            position: 0,
            view_size: 1,
            max: (lines - reserved_lines(lines as nat, height as nat)) as usize,
        }),
        lines >= height ==> state.max == lines - (height / 2 - height / 3),
        lines < height ==> state.max == lines,
{
    let mut view_size = height;
    if lines < view_size {
        view_size = 0;
    } else {
        view_size = (view_size / 2) - view_size / 3;
    }
    ScrollState::new(lines - view_size)
}

/// Cursor, window and selection of a list whose rows take pointer
/// clicks.
#[derive(Debug, PartialEq, Eq)]
pub struct MouseListState {
    pub position: usize,
    pub view_size: usize,
    pub areas: Vec<Rect>,
    pub selected: Option<usize>,
    pub max: usize,
}

impl MouseListState {
    /// A state at the top of `max` rows, with a window of one row and
    /// nothing selected.
    pub fn new(max: usize) -> (state: MouseListState)
        ensures
            state.position == 0,
            state.view_size == 1,
            state.areas@.len() == 0,
            state.selected.is_none(),
            state.max == max,
    {
        MouseListState { position: 0, view_size: 1, areas: Vec::new(), selected: None, max }
    }

    /// Records the selection `index`. Where it names a row below `max`
    /// the cursor moves to that row; where it names none, or one that
    /// does not exist, the cursor stays.
    pub fn select(&mut self, index: Option<usize>)
        ensures
            final(self).selected == index,
            final(self).position == match index {
                Some(i) => if i >= old(self).max {
                    old(self).position
                } else {
                    i
                },
                None => old(self).position,
            },
            final(self).view_size == old(self).view_size,
            final(self).max == old(self).max,
            final(self).areas == old(self).areas,
    {
        self.selected = index;
        if let Some(i) = index {
            if i < self.max {
                self.position = i;
            }
        }
    }

    pub fn scroll_down(&mut self)
        ensures
            final(self).position == plus(old(self).position as nat, 1),
            final(self).view_size == old(self).view_size,
            final(self).max == old(self).max,
            final(self).selected == old(self).selected,
            final(self).areas == old(self).areas,
    {
        self.position = self.position.saturating_add(1);
    }

    pub fn scroll_up(&mut self)
        ensures
            final(self).position == minus(old(self).position as nat, 1),
            final(self).view_size == old(self).view_size,
            final(self).max == old(self).max,
            final(self).selected == old(self).selected,
            final(self).areas == old(self).areas,
    {
        self.position = self.position.saturating_sub(1);
    }

    pub fn scroll_page_down(&mut self)
        ensures
            final(self).position == plus(old(self).position as nat, old(self).view_size as nat),
            final(self).view_size == old(self).view_size,
            final(self).max == old(self).max,
            final(self).selected == old(self).selected,
            final(self).areas == old(self).areas,
    {
        self.position = self.position.saturating_add(self.view_size);
    }

    pub fn scroll_page_up(&mut self)
        ensures
            final(self).position == minus(old(self).position as nat, old(self).view_size as nat),
            final(self).view_size == old(self).view_size,
            final(self).max == old(self).max,
            final(self).selected == old(self).selected,
            final(self).areas == old(self).areas,
    {
        self.position = self.position.saturating_sub(self.view_size);
    }

    pub fn scroll_top(&mut self)
        ensures
            final(self).position == 0,
            final(self).view_size == old(self).view_size,
            final(self).max == old(self).max,
            final(self).selected == old(self).selected,
            final(self).areas == old(self).areas,
    {
        self.position = 0;
    }

    pub fn scroll_bottom(&mut self)
        ensures
            final(self).position == scroll_limit(
                old(self).max as nat,
                old(self).view_size as nat,
            ),
            final(self).view_size == old(self).view_size,
            final(self).max == old(self).max,
            final(self).selected == old(self).selected,
            final(self).areas == old(self).areas,
    {
        self.position = self.max.saturating_sub(self.view_size);
    }

    /// What the scrollbar shows of this state.
    pub fn scrollbar(&self) -> (bar: ScrollbarView)
        ensures
            bar.content_length == scroll_limit(self.max as nat, self.view_size as nat),
            bar.position == self.position,
    {
        ScrollbarView {
            content_length: self.max.saturating_sub(self.view_size),
            position: self.position,
        }
    }

    /// The row that a list widget shows as selected: the one under the
    /// cursor.
    pub fn list_selection(&self) -> (row: Option<usize>)
        ensures
            row == Some(self.position),
    {
        Some(self.position)
    }
}

} // verus!
