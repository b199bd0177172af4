//! The sparkline of the music player: a window on a stream of random
//! levels.

use vstd::prelude::*;
use crate::action::{Action, InputMode};
use crate::component::{ActionSender, Ctx, Keymap};
use crate::keys::{KeyEvent, MouseEvent};
use crate::layout::{row_of, strip, Direction, Layout, Rect, Sizing};
use crate::render::{Frame, Widget};

verus! {

/// A sample of rand's uniform distribution over the numbers from
/// `lower` up to, but not including, `upper`, drawn with the generator
/// of the thread. Every call may give another number; the contract
/// states the range alone.
#[verifier::external_body]
fn sample(lower: u64, upper: u64) -> (value: u64)
    requires
        lower < upper,
    ensures
        lower <= value < upper,
{
    rand::distr::Distribution::sample(
        &rand::distr::Uniform::try_from(lower..upper).unwrap(),
        &mut rand::rng(),
    )
}

/// A source of random numbers in a range.
#[derive(Debug, Clone, Copy, PartialEq, Eq, Structural)]
pub struct RandomSignal {
    pub lower: u64,
    pub upper: u64,
}

impl RandomSignal {
    /// The range has numbers in it.
    pub open spec fn wf(&self) -> bool {
        self.lower < self.upper
    }

    /// A source of the numbers from `lower` up to, but not including,
    /// `upper`.
    pub fn new(lower: u64, upper: u64) -> (signal: RandomSignal)
        requires
            lower < upper,
        ensures
            signal == (RandomSignal { lower, upper }),
            signal.wf(),
    {
        RandomSignal { lower, upper }
    }

    /// The next number.
    pub fn next(&mut self) -> (value: Option<u64>)
        requires
            old(self).wf(),
        ensures
            *final(self) == *old(self),
            value matches Some(v) && old(self).lower <= v < old(self).upper,
    {
        Some(sample(self.lower, self.upper))
    }
}

/// Every point of `points` lies in the range of `source`.
pub open spec fn in_range(points: Seq<u64>, source: RandomSignal) -> bool {
    forall|i: int| 0 <= i < points.len() ==> source.lower <= #[trigger] points[i] < source.upper
}

/// `after` is the window `before` moved on by `tick_rate` points: the
/// oldest points have left, as many as the tick rate says and the
/// window held, and as many fresh points as the tick rate says have come
/// in at the end, each from the range of `source`.
pub open spec fn moved_on(before: Seq<u64>, after: Seq<u64>, tick_rate: usize, source: RandomSignal) -> bool {
    let gone = if tick_rate <= before.len() {
        tick_rate as int
    } else {
        before.len() as int
    };
    &&& after.len() == before.len() - gone + tick_rate
    &&& after.subrange(0, before.len() - gone) == before.skip(gone)
    &&& in_range(before, source) ==> in_range(after, source)
}

/// A window of points on a stream that moves on by `tick_rate` points
/// with every tick.
#[derive(Debug)]
pub struct Signal {
    pub source: RandomSignal,
    pub points: Vec<u64>,
    pub tick_rate: usize,
}

impl Signal {
    pub open spec fn wf(&self) -> bool {
        self.source.wf() && in_range(self.points@, self.source)
    }

    /// A window of `len` fresh points.
    pub fn new(source: RandomSignal, len: usize, tick_rate: usize) -> (signal: Signal)
        requires
            source.wf(),
        ensures
            signal.source == source,
            signal.tick_rate == tick_rate,
            signal.points@.len() == len,
            signal.wf(),
    {
        let mut stream = source;
        let mut points: Vec<u64> = Vec::new();
        let mut i: usize = 0;
        while i < len
            invariant
                i <= len,
                stream == source,
                stream.wf(),
                points@.len() == i,
                in_range(points@, source),
            decreases len - i,
        {
            if let Some(v) = stream.next() {
                points.push(v);
            }
            i += 1;
        }
        Signal { source: stream, points, tick_rate }
    }

    /// Moves the window on: the oldest points leave, as many as the
    /// tick rate says and the window holds, and as many fresh points as
    /// the tick rate says come in at the end.
    pub fn on_tick(&mut self)
        requires
            old(self).wf(),
        ensures
            final(self).wf(),
            final(self).source == old(self).source,
            final(self).tick_rate == old(self).tick_rate,
            moved_on(
                old(self).points@,
                final(self).points@,
                old(self).tick_rate,
                old(self).source,
            ),
    {
        let gone = if self.tick_rate <= self.points.len() {
            self.tick_rate
        } else {
            self.points.len()
        };
        let mut kept: Vec<u64> = Vec::new();
        let mut i: usize = gone;
        while i < self.points.len()
            invariant
                gone <= i <= self.points@.len(),
                self.points == old(self).points,
                kept@ == self.points@.subrange(gone as int, i as int),
            decreases self.points@.len() - i,
        {
            kept.push(self.points[i]);
            assert(kept@ =~= self.points@.subrange(gone as int, i + 1));
            i += 1;
        }
        assert(kept@ =~= old(self).points@.skip(gone as int));
        let ghost base = kept@;
        let mut k: usize = 0;
        while k < self.tick_rate
            invariant
                k <= self.tick_rate,
                self.source == old(self).source,
                self.source.wf(),
                self.tick_rate == old(self).tick_rate,
                kept@.len() == base.len() + k,
                kept@.subrange(0, base.len() as int) == base,
                in_range(kept@, self.source),
            decreases self.tick_rate - k,
        {
            let ghost before = kept@;
            if let Some(v) = self.source.next() {
                kept.push(v);
            }
            assert(kept@.subrange(0, base.len() as int) =~= before.subrange(0, base.len() as int));
            k += 1;
        }
        self.points = kept;
    }
}

pub struct Wave {
    pub mode: InputMode,
    pub sparkline: Signal,
    pub action_tx: Option<ActionSender>,
    pub keymap: Keymap,
    pub area: Rect,
}

impl Wave {
    pub open spec fn wf(&self) -> bool {
        self.sparkline.wf()
    }

    /// A wave with three hundred levels below a hundred, which moves on
    /// by one level a tick.
    pub fn new() -> (wave: Wave)
        ensures
            wave.mode == InputMode::Normal,
            wave.sparkline.points@.len() == 300,
            wave.sparkline.source == (RandomSignal { lower: 0, upper: 100 }),
            wave.sparkline.tick_rate == 1,
            wave.action_tx.is_none(),
            wave.area == Rect::zero(),
            wave.wf(),
            wave.keymap.entries@.len() == 0,
    {
        let rand_signal = RandomSignal::new(0, 100);
        Wave {
            mode: InputMode::Normal,
            sparkline: Signal::new(rand_signal, 300, 1),
            action_tx: None,
            keymap: Keymap::new(),
            area: Rect::default(),
        }
    }

    /// The wave is `before` with the sparkline moved on.
    pub open spec fn ticked(&self, before: Wave) -> bool {
        &&& moved_on(
            before.sparkline.points@,
            self.sparkline.points@,
            before.sparkline.tick_rate,
            before.sparkline.source,
        )
        &&& self.sparkline.source == before.sparkline.source
        &&& self.sparkline.tick_rate == before.sparkline.tick_rate
        &&& self.mode == before.mode
        &&& self.action_tx == before.action_tx
        &&& self.keymap == before.keymap
        &&& self.area == before.area
    }

    /// Moves the sparkline on.
    pub fn tick(&mut self)
        requires
            old(self).wf(),
        ensures
            final(self).wf(),
            final(self).ticked(*old(self)),
    {
        self.sparkline.on_tick();
    }

    pub fn keymap(self, keymap: Keymap) -> (wave: Wave)
        ensures
            wave == (Wave { keymap, ..self }),
    {
        Wave { keymap, ..self }
    }

    pub fn current_mode(&self) -> (mode: InputMode)
        ensures
            mode == InputMode::Normal,
    {
        InputMode::Normal
    }

    pub fn register_action_handler(&mut self, tx: ActionSender)
        ensures
            *final(self) == (Wave { action_tx: Some(tx), ..*old(self) }),
    {
        self.action_tx = Some(tx);
    }

    /// Takes the rows of `area`, as the layout solver fills them.
    pub fn register_layout_handler(&mut self, area: Rect)
        ensures
            strip(Direction::Vertical, 0, 0, area, final(self).area),
            row_of(area, final(self).area),
            *final(self) == (Wave { area: final(self).area, ..*old(self) }),
    {
        self.area = area;
        let chunks = Layout::vertical(vec![Sizing::Fill(1)]).split(area);
        self.area = chunks[0];
    }

    /// The wave takes no pointer events.
    pub fn handle_mouse_events(&mut self, mouse: MouseEvent) -> (action: Option<Action>)
        ensures
            action.is_none(),
            *final(self) == *old(self),
    {
        None
    }

    /// The wave takes no keys.
    pub fn handle_key_events(&mut self, key: KeyEvent) -> (action: Option<Action>)
        ensures
            action.is_none(),
            *final(self) == *old(self),
    {
        None
    }

    /// Every tick moves the sparkline on.
    pub fn update(&mut self, action: Action, ctx: &Ctx) -> (follow_up: Option<Action>)
        requires
            old(self).wf(),
        ensures
            follow_up.is_none(),
            final(self).wf(),
            if action is Tick {
                final(self).ticked(*old(self))
            } else {
                *final(self) == *old(self)
            },
    {
        if let Action::Tick = action {
            self.tick();
        }
        None
    }

    /// `ops` is `before` with what the wave draws behind it.
    pub open spec fn drawn(&self, before: Seq<crate::render::DrawOp>, ops: Seq<
        crate::render::DrawOp,
    >) -> bool {
        let n = before.len() as int;
        &&& ops.len() == n + 2
        &&& ops.subrange(0, n) == before
        &&& ops[n].widget is Clear
        &&& ops[n].area == self.area
        &&& ops[n + 1].area == self.area
        &&& ops[n + 1].widget matches Widget::Sparkline(points) && points@ == self.sparkline.points@
    }

    /// Draws the wave: its area is cleared, and the sparkline drawn
    /// into it.
    pub fn draw(&self, frame: &mut Frame)
        ensures
            final(frame).area == old(frame).area,
            final(frame).cursor == old(frame).cursor,
            self.drawn(old(frame).ops@, final(frame).ops@),
    {
        frame.render_widget(Widget::Clear, self.area);
        frame.render_widget(Widget::Sparkline(self.sparkline.points.clone()), self.area);
        assert(final(frame).ops@.subrange(0, old(frame).ops@.len() as int) =~= old(frame).ops@);
    }
}

} // verus!
