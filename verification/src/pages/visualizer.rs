//! The visualizer: a sparkline, the chart of the signals and a gauge.

use vstd::prelude::*;
use crate::action::{Action, InputMode, Mode};
use crate::component::{ActionSender, Ctx, Keymap};
use crate::components::wave::{moved_on, RandomSignal, Signal};
use crate::input::Input;
use crate::keys::{KeyEvent, MouseEvent};
use crate::layout::{row_of, split_holds, Direction, Layout, Rect, Sizing};
use crate::render::{Block, Color, Frame, LineGauge, Style, Widget};

verus! {

/// The entry after `index` in a menu of the pages.
pub open spec fn next_entry(index: usize) -> usize {
    ((index + 1) % (Mode::COUNT as int)) as usize
}

/// The entry before `index` in a menu of the pages.
pub open spec fn previous_entry(index: usize) -> usize {
    if index == 0 {
        (Mode::COUNT - 1) as usize
    } else {
        ((index - 1) % (Mode::COUNT as int)) as usize
    }
}

/// The menu entry after `action`.
pub open spec fn entry_after(index: usize, action: Action) -> usize {
    match action {
        Action::Forward => next_entry(index),
        Action::Back => previous_entry(index),
        _ => index,
    }
}

/// Moves a menu of the pages on or back.
pub fn cycle(index: usize, action: &Action) -> (entry: usize)
    ensures
        entry == entry_after(index, *action),
{
    match action {
        Action::Forward => (index % Mode::COUNT + 1) % Mode::COUNT,
        Action::Back => if index == 0 {
            Mode::COUNT - 1
        } else {
            (index - 1) % Mode::COUNT
        },
        _ => index,
    }
}

pub struct Visualizer {
    pub mode: InputMode,
    pub menu_index: usize,
    pub input: Input,
    pub show: bool,
    pub sparkline: Signal,
    pub action_tx: Option<ActionSender>,
    pub keymap: Keymap,
    pub last_events: Vec<KeyEvent>,
    pub enhanced_graphics: bool,
    pub area: Rect,
    pub areas: Vec<Rect>,
}

impl Visualizer {
    /// The page has the areas that drawing needs: a layout pass has
    /// cached them.
    pub open spec fn laid_out(&self) -> bool {
        self.areas@.len() >= 3
    }

    pub open spec fn wf(&self) -> bool {
        self.sparkline.wf() && self.input.wf()
    }

    /// A visualizer with three hundred levels below a hundred.
    pub fn new() -> (page: Visualizer)
        ensures
            page.mode == InputMode::Normal,
            !page.show,
            page.sparkline.points@.len() == 300,
            page.sparkline.source == (RandomSignal { lower: 0, upper: 100 }),
            page.sparkline.tick_rate == 1,
            page.enhanced_graphics,
            page.menu_index == 0,
            page.action_tx.is_none(),
            page.last_events@.len() == 0,
            page.area == Rect::zero(),
            page.areas@.len() == 0,
            page.wf(),
            page.keymap.entries@.len() == 0,
            page.input.value@.len() == 0,
            page.input.cursor == 0,
    {
        let rand_signal = RandomSignal::new(0, 100);
        Visualizer {
            input: Input::default(),
            mode: InputMode::Normal,
            show: false,
            sparkline: Signal::new(rand_signal, 300, 1),
            enhanced_graphics: true,
            menu_index: 0,
            action_tx: None,
            keymap: Keymap::new(),
            last_events: Vec::new(),
            area: Rect::default(),
            areas: Vec::new(),
        }
    }

    /// Moves the sparkline on.
    pub fn tick(&mut self)
        requires
            old(self).wf(),
        ensures
            final(self).wf(),
            final(self).sparkline.source == old(self).sparkline.source,
            final(self).sparkline.tick_rate == old(self).sparkline.tick_rate,
            moved_on(
                old(self).sparkline.points@,
                final(self).sparkline.points@,
                old(self).sparkline.tick_rate,
                old(self).sparkline.source,
            ),
            *final(self) == (Visualizer { sparkline: final(self).sparkline, ..*old(self) }),
    {
        self.sparkline.on_tick();
    }

    pub fn keymap(self, keymap: Keymap) -> (page: Visualizer)
        ensures
            page == (Visualizer { keymap, ..self }),
    {
        Visualizer { keymap, ..self }
    }

    pub fn current_mode(&self) -> (mode: InputMode)
        ensures
            mode == InputMode::Normal,
    {
        InputMode::Normal
    }

    pub fn register_action_handler(&mut self, tx: ActionSender)
        ensures
            *final(self) == (Visualizer { action_tx: Some(tx), ..*old(self) }),
    {
        self.action_tx = Some(tx);
    }

    /// Takes `area` and cuts it into the rows of the sparkline, of the
    /// chart and of the gauge.
    pub fn register_layout_handler(&mut self, area: Rect)
        ensures
            final(self).area == area,
            final(self).areas@.len() == 3,
            split_holds(Direction::Vertical, 3, 0, 0, area, final(self).areas@),
            forall|i: int| 0 <= i < 3 ==> row_of(area, #[trigger] final(self).areas@[i]),
            *final(self) == (Visualizer { area, areas: final(self).areas, ..*old(self) }),
    {
        self.area = area;
        self.areas = Layout::vertical(
            vec![Sizing::Min(5), Sizing::Fill(1), Sizing::Length(1)],
        ).split(area);
    }

    /// The page takes no pointer events.
    pub fn handle_mouse_events(&mut self, mouse: MouseEvent) -> (action: Option<Action>)
        ensures
            action.is_none(),
            *final(self) == *old(self),
    {
        None
    }

    /// Notes the key; while work is under way the key also goes to the
    /// input and asks for an update.
    pub fn handle_key_events(&mut self, key: KeyEvent) -> (action: Option<Action>)
        requires
            old(self).wf(),
        ensures
            final(self).wf(),
            action == if old(self).mode == InputMode::Processing {
                Some(Action::Update)
            } else {
                None
            },
            final(self).last_events@ == old(self).last_events@.push(key),
            (final(self).input.value@, final(self).input.cursor as nat) == if old(self).mode
                == InputMode::Processing {
                old(self).input.after_key(key)
            } else {
                (old(self).input.value@, old(self).input.cursor as nat)
            },
            *final(self) == (Visualizer {
                last_events: final(self).last_events,
                input: final(self).input,
                ..*old(self)
            }),
    {
        self.last_events.push(key);
        match self.mode {
            InputMode::Processing => {
                self.input.handle_event(&key);
                Some(Action::Update)
            },
            _ => None,
        }
    }

    /// Reacts to `action`: a tick moves the sparkline on, and forward
    /// and back move round the menu of the pages.
    pub fn update(&mut self, action: Action, ctx: &Ctx) -> (follow_up: Option<Action>)
        requires
            old(self).wf(),
        ensures
            follow_up.is_none(),
            final(self).wf(),
            final(self).menu_index == entry_after(old(self).menu_index, action),
            if action is Tick {
                moved_on(
                    old(self).sparkline.points@,
                    final(self).sparkline.points@,
                    old(self).sparkline.tick_rate,
                    old(self).sparkline.source,
                )
            } else {
                final(self).sparkline == old(self).sparkline
            },
            final(self).sparkline.source == old(self).sparkline.source,
            final(self).sparkline.tick_rate == old(self).sparkline.tick_rate,
            *final(self) == (Visualizer {
                menu_index: final(self).menu_index,
                sparkline: final(self).sparkline,
                ..*old(self)
            }),
    {
        match action {
            Action::Tick => self.tick(),
            _ => {
                self.menu_index = cycle(self.menu_index, &action);
            },
        }
        None
    }

    /// Draws the page: the sparkline, the chart and the gauge, each
    /// into its rows.
    /// Before a layout pass has cached the areas, nothing is drawn.
    pub fn draw(&self, frame: &mut Frame)
        ensures
            final(frame).area == old(frame).area,
            !self.laid_out() ==> final(frame).ops@ == old(frame).ops@ && final(frame).cursor == old(frame).cursor,
            self.laid_out() ==> ({
                &&& final(frame).cursor == old(frame).cursor
                &&& ({
                    let ops = final(frame).ops@;
                    let n = old(frame).ops@.len() as int;
                    &&& ops.len() == n + 3
                    &&& ops.subrange(0, n) == old(frame).ops@
                    &&& ops[n].area == self.areas@[0]
                    &&& ops[n].widget matches Widget::Sparkline(points) && points@
                        == self.sparkline.points@
                    &&& ops[n + 1] == (crate::render::DrawOp {
                        widget: Widget::Chart,
                        area: self.areas@[1],
                    })
                    &&& ops[n + 2].area == self.areas@[2]
                    &&& ops[n + 2].widget matches Widget::LineGauge(g) && g.thick
                        == self.enhanced_graphics
                })
            }),
    {
        if !(self.areas.len() >= 3) {
            return ;
        }
        frame.render_widget(Widget::Sparkline(self.sparkline.points.clone()), self.areas[0]);
        frame.render_widget(Widget::Chart, self.areas[1]);
        frame.render_widget(
            Widget::LineGauge(
                LineGauge {
                    label: String::new(),
                    filled_style: Style::new().fg(Color::Magenta),
                    thick: self.enhanced_graphics,
                    block: Some(Block::new()),
                },
            ),
            self.areas[2],
        );
        assert(final(frame).ops@.subrange(0, old(frame).ops@.len() as int) =~= old(frame).ops@);
    }
}

} // verus!
