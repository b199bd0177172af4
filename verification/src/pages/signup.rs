//! The page that takes a new account through the steps of signing up.

use vstd::prelude::*;
use crate::action::{Action, InputMode};
use crate::component::{ActionSender, Ctx, Keymap};
use crate::conf::AppConfiguration;
use crate::input::Input;
use crate::keys::{KeyCode, KeyEvent, MouseEvent};
use crate::layout::{row_of, split_holds, Direction, Layout, Rect, Sizing, Slack};
use crate::list::{next_index, previous_index, ListState, StatefulList};
use crate::pages::settings::{option_key_action, option_key_typed};
use crate::render::{Block, Frame, Line, Paragraph, Style, Widget, BORDER_RIGHT};

verus! {

/// The steps of signing up.
#[derive(Debug, Clone, Copy, PartialEq, Eq, Structural)]
pub enum Items {
    Confirm,
    Username,
    Bio,
    Tos,
    Privacy,
}

/// The steps in their order.
pub open spec fn all_steps() -> Seq<Items> {
    seq![Items::Confirm, Items::Username, Items::Bio, Items::Tos, Items::Privacy]
}

impl Default for Items {
    fn default() -> (step: Items)
        ensures
            step == Items::Confirm,
    {
        Items::Confirm
    }
}

impl Items {
    /// The steps in their order.
    pub fn all() -> (steps: Vec<Items>)
        ensures
            steps@ == all_steps(),
    {
        let steps = vec![Items::Confirm, Items::Username, Items::Bio, Items::Tos, Items::Privacy];
        assert(steps@ =~= all_steps());
        steps
    }

    /// The name of the step.
    pub open spec fn name(self) -> Seq<char> {
        match self {
            Items::Confirm => "Confirm"@,
            Items::Username => "Username"@,
            Items::Bio => "Bio"@,
            Items::Tos => "Tos"@,
            Items::Privacy => "Privacy"@,
        }
    }

    pub fn label(&self) -> (name: &'static str)
        ensures
            name@ == self.name(),
    {
        match self {
            Items::Confirm => "Confirm",
            Items::Username => "Username",
            Items::Bio => "Bio",
            Items::Tos => "Tos",
            Items::Privacy => "Privacy",
        }
    }
}

pub struct Settings {
    pub show: bool,
    pub mode: InputMode,
    pub confirm: Input,
    pub username: Input,
    pub bio: Input,
    pub options: StatefulList<Items>,
    pub selected_option: Option<Items>,
    pub action_tx: Option<ActionSender>,
    pub keymap: Keymap,
    pub config: AppConfiguration,
    pub area: Rect,
    pub areas: Vec<Rect>,
}

impl Settings {
    /// The page has the areas that drawing needs: a layout pass has
    /// cached them.
    pub open spec fn laid_out(&self) -> bool {
        self.areas@.len() >= 3
    }

    pub open spec fn wf(&self) -> bool {
        self.confirm.wf() && self.username.wf() && self.bio.wf()
    }

    /// The step that the list has selected.
    pub open spec fn pointed(&self) -> Option<Items> {
        match self.options.state.selected {
            Some(i) => if i < self.options.items@.len() {
                Some(self.options.items@[i as int])
            } else {
                None
            },
            None => None,
        }
    }

    /// A page that lists all steps, with none selected.
    pub fn new(conf: AppConfiguration) -> (page: Settings)
        ensures
            !page.show,
            page.mode == InputMode::Normal,
            page.confirm.value@.len() == 0,
            page.username.value@.len() == 0,
            page.bio.value@.len() == 0,
            page.options.items@ == all_steps(),
            page.options.state == (ListState { offset: 0, selected: None }),
            page.selected_option.is_none(),
            page.action_tx.is_none(),
            page.config == conf,
            page.area == Rect::zero(),
            page.areas@.len() == 0,
            page.wf(),
            page.keymap.entries@.len() == 0,
    {
        Settings {
            show: false,
            mode: InputMode::default(),
            confirm: Input::default(),
            username: Input::default(),
            bio: Input::default(),
            config: conf,
            options: StatefulList::with_items(Items::all()),
            selected_option: None,
            action_tx: None,
            keymap: Keymap::new(),
            area: Rect::default(),
            areas: Vec::new(),
        }
    }

    pub fn keymap(self, keymap: Keymap) -> (page: Settings)
        ensures
            page == (Settings { keymap, ..self }),
    {
        Settings { keymap, ..self }
    }

    pub fn register_action_handler(&mut self, tx: ActionSender)
        ensures
            *final(self) == (Settings { action_tx: Some(tx), ..*old(self) }),
    {
        self.action_tx = Some(tx);
    }

    pub fn default_mode(&self) -> (mode: InputMode)
        ensures
            mode == InputMode::Normal,
    {
        InputMode::Normal
    }

    pub fn current_mode(&self) -> (mode: InputMode)
        ensures
            mode == self.mode,
    {
        self.mode
    }

    /// Takes `area` and cuts three rows out of it, inside a vertical
    /// margin of one: for the title, the steps and the pane of the step.
    pub fn register_layout_handler(&mut self, area: Rect)
        ensures
            final(self).area == area,
            final(self).areas@.len() == 3,
            split_holds(Direction::Vertical, 3, 0, 1, area, final(self).areas@),
            *final(self) == (Settings { area, areas: final(self).areas, ..*old(self) }),
    {
        self.area = area;
        self.areas = Layout::vertical(
            vec![Sizing::Length(1), Sizing::Length(3), Sizing::Length(1)],
        ).flex(Slack::Center).vertical_margin(1).split(area);
    }

    /// The page takes no pointer events.
    pub fn handle_mouse_events(&mut self, mouse: MouseEvent) -> (action: Option<Action>)
        ensures
            action.is_none(),
            *final(self) == *old(self),
    {
        None
    }

    /// Takes a key, as a page of options does; a key that is typed in
    /// the list goes to the input of the confirmation.
    pub fn handle_key_events(&mut self, key: KeyEvent) -> (action: Option<Action>)
        requires
            old(self).wf(),
        ensures
            final(self).wf(),
            action == option_key_action(old(self).mode, old(self).keymap, key),
            final(self).mode == if old(self).mode == InputMode::OptionInput
                && key.code is Backspace {
                InputMode::Normal
            } else {
                old(self).mode
            },
            (final(self).confirm.value@, final(self).confirm.cursor as nat) == if option_key_typed(
                old(self).mode,
                key,
            ) {
                old(self).confirm.after_key(key)
            } else {
                (old(self).confirm.value@, old(self).confirm.cursor as nat)
            },
            *final(self) == (Settings {
                mode: final(self).mode,
                confirm: final(self).confirm,
                ..*old(self)
            }),
    {
        match self.mode {
            InputMode::Normal => match key.code {
                KeyCode::Esc => Some(Action::EnterNormal),
                KeyCode::Enter => Some(Action::SelectOption),
                _ => {
                    self.confirm.handle_event(&key);
                    Some(Action::Update)
                },
            },
            InputMode::OptionInput => match key.code {
                KeyCode::Esc => Some(Action::EnterNormal),
                KeyCode::Backspace => {
                    self.mode = InputMode::Normal;
                    Some(Action::Update)
                },
                KeyCode::Enter => Some(Action::SelectOption),
                _ => match self.keymap.get(&key) {
                    Some(action) => Some(action.clone()),
                    None => None,
                },
            },
            _ => None,
        }
    }

    /// Reacts to `action`: leaving goes back to the list without a
    /// step; selecting takes the step that the list points at; forward
    /// and back move round the list while no step is taken.
    pub fn update(&mut self, action: Action, ctx: &Ctx) -> (follow_up: Option<Action>)
        ensures
            follow_up.is_none(),
            final(self).mode == if action is EnterNormal {
                InputMode::Normal
            } else {
                old(self).mode
            },
            final(self).selected_option == match action {
                Action::EnterNormal => None,
                Action::SelectOption => old(self).pointed(),
                _ => old(self).selected_option,
            },
            final(self).options.items == old(self).options.items,
            final(self).options.state.offset == if old(self).selected_option.is_none() && (action is Forward || action is Back)
                && final(self).options.state.selected.is_none() {
                0
            } else {
                old(self).options.state.offset
            },
            final(self).options.state.selected == if old(self).selected_option.is_none() {
                match action {
                    Action::Forward => next_index(
                        old(self).options.state.selected,
                        old(self).options.items@.len(),
                    ),
                    Action::Back => previous_index(
                        old(self).options.state.selected,
                        old(self).options.items@.len(),
                    ),
                    _ => old(self).options.state.selected,
                }
            } else {
                old(self).options.state.selected
            },
            final(self).show == old(self).show,
            final(self).confirm == old(self).confirm,
            final(self).username == old(self).username,
            final(self).bio == old(self).bio,
            final(self).action_tx == old(self).action_tx,
            final(self).keymap == old(self).keymap,
            final(self).config == old(self).config,
            final(self).area == old(self).area,
            final(self).areas == old(self).areas,
    {
        match action {
            Action::EnterNormal => {
                self.mode = InputMode::Normal;
                self.selected_option = None;
            },
            Action::SelectOption => {
                self.selected_option = match self.options.selected_item() {
                    Some(step) => Some(*step),
                    None => None,
                };
            },
            Action::Forward => {
                if self.selected_option.is_none() {
                    self.options.next();
                }
            },
            Action::Back => {
                if self.selected_option.is_none() {
                    self.options.previous();
                }
            },
            _ => {},
        }
        None
    }

    /// Draws the pane of the biography.
    pub fn draw_bio(&self, f: &mut Frame, area: Rect)
        ensures
            final(f).area == old(f).area,
            final(f).cursor == old(f).cursor,
            final(f).ops@.len() == old(f).ops@.len() + 1,
            final(f).ops@.drop_last() == old(f).ops@,
            row_of(area, final(f).ops@.last().area),
            final(f).ops@.last().widget matches Widget::Paragraph(p) && p.lines@.len() == 1
                && p.lines@[0].text()
                == "For support, please visit our website or contact us via email."@,
    {
        let content_area = Layout::vertical(vec![Sizing::Min(1)]).single(area);
        let mut lines: Vec<Line> = Vec::new();
        lines.push(Line::plain("For support, please visit our website or contact us via email."));
        let content_block = Paragraph::new(lines).block(
            Block::new().borders(BORDER_RIGHT).border_style(Style::new()),
        );
        f.render_widget(Widget::Paragraph(content_block), content_area);
        assert(final(f).ops@.drop_last() =~= old(f).ops@);
    }

    /// Draws the page: the pane of the biography where the list points
    /// at it, and a cleared pane where the list points at nothing. The
    /// other steps have empty panes.
    /// Before a layout pass has cached the areas, nothing is drawn.
    pub fn draw(&self, f: &mut Frame)
        ensures
            final(f).area == old(f).area,
            !self.laid_out() ==> final(f).ops@ == old(f).ops@ && final(f).cursor == old(f).cursor,
            self.laid_out() ==> ({
                &&& final(f).cursor == old(f).cursor
                &&& ({
                    let ops = final(f).ops@;
                    let n = old(f).ops@.len() as int;
                    if self.options.state.selected.is_none() {
                        ops.len() == n + 1 && ops.drop_last() == old(f).ops@ && ops[n].widget is Clear
                            && ops[n].area == self.areas@[2]
                    } else if self.pointed() == Some(Items::Bio) {
                        ops.len() == n + 1 && ops.drop_last() == old(f).ops@ && row_of(
                            self.areas@[2],
                            ops[n].area,
                        )
                    } else {
                        ops == old(f).ops@
                    }
                })
            }),
    {
        if !(self.areas.len() >= 3) {
            return ;
        }
        match self.options.state.selected() {
            Some(index) => {
                if index < self.options.items.len() {
                    match self.options.items[index] {
                        Items::Bio => self.draw_bio(f, self.areas[2]),
                        _ => {},
                    }
                }
            },
            None => {
                f.render_widget(Widget::Clear, self.areas[2]);
                assert(final(f).ops@.drop_last() =~= old(f).ops@);
            },
        }
    }
}

} // verus!
