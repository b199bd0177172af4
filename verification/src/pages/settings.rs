//! The settings page: a list of options and the pane of the one that is
//! selected.

use vstd::prelude::*;
use crate::action::{Action, InputMode};
use crate::component::{ActionSender, Ctx, Keymap};
use crate::conf::AppConfiguration;
use crate::input::Input;
use crate::keys::{KeyCode, KeyEvent, MouseEvent};
use crate::layout::{column_of, row_of, strip, Direction, Layout, Rect, Sizing};
use crate::list::{next_index, previous_index, ListState, StatefulList};
use crate::render::{
    Block, Color, Frame, Line, List, ListItem, Paragraph, Style, Widget, BORDER_ALL,
    BORDER_RIGHT,
};
use crate::text::{push_str, string_from};

verus! {

#[derive(Debug, Clone, Copy, PartialEq, Eq, Structural)]
pub enum SubMenuOption {
    BackgroundColor,
    ForegroundColor,
    FontSize,
    FontFamily,
    // Account related options
    Privacy,
    AccountColor,
    Language,
    Notifications,
    // Help related options
    Faq,
    Support,
}

/// All options, in the order of the list.
pub open spec fn all_options() -> Seq<SubMenuOption> {
    seq![
        SubMenuOption::BackgroundColor,
        SubMenuOption::ForegroundColor,
        SubMenuOption::FontSize,
        SubMenuOption::FontFamily,
        SubMenuOption::Privacy,
        SubMenuOption::AccountColor,
        SubMenuOption::Language,
        SubMenuOption::Notifications,
        SubMenuOption::Faq,
        SubMenuOption::Support,
    ]
}

impl Default for SubMenuOption {
    fn default() -> (option: SubMenuOption)
        ensures
            option == SubMenuOption::BackgroundColor,
    {
        SubMenuOption::BackgroundColor
    }
}

impl SubMenuOption {
    /// The length of the longest name of an option.
    pub const LONGEST: u16 = 16;

    /// The name of the option as it is shown.
    pub open spec fn name(self) -> Seq<char> {
        match self {
            SubMenuOption::Privacy => "Privacy"@,
            SubMenuOption::AccountColor => "Account Color"@,
            SubMenuOption::BackgroundColor => "Background Color"@,
            SubMenuOption::ForegroundColor => "Foreground Color"@,
            SubMenuOption::FontSize => "Font Size"@,
            SubMenuOption::FontFamily => "Font Family"@,
            SubMenuOption::Language => "Language"@,
            SubMenuOption::Notifications => "Notifications"@,
            SubMenuOption::Faq => "FAQ"@,
            SubMenuOption::Support => "Support"@,
        }
    }

    pub fn label(&self) -> (name: &'static str)
        ensures
            name@ == self.name(),
    {
        match self {
            SubMenuOption::Privacy => "Privacy",
            SubMenuOption::AccountColor => "Account Color",
            SubMenuOption::BackgroundColor => "Background Color",
            SubMenuOption::ForegroundColor => "Foreground Color",
            SubMenuOption::FontSize => "Font Size",
            SubMenuOption::FontFamily => "Font Family",
            SubMenuOption::Language => "Language",
            SubMenuOption::Notifications => "Notifications",
            SubMenuOption::Faq => "FAQ",
            SubMenuOption::Support => "Support",
        }
    }

    /// All options, in the order of the list.
    pub fn all() -> (options: Vec<SubMenuOption>)
        ensures
            options@ == all_options(),
    {
        let options = vec![
            SubMenuOption::BackgroundColor,
            SubMenuOption::ForegroundColor,
            SubMenuOption::FontSize,
            SubMenuOption::FontFamily,
            SubMenuOption::Privacy,
            SubMenuOption::AccountColor,
            SubMenuOption::Language,
            SubMenuOption::Notifications,
            SubMenuOption::Faq,
            SubMenuOption::Support,
        ];
        assert(options@ =~= all_options());
        options
    }

    /// The options of the theme.
    pub fn theme() -> (options: Vec<SubMenuOption>)
        ensures
            options@ == all_options().subrange(0, 4),
    {
        let options = vec![
            SubMenuOption::BackgroundColor,
            SubMenuOption::ForegroundColor,
            SubMenuOption::FontSize,
            SubMenuOption::FontFamily,
        ];
        assert(options@ =~= all_options().subrange(0, 4));
        options
    }

    /// The options of the account.
    pub fn account() -> (options: Vec<SubMenuOption>)
        ensures
            options@ == all_options().subrange(4, 8),
    {
        let options = vec![
            SubMenuOption::Privacy,
            SubMenuOption::AccountColor,
            SubMenuOption::Language,
            SubMenuOption::Notifications,
        ];
        assert(options@ =~= all_options().subrange(4, 8));
        options
    }

    /// The options of the help.
    pub fn help() -> (options: Vec<SubMenuOption>)
        ensures
            options@ == all_options().subrange(8, 10),
    {
        let options = vec![SubMenuOption::Faq, SubMenuOption::Support];
        assert(options@ =~= all_options().subrange(8, 10));
        options
    }
}

/// No option has a longer name than the longest, and one has a name of
/// that length.
pub proof fn lemma_longest_name(option: SubMenuOption)
    ensures
        option.name().len() <= SubMenuOption::LONGEST,
        SubMenuOption::BackgroundColor.name().len() == SubMenuOption::LONGEST,
{
    reveal_strlit("Privacy");
    reveal_strlit("Account Color");
    reveal_strlit("Background Color");
    reveal_strlit("Foreground Color");
    reveal_strlit("Font Size");
    reveal_strlit("Font Family");
    reveal_strlit("Language");
    reveal_strlit("Notifications");
    reveal_strlit("FAQ");
    reveal_strlit("Support");
}

/// What a key leads to on a page of options. In the list, escape
/// leaves, the enter key selects, and every other key asks for an
/// update. In an option, escape leaves, backspace goes back to the list
/// and asks for an update, the enter key selects, and every other key
/// triggers what the key map binds it to.
pub open spec fn option_key_action(mode: InputMode, keymap: Keymap, key: KeyEvent) -> Option<
    Action,
> {
    match mode {
        InputMode::Normal => match key.code {
            KeyCode::Esc => Some(Action::EnterNormal),
            KeyCode::Enter => Some(Action::SelectOption),
            _ => Some(Action::Update),
        },
        InputMode::OptionInput => match key.code {
            KeyCode::Esc => Some(Action::EnterNormal),
            KeyCode::Backspace => Some(Action::Update),
            KeyCode::Enter => Some(Action::SelectOption),
            _ => keymap.lookup(key),
        },
        _ => None,
    }
}

/// The key goes to the input of the page.
pub open spec fn option_key_typed(mode: InputMode, key: KeyEvent) -> bool {
    mode == InputMode::Normal && !(key.code is Esc || key.code is Enter)
}

pub struct Settings {
    pub show: bool,
    pub mode: InputMode,
    pub input: Input,
    pub options: StatefulList<SubMenuOption>,
    pub selected_option: Option<SubMenuOption>,
    pub action_tx: Option<ActionSender>,
    pub keymap: Keymap,
    pub config: AppConfiguration,
    pub area: Rect,
    pub areas: Vec<Rect>,
}

impl Settings {
    /// The page has the areas that drawing needs: a layout pass has
    /// cached them.
    pub open spec fn laid_out(&self) -> bool {
        self.areas@.len() >= 3
    }

    pub open spec fn wf(&self) -> bool {
        self.input.wf()
    }

    /// The option that the list has selected.
    pub open spec fn pointed(&self) -> Option<SubMenuOption> {
        match self.options.state.selected {
            Some(i) => if i < self.options.items@.len() {
                Some(self.options.items@[i as int])
            } else {
                None
            },
            None => None,
        }
    }

    /// A page that lists all options, with none selected.
    pub fn new(conf: AppConfiguration) -> (page: Settings)
        ensures
            !page.show,
            page.mode == InputMode::Normal,
            page.input.value@.len() == 0,
            page.options.items@ == all_options(),
            page.options.state == (ListState { offset: 0, selected: None }),
            page.selected_option.is_none(),
            page.action_tx.is_none(),
            page.config == conf,
            page.area == Rect::zero(),
            page.areas@.len() == 0,
            page.wf(),
            page.keymap.entries@.len() == 0,
    {
        Settings {
            show: false,
            mode: InputMode::default(),
            input: Input::default(),
            config: conf,
            options: StatefulList::with_items(SubMenuOption::all()),
            selected_option: None,
            action_tx: None,
            keymap: Keymap::new(),
            area: Rect::default(),
            areas: Vec::new(),
        }
    }

    pub fn keymap(self, keymap: Keymap) -> (page: Settings)
        ensures
            page == (Settings { keymap, ..self }),
    {
        Settings { keymap, ..self }
    }

    pub fn register_action_handler(&mut self, tx: ActionSender)
        ensures
            *final(self) == (Settings { action_tx: Some(tx), ..*old(self) }),
    {
        self.action_tx = Some(tx);
    }

    pub fn default_mode(&self) -> (mode: InputMode)
        ensures
            mode == InputMode::Normal,
    {
        InputMode::Normal
    }

    pub fn current_mode(&self) -> (mode: InputMode)
        ensures
            mode == self.mode,
    {
        self.mode
    }

    /// Takes `area`: a strip of it is the main area; of that the list
    /// gets a column as wide as the longest name and three more, and
    /// the pane gets the rest.
    pub fn register_layout_handler(&mut self, area: Rect)
        ensures
            final(self).area == area,
            final(self).areas@.len() == 3,
            strip(Direction::Vertical, 0, 0, area, final(self).areas@[0]),
            strip(Direction::Horizontal, 0, 0, final(self).areas@[0], final(self).areas@[1]),
            strip(Direction::Horizontal, 0, 0, final(self).areas@[0], final(self).areas@[2]),
            row_of(area, final(self).areas@[0]),
            column_of(final(self).areas@[0], final(self).areas@[1]),
            column_of(final(self).areas@[0], final(self).areas@[2]),
            *final(self) == (Settings { area, areas: final(self).areas, ..*old(self) }),
    {
        self.area = area;
        let main_area = Layout::vertical(vec![Sizing::Min(1)]).single(area);
        let main_layout = Layout::horizontal(
            vec![Sizing::Length(SubMenuOption::LONGEST + 3), Sizing::Min(1)],
        ).vertical_margin(0);
        let parts = main_layout.split(main_area);
        self.areas = vec![main_area, parts[0], parts[1]];
    }

    /// The page takes no pointer events.
    pub fn handle_mouse_events(&mut self, mouse: MouseEvent) -> (action: Option<Action>)
        ensures
            action.is_none(),
            *final(self) == *old(self),
    {
        None
    }

    /// Takes a key, as a page of options does; a key that is typed in
    /// the list goes to the input.
    pub fn handle_key_events(&mut self, key: KeyEvent) -> (action: Option<Action>)
        requires
            old(self).wf(),
        ensures
            final(self).wf(),
            action == option_key_action(old(self).mode, old(self).keymap, key),
            final(self).mode == if old(self).mode == InputMode::OptionInput
                && key.code is Backspace {
                InputMode::Normal
            } else {
                old(self).mode
            },
            (final(self).input.value@, final(self).input.cursor as nat) == if option_key_typed(
                old(self).mode,
                key,
            ) {
                old(self).input.after_key(key)
            } else {
                (old(self).input.value@, old(self).input.cursor as nat)
            },
            *final(self) == (Settings {
                mode: final(self).mode,
                input: final(self).input,
                ..*old(self)
            }),
    {
        match self.mode {
            InputMode::Normal => match key.code {
                KeyCode::Esc => Some(Action::EnterNormal),
                KeyCode::Enter => Some(Action::SelectOption),
                _ => {
                    self.input.handle_event(&key);
                    Some(Action::Update)
                },
            },
            InputMode::OptionInput => match key.code {
                KeyCode::Esc => Some(Action::EnterNormal),
                KeyCode::Backspace => {
                    self.mode = InputMode::Normal;
                    Some(Action::Update)
                },
                KeyCode::Enter => Some(Action::SelectOption),
                _ => match self.keymap.get(&key) {
                    Some(action) => Some(action.clone()),
                    None => None,
                },
            },
            _ => None,
        }
    }

    /// Reacts to `action`: leaving goes back to the list without an
    /// option; selecting takes the option that the list points at;
    /// forward and back move round the list while no option is taken.
    pub fn update(&mut self, action: Action, ctx: &Ctx) -> (follow_up: Option<Action>)
        ensures
            follow_up.is_none(),
            final(self).mode == if action is EnterNormal {
                InputMode::Normal
            } else {
                old(self).mode
            },
            final(self).selected_option == match action {
                Action::EnterNormal => None,
                Action::SelectOption => old(self).pointed(),
                _ => old(self).selected_option,
            },
            final(self).options.items == old(self).options.items,
            final(self).options.state.offset == if old(self).selected_option.is_none() && (action is Forward || action is Back)
                && final(self).options.state.selected.is_none() {
                0
            } else {
                old(self).options.state.offset
            },
            final(self).options.state.selected == if old(self).selected_option.is_none() {
                match action {
                    Action::Forward => next_index(
                        old(self).options.state.selected,
                        old(self).options.items@.len(),
                    ),
                    Action::Back => previous_index(
                        old(self).options.state.selected,
                        old(self).options.items@.len(),
                    ),
                    _ => old(self).options.state.selected,
                }
            } else {
                old(self).options.state.selected
            },
            final(self).show == old(self).show,
            final(self).input == old(self).input,
            final(self).action_tx == old(self).action_tx,
            final(self).keymap == old(self).keymap,
            final(self).config == old(self).config,
            final(self).area == old(self).area,
            final(self).areas == old(self).areas,
    {
        match action {
            Action::EnterNormal => {
                self.mode = InputMode::Normal;
                self.selected_option = None;
            },
            Action::SelectOption => {
                self.selected_option = match self.options.selected_item() {
                    Some(option) => Some(*option),
                    None => None,
                };
            },
            Action::Forward => {
                if self.selected_option.is_none() {
                    self.options.next();
                }
            },
            Action::Back => {
                if self.selected_option.is_none() {
                    self.options.previous();
                }
            },
            _ => {},
        }
        None
    }

    fn rows(&self) -> (rows: Vec<ListItem>)
        ensures
            rows@.len() == self.options.items@.len(),
            forall|i: int|
                0 <= i < rows@.len() ==> (#[trigger] rows@[i]).line.text()
                    == self.options.items@[i].name(),
    {
        let mut rows: Vec<ListItem> = Vec::new();
        let mut i: usize = 0;
        while i < self.options.items.len()
            invariant
                i <= self.options.items@.len(),
                rows@.len() == i,
                forall|k: int|
                    0 <= k < i ==> (#[trigger] rows@[k]).line.text()
                        == self.options.items@[k].name(),
            decreases self.options.items@.len() - i,
        {
            rows.push(
                ListItem { line: Line::plain(self.options.items[i].label()), style: Style::new() },
            );
            i += 1;
        }
        rows
    }

    /// What the pane shows for `option`.
    pub open spec fn pane_text(option: SubMenuOption) -> Option<Seq<char>> {
        match option {
            SubMenuOption::Support => Some(
                "For support, please visit our website or contact us via email."@,
            ),
            SubMenuOption::Faq => None,
            _ => Some("You selected: "@ + option.name()),
        }
    }

    /// Draws the pane of the support.
    pub fn draw_support(&self, f: &mut Frame, area: Rect)
        ensures
            final(f).area == old(f).area,
            final(f).cursor == old(f).cursor,
            final(f).ops@.len() == old(f).ops@.len() + 1,
            final(f).ops@.drop_last() == old(f).ops@,
            row_of(area, final(f).ops@.last().area),
            final(f).ops@.last().widget matches Widget::Paragraph(p) && p.lines@.len() == 1
                && Some(p.lines@[0].text()) == Settings::pane_text(SubMenuOption::Support),
    {
        let content_area = Layout::vertical(vec![Sizing::Min(1)]).single(area);
        let mut lines: Vec<Line> = Vec::new();
        lines.push(Line::plain("For support, please visit our website or contact us via email."));
        let content_block = Paragraph::new(lines).block(
            Block::new().borders(BORDER_RIGHT).border_style(Style::new()),
        );
        f.render_widget(Widget::Paragraph(content_block), content_area);
        assert(final(f).ops@.drop_last() =~= old(f).ops@);
    }

    /// Draws the pane of the questions, which is empty.
    pub fn draw_faq(&self, f: &mut Frame, area: Rect)
        ensures
            *final(f) == *old(f),
    {
    }

    /// Draws the page: the pane of the option that the list points at,
    /// or a cleared pane where it points at none; then the main area
    /// and the list of options, with the selection.
    /// Before a layout pass has cached the areas, nothing is drawn.
    pub fn draw(&self, f: &mut Frame)
        ensures
            final(f).area == old(f).area,
            !self.laid_out() ==> final(f).ops@ == old(f).ops@ && final(f).cursor == old(f).cursor,
            self.laid_out() ==> ({
                &&& final(f).cursor == old(f).cursor
                &&& ({
                    let ops = final(f).ops@;
                    let n = old(f).ops@.len() as int;
                    let pane = if self.pointed() == Some(SubMenuOption::Faq)
                        || self.options.state.selected.is_some() && self.pointed().is_none() {
                        0int
                    } else {
                        1int
                    };
                    &&& ops.len() == n + pane + 2
                    &&& ops.subrange(0, n) == old(f).ops@
                    &&& match self.pointed() {
                        Some(option) => match Settings::pane_text(option) {
                            Some(text) => ops[n].widget matches Widget::Paragraph(p) && p.lines@.len()
                                == 1 && p.lines@[0].text() == text,
                            None => true,
                        },
                        None => self.options.state.selected.is_none() ==> ops[n].widget is Clear
                            && ops[n].area == self.areas@[2],
                    }
                    &&& ops[n + pane].widget is Block
                    &&& ops[n + pane].area == self.areas@[0]
                    &&& ops[n + pane + 1].area == self.areas@[1]
                    &&& ops[n + pane + 1].widget matches Widget::List(list) && list.state == Some(
                        self.options.state,
                    ) && list.items@.len() == self.options.items@.len() && forall|i: int|
                        0 <= i < list.items@.len() ==> (#[trigger] list.items@[i]).line.text()
                            == self.options.items@[i].name()
                })
            }),
    {
        if !(self.areas.len() >= 3) {
            return ;
        }
        let text = self.rows();
        let highlight = if self.selected_option.is_some() {
            Style::new().bold().bg(Color::Cyan).fg(Color::Black)
        } else {
            Style::new().bold().bg(Color::Yellow).fg(Color::White)
        };
        let options = List::new(text).highlight_style(highlight).block(
            Block::new().borders(BORDER_RIGHT).border_style(Style::new()),
        );
        match self.options.state.selected() {
            Some(index) => {
                if index < self.options.items.len() {
                    let selected = self.options.items[index];
                    match selected {
                        SubMenuOption::Support => self.draw_support(f, self.areas[2]),
                        SubMenuOption::Faq => self.draw_faq(f, self.areas[2]),
                        _ => {
                            let mut content: Vec<char> = Vec::new();
                            push_str(&mut content, "You selected: ");
                            push_str(&mut content, selected.label());
                            let mut lines: Vec<Line> = Vec::new();
                            lines.push(Line::raw(string_from(&content)));
                            let content_paragraph = Paragraph::new(lines).wrap().block(
                                Block::new().borders(BORDER_ALL).title_top(Line::plain("Details")),
                            );
                            f.render_widget(Widget::Paragraph(content_paragraph), self.areas[2]);
                        },
                    }
                }
            },
            None => {
                f.render_widget(Widget::Clear, self.areas[2]);
            },
        }
        let ghost mid = f.ops@;
        f.render_widget(Widget::Block(Block::new()), self.areas[0]);
        f.render_stateful_widget(options, self.areas[1], &self.options.state);
        proof {
            let n = old(f).ops@.len() as int;
            assert(mid.len() == n || mid.drop_last() =~= old(f).ops@);
            assert(final(f).ops@.subrange(0, n) =~= old(f).ops@);
        }
    }
}

} // verus!
