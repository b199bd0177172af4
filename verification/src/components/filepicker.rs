//! The list of a directory, in which a file is picked.

use vstd::prelude::*;
use crate::action::{navigable_modes, Action, InputMode, Mode};
use crate::component::{emit, handed, ActionSender, Ctx, Keymap, Outgoing};
use crate::conf::AppConfiguration;
use crate::directory::{
    dotted, lemma_listed_weighs_less, listed, DirectoryRead, DirectorySearch, FileEntry,
};
use crate::keys::{KeyCode, KeyEvent, MouseButton, MouseEvent, MouseEventKind};
use crate::layout::{
    bordered_inner, cut_from, cut_through, cut_twice, inner_of_bordered, strip, Direction, Layout,
    Position, Rect, Sizing, Slack,
};
use crate::list::{next_index, previous_index, ListState, StatefulList};
use crate::render::{
    Alignment, Block, Color, Frame, Line, List, ListItem, Style, Widget, BORDER_RIGHT,
};
use crate::text::{chars_of, push_str, string_from};

verus! {

/// The toast that tells that the selected entry is no directory.
pub open spec fn is_no_directory_toast(action: Action) -> bool {
    action matches Action::Toast(title, body) && title@ == "Error"@ && body@
        == "Selected item is not a directory"@
}

/// The row of `file` in the list: a folder sign or two blanks, then the
/// name.
pub open spec fn row_text(file: FileEntry) -> Seq<char> {
    (if file.is_dir {
        "🖿 "@
    } else {
        "  "@
    }) + file.name@
}

/// A row shows: hidden entries show on demand, and the way up always.
pub open spec fn row_shows(file: FileEntry, hidden: bool) -> bool {
    hidden || file.name@ == ".."@ || !dotted(file.name@)
}

/// The texts of the rows that show of `files`, in their order.
pub open spec fn row_texts(files: Seq<FileEntry>, hidden: bool) -> Seq<Seq<char>>
    decreases files.len(),
{
    if files.len() == 0 {
        Seq::<Seq<char>>::empty()
    } else {
        let rest = row_texts(files.drop_last(), hidden);
        if row_shows(files.last(), hidden) {
            rest.push(row_text(files.last()))
        } else {
            rest
        }
    }
}

pub struct Filepicker {
    pub hidden: bool,
    pub directory: String,
    pub files: StatefulList<FileEntry>,
    pub action_tx: Option<ActionSender>,
    pub keymap: Keymap,
    pub restrictions: Vec<String>,
    pub mouse: Option<MouseEvent>,
    pub config: Option<AppConfiguration>,
    pub show: bool,
    pub popup: bool,
    pub area: Rect,
    pub areas: Vec<Rect>,
}

impl Filepicker {
    /// The picker lists `read`, with its first row selected.
    pub open spec fn lists(&self, read: DirectoryRead, hidden: bool) -> bool {
        &&& self.directory == read.path
        &&& self.files.items@.len() == listed(read.entries@, hidden).len() + 1
        &&& crate::directory::is_parent_entry(
            self.files.items@[0],
            read.parent,
            listed(read.entries@, hidden),
        )
        &&& self.files.items@.subrange(1, self.files.items@.len() as int) == listed(
            read.entries@,
            hidden,
        )
    }

    /// The entry that is selected; without a selection, the first one.
    pub open spec fn selected_entry(&self) -> Option<FileEntry> {
        let index = match self.files.state.selected {
            Some(i) => i as int,
            None => 0,
        };
        if index < self.files.items@.len() {
            Some(self.files.items@[index])
        } else {
            None
        }
    }

    /// The selected entry is a directory.
    pub open spec fn on_directory(&self) -> bool {
        self.selected_entry() matches Some(entry) && entry.is_dir
    }

    /// A picker on the directory that `read` was read from. A picker
    /// that is a popup starts hidden. Entries that begin with a dot do
    /// not show.
    pub fn new(popup: bool, restrict: Option<Vec<String>>, read: DirectoryRead) -> (picker: Filepicker)
        requires
            read.wf(),
        ensures
            picker.lists(read, false),
            picker.files.state == (ListState { offset: 0, selected: None }),
            !picker.hidden,
            picker.popup == popup,
            picker.show == !popup,
            picker.action_tx.is_none(),
            picker.mouse.is_none(),
            picker.config.is_none(),
            picker.area == Rect::zero(),
            picker.areas@.len() == 0,
            match restrict {
                Some(list) => picker.restrictions == list,
                None => picker.restrictions@.len() == 0,
            },
            picker.keymap.entries@.len() == 0,
    {
        let restrictions = match restrict {
            Some(list) => list,
            None => Vec::new(),
        };
        proof {
            lemma_listed_weighs_less(read.entries@, false);
        }
        let items = DirectorySearch::open_directory(read.parent, &read.entries, false);
        Filepicker {
            files: StatefulList::with_items(items),
            config: None,
            directory: read.path,
            restrictions,
            hidden: false,
            popup,
            show: !popup,
            action_tx: None,
            keymap: Keymap::new(),
            mouse: None,
            area: Rect::default(),
            areas: Vec::new(),
        }
    }

    pub fn keymap(self, keymap: Keymap) -> (picker: Filepicker)
        ensures
            picker == (Filepicker { keymap, ..self }),
    {
        Filepicker { keymap, ..self }
    }

    /// The place of a picker that pops up in `area`, as the layout
    /// solver cuts it: a fifth of the columns and half of the rows, in
    /// the middle.
    pub fn popup_area(area: Rect) -> (place: Rect)
        ensures
            cut_twice(Direction::Horizontal, (0, 0), (0, 2), area, place),
            cut_from(area, place),
    {
        let vertical = Layout::vertical(vec![Sizing::Percentage(50)]).flex(
            Slack::Center,
        ).vertical_margin(2);
        let horizontal = Layout::horizontal(vec![Sizing::Percentage(20)]).flex(Slack::Center);
        let columns = horizontal.single(area);
        let place = vertical.single(columns);
        assert(cut_through(Direction::Horizontal, (0, 0), (0, 2), area, columns, place));
        place
    }

    /// Lists the directory that `read` was read from, and selects the
    /// first row.
    pub fn load_files(&mut self, read: DirectoryRead)
        requires
            read.wf(),
        ensures
            final(self).lists(read, old(self).hidden),
            final(self).files.state == (ListState { offset: 0, selected: Some(0usize) }),
            final(self).hidden == old(self).hidden,
            final(self).action_tx == old(self).action_tx,
            final(self).keymap == old(self).keymap,
            final(self).restrictions == old(self).restrictions,
            final(self).mouse == old(self).mouse,
            final(self).config == old(self).config,
            final(self).show == old(self).show,
            final(self).popup == old(self).popup,
            final(self).area == old(self).area,
            final(self).areas == old(self).areas,
    {
        proof {
            lemma_listed_weighs_less(read.entries@, self.hidden);
        }
        let items = DirectorySearch::open_directory(read.parent, &read.entries, self.hidden);
        self.files = StatefulList::with_items(items);
        self.directory = read.path;
        self.files.state.select(Some(0));
    }

    /// The directory that `load_selected` lists next: the selected
    /// entry, where it is a directory.
    pub fn selected_directory(&self) -> (path: Option<String>)
        ensures
            match path {
                Some(p) => self.on_directory() && p == self.selected_entry()->0.path,
                None => !self.on_directory(),
            },
    {
        let index = match self.files.state.selected() {
            Some(i) => i,
            None => 0,
        };
        if index < self.files.items.len() && self.files.items[index].is_dir {
            Some(self.files.items[index].path.clone())
        } else {
            None
        }
    }

    /// Enters the selected entry: a directory is listed from what was
    /// read of it, and anything else is answered by a toast.
    pub fn load_selected(&mut self, read: Option<DirectoryRead>)
        requires
            read matches Some(r) ==> r.wf(),
        ensures
            final(self).hidden == old(self).hidden,
            final(self).keymap == old(self).keymap,
            final(self).restrictions == old(self).restrictions,
            final(self).mouse == old(self).mouse,
            final(self).config == old(self).config,
            final(self).show == old(self).show,
            final(self).popup == old(self).popup,
            final(self).area == old(self).area,
            final(self).areas == old(self).areas,
            if old(self).on_directory() {
                &&& final(self).action_tx == old(self).action_tx
                &&& match read {
                    Some(r) => final(self).lists(r, old(self).hidden)
                        && final(self).files.state == (ListState { offset: 0, selected: Some(0usize) }),
                    None => final(self).files == old(self).files && final(self).directory == old(self).directory,
                }
            } else {
                &&& final(self).files == old(self).files
                &&& final(self).directory == old(self).directory
                &&& exists|toast: Action| #[trigger]
                    handed(
                        old(self).action_tx,
                        final(self).action_tx,
                        seq![Outgoing::Send(toast)],
                    ) && is_no_directory_toast(toast)
            },
    {
        if self.selected_directory().is_some() {
            if let Some(r) = read {
                self.load_files(r);
            }
        } else {
            let toast = Action::Toast(
                String::from_str("Error"),
                String::from_str("Selected item is not a directory"),
            );
            emit(&mut self.action_tx, toast);
            assert(handed(old(self).action_tx, self.action_tx, seq![Outgoing::Send(toast)]));
        }
    }

    /// Takes its place among the popups of `area`, as
    /// `register_layout_handler` takes `area` itself.
    pub fn register_popup_layout_handler(&mut self, area: Rect)
        ensures
            cut_twice(Direction::Horizontal, (0, 0), (0, 2), area, final(self).area),
            cut_from(area, final(self).area),
            final(self).areas@.len() == 2,
            strip(Direction::Vertical, 0, 0, final(self).area, final(self).areas@[0]),
            final(self).areas@[1] == bordered_inner(final(self).areas@[0]),
            final(self).hidden == old(self).hidden,
            final(self).directory == old(self).directory,
            final(self).files == old(self).files,
            final(self).action_tx == old(self).action_tx,
            final(self).keymap == old(self).keymap,
            final(self).restrictions == old(self).restrictions,
            final(self).mouse == old(self).mouse,
            final(self).config == old(self).config,
            final(self).show == old(self).show,
            final(self).popup == old(self).popup,
    {
        self.area = Filepicker::popup_area(area);
        let layout = Layout::vertical(vec![Sizing::Min(1)]);
        let bottom_area = layout.single(self.area);
        let content_area = inner_of_bordered(bottom_area);
        self.areas = vec![bottom_area, content_area];
    }

    pub fn current_mode(&self) -> (mode: InputMode)
        ensures
            mode == InputMode::Normal,
    {
        InputMode::Normal
    }

    pub fn register_action_handler(&mut self, tx: ActionSender)
        ensures
            *final(self) == (Filepicker { action_tx: Some(tx), ..*old(self) }),
    {
        self.action_tx = Some(tx);
    }

    pub fn register_config_handler(&mut self, config: AppConfiguration)
        ensures
            *final(self) == (Filepicker { config: Some(config), ..*old(self) }),
    {
        self.config = Some(config);
    }

    /// Takes `area`: a strip of it holds the title, and what lies
    /// inside a border of that strip holds the list.
    pub fn register_layout_handler(&mut self, area: Rect)
        ensures
            final(self).area == area,
            final(self).areas@.len() == 2,
            strip(Direction::Vertical, 0, 0, area, final(self).areas@[0]),
            final(self).areas@[0].x == area.x,
            final(self).areas@[0].width == area.width,
            final(self).areas@[1] == bordered_inner(final(self).areas@[0]),
            final(self).hidden == old(self).hidden,
            final(self).directory == old(self).directory,
            final(self).files == old(self).files,
            final(self).action_tx == old(self).action_tx,
            final(self).keymap == old(self).keymap,
            final(self).restrictions == old(self).restrictions,
            final(self).mouse == old(self).mouse,
            final(self).config == old(self).config,
            final(self).show == old(self).show,
            final(self).popup == old(self).popup,
    {
        self.area = area;
        let layout = Layout::vertical(vec![Sizing::Min(1)]);
        let bottom_area = layout.single(self.area);
        let content_area = inner_of_bordered(bottom_area);
        self.areas = vec![bottom_area, content_area];
    }

    /// The last of the first `n` areas that holds `at` and stands for a
    /// page.
    pub open spec fn released_on(areas: Seq<Rect>, at: Position, n: int) -> Option<usize>
        decreases n,
    {
        if n <= 0 {
            None
        } else if areas[n - 1].spec_contains(at) && n - 1 < navigable_modes().len() {
            Some((n - 1) as usize)
        } else {
            Filepicker::released_on(areas, at, n - 1)
        }
    }

    /// What the first `n` areas send when the left button is released
    /// at `at`: every area that holds the point asks for the page of
    /// its number.
    pub open spec fn release_sends(areas: Seq<Rect>, at: Position, n: int) -> Seq<Outgoing>
        decreases n,
    {
        if n <= 0 {
            Seq::<Outgoing>::empty()
        } else {
            let before = Filepicker::release_sends(areas, at, n - 1);
            if areas[n - 1].spec_contains(at) && n - 1 < navigable_modes().len() {
                before.push(Outgoing::Send(Action::ChangeMode(navigable_modes()[n - 1])))
            } else {
                before
            }
        }
    }

    /// Reacts to the pointer event that was noted last: releasing the
    /// left button over an area of the picker selects the row of its
    /// number and asks for the page of that number.
    pub fn handle_mouse_events(&mut self, mouse: MouseEvent) -> (action: Option<Action>)
        ensures
            action.is_none(),
            final(self).hidden == old(self).hidden,
            final(self).directory == old(self).directory,
            final(self).files.items == old(self).files.items,
            final(self).keymap == old(self).keymap,
            final(self).restrictions == old(self).restrictions,
            final(self).mouse == old(self).mouse,
            final(self).config == old(self).config,
            final(self).show == old(self).show,
            final(self).popup == old(self).popup,
            final(self).area == old(self).area,
            final(self).areas == old(self).areas,
            match old(self).mouse {
                Some(seen) => if seen.kind == MouseEventKind::Up(MouseButton::Left) {
                    let at = Position { x: seen.column, y: seen.row };
                    let n = old(self).areas@.len() as int;
                    &&& final(self).files.state.offset == old(self).files.state.offset
                    &&& final(self).files.state.selected == match Filepicker::released_on(
                        old(self).areas@,
                        at,
                        n,
                    ) {
                        Some(i) => Some(i),
                        None => old(self).files.state.selected,
                    }
                    &&& handed(
                        old(self).action_tx,
                        final(self).action_tx,
                        Filepicker::release_sends(old(self).areas@, at, n),
                    )
                } else {
                    final(self).files.state == old(self).files.state && final(self).action_tx
                        == old(self).action_tx
                },
                None => final(self).files.state == old(self).files.state && final(self).action_tx
                    == old(self).action_tx,
            },
    {
        let seen = match self.mouse {
            Some(seen) => seen,
            None => {
                return None;
            },
        };
        if seen.kind != MouseEventKind::Up(MouseButton::Left) {
            return None;
        }
        let at = Position::new(seen.column, seen.row);
        let modes = Mode::all();
        let ghost mut sent: Seq<Outgoing> = Seq::empty();
        proof {
            if old(self).action_tx.is_some() {
                assert(old(self).action_tx->0.queue@ + sent =~= old(self).action_tx->0.queue@);
            }
        }
        let mut i: usize = 0;
        while i < self.areas.len()
            invariant
                i <= self.areas@.len(),
                modes@ == navigable_modes(),
                self.hidden == old(self).hidden,
                self.directory == old(self).directory,
                self.files.items == old(self).files.items,
                self.files.state.offset == old(self).files.state.offset,
                self.keymap == old(self).keymap,
                self.restrictions == old(self).restrictions,
                self.mouse == old(self).mouse,
                self.config == old(self).config,
                self.show == old(self).show,
                self.popup == old(self).popup,
                self.area == old(self).area,
                self.areas == old(self).areas,
                sent == Filepicker::release_sends(old(self).areas@, at, i as int),
                handed(old(self).action_tx, self.action_tx, sent),
                self.files.state.selected == match Filepicker::released_on(
                    old(self).areas@,
                    at,
                    i as int,
                ) {
                    Some(k) => Some(k),
                    None => old(self).files.state.selected,
                },
            decreases self.areas@.len() - i,
        {
            if self.areas[i].contains(at) && i < modes.len() {
                self.files.state.select(Some(i));
                let ghost before = self.action_tx;
                emit(&mut self.action_tx, Action::ChangeMode(modes[i]));
                proof {
                    let more = Outgoing::Send(Action::ChangeMode(modes@[i as int]));
                    if before.is_some() {
                        assert(self.action_tx->0.queue@ =~= old(self).action_tx->0.queue@ + sent.push(
                            more,
                        ));
                    }
                    sent = sent.push(more);
                }
            }
            i += 1;
        }
        None
    }

    /// The directory that has to be read before `key` is handled: the
    /// one that is listed, for the key that toggles the hidden entries;
    /// the selected one, for the enter key on a directory; and none for
    /// any other key.
    pub open spec fn wants(&self, key: KeyEvent) -> Option<String> {
        match key.code {
            KeyCode::Char(c) => if c == '.' {
                Some(self.directory)
            } else {
                None
            },
            KeyCode::Enter => if self.on_directory() {
                Some(self.selected_entry()->0.path)
            } else {
                None
            },
            _ => None,
        }
    }

    /// The directory that has to be read before `key` is handled.
    pub fn wanted_directory(&self, key: &KeyEvent) -> (path: Option<String>)
        ensures
            path == self.wants(*key),
    {
        match key.code {
            KeyCode::Char('.') => Some(self.directory.clone()),
            KeyCode::Enter => self.selected_directory(),
            _ => None,
        }
    }

    /// What a key leads to.
    pub open spec fn key_action(key: KeyEvent) -> Option<Action> {
        match key.code {
            KeyCode::Char(c) => if c == '.' {
                Some(Action::Update)
            } else {
                None
            },
            KeyCode::Esc | KeyCode::Enter => Some(Action::Update),
            _ => None,
        }
    }

    /// The picker is what `before` becomes by `key`, with `read` as what
    /// was read of the directory that the key wanted.
    pub open spec fn keyed(&self, before: Filepicker, key: KeyEvent, read: Option<DirectoryRead>) -> bool {
        let lists_anew = |hidden: bool|
            match read {
                Some(r) => self.lists(r, hidden) && self.files.state.selected == Some(0usize),
                None => self.files == before.files && self.directory == before.directory,
            };
        &&& self.hidden == if key.code == KeyCode::Char('.') {
            !before.hidden
        } else {
            before.hidden
        }
        &&& self.show == (before.show && !(key.code is Esc))
        &&& self.keymap == before.keymap
        &&& self.restrictions == before.restrictions
        &&& self.mouse == before.mouse
        &&& self.config == before.config
        &&& self.popup == before.popup
        &&& self.area == before.area
        &&& self.areas == before.areas
        &&& if key.code == KeyCode::Char('.') {
            self.action_tx == before.action_tx && lists_anew(!before.hidden)
        } else if key.code is Enter && before.on_directory() {
            self.action_tx == before.action_tx && lists_anew(before.hidden)
        } else if key.code is Enter {
            &&& self.files == before.files
            &&& self.directory == before.directory
            &&& exists|toast: Action| #[trigger]
                handed(before.action_tx, self.action_tx, seq![Outgoing::Send(toast)])
                    && is_no_directory_toast(toast)
        } else {
            &&& self.files == before.files
            &&& self.directory == before.directory
            &&& self.action_tx == before.action_tx
        }
    }

    /// Takes a key, with what was read of the directory it named as
    /// wanted. The dot shows or hides the hidden entries and lists the
    /// directory anew; escape hides the picker; the enter key enters
    /// the selected entry. Each of them asks for an update, and no
    /// other key does anything.
    pub fn handle_key_events(&mut self, key: KeyEvent, read: Option<DirectoryRead>) -> (action:
        Option<Action>)
        requires
            read matches Some(r) ==> r.wf(),
        ensures
            action == Filepicker::key_action(key),
            final(self).keyed(*old(self), key, read),
    {
        match key.code {
            KeyCode::Char('.') => {
                self.hidden = !self.hidden;
                if let Some(r) = read {
                    self.load_files(r);
                }
                Some(Action::Update)
            },
            KeyCode::Esc => {
                self.show = false;
                Some(Action::Update)
            },
            KeyCode::Enter => {
                self.load_selected(read);
                Some(Action::Update)
            },
            _ => None,
        }
    }

    /// The picker is what `before` becomes by `action`.
    pub open spec fn updated(&self, before: Filepicker, action: Action) -> bool {
        &&& self.files.items == before.files.items
        &&& self.files.state.selected == match action {
            Action::Forward => next_index(before.files.state.selected, before.files.items@.len()),
            Action::Back => previous_index(
                before.files.state.selected,
                before.files.items@.len(),
            ),
            _ => before.files.state.selected,
        }
        &&& self.show == if action is OpenFilepicker && before.popup {
            !before.show
        } else {
            before.show
        }
        &&& self.hidden == before.hidden
        &&& self.directory == before.directory
        &&& self.action_tx == before.action_tx
        &&& self.keymap == before.keymap
        &&& self.restrictions == before.restrictions
        &&& self.mouse == before.mouse
        &&& self.config == before.config
        &&& self.popup == before.popup
        &&& self.area == before.area
        &&& self.areas == before.areas
    }

    /// Reacts to `action`: forward and back move the selection round
    /// the list, and a picker that pops up shows or hides when it is
    /// asked for.
    pub fn update(&mut self, action: Action, ctx: &Ctx) -> (follow_up: Option<Action>)
        ensures
            follow_up.is_none(),
            final(self).updated(*old(self), action),
    {
        match action {
            Action::Forward => self.files.next(),
            Action::OpenFilepicker => {
                if self.popup {
                    self.show = !self.show;
                }
            },
            Action::Back => self.files.previous(),
            _ => {},
        }
        None
    }

    fn rows(&self) -> (rows: Vec<ListItem>)
        ensures
            rows@.len() == row_texts(self.files.items@, self.hidden).len(),
            forall|i: int|
                0 <= i < rows@.len() ==> (#[trigger] rows@[i]).line.text() == row_texts(
                    self.files.items@,
                    self.hidden,
                )[i],
    {
        let mut rows: Vec<ListItem> = Vec::new();
        let mut i: usize = 0;
        while i < self.files.items.len()
            invariant
                i <= self.files.items@.len(),
                rows@.len() == row_texts(self.files.items@.subrange(0, i as int), self.hidden).len(),
                forall|k: int|
                    0 <= k < rows@.len() ==> (#[trigger] rows@[k]).line.text() == row_texts(
                        self.files.items@.subrange(0, i as int),
                        self.hidden,
                    )[k],
            decreases self.files.items@.len() - i,
        {
            let file = &self.files.items[i];
            let name = chars_of(file.name.as_str());
            let dot = name.len() > 0 && name[0] == '.';
            let up = name.len() == 2 && name[0] == '.' && name[1] == '.';
            proof {
                reveal_strlit("..");
                assert(up == (name@ =~= ".."@));
                assert(self.files.items@.subrange(0, i + 1).drop_last() =~= self.files.items@.subrange(
                    0,
                    i as int,
                ));
            }
            if self.hidden || up || !dot {
                let mut text: Vec<char> = Vec::new();
                if file.is_dir {
                    push_str(&mut text, "🖿 ");
                } else {
                    push_str(&mut text, "  ");
                }
                push_str(&mut text, file.name.as_str());
                let style = if dot {
                    Style::new().fg(Color::DarkGray)
                } else {
                    Style::new()
                };
                assert(text@ =~= row_text(*file));
                rows.push(ListItem { line: Line::raw(string_from(&text)), style });
            }
            i += 1;
        }
        assert(self.files.items@.subrange(0, i as int) =~= self.files.items@);
        rows
    }

    /// The picker has the areas that drawing needs: a layout pass has
    /// cached them.
    pub open spec fn laid_out(&self) -> bool {
        self.areas@.len() >= 2
    }

    /// `ops` is `before` with what the picker draws behind it: nothing
    /// for a popup that is hidden, and nothing before a layout pass.
    pub open spec fn drawn(&self, before: Seq<crate::render::DrawOp>, ops: Seq<
        crate::render::DrawOp,
    >) -> bool {
        if self.popup && !self.show || !self.laid_out() {
            ops == before
        } else {
            let n = before.len() as int;
            &&& ops.len() == n + 4
            &&& ops.subrange(0, n) == before
            &&& ops[n].widget is Clear
            &&& ops[n].area == self.area
            &&& ops[n + 1].widget matches Widget::Block(b) && b.titles@.len() == 1
                && b.titles@[0].line.text() == self.directory@
            &&& ops[n + 2].widget matches Widget::Block(b) && b.titles@.len() == 1
                && b.titles@[0].line.text() == (if self.hidden {
                "◉"@
            } else {
                "◎"@
            })
            &&& ops[n + 3].area == self.areas@[1]
            &&& ops[n + 3].widget matches Widget::List(list) && list.state == Some(
                self.files.state,
            ) && list.items@.len() == row_texts(self.files.items@, self.hidden).len()
                && forall|i: int|
                0 <= i < list.items@.len() ==> (#[trigger] list.items@[i]).line.text()
                    == row_texts(self.files.items@, self.hidden)[i]
        }
    }

    /// Draws the picker, unless it is a popup that is hidden: its area
    /// is cleared; then come the directory as title, the mark that
    /// tells whether hidden entries show, and the rows that show, with
    /// the selection. Before a layout pass has cached the areas,
    /// nothing is drawn.
    pub fn draw(&self, f: &mut Frame)
        ensures
            final(f).area == old(f).area,
            final(f).cursor == old(f).cursor,
            self.drawn(old(f).ops@, final(f).ops@),
    {
        if self.popup && !self.show || self.areas.len() < 2 {
            return ;
        }
        let title = Block::new().title_top(
            Line::raw(self.directory.clone()).aligned(Alignment::Left),
        ).style(Style::new().bg(Color::Black).fg(Color::White));
        let mark = if self.hidden {
            "◉"
        } else {
            "◎"
        };
        let status = Block::bordered().borders(BORDER_RIGHT).border_style(
            Style::new().fg(Color::Yellow),
        ).title_top(Line::raw(String::from_str(mark)).aligned(Alignment::Right)).style(
            Style::new().bg(Color::Black).fg(Color::White),
        );
        let horizontal = Layout::horizontal(vec![Sizing::Fill(1), Sizing::Length(3)]);
        let areas = horizontal.split(self.areas[0]);
        f.render_widget(Widget::Clear, self.area);
        let text = self.rows();
        let tasks = List::new(text).highlight_style(
            Style::new().bold().bg(Color::Yellow).fg(Color::Black),
        );
        f.render_widget(Widget::Block(title), areas[0]);
        f.render_widget(Widget::Block(status), areas[1]);
        f.render_stateful_widget(tasks, self.areas[1], &self.files.state);
        assert(final(f).ops@.subrange(0, old(f).ops@.len() as int) =~= old(f).ops@);
    }
}

} // verus!
