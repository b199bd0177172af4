//! The page that lists the settings files.

use vstd::prelude::*;
use crate::action::{Action, InputMode};
use crate::component::{ActionSender, Ctx, Keymap, Read};
use crate::conf::AppConfiguration;
use crate::directory::FileEntry;
use crate::error::Error;
use crate::input::Input;
use crate::keys::{KeyCode, KeyEvent, MouseEvent};
use crate::layout::Rect;
use crate::list::{next_index, previous_index, ListState, StatefulList};
use crate::pages::blog::{sidebar_layout, toggled_mode, Blog};
use crate::pages::posts::{
    configuration_error, file_in, is_configuration_error, markdown_posts, posts_directory,
    posts_of, posts_under,
};
use crate::render::{Color, Frame, List, Style, Widget};

verus! {

pub struct Setting {
    pub config: Option<AppConfiguration>,
    pub sidebar: bool,
    pub mode: InputMode,
    pub input: Input,
    pub files: StatefulList<FileEntry>,
    pub open_file: usize,
    pub action_tx: Option<ActionSender>,
    pub keymap: Keymap,
    pub area: Rect,
}

impl Setting {
    /// The file that selecting opens: the selected one.
    pub open spec fn selected_file(&self) -> Option<FileEntry> {
        match self.files.state.selected {
            Some(i) => if i < self.files.items@.len() {
                Some(self.files.items@[i as int])
            } else {
                None
            },
            None => None,
        }
    }

    /// A page without files, with the sidebar open and the keys on the
    /// list.
    pub fn new() -> (page: Setting)
        ensures
            page.config.is_none(),
            page.sidebar,
            page.mode == InputMode::Select,
            page.files.items@.len() == 0,
            page.files.state.selected.is_none(),
            page.open_file == 0,
            page.action_tx.is_none(),
            page.area == Rect::zero(),
            page.keymap.entries@.len() == 0,
            page.input.value@.len() == 0,
            page.input.cursor == 0,
    {
        Setting {
            config: None,
            sidebar: true,
            mode: InputMode::Select,
            action_tx: None,
            area: Rect::default(),
            open_file: 0,
            input: Input::default(),
            keymap: Keymap::new(),
            files: StatefulList::default(),
        }
    }

    pub fn keymap(self, keymap: Keymap) -> (page: Setting)
        ensures
            page == (Setting { keymap, ..self }),
    {
        Setting { keymap, ..self }
    }

    /// Takes the configuration and says which directory holds the
    /// files, so that it can be read for `generate_posts`.
    pub fn register_config_handler(&mut self, config: AppConfiguration) -> (directory: String)
        ensures
            *final(self) == (Setting { config: Some(config), ..*old(self) }),
            directory@ == posts_under(config.config.app_data_path@),
    {
        let mut path = crate::text::chars_of(config.config.app_data_path.as_str());
        crate::text::push_str(&mut path, "/posts/");
        self.config = Some(config);
        crate::text::string_from(&path)
    }

    /// Lists the markdown files among what was read of the directory,
    /// and selects the first. The result names the first file, which
    /// has to be read for `check_first_post`. A directory without such
    /// files is an error, as is one that could not be read.
    pub fn generate_posts(&mut self, read: Read<Vec<FileEntry>>) -> (r: Result<String, Error>)
        ensures
            match r {
                Ok(path) => {
                    &&& read matches Ok(entries)
                    &&& old(self).config matches Some(c)
                    &&& posts_of(entries@).len() > 0
                    &&& path@ == posts_under(c.config.app_data_path@) + "/"@ + posts_of(
                        entries@,
                    )[0].name@
                },
                Err(e) => match old(self).config {
                    None => is_configuration_error(
                        e,
                        "Configuration not set"@,
                        Seq::<char>::empty(),
                    ),
                    Some(_) => match read {
                        Err(why) => is_configuration_error(
                            e,
                            "Failed to read posts directory: "@,
                            why@,
                        ),
                        Ok(entries) => posts_of(entries@).len() == 0 && is_configuration_error(
                            e,
                            "No markdown files found"@,
                            Seq::<char>::empty(),
                        ),
                    },
                },
            },
            match (old(self).config, read) {
                (Some(_), Ok(entries)) => final(self).files.items@ == posts_of(entries@)
                    && final(self).files.state == (ListState { offset: 0, selected: Some(0usize) }),
                _ => final(self).files == old(self).files,
            },
            final(self).config == old(self).config,
            final(self).sidebar == old(self).sidebar,
            final(self).mode == old(self).mode,
            final(self).input == old(self).input,
            final(self).open_file == old(self).open_file,
            final(self).action_tx == old(self).action_tx,
            final(self).keymap == old(self).keymap,
            final(self).area == old(self).area,
    {
        let post_path = match posts_directory(&self.config) {
            Ok(path) => path,
            Err(e) => {
                return Err(e);
            },
        };
        let entries = match read {
            Ok(entries) => entries,
            Err(why) => {
                return Err(configuration_error("Failed to read posts directory: ", why.as_str()));
            },
        };
        let files = markdown_posts(&entries);
        let first = if files.len() > 0 {
            Some(file_in(post_path.as_str(), files[0].name.as_str()))
        } else {
            None
        };
        self.files = StatefulList::with_items(files);
        self.files.state.select(Some(0));
        match first {
            Some(path) => Ok(path),
            None => {
                proof {
                    reveal_strlit("");
                }
                let e = configuration_error("No markdown files found", "");
                assert("No markdown files found"@ + ""@ =~= "No markdown files found"@
                    + Seq::<char>::empty());
                Err(e)
            },
        }
    }

    /// Settles whether the first file could be read.
    pub fn check_first_post(read: Read<String>) -> (r: Result<(), Error>)
        ensures
            match read {
                Ok(_) => r.is_ok(),
                Err(why) => r matches Err(e) && is_configuration_error(
                    e,
                    "Failed to read post file: "@,
                    why@,
                ),
            },
    {
        match read {
            Ok(_) => Ok(()),
            Err(why) => Err(configuration_error("Failed to read post file: ", why.as_str())),
        }
    }

    pub fn register_action_handler(&mut self, tx: ActionSender)
        ensures
            *final(self) == (Setting { action_tx: Some(tx), ..*old(self) }),
    {
        self.action_tx = Some(tx);
    }

    pub fn register_layout_handler(&mut self, area: Rect)
        ensures
            *final(self) == (Setting { area, ..*old(self) }),
    {
        self.area = area;
    }

    /// The page takes no pointer events.
    pub fn handle_mouse_events(&mut self, mouse: MouseEvent) -> (action: Option<Action>)
        ensures
            action.is_none(),
            *final(self) == *old(self),
    {
        None
    }

    /// While the list has the keys, escape and backspace give them up
    /// and every other key triggers what the key map binds it to. Else
    /// no key does anything.
    pub fn handle_key_events(&mut self, key: KeyEvent) -> (action: Option<Action>)
        ensures
            action == if old(self).mode == InputMode::Select {
                if key.code is Esc || key.code is Backspace {
                    Some(Action::EnterNormal)
                } else {
                    old(self).keymap.lookup(key)
                }
            } else {
                None
            },
            *final(self) == *old(self),
    {
        match self.mode {
            InputMode::Select => match key.code {
                KeyCode::Esc | KeyCode::Backspace => Some(Action::EnterNormal),
                _ => match self.keymap.get(&key) {
                    Some(action) => Some(action.clone()),
                    None => None,
                },
            },
            _ => None,
        }
    }

    /// The file that has to be read before `action` is handled: the
    /// selected one, for the action that selects.
    pub fn wanted_file(&self, action: &Action) -> (path: Option<String>)
        ensures
            match path {
                Some(p) => *action is SelectOption && (self.selected_file() matches Some(file)
                    && p == file.path),
                None => !(*action is SelectOption) || self.selected_file().is_none(),
            },
    {
        if let Action::SelectOption = action {
            if let Some(index) = self.files.state.selected() {
                if index < self.files.items.len() {
                    return Some(self.files.items[index].path.clone());
                }
            }
        }
        None
    }

    /// Reacts to `action`, with what was read of the file it named as
    /// wanted. Selecting marks the selected file as the open one, if it
    /// could be read. Toggling the sidebar opens or closes it and hands
    /// the keys to the list or takes them away. Forward and back, while
    /// the list has the keys, move the selection round it.
    pub fn update(&mut self, action: Action, ctx: &Ctx, file: Option<Read<String>>) -> (r: Result<
        Option<Action>,
        Error,
    >)
        ensures
            final(self).config == old(self).config,
            final(self).input == old(self).input,
            final(self).action_tx == old(self).action_tx,
            final(self).keymap == old(self).keymap,
            final(self).area == old(self).area,
            final(self).files.items == old(self).files.items,
            match action {
                Action::SelectOption => match (old(self).selected_file(), file) {
                    (Some(_), Some(Ok(_))) => r == Ok::<Option<Action>, Error>(None)
                        && final(self).open_file == old(self).files.state.selected->0,
                    (Some(_), Some(Err(why))) => (r matches Err(e) && is_configuration_error(
                        e,
                        "Failed to read post file: "@,
                        why@,
                    )) && final(self).open_file == old(self).open_file,
                    _ => r == Ok::<Option<Action>, Error>(None) && final(self).open_file == old(self).open_file,
                },
                _ => r == Ok::<Option<Action>, Error>(None) && final(self).open_file == old(self).open_file,
            },
            final(self).sidebar == if action is ToggleSidebar {
                !old(self).sidebar
            } else {
                old(self).sidebar
            },
            final(self).mode == match action {
                Action::ToggleSidebar => toggled_mode(old(self).mode, !old(self).sidebar),
                Action::EnterNormal => InputMode::Normal,
                _ => old(self).mode,
            },
            final(self).files.state.offset == if old(self).mode == InputMode::Select && (action is Forward || action is Back)
                && final(self).files.state.selected.is_none() {
                0
            } else {
                old(self).files.state.offset
            },
            final(self).files.state.selected == if old(self).mode == InputMode::Select {
                match action {
                    Action::Forward => next_index(
                        old(self).files.state.selected,
                        old(self).files.items@.len(),
                    ),
                    Action::Back => previous_index(
                        old(self).files.state.selected,
                        old(self).files.items@.len(),
                    ),
                    _ => old(self).files.state.selected,
                }
            } else {
                old(self).files.state.selected
            },
    {
        match action {
            Action::EnterNormal => {
                self.mode = InputMode::Normal;
            },
            Action::SelectOption => {
                if let Some(index) = self.files.state.selected() {
                    if index < self.files.items.len() {
                        match file {
                            Some(Ok(_)) => {
                                self.open_file = index;
                            },
                            Some(Err(why)) => {
                                return Err(
                                    configuration_error("Failed to read post file: ", why.as_str()),
                                );
                            },
                            None => {},
                        }
                    }
                }
            },
            Action::ToggleSidebar => {
                match self.mode {
                    InputMode::Select => {
                        self.mode = InputMode::Normal;
                    },
                    _ => {
                        self.mode = InputMode::Select;
                    },
                }
                self.sidebar = !self.sidebar;
                if !self.sidebar {
                    self.mode = InputMode::Normal;
                }
            },
            Action::Forward => {
                if self.mode == InputMode::Select {
                    self.files.next();
                }
            },
            Action::Back => {
                if self.mode == InputMode::Select {
                    self.files.previous();
                }
            },
            _ => {},
        }
        Ok(None)
    }

    /// Draws the page while the sidebar is open: the place of the
    /// content is cleared, and the list of files goes into the first
    /// strip of the area.
    pub fn draw(&self, f: &mut Frame)
        ensures
            final(f).area == old(f).area,
            final(f).cursor == old(f).cursor,
            !self.sidebar ==> final(f).ops@ == old(f).ops@,
            self.sidebar ==> {
                let ops = final(f).ops@;
                let n = old(f).ops@.len() as int;
                &&& ops.len() == n + 2
                &&& ops.subrange(0, n) == old(f).ops@
                &&& ops[n].widget is Clear
                &&& crate::layout::column_of(self.area, ops[n].area)
                &&& crate::layout::column_of(self.area, ops[n + 1].area)
                &&& ops[n + 1].widget matches Widget::List(list) && list.state == Some(
                    self.files.state,
                ) && list.items@.len() == self.files.items@.len()
            },
    {
        let posts = Blog::post_rows(&self.files.items, self.open_file);
        let options = List::new(posts).highlight_style(
            Style::new().bg(Color::Yellow).fg(Color::Black),
        );
        let option_block = Blog::list_block(self.mode);
        let areas = sidebar_layout(self.sidebar).split(self.area);
        if self.sidebar {
            let posts = options.block(option_block);
            f.render_widget(Widget::Clear, areas[areas.len() - 1]);
            f.render_stateful_widget(posts, areas[0], &self.files.state);
            assert(final(f).ops@.subrange(0, old(f).ops@.len() as int) =~= old(f).ops@);
        }
    }
}

} // verus!
