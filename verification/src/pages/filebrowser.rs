//! The page that browses directories and shows the file that is picked.

use vstd::prelude::*;
use crate::action::{Action, InputMode};
use crate::component::{ActionSender, Ctx, Keymap, Read};
use crate::components::filepicker::Filepicker;
use crate::components::filestats::Filestats;
use crate::conf::AppConfiguration;
use crate::directory::{DirectoryRead, FileEntry};
use crate::error::Error;
use crate::input::Input;
use crate::keys::{KeyCode, KeyEvent, MouseEvent};
use crate::layout::{bordered_inner, column_of, strip, Direction, Rect};
use crate::pages::blog::sidebar_layout;
use crate::pages::posts::{configuration_error, is_configuration_error, open_file, shows_file};
use crate::render::Frame;

verus! {

pub struct Filebrowser {
    pub config: Option<AppConfiguration>,
    pub sidebar: bool,
    pub mode: InputMode,
    pub input: Input,
    pub action_tx: Option<ActionSender>,
    pub keymap: Keymap,
    pub content: Filestats,
    pub picker: Filepicker,
    pub area: Rect,
}

impl Filebrowser {
    /// The file that selecting opens: the one selected in the picker
    /// after it got the action, unless that is a directory.
    pub open spec fn selected_file(&self) -> Option<FileEntry> {
        match self.picker.files.state.selected {
            Some(i) => if i < self.picker.files.items@.len() && !self.picker.files.items@[i as int].is_dir {
                Some(self.picker.files.items@[i as int])
            } else {
                None
            },
            None => None,
        }
    }

    /// The mode after the sidebar was toggled.
    pub open spec fn flipped(mode: InputMode) -> InputMode {
        if mode == InputMode::Select {
            InputMode::Normal
        } else {
            InputMode::Select
        }
    }

    /// A page with the sidebar open and the keys on the picker, which
    /// lists what was read of the home directory; the content pane is
    /// empty as of the time `now`.
    pub fn new(now: i64, home: DirectoryRead) -> (page: Filebrowser)
        requires
            home.wf(),
        ensures
            page.config.is_none(),
            page.sidebar,
            page.mode == InputMode::Select,
            page.action_tx.is_none(),
            page.area == Rect::zero(),
            page.content.markdown@.len() == 0,
            page.content.ctime == now,
            page.picker.lists(home, false),
            page.picker.show,
            !page.picker.popup,
            page.picker.files.state.selected.is_none(),
            page.keymap.entries@.len() == 0,
            page.input.value@.len() == 0,
            page.input.cursor == 0,
    {
        Filebrowser {
            config: None,
            sidebar: true,
            mode: InputMode::Select,
            content: Filestats::empty(now),
            action_tx: None,
            area: Rect::default(),
            input: Input::default(),
            keymap: Keymap::new(),
            picker: Filepicker::new(false, None, home),
        }
    }

    pub fn keymap(self, keymap: Keymap) -> (page: Filebrowser)
        ensures
            page == (Filebrowser { keymap, ..self }),
    {
        Filebrowser { keymap, ..self }
    }

    /// Takes the configuration and hands a copy of it to the picker.
    pub fn register_config_handler(&mut self, config: AppConfiguration)
        ensures
            final(self).config == Some(config),
            final(self).picker.config matches Some(c) && c.config == config.config
                && c.databaseconfig == config.databaseconfig && c.keybindings.tables()
                == config.keybindings.tables(),
            *final(self) == (Filebrowser {
                config: final(self).config,
                picker: Filepicker { config: final(self).picker.config, ..old(self).picker },
                ..*old(self)
            }),
    {
        self.picker.register_config_handler(config.clone());
        self.config = Some(config);
    }

    /// Takes the sender and hands a handle of it to each part.
    pub fn register_action_handler(&mut self, tx: ActionSender)
        ensures
            final(self).action_tx == Some(tx),
            final(self).content.action_tx matches Some(a) && a.queue@.len() == 0,
            final(self).picker.action_tx matches Some(b) && b.queue@.len() == 0,
            *final(self) == (Filebrowser {
                action_tx: final(self).action_tx,
                content: Filestats {
                    action_tx: final(self).content.action_tx,
                    ..old(self).content
                },
                picker: Filepicker { action_tx: final(self).picker.action_tx, ..old(self).picker },
                ..*old(self)
            }),
    {
        self.content.register_action_handler(tx.handle());
        self.picker.register_action_handler(tx.handle());
        self.action_tx = Some(tx);
    }

    /// Takes `area`: the picker, while the sidebar is open, gets the
    /// first strip of columns and the content the last; without a
    /// sidebar both get the only strip.
    pub fn register_layout_handler(&mut self, area: Rect)
        ensures
            strip(Direction::Horizontal, 0, 0, area, final(self).area),
            strip(Direction::Horizontal, 0, 0, area, final(self).content.area),
            column_of(area, final(self).area),
            column_of(area, final(self).content.area),
            final(self).picker.area == final(self).area,
            final(self).picker.areas@.len() == 2,
            strip(Direction::Vertical, 0, 0, final(self).area, final(self).picker.areas@[0]),
            final(self).picker.areas@[1] == bordered_inner(final(self).picker.areas@[0]),
            !old(self).sidebar ==> final(self).content.area == final(self).area,
            final(self).content == (Filestats {
                area: final(self).content.area,
                ..old(self).content
            }),
            final(self).picker == (Filepicker {
                area: final(self).picker.area,
                areas: final(self).picker.areas,
                ..old(self).picker
            }),
            *final(self) == (Filebrowser {
                area: final(self).area,
                content: final(self).content,
                picker: final(self).picker,
                ..*old(self)
            }),
    {
        self.area = area;
        let areas = sidebar_layout(self.sidebar).split(self.area);
        self.area = areas[0];
        self.content.register_layout_handler(areas[areas.len() - 1]);
        self.picker.register_layout_handler(self.area);
    }

    /// The page takes no pointer events.
    pub fn handle_mouse_events(&mut self, mouse: MouseEvent) -> (action: Option<Action>)
        ensures
            action.is_none(),
            *final(self) == *old(self),
    {
        None
    }

    /// The directory that has to be read before `key` is handled: the
    /// one that the picker wants, while the sidebar is open.
    pub fn wanted_directory(&self, key: &KeyEvent) -> (path: Option<String>)
        ensures
            path == if self.sidebar {
                self.picker.wants(*key)
            } else {
                None
            },
    {
        if self.sidebar {
            self.picker.wanted_directory(key)
        } else {
            None
        }
    }

    /// Takes a key, with what was read of the directory it named as
    /// wanted. While the sidebar is open the picker gets the key first.
    /// Then, while the picker has the keys, escape and backspace toggle
    /// the sidebar and every other key triggers what the key map binds
    /// it to.
    pub fn handle_key_events(&mut self, key: KeyEvent, read: Option<DirectoryRead>) -> (action:
        Option<Action>)
        requires
            read matches Some(r) ==> r.wf(),
        ensures
            action == if old(self).mode == InputMode::Select {
                if key.code is Esc || key.code is Backspace {
                    Some(Action::ToggleSidebar)
                } else {
                    old(self).keymap.lookup(key)
                }
            } else {
                None
            },
            !old(self).sidebar ==> *final(self) == *old(self),
            old(self).sidebar ==> final(self).picker.keyed(old(self).picker, key, read),
            *final(self) == (Filebrowser { picker: final(self).picker, ..*old(self) }),
    {
        if self.sidebar {
            self.picker.handle_key_events(key, read);
        }
        match self.mode {
            InputMode::Select => match key.code {
                KeyCode::Esc | KeyCode::Backspace => Some(Action::ToggleSidebar),
                _ => match self.keymap.get(&key) {
                    Some(action) => Some(action.clone()),
                    None => None,
                },
            },
            _ => None,
        }
    }

    /// The file that has to be read before `action` is handled: the one
    /// selected in the picker, for the action that selects, unless it
    /// is a directory.
    pub fn wanted_file(&self, action: &Action) -> (path: Option<String>)
        ensures
            match path {
                Some(p) => *action is SelectOption && (self.selected_file() matches Some(file)
                    && p == file.path),
                None => !(*action is SelectOption) || self.selected_file().is_none(),
            },
    {
        if let Action::SelectOption = action {
            if let Some(index) = self.picker.files.state.selected() {
                if index < self.picker.files.items.len() && !self.picker.files.items[index].is_dir {
                    return Some(self.picker.files.items[index].path.clone());
                }
            }
        }
        None
    }

    /// The content pane after it got `action`.
    pub open spec fn content_after(&self, action: Action) -> Filestats {
        Filestats {
            scrollable: if action is ToggleSidebar {
                !self.content.scrollable
            } else {
                self.content.scrollable
            },
            state: self.content.state_after(action),
            ..self.content
        }
    }

    /// Reacts to `action`, with what was read of the file it named as
    /// wanted. The content pane and the picker get every action first.
    /// Toggling the sidebar opens or closes it and hands the keys to
    /// the picker or takes them away. Selecting opens the file that is
    /// selected in the picker in the content pane, sized by the rows of
    /// the page; a directory is passed over.
    pub fn update(&mut self, action: Action, ctx: &Ctx, file: Option<Read<String>>) -> (r: Result<
        Option<Action>,
        Error,
    >)
        ensures
            final(self).config == old(self).config,
            final(self).input == old(self).input,
            final(self).action_tx == old(self).action_tx,
            final(self).keymap == old(self).keymap,
            final(self).area == old(self).area,
            final(self).picker.updated(old(self).picker, action),
            final(self).sidebar == if action is ToggleSidebar {
                !old(self).sidebar
            } else {
                old(self).sidebar
            },
            final(self).mode == if action is ToggleSidebar {
                Filebrowser::flipped(old(self).mode)
            } else {
                old(self).mode
            },
            match action {
                Action::SelectOption => match (old(self).selected_file(), file) {
                    (Some(picked), Some(Ok(markdown))) => r == Ok::<Option<Action>, Error>(None)
                        && shows_file(
                        final(self).content,
                        picked,
                        markdown,
                        old(self).area.height as nat,
                    ),
                    (Some(_), Some(Err(why))) => (r matches Err(e) && is_configuration_error(
                        e,
                        "Failed to read post file: "@,
                        why@,
                    )) && final(self).content == old(self).content_after(action),
                    _ => r == Ok::<Option<Action>, Error>(None) && final(self).content == old(self).content_after(action),
                },
                _ => r == Ok::<Option<Action>, Error>(None) && final(self).content == old(self).content_after(action),
            },
    {
        self.content.update(action.clone(), ctx);
        self.picker.update(action.clone(), ctx);
        match action {
            Action::ToggleSidebar => {
                self.sidebar = !self.sidebar;
                match self.mode {
                    InputMode::Select => {
                        self.mode = InputMode::Normal;
                    },
                    _ => {
                        self.mode = InputMode::Select;
                    },
                }
            },
            Action::SelectOption => {
                if let Some(index) = self.picker.files.state.selected() {
                    if index < self.picker.files.items.len() {
                        if self.picker.files.items[index].is_dir {
                            return Ok(None);
                        }
                        match file {
                            Some(Ok(markdown)) => {
                                self.content = open_file(
                                    &self.picker.files.items[index],
                                    markdown,
                                    self.area.height,
                                );
                            },
                            Some(Err(why)) => {
                                return Err(
                                    configuration_error("Failed to read post file: ", why.as_str()),
                                );
                            },
                            None => {},
                        }
                    }
                }
            },
            _ => {},
        }
        Ok(None)
    }

    /// Draws the page: the picker first, while the sidebar is open, and
    /// then the content pane. With the sidebar closed nothing of the
    /// picker is drawn.
    pub fn draw(&mut self, f: &mut Frame)
        ensures
            final(f).area == old(f).area,
            final(f).cursor == old(f).cursor,
            *final(self) == (Filebrowser { content: final(self).content, ..*old(self) }),
            exists|mid: Seq<crate::render::DrawOp>|
                {
                    &&& if old(self).sidebar {
                        old(self).picker.drawn(old(f).ops@, mid)
                    } else {
                        mid == old(f).ops@
                    }
                    &&& #[trigger] final(self).content.drawn(
                        old(self).content,
                        mid,
                        final(f).ops@,
                    )
                },
            !old(self).sidebar ==> final(f).ops@.len() == old(f).ops@.len() + 5,
    {
        if self.sidebar {
            self.picker.draw(f);
        }
        self.content.draw(f);
    }
}

} // verus!
