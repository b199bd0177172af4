//! The page that lists posts and shows the one that is open.

use vstd::prelude::*;
use crate::action::{Action, InputMode};
use crate::component::{ActionSender, Ctx, Keymap, Read};
use crate::components::filestats::Filestats;
use crate::conf::AppConfiguration;
use crate::directory::FileEntry;
use crate::error::Error;
use crate::input::Input;
use crate::keys::{KeyCode, KeyEvent, MouseEvent};
use crate::layout::{column_of, strip, Direction, Layout, Rect, Sizing};
use crate::list::{next_index, previous_index, ListState, StatefulList};
use crate::pages::posts::{
    configuration_error, file_in, is_configuration_error, markdown_posts, open_file,
    posts_directory, posts_of, posts_under, shows_file,
};
use crate::render::{
    Block, Color, Frame, Line, List, ListItem, Style, Widget, BORDER_RIGHT,
};
use crate::scroll::{ScrollOp, ScrollState};
use crate::text::{count_lines, line_count, remove_all, removed, string_from};

verus! {

/// The mode after the sidebar was toggled to `sidebar`: the list has
/// the keys while it shows and had not before.
pub open spec fn toggled_mode(mode: InputMode, sidebar: bool) -> InputMode {
    if !sidebar || mode == InputMode::Select {
        InputMode::Normal
    } else {
        InputMode::Select
    }
}

/// The plan that puts a sidebar of eighteen percent beside the content,
/// or gives the content everything.
pub fn sidebar_layout(sidebar: bool) -> (layout: Layout)
    ensures
        layout.direction == crate::layout::Direction::Horizontal,
        layout.constraints@ == if sidebar {
            seq![Sizing::Percentage(18), Sizing::Fill(1)]
        } else {
            seq![Sizing::Fill(1)]
        },
        layout.horizontal_margin == 0,
        layout.vertical_margin == 0,
{
    if sidebar {
        Layout::horizontal(vec![Sizing::Percentage(18), Sizing::Fill(1)])
    } else {
        Layout::horizontal(vec![Sizing::Fill(1)])
    }
}

pub struct Blog {
    pub config: Option<AppConfiguration>,
    pub sidebar: bool,
    pub mode: InputMode,
    pub input: Input,
    pub files: StatefulList<FileEntry>,
    pub open_file: usize,
    pub action_tx: Option<ActionSender>,
    pub keymap: Keymap,
    pub content: Filestats,
    pub area: Rect,
}

impl Blog {
    /// The post that selecting opens: the selected one, while the list
    /// has the keys.
    pub open spec fn selected_post(&self) -> Option<FileEntry> {
        if self.mode == InputMode::Select {
            match self.files.state.selected {
                Some(i) => if i < self.files.items@.len() {
                    Some(self.files.items@[i as int])
                } else {
                    None
                },
                None => None,
            }
        } else {
            None
        }
    }

    /// A page without posts, with the sidebar open and the keys on the
    /// list; the content pane is empty as of the time `now`.
    pub fn new(now: i64) -> (page: Blog)
        ensures
            page.config.is_none(),
            page.sidebar,
            page.mode == InputMode::Select,
            page.files.items@.len() == 0,
            page.files.state.selected.is_none(),
            page.open_file == 0,
            page.action_tx.is_none(),
            page.area == Rect::zero(),
            page.content.markdown@.len() == 0,
            page.content.ctime == now,
            page.keymap.entries@.len() == 0,
            page.input.value@.len() == 0,
            page.input.cursor == 0,
    {
        Blog {
            config: None,
            sidebar: true,
            mode: InputMode::Select,
            content: Filestats::empty(now),
            action_tx: None,
            area: Rect::default(),
            open_file: 0,
            input: Input::default(),
            keymap: Keymap::new(),
            files: StatefulList::default(),
        }
    }

    pub fn keymap(self, keymap: Keymap) -> (page: Blog)
        ensures
            page == (Blog { keymap, ..self }),
    {
        Blog { keymap, ..self }
    }

    /// Takes the configuration and says which directory holds the
    /// posts, so that it can be read for `generate_posts`.
    pub fn register_config_handler(&mut self, config: AppConfiguration) -> (directory: String)
        ensures
            *final(self) == (Blog { config: Some(config), ..*old(self) }),
            directory@ == posts_under(config.config.app_data_path@),
    {
        let mut path = crate::text::chars_of(config.config.app_data_path.as_str());
        crate::text::push_str(&mut path, "/posts/");
        self.config = Some(config);
        crate::text::string_from(&path)
    }

    /// Lists the posts among what was read of the posts directory, and
    /// selects the first. The result names the file that has to be read
    /// for `show_first_post`, if there is a post. Without a
    /// configuration, and where the directory could not be read, the
    /// page stays as it is.
    pub fn generate_posts(&mut self, read: Read<Vec<FileEntry>>) -> (r: Result<Option<String>, Error>)
        ensures
            match r {
                Ok(first) => {
                    &&& read matches Ok(entries)
                    &&& old(self).config matches Some(c)
                    &&& final(self).files.items@ == posts_of(entries@)
                    &&& final(self).files.state == (ListState { offset: 0, selected: Some(0usize) })
                    &&& match first {
                        Some(path) => posts_of(entries@).len() > 0 && path@ == posts_under(
                            c.config.app_data_path@,
                        ) + "/"@ + posts_of(entries@)[0].name@,
                        None => posts_of(entries@).len() == 0,
                    }
                },
                Err(e) => {
                    &&& final(self).files == old(self).files
                    &&& match old(self).config {
                        None => is_configuration_error(
                            e,
                            "Configuration not set"@,
                            Seq::<char>::empty(),
                        ),
                        Some(_) => read matches Err(why) && is_configuration_error(
                            e,
                            "Failed to read posts directory: "@,
                            why@,
                        ),
                    }
                },
            },
            final(self).config == old(self).config,
            final(self).sidebar == old(self).sidebar,
            final(self).mode == old(self).mode,
            final(self).input == old(self).input,
            final(self).open_file == old(self).open_file,
            final(self).action_tx == old(self).action_tx,
            final(self).keymap == old(self).keymap,
            final(self).content == old(self).content,
            final(self).area == old(self).area,
    {
        let post_path = match posts_directory(&self.config) {
            Ok(path) => path,
            Err(e) => {
                return Err(e);
            },
        };
        let entries = match read {
            Ok(entries) => entries,
            Err(why) => {
                return Err(configuration_error("Failed to read posts directory: ", why.as_str()));
            },
        };
        let files = markdown_posts(&entries);
        let first = if files.len() > 0 {
            Some(file_in(post_path.as_str(), files[0].name.as_str()))
        } else {
            None
        };
        self.files = StatefulList::with_items(files);
        self.files.state.select(Some(0));
        Ok(first)
    }

    /// Shows the first post, from what was read of its file; without
    /// posts, a notice that there are none. The post opens at the top
    /// with all its lines in the scroll range. Where the file could not
    /// be read, the content stays.
    pub fn show_first_post(&mut self, read: Option<Read<String>>) -> (r: Result<(), Error>)
        ensures
            *final(self) == (Blog { content: final(self).content, ..*old(self) }),
            match read {
                Some(Err(why)) => r matches Err(e) && is_configuration_error(
                    e,
                    "Failed to read post file: "@,
                    why@,
                ) && final(self).content == old(self).content,
                Some(Ok(markdown)) => r.is_ok() && final(self).content.markdown == markdown
                    && final(self).content.state == (ScrollState {
                    position: 0,
                    view_size: 1,
                    max: line_count(markdown@) as usize,
                }),
                None => r.is_ok() && final(self).content.markdown@ == "# No posts found"@,
            },
            r.is_ok() ==> (final(self).content.title@ == if old(self).files.items@.len() > 0 {
                removed(old(self).files.items@[0].name@, ".md"@)
            } else {
                Seq::<char>::empty()
            }) && final(self).content.ctime == (if old(self).files.items@.len() > 0 {
                match old(self).files.items@[0].ctime {
                    Some(t) => t,
                    None => 0,
                }
            } else {
                0
            }),
    {
        let markdown = match read {
            Some(Ok(markdown)) => markdown,
            Some(Err(why)) => {
                return Err(configuration_error("Failed to read post file: ", why.as_str()));
            },
            None => String::from_str("# No posts found"),
        };
        proof {
            reveal_strlit(".md");
            reveal_strlit("");
        }
        let first = if self.files.items.len() > 0 {
            self.files.items[0].clone()
        } else {
            FileEntry::default()
        };
        let title = remove_all(first.name.as_str(), ".md");
        let state = ScrollState::new(count_lines(markdown.as_str()));
        let ctime = match first.ctime {
            Some(t) => t,
            None => 0,
        };
        self.content = Filestats::new(markdown, title, ctime, state);
        Ok(())
    }

    pub fn register_action_handler(&mut self, tx: ActionSender)
        ensures
            final(self).action_tx == Some(tx),
            final(self).content.action_tx matches Some(other) && other.queue@.len() == 0,
            *final(self) == (Blog {
                action_tx: final(self).action_tx,
                content: Filestats {
                    action_tx: final(self).content.action_tx,
                    ..old(self).content
                },
                ..*old(self)
            }),
    {
        self.content.register_action_handler(tx.handle());
        self.action_tx = Some(tx);
    }

    /// Takes `area`: the sidebar, while it is open, gets the first
    /// strip of columns and the content the last; without a sidebar
    /// the content gets the only strip, which is also kept as the area
    /// of the page.
    pub fn register_layout_handler(&mut self, area: Rect)
        ensures
            strip(Direction::Horizontal, 0, 0, area, final(self).area),
            strip(Direction::Horizontal, 0, 0, area, final(self).content.area),
            column_of(area, final(self).area),
            column_of(area, final(self).content.area),
            !old(self).sidebar ==> final(self).content.area == final(self).area,
            *final(self) == (Blog {
                area: final(self).area,
                content: Filestats { area: final(self).content.area, ..old(self).content },
                ..*old(self)
            }),
    {
        self.area = area;
        let areas = sidebar_layout(self.sidebar).split(self.area);
        self.area = areas[0];
        self.content.register_layout_handler(areas[areas.len() - 1]);
    }

    /// The page takes no pointer events.
    pub fn handle_mouse_events(&mut self, mouse: MouseEvent) -> (action: Option<Action>)
        ensures
            action.is_none(),
            *final(self) == *old(self),
    {
        None
    }

    /// While the list has the keys, escape and backspace toggle the
    /// sidebar and every other key triggers what the key map binds it
    /// to. Else no key does anything.
    pub fn handle_key_events(&mut self, key: KeyEvent) -> (action: Option<Action>)
        ensures
            action == if old(self).mode == InputMode::Select {
                if key.code is Esc || key.code is Backspace {
                    Some(Action::ToggleSidebar)
                } else {
                    old(self).keymap.lookup(key)
                }
            } else {
                None
            },
            *final(self) == *old(self),
    {
        match self.mode {
            InputMode::Select => match key.code {
                KeyCode::Esc | KeyCode::Backspace => Some(Action::ToggleSidebar),
                _ => match self.keymap.get(&key) {
                    Some(action) => Some(action.clone()),
                    None => None,
                },
            },
            _ => None,
        }
    }

    /// The file that has to be read before `action` is handled: the
    /// selected post, for the action that selects.
    pub fn wanted_file(&self, action: &Action) -> (path: Option<String>)
        ensures
            match path {
                Some(p) => *action is SelectOption && (self.selected_post() matches Some(post)
                    && p == post.path),
                None => !(*action is SelectOption) || self.selected_post().is_none(),
            },
    {
        if let Action::SelectOption = action {
            if self.mode == InputMode::Select {
                if let Some(index) = self.files.state.selected() {
                    if index < self.files.items.len() {
                        return Some(self.files.items[index].path.clone());
                    }
                }
            }
        }
        None
    }

    /// The content pane after it got `action`.
    pub open spec fn content_after(&self, action: Action) -> Filestats {
        Filestats {
            scrollable: if action is ToggleSidebar {
                !self.content.scrollable
            } else {
                self.content.scrollable
            },
            state: self.content.state_after(action),
            ..self.content
        }
    }

    /// Reacts to `action`, with what was read of the file it named as
    /// wanted. The content pane gets every action first. Selecting
    /// opens the selected post in the content pane, sized by the rows
    /// of the page. Toggling the sidebar opens or closes it and hands
    /// the keys to the list or takes them away. Forward and back, while
    /// the list has the keys, put the content to its top and move the
    /// selection round the list.
    pub fn update(&mut self, action: Action, ctx: &Ctx, file: Option<Read<String>>) -> (r: Result<
        Option<Action>,
        Error,
    >)
        ensures
            final(self).config == old(self).config,
            final(self).input == old(self).input,
            final(self).action_tx == old(self).action_tx,
            final(self).keymap == old(self).keymap,
            final(self).area == old(self).area,
            final(self).files.items == old(self).files.items,
            match action {
                Action::SelectOption => match (old(self).selected_post(), file) {
                    (Some(post), Some(Ok(markdown))) => {
                        &&& r == Ok::<Option<Action>, Error>(None)
                        &&& shows_file(
                            final(self).content,
                            post,
                            markdown,
                            old(self).area.height as nat,
                        )
                        &&& final(self).open_file == old(self).files.state.selected->0
                    },
                    (Some(post), Some(Err(why))) => {
                        &&& r matches Err(e) && is_configuration_error(
                            e,
                            "Failed to read post file: "@,
                            why@,
                        )
                        &&& final(self).content == old(self).content_after(action)
                        &&& final(self).open_file == old(self).open_file
                    },
                    _ => {
                        &&& r == Ok::<Option<Action>, Error>(None)
                        &&& final(self).content == old(self).content_after(action)
                        &&& final(self).open_file == old(self).open_file
                    },
                },
                _ => r == Ok::<Option<Action>, Error>(None) && final(self).open_file == old(self).open_file,
            },
            final(self).sidebar == if action is ToggleSidebar {
                !old(self).sidebar
            } else {
                old(self).sidebar
            },
            final(self).mode == if action is ToggleSidebar {
                toggled_mode(old(self).mode, !old(self).sidebar)
            } else {
                old(self).mode
            },
            final(self).files.state.offset == if old(self).mode == InputMode::Select && (action is Forward || action is Back)
                && final(self).files.state.selected.is_none() {
                0
            } else {
                old(self).files.state.offset
            },
            final(self).files.state.selected == if old(self).mode == InputMode::Select {
                match action {
                    Action::Forward => next_index(
                        old(self).files.state.selected,
                        old(self).files.items@.len(),
                    ),
                    Action::Back => previous_index(
                        old(self).files.state.selected,
                        old(self).files.items@.len(),
                    ),
                    _ => old(self).files.state.selected,
                }
            } else {
                old(self).files.state.selected
            },
            (action is Forward || action is Back) ==> final(self).content == if old(self).mode
                == InputMode::Select {
                Filestats {
                    state: old(self).content_after(action).state.after(ScrollOp::Top),
                    ..old(self).content_after(action)
                }
            } else {
                old(self).content_after(action)
            },
            !(action is Forward || action is Back || action is SelectOption) ==> final(self).content == old(self).content_after(action),
    {
        self.content.update(action.clone(), ctx);
        match action {
            Action::SelectOption => {
                if self.mode == InputMode::Select {
                    if let Some(index) = self.files.state.selected() {
                        if index < self.files.items.len() {
                            match file {
                                Some(Ok(markdown)) => {
                                    self.content = open_file(
                                        &self.files.items[index],
                                        markdown,
                                        self.area.height,
                                    );
                                    self.open_file = index;
                                },
                                Some(Err(why)) => {
                                    return Err(
                                        configuration_error(
                                            "Failed to read post file: ",
                                            why.as_str(),
                                        ),
                                    );
                                },
                                None => {},
                            }
                        }
                    }
                }
            },
            Action::ToggleSidebar => {
                match self.mode {
                    InputMode::Select => {
                        self.mode = InputMode::Normal;
                    },
                    _ => {
                        self.mode = InputMode::Select;
                    },
                }
                self.sidebar = !self.sidebar;
                if !self.sidebar {
                    self.mode = InputMode::Normal;
                }
            },
            Action::Forward => {
                if self.mode == InputMode::Select {
                    self.content.scroll_top();
                    self.files.next();
                }
            },
            Action::Back => {
                if self.mode == InputMode::Select {
                    self.content.scroll_top();
                    self.files.previous();
                }
            },
            _ => {},
        }
        Ok(None)
    }

    /// The rows of the list of posts: each post by its name, the open
    /// one in black on cyan.
    pub fn post_rows(files: &Vec<FileEntry>, open_file: usize) -> (rows: Vec<ListItem>)
        ensures
            rows@.len() == files@.len(),
            forall|i: int|
                0 <= i < rows@.len() ==> (#[trigger] rows@[i]).line.text() == files@[i].name@
                    && rows@[i].style.bg == (if i == open_file {
                    Some(Color::Cyan)
                } else {
                    None
                }),
    {
        let mut rows: Vec<ListItem> = Vec::new();
        let mut i: usize = 0;
        while i < files.len()
            invariant
                i <= files@.len(),
                rows@.len() == i,
                forall|k: int|
                    0 <= k < i ==> (#[trigger] rows@[k]).line.text() == files@[k].name@
                        && rows@[k].style.bg == (if k == open_file {
                        Some(Color::Cyan)
                    } else {
                        None
                    }),
            decreases files@.len() - i,
        {
            let style = if open_file == i {
                Style::new().bold().fg(Color::Black).bg(Color::Cyan)
            } else {
                Style::new().fg(Color::White)
            };
            rows.push(ListItem { line: Line::raw(files[i].name.clone()), style });
            i += 1;
        }
        rows
    }

    /// The frame of the list of posts: a line at its right, in yellow
    /// on black while the list has the keys.
    pub fn list_block(mode: InputMode) -> (block: Block)
        ensures
            block.borders == BORDER_RIGHT,
            block.titles@.len() == 0,
            block.border_style.fg == (if mode == InputMode::Select {
                Some(Color::Yellow)
            } else {
                None
            }),
    {
        let selecting = mode == InputMode::Select;
        Block::new().style(
            if selecting {
                Style::new().bg(Color::Black)
            } else {
                Style::new()
            },
        ).borders(BORDER_RIGHT).border_style(
            if selecting {
                Style::new().fg(Color::Yellow)
            } else {
                Style::new()
            },
        )
    }

    /// Draws the page: the list of posts first, while the sidebar is
    /// open, and then the content pane.
    pub fn draw(&mut self, f: &mut Frame)
        ensures
            final(f).area == old(f).area,
            final(f).cursor == old(f).cursor,
            ({
                let ops = final(f).ops@;
                let n = old(f).ops@.len() as int;
                let side = if old(self).sidebar {
                    1int
                } else {
                    0int
                };
                &&& ops.len() == n + side + 5
                &&& ops.subrange(0, n) == old(f).ops@
                &&& old(self).sidebar ==> ops[n].area == old(self).area && (
                ops[n].widget matches Widget::List(list) && list.state == Some(old(self).files.state)
                    && list.items@.len() == old(self).files.items@.len())
                &&& final(self).content.drawn(old(self).content, ops.subrange(0, n + side), ops)
                &&& *final(self) == (Blog { content: final(self).content, ..*old(self) })
            }),
    {
        let posts = Blog::post_rows(&self.files.items, self.open_file);
        let options = List::new(posts).highlight_style(
            Style::new().bold().bg(Color::Yellow).fg(Color::Black),
        );
        let option_block = Blog::list_block(self.mode);
        let ghost n = old(f).ops@.len() as int;
        if self.sidebar {
            let posts = options.block(option_block);
            f.render_stateful_widget(posts, self.area, &self.files.state);
        }
        let ghost mid = f.ops@;
        self.content.draw(f);
        proof {
            assert(f.ops@.subrange(0, mid.len() as int) == mid);
            assert(f.ops@.subrange(0, n) =~= mid.subrange(0, n));
            assert(mid.subrange(0, n) =~= old(f).ops@);
            if old(self).sidebar {
                assert(f.ops@.subrange(0, mid.len() as int)[n] == mid[n]);
            }
        }
    }
}

} // verus!
