//! The music player: a picker beside the controls and the wave.

use vstd::prelude::*;
use crate::action::{Action, InputMode};
use crate::component::{ActionSender, Ctx, Keymap};
use crate::components::controls::Controls;
use crate::components::filepicker::Filepicker;
use crate::components::wave::Wave;
use crate::conf::AppConfiguration;
use crate::directory::DirectoryRead;
use crate::input::Input;
use crate::keys::{KeyCode, KeyEvent, MouseEvent};
use crate::layout::{bordered_inner, column_of, strip, Direction, Layout, Rect, Sizing};
use crate::pages::blog::sidebar_layout;
use crate::pages::filebrowser::Filebrowser;
use crate::render::{DrawOp, Frame};

verus! {

pub struct MusicPlayer {
    pub config: Option<AppConfiguration>,
    pub sidebar: bool,
    pub mode: InputMode,
    pub input: Input,
    pub action_tx: Option<ActionSender>,
    pub keymap: Keymap,
    pub controls: Controls,
    pub picker: Filepicker,
    pub wave: Wave,
    pub area: Rect,
    pub areas: Vec<Rect>,
}

impl MusicPlayer {
    pub open spec fn wf(&self) -> bool {
        self.wave.wf()
    }

    /// A player with the sidebar open and the keys on the picker, which
    /// lists what was read of the home directory.
    pub fn new(now: u64, home: DirectoryRead) -> (page: MusicPlayer)
        requires
            home.wf(),
        ensures
            page.config.is_none(),
            page.sidebar,
            page.mode == InputMode::Select,
            page.action_tx.is_none(),
            page.area == Rect::zero(),
            page.areas@.len() == 0,
            page.picker.lists(home, false),
            page.controls.start_time == now,
            !page.controls.playing,
            page.controls.time == 0,
            page.wave.sparkline.points@.len() == 300,
            page.wf(),
            page.keymap.entries@.len() == 0,
            page.input.value@.len() == 0,
            page.input.cursor == 0,
    {
        MusicPlayer {
            config: None,
            sidebar: true,
            mode: InputMode::Select,
            action_tx: None,
            area: Rect::default(),
            input: Input::default(),
            keymap: Keymap::new(),
            controls: Controls::new(now),
            picker: Filepicker::new(false, None, home),
            wave: Wave::new(),
            areas: Vec::new(),
        }
    }

    pub fn keymap(self, keymap: Keymap) -> (page: MusicPlayer)
        ensures
            page == (MusicPlayer { keymap, ..self }),
    {
        MusicPlayer { keymap, ..self }
    }

    /// Takes the configuration and hands a copy of it to the picker.
    pub fn register_config_handler(&mut self, config: AppConfiguration)
        ensures
            final(self).config == Some(config),
            final(self).picker.config matches Some(c) && c.config == config.config,
            *final(self) == (MusicPlayer {
                config: final(self).config,
                picker: Filepicker { config: final(self).picker.config, ..old(self).picker },
                ..*old(self)
            }),
    {
        self.picker.register_config_handler(config.clone());
        self.config = Some(config);
    }

    /// Takes the sender and hands a handle of it to the picker and to
    /// the wave.
    pub fn register_action_handler(&mut self, tx: ActionSender)
        ensures
            final(self).action_tx == Some(tx),
            final(self).picker.action_tx matches Some(a) && a.queue@.len() == 0,
            final(self).wave.action_tx matches Some(b) && b.queue@.len() == 0,
            *final(self) == (MusicPlayer {
                action_tx: final(self).action_tx,
                picker: Filepicker { action_tx: final(self).picker.action_tx, ..old(self).picker },
                wave: Wave { action_tx: final(self).wave.action_tx, ..old(self).wave },
                ..*old(self)
            }),
    {
        self.picker.register_action_handler(tx.handle());
        self.wave.register_action_handler(tx.handle());
        self.action_tx = Some(tx);
    }

    /// The controls at `controls` and the wave at `wave` stand in
    /// `rest`, which is a strip of columns of `area`: each is a strip of
    /// rows of it.
    pub open spec fn beside(area: Rect, rest: Rect, controls: Rect, wave: Rect) -> bool {
        &&& strip(Direction::Horizontal, 0, 0, area, rest)
        &&& strip(Direction::Vertical, 0, 0, rest, controls)
        &&& strip(Direction::Vertical, 0, 0, rest, wave)
    }

    /// Takes `area`: the picker, while the sidebar is open, gets the
    /// first strip of columns; of the last strip the controls get the
    /// rows on top and the wave the rows below.
    pub fn register_layout_handler(&mut self, area: Rect)
        ensures
            strip(Direction::Horizontal, 0, 0, area, final(self).area),
            column_of(area, final(self).area),
            final(self).picker.area == final(self).area,
            final(self).picker.areas@.len() == 2,
            strip(Direction::Vertical, 0, 0, final(self).area, final(self).picker.areas@[0]),
            final(self).picker.areas@[1] == bordered_inner(final(self).picker.areas@[0]),
            exists|rest: Rect|
                MusicPlayer::beside(area, rest, final(self).controls.area, final(self).wave.area),
            final(self).controls == (Controls {
                area: final(self).controls.area,
                ..old(self).controls
            }),
            final(self).wave == (Wave { area: final(self).wave.area, ..old(self).wave }),
            final(self).picker == (Filepicker {
                area: final(self).picker.area,
                areas: final(self).picker.areas,
                ..old(self).picker
            }),
            final(self).controls.area.x == final(self).wave.area.x,
            final(self).controls.area.width == final(self).wave.area.width,
            *final(self) == (MusicPlayer {
                area: final(self).area,
                controls: final(self).controls,
                wave: final(self).wave,
                picker: final(self).picker,
                ..*old(self)
            }),
    {
        self.area = area;
        let vertical = sidebar_layout(self.sidebar).split(self.area);
        let horizontal = Layout::vertical(vec![Sizing::Percentage(20), Sizing::Fill(1)]).split(
            vertical[vertical.len() - 1],
        );
        self.area = vertical[0];
        self.controls.register_layout_handler(horizontal[0]);
        self.wave.register_layout_handler(horizontal[horizontal.len() - 1]);
        self.picker.register_layout_handler(self.area);
        proof {
            let rest = vertical@.last();
            assert(MusicPlayer::beside(area, rest, self.controls.area, self.wave.area));
        }
    }

    /// The page takes no pointer events.
    pub fn handle_mouse_events(&mut self, mouse: MouseEvent) -> (action: Option<Action>)
        ensures
            action.is_none(),
            *final(self) == *old(self),
    {
        None
    }

    /// The directory that has to be read before `key` is handled: the
    /// one that the picker wants, while the sidebar is open.
    pub fn wanted_directory(&self, key: &KeyEvent) -> (path: Option<String>)
        ensures
            path == if self.sidebar {
                self.picker.wants(*key)
            } else {
                None
            },
    {
        if self.sidebar {
            self.picker.wanted_directory(key)
        } else {
            None
        }
    }

    /// Takes a key, with what was read of the directory it named as
    /// wanted. While the sidebar is open the picker gets the key first.
    /// Then, while the picker has the keys, escape and backspace toggle
    /// the sidebar and every other key triggers what the key map binds
    /// it to.
    pub fn handle_key_events(&mut self, key: KeyEvent, read: Option<DirectoryRead>) -> (action:
        Option<Action>)
        requires
            read matches Some(r) ==> r.wf(),
        ensures
            action == if old(self).mode == InputMode::Select {
                if key.code is Esc || key.code is Backspace {
                    Some(Action::ToggleSidebar)
                } else {
                    old(self).keymap.lookup(key)
                }
            } else {
                None
            },
            !old(self).sidebar ==> *final(self) == *old(self),
            old(self).sidebar ==> final(self).picker.keyed(old(self).picker, key, read),
            *final(self) == (MusicPlayer { picker: final(self).picker, ..*old(self) }),
    {
        if self.sidebar {
            self.picker.handle_key_events(key, read);
        }
        match self.mode {
            InputMode::Select => match key.code {
                KeyCode::Esc | KeyCode::Backspace => Some(Action::ToggleSidebar),
                _ => match self.keymap.get(&key) {
                    Some(action) => Some(action.clone()),
                    None => None,
                },
            },
            _ => None,
        }
    }

    /// Reacts to `action`: the picker, the controls and the wave get
    /// every action first; then toggling the sidebar opens or closes it
    /// and hands the keys to the picker or takes them away.
    pub fn update(&mut self, action: Action, ctx: &Ctx) -> (follow_up: Option<Action>)
        requires
            old(self).wf(),
        ensures
            follow_up.is_none(),
            final(self).wf(),
            final(self).picker.updated(old(self).picker, action),
            final(self).controls.updated(old(self).controls, action, ctx.now),
            if action is Tick {
                final(self).wave.ticked(old(self).wave)
            } else {
                final(self).wave == old(self).wave
            },
            final(self).sidebar == if action is ToggleSidebar {
                !old(self).sidebar
            } else {
                old(self).sidebar
            },
            final(self).mode == if action is ToggleSidebar {
                Filebrowser::flipped(old(self).mode)
            } else {
                old(self).mode
            },
            final(self).config == old(self).config,
            final(self).input == old(self).input,
            final(self).action_tx == old(self).action_tx,
            final(self).keymap == old(self).keymap,
            final(self).area == old(self).area,
            final(self).areas == old(self).areas,
    {
        self.picker.update(action.clone(), ctx);
        self.controls.update(action.clone(), ctx);
        self.wave.update(action.clone(), ctx);
        if let Action::ToggleSidebar = action {
            self.sidebar = !self.sidebar;
            match self.mode {
                InputMode::Select => {
                    self.mode = InputMode::Normal;
                },
                _ => {
                    self.mode = InputMode::Select;
                },
            }
        }
        None
    }

    /// Draws the page: the picker first, while the sidebar is open,
    /// then the controls, then the wave.
    pub fn draw(&mut self, f: &mut Frame)
        ensures
            final(f).area == old(f).area,
            final(f).cursor == old(f).cursor,
            *final(self) == (MusicPlayer { controls: final(self).controls, ..*old(self) }),
            exists|side: Seq<DrawOp>, top: Seq<DrawOp>|
                {
                    &&& if old(self).sidebar {
                        old(self).picker.drawn(old(f).ops@, side)
                    } else {
                        side == old(f).ops@
                    }
                    &&& #[trigger] final(self).controls.drawn(old(self).controls, side, top)
                    &&& #[trigger] old(self).wave.drawn(top, final(f).ops@)
                },
    {
        if self.sidebar {
            self.picker.draw(f);
        }
        self.controls.draw(f);
        self.wave.draw(f);
    }
}

} // verus!
