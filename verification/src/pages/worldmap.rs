//! The map of the world with the servers on it.

use vstd::prelude::*;
use crate::action::{Action, InputMode};
use crate::component::{ActionSender, Ctx, Keymap};
use crate::input::Input;
use crate::keys::{KeyEvent, MouseEvent};
use crate::layout::{row_of, strip, Direction, Layout, Rect, Sizing};
use crate::pages::visualizer::{cycle, entry_after};
use crate::render::{DrawOp, Frame, Widget};

verus! {

/// A server and where it stands, in hundredths of a degree.
#[derive(Debug, PartialEq, Eq)]
pub struct Server {
    pub name: String,
    pub location: String,
    pub latitude: i32,
    pub longitude: i32,
    pub status: String,
}

impl Server {
    pub fn new(name: &str, location: &str, latitude: i32, longitude: i32, status: &str) -> (server:
        Server)
        ensures
            server.name@ == name@,
            server.location@ == location@,
            server.latitude == latitude,
            server.longitude == longitude,
            server.status@ == status@,
    {
        Server {
            name: String::from_str(name),
            location: String::from_str(location),
            latitude,
            longitude,
            status: String::from_str(status),
        }
    }

    /// Whether the server is up, by its status.
    pub fn is_up(&self) -> (up: bool)
        ensures
            up == (self.status@ == "Up"@),
    {
        crate::text::same_text(self.status.as_str(), "Up")
    }
}

pub struct WorldMap {
    pub show: bool,
    pub mode: InputMode,
    pub servers: Vec<Server>,
    pub input: Input,
    pub menu_index: usize,
    pub action_tx: Option<ActionSender>,
    pub keymap: Keymap,
    pub enhanced_graphics: bool,
    pub area: Rect,
    pub areas: Vec<Rect>,
}

impl WorldMap {
    /// The page has the areas that drawing needs: a layout pass has
    /// cached them.
    pub open spec fn laid_out(&self) -> bool {
        self.areas@.len() >= 1
    }

    pub open spec fn wf(&self) -> bool {
        self.input.wf()
    }

    /// A map with the four servers on it.
    pub fn new() -> (page: WorldMap)
        ensures
            !page.show,
            page.mode == InputMode::Normal,
            page.enhanced_graphics,
            page.menu_index == 0,
            page.action_tx.is_none(),
            page.area == Rect::zero(),
            page.areas@.len() == 0,
            page.servers@.len() == 4,
            page.servers@[0].name@ == "NorthAmerica-1"@ && page.servers@[0].status@ == "Up"@,
            page.servers@[1].name@ == "Europe-1"@ && page.servers@[1].status@ == "Failure"@,
            page.servers@[2].name@ == "SouthAmerica-1"@ && page.servers@[2].status@ == "Up"@,
            page.servers@[3].name@ == "Asia-1"@ && page.servers@[3].status@ == "Up"@,
            page.wf(),
            page.keymap.entries@.len() == 0,
            page.input.value@.len() == 0,
            page.input.cursor == 0,
            page.servers@[0].location@ == "New York City"@ && page.servers@[0].latitude == 4071 && page.servers@[0].longitude == -7400,
            page.servers@[1].location@ == "Paris"@ && page.servers@[1].latitude == 4885 && page.servers@[1].longitude == 235,
            page.servers@[2].location@ == "São Paulo"@ && page.servers@[2].latitude == -2354 && page.servers@[2].longitude == -4662,
            page.servers@[3].location@ == "Singapore"@ && page.servers@[3].latitude == 135 && page.servers@[3].longitude == 10386,
    {
        let mut servers: Vec<Server> = Vec::new();
        servers.push(Server::new("NorthAmerica-1", "New York City", 4071, -7400, "Up"));
        servers.push(Server::new("Europe-1", "Paris", 4885, 235, "Failure"));
        servers.push(Server::new("SouthAmerica-1", "São Paulo", -2354, -4662, "Up"));
        servers.push(Server::new("Asia-1", "Singapore", 135, 10386, "Up"));
        WorldMap {
            show: false,
            mode: InputMode::default(),
            servers,
            input: Input::default(),
            menu_index: 0,
            action_tx: None,
            keymap: Keymap::new(),
            enhanced_graphics: true,
            area: Rect::default(),
            areas: Vec::new(),
        }
    }

    pub fn keymap(self, keymap: Keymap) -> (page: WorldMap)
        ensures
            page == (WorldMap { keymap, ..self }),
    {
        WorldMap { keymap, ..self }
    }

    pub fn current_mode(&self) -> (mode: InputMode)
        ensures
            mode == InputMode::Normal,
    {
        InputMode::Normal
    }

    pub fn register_action_handler(&mut self, tx: ActionSender)
        ensures
            *final(self) == (WorldMap { action_tx: Some(tx), ..*old(self) }),
    {
        self.action_tx = Some(tx);
    }

    /// While work is under way a key goes to the input and asks for an
    /// update; else no key does anything.
    pub fn handle_key_events(&mut self, key: KeyEvent) -> (action: Option<Action>)
        requires
            old(self).wf(),
        ensures
            final(self).wf(),
            action == if old(self).mode == InputMode::Processing {
                Some(Action::Update)
            } else {
                None
            },
            (final(self).input.value@, final(self).input.cursor as nat) == if old(self).mode
                == InputMode::Processing {
                old(self).input.after_key(key)
            } else {
                (old(self).input.value@, old(self).input.cursor as nat)
            },
            *final(self) == (WorldMap { input: final(self).input, ..*old(self) }),
    {
        match self.mode {
            InputMode::Processing => {
                self.input.handle_event(&key);
                Some(Action::Update)
            },
            _ => None,
        }
    }

    /// Takes `area`, of which the map gets a strip of rows.
    pub fn register_layout_handler(&mut self, area: Rect)
        ensures
            final(self).area == area,
            final(self).areas@.len() == 1,
            strip(Direction::Vertical, 0, 0, area, final(self).areas@[0]),
            row_of(area, final(self).areas@[0]),
            *final(self) == (WorldMap { area, areas: final(self).areas, ..*old(self) }),
    {
        self.area = area;
        let main_area = Layout::vertical(vec![Sizing::Min(1)]).single(self.area);
        self.areas = vec![main_area];
    }

    /// The page takes no pointer events.
    pub fn handle_mouse_events(&mut self, mouse: MouseEvent) -> (action: Option<Action>)
        ensures
            action.is_none(),
            *final(self) == *old(self),
    {
        None
    }

    /// Forward and back move round the menu of the pages.
    pub fn update(&mut self, action: Action, ctx: &Ctx) -> (follow_up: Option<Action>)
        ensures
            follow_up.is_none(),
            *final(self) == (WorldMap {
                menu_index: entry_after(old(self).menu_index, action),
                ..*old(self)
            }),
    {
        self.menu_index = cycle(self.menu_index, &action);
        None
    }

    /// Draws the map into its area.
    /// Before a layout pass has cached the areas, nothing is drawn.
    pub fn draw(&self, f: &mut Frame)
        ensures
            final(f).area == old(f).area,
            !self.laid_out() ==> final(f).ops@ == old(f).ops@ && final(f).cursor == old(f).cursor,
            self.laid_out() ==> ({
                &&& final(f).cursor == old(f).cursor
                &&& final(f).ops@ == old(f).ops@.push(
                    DrawOp { widget: Widget::WorldMap, area: self.areas@[0] },
                )
            }),
    {
        if !(self.areas.len() >= 1) {
            return ;
        }
        f.render_widget(Widget::WorldMap, self.areas[0]);
    }
}

} // verus!
