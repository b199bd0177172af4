//! The vocabulary in which pages and widgets talk to each other.

use vstd::prelude::*;
use crate::keys::MouseEvent;

verus! {

/// A navigable page of the application, and the key under which its
/// bindings are filed. `Global` files the bindings shared by all pages.
#[derive(Debug, Clone, Copy, PartialEq, Eq, Hash, Structural)]
pub enum Mode {
    Global,
    Login,
    Signup,
    Home,
    Settings,
    Chat,
    WorldMap,
    Filebrowser,
    MusicPlayer,
    Blog,
}

/// The pages that the navigation bar offers, in the order of its tabs.
pub open spec fn navigable_modes() -> Seq<Mode> {
    seq![
        Mode::Home,
        Mode::Chat,
        Mode::WorldMap,
        Mode::Filebrowser,
        Mode::MusicPlayer,
        Mode::Blog,
        Mode::Settings,
    ]
}

impl Mode {
    /// Number of pages in the navigation bar.
    pub const COUNT: usize = 7;

    /// The pages of the navigation bar, in tab order.
    pub fn all() -> (modes: Vec<Mode>)
        ensures
            modes@ == navigable_modes(),
            modes@.len() == Mode::COUNT,
    {
        let modes = vec![
            Mode::Home,
            Mode::Chat,
            Mode::WorldMap,
            Mode::Filebrowser,
            Mode::MusicPlayer,
            Mode::Blog,
            Mode::Settings,
        ];
        assert(modes@ =~= navigable_modes());
        modes
    }

    /// The name under which the page is shown.
    pub open spec fn spec_label(self) -> Seq<char> {
        match self {
            Mode::Global => "Global"@,
            Mode::Login => "Login"@,
            Mode::Signup => "Signup"@,
            Mode::Home => "Home"@,
            Mode::Settings => "Settings"@,
            Mode::Chat => "Chat"@,
            Mode::WorldMap => "Map"@,
            Mode::Filebrowser => "Filebrowser"@,
            Mode::MusicPlayer => "MusicPlayer"@,
            Mode::Blog => "Blog"@,
        }
    }

    pub fn label(&self) -> (name: &'static str)
        ensures
            name@ == self.spec_label(),
    {
        match self {
            Mode::Global => "Global",
            Mode::Login => "Login",
            Mode::Signup => "Signup",
            Mode::Home => "Home",
            Mode::Settings => "Settings",
            Mode::Chat => "Chat",
            Mode::WorldMap => "Map",
            Mode::Filebrowser => "Filebrowser",
            Mode::MusicPlayer => "MusicPlayer",
            Mode::Blog => "Blog",
        }
    }
}

impl Default for Mode {
    fn default() -> (mode: Mode)
        ensures
            mode == Mode::Login,
    {
        Mode::Login
    }
}

/// A page key of the registry that the application root owns.
#[derive(Debug, Clone, Copy, PartialEq, Eq, Hash, Structural)]
pub enum Page {
    Login,
    Home,
    Settings,
    Help,
}

impl Default for Page {
    fn default() -> (page: Page)
        ensures
            page == Page::Login,
    {
        Page::Login
    }
}

/// The small state machine tag by which a component tells its parent
/// whether it wants the next key for itself.
#[derive(Debug, Clone, Copy, PartialEq, Eq, Hash, Structural)]
pub enum InputMode {
    Normal,
    Insert,
    OptionInput,
    InsertUser,
    InsertPass,
    Processing,
    Submit,
    Select,
    Cancel,
}

/// The two answers of a confirmation dialog: no first, then yes.
pub open spec fn confirm_modes() -> Seq<InputMode> {
    seq![InputMode::Submit, InputMode::Cancel]
}

impl InputMode {
    /// Number of answers of a confirmation dialog.
    pub const CONFIRM_COUNT: usize = 2;

    pub fn confirm() -> (modes: Vec<InputMode>)
        ensures
            modes@ == confirm_modes(),
            modes@.len() == InputMode::CONFIRM_COUNT,
    {
        let modes = vec![InputMode::Submit, InputMode::Cancel];
        assert(modes@ =~= confirm_modes());
        modes
    }
}

impl Default for InputMode {
    fn default() -> (mode: InputMode)
        ensures
            mode == InputMode::Normal,
    {
        InputMode::Normal
    }
}

/// An application-level event. Actions carry no borrowed state and are
/// the only thing that passes between components.
#[derive(Debug, PartialEq, Eq, Hash)]
pub enum Action {
    Tick,
    Render,
    Resize(u16, u16),
    Mouse(MouseEvent),
    ToggleNav,
    Suspend,
    Resume,
    Quit,
    Refresh,
    Error(String),
    Back,
    Forward,
    ChangeMode(Mode),
    ChangePage(Page),
    NextView,
    PreviousView,
    PausePlay,
    Settings,
    Home,
    SelectOption,
    OpenFile,
    SelectItem,
    ClosePopup,
    CloseToast,
    ToggleShowHelp,
    ToggleShowQuit,
    ToggleUsers,
    ToggleChats,
    ToggleLog,
    ToggleSidebar,
    OpenFilepicker,
    ScrollUp,
    ScrollDown,
    ScheduleIncrement,
    ScheduleDecrement,
    Increment(usize),
    Decrement(usize),
    CompleteInput(String),
    SubmitEmail(String),
    Login,
    Register,
    Toast(String, String),
    Popup(String, String),
    EnterNormal,
    EnterInput,
    LoggedIn,
    LoggedOut,
    EnterInsert,
    EnterProcessing,
    Cycle,
    Update,
}

impl Clone for Action {
    fn clone(&self) -> (copy: Action)
        ensures
            copy == *self,
    {
        match self {
            Action::Tick => Action::Tick,
            Action::Render => Action::Render,
            Action::Resize(w, h) => Action::Resize(*w, *h),
            Action::Mouse(m) => Action::Mouse(*m),
            Action::ToggleNav => Action::ToggleNav,
            Action::Suspend => Action::Suspend,
            Action::Resume => Action::Resume,
            Action::Quit => Action::Quit,
            Action::Refresh => Action::Refresh,
            Action::Error(s) => Action::Error(s.clone()),
            Action::Back => Action::Back,
            Action::Forward => Action::Forward,
            Action::ChangeMode(m) => Action::ChangeMode(*m),
            Action::ChangePage(p) => Action::ChangePage(*p),
            Action::NextView => Action::NextView,
            Action::PreviousView => Action::PreviousView,
            Action::PausePlay => Action::PausePlay,
            Action::Settings => Action::Settings,
            Action::Home => Action::Home,
            Action::SelectOption => Action::SelectOption,
            Action::OpenFile => Action::OpenFile,
            Action::SelectItem => Action::SelectItem,
            Action::ClosePopup => Action::ClosePopup,
            Action::CloseToast => Action::CloseToast,
            Action::ToggleShowHelp => Action::ToggleShowHelp,
            Action::ToggleShowQuit => Action::ToggleShowQuit,
            Action::ToggleUsers => Action::ToggleUsers,
            Action::ToggleChats => Action::ToggleChats,
            Action::ToggleLog => Action::ToggleLog,
            Action::ToggleSidebar => Action::ToggleSidebar,
            Action::OpenFilepicker => Action::OpenFilepicker,
            Action::ScrollUp => Action::ScrollUp,
            Action::ScrollDown => Action::ScrollDown,
            Action::ScheduleIncrement => Action::ScheduleIncrement,
            Action::ScheduleDecrement => Action::ScheduleDecrement,
            Action::Increment(i) => Action::Increment(*i),
            Action::Decrement(i) => Action::Decrement(*i),
            Action::CompleteInput(s) => Action::CompleteInput(s.clone()),
            Action::SubmitEmail(s) => Action::SubmitEmail(s.clone()),
            Action::Login => Action::Login,
            Action::Register => Action::Register,
            Action::Toast(t, b) => Action::Toast(t.clone(), b.clone()),
            Action::Popup(t, b) => Action::Popup(t.clone(), b.clone()),
            Action::EnterNormal => Action::EnterNormal,
            Action::EnterInput => Action::EnterInput,
            Action::LoggedIn => Action::LoggedIn,
            Action::LoggedOut => Action::LoggedOut,
            Action::EnterInsert => Action::EnterInsert,
            Action::EnterProcessing => Action::EnterProcessing,
            Action::Cycle => Action::Cycle,
            Action::Update => Action::Update,
        }
    }
}

} // verus!
