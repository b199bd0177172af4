//! The root of the application: the registry of pages, the page that is
//! shown, and the dispatch of keys and actions.

use vstd::prelude::*;
use crate::action::{Action, Page};
use crate::component::ActionSender;
use crate::components::clip::{is_intro, Clip};
use crate::components::login::Login;
use crate::components::textinput::TextInput;
use crate::conf::{app_name, name};
use crate::keys::{KeyCode, KeyEvent, MouseEvent};
use crate::pages::notfound::{is_not_found, NotFound};
use crate::render::{DrawOp, Frame, Widget};
use crate::text::{push_str, string_from};

verus! {

/// Which set of navigation keys is in force.
#[derive(Debug, Clone, Copy, PartialEq, Eq, Structural)]
pub enum InputMode {
    Normal,
    Other,
}

/// A page or a component of the registry.
pub enum PageView {
    Login(Login),
    Message(TextInput),
    Clip(Clip),
}

impl PageView {
    /// Whether the view handles `key` as the page that is shown.
    pub open spec fn handles(&self, key: KeyEvent) -> Option<bool> {
        match *self {
            PageView::Login(page) => page.handles(),
            PageView::Message(page) => page.handles(),
            PageView::Clip(_) => None,
        }
    }

    /// The view is what `before` becomes by `key`.
    pub open spec fn keyed(&self, before: PageView, key: KeyEvent) -> bool {
        match (before, *self) {
            (PageView::Login(was), PageView::Login(page)) => page.keyed(was, key),
            (PageView::Message(was), PageView::Message(page)) => page.keyed(was, key),
            (PageView::Clip(was), PageView::Clip(page)) => page == was,
            _ => false,
        }
    }

    /// The view is what `before` becomes by the pointer event `mouse`.
    pub open spec fn pointed(&self, before: PageView, mouse: MouseEvent) -> bool {
        match before {
            PageView::Message(was) => *self == PageView::Message(was.pointed(mouse)),
            _ => *self == before,
        }
    }

    /// `ops` is `before` with the view behind it, on a surface of
    /// `area`.
    pub open spec fn drawn(
        &self,
        before: Seq<DrawOp>,
        ops: Seq<DrawOp>,
        area: crate::layout::Rect,
        was: Option<crate::layout::Position>,
        cursor: Option<crate::layout::Position>,
    ) -> bool {
        match *self {
            PageView::Login(page) => page.drawn(before, ops, was, cursor),
            PageView::Message(page) => page.drawn(before, ops, area, was, cursor),
            PageView::Clip(_) => is_intro(before, ops, area) && cursor == was,
        }
    }

    /// Hands the sender to the view, if it takes one.
    pub fn register_action_handler(&mut self, tx: ActionSender)
        ensures
            match *old(self) {
                PageView::Message(before) => *final(self) == PageView::Message(
                    TextInput { tx: Some(tx), ..before },
                ),
                _ => *final(self) == *old(self),
            },
    {
        match self {
            PageView::Message(page) => page.register_action_handler(tx),
            _ => {},
        }
    }

    /// Hands a pointer event to the view, if it takes them.
    pub fn handle_mouse(&mut self, mouse: MouseEvent)
        ensures
            final(self).pointed(*old(self), mouse),
    {
        match self {
            PageView::Message(page) => {
                page.handle_mouse(mouse);
            },
            _ => {},
        }
    }

    /// Hands a key to the view.
    pub fn handle_events(&mut self, key: KeyEvent) -> (handled: Option<bool>)
        ensures
            handled == old(self).handles(key),
            final(self).keyed(*old(self), key),
    {
        match self {
            PageView::Login(page) => page.handle_events(key),
            PageView::Message(page) => page.handle_events(key),
            PageView::Clip(page) => page.handle_events(key),
        }
    }

    /// Draws the view.
    pub fn draw(&self, frame: &mut Frame)
        ensures
            final(frame).area == old(frame).area,
            self.drawn(
                old(frame).ops@,
                final(frame).ops@,
                old(frame).area,
                old(frame).cursor,
                final(frame).cursor,
            ),
    {
        match self {
            PageView::Login(page) => page.draw(frame),
            PageView::Message(page) => page.draw(frame),
            PageView::Clip(page) => page.draw(frame),
        }
    }
}

/// The index of the first entry of `pages` that is filed under `page`.
pub open spec fn position_of(pages: Seq<(Page, PageView)>, page: Page) -> Option<int>
    decreases pages.len(),
{
    if pages.len() == 0 {
        None
    } else if pages[0].0 == page {
        Some(0)
    } else {
        match position_of(pages.subrange(1, pages.len() as int), page) {
            Some(i) => Some(i + 1),
            None => None,
        }
    }
}

/// Where `position_of` finds a page, the page is filed there.
pub proof fn lemma_position_of(pages: Seq<(Page, PageView)>, page: Page)
    ensures
        match position_of(pages, page) {
            Some(i) => 0 <= i < pages.len() && pages[i].0 == page,
            None => forall|k: int| 0 <= k < pages.len() ==> pages[k].0 != page,
        },
    decreases pages.len(),
{
    if pages.len() > 0 && pages[0].0 != page {
        let rest = pages.subrange(1, pages.len() as int);
        lemma_position_of(rest, page);
        match position_of(rest, page) {
            Some(i) => {},
            None => {
                assert forall|k: int| 0 <= k < pages.len() implies pages[k].0 != page by {
                    if k > 0 {
                        assert(rest[k - 1] == pages[k]);
                    }
                }
            },
        }
    }
}

/// `after` is `before` with a handle of the sender, where it takes one.
pub open spec fn registered(before: PageView, after: PageView) -> bool {
    match before {
        PageView::Message(page) => after matches PageView::Message(with) && (
        with.tx matches Some(handle) && handle.queue@.len() == 0) && with == (TextInput {
            tx: with.tx,
            ..page
        }),
        _ => after == before,
    }
}

/// The registry of pages: each page at most once.
pub struct Pages(pub Vec<(Page, PageView)>);

/// The components that show on every page.
pub struct UiComponents(pub Vec<PageView>);

/// The page that a navigation key leads to.
pub open spec fn navigated(mode: InputMode, current: Page, key: KeyEvent) -> Page {
    match key.code {
        KeyCode::Char(c) => if c == 'q' {
            Page::Settings
        } else if c == 'h' {
            match mode {
                InputMode::Normal => Page::Login,
                InputMode::Other => Page::Home,
            }
        } else if c == 'm' && mode == InputMode::Normal {
            Page::Help
        } else {
            current
        },
        _ => current,
    }
}

/// The page that `action` leads to from `current`: an action that
/// changes the page names it, a submitted address leads to the
/// settings, and every other action leaves the page.
pub open spec fn page_after(current: Page, action: Action) -> Page {
    match action {
        Action::ChangePage(page) => page,
        Action::SubmitEmail(_) => Page::Settings,
        _ => current,
    }
}

/// The page that shows after all the actions of `queue` have been
/// handled in their order: the one that the last action that sets a
/// page leads to, and `current` where none does.
pub open spec fn after_actions(current: Page, queue: Seq<Action>) -> Page
    decreases queue.len(),
{
    if queue.len() == 0 {
        current
    } else {
        page_after(after_actions(current, queue.drop_last()), queue.last())
    }
}

/// Handling a queue is handling its first action and then the rest.
pub proof fn lemma_after_actions_front(current: Page, queue: Seq<Action>)
    requires
        queue.len() > 0,
    ensures
        after_actions(current, queue) == after_actions(
            page_after(current, queue[0]),
            queue.subrange(1, queue.len() as int),
        ),
    decreases queue.len(),
{
    let rest = queue.subrange(1, queue.len() as int);
    if queue.len() == 1 {
        assert(queue.drop_last() =~= Seq::<Action>::empty());
        assert(rest =~= Seq::<Action>::empty());
    } else {
        lemma_after_actions_front(current, queue.drop_last());
        assert(queue.drop_last().subrange(1, queue.len() - 1) =~= rest.drop_last());
        assert(queue.drop_last()[0] == queue[0]);
        assert(rest.last() == queue.last());
    }
}

/// Navigation does not depend on where it starts: whatever page was
/// current, filed in the registry or not, and whatever was handled
/// before, a change to `page` at the end of the queue makes `page` the
/// current one.
pub proof fn lemma_change_page_leads_there(current: Page, queue: Seq<Action>, page: Page)
    ensures
        after_actions(current, queue.push(Action::ChangePage(page))) == page,
{
    assert(queue.push(Action::ChangePage(page)).drop_last() =~= queue);
}

/// The title of the window while `page` shows.
pub open spec fn window_title(page: Page) -> Seq<char> {
    app_name() + " - "@ + match page {
        Page::Login => "Login"@,
        Page::Home => "Home"@,
        Page::Settings => "Settings"@,
        Page::Help => "Help"@,
    }
}

/// App holds the state of the application
pub struct App {
    pub tx: Option<ActionSender>,
    /// Current input mode
    pub input_mode: InputMode,
    // Current application mode/page
    pub current_mode: Page,
    // Page/view currently being displayed
    pub pages: Pages,
    // Components
    pub components: UiComponents,
}

impl App {
    /// The entry of the registry for the page that is shown.
    pub open spec fn shown(&self) -> Option<int> {
        position_of(self.pages.0@, self.current_mode)
    }

    /// An application on its first page, with the pages for logging in,
    /// for the settings and for the help in the registry, and none for
    /// the home page.
    pub fn new() -> (app: App)
        ensures
            app.tx.is_none(),
            app.input_mode == InputMode::Normal,
            app.current_mode == Page::Login,
            app.components.0@.len() == 0,
            app.pages.0@.len() == 3,
            app.pages.0@[0].0 == Page::Login && app.pages.0@[0].1 is Login,
            app.pages.0@[1].0 == Page::Settings && app.pages.0@[1].1 is Message,
            app.pages.0@[2].0 == Page::Help && app.pages.0@[2].1 is Clip,
            position_of(app.pages.0@, Page::Home).is_none(),
            position_of(app.pages.0@, Page::Login) == Some(0int),
    {
        let input = TextInput::new();
        let clip = Clip::new();
        let login = Login::new();
        let mut pages: Vec<(Page, PageView)> = Vec::new();
        pages.push((Page::Login, PageView::Login(login)));
        pages.push((Page::Settings, PageView::Message(input)));
        pages.push((Page::Help, PageView::Clip(clip)));
        proof {
            lemma_position_of(pages@, Page::Home);
        }
        App {
            tx: None,
            components: UiComponents(Vec::new()),
            input_mode: InputMode::Normal,
            current_mode: Page::default(),
            pages: Pages(pages),
        }
    }

    /// Hands a handle of the sender to every page and component.
    pub fn register_action_handler(&mut self, tx: ActionSender)
        ensures
            final(self).tx == old(self).tx,
            final(self).input_mode == old(self).input_mode,
            final(self).current_mode == old(self).current_mode,
            final(self).pages.0@.len() == old(self).pages.0@.len(),
            final(self).components.0@.len() == old(self).components.0@.len(),
            forall|i: int|
                0 <= i < old(self).pages.0@.len() ==> (#[trigger] final(self).pages.0@[i]).0
                    == old(self).pages.0@[i].0 && registered(
                    old(self).pages.0@[i].1,
                    final(self).pages.0@[i].1,
                ),
            forall|i: int|
                0 <= i < old(self).components.0@.len() ==> registered(
                    old(self).components.0@[i],
                    #[trigger] final(self).components.0@[i],
                ),
    {
        let mut i: usize = 0;
        while i < self.pages.0.len()
            invariant
                i <= self.pages.0@.len(),
                self.tx == old(self).tx,
                self.input_mode == old(self).input_mode,
                self.current_mode == old(self).current_mode,
                self.components == old(self).components,
                self.pages.0@.len() == old(self).pages.0@.len(),
                forall|k: int|
                    i <= k < self.pages.0@.len() ==> self.pages.0@[k] == old(self).pages.0@[k],
                forall|k: int|
                    0 <= k < i ==> (#[trigger] self.pages.0@[k]).0 == old(self).pages.0@[k].0
                        && registered(old(self).pages.0@[k].1, self.pages.0@[k].1),
            decreases self.pages.0@.len() - i,
        {
            let (page, mut view) = self.pages.0.remove(i);
            view.register_action_handler(tx.handle());
            self.pages.0.insert(i, (page, view));
            i += 1;
        }
        let ghost pages = self.pages;
        let mut j: usize = 0;
        while j < self.components.0.len()
            invariant
                j <= self.components.0@.len(),
                self.tx == old(self).tx,
                self.input_mode == old(self).input_mode,
                self.current_mode == old(self).current_mode,
                self.pages == pages,
                self.components.0@.len() == old(self).components.0@.len(),
                forall|k: int|
                    j <= k < self.components.0@.len() ==> self.components.0@[k] == old(self).components.0@[k],
                forall|k: int|
                    0 <= k < j ==> registered(
                        old(self).components.0@[k],
                        #[trigger] self.components.0@[k],
                    ),
            decreases self.components.0@.len() - j,
        {
            let mut view = self.components.0.remove(j);
            view.register_action_handler(tx.handle());
            self.components.0.insert(j, view);
            j += 1;
        }
    }

    /// Where the page that is shown is filed in the registry.
    pub fn find_current(&self) -> (at: Option<usize>)
        ensures
            match at {
                Some(i) => self.shown() == Some(i as int) && i < self.pages.0@.len()
                    && self.pages.0@[i as int].0 == self.current_mode,
                None => self.shown().is_none(),
            },
    {
        let mut i: usize = 0;
        proof {
            lemma_position_of(self.pages.0@, self.current_mode);
            assert(self.pages.0@.subrange(0, self.pages.0@.len() as int) =~= self.pages.0@);
        }
        while i < self.pages.0.len()
            invariant
                i <= self.pages.0@.len(),
                self.shown() == match position_of(
                    self.pages.0@.subrange(i as int, self.pages.0@.len() as int),
                    self.current_mode,
                ) {
                    Some(k) => Some(k + i),
                    None => None,
                },
            decreases self.pages.0@.len() - i,
        {
            let ghost rest = self.pages.0@.subrange(i as int, self.pages.0@.len() as int);
            assert(rest[0] == self.pages.0@[i as int]);
            assert(rest.subrange(1, rest.len() as int) =~= self.pages.0@.subrange(
                i + 1,
                self.pages.0@.len() as int,
            ));
            if self.pages.0[i].0 == self.current_mode {
                return Some(i);
            }
            i += 1;
        }
        None
    }

    /// Hands a pointer event to the page that is shown.
    pub fn handle_mouse(&mut self, mouse_event: MouseEvent)
        ensures
            final(self).tx == old(self).tx,
            final(self).input_mode == old(self).input_mode,
            final(self).current_mode == old(self).current_mode,
            final(self).components == old(self).components,
            final(self).pages.0@.len() == old(self).pages.0@.len(),
            forall|i: int|
                0 <= i < old(self).pages.0@.len() ==> (#[trigger] final(self).pages.0@[i]).0
                    == old(self).pages.0@[i].0 && if old(self).shown() == Some(i) {
                    final(self).pages.0@[i].1.pointed(old(self).pages.0@[i].1, mouse_event)
                } else {
                    final(self).pages.0@[i] == old(self).pages.0@[i]
                },
    {
        if let Some(i) = self.find_current() {
            let (page, mut view) = self.pages.0.remove(i);
            view.handle_mouse(mouse_event);
            self.pages.0.insert(i, (page, view));
        }
    }

    /// Hands a key to the page that is shown. A key that the page does
    /// not handle, or that no page is there for, navigates: `q` leads
    /// to the settings, `h` to the first page or, in the other mode, to
    /// the home page, and `m` to the help.
    pub fn handle_events(&mut self, key_event: KeyEvent)
        ensures
            final(self).tx == old(self).tx,
            final(self).input_mode == old(self).input_mode,
            final(self).components == old(self).components,
            final(self).pages.0@.len() == old(self).pages.0@.len(),
            forall|i: int|
                0 <= i < old(self).pages.0@.len() ==> (#[trigger] final(self).pages.0@[i]).0
                    == old(self).pages.0@[i].0 && if old(self).shown() == Some(i) {
                    final(self).pages.0@[i].1.keyed(old(self).pages.0@[i].1, key_event)
                } else {
                    final(self).pages.0@[i] == old(self).pages.0@[i]
                },
            final(self).current_mode == match old(self).shown() {
                Some(i) => match old(self).pages.0@[i].1.handles(key_event) {
                    Some(true) => old(self).current_mode,
                    _ => navigated(old(self).input_mode, old(self).current_mode, key_event),
                },
                None => navigated(old(self).input_mode, old(self).current_mode, key_event),
            },
    {
        let mut handled: Option<bool> = None;
        if let Some(i) = self.find_current() {
            let (page, mut view) = self.pages.0.remove(i);
            handled = view.handle_events(key_event);
            self.pages.0.insert(i, (page, view));
        }
        let taken = match handled {
            Some(true) => true,
            _ => false,
        };
        if !taken {
            match self.input_mode {
                InputMode::Normal => match key_event.code {
                    KeyCode::Char('q') => {
                        self.current_mode = Page::Settings;
                    },
                    KeyCode::Char('h') => {
                        self.current_mode = Page::Login;
                    },
                    KeyCode::Char('m') => {
                        self.current_mode = Page::Help;
                    },
                    _ => {},
                },
                InputMode::Other => match key_event.code {
                    KeyCode::Char('q') => {
                        self.current_mode = Page::Settings;
                    },
                    KeyCode::Char('h') => {
                        self.current_mode = Page::Home;
                    },
                    _ => {},
                },
            }
        }
    }

    /// Handles all the actions that wait in `queue`, oldest first, and
    /// leaves the queue empty.
    pub fn handle_actions(&mut self, queue: &mut Vec<Action>) -> (follow_up: Option<Action>)
        ensures
            follow_up.is_none(),
            final(queue)@.len() == 0,
            final(self).current_mode == after_actions(old(self).current_mode, old(queue)@),
            *final(self) == (App { current_mode: final(self).current_mode, ..*old(self) }),
    {
        while queue.len() > 0
            invariant
                after_actions(old(self).current_mode, old(queue)@) == after_actions(
                    self.current_mode,
                    queue@,
                ),
                *self == (App { current_mode: self.current_mode, ..*old(self) }),
            decreases queue@.len(),
        {
            let ghost before = queue@;
            proof {
                lemma_after_actions_front(self.current_mode, before);
            }
            let action = queue.remove(0);
            assert(queue@ =~= before.subrange(1, before.len() as int));
            match action {
                Action::ChangePage(page) => {
                    self.current_mode = page;
                },
                Action::SubmitEmail(_) => {
                    self.current_mode = Page::Settings;
                },
                _ => {},
            }
        }
        None
    }

    /// The title of the window for the page that is shown.
    pub fn title(&self) -> (title: String)
        ensures
            title@ == window_title(self.current_mode),
    {
        let mut text: Vec<char> = Vec::new();
        push_str(&mut text, name());
        push_str(&mut text, " - ");
        push_str(
            &mut text,
            match self.current_mode {
                Page::Login => "Login",
                Page::Home => "Home",
                Page::Settings => "Settings",
                Page::Help => "Help",
            },
        );
        string_from(&text)
    }

    /// Runs one frame: the actions that wait are handled; then the page
    /// that is shown is drawn, or the notice that there is no such page
    /// where the registry has none; and the title of the window is
    /// handed back where there is a page.
    pub fn run(&mut self, frame: &mut Frame, queue: &mut Vec<Action>) -> (title: Option<String>)
        ensures
            final(queue)@.len() == 0,
            final(self).current_mode == after_actions(old(self).current_mode, old(queue)@),
            *final(self) == (App { current_mode: final(self).current_mode, ..*old(self) }),
            final(frame).area == old(frame).area,
            final(frame).ops@.subrange(0, old(frame).ops@.len() as int) == old(frame).ops@,
            match final(self).shown() {
                Some(i) => {
                    &&& title matches Some(text) && text@ == window_title(
                        final(self).current_mode,
                    )
                    &&& final(self).pages.0@[i].1.drawn(
                        old(frame).ops@,
                        final(frame).ops@,
                        old(frame).area,
                        old(frame).cursor,
                        final(frame).cursor,
                    )
                },
                None => {
                    &&& title.is_none()
                    &&& final(frame).cursor == old(frame).cursor
                    &&& is_not_found(old(frame).ops@, final(frame).ops@, old(frame).area)
                },
            },
    {
        self.handle_actions(queue);
        match self.find_current() {
            Some(i) => {
                self.pages.0[i].1.draw(frame);
                Some(self.title())
            },
            None => {
                NotFound::new().draw(frame);
                None
            },
        }
    }
}

} // verus!
