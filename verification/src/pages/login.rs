//! The page on which an account logs in or registers.

use vstd::prelude::*;
use vstd::string::StringSliceAdditionalSpecFns;
use crate::action::{Action, InputMode, Mode};
use crate::component::{
    emit, handed, is_validation_toast, start, ActionSender, Ctx, Keymap, Outgoing, Task,
};
use crate::components::loader::Loader;
use crate::input::Input;
use crate::keys::{KeyCode, KeyEvent, MouseButton, MouseEvent, MouseEventKind};
use crate::layout::{cut_through, cut_twice, strip, Direction, Layout, Position, Rect, Sizing};
use crate::pages::parts::{cursor_cell, cursor_in};
use crate::render::{
    Alignment, Block, Color, Frame, Line, Paragraph, Style, Widget, BORDER_ALL,
};
use crate::text::{chars_of, string_from};

verus! {

/// The parts of the page that the cursor goes to, in its order.
#[derive(Debug, Clone, Copy, PartialEq, Eq, Structural)]
pub enum Items {
    Email,
    Password,
    Submit,
    Switch,
    Local,
}

/// The parts of the page in the order of the cursor.
pub open spec fn all_items() -> Seq<Items> {
    seq![Items::Email, Items::Password, Items::Submit, Items::Switch, Items::Local]
}

impl Items {
    /// How many parts the page has.
    pub const COUNT: usize = 5;

    /// The part at `index`.
    pub fn at(index: usize) -> (item: Items)
        requires
            index < Items::COUNT,
        ensures
            item == all_items()[index as int],
    {
        if index == 0 {
            Items::Email
        } else if index == 1 {
            Items::Password
        } else if index == 2 {
            Items::Submit
        } else if index == 3 {
            Items::Switch
        } else {
            Items::Local
        }
    }
}

/// Whether `validator` takes `text` for an e-mail address.
pub uninterp spec fn email_valid(text: Seq<char>) -> bool;

/// `ValidateEmail::validate_email` of validator, on a string. It checks
/// the text against the address form of the HTML standard; text without
/// an `@` in it has that form never.
#[verifier::external_body]
fn validate_email(text: &str) -> (ok: bool)
    ensures
        ok == email_valid(text@),
        !text@.contains('@') ==> !ok,
{
    validator::ValidateEmail::validate_email(&text)
}

/// `ValidateLength::validate_length` of validator, on a string and with
/// a lower bound alone: whether the text has `min` characters or more.
#[verifier::external_body]
fn validate_min_length(text: &str, min: u64) -> (ok: bool)
    ensures
        ok == (text@.len() >= min),
{
    validator::ValidateLength::validate_length(text, Some(min), None, None)
}

/// The account may be sent to the server: the user is an e-mail address
/// and the password has three characters or more.
pub open spec fn account_valid(user: Seq<char>, password: Seq<char>) -> bool {
    email_valid(user) && password.len() >= 3
}

/// Whether the account may be sent to the server.
pub fn validate_account(user: &str, password: &str) -> (ok: bool)
    ensures
        ok == account_valid(user@, password@),
        !user@.contains('@') ==> !ok,
{
    let email_ok = validate_email(user);
    let password_ok = validate_min_length(password, 3);
    email_ok && password_ok
}

/// Scrolls the index of a cursor one part on, round the parts.
pub open spec fn next_part(index: usize) -> usize {
    ((index + 1) % 5) as usize
}

/// Scrolls the index of a cursor one part back, round the parts.
pub open spec fn previous_part(index: usize) -> usize {
    if index == 0 {
        4
    } else {
        ((index - 1) % 5) as usize
    }
}

pub struct Login {
    pub menu_index: usize,
    pub mode: InputMode,
    pub email: Input,
    pub password: Input,
    pub render_ticker: usize,
    pub action_tx: Option<ActionSender>,
    pub keymap: Keymap,
    pub mouse: Option<MouseEvent>,
    pub area: Rect,
    pub areas: Vec<Rect>,
    pub loader: Loader,
}

/// What is sent when an account is submitted as a login or as a
/// registration: a valid account starts the task, and an invalid one is
/// reported by a toast before the processing state is left.
pub open spec fn submitted(user: String, password: String, register: bool, sent: Seq<
    Outgoing,
>) -> bool {
    if account_valid(user@, password@) {
        &&& sent.len() == 1
        &&& sent[0] matches Outgoing::Spawn(task)
        &&& if register {
            task matches Task::Register { user: u, password: p } && u@ == user@ && p@
                == password@
        } else {
            task matches Task::Login { user: u, password: p } && u@ == user@ && p@ == password@
        }
    } else {
        &&& sent.len() == 2
        &&& sent[0] matches Outgoing::Send(toast)
        &&& is_validation_toast(
            toast,
            if register {
                "Failed to validate email."@
            } else {
                "Not a valid email."@
            },
        )
        &&& sent[1] == Outgoing::Send(Action::EnterNormal)
    }
}

impl Login {
    /// The page has the areas that drawing needs: a layout pass has
    /// cached them.
    pub open spec fn laid_out(&self) -> bool {
        self.areas@.len() == Items::COUNT
    }

    /// The cursor stands on a part of the page, and the fields are in
    /// order.
    pub open spec fn wf(&self) -> bool {
        &&& self.menu_index < Items::COUNT
        &&& self.email.wf()
        &&& self.password.wf()
    }

    /// Everything but the fields named is as in `before`.
    pub open spec fn same_but_cursor_and_outbox(&self, before: Login) -> bool {
        &&& self.email == before.email
        &&& self.password == before.password
        &&& self.render_ticker == before.render_ticker
        &&& self.keymap == before.keymap
        &&& self.mouse == before.mouse
        &&& self.area == before.area
        &&& self.areas == before.areas
        &&& self.loader == before.loader
    }

    /// A page with empty fields and the cursor in the field of the
    /// e-mail address.
    pub fn new() -> (page: Login)
        ensures
            page.menu_index == 0,
            page.mode == InputMode::InsertUser,
            page.email.value@.len() == 0,
            page.password.value@.len() == 0,
            page.render_ticker == 0,
            page.action_tx.is_none(),
            page.mouse.is_none(),
            page.areas@.len() == 0,
            page.wf(),
            page.keymap.entries@.len() == 0,
            page.area == Rect::zero(),
            page.loader.mode == InputMode::Normal,
            page.loader.render_ticker == 0,
            page.loader.action_tx.is_none(),
            page.loader.area == Rect::zero(),
    {
        Login {
            menu_index: 0,
            mode: InputMode::InsertUser,
            email: Input::default(),
            password: Input::default(),
            render_ticker: 0,
            action_tx: None,
            keymap: Keymap::new(),
            mouse: None,
            area: Rect::default(),
            areas: Vec::new(),
            loader: Loader::new(),
        }
    }

    pub fn current_mode(&self) -> (mode: InputMode)
        ensures
            mode == self.mode,
    {
        self.mode
    }

    /// Counts a rendered frame.
    pub fn render_tick(&mut self)
        ensures
            *final(self) == (Login {
                render_ticker: if old(self).render_ticker == usize::MAX {
                    usize::MAX
                } else {
                    (old(self).render_ticker + 1) as usize
                },
                ..*old(self)
            }),
    {
        self.render_ticker = self.render_ticker.saturating_add(1);
    }

    fn submit(&mut self, register: bool)
        ensures
            exists|sent: Seq<Outgoing>| #[trigger]
                handed(old(self).action_tx, final(self).action_tx, sent) && submitted(
                    old(self).email.value,
                    old(self).password.value,
                    register,
                    sent,
                ),
            final(self).same_but_cursor_and_outbox(*old(self)),
            final(self).menu_index == old(self).menu_index,
            final(self).mode == old(self).mode,
    {
        let user = String::from_str(self.email.value());
        let pass = String::from_str(self.password.value());
        if !validate_account(user.as_str(), pass.as_str()) {
            let body = if register {
                "Failed to validate email."
            } else {
                "Not a valid email."
            };
            let toast = Action::Toast(String::from_str("Validation Error"), String::from_str(body));
            emit(&mut self.action_tx, toast);
            emit(&mut self.action_tx, Action::EnterNormal);
            proof {
                let sent = seq![Outgoing::Send(toast), Outgoing::Send(Action::EnterNormal)];
                if old(self).action_tx.is_some() {
                    assert(self.action_tx->0.queue@ =~= old(self).action_tx->0.queue@ + sent);
                }
                assert(handed(old(self).action_tx, self.action_tx, sent));
                assert(submitted(old(self).email.value, old(self).password.value, register, sent));
            }
            return ;
        }
        let task = if register {
            Task::Register { user, password: pass }
        } else {
            Task::Login { user, password: pass }
        };
        start(&mut self.action_tx, task);
        proof {
            let sent = seq![Outgoing::Spawn(task)];
            assert(handed(old(self).action_tx, self.action_tx, sent));
            assert(submitted(old(self).email.value, old(self).password.value, register, sent));
        }
    }

    /// Submits the account as a login. An account that is not valid is
    /// reported by a toast and never leaves the page; a valid one
    /// starts the task that asks the server.
    pub fn login(&mut self)
        ensures
            exists|sent: Seq<Outgoing>| #[trigger]
                handed(old(self).action_tx, final(self).action_tx, sent) && submitted(
                    old(self).email.value,
                    old(self).password.value,
                    false,
                    sent,
                ),
            final(self).same_but_cursor_and_outbox(*old(self)),
            final(self).menu_index == old(self).menu_index,
            final(self).mode == old(self).mode,
    {
        self.submit(false);
    }

    /// Submits the account as a registration, as `login` does.
    pub fn register(&mut self)
        ensures
            exists|sent: Seq<Outgoing>| #[trigger]
                handed(old(self).action_tx, final(self).action_tx, sent) && submitted(
                    old(self).email.value,
                    old(self).password.value,
                    true,
                    sent,
                ),
            final(self).same_but_cursor_and_outbox(*old(self)),
            final(self).menu_index == old(self).menu_index,
            final(self).mode == old(self).mode,
    {
        self.submit(true);
    }

    pub fn keymap(self, keymap: Keymap) -> (page: Login)
        ensures
            page == (Login { keymap, ..self }),
    {
        Login { keymap, ..self }
    }

    pub fn register_action_handler(&mut self, tx: ActionSender)
        ensures
            final(self).action_tx matches Some(own) && own.queue@ == tx.queue@,
            final(self).loader.action_tx matches Some(other) && other.queue@.len() == 0,
            final(self).menu_index == old(self).menu_index,
            final(self).mode == old(self).mode,
            final(self).same_but_cursor_and_outbox(
                Login { loader: final(self).loader, ..*old(self) },
            ),
            final(self).loader.mode == old(self).loader.mode,
            final(self).loader.render_ticker == old(self).loader.render_ticker,
            final(self).loader.area == old(self).loader.area,
    {
        self.loader.register_action_handler(tx.handle());
        self.action_tx = Some(tx);
    }

    /// `row` is a row of the page on `area`: a strip of rows, inside a
    /// horizontal margin of ten, of a strip of columns of `area`.
    pub open spec fn row_on(area: Rect, row: Rect) -> bool {
        cut_twice(Direction::Horizontal, (0, 0), (10, 0), area, row)
    }

    /// `part` is a button in `row`, which is a row of the page on
    /// `area`: a strip of columns of the row inside a horizontal margin
    /// of three.
    pub open spec fn button_in(area: Rect, row: Rect, part: Rect) -> bool {
        &&& Login::row_on(area, row)
        &&& strip(Direction::Horizontal, 3, 0, row, part)
    }

    /// Takes `area` for the page and cuts it into the five parts of the
    /// page, in the order of the cursor: the two fields are rows of the
    /// page, the two buttons that submit and switch stand in one row,
    /// and the last button in another. The spinner gets a row of the
    /// place of the password.
    pub fn register_layout_handler(&mut self, area: Rect)
        ensures
            final(self).area == area,
            final(self).areas@.len() == Items::COUNT,
            Login::row_on(area, final(self).areas@[0]),
            Login::row_on(area, final(self).areas@[1]),
            exists|row: Rect| #[trigger]
                Login::button_in(area, row, final(self).areas@[2]) && Login::button_in(
                    area,
                    row,
                    final(self).areas@[3],
                ),
            exists|row: Rect| Login::button_in(area, row, final(self).areas@[4]),
            strip(Direction::Vertical, 0, 0, final(self).areas@[1], final(self).loader.area),
            final(self).loader.mode == old(self).loader.mode,
            final(self).loader.render_ticker == old(self).loader.render_ticker,
            final(self).loader.action_tx == old(self).loader.action_tx,
            final(self).menu_index == old(self).menu_index,
            final(self).mode == old(self).mode,
            final(self).email == old(self).email,
            final(self).password == old(self).password,
            final(self).render_ticker == old(self).render_ticker,
            final(self).action_tx == old(self).action_tx,
            final(self).keymap == old(self).keymap,
            final(self).mouse == old(self).mouse,
    {
        self.area = area;
        let horizontal = Layout::horizontal(
            vec![Sizing::Fill(1), Sizing::Min(10), Sizing::Fill(1)],
        );
        let vertical = Layout::vertical(
            vec![
                Sizing::Fill(1),
                Sizing::Max(3),
                Sizing::Max(3),
                Sizing::Max(1),
                Sizing::Max(1),
                Sizing::Fill(1),
            ],
        ).horizontal_margin(10).spacing(1);
        let buttons = Layout::horizontal(
            vec![Sizing::Length(12), Sizing::Length(12)],
        ).horizontal_margin(3).spacing(1);
        let local_button = Layout::horizontal(vec![Sizing::Max(24)]).horizontal_margin(3).spacing(
            1,
        );
        let columns = horizontal.split(self.area);
        let rows = vertical.split(columns[1]);
        let userinput_area = rows[1];
        let passinput_area = rows[2];
        let pair = buttons.split(rows[3]);
        let local_area = local_button.single(rows[4]);
        self.loader.register_layout_handler(passinput_area);
        self.areas = vec![userinput_area, passinput_area, pair[0], pair[1], local_area];
        proof {
            let cut = |row: Rect|
                cut_through(Direction::Horizontal, (0, 0), (10, 0), area, columns@[1], row);
            assert(cut(rows@[1]) && cut(rows@[2]) && cut(rows@[3]) && cut(rows@[4]));
            assert(Login::button_in(area, rows@[3], pair@[0]));
            assert(Login::button_in(area, rows@[3], pair@[1]));
            assert(Login::button_in(area, rows@[4], local_area));
        }
    }

    /// What a click on the part `item` sends.
    pub open spec fn click_sends(&self, item: Items) -> Outgoing {
        Outgoing::Send(
            match item {
                Items::Email => Action::CompleteInput(self.email.value),
                Items::Password => Action::CompleteInput(self.password.value),
                Items::Submit => Action::Login,
                Items::Switch => Action::Register,
                Items::Local => Action::Home,
            },
        )
    }

    /// The mode after a click on the part `item`.
    pub open spec fn click_mode(mode: InputMode, item: Items) -> InputMode {
        match item {
            Items::Email => InputMode::InsertUser,
            Items::Password => InputMode::InsertPass,
            _ => mode,
        }
    }

    /// Cursor, mode and what was sent after the first `n` parts were
    /// tried against a press of the left button at `at`: every part
    /// that holds the point takes the cursor, sets the mode where it is
    /// a field, and sends what a click on it sends.
    pub open spec fn clicked(&self, at: Position, n: int) -> (usize, InputMode, Seq<Outgoing>)
        decreases n,
    {
        if n <= 0 {
            (self.menu_index, self.mode, Seq::<Outgoing>::empty())
        } else {
            let before = self.clicked(at, n - 1);
            if n - 1 < Items::COUNT && self.areas@[n - 1].spec_contains(at) {
                let item = all_items()[n - 1];
                (
                    (n - 1) as usize,
                    Login::click_mode(before.1, item),
                    before.2.push(self.click_sends(item)),
                )
            } else {
                before
            }
        }
    }

    /// Reacts to the pointer event that was noted last: a press of the
    /// left button on a part of the page puts the cursor there and
    /// sends what the part stands for.
    pub fn handle_mouse_events(&mut self, mouse: MouseEvent) -> (action: Option<Action>)
        requires
            old(self).wf(),
        ensures
            action.is_none(),
            final(self).wf(),
            final(self).same_but_cursor_and_outbox(*old(self)),
            match old(self).mouse {
                Some(seen) => if seen.kind == MouseEventKind::Down(MouseButton::Left) {
                    let after = old(self).clicked(
                        Position { x: seen.column, y: seen.row },
                        old(self).areas@.len() as int,
                    );
                    &&& final(self).menu_index == after.0
                    &&& final(self).mode == after.1
                    &&& handed(old(self).action_tx, final(self).action_tx, after.2)
                } else {
                    final(self).menu_index == old(self).menu_index && final(self).mode == old(self).mode && final(self).action_tx == old(self).action_tx
                },
                None => final(self).menu_index == old(self).menu_index && final(self).mode
                    == old(self).mode && final(self).action_tx == old(self).action_tx,
            },
    {
        let seen = match self.mouse {
            Some(seen) => seen,
            None => {
                return None;
            },
        };
        if seen.kind != MouseEventKind::Down(MouseButton::Left) {
            return None;
        }
        let at = Position::new(seen.column, seen.row);
        let ghost mut sent: Seq<Outgoing> = Seq::empty();
        proof {
            if old(self).action_tx.is_some() {
                assert(old(self).action_tx->0.queue@ + sent =~= old(self).action_tx->0.queue@);
            }
        }
        let mut i: usize = 0;
        while i < self.areas.len()
            invariant
                i <= self.areas@.len(),
                old(self).wf(),
                self.wf(),
                self.same_but_cursor_and_outbox(*old(self)),
                (self.menu_index, self.mode, sent) == old(self).clicked(at, i as int),
                handed(old(self).action_tx, self.action_tx, sent),
            decreases self.areas@.len() - i,
        {
            if i < Items::COUNT && self.areas[i].contains(at) {
                let item = Items::at(i);
                self.menu_index = i;
                let ghost before = self.action_tx;
                match item {
                    Items::Email => {
                        self.mode = InputMode::InsertUser;
                        emit(&mut self.action_tx, Action::CompleteInput(self.email.value.clone()));
                    },
                    Items::Password => {
                        self.mode = InputMode::InsertPass;
                        emit(
                            &mut self.action_tx,
                            Action::CompleteInput(self.password.value.clone()),
                        );
                    },
                    Items::Submit => emit(&mut self.action_tx, Action::Login),
                    Items::Switch => emit(&mut self.action_tx, Action::Register),
                    Items::Local => emit(&mut self.action_tx, Action::Home),
                }
                proof {
                    let more = old(self).click_sends(item);
                    if before.is_some() {
                        assert(self.action_tx->0.queue@ =~= old(self).action_tx->0.queue@ + sent.push(
                            more,
                        ));
                    }
                    sent = sent.push(more);
                }
            }
            i += 1;
        }
        None
    }

    /// The cursor one part further down, but not past the last part.
    pub open spec fn down(index: usize) -> usize {
        if index + 1 < Items::COUNT {
            (index + 1) as usize
        } else {
            index
        }
    }

    /// The cursor one part further up, but not past the first part.
    pub open spec fn up(index: usize) -> usize {
        if index > 0 {
            (index - 1) as usize
        } else {
            index
        }
    }

    /// The key is one that a field takes for itself.
    pub open spec fn typed(key: KeyEvent) -> bool {
        !(key.code is Esc || key.code is Enter || key.code is Tab || key.code is BackTab)
    }

    /// What a key leads to.
    pub open spec fn key_action(&self, key: KeyEvent) -> Option<Action> {
        match self.mode {
            InputMode::Normal => if key.code is Enter {
                Some(Action::SelectItem)
            } else {
                None
            },
            InputMode::InsertPass => if key.code is Esc || key.code is Enter || key.code is Tab {
                Some(Action::EnterNormal)
            } else {
                None
            },
            InputMode::InsertUser => if key.code is Esc || key.code is BackTab {
                Some(Action::EnterNormal)
            } else {
                None
            },
            _ => None,
        }
    }

    /// What a key sends: leaving a field by the tab keys or the enter
    /// key sends what has been typed into the password, or into the
    /// e-mail address where that field is left forwards.
    pub open spec fn key_sends(&self, key: KeyEvent) -> Seq<Outgoing> {
        let leaves = key.code is Enter || key.code is Tab || key.code is BackTab;
        match self.mode {
            InputMode::InsertPass => if leaves {
                seq![Outgoing::Send(Action::CompleteInput(self.password.value))]
            } else {
                Seq::<Outgoing>::empty()
            },
            InputMode::InsertUser => if key.code is BackTab {
                seq![Outgoing::Send(Action::CompleteInput(self.password.value))]
            } else if leaves {
                seq![Outgoing::Send(Action::CompleteInput(self.email.value))]
            } else {
                Seq::<Outgoing>::empty()
            },
            _ => Seq::<Outgoing>::empty(),
        }
    }

    /// Where the cursor stands after a key.
    pub open spec fn key_cursor(&self, key: KeyEvent) -> usize {
        match self.mode {
            InputMode::InsertPass => if key.code is Enter || key.code is Tab {
                Login::down(self.menu_index)
            } else if key.code is BackTab {
                Login::up(self.menu_index)
            } else {
                self.menu_index
            },
            InputMode::InsertUser => if key.code is Enter || key.code is Tab
                || key.code is BackTab {
                Login::down(self.menu_index)
            } else {
                self.menu_index
            },
            _ => self.menu_index,
        }
    }

    /// The mode after a key.
    pub open spec fn key_mode(&self, key: KeyEvent) -> InputMode {
        match self.mode {
            InputMode::InsertPass => if key.code is BackTab {
                InputMode::InsertUser
            } else {
                self.mode
            },
            InputMode::InsertUser => if key.code is Enter || key.code is Tab {
                InputMode::InsertPass
            } else {
                self.mode
            },
            _ => self.mode,
        }
    }

    /// Takes a key. Outside the fields only the enter key counts, and
    /// selects the part under the cursor. In a field, escape leaves it;
    /// the enter key and the tab keys leave it too, send what was typed
    /// and move the cursor on or back; every other key goes to the
    /// field itself.
    pub fn handle_key_events(&mut self, key: KeyEvent) -> (action: Option<Action>)
        requires
            old(self).wf(),
        ensures
            final(self).wf(),
            action == old(self).key_action(key),
            handed(old(self).action_tx, final(self).action_tx, old(self).key_sends(key)),
            final(self).menu_index == old(self).key_cursor(key),
            final(self).mode == old(self).key_mode(key),
            final(self).render_ticker == old(self).render_ticker,
            final(self).keymap == old(self).keymap,
            final(self).mouse == old(self).mouse,
            final(self).area == old(self).area,
            final(self).areas == old(self).areas,
            final(self).loader == old(self).loader,
            old(self).mode == InputMode::InsertPass && Login::typed(key) ==> final(self).email
                == old(self).email && (
                final(self).password.value@,
                final(self).password.cursor as nat,
            ) == old(self).password.after_key(key),
            old(self).mode == InputMode::InsertUser && Login::typed(key) ==> final(self).password
                == old(self).password && (final(self).email.value@, final(self).email.cursor as nat)
                == old(self).email.after_key(key),
            !((old(self).mode == InputMode::InsertPass || old(self).mode == InputMode::InsertUser)
                && Login::typed(key)) ==> final(self).email == old(self).email && final(self).password == old(self).password,
    {
        proof {
            if old(self).action_tx.is_some() {
                assert(old(self).action_tx->0.queue@ + Seq::<Outgoing>::empty() =~= old(self).action_tx->0.queue@);
            }
        }
        match self.mode {
            InputMode::Normal => match key.code {
                KeyCode::Enter => Some(Action::SelectItem),
                _ => None,
            },
            InputMode::InsertPass => match key.code {
                KeyCode::Esc => Some(Action::EnterNormal),
                KeyCode::Enter | KeyCode::Tab => {
                    emit(&mut self.action_tx, Action::CompleteInput(self.password.value.clone()));
                    if self.menu_index + 1 < Items::COUNT {
                        self.menu_index += 1;
                    }
                    Some(Action::EnterNormal)
                },
                KeyCode::BackTab => {
                    emit(&mut self.action_tx, Action::CompleteInput(self.password.value.clone()));
                    if self.menu_index > 0 {
                        self.menu_index -= 1;
                    }
                    self.mode = InputMode::InsertUser;
                    None
                },
                _ => {
                    self.password.handle_event(&key);
                    None
                },
            },
            InputMode::InsertUser => match key.code {
                KeyCode::Esc => Some(Action::EnterNormal),
                KeyCode::Enter | KeyCode::Tab => {
                    emit(&mut self.action_tx, Action::CompleteInput(self.email.value.clone()));
                    self.mode = InputMode::InsertPass;
                    if self.menu_index + 1 < Items::COUNT {
                        self.menu_index += 1;
                    }
                    None
                },
                KeyCode::BackTab => {
                    emit(&mut self.action_tx, Action::CompleteInput(self.password.value.clone()));
                    if self.menu_index + 1 < Items::COUNT {
                        self.menu_index += 1;
                    }
                    Some(Action::EnterNormal)
                },
                _ => {
                    self.email.handle_event(&key);
                    None
                },
            },
            _ => None,
        }
    }

    /// What follows from `action`.
    pub open spec fn follow_up(&self, action: Action) -> Option<Action> {
        match action {
            Action::Home => Some(Action::ChangeMode(Mode::Home)),
            Action::SelectItem => match all_items()[self.menu_index as int] {
                Items::Switch => Some(Action::Register),
                Items::Submit => Some(Action::Login),
                Items::Local => Some(Action::Home),
                _ => None,
            },
            _ => None,
        }
    }

    /// The mode after `action`.
    pub open spec fn mode_after(&self, action: Action) -> InputMode {
        match action {
            Action::EnterProcessing => InputMode::Processing,
            Action::Home => InputMode::Normal,
            Action::EnterNormal => InputMode::Normal,
            Action::SelectItem => match all_items()[self.menu_index as int] {
                Items::Email => InputMode::InsertUser,
                Items::Password => InputMode::InsertPass,
                _ => self.mode,
            },
            _ => self.mode,
        }
    }

    /// Where the cursor stands after `action`: forward and back move it
    /// round the parts of the page while no field is being typed into.
    pub open spec fn cursor_after(&self, action: Action) -> usize {
        if self.mode == InputMode::Normal {
            match action {
                Action::Forward => next_part(self.menu_index),
                Action::Back => previous_part(self.menu_index),
                _ => self.menu_index,
            }
        } else {
            self.menu_index
        }
    }

    /// Reacts to `action`. The spinner gets every action first. Render
    /// ticks are counted, pointer events noted; forward and back move
    /// the cursor; the actions that enter a state enter it; selecting
    /// enters the field under the cursor or asks for what the button
    /// under it stands for; logging in and registering submit the
    /// account.
    pub fn update(&mut self, action: Action, ctx: &Ctx) -> (follow_up: Option<Action>)
        requires
            old(self).wf(),
        ensures
            final(self).wf(),
            follow_up == old(self).follow_up(action),
            final(self).mode == old(self).mode_after(action),
            final(self).menu_index == old(self).cursor_after(action),
            final(self).email == old(self).email,
            final(self).password == old(self).password,
            final(self).keymap == old(self).keymap,
            final(self).area == old(self).area,
            final(self).areas == old(self).areas,
            final(self).mouse == match action {
                Action::Mouse(mouse) => Some(mouse),
                _ => old(self).mouse,
            },
            final(self).render_ticker == if action is Render && old(self).render_ticker
                < usize::MAX {
                (old(self).render_ticker + 1) as usize
            } else {
                old(self).render_ticker
            },
            final(self).loader == (Loader {
                render_ticker: if action is Render && old(self).loader.render_ticker < usize::MAX {
                    (old(self).loader.render_ticker + 1) as usize
                } else {
                    old(self).loader.render_ticker
                },
                ..old(self).loader
            }),
            match action {
                Action::Login => exists|sent: Seq<Outgoing>| #[trigger]
                    handed(old(self).action_tx, final(self).action_tx, sent) && submitted(
                        old(self).email.value,
                        old(self).password.value,
                        false,
                        sent,
                    ),
                Action::Register => exists|sent: Seq<Outgoing>| #[trigger]
                    handed(old(self).action_tx, final(self).action_tx, sent) && submitted(
                        old(self).email.value,
                        old(self).password.value,
                        true,
                        sent,
                    ),
                _ => final(self).action_tx == old(self).action_tx,
            },
    {
        self.loader.update(action.clone(), ctx);
        match action {
            Action::Render => self.render_tick(),
            Action::Mouse(mouse) => {
                self.mouse = Some(mouse);
            },
            Action::Forward => {
                if self.mode == InputMode::Normal {
                    self.menu_index = (self.menu_index + 1) % Items::COUNT;
                }
            },
            Action::Back => {
                if self.mode == InputMode::Normal {
                    if self.menu_index == 0 {
                        self.menu_index = Items::COUNT - 1;
                    } else {
                        self.menu_index = (self.menu_index - 1) % Items::COUNT;
                    }
                }
            },
            Action::EnterProcessing => {
                self.mode = InputMode::Processing;
            },
            Action::Login => self.login(),
            Action::Register => self.register(),
            Action::Home => {
                self.mode = InputMode::Normal;
                return Some(Action::ChangeMode(Mode::Home));
            },
            Action::EnterNormal => {
                self.mode = InputMode::Normal;
            },
            Action::SelectItem => {
                match Items::at(self.menu_index) {
                    Items::Email => {
                        self.mode = InputMode::InsertUser;
                    },
                    Items::Password => {
                        self.mode = InputMode::InsertPass;
                    },
                    Items::Switch => {
                        return Some(Action::Register);
                    },
                    Items::Submit => {
                        return Some(Action::Login);
                    },
                    Items::Local => {
                        return Some(Action::Home);
                    },
                }
            },
            _ => {},
        }
        None
    }

    /// As many bullets as `text` has bytes.
    pub open spec fn bullets(text: Seq<char>) -> Seq<char> {
        Seq::new((vstd::utf8::encode_utf8(text).len() as usize) as nat, |i: int| '•')
    }

    fn masked(text: &str) -> (mask: String)
        ensures
            mask@ == Login::bullets(text@),
    {
        let n = text.len();
        assert(n == vstd::utf8::encode_utf8(text@).len() as usize);
        let mut mask: Vec<char> = Vec::new();
        let mut i: usize = 0;
        while i < n
            invariant
                i <= n,
                mask@ == Seq::new(i as nat, |k: int| '•'),
            decreases n - i,
        {
            mask.push('•');
            assert(mask@ =~= Seq::new((i + 1) as nat, |k: int| '•'));
            i += 1;
        }
        assert(mask@.subrange(0, mask@.len() as int) =~= mask@);
        string_from(&mask)
    }

    /// The style of the part `item`: a field is yellow under the
    /// cursor; a button is on yellow under the cursor and on gray else.
    pub open spec fn part_style(&self, item: Items) -> Style {
        let under_cursor = all_items()[self.menu_index as int] == item;
        match item {
            Items::Email | Items::Password => if under_cursor {
                Style { fg: Some(Color::Yellow), ..Style::plain() }
            } else {
                Style::plain()
            },
            _ => Style {
                bg: Some(
                    if under_cursor {
                        Color::Yellow
                    } else {
                        Color::DarkGray
                    },
                ),
                fg: Some(Color::White),
                ..Style::plain()
            },
        }
    }

    fn style_of(&self, item: Items) -> (style: Style)
        requires
            self.wf(),
        ensures
            style == self.part_style(item),
    {
        let under_cursor = Items::at(self.menu_index) == item;
        match item {
            Items::Email | Items::Password => if under_cursor {
                Style::new().fg(Color::Yellow)
            } else {
                Style::new()
            },
            _ => if under_cursor {
                Style::new().bg(Color::Yellow).fg(Color::White)
            } else {
                Style::new().bg(Color::DarkGray).fg(Color::White)
            },
        }
    }

    fn button(&self, label: &str, item: Items) -> (widget: Widget)
        requires
            self.wf(),
        ensures
            widget matches Widget::Paragraph(p) && p.lines@.len() == 1 && p.lines@[0].text()
                == label@ && (p.block matches Some(b) && b.style == self.part_style(item)),
    {
        let mut lines: Vec<Line> = Vec::new();
        lines.push(Line::raw(String::from_str(label)));
        Widget::Paragraph(
            Paragraph::new(lines).block(Block::new().style(self.style_of(item))).alignment(
                Alignment::Center,
            ),
        )
    }

    fn field(&self, text: String, title: &str, item: Items, scroll: usize) -> (widget: Widget)
        requires
            self.wf(),
        ensures
            widget matches Widget::Paragraph(p) && p.lines@.len() == 1 && p.lines@[0].text()
                == text@ && p.style == self.part_style(item) && (p.block matches Some(b)
                && b.titles@.len() == 1 && b.titles@[0].line.text() == title@),
    {
        let mut lines: Vec<Line> = Vec::new();
        lines.push(Line::raw(text));
        let columns: u16 = if scroll > u16::MAX as usize {
            u16::MAX
        } else {
            scroll as u16
        };
        Widget::Paragraph(
            Paragraph::new(lines).style(self.style_of(item)).scroll(0, columns).block(
                Block::new().borders(BORDER_ALL).title_bottom(Line::raw(String::from_str(title))),
            ),
        )
    }

    /// Draws the page. While a field is being typed into, the cursor
    /// shows in it. While the account is being processed only the
    /// spinner is drawn; else the three buttons and the two fields are,
    /// the password as bullets.
    /// Before a layout pass has cached the areas, nothing is drawn.
    pub fn draw(&self, f: &mut Frame)
        requires
            self.wf(),
        ensures
            final(f).area == old(f).area,
            !self.laid_out() ==> final(f).ops@ == old(f).ops@ && final(f).cursor == old(f).cursor,
            self.laid_out() ==> ({
                &&& final(f).cursor == match self.mode {
                    InputMode::InsertUser => Some(cursor_cell(self.areas@[0], 1, self.email.cursor)),
                    InputMode::InsertPass => Some(
                        cursor_cell(self.areas@[1], 1, self.password.cursor),
                    ),
                    _ => old(f).cursor,
                }
                &&& ({
                    let ops = final(f).ops@;
                    let n = old(f).ops@.len() as int;
                    &&& ops.subrange(0, n) == old(f).ops@
                    &&& if self.mode == InputMode::Processing {
                        ops.len() == n + 1 && ops[n].area == self.loader.area
                    } else {
                        &&& ops.len() == n + 5
                        &&& ops[n].area == self.areas@[4]
                        &&& ops[n + 1].area == self.areas@[2]
                        &&& ops[n + 2].area == self.areas@[3]
                        &&& ops[n + 3].area == self.areas@[0]
                        &&& ops[n + 4].area == self.areas@[1]
                        &&& ops[n + 3].widget matches Widget::Paragraph(p) && p.lines@[0].text()
                            == self.email.value@
                        &&& ops[n + 4].widget matches Widget::Paragraph(p) && p.lines@[0].text()
                            == Login::bullets(self.password.value@)
                    }
                })
            }),
    {
        if !(self.areas.len() == Items::COUNT) {
            return ;
        }
        let uwidth = if self.areas[0].width > 3 {
            self.areas[0].width - 3
        } else {
            0
        };
        let uscroll = self.email.visual_scroll(uwidth as usize);
        let user_input = self.field(self.email.value.clone(), "Email", Items::Email, uscroll);
        let pwidth = if self.areas[1].width > 3 {
            self.areas[1].width - 3
        } else {
            0
        };
        let pscroll = self.password.visual_scroll(pwidth as usize);
        let pass_input = self.field(
            Login::masked(self.password.value()),
            "Password",
            Items::Password,
            pscroll,
        );
        let submit_button = self.button("Sign In", Items::Submit);
        let register_button = self.button("Register", Items::Switch);
        let local_button = self.button("Local Account", Items::Local);
        if self.mode == InputMode::InsertUser {
            f.set_cursor_position(cursor_in(self.areas[0], 1, self.email.cursor()));
        }
        if self.mode == InputMode::InsertPass {
            f.set_cursor_position(cursor_in(self.areas[1], 1, self.password.cursor()));
        }
        if self.mode == InputMode::Processing {
            self.loader.draw(f);
        } else {
            f.render_widget(local_button, self.areas[4]);
            f.render_widget(submit_button, self.areas[2]);
            f.render_widget(register_button, self.areas[3]);
            f.render_widget(user_input, self.areas[0]);
            f.render_widget(pass_input, self.areas[1]);
        }
        assert(final(f).ops@.subrange(0, old(f).ops@.len() as int) =~= old(f).ops@);
    }
}

} // verus!
