//! Key bindings: which action a key sequence triggers on which page.

use vstd::prelude::*;
use crate::action::{Action, Mode};
use crate::keys::{KeyCode, KeyEvent, KeyEventKind, KeyModifiers};

verus! {

/// A key press with the given modifier bits.
pub open spec fn press(code: KeyCode, bits: u8) -> KeyEvent {
    KeyEvent { code, modifiers: KeyModifiers { bits }, kind: KeyEventKind::Press }
}

/// One row of a binding table: a key sequence and what it triggers.
pub type Row = (Seq<KeyEvent>, Action);

/// The row that binds the single key `code` with modifier `bits`.
pub open spec fn row(code: KeyCode, bits: u8, action: Action) -> Row {
    (seq![press(code, bits)], action)
}

/// The first action that `rows` binds to `keys`, if any.
pub open spec fn lookup_rows(rows: Seq<Row>, keys: Seq<KeyEvent>) -> Option<Action>
    decreases rows.len(),
{
    if rows.len() == 0 {
        None
    } else if rows[0].0 == keys {
        Some(rows[0].1)
    } else {
        lookup_rows(rows.subrange(1, rows.len() as int), keys)
    }
}

/// No key sequence is bound twice.
pub open spec fn distinct_rows(rows: Seq<Row>) -> bool {
    forall|i: int, j: int| 0 <= i < j < rows.len() ==> rows[i].0 != rows[j].0
}

/// A key sequence together with the action it triggers.
#[derive(Debug, PartialEq, Eq)]
pub struct KeySequenceBinding {
    pub keys: Vec<KeyEvent>,
    pub action: Action,
}

impl KeySequenceBinding {
    pub open spec fn row(&self) -> Row {
        (self.keys@, self.action)
    }
}

/// The bindings of one page.
#[derive(Debug, PartialEq, Eq)]
pub struct ModeBindings {
    pub mode: Mode,
    pub bindings: Vec<KeySequenceBinding>,
}

/// Whether two key sequences are the same.
pub fn same_keys(a: &Vec<KeyEvent>, b: &Vec<KeyEvent>) -> (same: bool)
    ensures
        same == (a@ == b@),
{
    if a.len() != b.len() {
        return false;
    }
    let mut i: usize = 0;
    while i < a.len()
        invariant
            i <= a.len(),
            a.len() == b.len(),
            forall|k: int| 0 <= k < i ==> a@[k] == b@[k],
        decreases a.len() - i,
    {
        if a[i] != b[i] {
            return false;
        }
        i += 1;
    }
    assert(a@ =~= b@);
    true
}

impl ModeBindings {
    /// The binding table of this page, in the order it was filled.
    pub open spec fn rows(&self) -> Seq<Row> {
        Seq::new(self.bindings@.len(), |i: int| self.bindings@[i].row())
    }

    /// What `keys` triggers on this page.
    pub open spec fn lookup(&self, keys: Seq<KeyEvent>) -> Option<Action> {
        lookup_rows(self.rows(), keys)
    }

    pub open spec fn wf(&self) -> bool {
        distinct_rows(self.rows())
    }

    /// An empty table for `mode`.
    pub fn new(mode: Mode) -> (table: ModeBindings)
        ensures
            table.mode == mode,
            table.rows() == Seq::<Row>::empty(),
            table.wf(),
    {
        let table = ModeBindings { mode, bindings: Vec::new() };
        assert(table.rows() =~= Seq::<Row>::empty());
        table
    }

    /// Appends the binding of the single key `code` with `modifiers` to
    /// the end of the table. The table is read from its beginning: a
    /// key that an earlier row binds keeps the action of that row.
    pub fn bind(&mut self, code: KeyCode, modifiers: KeyModifiers, action: Action)
        ensures
            final(self).mode == old(self).mode,
            final(self).rows() == old(self).rows().push(row(code, modifiers.bits, action)),
    {
        let ghost before = self.rows();
        let mut keys: Vec<KeyEvent> = Vec::new();
        keys.push(KeyEvent::new(code, modifiers));
        assert(keys@ =~= seq![press(code, modifiers.bits)]);
        self.bindings.push(KeySequenceBinding { keys, action });
        assert(self.rows() =~= before.push(row(code, modifiers.bits, action)));
    }

    /// The action that `keys` triggers on this page, if it is bound.
    pub fn get(&self, keys: &Vec<KeyEvent>) -> (found: Option<&Action>)
        ensures
            match found {
                Some(action) => self.lookup(keys@) == Some(*action),
                None => self.lookup(keys@).is_none(),
            },
    {
        let mut i: usize = 0;
        assert(self.rows().subrange(0, self.rows().len() as int) =~= self.rows());
        while i < self.bindings.len()
            invariant
                i <= self.bindings.len(),
                self.lookup(keys@) == lookup_rows(
                    self.rows().subrange(i as int, self.rows().len() as int),
                    keys@,
                ),
            decreases self.bindings.len() - i,
        {
            let ghost rest = self.rows().subrange(i as int, self.rows().len() as int);
            assert(rest[0] == self.bindings@[i as int].row());
            assert(rest.subrange(1, rest.len() as int) =~= self.rows().subrange(
                i + 1,
                self.rows().len() as int,
            ));
            if same_keys(&self.bindings[i].keys, keys) {
                return Some(&self.bindings[i].action);
            }
            i += 1;
        }
        assert(self.rows().subrange(i as int, self.rows().len() as int) =~= Seq::<Row>::empty());
        None
    }
}


/// Bindings shared by all pages.
pub open spec fn global_rows() -> Seq<Row> {
    seq![
        row(KeyCode::Char('q'), 0, Action::ToggleShowQuit),
        row(KeyCode::Char(':'), 0, Action::ToggleLog),
        row(KeyCode::Char(' '), 2, Action::ToggleShowHelp),
        row(KeyCode::Char('x'), 0, Action::ClosePopup),
        row(KeyCode::Tab, 0, Action::ToggleNav),
        row(KeyCode::Char('h'), 0, Action::PreviousView),
        row(KeyCode::Char('l'), 0, Action::NextView),
        row(KeyCode::Char(' '), 0, Action::ToggleShowHelp),
        row(KeyCode::Char('k'), 0, Action::Back),
        row(KeyCode::Char('j'), 0, Action::Forward),
    ]
}

pub open spec fn settings_rows() -> Seq<Row> {
    seq![row(KeyCode::Backspace, 0, Action::Home)]
}

pub open spec fn chat_rows() -> Seq<Row> {
    seq![
        row(KeyCode::Char('/'), 0, Action::EnterInput),
        row(KeyCode::Char('c'), 0, Action::ToggleChats),
        row(KeyCode::Char('u'), 0, Action::ToggleUsers),
        row(KeyCode::Char('k'), 0, Action::Back),
        row(KeyCode::Char('j'), 0, Action::Forward),
    ]
}

pub open spec fn filebrowser_rows() -> Seq<Row> {
    seq![
        row(KeyCode::Tab, 0, Action::ToggleSidebar),
        row(KeyCode::Enter, 0, Action::SelectOption),
    ]
}

pub open spec fn music_rows() -> Seq<Row> {
    seq![
        row(KeyCode::Tab, 0, Action::ToggleSidebar),
        row(KeyCode::Char(' '), 0, Action::PausePlay),
        row(KeyCode::Char('o'), 0, Action::OpenFilepicker),
        row(KeyCode::Enter, 0, Action::SelectOption),
    ]
}

pub open spec fn blog_rows() -> Seq<Row> {
    seq![
        row(KeyCode::Tab, 0, Action::ToggleSidebar),
        row(KeyCode::Char('f'), 0, Action::OpenFilepicker),
        row(KeyCode::Enter, 0, Action::SelectOption),
    ]
}

pub open spec fn login_rows() -> Seq<Row> {
    seq![
        row(KeyCode::BackTab, 1, Action::Back),
        row(KeyCode::Tab, 0, Action::Forward),
    ]
}

pub open spec fn home_rows() -> Seq<Row> {
    seq![row(KeyCode::Char('/'), 0, Action::EnterInsert)]
}

/// The bindings that ship with the application: one table per page.
pub open spec fn default_tables() -> Seq<(Mode, Seq<Row>)> {
    seq![
        (Mode::Global, global_rows()),
        (Mode::Settings, settings_rows()),
        (Mode::Chat, chat_rows()),
        (Mode::WorldMap, Seq::<Row>::empty()),
        (Mode::Filebrowser, filebrowser_rows()),
        (Mode::MusicPlayer, music_rows()),
        (Mode::Blog, blog_rows()),
        (Mode::Login, login_rows()),
        (Mode::Home, home_rows()),
    ]
}

/// The table that `tables` files under `mode`, if any: the first one.
pub open spec fn lookup_table(tables: Seq<(Mode, Seq<Row>)>, mode: Mode) -> Option<Seq<Row>>
    decreases tables.len(),
{
    if tables.len() == 0 {
        None
    } else if tables[0].0 == mode {
        Some(tables[0].1)
    } else {
        lookup_table(tables.subrange(1, tables.len() as int), mode)
    }
}

/// No page has two tables, and no table binds a key sequence twice.
pub open spec fn distinct_tables(tables: Seq<(Mode, Seq<Row>)>) -> bool {
    &&& forall|i: int, j: int| 0 <= i < j < tables.len() ==> tables[i].0 != tables[j].0
    &&& forall|i: int| 0 <= i < tables.len() ==> distinct_rows(#[trigger] tables[i].1)
}

/// Rows of single keys that differ pairwise bind no key sequence twice.
pub proof fn lemma_single_keys_distinct(rows: Seq<Row>)
    requires
        forall|i: int| 0 <= i < rows.len() ==> (#[trigger] rows[i]).0.len() == 1,
        forall|i: int, j: int| 0 <= i < j < rows.len() ==> rows[i].0[0] != rows[j].0[0],
    ensures
        distinct_rows(rows),
{
}

/// All bindings of the application, page by page.
#[derive(Debug, PartialEq, Eq)]
pub struct KeyBindings {
    pub modes: Vec<ModeBindings>,
}

impl KeyBindings {
    /// The tables of all pages, in the order they were filed.
    pub open spec fn tables(&self) -> Seq<(Mode, Seq<Row>)> {
        Seq::new(self.modes@.len(), |i: int| (self.modes@[i].mode, self.modes@[i].rows()))
    }

    /// What `keys` triggers on page `mode`.
    pub open spec fn lookup(&self, mode: Mode, keys: Seq<KeyEvent>) -> Option<Action> {
        match lookup_table(self.tables(), mode) {
            Some(rows) => lookup_rows(rows, keys),
            None => None,
        }
    }

    pub open spec fn wf(&self) -> bool {
        distinct_tables(self.tables())
    }

    /// The table filed under `mode`, if there is one.
    pub fn get(&self, mode: &Mode) -> (found: Option<&ModeBindings>)
        ensures
            match found {
                Some(table) => table.mode == *mode && lookup_table(self.tables(), *mode) == Some(
                    table.rows(),
                ),
                None => lookup_table(self.tables(), *mode).is_none(),
            },
    {
        let mut i: usize = 0;
        assert(self.tables().subrange(0, self.tables().len() as int) =~= self.tables());
        while i < self.modes.len()
            invariant
                i <= self.modes.len(),
                lookup_table(self.tables(), *mode) == lookup_table(
                    self.tables().subrange(i as int, self.tables().len() as int),
                    *mode,
                ),
            decreases self.modes.len() - i,
        {
            let ghost rest = self.tables().subrange(i as int, self.tables().len() as int);
            assert(rest[0] == (self.modes@[i as int].mode, self.modes@[i as int].rows()));
            assert(rest.subrange(1, rest.len() as int) =~= self.tables().subrange(
                i + 1,
                self.tables().len() as int,
            ));
            if self.modes[i].mode == *mode {
                return Some(&self.modes[i]);
            }
            i += 1;
        }
        None
    }
}

fn global_bindings() -> (table: ModeBindings)
    ensures
        table.mode == Mode::Global,
        table.rows() == global_rows(),
        table.wf(),
{
    let mut table = ModeBindings::new(Mode::Global);
    table.bind(KeyCode::Char('q'), KeyModifiers::empty(), Action::ToggleShowQuit);
    table.bind(KeyCode::Char(':'), KeyModifiers::empty(), Action::ToggleLog);
    table.bind(KeyCode::Char(' '), KeyModifiers::control(), Action::ToggleShowHelp);
    table.bind(KeyCode::Char('x'), KeyModifiers::empty(), Action::ClosePopup);
    table.bind(KeyCode::Tab, KeyModifiers::empty(), Action::ToggleNav);
    table.bind(KeyCode::Char('h'), KeyModifiers::empty(), Action::PreviousView);
    table.bind(KeyCode::Char('l'), KeyModifiers::empty(), Action::NextView);
    table.bind(KeyCode::Char(' '), KeyModifiers::empty(), Action::ToggleShowHelp);
    table.bind(KeyCode::Char('k'), KeyModifiers::empty(), Action::Back);
    table.bind(KeyCode::Char('j'), KeyModifiers::empty(), Action::Forward);
    proof {
        lemma_single_keys_distinct(global_rows());
    }
    table
}

fn chat_bindings() -> (table: ModeBindings)
    ensures
        table.mode == Mode::Chat,
        table.rows() == chat_rows(),
        table.wf(),
{
    let mut table = ModeBindings::new(Mode::Chat);
    table.bind(KeyCode::Char('/'), KeyModifiers::empty(), Action::EnterInput);
    table.bind(KeyCode::Char('c'), KeyModifiers::empty(), Action::ToggleChats);
    table.bind(KeyCode::Char('u'), KeyModifiers::empty(), Action::ToggleUsers);
    table.bind(KeyCode::Char('k'), KeyModifiers::empty(), Action::Back);
    table.bind(KeyCode::Char('j'), KeyModifiers::empty(), Action::Forward);
    proof {
        lemma_single_keys_distinct(chat_rows());
    }
    table
}

fn music_bindings() -> (table: ModeBindings)
    ensures
        table.mode == Mode::MusicPlayer,
        table.rows() == music_rows(),
        table.wf(),
{
    let mut table = ModeBindings::new(Mode::MusicPlayer);
    table.bind(KeyCode::Tab, KeyModifiers::empty(), Action::ToggleSidebar);
    table.bind(KeyCode::Char(' '), KeyModifiers::empty(), Action::PausePlay);
    table.bind(KeyCode::Char('o'), KeyModifiers::empty(), Action::OpenFilepicker);
    table.bind(KeyCode::Enter, KeyModifiers::empty(), Action::SelectOption);
    proof {
        lemma_single_keys_distinct(music_rows());
    }
    table
}

fn blog_bindings() -> (table: ModeBindings)
    ensures
        table.mode == Mode::Blog,
        table.rows() == blog_rows(),
        table.wf(),
{
    let mut table = ModeBindings::new(Mode::Blog);
    table.bind(KeyCode::Tab, KeyModifiers::empty(), Action::ToggleSidebar);
    table.bind(KeyCode::Char('f'), KeyModifiers::empty(), Action::OpenFilepicker);
    table.bind(KeyCode::Enter, KeyModifiers::empty(), Action::SelectOption);
    proof {
        lemma_single_keys_distinct(blog_rows());
    }
    table
}

impl Default for KeyBindings {
    /// The bindings that ship with the application.
    fn default() -> (bindings: KeyBindings)
        ensures
            bindings.tables() == default_tables(),
            bindings.wf(),
    {
        let mut settings = ModeBindings::new(Mode::Settings);
        settings.bind(KeyCode::Backspace, KeyModifiers::empty(), Action::Home);
        let map = ModeBindings::new(Mode::WorldMap);
        let mut filebrowser = ModeBindings::new(Mode::Filebrowser);
        filebrowser.bind(KeyCode::Tab, KeyModifiers::empty(), Action::ToggleSidebar);
        filebrowser.bind(KeyCode::Enter, KeyModifiers::empty(), Action::SelectOption);
        let mut login = ModeBindings::new(Mode::Login);
        login.bind(KeyCode::BackTab, KeyModifiers::shift(), Action::Back);
        login.bind(KeyCode::Tab, KeyModifiers::empty(), Action::Forward);
        let mut home = ModeBindings::new(Mode::Home);
        home.bind(KeyCode::Char('/'), KeyModifiers::empty(), Action::EnterInsert);
        proof {
            lemma_single_keys_distinct(settings_rows());
            lemma_single_keys_distinct(filebrowser_rows());
            lemma_single_keys_distinct(login_rows());
            lemma_single_keys_distinct(home_rows());
        }
        let mut modes: Vec<ModeBindings> = Vec::new();
        modes.push(global_bindings());
        modes.push(settings);
        modes.push(chat_bindings());
        modes.push(map);
        modes.push(filebrowser);
        modes.push(music_bindings());
        modes.push(blog_bindings());
        modes.push(login);
        modes.push(home);
        let bindings = KeyBindings { modes };
        proof {
            let got = bindings.tables();
            let want = default_tables();
            assert(got.len() == 9 && want.len() == 9);
            assert(got[0] == want[0]);
            assert(got[1] == want[1]);
            assert(got[2] == want[2]);
            assert(got[3] == want[3]);
            assert(got[4] == want[4]);
            assert(got[5] == want[5]);
            assert(got[6] == want[6]);
            assert(got[7] == want[7]);
            assert(got[8] == want[8]);
            assert(got =~= want);
        }
        bindings
    }
}

impl Clone for KeySequenceBinding {
    fn clone(&self) -> (copy: KeySequenceBinding)
        ensures
            copy.row() == self.row(),
    {
        let mut keys: Vec<KeyEvent> = Vec::new();
        let mut i: usize = 0;
        while i < self.keys.len()
            invariant
                i <= self.keys@.len(),
                keys@ == self.keys@.subrange(0, i as int),
            decreases self.keys@.len() - i,
        {
            keys.push(self.keys[i]);
            assert(keys@ =~= self.keys@.subrange(0, i + 1));
            i += 1;
        }
        assert(keys@ =~= self.keys@);
        KeySequenceBinding { keys, action: self.action.clone() }
    }
}

impl Clone for ModeBindings {
    fn clone(&self) -> (copy: ModeBindings)
        ensures
            copy.mode == self.mode,
            copy.rows() == self.rows(),
    {
        let mut bindings: Vec<KeySequenceBinding> = Vec::new();
        let mut i: usize = 0;
        while i < self.bindings.len()
            invariant
                i <= self.bindings@.len(),
                bindings@.len() == i,
                forall|k: int| 0 <= k < i ==> bindings@[k].row() == self.bindings@[k].row(),
            decreases self.bindings@.len() - i,
        {
            bindings.push(self.bindings[i].clone());
            i += 1;
        }
        let copy = ModeBindings { mode: self.mode, bindings };
        assert(copy.rows() =~= self.rows());
        copy
    }
}

impl Clone for KeyBindings {
    fn clone(&self) -> (copy: KeyBindings)
        ensures
            copy.tables() == self.tables(),
    {
        let mut modes: Vec<ModeBindings> = Vec::new();
        let mut i: usize = 0;
        while i < self.modes.len()
            invariant
                i <= self.modes@.len(),
                modes@.len() == i,
                forall|k: int|
                    0 <= k < i ==> modes@[k].mode == self.modes@[k].mode && modes@[k].rows()
                        == self.modes@[k].rows(),
            decreases self.modes@.len() - i,
        {
            modes.push(self.modes[i].clone());
            i += 1;
        }
        let copy = KeyBindings { modes };
        assert(copy.tables() =~= self.tables());
        copy
    }
}

/// `first`, or `second` where `first` has nothing.
pub open spec fn or_else(first: Option<Action>, second: Option<Action>) -> Option<Action> {
    match first {
        Some(action) => Some(action),
        None => second,
    }
}

/// What `keys` triggers on page `mode` by `tables`.
pub open spec fn bound_in(tables: Seq<(Mode, Seq<Row>)>, mode: Mode, keys: Seq<KeyEvent>) -> Option<
    Action,
> {
    match lookup_table(tables, mode) {
        Some(rows) => lookup_rows(rows, keys),
        None => None,
    }
}

/// Looking a key sequence up in a table with one more row at its end:
/// the old rows win, and the new row decides where they bind nothing.
pub proof fn lemma_rows_push(rows: Seq<Row>, last: Row, keys: Seq<KeyEvent>)
    ensures
        lookup_rows(rows.push(last), keys) == or_else(
            lookup_rows(rows, keys),
            if last.0 == keys {
                Some(last.1)
            } else {
                None
            },
        ),
    decreases rows.len(),
{
    let longer = rows.push(last);
    if rows.len() == 0 {
        assert(longer.subrange(1, longer.len() as int) =~= rows);
    } else {
        assert(longer[0] == rows[0]);
        assert(longer.subrange(1, longer.len() as int) =~= rows.subrange(
            1,
            rows.len() as int,
        ).push(last));
        lemma_rows_push(rows.subrange(1, rows.len() as int), last, keys);
    }
}

/// Looking a page up among tables with one more table at their end.
pub proof fn lemma_tables_push(tables: Seq<(Mode, Seq<Row>)>, last: (Mode, Seq<Row>), mode: Mode)
    ensures
        lookup_table(tables.push(last), mode) == match lookup_table(tables, mode) {
            Some(rows) => Some(rows),
            None => if last.0 == mode {
                Some(last.1)
            } else {
                None
            },
        },
    decreases tables.len(),
{
    let longer = tables.push(last);
    if tables.len() == 0 {
        assert(longer.subrange(1, longer.len() as int) =~= tables);
    } else {
        assert(longer[0] == tables[0]);
        assert(longer.subrange(1, longer.len() as int) =~= tables.subrange(
            1,
            tables.len() as int,
        ).push(last));
        lemma_tables_push(tables.subrange(1, tables.len() as int), last, mode);
    }
}

/// A key sequence that a table does not bind stands in none of its
/// rows.
pub proof fn lemma_unbound_is_absent(rows: Seq<Row>, keys: Seq<KeyEvent>)
    requires
        lookup_rows(rows, keys).is_none(),
    ensures
        forall|i: int| 0 <= i < rows.len() ==> (#[trigger] rows[i]).0 != keys,
    decreases rows.len(),
{
    if rows.len() > 0 {
        let rest = rows.subrange(1, rows.len() as int);
        lemma_unbound_is_absent(rest, keys);
        assert forall|i: int| 0 <= i < rows.len() implies (#[trigger] rows[i]).0 != keys by {
            if i > 0 {
                assert(rest[i - 1] == rows[i]);
            }
        }
    }
}

impl ModeBindings {
    /// Fills in the bindings of `defaults` for the key sequences that
    /// this table does not bind yet, in their order.
    pub fn fill_from(&mut self, defaults: &ModeBindings)
        ensures
            final(self).mode == old(self).mode,
            forall|keys: Seq<KeyEvent>| #[trigger]
                final(self).lookup(keys) == or_else(old(self).lookup(keys), defaults.lookup(keys)),
            old(self).wf() ==> final(self).wf(),
    {
        let mut i: usize = 0;
        let ghost all = defaults.rows();
        assert(all.subrange(0, 0) =~= Seq::<Row>::empty());
        while i < defaults.bindings.len()
            invariant
                i <= defaults.bindings@.len(),
                all == defaults.rows(),
                self.mode == old(self).mode,
                old(self).wf() ==> self.wf(),
                forall|keys: Seq<KeyEvent>| #[trigger]
                    self.lookup(keys) == or_else(
                        old(self).lookup(keys),
                        lookup_rows(all.subrange(0, i as int), keys),
                    ),
            decreases defaults.bindings@.len() - i,
        {
            let binding = &defaults.bindings[i];
            let ghost before = self.rows();
            let ghost was = *self;
            let ghost row = all[i as int];
            let ghost prefix = all.subrange(0, i as int);
            assert(row == binding.row());
            assert(all.subrange(0, i + 1) =~= prefix.push(row));
            let bound = self.get(&binding.keys).is_some();
            if !bound {
                let copy = binding.clone();
                self.bindings.push(copy);
                proof {
                    assert(self.rows() =~= before.push(row));
                    lemma_unbound_is_absent(before, row.0);
                    assert forall|keys: Seq<KeyEvent>| #[trigger]
                        self.lookup(keys) == or_else(
                            old(self).lookup(keys),
                            lookup_rows(all.subrange(0, i + 1), keys),
                        ) by {
                        lemma_rows_push(before, row, keys);
                        lemma_rows_push(prefix, row, keys);
                        assert(was.lookup(keys) == or_else(
                            old(self).lookup(keys),
                            lookup_rows(prefix, keys),
                        ));
                        assert(was.lookup(row.0).is_none());
                    }
                }
            } else {
                proof {
                    assert(self.lookup(row.0).is_some());
                    assert forall|keys: Seq<KeyEvent>| #[trigger]
                        self.lookup(keys) == or_else(
                            old(self).lookup(keys),
                            lookup_rows(all.subrange(0, i + 1), keys),
                        ) by {
                        lemma_rows_push(prefix, row, keys);
                        if keys == row.0 {
                            assert(self.lookup(keys).is_some());
                        }
                    }
                }
            }
            i += 1;
        }
        assert(all.subrange(0, i as int) =~= all);
    }
}

impl KeyBindings {
    /// What `keys` triggers on page `mode` once `defaults` are filled
    /// in: what these bindings say, and what `defaults` say where these
    /// say nothing.
    pub open spec fn merged_lookup(&self, defaults: KeyBindings, mode: Mode, keys: Seq<KeyEvent>) -> Option<
        Action,
    > {
        or_else(self.lookup(mode, keys), defaults.lookup(mode, keys))
    }

    /// Fills in `defaults`: a page gets the table of `defaults` where it
    /// has none, and the bindings of `defaults` for the key sequences
    /// that its own table does not bind.
    pub fn merge_defaults(&mut self, defaults: &KeyBindings)
        ensures
            forall|mode: Mode, keys: Seq<KeyEvent>| #[trigger]
                final(self).lookup(mode, keys) == old(self).merged_lookup(*defaults, mode, keys),
            forall|mode: Mode| #[trigger]
                lookup_table(final(self).tables(), mode).is_some() == (lookup_table(
                    old(self).tables(),
                    mode,
                ).is_some() || lookup_table(defaults.tables(), mode).is_some()),
    {
        let ghost user = self.tables();
        let ghost given = defaults.tables();
        let mut merged = KeyBindings { modes: Vec::new() };
        let mut i: usize = 0;
        assert(user.subrange(0, 0) =~= Seq::<(Mode, Seq<Row>)>::empty());
        assert(merged.tables() =~= Seq::<(Mode, Seq<Row>)>::empty());
        while i < self.modes.len()
            invariant
                i <= self.modes@.len(),
                user == self.tables(),
                given == defaults.tables(),
                *self == *old(self),
                forall|mode: Mode| #[trigger]
                    lookup_table(merged.tables(), mode).is_some() == lookup_table(
                        user.subrange(0, i as int),
                        mode,
                    ).is_some(),
                forall|mode: Mode, keys: Seq<KeyEvent>| #[trigger]
                    bound_in(merged.tables(), mode, keys) == (if lookup_table(
                        user.subrange(0, i as int),
                        mode,
                    ).is_some() {
                        or_else(
                            bound_in(user.subrange(0, i as int), mode, keys),
                            bound_in(given, mode, keys),
                        )
                    } else {
                        None
                    }),
            decreases self.modes@.len() - i,
        {
            let mut table = self.modes[i].clone();
            let ghost own = self.modes@[i as int].rows();
            let ghost page = self.modes@[i as int].mode;
            match defaults.get(&table.mode) {
                Some(d) => {
                    table.fill_from(d);
                },
                None => {},
            }
            let ghost before = merged.tables();
            let ghost prefix = user.subrange(0, i as int);
            let ghost row = (table.mode, table.rows());
            assert(user.subrange(0, i + 1) =~= prefix.push(user[i as int]));
            assert(user[i as int] == (page, own));
            merged.modes.push(table);
            proof {
                assert(merged.tables() =~= before.push(row));
                assert forall|mode: Mode| #[trigger]
                    lookup_table(merged.tables(), mode).is_some() == lookup_table(
                        user.subrange(0, i + 1),
                        mode,
                    ).is_some() by {
                    lemma_tables_push(before, row, mode);
                    lemma_tables_push(prefix, user[i as int], mode);
                }
                assert forall|mode: Mode, keys: Seq<KeyEvent>| #[trigger]
                    bound_in(merged.tables(), mode, keys) == (if lookup_table(
                        user.subrange(0, i + 1),
                        mode,
                    ).is_some() {
                        or_else(
                            bound_in(user.subrange(0, i + 1), mode, keys),
                            bound_in(given, mode, keys),
                        )
                    } else {
                        None
                    }) by {
                    lemma_tables_push(before, row, mode);
                    lemma_tables_push(prefix, user[i as int], mode);
                    assert(bound_in(before, mode, keys) == (if lookup_table(prefix, mode).is_some() {
                        or_else(bound_in(prefix, mode, keys), bound_in(given, mode, keys))
                    } else {
                        None
                    }));
                    assert(lookup_table(before, mode).is_some() == lookup_table(
                        prefix,
                        mode,
                    ).is_some());
                    if lookup_table(prefix, mode).is_none() && page == mode {
                        assert(table.lookup(keys) == lookup_rows(table.rows(), keys));
                    }
                }
            }
            i += 1;
        }
        assert(user.subrange(0, i as int) =~= user);
        let mut j: usize = 0;
        assert(given.subrange(0, 0) =~= Seq::<(Mode, Seq<Row>)>::empty());
        while j < defaults.modes.len()
            invariant
                j <= defaults.modes@.len(),
                user == self.tables(),
                given == defaults.tables(),
                *self == *old(self),
                forall|mode: Mode| #[trigger]
                    lookup_table(merged.tables(), mode).is_some() == (lookup_table(
                        user,
                        mode,
                    ).is_some() || lookup_table(given.subrange(0, j as int), mode).is_some()),
                forall|mode: Mode, keys: Seq<KeyEvent>| #[trigger]
                    bound_in(merged.tables(), mode, keys) == (if lookup_table(user, mode).is_some() {
                        or_else(bound_in(user, mode, keys), bound_in(given, mode, keys))
                    } else {
                        bound_in(given.subrange(0, j as int), mode, keys)
                    }),
            decreases defaults.modes@.len() - j,
        {
            let d = &defaults.modes[j];
            let ghost before = merged.tables();
            let ghost prefix = given.subrange(0, j as int);
            assert(given.subrange(0, j + 1) =~= prefix.push(given[j as int]));
            assert(given[j as int] == (d.mode, d.rows()));
            if merged.get(&d.mode).is_none() {
                let mut table = ModeBindings::new(d.mode);
                table.fill_from(d);
                let ghost row = (table.mode, table.rows());
                merged.modes.push(table);
                proof {
                    assert(merged.tables() =~= before.push(row));
                    assert forall|mode: Mode| #[trigger]
                        lookup_table(merged.tables(), mode).is_some() == (lookup_table(
                            user,
                            mode,
                        ).is_some() || lookup_table(given.subrange(0, j + 1), mode).is_some()) by {
                        lemma_tables_push(before, row, mode);
                        lemma_tables_push(prefix, given[j as int], mode);
                    }
                    assert forall|mode: Mode, keys: Seq<KeyEvent>| #[trigger]
                        bound_in(merged.tables(), mode, keys) == (if lookup_table(
                            user,
                            mode,
                        ).is_some() {
                            or_else(bound_in(user, mode, keys), bound_in(given, mode, keys))
                        } else {
                            bound_in(given.subrange(0, j + 1), mode, keys)
                        }) by {
                        lemma_tables_push(before, row, mode);
                        lemma_tables_push(prefix, given[j as int], mode);
                        assert(bound_in(before, mode, keys) == (if lookup_table(
                            user,
                            mode,
                        ).is_some() {
                            or_else(bound_in(user, mode, keys), bound_in(given, mode, keys))
                        } else {
                            bound_in(prefix, mode, keys)
                        }));
                        assert(lookup_table(before, mode).is_some() == (lookup_table(
                            user,
                            mode,
                        ).is_some() || lookup_table(prefix, mode).is_some()));
                        if mode == d.mode {
                            assert(table.lookup(keys) == lookup_rows(table.rows(), keys));
                            assert(lookup_rows(Seq::<Row>::empty(), keys).is_none());
                        }
                    }
                }
            } else {
                proof {
                    assert forall|mode: Mode| #[trigger]
                        lookup_table(merged.tables(), mode).is_some() == (lookup_table(
                            user,
                            mode,
                        ).is_some() || lookup_table(given.subrange(0, j + 1), mode).is_some()) by {
                        lemma_tables_push(prefix, given[j as int], mode);
                    }
                    assert forall|mode: Mode, keys: Seq<KeyEvent>| #[trigger]
                        bound_in(merged.tables(), mode, keys) == (if lookup_table(
                            user,
                            mode,
                        ).is_some() {
                            or_else(bound_in(user, mode, keys), bound_in(given, mode, keys))
                        } else {
                            bound_in(given.subrange(0, j + 1), mode, keys)
                        }) by {
                        lemma_tables_push(prefix, given[j as int], mode);
                        assert(lookup_table(before, mode).is_some() == (lookup_table(
                            user,
                            mode,
                        ).is_some() || lookup_table(prefix, mode).is_some()));
                    }
                }
            }
            j += 1;
        }
        assert(given.subrange(0, j as int) =~= given);
        proof {
            assert forall|mode: Mode, keys: Seq<KeyEvent>| #[trigger]
                merged.lookup(mode, keys) == old(self).merged_lookup(*defaults, mode, keys) by {
                assert(merged.lookup(mode, keys) == bound_in(merged.tables(), mode, keys));
                assert(old(self).lookup(mode, keys) == bound_in(user, mode, keys));
                assert(defaults.lookup(mode, keys) == bound_in(given, mode, keys));
            }
        }
        *self = merged;
    }

    /// Makes bindings of what a configuration file holds: for each page
    /// the actions by the key sequences as they are written. It fails
    /// at the first key sequence that cannot be read.
    pub fn from_written(written: Vec<(Mode, Vec<(String, Action)>)>) -> (r: Result<
        KeyBindings,
        crate::error::Error,
    >)
        ensures
            match r {
                Ok(bindings) => {
                    &&& bindings.modes@.len() == written@.len()
                    &&& forall|i: int|
                        0 <= i < written@.len() ==> {
                            &&& (#[trigger] bindings.modes@[i]).mode == written@[i].0
                            &&& bindings.modes@[i].bindings@.len() == written@[i].1@.len()
                            &&& forall|k: int|
                                0 <= k < written@[i].1@.len() ==> {
                                    &&& (#[trigger] bindings.modes@[i].bindings@[k]).action
                                        == written@[i].1@[k].1
                                    &&& crate::keynames::sequence_parsed(
                                        written@[i].1@[k].0@,
                                        Ok(bindings.modes@[i].bindings@[k].keys),
                                    )
                                }
                        }
                },
                Err(e) => exists|i: int, k: int|
                    0 <= i < written@.len() && 0 <= k < written@[i].1@.len()
                        && #[trigger] crate::keynames::sequence_parsed(
                        written@[i].1@[k].0@,
                        Err(e),
                    ),
            },
    {
        let mut modes: Vec<ModeBindings> = Vec::new();
        let mut i: usize = 0;
        while i < written.len()
            invariant
                i <= written@.len(),
                modes@.len() == i,
                forall|a: int|
                    0 <= a < i ==> {
                        &&& (#[trigger] modes@[a]).mode == written@[a].0
                        &&& modes@[a].bindings@.len() == written@[a].1@.len()
                        &&& forall|k: int|
                            0 <= k < written@[a].1@.len() ==> {
                                &&& (#[trigger] modes@[a].bindings@[k]).action
                                    == written@[a].1@[k].1
                                &&& crate::keynames::sequence_parsed(
                                    written@[a].1@[k].0@,
                                    Ok(modes@[a].bindings@[k].keys),
                                )
                            }
                    },
            decreases written@.len() - i,
        {
            let entries = &written[i].1;
            let mut bindings: Vec<KeySequenceBinding> = Vec::new();
            let mut k: usize = 0;
            while k < entries.len()
                invariant
                    i < written@.len(),
                    entries == &written@[i as int].1,
                    k <= entries@.len(),
                    bindings@.len() == k,
                    forall|b: int|
                        0 <= b < k ==> {
                            &&& (#[trigger] bindings@[b]).action == entries@[b].1
                            &&& crate::keynames::sequence_parsed(
                                entries@[b].0@,
                                Ok(bindings@[b].keys),
                            )
                        },
                decreases entries@.len() - k,
            {
                match crate::keynames::parse_key_sequence(entries[k].0.as_str()) {
                    Ok(keys) => {
                        bindings.push(KeySequenceBinding { keys, action: entries[k].1.clone() });
                    },
                    Err(e) => {
                        assert(crate::keynames::sequence_parsed(
                            written@[i as int].1@[k as int].0@,
                            Err(e),
                        ));
                        return Err(e);
                    },
                }
                k += 1;
            }
            modes.push(ModeBindings { mode: written[i].0, bindings });
            i += 1;
        }
        Ok(KeyBindings { modes })
    }
}

} // verus!
