//! What every page and widget is built from: the outbox for actions,
//! the key map of a page, modal entries and the call context.

use vstd::prelude::*;
use crate::action::{Action, Mode};
use crate::bindings::ModeBindings;
use crate::conf::{AppConfiguration, Args};
use crate::keys::KeyEvent;

verus! {

/// Work that runs beside the user interface and reports back through
/// actions alone.
#[derive(Debug, PartialEq, Eq)]
pub enum Task {
    /// Wait a second, then increment the counter by the given step.
    Increment(usize),
    /// Wait a second, then decrement the counter by the given step.
    Decrement(usize),
    /// Ask the server to log the account in.
    Login { user: String, password: String },
    /// Ask the server to register the account.
    Register { user: String, password: String },
}

/// What came of a request to the server.
#[derive(Debug, PartialEq, Eq)]
pub enum AuthReply {
    /// The server answered: whether the account is let in, and why.
    Answer { authenticated: Option<bool>, message: String },
    /// The request failed; the text says how.
    Failed(String),
}

/// The title of every toast that reports on a login or registration.
pub open spec fn validation_title() -> Seq<char> {
    "Validation Error"@
}

/// `action` is a toast that reports `body` under the validation title.
pub open spec fn is_validation_toast(action: Action, body: Seq<char>) -> bool {
    action matches Action::Toast(title, text) && title@ == validation_title() && text@ == body
}

/// Where the request of a task goes.
pub open spec fn endpoint_of(task: Task) -> Option<Seq<char>> {
    match task {
        Task::Login { .. } => Some("http://localhost:8080/api/auth/login"@),
        Task::Register { .. } => Some("http://localhost:8080/api/auth/register"@),
        _ => None,
    }
}

impl Task {
    /// What a task sends as soon as it starts: that work is under way.
    pub fn opening(&self) -> (actions: Vec<Action>)
        ensures
            actions@ == seq![Action::EnterProcessing],
    {
        vec![Action::EnterProcessing]
    }

    /// The address that the task posts the account to, with the user
    /// and the password as basic authentication. Counters post nothing
    /// and wait a second instead.
    pub fn endpoint(&self) -> (address: Option<&'static str>)
        ensures
            match address {
                Some(text) => endpoint_of(*self) == Some(text@),
                None => endpoint_of(*self).is_none(),
            },
    {
        match self {
            Task::Login { .. } => Some("http://localhost:8080/api/auth/login"),
            Task::Register { .. } => Some("http://localhost:8080/api/auth/register"),
            _ => None,
        }
    }

    /// What a counter sends once its second is over: its step, and that
    /// the work is done. Other tasks wait for nothing.
    pub fn after_wait(&self) -> (actions: Vec<Action>)
        ensures
            actions@ == match *self {
                Task::Increment(i) => seq![Action::Increment(i), Action::EnterNormal],
                Task::Decrement(i) => seq![Action::Decrement(i), Action::EnterNormal],
                _ => Seq::<Action>::empty(),
            },
    {
        match self {
            Task::Increment(i) => vec![Action::Increment(*i), Action::EnterNormal],
            Task::Decrement(i) => vec![Action::Decrement(*i), Action::EnterNormal],
            _ => Vec::new(),
        }
    }

    /// The page that opens once the server has let the account in.
    pub open spec fn landing(self) -> Mode {
        match self {
            Task::Register { .. } => Mode::Signup,
            _ => Mode::Home,
        }
    }

    /// What a login or registration sends once the server has answered
    /// or the request has failed. An account that is let in leaves the
    /// processing state, is logged in, and lands on its page. Anything
    /// else is reported by a toast, with the server's message or the
    /// text of the failure, before the processing state is left.
    /// Counters send nothing here.
    pub fn after_reply(&self, reply: AuthReply) -> (actions: Vec<Action>)
        ensures
            match *self {
                Task::Increment(_) | Task::Decrement(_) => actions@.len() == 0,
                _ => match reply {
                    AuthReply::Answer { authenticated: Some(true), .. } => actions@ == seq![
                        Action::EnterNormal,
                        Action::LoggedIn,
                        Action::ChangeMode(self.landing()),
                    ],
                    AuthReply::Answer { message, .. } => actions@.len() == 2
                        && is_validation_toast(actions@[0], message@) && actions@[1]
                        == Action::EnterNormal,
                    AuthReply::Failed(text) => actions@.len() == 2 && is_validation_toast(
                        actions@[0],
                        text@,
                    ) && actions@[1] == Action::EnterNormal,
                },
            },
    {
        let landing = match self {
            Task::Increment(_) | Task::Decrement(_) => {
                return Vec::new();
            },
            Task::Register { .. } => Mode::Signup,
            Task::Login { .. } => Mode::Home,
        };
        match reply {
            AuthReply::Answer { authenticated: Some(true), .. } => vec![
                Action::EnterNormal,
                Action::LoggedIn,
                Action::ChangeMode(landing),
            ],
            AuthReply::Answer { message, .. } => vec![
                Action::Toast(String::from_str("Validation Error"), message),
                Action::EnterNormal,
            ],
            AuthReply::Failed(text) => vec![
                Action::Toast(String::from_str("Validation Error"), text),
                Action::EnterNormal,
            ],
        }
    }
}

/// What a component hands to the dispatch loop.
#[derive(Debug, PartialEq, Eq)]
pub enum Outgoing {
    /// An action to put on the queue.
    Send(Action),
    /// A task to start, detached from the loop.
    Spawn(Task),
}

/// The sending end of the action queue, as a component holds it. What
/// is sent waits in `queue`, oldest first, until the dispatch loop
/// collects it.
#[derive(Debug, PartialEq, Eq)]
pub struct ActionSender {
    pub queue: Vec<Outgoing>,
}

impl ActionSender {
    /// A sender with nothing waiting.
    pub fn new() -> (tx: ActionSender)
        ensures
            tx.queue@ == Seq::<Outgoing>::empty(),
    {
        ActionSender { queue: Vec::new() }
    }

    /// Another handle on the same queue, with nothing waiting in it.
    pub fn handle(&self) -> (tx: ActionSender)
        ensures
            tx.queue@ == Seq::<Outgoing>::empty(),
    {
        ActionSender { queue: Vec::new() }
    }

    pub fn send(&mut self, action: Action)
        ensures
            final(self).queue@ == old(self).queue@.push(Outgoing::Send(action)),
    {
        self.queue.push(Outgoing::Send(action));
    }

    pub fn spawn(&mut self, task: Task)
        ensures
            final(self).queue@ == old(self).queue@.push(Outgoing::Spawn(task)),
    {
        self.queue.push(Outgoing::Spawn(task));
    }

    /// Takes out everything that waits, oldest first.
    pub fn drain(&mut self) -> (sent: Vec<Outgoing>)
        ensures
            sent@ == old(self).queue@,
            final(self).queue@ == Seq::<Outgoing>::empty(),
    {
        let mut sent: Vec<Outgoing> = Vec::new();
        sent.append(&mut self.queue);
        assert(sent@ =~= old(self).queue@);
        sent
    }
}

/// What waits in `tx`; nothing where there is no sender.
pub open spec fn waiting(tx: Option<ActionSender>) -> Seq<Outgoing> {
    match tx {
        Some(sender) => sender.queue@,
        None => Seq::<Outgoing>::empty(),
    }
}

/// `tx` after `sent` was handed to it: a sender queues it, and without
/// a sender it is dropped.
pub open spec fn handed(old_tx: Option<ActionSender>, new_tx: Option<ActionSender>, sent: Seq<
    Outgoing,
>) -> bool {
    match old_tx {
        Some(before) => new_tx matches Some(after) && after.queue@ == before.queue@ + sent,
        None => new_tx.is_none(),
    }
}

/// Sends `action` through `tx`, if there is a sender.
pub fn emit(tx: &mut Option<ActionSender>, action: Action)
    ensures
        handed(*old(tx), *final(tx), seq![Outgoing::Send(action)]),
{
    match tx {
        Some(sender) => {
            sender.send(action);
            assert(sender.queue@ =~= old(tx)->0.queue@ + seq![Outgoing::Send(action)]);
        },
        None => {},
    }
}

/// Starts `task` through `tx`, if there is a sender.
pub fn start(tx: &mut Option<ActionSender>, task: Task)
    ensures
        handed(*old(tx), *final(tx), seq![Outgoing::Spawn(task)]),
{
    match tx {
        Some(sender) => {
            sender.spawn(task);
            assert(sender.queue@ =~= old(tx)->0.queue@ + seq![Outgoing::Spawn(task)]);
        },
        None => {},
    }
}

/// Takes out what waits in `tx`, oldest first.
pub fn collect(tx: &mut Option<ActionSender>) -> (sent: Vec<Outgoing>)
    ensures
        sent@ == waiting(*old(tx)),
        waiting(*final(tx)) == Seq::<Outgoing>::empty(),
        final(tx).is_some() == old(tx).is_some(),
{
    match tx {
        Some(sender) => sender.drain(),
        None => Vec::new(),
    }
}

/// The actions that a page binds to single keys.
#[derive(Debug, PartialEq, Eq)]
pub struct Keymap {
    pub entries: Vec<(KeyEvent, Action)>,
}

/// The first action that `entries` binds to `key`, if any.
pub open spec fn bound(entries: Seq<(KeyEvent, Action)>, key: KeyEvent) -> Option<Action>
    decreases entries.len(),
{
    if entries.len() == 0 {
        None
    } else if entries[0].0 == key {
        Some(entries[0].1)
    } else {
        bound(entries.subrange(1, entries.len() as int), key)
    }
}

impl Keymap {
    /// What `key` is bound to.
    pub open spec fn lookup(&self, key: KeyEvent) -> Option<Action> {
        bound(self.entries@, key)
    }

    /// A key map that binds nothing.
    pub fn new() -> (keymap: Keymap)
        ensures
            keymap.entries@ == Seq::<(KeyEvent, Action)>::empty(),
            forall|key: KeyEvent| keymap.lookup(key).is_none(),
    {
        Keymap { entries: Vec::new() }
    }

    /// Binds `key` to `action`, in place of what it was bound to. Every
    /// other key stays bound as it was.
    pub fn insert(&mut self, key: KeyEvent, action: Action)
        ensures
            forall|other: KeyEvent| #[trigger]
                final(self).lookup(other) == if other == key {
                    Some(action)
                } else {
                    old(self).lookup(other)
                },
            final(self).entries@.len() == if old(self).lookup(key).is_some() {
                old(self).entries@.len()
            } else {
                old(self).entries@.len() + 1
            },
    {
        let mut i: usize = 0;
        while i < self.entries.len()
            invariant
                i <= self.entries@.len(),
                self.entries@ == old(self).entries@,
                forall|j: int| 0 <= j < i ==> (#[trigger] self.entries@[j]).0 != key,
            decreases self.entries@.len() - i,
        {
            if self.entries[i].0 == key {
                self.entries.set(i, (key, action));
                proof {
                    lemma_bound_found(old(self).entries@, i as int, key);
                    assert forall|other: KeyEvent| #[trigger]
                        self.lookup(other) == if other == key {
                            Some(action)
                        } else {
                            old(self).lookup(other)
                        } by {
                        lemma_bound_update(old(self).entries@, i as int, key, action, other);
                    }
                }
                return ;
            }
            i += 1;
        }
        self.entries.push((key, action));
        proof {
            lemma_bound_absent(old(self).entries@, key);
            assert forall|other: KeyEvent| #[trigger]
                self.lookup(other) == if other == key {
                    Some(action)
                } else {
                    old(self).lookup(other)
                } by {
                lemma_bound_push(old(self).entries@, (key, action), other);
                if other != key {
                    assert(bound(old(self).entries@.push((key, action)), other) == bound(
                        old(self).entries@,
                        other,
                    ));
                }
            }
        }
    }

    /// The action that `key` is bound to, if it is bound.
    pub fn get(&self, key: &KeyEvent) -> (found: Option<&Action>)
        ensures
            match found {
                Some(action) => self.lookup(*key) == Some(*action),
                None => self.lookup(*key).is_none(),
            },
    {
        let mut i: usize = 0;
        assert(self.entries@.subrange(0, self.entries@.len() as int) =~= self.entries@);
        while i < self.entries.len()
            invariant
                i <= self.entries@.len(),
                self.lookup(*key) == bound(
                    self.entries@.subrange(i as int, self.entries@.len() as int),
                    *key,
                ),
            decreases self.entries@.len() - i,
        {
            let ghost rest = self.entries@.subrange(i as int, self.entries@.len() as int);
            assert(rest[0] == self.entries@[i as int]);
            assert(rest.subrange(1, rest.len() as int) =~= self.entries@.subrange(
                i + 1,
                self.entries@.len() as int,
            ));
            if self.entries[i].0 == *key {
                return Some(&self.entries[i].1);
            }
            i += 1;
        }
        None
    }

    /// The key map of a page: the bindings of its table that take a
    /// single key, in the table's order.
    pub fn of_table(table: &ModeBindings) -> (keymap: Keymap)
        ensures
            forall|key: KeyEvent| #[trigger]
                keymap.lookup(key) == table.lookup(seq![key]),
    {
        let mut entries: Vec<(KeyEvent, Action)> = Vec::new();
        let mut i: usize = 0;
        let ghost rows = table.rows();
        assert(rows.subrange(0, rows.len() as int) =~= rows);
        while i < table.bindings.len()
            invariant
                i <= table.bindings@.len(),
                rows == table.rows(),
                forall|key: KeyEvent| #[trigger]
                    crate::bindings::lookup_rows(rows.subrange(0, i as int), seq![key]) == bound(
                        entries@,
                        key,
                    ),
            decreases table.bindings@.len() - i,
        {
            let ghost before = entries@;
            let binding = &table.bindings[i];
            if binding.keys.len() == 1 {
                entries.push((binding.keys[0], binding.action.clone()));
            }
            proof {
                assert forall|key: KeyEvent| #[trigger]
                    crate::bindings::lookup_rows(rows.subrange(0, i + 1), seq![key]) == bound(
                        entries@,
                        key,
                    ) by {
                    crate::bindings::lemma_rows_push(rows.subrange(0, i as int), rows[i as int], seq![key]);
                    assert(rows.subrange(0, i + 1) =~= rows.subrange(0, i as int).push(
                        rows[i as int],
                    ));
                    assert(rows[i as int] == binding.row());
                    if binding.keys@.len() == 1 {
                        lemma_bound_push(before, (binding.keys@[0], binding.action), key);
                        assert(binding.keys@ =~= seq![binding.keys@[0]]);
                        if binding.keys@[0] != key {
                            assert(seq![binding.keys@[0]][0] != seq![key][0]);
                        }
                    } else {
                        assert(seq![key].len() == 1);
                    }
                }
            }
            i += 1;
        }
        Keymap { entries }
    }
}

/// A key that no entry names is bound to nothing.
pub proof fn lemma_bound_absent(entries: Seq<(KeyEvent, Action)>, key: KeyEvent)
    requires
        forall|j: int| 0 <= j < entries.len() ==> (#[trigger] entries[j]).0 != key,
    ensures
        bound(entries, key).is_none(),
    decreases entries.len(),
{
    if entries.len() > 0 {
        let rest = entries.subrange(1, entries.len() as int);
        assert forall|j: int| 0 <= j < rest.len() implies (#[trigger] rest[j]).0 != key by {
            assert(rest[j] == entries[j + 1]);
        }
        lemma_bound_absent(rest, key);
    }
}

/// A key is bound to the action of the first entry that names it.
pub proof fn lemma_bound_found(entries: Seq<(KeyEvent, Action)>, at: int, key: KeyEvent)
    requires
        0 <= at < entries.len(),
        entries[at].0 == key,
        forall|j: int| 0 <= j < at ==> (#[trigger] entries[j]).0 != key,
    ensures
        bound(entries, key) == Some(entries[at].1),
    decreases at,
{
    if at > 0 {
        let rest = entries.subrange(1, entries.len() as int);
        assert(rest[at - 1] == entries[at]);
        assert forall|j: int| 0 <= j < at - 1 implies (#[trigger] rest[j]).0 != key by {
            assert(rest[j] == entries[j + 1]);
        }
        lemma_bound_found(rest, at - 1, key);
    }
}

/// Looking a key up after the first entry that names `key` got the
/// action `action`.
pub proof fn lemma_bound_update(
    entries: Seq<(KeyEvent, Action)>,
    at: int,
    key: KeyEvent,
    action: Action,
    other: KeyEvent,
)
    requires
        0 <= at < entries.len(),
        entries[at].0 == key,
        forall|j: int| 0 <= j < at ==> (#[trigger] entries[j]).0 != key,
    ensures
        bound(entries.update(at, (key, action)), other) == if other == key {
            Some(action)
        } else {
            bound(entries, other)
        },
    decreases at,
{
    let changed = entries.update(at, (key, action));
    let rest = entries.subrange(1, entries.len() as int);
    if at == 0 {
        assert(changed.subrange(1, changed.len() as int) =~= rest);
    } else {
        assert(changed[0] == entries[0]);
        assert(changed.subrange(1, changed.len() as int) =~= rest.update(at - 1, (key, action)));
        assert(rest[at - 1] == entries[at]);
        assert forall|j: int| 0 <= j < at - 1 implies (#[trigger] rest[j]).0 != key by {
            assert(rest[j] == entries[j + 1]);
        }
        lemma_bound_update(rest, at - 1, key, action, other);
    }
}

/// Looking a key up in a key map with one more entry at its end.
pub proof fn lemma_bound_push(
    entries: Seq<(KeyEvent, Action)>,
    last: (KeyEvent, Action),
    key: KeyEvent,
)
    ensures
        bound(entries.push(last), key) == match bound(entries, key) {
            Some(action) => Some(action),
            None => if last.0 == key {
                Some(last.1)
            } else {
                None
            },
        },
    decreases entries.len(),
{
    let longer = entries.push(last);
    if entries.len() == 0 {
        assert(longer.subrange(1, longer.len() as int) =~= entries);
    } else {
        assert(longer[0] == entries[0]);
        assert(longer.subrange(1, longer.len() as int) =~= entries.subrange(
            1,
            entries.len() as int,
        ).push(last));
        lemma_bound_push(entries.subrange(1, entries.len() as int), last, key);
    }
}

/// What came of reading a file or a directory: what was read, or the
/// text of what went wrong.
pub type Read<T> = Result<T, String>;

/// A second of the steady clock.
pub const SECOND: u64 = 1_000_000;

/// At `now` a second or more has gone by since `start`.
pub open spec fn second_passed(start: u64, now: u64) -> bool {
    now >= start && now - start >= SECOND
}

/// Whether a second or more has gone by since `start`.
pub fn a_second_since(start: u64, now: u64) -> (passed: bool)
    ensures
        passed == second_passed(start, now),
{
    now >= start && now - start >= SECOND
}

/// An entry of a popup or toast stack.
#[derive(Debug, PartialEq, Eq)]
pub struct Modal {
    pub title: Option<String>,
    pub content: String,
    pub subaction: Option<Action>,
    /// Seconds left before the entry goes away by itself.
    pub duration: u64,
}

/// What a component is told with every action: the configuration, the
/// page that is shown, whether the user is logged in, and the time.
#[derive(Debug)]
pub struct Ctx {
    pub config: AppConfiguration,
    pub args: Args,
    pub mode: Mode,
    pub auth: bool,
    /// The reading of a steady clock when the action was dispatched, in
    /// microseconds.
    pub now: u64,
    /// The time of day when the action was dispatched, in seconds since
    /// the start of 1970.
    pub today: i64,
}

impl Ctx {
    pub fn new(appconfig: AppConfiguration, args: Args) -> (ctx: Ctx)
        ensures
            ctx.config == appconfig,
            ctx.args == args,
            ctx.mode == Mode::Login,
            !ctx.auth,
            ctx.now == 0,
            ctx.today == 0,
    {
        Ctx { config: appconfig, args, mode: Mode::default(), auth: false, now: 0, today: 0 }
    }

    pub fn get_config(&self) -> (config: AppConfiguration)
        ensures
            config.config == self.config.config,
            config.databaseconfig == self.config.databaseconfig,
            config.keybindings.tables() == self.config.keybindings.tables(),
    {
        self.config.clone()
    }
}

} // verus!
