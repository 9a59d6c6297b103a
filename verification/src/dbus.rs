//! The remote-callable listener adapter, the command queue and the
//! dispatcher, and the singleton listener connection.
//!
//! Calls arriving over the inter-process message bus are turned into
//! [`Command`] values and enqueued in arrival order; a single consumer drains
//! the queue strictly in that order and turns each command into one
//! [`Action`]. The bus plumbing itself (the channel, the asynchronous loop,
//! the bus connection) lives outside the library; the decisions — which
//! command a call produces, which action a command produces, when a guard is
//! acquired, when a new connection is created — are all here.

use crate::config::ConfigId;
use crate::guard::{GuardRegistry, QuitGuard};
use crate::schedule::DueCause;
use vstd::prelude::*;

verus! {

/// An operation request, owned by the queue until the dispatcher takes it.
#[derive(Clone, Debug)]
pub enum Command {
    /// Start the backup of one configuration, with the scheduler's
    /// reason-for-firing when a schedule triggered it.
    StartBackup(ConfigId, Option<DueCause>),
    /// Bring the overview to the front.
    ShowOverview,
    /// Bring one configuration's schedule to the front.
    ShowSchedule(ConfigId),
}

/// The unbounded, order-preserving command queue: a first-in-first-out
/// sequence with the front at index zero.
#[derive(Debug)]
pub struct CommandQueue {
    items: Vec<Command>,
}

impl View for CommandQueue {
    type V = Seq<Command>;

    closed spec fn view(&self) -> Seq<Command> {
        self.items@
    }
}

impl CommandQueue {
    pub fn new() -> (r: CommandQueue)
        ensures
            r@.len() == 0,
    {
        CommandQueue { items: Vec::new() }
    }

    pub fn len(&self) -> (n: usize)
        ensures
            n == self@.len(),
    {
        self.items.len()
    }

    /// Appends one command at the back.
    pub fn enqueue(&mut self, cmd: Command)
        ensures
            final(self)@ == old(self)@.push(cmd),
    {
        self.items.push(cmd);
    }

    /// Takes the oldest queued command, if any.
    pub fn dequeue(&mut self) -> (r: Option<Command>)
        ensures
            old(self)@.len() == 0 ==> r is None && final(self)@ == old(self)@,
            old(self)@.len() > 0 ==> r == Some(old(self)@[0]) && final(self)@ == old(
                self,
            )@.drop_first(),
    {
        if self.items.len() == 0 {
            None
        } else {
            let cmd = self.items.remove(0);
            proof {
                assert(old(self)@.remove(0) =~= old(self)@.drop_first());
            }
            Some(cmd)
        }
    }
}

/// The listener adapter: each remote-callable operation constructs exactly
/// one command and enqueues it, fire-and-forget — the remote caller awaits
/// no result.
#[derive(Debug)]
pub struct PikaBackup {
    pub command: CommandQueue,
}

impl PikaBackup {
    pub fn new(command: CommandQueue) -> (r: PikaBackup)
        ensures
            r.command@ == command@,
    {
        PikaBackup { command }
    }

    /// A scheduled run fired: enqueue the backup start with its cause.
    pub fn start_scheduled_backup(&mut self, config_id: ConfigId, due_cause: DueCause)
        ensures
            final(self).command@ == old(self).command@.push(
                Command::StartBackup(config_id, Some(due_cause)),
            ),
    {
        self.command.enqueue(Command::StartBackup(config_id, Some(due_cause)));
    }

    /// A manual start was requested from outside the process.
    pub fn start_backup(&mut self, config_id: ConfigId)
        ensures
            final(self).command@ == old(self).command@.push(
                Command::StartBackup(config_id, None),
            ),
    {
        self.command.enqueue(Command::StartBackup(config_id, None));
    }

    pub fn show_overview(&mut self)
        ensures
            final(self).command@ == old(self).command@.push(Command::ShowOverview),
    {
        self.command.enqueue(Command::ShowOverview);
    }

    pub fn show_schedule(&mut self, config_id: ConfigId)
        ensures
            final(self).command@ == old(self).command@.push(Command::ShowSchedule(config_id)),
    {
        self.command.enqueue(Command::ShowSchedule(config_id));
    }
}

/// What the dispatcher does with one dequeued command. Long-running work is
/// spawned from the action by its collaborator, never awaited inline, so the
/// dispatcher stays responsive.
#[derive(Debug)]
pub enum Action {
    /// Hand the command to the backup-engine collaborator together with the
    /// guard, which the collaborator holds until the operation concludes.
    RunBackup { config_id: ConfigId, due_cause: Option<DueCause>, guard: QuitGuard },
    /// Forward to the presentation collaborator; instantaneous, no guard.
    ShowOverview,
    /// Forward to the presentation collaborator; instantaneous, no guard.
    ShowSchedule(ConfigId),
}

/// The action that one command produces.
pub open spec fn action_of(cmd: Command) -> Action {
    match cmd {
        Command::StartBackup(config_id, due_cause) => Action::RunBackup {
            config_id,
            due_cause,
            guard: QuitGuard {  },
        },
        Command::ShowOverview => Action::ShowOverview,
        Command::ShowSchedule(config_id) => Action::ShowSchedule(config_id),
    }
}

/// How many guards handling one command acquires: one for a backup start,
/// none for the instantaneous presentation commands.
pub open spec fn guard_delta(cmd: Command) -> int {
    if cmd is StartBackup {
        1
    } else {
        0
    }
}

/// The actions that a sequence of commands produces, in the same order.
pub open spec fn actions_of(cmds: Seq<Command>) -> Seq<Action>
    decreases cmds.len(),
{
    if cmds.len() == 0 {
        Seq::empty()
    } else {
        actions_of(cmds.drop_last()).push(action_of(cmds.last()))
    }
}

/// The guards that handling a sequence of commands acquires.
pub open spec fn guards_acquired(cmds: Seq<Command>) -> int
    decreases cmds.len(),
{
    if cmds.len() == 0 {
        0
    } else {
        guards_acquired(cmds.drop_last()) + guard_delta(cmds.last())
    }
}

/// FIFO: the dispatcher's output has exactly one action per command, and the
/// action at each position is the action of the command at that position —
/// commands are handled in the exact order they were enqueued.
pub proof fn lemma_dispatch_preserves_order(cmds: Seq<Command>)
    ensures
        actions_of(cmds).len() == cmds.len(),
        forall|i: int| 0 <= i < cmds.len() ==> actions_of(cmds)[i] == action_of(cmds[i]),
    decreases cmds.len(),
{
    if cmds.len() > 0 {
        lemma_dispatch_preserves_order(cmds.drop_last());
    }
}

/// Executes one dequeued command: a backup start acquires a shutdown guard
/// for the duration of the triggered operation and hands it along; showing a
/// page acquires none.
pub fn dispatch_command(cmd: Command, registry: &mut GuardRegistry) -> (a: Action)
    requires
        old(registry).count() + guard_delta(cmd) <= u64::MAX,
    ensures
        a == action_of(cmd),
        final(registry).count() == old(registry).count() + guard_delta(cmd),
{
    match cmd {
        Command::StartBackup(config_id, due_cause) => {
            let guard = registry.acquire();
            Action::RunBackup { config_id, due_cause, guard }
        },
        Command::ShowOverview => Action::ShowOverview,
        Command::ShowSchedule(config_id) => Action::ShowSchedule(config_id),
    }
}

/// Drains the commands queued so far, strictly in arrival order, and returns
/// their actions in that order. The surrounding loop runs for the life of
/// the process; each pass through it drains what has arrived.
pub fn drain_commands(queue: &mut CommandQueue, registry: &mut GuardRegistry) -> (actions: Vec<
    Action,
>)
    requires
        old(registry).count() + old(queue)@.len() <= u64::MAX,
    ensures
        final(queue)@.len() == 0,
        actions@ == actions_of(old(queue)@),
        final(registry).count() == old(registry).count() + guards_acquired(old(queue)@),
{
    let mut actions: Vec<Action> = Vec::new();
    let ghost mut processed: Seq<Command> = Seq::empty();
    while queue.len() > 0
        invariant
            old(queue)@ == processed + queue@,
            actions@ == actions_of(processed),
            registry.count() == old(registry).count() + guards_acquired(processed),
            registry.count() <= old(registry).count() + processed.len(),
            processed.len() + queue@.len() == old(queue)@.len(),
            old(registry).count() + old(queue)@.len() <= u64::MAX,
        decreases queue@.len(),
    {
        let ghost queue_before = queue@;
        let cmd = queue.dequeue().unwrap();
        let ghost before = processed;
        let action = dispatch_command(cmd, registry);
        actions.push(action);
        proof {
            processed = processed.push(cmd);
            assert(processed.drop_last() =~= before);
            assert(old(queue)@ =~= processed + queue@) by {
                assert(queue_before =~= seq![cmd] + queue@);
                assert(before + queue_before =~= (before.push(cmd)) + queue@);
            }
        }
    }
    proof {
        assert(processed =~= old(queue)@);
    }
    actions
}

/// A handle to the singleton listener connection. All handles handed out
/// for the life of the process refer to the one underlying connection and
/// are observably equivalent; the identifier stands for that identity.
#[derive(Clone, Copy, Debug, PartialEq, Eq, Structural)]
pub struct Connection {
    pub id: u64,
}

/// The lazily-created singleton connection: absent until first use, then
/// created once and shared — cloned, never recreated — by every later
/// caller. The caller must hold the cell under its exclusivity lock across
/// a whole request, and only across requests, never across call handling.
#[derive(Debug)]
pub struct ConnectionCell {
    conn: Option<Connection>,
    created: u64,
}

/// The cached handle after one request: an existing handle stays, otherwise
/// the newly created one is cached.
pub open spec fn step_cached(cached: Option<Connection>, fresh: Connection) -> Option<Connection> {
    match cached {
        Some(c) => Some(c),
        None => Some(fresh),
    }
}

/// The handle one request returns.
pub open spec fn step_result(cached: Option<Connection>, fresh: Connection) -> Connection {
    match cached {
        Some(c) => c,
        None => fresh,
    }
}

/// How many creations one request performs.
pub open spec fn step_creations(cached: Option<Connection>) -> int {
    if cached is Some {
        0
    } else {
        1
    }
}

impl ConnectionCell {
    /// The cached handle, if the connection was already created.
    pub closed spec fn cached(&self) -> Option<Connection> {
        self.conn
    }

    /// How many times a connection was created over the life of the cell.
    pub closed spec fn creations(&self) -> nat {
        self.created as nat
    }

    pub fn new() -> (r: ConnectionCell)
        ensures
            r.cached() is None,
            r.creations() == 0,
    {
        ConnectionCell { conn: None, created: 0 }
    }

    /// The cached handle, for a caller that must decide between reusing and
    /// creating.
    pub fn cached_connection(&self) -> (r: Option<Connection>)
        ensures
            r == self.cached(),
    {
        self.conn
    }

    /// How many times a connection was created so far.
    pub fn creation_count(&self) -> (r: u64)
        ensures
            r as nat == self.creations(),
    {
        self.created
    }

    /// Caches the one connection that was just created. The absence
    /// requirement is what makes repeated initialization impossible: a
    /// second creation cannot be recorded.
    pub fn install(&mut self, conn: Connection)
        requires
            old(self).cached() is None,
            old(self).creations() < u64::MAX,
        ensures
            final(self).cached() == Some(conn),
            final(self).creations() == old(self).creations() + 1,
    {
        self.conn = Some(conn);
        self.created = self.created + 1;
    }

    /// One request for the connection, made under the exclusivity lock:
    /// returns a clone of the cached handle, or performs
    /// creation-then-cache. `fresh` is the connection the caller would
    /// create; it is cached and returned only when none exists yet.
    pub fn session_connection(&mut self, fresh: Connection) -> (r: Connection)
        requires
            old(self).creations() < u64::MAX,
        ensures
            r == step_result(old(self).cached(), fresh),
            final(self).cached() == step_cached(old(self).cached(), fresh),
            final(self).creations() == old(self).creations() + step_creations(old(self).cached()),
    {
        match self.cached_connection() {
            Some(c) => c,
            None => {
                self.install(fresh);
                fresh
            },
        }
    }
}

/// The cached handle after a sequence of requests, each with the connection
/// it would create.
pub open spec fn cached_after(initial: Option<Connection>, fresh: Seq<Connection>) -> Option<
    Connection,
>
    decreases fresh.len(),
{
    if fresh.len() == 0 {
        initial
    } else {
        step_cached(cached_after(initial, fresh.drop_last()), fresh.last())
    }
}

/// How many creations a sequence of requests performs.
pub open spec fn creations_after(initial: Option<Connection>, fresh: Seq<Connection>) -> int
    decreases fresh.len(),
{
    if fresh.len() == 0 {
        0
    } else {
        creations_after(initial, fresh.drop_last()) + step_creations(
            cached_after(initial, fresh.drop_last()),
        )
    }
}

/// The handles a sequence of requests returns, in request order.
pub open spec fn results_after(initial: Option<Connection>, fresh: Seq<Connection>) -> Seq<
    Connection,
>
    decreases fresh.len(),
{
    if fresh.len() == 0 {
        Seq::empty()
    } else {
        results_after(initial, fresh.drop_last()).push(
            step_result(cached_after(initial, fresh.drop_last()), fresh.last()),
        )
    }
}

/// Idempotent singleton initialization: any number of requests against a
/// cell that starts empty perform exactly one creation, cache the first
/// request's connection, and hand every requester that same handle.
pub proof fn lemma_connection_created_once(fresh: Seq<Connection>)
    requires
        fresh.len() > 0,
    ensures
        creations_after(None, fresh) == 1,
        cached_after(None, fresh) == Some(fresh[0]),
        results_after(None, fresh).len() == fresh.len(),
        forall|i: int| 0 <= i < fresh.len() ==> results_after(None, fresh)[i] == fresh[0],
    decreases fresh.len(),
{
    if fresh.len() == 1 {
        assert(fresh.drop_last() =~= Seq::<Connection>::empty());
        assert(cached_after(None, fresh.drop_last()) is None);
        assert(creations_after(None, fresh.drop_last()) == 0);
        assert(results_after(None, fresh.drop_last()) =~= Seq::<Connection>::empty());
        assert(creations_after(None, fresh) == 1);
        assert(cached_after(None, fresh) == Some(fresh[0]));
    } else {
        lemma_connection_created_once(fresh.drop_last());
        assert(fresh.drop_last()[0] == fresh[0]);
        assert(cached_after(None, fresh.drop_last()) == Some(fresh[0]));
        assert(creations_after(None, fresh) == 1);
        assert(forall|i: int|
            0 <= i < fresh.len() - 1 ==> results_after(None, fresh)[i] == results_after(
                None,
                fresh.drop_last(),
            )[i]);
    }
}

} // verus!
