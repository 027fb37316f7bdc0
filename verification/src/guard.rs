//! The guard of one scratch database: how it is set up, how a connection is
//! asked for, and how it is torn down.
//!
//! Setting up and tearing down are sequences of commands. Each is a value
//! that names the command to carry out and takes the reply to it. A guard
//! exists only once every command of the setup has gone through; tearing it
//! down is the only way in which its database leaves the server.

use vstd::prelude::*;
use crate::error::{connection_error, connection_error_of, GuardError};
use crate::naming::{is_database_name, suffix_of, DatabaseName, SUFFIX_LEN};
use crate::options::{
    default_fields, default_fields_view, resolve, resolved, text_view, ConnectionDescriptor,
    DescriptorView,
};
use crate::pool::{admin_plan, open, open_admin, scoped_plan, PoolPlan, PoolPlanView, MAX_CONNECTIONS};
use crate::protocol::{fault_of, Command, CommandView, Reply, ReplyView};
use crate::statements::{
    create_database, create_database_text, drop_database, drop_database_text, CREATE_TABLE,
};

verus! {

/// The number of commands that set a guard up.
pub const CONSTRUCTION_STEPS: usize = 11;

/// The number of those that create the database; the rest work inside it.
pub const PROVISIONING_STEPS: usize = 5;

/// The number of commands that tear a guard down where all goes through.
pub const TEARDOWN_STEPS: usize = 4;

/// The commands that set a guard up, in order: with a pool that selects no
/// database, create the database; then with the pool of that database,
/// create the table in a transaction and commit it.
pub open spec fn construction_script(name: Seq<char>, target: DescriptorView) -> Seq<CommandView> {
    seq![
        CommandView::OpenPool(admin_plan(target)),
        CommandView::Acquire,
        CommandView::Execute(create_database_text(name)),
        CommandView::ReleaseConnection,
        CommandView::ReleasePool,
        CommandView::OpenPool(scoped_plan(target, name, MAX_CONNECTIONS)),
        CommandView::Acquire,
        CommandView::Begin,
        CommandView::Execute(CREATE_TABLE@),
        CommandView::Commit,
        CommandView::ReleaseConnection,
    ]
}

/// The commands that tear a guard down: drop the database on a connection
/// of the guard's own pool, give the connection back, and only then close
/// the pool.
pub open spec fn teardown_script(name: Seq<char>) -> Seq<CommandView> {
    seq![
        CommandView::Acquire,
        CommandView::Execute(drop_database_text(name)),
        CommandView::ReleaseConnection,
        CommandView::ReleasePool,
    ]
}

/// The error that a reply to a command stands for, if any. A pool that does
/// not open and a connection that does not come are told apart by the fault;
/// a statement that fails gives the error of the work it belongs to; giving
/// a connection or a pool back cannot fail.
pub open spec fn failure_of(command: CommandView, reply: ReplyView, statement_error: GuardError) -> Option<
    GuardError,
> {
    match fault_of(reply) {
        None => None,
        Some(fault) => match command {
            CommandView::OpenPool(_) => Some(connection_error_of(fault)),
            CommandView::Acquire => Some(connection_error_of(fault)),
            CommandView::ReleaseConnection => None,
            CommandView::ReleasePool => None,
            _ => Some(statement_error),
        },
    }
}

/// The error of a statement that fails at that place of the setup.
pub open spec fn statement_error_at(cursor: nat) -> GuardError {
    if cursor < PROVISIONING_STEPS {
        GuardError::Provisioning
    } else {
        GuardError::SchemaSetup
    }
}

/// The error that a reply to a command stands for, if any.
pub fn failure(command: &Command, reply: &Reply, statement_error: GuardError) -> (r: Option<GuardError>)
    ensures
        r == failure_of(command@, reply@, statement_error),
{
    match reply.fault() {
        None => None,
        Some(fault) => match command {
            Command::OpenPool(_) => Some(connection_error(fault)),
            Command::Acquire => Some(connection_error(fault)),
            Command::ReleaseConnection => None,
            Command::ReleasePool => None,
            _ => Some(statement_error),
        },
    }
}

/// A setup under way, as mathematical values.
pub struct ConstructionView {
    pub name: Seq<char>,
    /// Where the server is, with no database selected.
    pub target: DescriptorView,
    /// The place in the script of the command waited on.
    pub cursor: nat,
}

/// A guard, as mathematical values.
pub struct GuardView {
    pub name: Seq<char>,
    pub pool: PoolPlanView,
}

/// A teardown under way, as mathematical values.
pub struct TeardownView {
    pub name: Seq<char>,
    /// The place in the script of the command waited on.
    pub cursor: nat,
    /// The first error met so far.
    pub failure: Option<GuardError>,
}

/// A setup under way.
#[derive(Debug)]
pub struct Construction {
    name: DatabaseName,
    target: ConnectionDescriptor,
    cursor: usize,
}

/// The owner of one scratch database and of the settings of its pool.
#[derive(Debug)]
pub struct DatabaseGuard {
    db: PoolPlan,
    db_name: DatabaseName,
}

/// A teardown under way.
#[derive(Debug)]
pub struct Teardown {
    name: DatabaseName,
    cursor: usize,
    failure: Option<GuardError>,
}

/// What a reply makes of a setup.
#[derive(Debug)]
pub enum Progress {
    /// There is a next command.
    Next(Construction),
    /// Every command went through: here is the guard.
    Ready(DatabaseGuard),
    /// A command failed. The setup is over and there is no guard; a
    /// database that was created by then stays on the server.
    Failed(GuardError),
}

/// `Progress` as mathematical values.
pub enum ProgressView {
    Next(ConstructionView),
    Ready(GuardView),
    Failed(GuardError),
}

/// What a reply makes of a teardown.
#[derive(Debug)]
pub enum TeardownProgress {
    /// There is a next command.
    Next(Teardown),
    /// The pool is closed; the result says whether the database was dropped.
    Finished(Result<(), GuardError>),
}

/// `TeardownProgress` as mathematical values.
pub enum TeardownProgressView {
    Next(TeardownView),
    Finished(Result<(), GuardError>),
}

impl View for Construction {
    type V = ConstructionView;

    closed spec fn view(&self) -> ConstructionView {
        ConstructionView { name: self.name@, target: self.target@, cursor: self.cursor as nat }
    }
}

impl View for DatabaseGuard {
    type V = GuardView;

    closed spec fn view(&self) -> GuardView {
        GuardView { name: self.db_name@, pool: self.db@ }
    }
}

impl View for Teardown {
    type V = TeardownView;

    closed spec fn view(&self) -> TeardownView {
        TeardownView { name: self.name@, cursor: self.cursor as nat, failure: self.failure }
    }
}

impl View for Progress {
    type V = ProgressView;

    open spec fn view(&self) -> ProgressView {
        match self {
            Progress::Next(c) => ProgressView::Next(c@),
            Progress::Ready(g) => ProgressView::Ready(g@),
            Progress::Failed(e) => ProgressView::Failed(*e),
        }
    }
}

impl View for TeardownProgress {
    type V = TeardownProgressView;

    open spec fn view(&self) -> TeardownProgressView {
        match self {
            TeardownProgress::Next(t) => TeardownProgressView::Next(t@),
            TeardownProgress::Finished(r) => TeardownProgressView::Finished(*r),
        }
    }
}

/// The setup of the database of that name, before its first command.
pub open spec fn construction_start(name: Seq<char>, external: Option<Seq<char>>) -> ConstructionView {
    ConstructionView { name, target: resolved(external, default_fields_view()), cursor: 0 }
}

/// Whether a setup stands at a command of its script.
pub open spec fn is_construction(c: ConstructionView) -> bool {
    c.cursor < CONSTRUCTION_STEPS
}

/// The guard that a setup ends in.
pub open spec fn guard_of(c: ConstructionView) -> GuardView {
    GuardView { name: c.name, pool: scoped_plan(c.target, c.name, MAX_CONNECTIONS) }
}

/// Whether a guard holds the pool of its own database.
pub open spec fn is_guard(g: GuardView) -> bool {
    exists|target: DescriptorView| g.pool == scoped_plan(target, g.name, MAX_CONNECTIONS)
}

/// The command that a setup waits on.
pub open spec fn construction_command(c: ConstructionView) -> CommandView {
    construction_script(c.name, c.target)[c.cursor as int]
}

/// What a reply makes of a setup: an error ends it, the last command's
/// success gives the guard, any other success moves to the next command.
pub open spec fn construction_step(c: ConstructionView, reply: ReplyView) -> ProgressView {
    match failure_of(construction_command(c), reply, statement_error_at(c.cursor)) {
        Some(error) => ProgressView::Failed(error),
        None => if c.cursor + 1 < CONSTRUCTION_STEPS {
            ProgressView::Next(ConstructionView { cursor: c.cursor + 1, ..c })
        } else {
            ProgressView::Ready(guard_of(c))
        },
    }
}

/// What a sequence of replies makes of a setup. Replies that come after the
/// end are not looked at.
pub open spec fn construction_run(c: ConstructionView, replies: Seq<ReplyView>) -> ProgressView
    decreases replies.len(),
{
    if replies.len() == 0 {
        ProgressView::Next(c)
    } else {
        match construction_step(c, replies[0]) {
            ProgressView::Next(next) => construction_run(next, replies.drop_first()),
            end => end,
        }
    }
}

/// The teardown of the database of that name, before its first command.
pub open spec fn teardown_start(name: Seq<char>) -> TeardownView {
    TeardownView { name, cursor: 0, failure: None }
}

/// Whether a teardown stands at a command of its script.
pub open spec fn is_teardown(t: TeardownView) -> bool {
    t.cursor < TEARDOWN_STEPS
}

/// The command that a teardown waits on.
pub open spec fn teardown_command(t: TeardownView) -> CommandView {
    teardown_script(t.name)[t.cursor as int]
}

/// What a reply makes of a teardown. The first error is kept and the
/// teardown goes on: where no connection came, straight to closing the
/// pool; else to the next command. The reply to the last command ends it.
pub open spec fn teardown_step(t: TeardownView, reply: ReplyView) -> TeardownProgressView {
    let here = failure_of(teardown_command(t), reply, GuardError::Teardown);
    let failure = if t.failure is Some {
        t.failure
    } else {
        here
    };
    if t.cursor + 1 >= TEARDOWN_STEPS {
        TeardownProgressView::Finished(
            match failure {
                Some(error) => Err(error),
                None => Ok(()),
            },
        )
    } else if here is Some && teardown_command(t) is Acquire {
        TeardownProgressView::Next(
            TeardownView { cursor: (TEARDOWN_STEPS - 1) as nat, failure, ..t },
        )
    } else {
        TeardownProgressView::Next(TeardownView { cursor: t.cursor + 1, failure, ..t })
    }
}

/// What a sequence of replies makes of a teardown. Replies that come after
/// the end are not looked at.
pub open spec fn teardown_run(t: TeardownView, replies: Seq<ReplyView>) -> TeardownProgressView
    decreases replies.len(),
{
    if replies.len() == 0 {
        TeardownProgressView::Next(t)
    } else {
        match teardown_step(t, replies[0]) {
            TeardownProgressView::Next(next) => teardown_run(next, replies.drop_first()),
            end => end,
        }
    }
}

/// The commands that a teardown has asked for while it took those replies.
pub open spec fn teardown_issued(t: TeardownView, replies: Seq<ReplyView>) -> Seq<CommandView>
    decreases replies.len(),
{
    if replies.len() == 0 {
        Seq::empty()
    } else {
        seq![teardown_command(t)] + match teardown_step(t, replies[0]) {
            TeardownProgressView::Next(next) => teardown_issued(next, replies.drop_first()),
            TeardownProgressView::Finished(_) => Seq::empty(),
        }
    }
}

impl Construction {
    #[verifier::type_invariant]
    spec fn well_formed(&self) -> bool {
        self.cursor < CONSTRUCTION_STEPS
    }

    /// The command to carry out next.
    pub fn command(&self) -> (c: Command)
        ensures
            is_construction(self@),
            c@ == construction_command(self@),
    {
        proof {
            use_type_invariant(self);
        }
        match self.cursor {
            0 => Command::OpenPool(open_admin(self.target.clone())),
            1 => Command::Acquire,
            2 => Command::Execute(create_database(&self.name)),
            3 => Command::ReleaseConnection,
            4 => Command::ReleasePool,
            5 => Command::OpenPool(open(self.target.clone(), &self.name, MAX_CONNECTIONS)),
            6 => Command::Acquire,
            7 => Command::Begin,
            8 => Command::Execute(String::from_str(CREATE_TABLE)),
            9 => Command::Commit,
            _ => Command::ReleaseConnection,
        }
    }

    /// Takes the reply to the command that the setup waits on.
    pub fn step(self, reply: &Reply) -> (r: Progress)
        ensures
            r@ == construction_step(self@, reply@),
            r is Ready ==> is_guard(r->Ready_0@),
    {
        proof {
            use_type_invariant(&self);
        }
        let command = self.command();
        let statement_error = if self.cursor < PROVISIONING_STEPS {
            GuardError::Provisioning
        } else {
            GuardError::SchemaSetup
        };
        match failure(&command, reply, statement_error) {
            Some(error) => Progress::Failed(error),
            None => if self.cursor + 1 < CONSTRUCTION_STEPS {
                Progress::Next(
                    Construction { name: self.name, target: self.target, cursor: self.cursor + 1 },
                )
            } else {
                let ghost target = self.target@;
                let db = open(self.target, &self.name, MAX_CONNECTIONS);
                let guard = DatabaseGuard { db, db_name: self.name };
                assert(guard@.pool == scoped_plan(target, guard@.name, MAX_CONNECTIONS));
                Progress::Ready(guard)
            },
        }
    }

    /// The name of the database that is being set up.
    pub fn db_name(&self) -> (name: &DatabaseName)
        ensures
            name@ == self@.name,
    {
        &self.name
    }
}

impl DatabaseGuard {
    #[verifier::type_invariant]
    spec fn well_formed(&self) -> bool {
        exists|target: DescriptorView| self.db@ == scoped_plan(target, self.db_name@, MAX_CONNECTIONS)
    }

    /// Starts the setup of a scratch database under a name drawn at random.
    /// Which name comes is not determined; all else is.
    pub fn new(external: Option<String>) -> (c: Construction)
        ensures
            is_construction(c@),
            is_database_name(c@.name),
            suffix_of(c@.name).len() == SUFFIX_LEN,
            c@ == construction_start(c@.name, text_view(external)),
    {
        DatabaseGuard::with_name(DatabaseName::generate(), external)
    }

    /// Starts the setup of the scratch database of a given name. The server
    /// is the one that the connection string names, where there is one, else
    /// the local one.
    pub fn with_name(name: DatabaseName, external: Option<String>) -> (c: Construction)
        ensures
            is_construction(c@),
            c@ == construction_start(name@, text_view(external)),
    {
        Construction { name, target: resolve(external, default_fields()), cursor: 0 }
    }

    /// The command that checks a connection out of the guard's pool. Where
    /// the pool has none left the caller waits. The reply is a connection, or
    /// the fault of a pool beyond use.
    pub fn conn(&self) -> (c: Command)
        ensures
            c@ == CommandView::Acquire,
    {
        Command::Acquire
    }

    /// Starts the teardown, the only way in which the database leaves the
    /// server. The guard is used up.
    pub fn drop_async(self) -> (t: Teardown)
        ensures
            is_teardown(t@),
            t@ == teardown_start(self@.name),
    {
        Teardown { name: self.db_name, cursor: 0, failure: None }
    }

    /// Lets the guard go without a teardown. Nothing is sent to the server:
    /// where this runs nothing can wait for a reply, so the database stays.
    pub fn discard(self) -> (commands: Vec<Command>)
        ensures
            commands@.len() == 0,
    {
        Vec::new()
    }

    /// The name of the guard's database.
    pub fn db_name(&self) -> (name: &DatabaseName)
        ensures
            name@ == self@.name,
            is_guard(self@),
    {
        proof {
            use_type_invariant(self);
        }
        &self.db_name
    }

    /// The settings of the guard's pool.
    pub fn db(&self) -> (plan: &PoolPlan)
        ensures
            plan@ == self@.pool,
            is_guard(self@),
    {
        proof {
            use_type_invariant(self);
        }
        &self.db
    }
}

impl Teardown {
    #[verifier::type_invariant]
    spec fn well_formed(&self) -> bool {
        self.cursor < TEARDOWN_STEPS
    }

    /// The command to carry out next.
    pub fn command(&self) -> (c: Command)
        ensures
            is_teardown(self@),
            c@ == teardown_command(self@),
    {
        proof {
            use_type_invariant(self);
        }
        match self.cursor {
            0 => Command::Acquire,
            1 => Command::Execute(drop_database(&self.name)),
            2 => Command::ReleaseConnection,
            _ => Command::ReleasePool,
        }
    }

    /// Takes the reply to the command that the teardown waits on.
    pub fn step(self, reply: &Reply) -> (r: TeardownProgress)
        ensures
            r@ == teardown_step(self@, reply@),
    {
        proof {
            use_type_invariant(&self);
        }
        let command = self.command();
        let here = failure(&command, reply, GuardError::Teardown);
        let failure = match self.failure {
            Some(error) => Some(error),
            None => here,
        };
        if self.cursor + 1 >= TEARDOWN_STEPS {
            TeardownProgress::Finished(
                match failure {
                    Some(error) => Err(error),
                    None => Ok(()),
                },
            )
        } else {
            let acquiring = match command {
                Command::Acquire => true,
                _ => false,
            };
            let cursor = if here.is_some() && acquiring {
                TEARDOWN_STEPS - 1
            } else {
                self.cursor + 1
            };
            TeardownProgress::Next(Teardown { name: self.name, cursor, failure })
        }
    }
}

} // verus!
