//! What a connection pool is opened with.
//!
//! A pool runs its session statements on every new physical connection,
//! once and in order, before the connection is handed out. A connection
//! that is reused does not run them again.

use vstd::prelude::*;
use crate::naming::DatabaseName;
use crate::options::{bound_to, ConnectionDescriptor, DescriptorView};
use crate::protocol::{fault_of, Command, CommandView, Fault, Reply, ReplyView};
use crate::statements::{use_database, use_database_text, STRICT_SESSION};

verus! {

/// How many physical connections the pool of a scratch database may hold.
/// A caller that asks for one more waits until one comes back.
pub const MAX_CONNECTIONS: u32 = 10;

/// The settings of one pool.
#[derive(Debug, PartialEq, Eq)]
pub struct PoolPlan {
    /// Where the pool connects.
    pub target: ConnectionDescriptor,
    /// The bound on physical connections; `None` leaves the driver's own.
    pub max_connections: Option<u32>,
    /// The statements for each new physical connection, in order.
    pub session: Vec<String>,
}

/// `PoolPlan` as mathematical values.
pub struct PoolPlanView {
    pub target: DescriptorView,
    pub max_connections: Option<u32>,
    pub session: Seq<Seq<char>>,
}

/// The views of a sequence of texts.
pub open spec fn texts(v: Seq<String>) -> Seq<Seq<char>> {
    Seq::new(v.len(), |i: int| v[i]@)
}

impl View for PoolPlan {
    type V = PoolPlanView;

    open spec fn view(&self) -> PoolPlanView {
        PoolPlanView {
            target: self.target@,
            max_connections: self.max_connections,
            session: texts(self.session@),
        }
    }
}

/// The pool that creates a database: it selects none, and a new connection
/// is made strict.
pub open spec fn admin_plan(target: DescriptorView) -> PoolPlanView {
    PoolPlanView { target, max_connections: None, session: seq![STRICT_SESSION@] }
}

/// The pool of one scratch database: a new connection is made strict and
/// then selects the database by a statement, whatever the target selects.
pub open spec fn scoped_plan(target: DescriptorView, name: Seq<char>, max_connections: u32) -> PoolPlanView {
    PoolPlanView {
        target: bound_to(target, name),
        max_connections: Some(max_connections),
        session: seq![STRICT_SESSION@, use_database_text(name)],
    }
}

/// The settings of the pool that creates a database.
pub fn open_admin(target: ConnectionDescriptor) -> (plan: PoolPlan)
    ensures
        plan@ == admin_plan(target@),
{
    let mut session: Vec<String> = Vec::new();
    session.push(String::from_str(STRICT_SESSION));
    assert(texts(session@) =~= seq![STRICT_SESSION@]);
    PoolPlan { target, max_connections: None, session }
}

/// The settings of the pool of one scratch database.
pub fn open(target: ConnectionDescriptor, name: &DatabaseName, max_connections: u32) -> (plan: PoolPlan)
    ensures
        plan@ == scoped_plan(target@, name@, max_connections),
{
    let mut session: Vec<String> = Vec::new();
    session.push(String::from_str(STRICT_SESSION));
    session.push(use_database(name));
    assert(texts(session@) =~= seq![STRICT_SESSION@, use_database_text(name@)]);
    PoolPlan { target: target.bind(name), max_connections: Some(max_connections), session }
}

impl Clone for PoolPlan {
    fn clone(&self) -> (r: PoolPlan)
        ensures
            r@ == self@,
    {
        let mut session: Vec<String> = Vec::new();
        let mut i: usize = 0;
        while i < self.session.len()
            invariant
                i <= self.session.len(),
                session@.len() == i,
                forall|j: int| 0 <= j < i ==> session@[j]@ == self.session@[j]@,
            decreases self.session.len() - i,
        {
            session.push(self.session[i].clone());
            i += 1;
        }
        assert(texts(session@) =~= texts(self.session@));
        PoolPlan {
            target: self.target.clone(),
            max_connections: self.max_connections,
            session,
        }
    }
}

/// Every connection of a scratch database's pool is made strict first and
/// selects the database second, and runs nothing else.
pub proof fn lemma_session_order(target: DescriptorView, name: Seq<char>, max_connections: u32)
    ensures
        scoped_plan(target, name, max_connections).session.len() == 2,
        scoped_plan(target, name, max_connections).session[0] == STRICT_SESSION@,
        scoped_plan(target, name, max_connections).session[1] == use_database_text(name),
        admin_plan(target).session == scoped_plan(target, name, max_connections).session.take(1),
{
    assert(admin_plan(target).session =~= scoped_plan(target, name, max_connections).session.take(
        1,
    ));
}

/// The session statements of one new physical connection, and how many of
/// them have gone through.
#[derive(Debug)]
pub struct SessionSetup {
    statements: Vec<String>,
    cursor: usize,
}

/// `SessionSetup` as mathematical values.
pub struct SessionSetupView {
    pub statements: Seq<Seq<char>>,
    pub cursor: nat,
}

impl View for SessionSetup {
    type V = SessionSetupView;

    closed spec fn view(&self) -> SessionSetupView {
        SessionSetupView { statements: texts(self.statements@), cursor: self.cursor as nat }
    }
}

/// A new physical connection on which nothing has run yet.
pub open spec fn session_start(statements: Seq<Seq<char>>) -> SessionSetupView {
    SessionSetupView { statements, cursor: 0 }
}

/// Whether every statement has gone through: the connection may be handed
/// out.
pub open spec fn is_ready(s: SessionSetupView) -> bool {
    s.cursor == s.statements.len()
}

/// The statement to run next on the connection, while there is one.
pub open spec fn session_command(s: SessionSetupView) -> Option<CommandView> {
    if s.cursor < s.statements.len() {
        Some(CommandView::Execute(s.statements[s.cursor as int]))
    } else {
        None
    }
}

/// What a reply makes of the connection: a fault of any kind has it thrown
/// away, and the one who asked for a connection gets `Fault::SessionSetup`;
/// else the next statement is due. A connection that is ready stays so.
pub open spec fn session_step(s: SessionSetupView, reply: ReplyView) -> Result<SessionSetupView, Fault> {
    if s.cursor >= s.statements.len() {
        Ok(s)
    } else if fault_of(reply) is Some {
        Err(Fault::SessionSetup)
    } else {
        Ok(SessionSetupView { cursor: s.cursor + 1, ..s })
    }
}

/// What a sequence of replies makes of the connection.
pub open spec fn session_run(s: SessionSetupView, replies: Seq<ReplyView>) -> Result<
    SessionSetupView,
    Fault,
>
    decreases replies.len(),
{
    if replies.len() == 0 {
        Ok(s)
    } else {
        match session_step(s, replies[0]) {
            Ok(next) => session_run(next, replies.drop_first()),
            Err(fault) => Err(fault),
        }
    }
}

impl PoolPlan {
    /// The setup of one new physical connection of this pool.
    pub fn connect(&self) -> (s: SessionSetup)
        ensures
            s@ == session_start(self@.session),
    {
        SessionSetup { statements: self.clone().session, cursor: 0 }
    }
}

impl SessionSetup {
    #[verifier::type_invariant]
    spec fn well_formed(&self) -> bool {
        self.cursor <= self.statements@.len()
    }

    /// The statement to run next; `None` once the connection may be handed
    /// out.
    pub fn command(&self) -> (c: Option<Command>)
        ensures
            self@.cursor <= self@.statements.len(),
            c is Some <==> session_command(self@) is Some,
            c is Some ==> c->0@ == session_command(self@)->0,
    {
        proof {
            use_type_invariant(self);
        }
        if self.cursor < self.statements.len() {
            Some(Command::Execute(self.statements[self.cursor].clone()))
        } else {
            None
        }
    }

    /// Takes the reply to the statement that was due.
    pub fn step(self, reply: &Reply) -> (r: Result<SessionSetup, Fault>)
        ensures
            r is Ok <==> session_step(self@, reply@) is Ok,
            r is Ok ==> r->Ok_0@ == session_step(self@, reply@)->Ok_0,
            r is Err ==> r->Err_0 == session_step(self@, reply@)->Err_0,
    {
        proof {
            use_type_invariant(&self);
        }
        if self.cursor >= self.statements.len() {
            Ok(self)
        } else if reply.fault().is_some() {
            Err(Fault::SessionSetup)
        } else {
            Ok(SessionSetup { statements: self.statements, cursor: self.cursor + 1 })
        }
    }
}

/// A connection is ready only after each of its session statements has
/// gone through once, in the order of the plan; the first fault has the
/// connection thrown away, and the fault reported is `SessionSetup`.
pub proof fn lemma_session_runs_in_order(s: SessionSetupView, replies: Seq<ReplyView>)
    requires
        s.cursor <= s.statements.len(),
    ensures
        session_run(s, replies) is Err <==> exists|i: int|
            0 <= i < replies.len() && i < s.statements.len() - s.cursor && fault_of(
                #[trigger] replies[i],
            ) is Some,
        session_run(s, replies) is Err ==> session_run(s, replies)->Err_0 == Fault::SessionSetup,
        session_run(s, replies) is Ok ==> {
            let end = session_run(s, replies)->Ok_0;
            &&& end.statements == s.statements
            &&& end.cursor == if s.cursor + replies.len() <= s.statements.len() {
                s.cursor + replies.len()
            } else {
                s.statements.len()
            }
        },
    decreases replies.len(),
{
    if replies.len() > 0 {
        let rest = replies.drop_first();
        match session_step(s, replies[0]) {
            Ok(next) => {
                lemma_session_runs_in_order(next, rest);
                if session_run(s, replies) is Err {
                    let i = choose|i: int|
                        0 <= i < rest.len() && i < next.statements.len() - next.cursor && fault_of(
                            #[trigger] rest[i],
                        ) is Some;
                    assert(rest[i] == replies[i + 1]);
                } else {
                    assert forall|i: int|
                        0 <= i < replies.len() && i < s.statements.len() - s.cursor implies !(fault_of(
                        #[trigger] replies[i],
                    ) is Some) by {
                        if i > 0 {
                            assert(rest[i - 1] == replies[i]);
                        }
                    }
                }
            },
            Err(_) => {},
        }
    }
}

} // verus!
