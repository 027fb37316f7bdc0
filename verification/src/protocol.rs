//! The commands that the harness asks for and the replies it takes back.
//!
//! The harness decides; whoever holds the connection to the server carries
//! a command out and reports what came of it.

use vstd::prelude::*;
use crate::pool::{PoolPlan, PoolPlanView};

verus! {

/// One thing to do at the server or at the pool.
#[derive(Debug, PartialEq, Eq)]
pub enum Command {
    /// Open a pool with these settings; it takes the place of the pool in use.
    OpenPool(PoolPlan),
    /// Check a connection out of the pool in use.
    Acquire,
    /// Begin a transaction on the connection held.
    Begin,
    /// Run a statement on the connection held.
    Execute(String),
    /// Run a statement with one bound value.
    ExecuteBound(String, String),
    /// Run a query with one bound value and take at most one row of it.
    FetchOptional(String, String),
    /// Commit the open transaction.
    Commit,
    /// Roll the open transaction back.
    Rollback,
    /// Give the connection held back to its pool.
    ReleaseConnection,
    /// Close the pool in use.
    ReleasePool,
}

/// `Command` as mathematical values.
pub enum CommandView {
    OpenPool(PoolPlanView),
    Acquire,
    Begin,
    Execute(Seq<char>),
    ExecuteBound(Seq<char>, Seq<char>),
    FetchOptional(Seq<char>, Seq<char>),
    Commit,
    Rollback,
    ReleaseConnection,
    ReleasePool,
}

impl View for Command {
    type V = CommandView;

    open spec fn view(&self) -> CommandView {
        match self {
            Command::OpenPool(plan) => CommandView::OpenPool(plan@),
            Command::Acquire => CommandView::Acquire,
            Command::Begin => CommandView::Begin,
            Command::Execute(sql) => CommandView::Execute(sql@),
            Command::ExecuteBound(sql, value) => CommandView::ExecuteBound(sql@, value@),
            Command::FetchOptional(sql, value) => CommandView::FetchOptional(sql@, value@),
            Command::Commit => CommandView::Commit,
            Command::Rollback => CommandView::Rollback,
            Command::ReleaseConnection => CommandView::ReleaseConnection,
            Command::ReleasePool => CommandView::ReleasePool,
        }
    }
}

/// Why a command failed.
#[derive(Clone, Copy, Debug, PartialEq, Eq, Structural)]
pub enum Fault {
    /// The server could not be reached, or the pool is beyond use.
    Unreachable,
    /// A session statement failed on a new physical connection; that
    /// connection was thrown away.
    SessionSetup,
    /// The server refused the statement.
    Rejected,
}

/// What came of a command.
#[derive(Debug, PartialEq, Eq)]
pub enum Reply {
    /// It was carried out, and gave no row.
    Done,
    /// It was carried out, and this is the first row's value.
    Row(String),
    /// It failed.
    Failed(Fault),
}

/// `Reply` as mathematical values.
pub enum ReplyView {
    Done,
    Row(Seq<char>),
    Failed(Fault),
}

impl View for Reply {
    type V = ReplyView;

    open spec fn view(&self) -> ReplyView {
        match self {
            Reply::Done => ReplyView::Done,
            Reply::Row(value) => ReplyView::Row(value@),
            Reply::Failed(fault) => ReplyView::Failed(*fault),
        }
    }
}

/// The fault that a reply reports, if it reports one.
pub open spec fn fault_of(reply: ReplyView) -> Option<Fault> {
    match reply {
        ReplyView::Failed(fault) => Some(fault),
        _ => None,
    }
}

/// Whether a reply brings a row.
pub open spec fn has_row(reply: ReplyView) -> bool {
    reply is Row
}

impl Clone for Reply {
    fn clone(&self) -> (r: Reply)
        ensures
            r@ == self@,
    {
        match self {
            Reply::Done => Reply::Done,
            Reply::Row(value) => Reply::Row(value.clone()),
            Reply::Failed(fault) => Reply::Failed(*fault),
        }
    }
}

impl Reply {
    /// The fault that this reply reports, if it reports one.
    pub fn fault(&self) -> (r: Option<Fault>)
        ensures
            r == fault_of(self@),
    {
        match self {
            Reply::Failed(fault) => Some(*fault),
            _ => None,
        }
    }

    /// Whether this reply brings a row.
    pub fn found(&self) -> (r: bool)
        ensures
            r == has_row(self@),
    {
        match self {
            Reply::Row(_) => true,
            _ => false,
        }
    }
}

} // verus!
