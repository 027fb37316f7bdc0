//! The states of a transaction, and what becomes of a connection whose
//! transaction was left open.
//!
//! A transaction owns its connection from `Active` until it is committed or
//! rolled back. One that is dropped while active is `Abandoned`: nothing has
//! told the server to end it. Such a connection must not go back to its pool
//! as it is, or the next one to acquire it waits on a transaction that
//! nobody ends.

use vstd::prelude::*;
use crate::protocol::{Command, CommandView};

verus! {

/// Where a transaction stands.
#[derive(Clone, Copy, Debug, PartialEq, Eq, Structural)]
pub enum TxState {
    /// Begun, and neither committed nor rolled back.
    Active,
    /// Committed: its writes are durable.
    Committed,
    /// Rolled back by a command: its writes are gone.
    RolledBack,
    /// Dropped while active, without a command that ends it.
    Abandoned,
}

/// What to do with a connection whose transaction is still open when the
/// connection is given back.
#[derive(Clone, Copy, Debug, PartialEq, Eq, Structural)]
pub enum AbandonPolicy {
    /// Refuse: every path has to commit or roll back by itself.
    FailFast,
    /// Roll the transaction back first, then give the connection back.
    RollbackOnRelease,
}

/// A connection was to be given back with its transaction still open, under
/// `AbandonPolicy::FailFast`.
#[derive(Clone, Copy, Debug, PartialEq, Eq, Structural)]
pub struct OpenTransaction;

/// Whether the server has been told how the transaction ends. A connection
/// that never began one is settled too.
pub open spec fn is_settled(state: Option<TxState>) -> bool {
    match state {
        None => true,
        Some(TxState::Committed) => true,
        Some(TxState::RolledBack) => true,
        Some(TxState::Active) => false,
        Some(TxState::Abandoned) => false,
    }
}

/// The commands that give a connection back, or the refusal to do so.
pub open spec fn release_of(state: Option<TxState>, policy: AbandonPolicy) -> Result<
    Seq<CommandView>,
    OpenTransaction,
> {
    if is_settled(state) {
        Ok(seq![CommandView::ReleaseConnection])
    } else {
        match policy {
            AbandonPolicy::FailFast => Err(OpenTransaction),
            AbandonPolicy::RollbackOnRelease => Ok(
                seq![CommandView::Rollback, CommandView::ReleaseConnection],
            ),
        }
    }
}

/// The state of a transaction once the commands of a release were carried
/// out: a rollback ends what was open.
pub open spec fn state_after(state: Option<TxState>, commands: Seq<CommandView>) -> Option<TxState> {
    if commands.contains(CommandView::Rollback) && !is_settled(state) {
        Some(TxState::RolledBack)
    } else {
        state
    }
}

/// The views of a sequence of commands.
pub open spec fn command_views(v: Seq<Command>) -> Seq<CommandView> {
    Seq::new(v.len(), |i: int| v[i]@)
}

/// Tells whether the server has been told how the transaction ends.
pub fn settled(state: Option<TxState>) -> (b: bool)
    ensures
        b == is_settled(state),
{
    match state {
        None => true,
        Some(TxState::Committed) => true,
        Some(TxState::RolledBack) => true,
        Some(TxState::Active) => false,
        Some(TxState::Abandoned) => false,
    }
}

/// Decides how a connection goes back to its pool, given the state of the
/// transaction that last ran on it.
pub fn release(state: Option<TxState>, policy: AbandonPolicy) -> (r: Result<
    Vec<Command>,
    OpenTransaction,
>)
    ensures
        r is Ok <==> release_of(state, policy) is Ok,
        r is Ok ==> command_views(r->Ok_0@) == release_of(state, policy)->Ok_0,
{
    let mut commands: Vec<Command> = Vec::new();
    if !settled(state) {
        match policy {
            AbandonPolicy::FailFast => {
                return Err(OpenTransaction);
            },
            AbandonPolicy::RollbackOnRelease => {
                commands.push(Command::Rollback);
            },
        }
    }
    commands.push(Command::ReleaseConnection);
    assert(command_views(commands@) =~= release_of(state, policy)->Ok_0);
    Ok(commands)
}

/// No connection goes back to its pool with a transaction that nobody has
/// ended: whatever the state and the policy, a release that is granted leaves
/// the transaction settled, and its last command gives the connection back.
pub proof fn lemma_release_leaves_nothing_open(state: Option<TxState>, policy: AbandonPolicy)
    ensures
        release_of(state, policy) is Ok ==> {
            let commands = release_of(state, policy)->Ok_0;
            &&& is_settled(state_after(state, commands))
            &&& commands.last() == CommandView::ReleaseConnection
        },
        release_of(state, policy) is Err <==> !is_settled(state) && policy
            == AbandonPolicy::FailFast,
{
    if release_of(state, policy) is Ok {
        let commands = release_of(state, policy)->Ok_0;
        if !is_settled(state) {
            assert(commands[0] == CommandView::Rollback);
        }
    }
}

/// Under `RollbackOnRelease` every connection can be given back.
pub proof fn lemma_rollback_policy_always_releases(state: Option<TxState>)
    ensures
        release_of(state, AbandonPolicy::RollbackOnRelease) is Ok,
{
}

} // verus!
