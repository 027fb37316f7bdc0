//! The transactional operation: begin, write one row unless told to return
//! early, read the row back, and commit if it is there.
//!
//! Where the row is not there the operation reports `NotFound` and leaves
//! its transaction as it is: neither committed nor rolled back.

use vstd::prelude::*;
use crate::error::OperationError;
use crate::protocol::{fault_of, has_row, Command, CommandView, Reply, ReplyView};
use crate::statements::{INSERT_ROW, SELECT_ROW, SENTINEL};
use crate::transaction::TxState;

verus! {

/// Where the operation stands: the command it waits on, or how it ended.
#[derive(Clone, Copy, Debug, PartialEq, Eq, Structural)]
pub enum Stage {
    Begin,
    Insert,
    ReadBack,
    Commit,
    Succeeded,
    Failed(OperationError),
}

/// One run of the operation, as mathematical values.
pub struct OperationView {
    /// Whether the write is left out.
    pub early_return: bool,
    pub stage: Stage,
    /// The state of the transaction; `None` before one has begun.
    pub transaction: Option<TxState>,
}

/// One run of the operation on one connection.
#[derive(Debug)]
pub struct Operation {
    early_return: bool,
    stage: Stage,
    transaction: Option<TxState>,
}

impl View for Operation {
    type V = OperationView;

    closed spec fn view(&self) -> OperationView {
        OperationView {
            early_return: self.early_return,
            stage: self.stage,
            transaction: self.transaction,
        }
    }
}

/// The operation before its first command.
pub open spec fn operation_start(early_return: bool) -> OperationView {
    OperationView { early_return, stage: Stage::Begin, transaction: None }
}

/// Whether the operation has ended.
pub open spec fn is_finished(op: OperationView) -> bool {
    op.stage is Succeeded || op.stage is Failed
}

/// How the operation ended, once it has.
pub open spec fn outcome_of(op: OperationView) -> Option<Result<(), OperationError>> {
    match op.stage {
        Stage::Succeeded => Some(Ok(())),
        Stage::Failed(e) => Some(Err(e)),
        _ => None,
    }
}

/// The command that the operation waits on, until it has ended.
pub open spec fn operation_command(op: OperationView) -> Option<CommandView> {
    match op.stage {
        Stage::Begin => Some(CommandView::Begin),
        Stage::Insert => Some(CommandView::ExecuteBound(INSERT_ROW@, SENTINEL@)),
        Stage::ReadBack => Some(CommandView::FetchOptional(SELECT_ROW@, SENTINEL@)),
        Stage::Commit => Some(CommandView::Commit),
        Stage::Succeeded => None,
        Stage::Failed(_) => None,
    }
}

/// The operation that failed at the server with its transaction open.
pub open spec fn dropped_with(op: OperationView, error: OperationError) -> OperationView {
    OperationView { stage: Stage::Failed(error), transaction: Some(TxState::Abandoned), ..op }
}

/// The operation after the reply to its command. Once ended it stays as it is.
pub open spec fn operation_step(op: OperationView, reply: ReplyView) -> OperationView {
    match op.stage {
        Stage::Begin => match fault_of(reply) {
            Some(fault) => OperationView {
                stage: Stage::Failed(OperationError::Server(fault)),
                transaction: None,
                ..op
            },
            None => OperationView {
                stage: if op.early_return {
                    Stage::ReadBack
                } else {
                    Stage::Insert
                },
                transaction: Some(TxState::Active),
                ..op
            },
        },
        Stage::Insert => match fault_of(reply) {
            Some(fault) => dropped_with(op, OperationError::Server(fault)),
            None => OperationView { stage: Stage::ReadBack, ..op },
        },
        Stage::ReadBack => match fault_of(reply) {
            Some(fault) => dropped_with(op, OperationError::Server(fault)),
            None => if has_row(reply) {
                OperationView { stage: Stage::Commit, ..op }
            } else {
                dropped_with(op, OperationError::NotFound)
            },
        },
        Stage::Commit => match fault_of(reply) {
            Some(fault) => dropped_with(op, OperationError::Server(fault)),
            None => OperationView {
                stage: Stage::Succeeded,
                transaction: Some(TxState::Committed),
                ..op
            },
        },
        Stage::Succeeded => op,
        Stage::Failed(_) => op,
    }
}

/// The operation after a sequence of replies, each to the command that the
/// operation waited on when it came.
pub open spec fn operation_run(op: OperationView, replies: Seq<ReplyView>) -> OperationView
    decreases replies.len(),
{
    if replies.len() == 0 {
        op
    } else {
        operation_run(operation_step(op, replies[0]), replies.drop_first())
    }
}

/// What holds of the operation at every moment: the stage and the state of
/// the transaction go together, success means a commit, a row that was not
/// found means a transaction left open, and an early return never writes.
pub open spec fn is_coherent(op: OperationView) -> bool {
    &&& op.stage is Begin ==> op.transaction is None
    &&& (op.stage is Insert || op.stage is ReadBack || op.stage is Commit) ==> op.transaction
        == Some(TxState::Active)
    &&& op.stage is Succeeded <==> op.transaction == Some(TxState::Committed)
    &&& op.stage == Stage::Failed(OperationError::NotFound) ==> op.transaction == Some(
        TxState::Abandoned,
    )
    &&& op.stage is Failed ==> op.transaction is None || op.transaction == Some(
        TxState::Abandoned,
    )
    &&& op.early_return ==> !(op.stage is Insert)
}

impl Operation {
    #[verifier::type_invariant]
    spec fn coherent(&self) -> bool {
        is_coherent(self@)
    }

    /// The operation before its first command.
    pub fn start(early_return: bool) -> (op: Operation)
        ensures
            op@ == operation_start(early_return),
    {
        Operation { early_return, stage: Stage::Begin, transaction: None }
    }

    /// The command to carry out next; `None` once the operation has ended.
    pub fn command(&self) -> (c: Option<Command>)
        ensures
            is_coherent(self@),
            c is Some <==> operation_command(self@) is Some,
            c is Some ==> c->0@ == operation_command(self@)->0,
    {
        proof {
            use_type_invariant(self);
        }
        match self.stage {
            Stage::Begin => Some(Command::Begin),
            Stage::Insert => Some(
                Command::ExecuteBound(String::from_str(INSERT_ROW), String::from_str(SENTINEL)),
            ),
            Stage::ReadBack => Some(
                Command::FetchOptional(String::from_str(SELECT_ROW), String::from_str(SENTINEL)),
            ),
            Stage::Commit => Some(Command::Commit),
            Stage::Succeeded => None,
            Stage::Failed(_) => None,
        }
    }

    /// Takes the reply to the command that the operation waits on.
    pub fn step(self, reply: &Reply) -> (next: Operation)
        ensures
            next@ == operation_step(self@, reply@),
    {
        proof {
            use_type_invariant(&self);
            lemma_step_keeps_coherent(self@, reply@);
        }
        let early_return = self.early_return;
        let fault = reply.fault();
        match self.stage {
            Stage::Begin => match fault {
                Some(f) => Operation {
                    early_return,
                    stage: Stage::Failed(OperationError::Server(f)),
                    transaction: None,
                },
                None => Operation {
                    early_return,
                    stage: if early_return {
                        Stage::ReadBack
                    } else {
                        Stage::Insert
                    },
                    transaction: Some(TxState::Active),
                },
            },
            Stage::Insert => match fault {
                Some(f) => Operation {
                    early_return,
                    stage: Stage::Failed(OperationError::Server(f)),
                    transaction: Some(TxState::Abandoned),
                },
                None => Operation {
                    early_return,
                    stage: Stage::ReadBack,
                    transaction: self.transaction,
                },
            },
            Stage::ReadBack => match fault {
                Some(f) => Operation {
                    early_return,
                    stage: Stage::Failed(OperationError::Server(f)),
                    transaction: Some(TxState::Abandoned),
                },
                None => if reply.found() {
                    Operation { early_return, stage: Stage::Commit, transaction: self.transaction }
                } else {
                    Operation {
                        early_return,
                        stage: Stage::Failed(OperationError::NotFound),
                        transaction: Some(TxState::Abandoned),
                    }
                },
            },
            Stage::Commit => match fault {
                Some(f) => Operation {
                    early_return,
                    stage: Stage::Failed(OperationError::Server(f)),
                    transaction: Some(TxState::Abandoned),
                },
                None => Operation {
                    early_return,
                    stage: Stage::Succeeded,
                    transaction: Some(TxState::Committed),
                },
            },
            Stage::Succeeded => self,
            Stage::Failed(_) => self,
        }
    }

    /// How the operation ended; `None` while it has not.
    pub fn outcome(&self) -> (r: Option<Result<(), OperationError>>)
        ensures
            r == outcome_of(self@),
    {
        match self.stage {
            Stage::Succeeded => Some(Ok(())),
            Stage::Failed(e) => Some(Err(e)),
            _ => None,
        }
    }

    /// The state of the transaction; `None` where none has begun.
    pub fn transaction(&self) -> (r: Option<TxState>)
        ensures
            r == self@.transaction,
            is_coherent(self@),
    {
        proof {
            use_type_invariant(self);
        }
        self.transaction
    }
}

/// A reply never breaks what holds of the operation.
pub proof fn lemma_step_keeps_coherent(op: OperationView, reply: ReplyView)
    requires
        is_coherent(op),
    ensures
        is_coherent(operation_step(op, reply)),
{
}

/// Whatever the replies, the operation stays coherent from its start on: it
/// reports success only with its transaction committed, it reports a row
/// that was not found only with its transaction left open, and with an early
/// return it never waits on the write.
pub proof fn lemma_run_is_coherent(early_return: bool, replies: Seq<ReplyView>)
    ensures
        is_coherent(operation_run(operation_start(early_return), replies)),
{
    lemma_run_keeps_coherent(operation_start(early_return), replies);
}

/// A run from a coherent operation ends in a coherent one.
pub proof fn lemma_run_keeps_coherent(op: OperationView, replies: Seq<ReplyView>)
    requires
        is_coherent(op),
    ensures
        is_coherent(operation_run(op, replies)),
    decreases replies.len(),
{
    if replies.len() > 0 {
        lemma_step_keeps_coherent(op, replies[0]);
        lemma_run_keeps_coherent(operation_step(op, replies[0]), replies.drop_first());
    }
}

/// Once ended, the operation takes any number of replies and stays as it is.
pub proof fn lemma_finished_stays(op: OperationView, replies: Seq<ReplyView>)
    requires
        is_finished(op),
    ensures
        operation_run(op, replies) == op,
    decreases replies.len(),
{
    if replies.len() > 0 {
        lemma_finished_stays(op, replies.drop_first());
    }
}

/// The operation ends within four replies, whatever they are.
pub proof fn lemma_operation_ends(early_return: bool, replies: Seq<ReplyView>)
    requires
        replies.len() >= 4,
    ensures
        is_finished(operation_run(operation_start(early_return), replies)),
{
    let s0 = operation_start(early_return);
    let s1 = operation_step(s0, replies[0]);
    let r1 = replies.drop_first();
    let s2 = operation_step(s1, r1[0]);
    let r2 = r1.drop_first();
    let s3 = operation_step(s2, r2[0]);
    let r3 = r2.drop_first();
    let s4 = operation_step(s3, r3[0]);
    let r4 = r3.drop_first();
    assert(operation_run(s0, replies) == operation_run(s1, r1));
    assert(operation_run(s1, r1) == operation_run(s2, r2));
    assert(operation_run(s2, r2) == operation_run(s3, r3));
    assert(operation_run(s3, r3) == operation_run(s4, r4));
    assert(is_finished(s4));
    lemma_finished_stays(s4, r4);
}

/// The replies under which the operation succeeds: the transaction began,
/// the write went through unless it was left out, the row came back, and the
/// commit went through.
pub open spec fn succeeds_on(early_return: bool, replies: Seq<ReplyView>) -> bool {
    if early_return {
        &&& replies.len() >= 3
        &&& fault_of(replies[0]) is None
        &&& has_row(replies[1])
        &&& fault_of(replies[2]) is None
    } else {
        &&& replies.len() >= 4
        &&& fault_of(replies[0]) is None
        &&& fault_of(replies[1]) is None
        &&& has_row(replies[2])
        &&& fault_of(replies[3]) is None
    }
}

/// The replies under which the operation reports that the row is not there:
/// all went through up to the read, and the read brought no row.
pub open spec fn misses_on(early_return: bool, replies: Seq<ReplyView>) -> bool {
    if early_return {
        &&& replies.len() >= 2
        &&& fault_of(replies[0]) is None
        &&& replies[1] is Done
    } else {
        &&& replies.len() >= 3
        &&& fault_of(replies[0]) is None
        &&& fault_of(replies[1]) is None
        &&& replies[2] is Done
    }
}

/// The operation succeeds on exactly the replies of `succeeds_on`, and
/// reports `NotFound` on exactly those of `misses_on`.
pub proof fn lemma_operation_outcome(early_return: bool, replies: Seq<ReplyView>)
    ensures
        operation_run(operation_start(early_return), replies).stage is Succeeded <==> succeeds_on(
            early_return,
            replies,
        ),
        operation_run(operation_start(early_return), replies).stage == Stage::Failed(
            OperationError::NotFound,
        ) <==> misses_on(early_return, replies),
{
    let s0 = operation_start(early_return);
    if replies.len() > 0 {
        let s1 = operation_step(s0, replies[0]);
        let r1 = replies.drop_first();
        assert(operation_run(s0, replies) == operation_run(s1, r1));
        if is_finished(s1) {
            lemma_finished_stays(s1, r1);
        } else if r1.len() > 0 {
            let s2 = operation_step(s1, r1[0]);
            let r2 = r1.drop_first();
            assert(operation_run(s1, r1) == operation_run(s2, r2));
            if is_finished(s2) {
                lemma_finished_stays(s2, r2);
            } else if r2.len() > 0 {
                let s3 = operation_step(s2, r2[0]);
                let r3 = r2.drop_first();
                assert(operation_run(s2, r2) == operation_run(s3, r3));
                if is_finished(s3) {
                    lemma_finished_stays(s3, r3);
                } else if r3.len() > 0 {
                    let s4 = operation_step(s3, r3[0]);
                    let r4 = r3.drop_first();
                    assert(operation_run(s3, r3) == operation_run(s4, r4));
                    lemma_finished_stays(s4, r4);
                }
            }
        }
    }
}

} // verus!
