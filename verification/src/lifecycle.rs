//! What holds of every setup and of every teardown, whatever the server
//! answers.

use vstd::prelude::*;
use crate::error::{connection_error_of, GuardError};
use crate::guard::{
    construction_command, construction_run, construction_script, construction_step, failure_of,
    guard_of, is_construction, is_teardown, statement_error_at, teardown_command, teardown_issued,
    teardown_run, teardown_script, teardown_start, teardown_step, ConstructionView, ProgressView,
    TeardownProgressView, TeardownView, CONSTRUCTION_STEPS, TEARDOWN_STEPS,
};
use crate::options::DescriptorView;
use crate::protocol::{fault_of, CommandView, ReplyView};
use crate::statements::{create_database_text, drop_database_text, CREATE_TABLE};

verus! {

/// The setup with its cursor moved on by `k`.
pub open spec fn advanced(c: ConstructionView, k: int) -> ConstructionView {
    ConstructionView { cursor: (c.cursor + k) as nat, ..c }
}

/// Whether the `i`-th reply from here on goes through at its command.
pub open spec fn goes_through(c: ConstructionView, replies: Seq<ReplyView>, i: int) -> bool {
    failure_of(
        construction_command(advanced(c, i)),
        replies[i],
        statement_error_at((c.cursor + i) as nat),
    ) is None
}

/// A setup ends with the replies to the commands that are left, at the
/// latest: it is then a guard or an error, never something in between.
pub proof fn lemma_setup_ends(c: ConstructionView, replies: Seq<ReplyView>)
    requires
        is_construction(c),
        replies.len() >= CONSTRUCTION_STEPS - c.cursor,
    ensures
        !(construction_run(c, replies) is Next),
    decreases replies.len(),
{
    match construction_step(c, replies[0]) {
        ProgressView::Next(next) => {
            lemma_setup_ends(next, replies.drop_first());
        },
        _ => {},
    }
}

/// There is a guard only where every command of the script was answered and
/// went through, from the first to the last: the database was created, its
/// pool opened, its table created and committed. The guard is then the one
/// of the name that the setup began with.
pub proof fn lemma_guard_only_after_whole_script(c: ConstructionView, replies: Seq<ReplyView>)
    requires
        is_construction(c),
        construction_run(c, replies) is Ready,
    ensures
        replies.len() >= CONSTRUCTION_STEPS - c.cursor,
        construction_run(c, replies) == ProgressView::Ready(guard_of(c)),
        forall|i: int| 0 <= i < CONSTRUCTION_STEPS - c.cursor ==> #[trigger] goes_through(c, replies, i),
    decreases replies.len(),
{
    if replies.len() > 0 {
        match construction_step(c, replies[0]) {
            ProgressView::Next(next) => {
                let rest = replies.drop_first();
                lemma_guard_only_after_whole_script(next, rest);
                assert forall|i: int| 0 <= i < CONSTRUCTION_STEPS - c.cursor implies #[trigger] goes_through(
                    c,
                    replies,
                    i,
                ) by {
                    if i > 0 {
                        assert(goes_through(next, rest, i - 1));
                        assert(advanced(next, i - 1) == advanced(c, i));
                        assert(rest[i - 1] == replies[i]);
                    } else {
                        assert(advanced(c, 0) == c);
                    }
                }
            },
            _ => {
                assert(advanced(c, 0) == c);
            },
        }
    }
}

/// Where every command that is left goes through, the setup ends in the
/// guard.
pub proof fn lemma_setup_succeeds(c: ConstructionView, replies: Seq<ReplyView>)
    requires
        is_construction(c),
        replies.len() >= CONSTRUCTION_STEPS - c.cursor,
        forall|i: int| 0 <= i < CONSTRUCTION_STEPS - c.cursor ==> #[trigger] goes_through(c, replies, i),
    ensures
        construction_run(c, replies) == ProgressView::Ready(guard_of(c)),
    decreases replies.len(),
{
    assert(goes_through(c, replies, 0));
    assert(advanced(c, 0) == c);
    match construction_step(c, replies[0]) {
        ProgressView::Next(next) => {
            let rest = replies.drop_first();
            assert forall|i: int| 0 <= i < CONSTRUCTION_STEPS - next.cursor implies #[trigger] goes_through(
                next,
                rest,
                i,
            ) by {
                assert(goes_through(c, replies, i + 1));
                assert(advanced(next, i) == advanced(c, i + 1));
                assert(rest[i] == replies[i + 1]);
            }
            lemma_setup_succeeds(next, rest);
        },
        _ => {},
    }
}

/// The first command that fails ends the setup with its error, and no
/// guard comes of it, whatever is answered afterwards.
pub proof fn lemma_first_failure_is_fatal(
    c: ConstructionView,
    replies: Seq<ReplyView>,
    k: int,
    error: GuardError,
)
    requires
        is_construction(c),
        0 <= k < replies.len(),
        k < CONSTRUCTION_STEPS - c.cursor,
        forall|i: int| 0 <= i < k ==> #[trigger] goes_through(c, replies, i),
        failure_of(
            construction_command(advanced(c, k)),
            replies[k],
            statement_error_at((c.cursor + k) as nat),
        ) == Some(error),
    ensures
        construction_run(c, replies) == ProgressView::Failed(error),
    decreases k,
{
    assert(advanced(c, 0) == c);
    if k > 0 {
        assert(goes_through(c, replies, 0));
        let next = advanced(c, 1);
        let rest = replies.drop_first();
        assert(construction_step(c, replies[0]) == ProgressView::Next(next));
        assert forall|i: int| 0 <= i < k - 1 implies #[trigger] goes_through(next, rest, i) by {
            assert(goes_through(c, replies, i + 1));
            assert(advanced(next, i) == advanced(c, i + 1));
            assert(rest[i] == replies[i + 1]);
        }
        assert(advanced(next, k - 1) == advanced(c, k));
        assert(rest[k - 1] == replies[k]);
        lemma_first_failure_is_fatal(next, rest, k - 1, error);
    }
}

/// A reply that reports no fault goes through at every command, and giving
/// a connection or a pool back goes through whatever the reply.
pub proof fn lemma_what_goes_through(command: CommandView, reply: ReplyView, statement_error: GuardError)
    ensures
        fault_of(reply) is None ==> failure_of(command, reply, statement_error) is None,
        command is ReleaseConnection || command is ReleasePool ==> failure_of(
            command,
            reply,
            statement_error,
        ) is None,
{
}

/// The setup creates the database before it opens the pool of that
/// database, creates the table inside a transaction that it commits, and
/// writes no row: the table of a new guard is empty.
pub proof fn lemma_setup_writes_no_row(name: Seq<char>, target: DescriptorView)
    ensures
        construction_script(name, target).len() == CONSTRUCTION_STEPS,
        construction_script(name, target)[2] == CommandView::Execute(create_database_text(name)),
        construction_script(name, target)[5] is OpenPool,
        construction_script(name, target)[7] == CommandView::Begin,
        construction_script(name, target)[8] == CommandView::Execute(CREATE_TABLE@),
        construction_script(name, target)[9] == CommandView::Commit,
        forall|i: int|
            0 <= i < CONSTRUCTION_STEPS ==> !((#[trigger] construction_script(name, target)[i])
                is ExecuteBound),
{
}

/// The setup never drops a database: one that it created stays on the
/// server where a later command fails, until somebody drops it.
pub proof fn lemma_setup_never_drops(name: Seq<char>, target: DescriptorView, other: Seq<char>)
    ensures
        forall|i: int|
            0 <= i < CONSTRUCTION_STEPS ==> (#[trigger] construction_script(name, target)[i])
                != CommandView::Execute(drop_database_text(other)),
{
    reveal_strlit("CREATE DATABASE ");
    reveal_strlit("CREATE TABLE foo (a VARCHAR(255))");
    reveal_strlit("DROP DATABASE IF EXISTS `");
    assert(create_database_text(name)[0] == 'C');
    assert(CREATE_TABLE@[0] == 'C');
    assert(drop_database_text(other)[0] == 'D');
}

/// A teardown ends with the replies to the commands that are left, at the
/// latest: with four replies from its start, whatever they are.
pub proof fn lemma_teardown_ends(t: TeardownView, replies: Seq<ReplyView>)
    requires
        is_teardown(t),
        replies.len() >= TEARDOWN_STEPS - t.cursor,
    ensures
        teardown_run(t, replies) is Finished,
    decreases replies.len(),
{
    match teardown_step(t, replies[0]) {
        TeardownProgressView::Next(next) => {
            lemma_teardown_ends(next, replies.drop_first());
        },
        _ => {},
    }
}

/// However a teardown ends, the last thing it asked for is to close the
/// pool: the pool is closed whether or not the database could be dropped,
/// and nothing is sent to the server after that.
pub proof fn lemma_teardown_closes_pool_last(t: TeardownView, replies: Seq<ReplyView>)
    requires
        is_teardown(t),
        teardown_run(t, replies) is Finished,
    ensures
        teardown_issued(t, replies).len() > 0,
        teardown_issued(t, replies).last() == CommandView::ReleasePool,
        forall|i: int|
            0 <= i < teardown_issued(t, replies).len() - 1 ==> !((#[trigger] teardown_issued(
                t,
                replies,
            )[i]) is ReleasePool),
    decreases replies.len(),
{
    if replies.len() > 0 {
        match teardown_step(t, replies[0]) {
            TeardownProgressView::Next(next) => {
                let rest = replies.drop_first();
                lemma_teardown_closes_pool_last(next, rest);
                let tail = teardown_issued(next, rest);
                let all = teardown_issued(t, replies);
                assert(all =~= seq![teardown_command(t)] + tail);
                assert forall|i: int| 0 <= i < all.len() - 1 implies !((#[trigger] all[i])
                    is ReleasePool) by {
                    if i > 0 {
                        assert(all[i] == tail[i - 1]);
                    }
                }
            },
            _ => {
                assert(teardown_issued(t, replies) =~= seq![teardown_command(t)]);
            },
        }
    }
}

/// What a teardown from its start comes to, by the first two replies:
/// where the connection came and the drop went through, success after the
/// whole script; where no connection came, the error of the connection, with
/// nothing asked for but the connection and the closing of the pool; where
/// the drop failed, the teardown error, after the whole script.
pub proof fn lemma_teardown_result(name: Seq<char>, replies: Seq<ReplyView>)
    requires
        replies.len() >= TEARDOWN_STEPS,
    ensures
        fault_of(replies[0]) is None && fault_of(replies[1]) is None ==> {
            &&& teardown_run(teardown_start(name), replies) == TeardownProgressView::Finished(Ok(()))
            &&& teardown_issued(teardown_start(name), replies) == teardown_script(name)
        },
        fault_of(replies[0]) is Some ==> {
            &&& teardown_run(teardown_start(name), replies) == TeardownProgressView::Finished(
                Err(connection_error_of(fault_of(replies[0])->0)),
            )
            &&& teardown_issued(teardown_start(name), replies) == seq![
                CommandView::Acquire,
                CommandView::ReleasePool,
            ]
        },
        fault_of(replies[0]) is None && fault_of(replies[1]) is Some ==> {
            &&& teardown_run(teardown_start(name), replies) == TeardownProgressView::Finished(
                Err(GuardError::Teardown),
            )
            &&& teardown_issued(teardown_start(name), replies) == teardown_script(name)
        },
{
    let t0 = teardown_start(name);
    let r1 = replies.drop_first();
    let r2 = r1.drop_first();
    let r3 = r2.drop_first();
    assert(teardown_step(t0, replies[0]) is Next);
    let t1 = teardown_step(t0, replies[0])->Next_0;
    assert(teardown_run(t0, replies) == teardown_run(t1, r1));
    assert(teardown_issued(t0, replies) == seq![teardown_command(t0)] + teardown_issued(t1, r1));
    if fault_of(replies[0]) is Some {
        assert(t1.cursor == 3);
        assert(teardown_step(t1, r1[0]) is Finished);
        assert(teardown_issued(t1, r1) =~= seq![teardown_command(t1)]);
        assert(teardown_issued(t0, replies) =~= seq![
            CommandView::Acquire,
            CommandView::ReleasePool,
        ]);
    } else {
        assert(r1[0] == replies[1]);
        assert(teardown_step(t1, r1[0]) is Next);
        let t2 = teardown_step(t1, r1[0])->Next_0;
        assert(teardown_step(t2, r2[0]) is Next);
        let t3 = teardown_step(t2, r2[0])->Next_0;
        assert(teardown_step(t3, r3[0]) is Finished);
        assert(teardown_run(t1, r1) == teardown_run(t2, r2));
        assert(teardown_run(t2, r2) == teardown_run(t3, r3));
        assert(teardown_issued(t3, r3) =~= seq![teardown_command(t3)]);
        assert(teardown_issued(t2, r2) =~= seq![teardown_command(t2)] + teardown_issued(t3, r3));
        assert(teardown_issued(t1, r1) =~= seq![teardown_command(t1)] + teardown_issued(t2, r2));
        assert(teardown_issued(t0, replies) =~= teardown_script(name));
    }
}

} // verus!
