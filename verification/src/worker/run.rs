//! The steps of a task once its state has been opened.
//!
//! [`next_step`] decides. Whoever drives a task starts with [`TaskEvent::Opened`], does
//! what it is told, and comes back with what happened, until it is told to reply.

use vstd::prelude::*;
use crate::primitives::{AccountInfo, Address};
use super::task::{caller_nonce, stage_error, Stage};
use super::{WorkerError, WorkerOutput};

verus! {

/// What a worker hands back: an output, or why there is none.
pub type WorkerResult<G, P> = Result<WorkerOutput<G, P>, WorkerError>;

/// What is read and set in a transaction before it is executed.
#[derive(Clone, Copy, Debug)]
pub struct TxParts {
    pub caller: Address,
    pub nonce: u64,
}

/// What has happened to a task.
#[derive(Debug)]
pub enum TaskEvent<G, P> {
    /// The state has been opened.
    Opened,
    /// The overrides have been applied, or that failed with this message.
    Overridden(Result<(), String>),
    /// The caller of this transaction has been looked up in the overridden state, or
    /// that failed with this message.
    CallerRead(TxParts, Result<Option<AccountInfo>, String>),
    /// The machine has run.
    Ran(WorkerResult<G, P>),
    /// The counts have been reported. This is what the task came to.
    Flushed(WorkerResult<G, P>),
}

/// What is to be done next for a task.
#[derive(Debug)]
pub enum TaskAction<G, P> {
    ApplyOverrides,
    ReadCaller,
    /// Run the machine on this transaction.
    Transact(TxParts),
    /// Report the counts of the task. This is what it came to.
    Flush(WorkerResult<G, P>),
    /// Reply with this. The task is done.
    Reply(WorkerResult<G, P>),
}

/// The nonce that the state gives to a caller: zero where there is no such account.
pub open spec fn state_nonce(account: Option<AccountInfo>) -> u64 {
    match account {
        Some(info) => info.nonce,
        None => 0,
    }
}

/// What is to be done after `event`. The nonce comes from the state, whatever the
/// transaction came with.
pub open spec fn next_action<G, P>(event: TaskEvent<G, P>) -> TaskAction<G, P> {
    match event {
        TaskEvent::Opened => TaskAction::ApplyOverrides,
        TaskEvent::Overridden(Ok(())) => TaskAction::ReadCaller,
        TaskEvent::Overridden(Err(message)) => TaskAction::Flush(
            Err(WorkerError::Internal(message)),
        ),
        TaskEvent::CallerRead(tx, Ok(account)) => TaskAction::Transact(
            TxParts { caller: tx.caller, nonce: state_nonce(account) },
        ),
        TaskEvent::CallerRead(_, Err(message)) => TaskAction::Flush(
            Err(WorkerError::Internal(message)),
        ),
        TaskEvent::Ran(result) => TaskAction::Flush(result),
        TaskEvent::Flushed(result) => TaskAction::Reply(result),
    }
}

/// What is to be done after `event`.
pub fn next_step<G, P>(event: TaskEvent<G, P>) -> (action: TaskAction<G, P>)
    ensures
        action == next_action(event),
{
    match event {
        TaskEvent::Opened => TaskAction::ApplyOverrides,
        TaskEvent::Overridden(Ok(())) => TaskAction::ReadCaller,
        TaskEvent::Overridden(Err(message)) => TaskAction::Flush(
            Err(stage_error(Stage::StateOverrides, message)),
        ),
        TaskEvent::CallerRead(tx, account) => match caller_nonce(account) {
            Ok(nonce) => TaskAction::Transact(TxParts { caller: tx.caller, nonce }),
            Err(error) => TaskAction::Flush(Err(error)),
        },
        TaskEvent::Ran(result) => TaskAction::Flush(result),
        TaskEvent::Flushed(result) => TaskAction::Reply(result),
    }
}

/// Whether `event` reports that `action` has been done for a task with the transaction
/// `tx`.
pub open spec fn reports<G, P>(action: TaskAction<G, P>, event: TaskEvent<G, P>, tx: TxParts) -> bool {
    match action {
        TaskAction::ApplyOverrides => event is Overridden,
        TaskAction::ReadCaller => event matches TaskEvent::CallerRead(found, _) && found == tx,
        TaskAction::Transact(_) => event is Ran,
        TaskAction::Flush(result) => event == TaskEvent::Flushed(result),
        TaskAction::Reply(_) => false,
    }
}

/// Whether the event after the one at `i` reports what was to be done then.
pub open spec fn follows<G, P>(events: Seq<TaskEvent<G, P>>, tx: TxParts, i: int) -> bool {
    reports(next_action(events[i]), events[i + 1], tx)
}

/// Whether `events` are what happens to a task with the transaction `tx`, as far as it
/// has come.
pub open spec fn is_course<G, P>(events: Seq<TaskEvent<G, P>>, tx: TxParts) -> bool {
    &&& events.len() > 0
    &&& events[0] == TaskEvent::<G, P>::Opened
    &&& forall|i: int| 0 <= i < events.len() - 1 ==> #[trigger] follows(events, tx, i)
}

/// Whether a task is done after `events`.
pub open spec fn is_done<G, P>(events: Seq<TaskEvent<G, P>>) -> bool {
    next_action(events.last()) is Reply
}

/// What the steps of a task can be: `Opened`, `Overridden`, and then as far as nothing
/// fails `CallerRead` and `Ran`, and `Flushed` at the end.
proof fn course_shape<G, P>(events: Seq<TaskEvent<G, P>>, tx: TxParts)
    requires
        is_course(events, tx),
    ensures
        events.len() <= 5,
        events.len() > 1 ==> events[1] is Overridden,
        events.len() > 2 ==> match events[1] {
            TaskEvent::Overridden(Ok(())) => events[2] is CallerRead,
            _ => events[2] is Flushed && events.len() == 3,
        },
        events.len() > 3 ==> match events[2] {
            TaskEvent::CallerRead(_, Ok(_)) => events[3] is Ran,
            _ => events[3] is Flushed && events.len() == 4,
        },
        events.len() > 4 ==> events[4] is Flushed,
{
    if events.len() > 1 {
        assert(follows(events, tx, 0));
    }
    if events.len() > 2 {
        assert(follows(events, tx, 1));
    }
    if events.len() > 3 {
        assert(follows(events, tx, 2));
    }
    if events.len() > 4 {
        assert(follows(events, tx, 3));
    }
    if events.len() > 5 {
        assert(follows(events, tx, 4));
    }
}

/// However a task ends once its state has been opened, its counts are reported exactly
/// once, as the last thing before the reply, and the reply is what it came to.
pub proof fn counts_are_flushed_once<G, P>(events: Seq<TaskEvent<G, P>>, tx: TxParts)
    requires
        is_course(events, tx),
        is_done(events),
    ensures
        events.len() >= 3,
        next_action(events[events.len() - 2]) is Flush,
        forall|i: int|
            0 <= i < events.len() && i != events.len() - 2 ==> !(next_action(
                #[trigger] events[i],
            ) is Flush),
        next_action(events.last())->Reply_0 == next_action(events[events.len() - 2])->Flush_0,
{
    course_shape(events, tx);
    assert(follows(events, tx, events.len() - 2));
}

/// Where the overrides or the caller's account cannot be had, the machine never runs.
/// Nor does it run twice.
pub proof fn failed_tasks_never_run<G, P>(events: Seq<TaskEvent<G, P>>, tx: TxParts)
    requires
        is_course(events, tx),
    ensures
        forall|i: int, j: int|
            0 <= i < events.len() && 0 <= j < events.len() && (#[trigger] events[i] matches
                TaskEvent::Overridden(Err(_)) || events[i] matches TaskEvent::CallerRead(
                _,
                Err(_),
            )) ==> !(next_action(#[trigger] events[j]) is Transact),
        forall|i: int, j: int|
            0 <= i < j < events.len() && next_action(#[trigger] events[i]) is Transact ==> !(
            next_action(#[trigger] events[j]) is Transact),
{
    course_shape(events, tx);
}

/// A task comes to its end: after four reports at most it is done.
pub proof fn tasks_come_to_an_end<G, P>(events: Seq<TaskEvent<G, P>>, tx: TxParts)
    requires
        is_course(events, tx),
    ensures
        events.len() <= 5,
        events.len() == 5 ==> is_done(events),
{
    course_shape(events, tx);
}

/// What a task comes to: `overridden` tells how applying the overrides went, `lookup`
/// what the overridden state holds, and `machine` what the machine makes of a
/// transaction.
pub open spec fn task_result<G, P>(
    tx: TxParts,
    overridden: Result<(), String>,
    lookup: spec_fn(Address) -> Result<Option<AccountInfo>, String>,
    machine: spec_fn(TxParts) -> WorkerResult<G, P>,
) -> WorkerResult<G, P> {
    match overridden {
        Err(message) => Err(WorkerError::Internal(message)),
        Ok(()) => match lookup(tx.caller) {
            Err(message) => Err(WorkerError::Internal(message)),
            Ok(account) => machine(TxParts { caller: tx.caller, nonce: state_nonce(account) }),
        },
    }
}

/// Whether the event at `i` is what `overridden`, `lookup` and `machine` give.
pub open spec fn happens<G, P>(
    events: Seq<TaskEvent<G, P>>,
    i: int,
    overridden: Result<(), String>,
    lookup: spec_fn(Address) -> Result<Option<AccountInfo>, String>,
    machine: spec_fn(TxParts) -> WorkerResult<G, P>,
) -> bool {
    match events[i] {
        TaskEvent::Overridden(result) => result == overridden,
        TaskEvent::CallerRead(tx, account) => account == lookup(tx.caller),
        TaskEvent::Ran(result) => next_action(events[i - 1]) matches TaskAction::Transact(tx)
            ==> result == machine(tx),
        _ => true,
    }
}

/// The reply to a task is what the task comes to.
pub proof fn replies_are_results<G, P>(
    events: Seq<TaskEvent<G, P>>,
    tx: TxParts,
    overridden: Result<(), String>,
    lookup: spec_fn(Address) -> Result<Option<AccountInfo>, String>,
    machine: spec_fn(TxParts) -> WorkerResult<G, P>,
)
    requires
        is_course(events, tx),
        is_done(events),
        forall|i: int|
            0 <= i < events.len() ==> #[trigger] happens(events, i, overridden, lookup, machine),
    ensures
        next_action(events.last()) == TaskAction::Reply(
            task_result(tx, overridden, lookup, machine),
        ),
{
    course_shape(events, tx);
    counts_are_flushed_once(events, tx);
    assert(follows(events, tx, 0));
    assert(follows(events, tx, 1));
    assert(happens(events, 1, overridden, lookup, machine));
    if events.len() > 3 {
        assert(follows(events, tx, 2));
        assert(happens(events, 2, overridden, lookup, machine));
    }
    if events.len() > 4 {
        assert(follows(events, tx, 3));
        assert(happens(events, 3, overridden, lookup, machine));
    }
}

/// Two tasks that differ in the nonce of the transaction alone come to the same: the
/// nonce that counts is the caller's in the overridden state.
pub proof fn given_nonce_makes_no_difference<G, P>(
    a: TxParts,
    b: TxParts,
    overridden: Result<(), String>,
    lookup: spec_fn(Address) -> Result<Option<AccountInfo>, String>,
    machine: spec_fn(TxParts) -> WorkerResult<G, P>,
)
    requires
        a.caller == b.caller,
    ensures
        task_result(a, overridden, lookup, machine) == task_result(b, overridden, lookup, machine),
        forall|account: Result<Option<AccountInfo>, String>|
            next_action(TaskEvent::<G, P>::CallerRead(a, account)) == #[trigger] next_action(
                TaskEvent::<G, P>::CallerRead(b, account),
            ),
{
}

/// Once the caller's account has been read, the machine runs for that caller, and with the
/// nonce of that account, whichever of the 64-bit numbers it is. A caller without an account
/// has the nonce zero.
pub proof fn machine_gets_the_nonce_of_the_state<G, P>(tx: TxParts, info: AccountInfo)
    ensures
        next_action(TaskEvent::<G, P>::CallerRead(tx, Ok(Some(info)))) matches TaskAction::Transact(
            run,
        ) && run.nonce == info.nonce && run.caller == tx.caller,
        next_action(TaskEvent::<G, P>::CallerRead(tx, Ok(None))) matches TaskAction::Transact(run)
            && run.nonce == 0 && run.caller == tx.caller,
{
}

/// The same, told of a whole task: what the machine returned is what it made of the
/// caller's transaction under the nonce that the overridden state gave.
pub proof fn results_are_made_under_the_nonce_of_the_state<G, P>(
    tx: TxParts,
    lookup: spec_fn(Address) -> Result<Option<AccountInfo>, String>,
    machine: spec_fn(TxParts) -> WorkerResult<G, P>,
    nonce: u64,
)
    requires
        lookup(tx.caller) matches Ok(account) && match account {
            Some(info) => info.nonce == nonce,
            None => nonce == 0,
        },
    ensures
        task_result(tx, Ok(()), lookup, machine) == machine(TxParts { caller: tx.caller, nonce }),
{
}

/// A reply tells what happened: the message of the failure where the overrides or the
/// caller's account could not be had, and else what the machine returned.
pub proof fn replies_tell_what_happened<G, P>(events: Seq<TaskEvent<G, P>>, tx: TxParts, i: int)
    requires
        is_course(events, tx),
        is_done(events),
        0 <= i < events.len(),
    ensures
        next_action(events.last()) matches TaskAction::Reply(reply) && match events[i] {
            TaskEvent::Overridden(Err(message)) => reply == Err::<WorkerOutput<G, P>, WorkerError>(
                WorkerError::Internal(message),
            ),
            TaskEvent::CallerRead(_, Err(message)) => reply == Err::<
                WorkerOutput<G, P>,
                WorkerError,
            >(WorkerError::Internal(message)),
            TaskEvent::Ran(result) => reply == result,
            _ => true,
        },
{
    course_shape(events, tx);
    counts_are_flushed_once(events, tx);
    assert(follows(events, tx, events.len() - 2));
    if events.len() > 3 {
        assert(follows(events, tx, events.len() - 3));
    }
}

/// The machine runs only on a state that has been overridden, and only after the caller
/// was read from that state.
pub proof fn overrides_come_before_the_run<G, P>(events: Seq<TaskEvent<G, P>>, tx: TxParts, i: int)
    requires
        is_course(events, tx),
        0 <= i < events.len(),
        events[i] is Ran,
    ensures
        i >= 2,
        events[i - 1] matches TaskEvent::CallerRead(read, Ok(_)) && read == tx,
        events[i - 2] matches TaskEvent::Overridden(Ok(_)),
{
    course_shape(events, tx);
    if events.len() > 2 {
        assert(follows(events, tx, 1));
    }
}

} // verus!
