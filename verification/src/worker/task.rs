//! How a worker goes through a task.
//!
//! [`MevWorker`] decides. Whoever drives it opens states and runs the machine, and
//! comes back with what happened. `P` is an opened state.

use vstd::prelude::*;
use crate::metrics::{Emission, Labels, Update};
use crate::primitives::{AccountInfo, Address, B256, Bytecode, ProviderError, U256};
use super::cache::WorkerL1Cache;
use super::{AccessList, AccessListItem, WorkerError, WorkerOutput, WorkerTask};

verus! {

/// What the driver is to do next for a task.
#[derive(Clone, Copy, Debug)]
pub enum WorkerAction {
    /// Open the state after the block with this hash, and report it to
    /// [`MevWorker::switch_epoch`].
    OpenState(B256),
    /// Execute the call.
    Execute,
}

/// One worker.
#[derive(Debug)]
pub struct MevWorker<P> {
    pub id: usize,
    pub l1: WorkerL1Cache,
    pub current_epoch_id: u64,
    pub state_provider: Option<P>,
}

pub const EPOCH_SWITCHES_TOTAL: &'static str = "mev_worker_epoch_switches_total";

impl<P> MevWorker<P> {
    /// A worker that has not opened a state yet.
    pub fn new(id: usize) -> (worker: Self)
        ensures
            worker.id == id,
            worker.current_epoch_id == 0,
            worker.state_provider is None,
            worker.l1.epoch_id == 0,
            worker.l1.accounts@ == Map::<Address, Option<AccountInfo>>::empty(),
            worker.l1.bytecodes@ == Map::<B256, Bytecode>::empty(),
            worker.l1.storage@ == Map::<(Address, U256), U256>::empty(),
    {
        MevWorker { id, l1: WorkerL1Cache::new(0), current_epoch_id: 0, state_provider: None }
    }

    /// Whether the worker's own cache is for the epoch that the worker is at.
    pub open spec fn in_step(self) -> bool {
        self.l1.epoch_id == self.current_epoch_id
    }

    /// What to do first for `task`.
    pub open spec fn first_action(self, task: WorkerTask) -> WorkerAction {
        if task.epoch.epoch_id != self.current_epoch_id {
            WorkerAction::OpenState(task.epoch.block_hash)
        } else {
            WorkerAction::Execute
        }
    }

    /// Whether `result` is what comes of going over to the epoch of `task`, and leads to
    /// `after`.
    pub open spec fn switches(
        self,
        task: WorkerTask,
        opened: Result<P, ProviderError>,
        result: Result<Emission, WorkerError>,
        after: Self,
    ) -> bool {
        match opened {
            Ok(state) => {
                &&& result == Ok::<Emission, WorkerError>(
                    Emission {
                        metric: EPOCH_SWITCHES_TOTAL,
                        labels: Labels::Bare,
                        update: Update::Increment(1),
                    },
                )
                &&& after.id == self.id
                &&& after.state_provider == Some(state)
                &&& after.current_epoch_id == task.epoch.epoch_id
                &&& after.l1.epoch_id == task.epoch.epoch_id
                &&& after.l1.accounts@ == Map::<Address, Option<AccountInfo>>::empty()
                &&& after.l1.storage@ == Map::<(Address, U256), U256>::empty()
                &&& after.l1.bytecodes == self.l1.bytecodes
            },
            Err(error) => {
                &&& result == Err::<Emission, WorkerError>(WorkerError::Provider(error))
                &&& after == self
            },
        }
    }

    /// What to do first for `task`: a task of another epoch takes another state.
    pub fn begin(&self, task: &WorkerTask) -> (action: WorkerAction)
        ensures
            action == self.first_action(*task),
    {
        if task.epoch.epoch_id != self.current_epoch_id {
            WorkerAction::OpenState(task.epoch.block_hash)
        } else {
            WorkerAction::Execute
        }
    }

    /// Goes over to the epoch of `task`, whose state has been opened or has failed
    /// to. Where it has failed, the worker stays as it was. Otherwise its own cache
    /// is emptied but for code, and the switch is to be counted.
    pub fn switch_epoch(
        &mut self,
        task: &WorkerTask,
        opened: Result<P, ProviderError>,
    ) -> (result: Result<Emission, WorkerError>)
        ensures
            old(self).switches(*task, opened, result, *final(self)),
            old(self).in_step() ==> final(self).in_step(),
    {
        match opened {
            Ok(state) => {
                self.state_provider = Some(state);
                self.l1.reset(task.epoch.epoch_id);
                self.current_epoch_id = task.epoch.epoch_id;
                Ok(
                    Emission {
                        metric: EPOCH_SWITCHES_TOTAL,
                        labels: Labels::Bare,
                        update: Update::Increment(1),
                    },
                )
            },
            Err(error) => Err(WorkerError::Provider(error)),
        }
    }
}

/// Whether `state` is the opened state, if there is one.
pub open spec fn is_opened<P>(state: Result<&P, WorkerError>, state_provider: Option<P>) -> bool {
    match (state, state_provider) {
        (Ok(state), Some(opened)) => *state == opened,
        (Err(WorkerError::Internal(message)), None) => message@ == "state provider missing"@,
        _ => false,
    }
}

/// A task is executed on the state that was opened, and on no other; without one, the reply
/// says that it is missing.
pub proof fn tasks_are_executed_on_the_opened_state<P>(
    state: Result<&P, WorkerError>,
    state_provider: Option<P>,
)
    requires
        is_opened(state, state_provider),
    ensures
        state is Ok <==> state_provider is Some,
        state matches Ok(state) ==> state_provider == Some(*state),
        state matches Err(error) ==> (error matches WorkerError::Internal(message) && message@
            == "state provider missing"@),
{
}

/// The opened state, without which nothing can be executed.
pub fn opened_state<P>(state_provider: &Option<P>) -> (state: Result<&P, WorkerError>)
    ensures
        is_opened(state, *state_provider),
{
    match state_provider {
        Some(state) => Ok(state),
        None => Err(WorkerError::Internal("state provider missing".to_owned())),
    }
}

/// The nonce of the caller, from what the state says of its account: zero where
/// there is no such account.
pub fn caller_nonce(account: Result<Option<AccountInfo>, String>) -> (nonce: Result<
    u64,
    WorkerError,
>)
    ensures
        nonce == match account {
            Ok(Some(info)) => Ok::<u64, WorkerError>(info.nonce),
            Ok(None) => Ok::<u64, WorkerError>(0u64),
            Err(message) => Err::<u64, WorkerError>(WorkerError::Internal(message)),
        },
{
    match account {
        Ok(Some(info)) => Ok(info.nonce),
        Ok(None) => Ok(0),
        Err(message) => Err(WorkerError::Internal(message)),
    }
}

/// A part of the execution that can fail on its own.
#[derive(Clone, Copy, Debug, PartialEq, Eq, Structural)]
pub enum Stage {
    StateOverrides,
    Transact,
    DebugInspector,
    ParityTrace,
}

/// The error for a failure of `stage`.
pub open spec fn failure_of(stage: Stage, message: String) -> WorkerError {
    match stage {
        Stage::StateOverrides => WorkerError::Internal(message),
        Stage::Transact => WorkerError::Evm(message),
        Stage::DebugInspector => WorkerError::Inspect(message),
        Stage::ParityTrace => WorkerError::Tracing(message),
    }
}

/// The error for a failure of `stage`.
pub fn stage_error(stage: Stage, message: String) -> (error: WorkerError)
    ensures
        error == failure_of(stage, message),
{
    match stage {
        Stage::StateOverrides => WorkerError::Internal(message),
        Stage::Transact => WorkerError::Evm(message),
        Stage::DebugInspector => WorkerError::Inspect(message),
        Stage::ParityTrace => WorkerError::Tracing(message),
    }
}

/// How a call ended in the machine.
#[derive(Debug)]
pub enum ExecutionResult {
    Success(Vec<u8>),
    Revert(Vec<u8>),
    Halt { reason: String, gas_used: u64 },
}

/// What a plain call hands back.
pub open spec fn basic_output<G, P>(result: ExecutionResult) -> Result<
    WorkerOutput<G, P>,
    WorkerError,
> {
    match result {
        ExecutionResult::Success(bytes) => Ok(WorkerOutput::Basic(bytes)),
        ExecutionResult::Revert(bytes) => Err(WorkerError::Revert(bytes)),
        ExecutionResult::Halt { reason, gas_used } => Err(WorkerError::Halt { reason, gas_used }),
    }
}

/// What a plain call hands back: what it returned, or how it failed.
pub fn exec_basic<G, P>(result: ExecutionResult) -> (output: Result<
    WorkerOutput<G, P>,
    WorkerError,
>)
    ensures
        output == basic_output::<G, P>(result),
{
    match result {
        ExecutionResult::Success(bytes) => Ok(WorkerOutput::Basic(bytes)),
        ExecutionResult::Revert(bytes) => Err(WorkerError::Revert(bytes)),
        ExecutionResult::Halt { reason, gas_used } => Err(WorkerError::Halt { reason, gas_used }),
    }
}

/// An account that a call touched, with the slots that it touched.
#[derive(Debug)]
pub struct TouchedAccount {
    pub address: Address,
    pub slots: Vec<U256>,
}

/// Whether `item` is `account`, slot by slot.
pub open spec fn item_lists(item: AccessListItem, account: TouchedAccount) -> bool {
    &&& item.address == account.address
    &&& item.storage_keys@.len() == account.slots@.len()
    &&& forall|i: int|
        0 <= i < account.slots@.len() ==> (#[trigger] item.storage_keys@[i]).0
            == account.slots@[i].0
}

/// Whether `list` is `touched`, account by account.
pub open spec fn list_is(list: AccessList, touched: Seq<TouchedAccount>) -> bool {
    &&& list.0@.len() == touched.len()
    &&& forall|i: int| 0 <= i < touched.len() ==> item_lists(#[trigger] list.0@[i], touched[i])
}

fn list_item(account: &TouchedAccount) -> (item: AccessListItem)
    ensures
        item_lists(item, *account),
{
    let mut storage_keys: Vec<B256> = Vec::new();
    let mut i: usize = 0;
    while i < account.slots.len()
        invariant
            i <= account.slots.len(),
            storage_keys@.len() == i,
            forall|j: int| 0 <= j < i ==> (#[trigger] storage_keys@[j]).0 == account.slots@[j].0,
        decreases account.slots.len() - i,
    {
        storage_keys.push(B256::from(account.slots[i]));
        i += 1;
    }
    AccessListItem { address: account.address, storage_keys }
}

/// The accounts and slots that a call touched, as an access list.
pub fn extract_access_list(touched: &Vec<TouchedAccount>) -> (list: AccessList)
    ensures
        list_is(list, touched@),
{
    let mut items: Vec<AccessListItem> = Vec::new();
    let mut i: usize = 0;
    while i < touched.len()
        invariant
            i <= touched.len(),
            items@.len() == i,
            forall|j: int| 0 <= j < i ==> item_lists(#[trigger] items@[j], touched@[j]),
        decreases touched.len() - i,
    {
        items.push(list_item(&touched[i]));
        i += 1;
    }
    AccessList(items)
}

/// Whether `output` is what a traced call hands back.
pub open spec fn is_debug_output<G, P>(
    output: WorkerOutput<G, P>,
    trace: G,
    with_access_list: bool,
    touched: Seq<TouchedAccount>,
) -> bool {
    output matches WorkerOutput::DebugTrace(handed, list) && handed == trace && match list {
        Some(list) => with_access_list && list_is(list, touched),
        None => !with_access_list,
    }
}

/// What a traced call hands back: the trace, and what the call touched if that was
/// wanted.
pub fn exec_debug_trace<G, P>(
    trace: G,
    with_access_list: bool,
    touched: &Vec<TouchedAccount>,
) -> (output: WorkerOutput<G, P>)
    ensures
        is_debug_output(output, trace, with_access_list, touched@),
{
    let list = if with_access_list {
        Some(extract_access_list(touched))
    } else {
        None
    };
    WorkerOutput::DebugTrace(trace, list)
}

/// What the other kind of traced call hands back.
pub fn exec_parity_trace<G, P>(trace: P) -> (output: WorkerOutput<G, P>)
    ensures
        output == WorkerOutput::<G, P>::ParityTrace(trace),
{
    WorkerOutput::ParityTrace(trace)
}

/// A part of a task that is timed.
#[derive(Clone, Copy, Debug, PartialEq, Eq, Structural)]
pub enum Timing {
    QueueWait,
    ResultSend,
    Handle,
    SwitchEpoch,
    BuildDb,
    ApplyOverrides,
    NonceBasic,
    Transact,
    TraceBuild,
    StatsFlush,
    Execute,
}

/// The histogram of a timed part.
pub open spec fn timing_metric(timing: Timing) -> &'static str {
    match timing {
        Timing::QueueWait => "mev_worker_queue_wait_seconds",
        Timing::ResultSend => "mev_worker_result_send_seconds",
        Timing::Handle => "mev_worker_handle_seconds",
        Timing::SwitchEpoch => "mev_worker_switch_epoch_seconds",
        Timing::BuildDb => "mev_worker_build_db_seconds",
        Timing::ApplyOverrides => "mev_worker_apply_overrides_seconds",
        Timing::NonceBasic => "mev_worker_nonce_basic_seconds",
        Timing::Transact => "mev_worker_transact_seconds",
        Timing::TraceBuild => "mev_worker_trace_build_seconds",
        Timing::StatsFlush => "mev_worker_stats_flush_seconds",
        Timing::Execute => "mev_worker_execute_seconds",
    }
}

/// What is reported of how long a part of `task` took.
pub open spec fn timing_of(timing: Timing, task: WorkerTask, nanos: u128) -> Emission {
    Emission {
        metric: timing_metric(timing),
        labels: Labels::Two("method", task.method.label_text(), "kind", task.kind.label_text()),
        update: Update::RecordNanos(nanos),
    }
}

/// Reports how long a part of `task` took.
pub fn record_timing(timing: Timing, task: &WorkerTask, nanos: u128) -> (emission: Emission)
    ensures
        emission == timing_of(timing, *task, nanos),
{
    let metric = match timing {
        Timing::QueueWait => "mev_worker_queue_wait_seconds",
        Timing::ResultSend => "mev_worker_result_send_seconds",
        Timing::Handle => "mev_worker_handle_seconds",
        Timing::SwitchEpoch => "mev_worker_switch_epoch_seconds",
        Timing::BuildDb => "mev_worker_build_db_seconds",
        Timing::ApplyOverrides => "mev_worker_apply_overrides_seconds",
        Timing::NonceBasic => "mev_worker_nonce_basic_seconds",
        Timing::Transact => "mev_worker_transact_seconds",
        Timing::TraceBuild => "mev_worker_trace_build_seconds",
        Timing::StatsFlush => "mev_worker_stats_flush_seconds",
        Timing::Execute => "mev_worker_execute_seconds",
    };
    Emission {
        metric,
        labels: Labels::Two("method", task.method.label(), "kind", task.kind.label()),
        update: Update::RecordNanos(nanos),
    }
}

pub const WORKER_ACTIVE: &'static str = "mev_worker_active";

/// Stands for a worker that is at work on a task.
#[derive(Debug)]
pub struct WorkerActiveGuard {
    pub method: &'static str,
    pub kind: &'static str,
}

/// The gauge of workers at work, raised or lowered.
pub open spec fn active_change(
    method: &'static str,
    kind: &'static str,
    update: Update,
) -> Emission {
    Emission { metric: WORKER_ACTIVE, labels: Labels::Two("method", method, "kind", kind), update }
}

impl WorkerActiveGuard {
    /// One more worker is at work.
    pub fn new(method: &'static str, kind: &'static str) -> (started: (Self, Emission))
        ensures
            started.0 == (WorkerActiveGuard { method, kind }),
            started.1 == active_change(method, kind, Update::Raise),
    {
        (
            WorkerActiveGuard { method, kind },
            Emission {
                metric: WORKER_ACTIVE,
                labels: Labels::Two("method", method, "kind", kind),
                update: Update::Raise,
            },
        )
    }

    /// One worker less is at work.
    pub fn finish(self) -> (emission: Emission)
        ensures
            emission == active_change(self.method, self.kind, Update::Lower),
    {
        Emission {
            metric: WORKER_ACTIVE,
            labels: Labels::Two("method", self.method, "kind", self.kind),
            update: Update::Lower,
        }
    }
}

/// A task of another epoch than the worker's takes the state after the block of that epoch,
/// whether that is a later one or an earlier one, and once it has been opened the task can be
/// executed: the worker is then at the epoch of the task, with that state, with the code that
/// it had, and without any account or slot of the epoch before. Where the state cannot be
/// opened, the reply says why, and the worker is as it was.
pub proof fn tasks_run_at_their_own_epoch<P>(
    worker: MevWorker<P>,
    task: WorkerTask,
    opened: Result<P, ProviderError>,
    result: Result<Emission, WorkerError>,
    after: MevWorker<P>,
    address: Address,
    slot: U256,
)
    requires
        worker.switches(task, opened, result, after),
    ensures
        worker.first_action(task) is Execute <==> worker.current_epoch_id == task.epoch.epoch_id,
        worker.first_action(task) matches WorkerAction::OpenState(hash) ==> hash
            == task.epoch.block_hash,
        opened matches Ok(state) ==> {
            &&& result is Ok
            &&& after.first_action(task) is Execute
            &&& after.current_epoch_id == task.epoch.epoch_id
            &&& after.in_step()
            &&& after.id == worker.id
            &&& after.state_provider == Some(state)
            &&& !after.l1.accounts@.contains_key(address)
            &&& !after.l1.storage@.contains_key((address, slot))
            &&& after.l1.bytecodes@ == worker.l1.bytecodes@
        },
        opened matches Err(error) ==> {
            &&& result == Err::<Emission, WorkerError>(WorkerError::Provider(error))
            &&& after == worker
        },
{
}

/// A plain call that succeeded hands back the bytes that it returned. One that was reverted
/// fails with the bytes that it was reverted with, and one that was halted with the reason
/// and the gas that it used.
pub proof fn calls_hand_back_what_the_machine_gave<G, P>(
    bytes: Vec<u8>,
    reason: String,
    gas_used: u64,
)
    ensures
        basic_output::<G, P>(ExecutionResult::Success(bytes)) matches Ok(WorkerOutput::Basic(given))
            && given == bytes,
        basic_output::<G, P>(ExecutionResult::Revert(bytes)) matches Err(WorkerError::Revert(given))
            && given == bytes,
        basic_output::<G, P>(ExecutionResult::Halt { reason, gas_used }) matches Err(
            WorkerError::Halt { reason: given, gas_used: used },
        ) && given == reason && used == gas_used,
{
}

/// A traced call hands back its trace as it is. If a list was wanted, it lists every touched
/// account in its place, with every slot in its place and nothing else; if none was wanted,
/// there is none.
pub proof fn traces_list_what_was_touched<G, P>(
    output: WorkerOutput<G, P>,
    trace: G,
    with_access_list: bool,
    touched: Seq<TouchedAccount>,
    i: int,
    j: int,
)
    requires
        is_debug_output(output, trace, with_access_list, touched),
    ensures
        output matches WorkerOutput::DebugTrace(handed, list) && handed == trace && (list is Some
            <==> with_access_list) && (list matches Some(list) ==> {
            &&& list.0@.len() == touched.len()
            &&& 0 <= i < touched.len() ==> {
                &&& list.0@[i].address == touched[i].address
                &&& list.0@[i].storage_keys@.len() == touched[i].slots@.len()
                &&& 0 <= j < touched[i].slots@.len() ==> list.0@[i].storage_keys@[j].0
                    == touched[i].slots@[j].0
            }
        }),
{
    if let WorkerOutput::DebugTrace(_, Some(list)) = output {
        if 0 <= i < touched.len() {
            assert(item_lists(list.0@[i], touched[i]));
        }
    }
}

/// A failure is told by where it came from, with its message.
pub proof fn failures_tell_their_stage(message: String)
    ensures
        failure_of(Stage::StateOverrides, message) == WorkerError::Internal(message),
        failure_of(Stage::Transact, message) == WorkerError::Evm(message),
        failure_of(Stage::DebugInspector, message) == WorkerError::Inspect(message),
        failure_of(Stage::ParityTrace, message) == WorkerError::Tracing(message),
{
}

/// A part of a task is timed to the nanosecond, in a histogram of its own, under the method
/// and the kind of the task.
pub proof fn parts_are_timed_apart(task: WorkerTask, nanos: u128)
    ensures
        ({
            let metric = |timing: Timing| timing_of(timing, task, nanos).metric;
            &&& metric(Timing::QueueWait) == "mev_worker_queue_wait_seconds"
            &&& metric(Timing::ResultSend) == "mev_worker_result_send_seconds"
            &&& metric(Timing::Handle) == "mev_worker_handle_seconds"
            &&& metric(Timing::SwitchEpoch) == "mev_worker_switch_epoch_seconds"
            &&& metric(Timing::BuildDb) == "mev_worker_build_db_seconds"
            &&& metric(Timing::ApplyOverrides) == "mev_worker_apply_overrides_seconds"
            &&& metric(Timing::NonceBasic) == "mev_worker_nonce_basic_seconds"
            &&& metric(Timing::Transact) == "mev_worker_transact_seconds"
            &&& metric(Timing::TraceBuild) == "mev_worker_trace_build_seconds"
            &&& metric(Timing::StatsFlush) == "mev_worker_stats_flush_seconds"
            &&& metric(Timing::Execute) == "mev_worker_execute_seconds"
        }),
        forall|timing: Timing|
            {
                let reported = #[trigger] timing_of(timing, task, nanos);
                &&& reported.update == Update::RecordNanos(nanos)
                &&& reported.labels == Labels::Two(
                    "method",
                    task.method.label_text(),
                    "kind",
                    task.kind.label_text(),
                )
            },
{
}

/// A worker that has started and finished leaves the gauge as it was: it is raised once and
/// lowered once, under the same labels.
pub proof fn active_gauge_is_balanced(method: &'static str, kind: &'static str)
    ensures
        ({
            let raised = active_change(method, kind, Update::Raise);
            let lowered = active_change(method, kind, Update::Lower);
            &&& raised.metric == "mev_worker_active" && lowered.metric == raised.metric
            &&& raised.labels == Labels::Two("method", method, "kind", kind)
            &&& lowered.labels == raised.labels
            &&& raised.update is Raise && lowered.update is Lower
        }),
{
}

} // verus!
