//! The workers that execute calls: what they are given, what they hand back, and
//! the pool that they take their tasks from.

use vstd::prelude::*;
use crate::api::types::{CallKind, Method};
use crate::epoch::EpochContext;
use crate::metrics::{Emission, Labels, Update};
use crate::primitives::{Address, B256, ProviderError};
use crate::text::{decimal_text, decimals_are_read_back, push_decimal, u64_in};
use crossbeam_channel::{Receiver, Sender};

pub mod cache;
pub mod queue;
pub mod run;
pub mod task;

use queue::{
    offered_tasks, receiver_capacity, receiver_channel, sender_capacity, sender_channel, sent_tasks,
};

verus! {

/// How many workers there are unless `MEV_WORKER_COUNT` says otherwise.
pub const DEFAULT_POOL_SIZE: usize = 40;

/// How many tasks can wait for a worker. A new block brings about 50,000 within a
/// second.
pub const TASK_QUEUE_CAPACITY: usize = 65536;

/// A call to be executed.
#[derive(Clone, Copy, Debug)]
pub struct WorkerTask {
    /// The epoch that the call is executed on.
    pub epoch: EpochContext,
    pub kind: CallKind,
    pub method: Method,
    /// By this the environment, the transaction and the overrides of the call are
    /// found, and the place where the reply goes.
    pub ticket: u64,
}

/// An account that a call may touch at a lower price, with its slots.
#[derive(Debug)]
pub struct AccessListItem {
    pub address: Address,
    pub storage_keys: Vec<B256>,
}

/// What a call touched.
#[derive(Debug)]
pub struct AccessList(pub Vec<AccessListItem>);

/// What a worker hands back: `G` and `P` are the two forms of trace.
#[derive(Debug)]
pub enum WorkerOutput<G, P> {
    Basic(Vec<u8>),
    /// A trace, and what the call touched if that was wanted.
    DebugTrace(G, Option<AccessList>),
    ParityTrace(P),
}

/// Why a call came to nothing.
#[derive(Debug)]
pub enum WorkerError {
    /// The call was reverted, with these bytes.
    Revert(Vec<u8>),
    /// The machine halted.
    Halt { reason: String, gas_used: u64 },
    /// The machine failed.
    Evm(String),
    /// The tracer failed.
    Inspect(String),
    /// The other tracer failed.
    Tracing(String),
    /// The state database failed.
    Provider(ProviderError),
    Internal(String),
}

impl WorkerError {
    /// The message that the error is shown with.
    pub open spec fn text(self) -> Seq<char> {
        match self {
            WorkerError::Revert(_) => "evm execution reverted"@,
            WorkerError::Halt { reason, gas_used } => "evm halted: "@ + reason@ + ", gas_used="@
                + decimal_text(gas_used as nat),
            WorkerError::Evm(message) => "evm error: "@ + message@,
            WorkerError::Inspect(message) => "debug inspector error: "@ + message@,
            WorkerError::Tracing(message) => "parity tracing error: "@ + message@,
            WorkerError::Provider(error) => "state provider error: "@ + error.message@,
            WorkerError::Internal(message) => "internal: "@ + message@,
        }
    }

    /// The message that the error is shown with.
    pub fn message(&self) -> (text: String)
        ensures
            text@ == self.text(),
    {
        match self {
            WorkerError::Revert(_) => "evm execution reverted".to_owned(),
            WorkerError::Halt { reason, gas_used } => {
                let mut text = "evm halted: ".to_owned();
                text.append(reason.as_str());
                text.append(", gas_used=");
                push_decimal(&mut text, *gas_used);
                text
            },
            WorkerError::Evm(message) => prefixed("evm error: ", message),
            WorkerError::Inspect(message) => prefixed("debug inspector error: ", message),
            WorkerError::Tracing(message) => prefixed("parity tracing error: ", message),
            WorkerError::Provider(error) => prefixed("state provider error: ", &error.message),
            WorkerError::Internal(message) => prefixed("internal: ", message),
        }
    }
}

fn prefixed(prefix: &str, message: &String) -> (text: String)
    ensures
        text@ == prefix@ + message@,
{
    let mut text = prefix.to_owned();
    text.append(message.as_str());
    text
}

/// Why the pool did not take a task.
#[derive(Clone, Copy, Debug, PartialEq, Eq, Structural)]
pub enum PoolError {
    QueueFull,
}

impl PoolError {
    /// The message that the error is shown with.
    pub fn message(&self) -> (text: String)
        ensures
            text@ == "worker pool queue full"@,
    {
        "worker pool queue full".to_owned()
    }
}

pub const POOL_QUEUE_DEPTH: &'static str = "mev_pool_queue_depth";

pub const POOL_QUEUE_FULL_TOTAL: &'static str = "mev_pool_queue_full_total";

/// What is reported of a task given to the pool: how many waited before it, and
/// whether it was turned away.
pub open spec fn dispatch_emissions(depth: usize, taken: bool) -> Seq<Emission> {
    let depth = Emission {
        metric: POOL_QUEUE_DEPTH,
        labels: Labels::Bare,
        update: Update::Assign(depth as u128),
    };
    if taken {
        seq![depth]
    } else {
        seq![
            depth,
            Emission {
                metric: POOL_QUEUE_FULL_TOTAL,
                labels: Labels::Bare,
                update: Update::Increment(1),
            },
        ]
    }
}

/// What came of a task given to the pool.
#[derive(Debug)]
pub struct Dispatch {
    pub result: Result<(), PoolError>,
    pub emissions: Vec<Emission>,
}

/// Whether a task was taken.
pub open spec fn verdict(sent: Result<(), WorkerTask>) -> Result<(), PoolError> {
    if sent is Ok {
        Ok(())
    } else {
        Err(PoolError::QueueFull)
    }
}

/// What comes of a task that found `depth` others waiting, and was taken or handed
/// back. Why it was handed back makes no difference.
pub fn judge_dispatch(depth: usize, sent: Result<(), WorkerTask>) -> (dispatch: Dispatch)
    ensures
        dispatch.result == verdict(sent),
        dispatch.emissions@ == dispatch_emissions(depth, sent is Ok),
{
    let mut emissions: Vec<Emission> = Vec::new();
    emissions.push(
        Emission {
            metric: POOL_QUEUE_DEPTH,
            labels: Labels::Bare,
            update: Update::Assign(depth as u128),
        },
    );
    let result = match sent {
        Ok(()) => Ok(()),
        Err(_) => {
            emissions.push(
                Emission {
                    metric: POOL_QUEUE_FULL_TOTAL,
                    labels: Labels::Bare,
                    update: Update::Increment(1),
                },
            );
            Err(PoolError::QueueFull)
        },
    };
    Dispatch { result, emissions }
}

/// The workers, seen from the side that has tasks for them.
#[derive(Debug)]
pub struct MevWorkerPool {
    pub task_tx: Sender<WorkerTask>,
    pub num_workers: usize,
}

impl MevWorkerPool {
    /// How many tasks can wait, if there is a limit.
    pub open spec fn capacity(self) -> Option<usize> {
        sender_capacity(self.task_tx)
    }

    /// The channel that tasks are put into.
    pub open spec fn channel(self) -> int {
        sender_channel(self.task_tx)
    }

    /// The tasks that the pool has taken, in this order.
    pub open spec fn taken(self) -> Seq<WorkerTask> {
        sent_tasks(self.task_tx)
    }

    /// The tasks that were offered to the workers, in this order, taken or not.
    pub open spec fn offered(self) -> Seq<WorkerTask> {
        offered_tasks(self.task_tx)
    }

    /// Whether `self` is `before` after it was given `task`, and did or did not take it.
    pub open spec fn after(self, before: Self, task: WorkerTask, took: bool) -> bool {
        &&& self.num_workers == before.num_workers
        &&& self.capacity() == before.capacity()
        &&& self.channel() == before.channel()
        &&& self.offered() == before.offered().push(task)
        &&& self.taken() == if took {
            before.taken().push(task)
        } else {
            before.taken()
        }
    }

    /// Whether this is a pool of `num_workers` workers that has not been given a task, and
    /// `tasks` the end of its queue.
    pub open spec fn is_new(self, tasks: Receiver<WorkerTask>, num_workers: usize) -> bool {
        &&& self.num_workers == num_workers
        &&& self.capacity() == Some(TASK_QUEUE_CAPACITY)
        &&& self.taken() =~= Seq::<WorkerTask>::empty()
        &&& self.offered() =~= Seq::<WorkerTask>::empty()
        &&& receiver_capacity(tasks) == Some(TASK_QUEUE_CAPACITY)
        &&& receiver_channel(tasks) == self.channel()
    }

    /// A pool of `num_workers` workers, and the end of the queue that each of them
    /// takes its tasks from.
    pub fn new(num_workers: usize) -> (pool: (Self, Receiver<WorkerTask>))
        ensures
            pool.0.is_new(pool.1, num_workers),
    {
        let (task_tx, task_rx) = queue::open_queue(TASK_QUEUE_CAPACITY);
        (MevWorkerPool { task_tx, num_workers }, task_rx)
    }

    /// Gives `task` to the workers. It does not wait: where the queue is full, or no
    /// worker is left, the task is turned away. Which of these comes is up to the
    /// workers.
    pub fn dispatch(&mut self, task: WorkerTask) -> (dispatch: Dispatch)
        ensures
            final(self).after(*old(self), task, dispatch.result is Ok),
            exists|depth: usize|
                {
                    &&& old(self).capacity() matches Some(capacity) ==> depth <= capacity
                    &&& dispatch.emissions@ == #[trigger] dispatch_emissions(
                        depth,
                        dispatch.result is Ok,
                    )
                },
    {
        let depth: usize = queue::queue_depth(&self.task_tx);
        let dispatch = judge_dispatch(depth, queue::try_send(&mut self.task_tx, task));
        assert(dispatch.emissions@ == dispatch_emissions(depth, dispatch.result is Ok));
        dispatch
    }
}

/// A task that was sent is taken, and one that was handed back is turned away, for whatever
/// reason. The depth of the queue is reported in either case, and a task that is turned away
/// is counted once.
pub proof fn tasks_are_taken_or_turned_away(depth: usize, task: WorkerTask)
    ensures
        verdict(Ok(())) is Ok,
        verdict(Err(task)) == Err::<(), PoolError>(PoolError::QueueFull),
        ({
            let waiting = Emission {
                metric: "mev_pool_queue_depth",
                labels: Labels::Bare,
                update: Update::Assign(depth as u128),
            };
            let full = Emission {
                metric: "mev_pool_queue_full_total",
                labels: Labels::Bare,
                update: Update::Increment(1),
            };
            &&& dispatch_emissions(depth, true) =~= seq![waiting]
            &&& dispatch_emissions(depth, false) =~= seq![waiting, full]
        }),
{
}

/// The tasks that a pool has taken come in the order in which they were given to it, none is
/// lost and none is there twice; one that was turned away has been offered and not taken.
pub proof fn tasks_are_taken_in_order(
    before: MevWorkerPool,
    between: MevWorkerPool,
    after: MevWorkerPool,
    first: WorkerTask,
    second: WorkerTask,
    took: bool,
)
    requires
        between.after(before, first, true),
        after.after(between, second, took),
    ensures
        after.offered() == before.offered().push(first).push(second),
        took ==> after.taken() == before.taken().push(first).push(second),
        !took ==> after.taken() == before.taken().push(first),
        after.num_workers == before.num_workers,
        after.capacity() == before.capacity(),
        after.channel() == before.channel(),
{
}

/// However many workers there are, 65536 tasks can wait for them, and they take them from the
/// queue that the pool puts them into.
pub proof fn new_pools_hold_nothing_yet(
    pool: MevWorkerPool,
    tasks: Receiver<WorkerTask>,
    num_workers: usize,
)
    requires
        pool.is_new(tasks, num_workers),
    ensures
        pool.num_workers == num_workers,
        pool.capacity() == Some(65536usize),
        receiver_capacity(tasks) == Some(65536usize),
        receiver_channel(tasks) == pool.channel(),
        pool.taken().len() == 0,
        pool.offered().len() == 0,
{
}

proof fn prefix_and_rest(prefix: Seq<char>, rest: Seq<char>)
    ensures
        (prefix + rest).take(prefix.len() as int) == prefix,
        (prefix + rest).skip(prefix.len() as int) == rest,
{
    assert((prefix + rest).take(prefix.len() as int) =~= prefix);
    assert((prefix + rest).skip(prefix.len() as int) =~= rest);
}

/// Whether `text` is `prefix` and then `rest`, to the end.
pub open spec fn consists_of(text: Seq<char>, prefix: Seq<char>, rest: Seq<char>) -> bool {
    &&& text.len() == prefix.len() + rest.len()
    &&& text.take(prefix.len() as int) == prefix
    &&& text.skip(prefix.len() as int) == rest
}

/// An error is shown by what kind it is, and then with all of its message; a machine that
/// halted with the reason, and with the gas in decimal digits that are read back.
pub proof fn errors_show_their_messages(
    message: String,
    error: ProviderError,
    gas_used: u64,
    data: Vec<u8>,
)
    ensures
        WorkerError::Revert(data).text() == "evm execution reverted"@,
        consists_of(WorkerError::Evm(message).text(), "evm error: "@, message@),
        consists_of(WorkerError::Inspect(message).text(), "debug inspector error: "@, message@),
        consists_of(WorkerError::Tracing(message).text(), "parity tracing error: "@, message@),
        consists_of(
            WorkerError::Provider(error).text(),
            "state provider error: "@,
            error.message@,
        ),
        consists_of(WorkerError::Internal(message).text(), "internal: "@, message@),
        exists|digits: Seq<char>| #[trigger]
            u64_in(digits) == Some(gas_used) && consists_of(
                WorkerError::Halt { reason: message, gas_used }.text(),
                "evm halted: "@,
                message@ + ", gas_used="@ + digits,
            ),
{
    prefix_and_rest("evm error: "@, message@);
    prefix_and_rest("debug inspector error: "@, message@);
    prefix_and_rest("parity tracing error: "@, message@);
    prefix_and_rest("state provider error: "@, error.message@);
    prefix_and_rest("internal: "@, message@);
    let digits = decimal_text(gas_used as nat);
    decimals_are_read_back(gas_used);
    let rest = message@ + ", gas_used="@ + digits;
    prefix_and_rest("evm halted: "@, rest);
    assert(WorkerError::Halt { reason: message, gas_used }.text() =~= "evm halted: "@ + rest);
    assert(u64_in(digits) == Some(gas_used));
}

} // verus!
