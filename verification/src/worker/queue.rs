//! The bounded queue between requests and workers, on a `crossbeam-channel`.
//!
//! The workers take tasks out at the other end whenever they like. So nothing is said
//! here of what the queue holds at some moment, only of what was put into it, and of
//! what it is made with. Tasks are put in by `&mut`, so nobody else puts one in through
//! the same sender meanwhile.

use vstd::prelude::*;
use crossbeam_channel::{Receiver, Sender};
use super::WorkerTask;

verus! {

/// The sending end of a channel of the `crossbeam-channel` crate.
#[verifier::external_type_specification]
#[verifier::external_body]
#[verifier::reject_recursive_types(T)]
pub struct ExSender<T>(Sender<T>);

/// The receiving end of a channel of the `crossbeam-channel` crate.
#[verifier::external_type_specification]
#[verifier::external_body]
#[verifier::reject_recursive_types(T)]
pub struct ExReceiver<T>(Receiver<T>);

/// How many tasks the channel behind `sender` was made for, if there is a limit.
pub uninterp spec fn sender_capacity(sender: Sender<WorkerTask>) -> Option<usize>;

/// How many tasks the channel behind `receiver` was made for, if there is a limit.
pub uninterp spec fn receiver_capacity(receiver: Receiver<WorkerTask>) -> Option<usize>;

/// Which channel `sender` puts tasks into.
pub uninterp spec fn sender_channel(sender: Sender<WorkerTask>) -> int;

/// Which channel `receiver` takes tasks out of.
pub uninterp spec fn receiver_channel(receiver: Receiver<WorkerTask>) -> int;

/// The tasks that were put into the channel through `sender`, in this order.
pub uninterp spec fn sent_tasks(sender: Sender<WorkerTask>) -> Seq<WorkerTask>;

/// The tasks that `try_send` was given for `sender`, in this order, whether they were
/// put into the channel or handed back.
pub uninterp spec fn offered_tasks(sender: Sender<WorkerTask>) -> Seq<WorkerTask>;

/// `crossbeam_channel::bounded`: both ends of one channel for `capacity` tasks, into
/// which none has been put or offered. It panics where there is no memory for that many;
/// a number of up to 65536 is asked for here.
#[verifier::external_body]
pub(crate) fn open_queue(capacity: usize) -> (ends: (Sender<WorkerTask>, Receiver<WorkerTask>))
    requires
        0 < capacity <= 65536,
    ensures
        sender_capacity(ends.0) == Some(capacity),
        receiver_capacity(ends.1) == Some(capacity),
        receiver_channel(ends.1) == sender_channel(ends.0),
        sent_tasks(ends.0).len() == 0,
        offered_tasks(ends.0).len() == 0,
{
    crossbeam_channel::bounded(capacity)
}

/// `Sender::try_send`: puts `task` into the channel, or hands it back at once where
/// the channel is full or nobody is left to receive. Which of these comes is up to
/// the other threads.
#[verifier::external_body]
pub(crate) fn try_send(sender: &mut Sender<WorkerTask>, task: WorkerTask) -> (sent: Result<
    (),
    WorkerTask,
>)
    ensures
        sender_capacity(*final(sender)) == sender_capacity(*old(sender)),
        sender_channel(*final(sender)) == sender_channel(*old(sender)),
        offered_tasks(*final(sender)) == offered_tasks(*old(sender)).push(task),
        match sent {
            Ok(()) => sent_tasks(*final(sender)) == sent_tasks(*old(sender)).push(task),
            Err(back) => back == task && sent_tasks(*final(sender)) == sent_tasks(*old(sender)),
        },
{
    sender.try_send(task).map_err(|error| error.into_inner())
}

/// `Sender::len`: how many tasks wait at some moment, never more than a channel
/// with a limit was made for.
#[verifier::external_body]
pub(crate) fn queue_depth(sender: &Sender<WorkerTask>) -> (depth: usize)
    ensures
        sender_capacity(*sender) matches Some(capacity) ==> depth <= capacity,
{
    sender.len()
}

} // verus!
