//! The task queue: a channel without bound, with any number of senders and
//! of receivers, that hands each task to one receiver.

use crate::task::Task;
use vstd::prelude::*;

verus! {

/// The sending half of an `async_channel` channel, carried through unread.
#[verifier::external_type_specification]
#[verifier::external_body]
#[verifier::reject_recursive_types(T)]
pub struct ExQueueSender<T>(async_channel::Sender<T>);

/// The receiving half of an `async_channel` channel, carried through unread.
#[verifier::external_type_specification]
#[verifier::external_body]
#[verifier::reject_recursive_types(T)]
pub struct ExQueueReceiver<T>(async_channel::Receiver<T>);

/// The channel that a sending half belongs to, as a number that tells one
/// channel from another. Two halves belong to one channel where
/// async_channel's `same_channel` says so.
pub uninterp spec fn queue_of_sender(sender: async_channel::Sender<Task>) -> int;

/// The channel that a receiving half belongs to.
pub uninterp spec fn queue_of_receiver(receiver: async_channel::Receiver<Task>) -> int;

/// One more sending half, by the `clone` of `async_channel::Sender`.
///
/// Trusted: the new half belongs to the channel of the old one.
#[verifier::external_body]
fn another_sender(sender: &async_channel::Sender<Task>) -> (another: async_channel::Sender<Task>)
    ensures
        queue_of_sender(another) == queue_of_sender(*sender),
{
    sender.clone()
}

/// One more receiving half, by the `clone` of `async_channel::Receiver`.
///
/// Trusted: the new half belongs to the channel of the old one.
#[verifier::external_body]
fn another_receiver(receiver: &async_channel::Receiver<Task>) -> (another: async_channel::Receiver<
    Task,
>)
    ensures
        queue_of_receiver(another) == queue_of_receiver(*receiver),
{
    receiver.clone()
}

/// Opens a queue with `async_channel::unbounded`.
///
/// Trusted: the two halves belong to one channel. Nothing is claimed of
/// what it holds.
#[verifier::external_body]
fn open_unbounded() -> (halves: (async_channel::Sender<Task>, async_channel::Receiver<Task>))
    ensures
        queue_of_receiver(halves.1) == queue_of_sender(halves.0),
{
    async_channel::unbounded()
}

/// Puts `task` on the queue with `async_channel::Sender::try_send` and says
/// whether the queue took it.
///
/// Trusted: nothing is claimed of the answer. The call does not wait; a
/// queue without bound is never full, so it refuses only once it is closed.
#[verifier::external_body]
fn try_send(sender: &async_channel::Sender<Task>, task: Task) -> (taken: bool) {
    sender.try_send(task).is_ok()
}

/// The sending end of the task queue.
pub(crate) struct TaskOutbox {
    sender: async_channel::Sender<Task>,
}

/// The receiving end of the task queue, as one worker holds it.
pub struct TaskInbox {
    receiver: async_channel::Receiver<Task>,
}

impl Clone for TaskOutbox {
    /// One more sending end of the same queue.
    fn clone(&self) -> (copy: TaskOutbox)
        ensures
            copy.queue() == self.queue(),
    {
        TaskOutbox { sender: another_sender(&self.sender) }
    }
}

impl Clone for TaskInbox {
    /// One more receiving end of the same queue.
    fn clone(&self) -> (copy: TaskInbox)
        ensures
            copy.queue() == self.queue(),
    {
        TaskInbox { receiver: another_receiver(&self.receiver) }
    }
}

/// A new queue, empty and open: its sending end and its receiving end. The
/// queue closes once every receiving end, or every sending end, is gone.
pub(crate) fn task_queue() -> (ends: (TaskOutbox, TaskInbox))
    ensures
        ends.1.queue() == ends.0.queue(),
{
    let (sender, receiver) = open_unbounded();
    (TaskOutbox { sender }, TaskInbox { receiver })
}

impl TaskOutbox {
    /// The queue this end puts tasks on.
    pub closed spec fn queue(&self) -> int {
        queue_of_sender(self.sender)
    }

    /// Puts `task` on the queue, without waiting, and says whether the queue
    /// took it. It does not once it is closed.
    pub(crate) fn put(&self, task: Task) -> (taken: bool) {
        try_send(&self.sender, task)
    }
}

impl TaskInbox {
    /// The queue this end takes tasks from. Ends with the same queue are
    /// ends of one queue.
    pub closed spec fn queue(&self) -> int {
        queue_of_receiver(self.receiver)
    }

    /// The receiving half of this end's queue, to wait on for the next
    /// task.
    pub fn receiver(&self) -> (receiver: &async_channel::Receiver<Task>)
        ensures
            queue_of_receiver(*receiver) == self.queue(),
    {
        &self.receiver
    }
}

} // verus!
