//! Tasks: a suspended computation in a slot, and the way back onto the run
//! queue.
//!
//! A task is shared by the run queue, by the executor while it resumes the
//! task, and by every waker handed to the computation. Its slot holds the
//! computation while nobody runs it. A resumption takes the computation out,
//! runs it until it reports, and puts it back only if it reported `Pending`.
//! A wake sends one more reference to the task down the run queue, so a task
//! may be queued while its slot is empty: such a turn is skipped.

use crate::std_specs::{guarded, lock, share};
use futures::future::{BoxFuture, FutureExt};
use futures::task::{waker_ref, ArcWake, WakerRef};
use std::future::Future;
use std::sync::mpsc::{sync_channel, Receiver, SendError, SyncSender};
use std::sync::{Arc, Mutex, MutexGuard};
use std::task::{Context, Poll, Waker};
use vstd::prelude::*;

verus! {

/// `futures::task::WakerRef`: a waker borrowed from a task, which does not
/// count as a reference to it.
#[verifier::external_type_specification]
#[verifier::external_body]
pub struct ExWakerRef<'a>(WakerRef<'a>);

/// The two conditions that nothing in the scheduler recovers from.
#[derive(Clone, Copy, Debug, PartialEq, Eq, Structural)]
pub enum FatalError {
    /// The executor is gone: nobody will ever take a task from the run queue.
    QueueDisconnected,
    /// A resumption panicked while it held the slot of the task.
    SlotPoisoned,
}

/// What one turn at a task did.
#[derive(Clone, Copy, Debug, PartialEq, Eq, Structural)]
pub enum Resumption {
    /// The slot was empty: the computation had completed before, and the wake
    /// that queued the task was stale. Nothing was run.
    Skipped,
    /// The computation ran and reported `Ready`. It is gone for good.
    Completed,
    /// The computation ran and reported `Pending`. It is back in its slot.
    Suspended,
}

impl Resumption {
    /// Whether a turn at a slot can come out like this, given whether the slot
    /// was `occupied`: it is skipped exactly when there is nothing to run.
    pub open spec fn admitted(self, occupied: bool) -> bool {
        self == Resumption::Skipped <==> !occupied
    }

    /// Whether the slot holds a computation after such a turn.
    pub open spec fn leaves_occupied(self) -> bool {
        self == Resumption::Suspended
    }
}

/// A suspended computation without output, of whatever type it was spawned
/// with. It holds a `futures::future::BoxFuture`, a trait object that Verus
/// cannot read, so the whole struct is opaque to it.
#[verifier::external_body]
pub struct Computation {
    future: BoxFuture<'static, ()>,
}

impl Computation {
    /// `FutureExt::boxed` moves the future to the heap and pins it there.
    /// Nothing is claimed of the result.
    #[verifier::external_body]
    pub(crate) fn new<F>(future: F) -> (computation: Computation) where
        F: Future<Output = ()> + Send + 'static,
     {
        Computation { future: future.boxed() }
    }

    /// `Future::poll` resumes the computation where it last suspended. What it
    /// reports, and what it did with the waker in `cx`, is its own affair:
    /// nothing is claimed. It must not be called again after `Ready`.
    #[verifier::external_body]
    pub(crate) fn poll(&mut self, cx: &mut Context<'_>) -> (outcome: Poll<()>) {
        self.future.as_mut().poll(cx)
    }
}

/// The producing end of the run queue. It holds a
/// `std::sync::mpsc::SyncSender` of tasks. A task holds one in turn, and Verus
/// takes no type that contains itself in this way, so the struct is opaque to
/// it.
#[verifier::external_body]
pub struct TaskSender {
    sender: SyncSender<Arc<Task>>,
}

/// The number of tasks that the run queue behind `sender` holds before a
/// sender has to wait.
pub uninterp spec fn queue_capacity(sender: TaskSender) -> nat;

impl TaskSender {
    /// `SyncSender::send` appends the task to the run queue and blocks while
    /// the queue is full. It fails only when the receiver is gone, and then
    /// gives the task back, here without the `SendError` round it.
    #[verifier::external_body]
    pub(crate) fn send(&self, task: Arc<Task>) -> (sent: Result<(), Arc<Task>>) {
        match self.sender.send(task) {
            Ok(()) => Ok(()),
            Err(SendError(task)) => Err(task),
        }
    }

    /// What a submission comes to, given what the queue said of it: a task
    /// that was taken is queued, a task that came back has no executor to go
    /// to and is dropped.
    pub fn report(sent: Result<(), Arc<Task>>) -> (outcome: Result<(), FatalError>)
        ensures
            sent is Ok ==> outcome == Ok::<(), FatalError>(()),
            sent is Err ==> outcome == Err::<(), FatalError>(FatalError::QueueDisconnected),
    {
        match sent {
            Ok(()) => Ok(()),
            Err(_) => Err(FatalError::QueueDisconnected),
        }
    }

    /// Queues `task`, waiting while the queue is full.
    ///
    /// Fails with `QueueDisconnected` if the executor is gone; the reference
    /// to the task is then dropped. Whether the executor is gone is for the
    /// queue to say: the outcome is [`TaskSender::report`] of its answer.
    pub fn submit(&self, task: Arc<Task>) -> (outcome: Result<(), FatalError>)
        ensures
            outcome matches Err(error) ==> error == FatalError::QueueDisconnected,
    {
        TaskSender::report(self.send(task))
    }

    /// `SyncSender::clone`: one more sender into the same queue.
    #[verifier::external_body]
    pub(crate) fn duplicate(&self) -> (other: TaskSender)
        ensures
            queue_capacity(other) == queue_capacity(*self),
    {
        TaskSender { sender: self.sender.clone() }
    }
}

/// `std::sync::mpsc::sync_channel` makes a queue that holds `capacity` tasks
/// and hands out its two ends.
#[verifier::external_body]
pub(crate) fn bounded_queue(capacity: usize) -> (ends: (TaskSender, Receiver<Arc<Task>>))
    ensures
        queue_capacity(ends.0) == capacity,
{
    let (sender, receiver) = sync_channel(capacity);
    (TaskSender { sender }, receiver)
}

/// A computation together with the means to queue itself again.
pub struct Task {
    /// The slot: the computation while it is suspended, nothing while it runs
    /// and after it has completed.
    future: Mutex<Option<Computation>>,
    /// The run queue to go back to when woken.
    task_sender: TaskSender,
}

/// `futures::task::waker_ref` makes the waker of a task: waking it calls
/// [`ArcWake::wake_by_ref`] on the task. Nothing is claimed of it.
#[verifier::external_body]
fn task_waker<'a>(task: &'a Arc<Task>) -> (waker: WakerRef<'a>) {
    waker_ref(task)
}

/// `WakerRef::deref` lends the waker inside. Nothing is claimed of it.
#[verifier::external_body]
fn as_waker<'a, 'b>(waker: &'a WakerRef<'b>) -> (plain: &'a Waker) {
    &**waker
}

/// What becomes of a computation that has just reported `outcome`: what goes
/// back into the slot, and what the turn amounted to. After `Ready` the
/// computation is dropped, after `Pending` it is kept as it is.
pub fn settle<C>(computation: C, outcome: Poll<()>) -> (settled: (Option<C>, Resumption))
    ensures
        outcome is Ready ==> settled == (None::<C>, Resumption::Completed),
        outcome is Pending ==> settled == (Some(computation), Resumption::Suspended),
{
    match outcome {
        Poll::Ready(()) => (None, Resumption::Completed),
        Poll::Pending => (Some(computation), Resumption::Suspended),
    }
}

impl Task {
    /// The end of the run queue that the task goes back to when woken.
    pub closed spec fn sender(self) -> TaskSender {
        self.task_sender
    }

    /// A task that has not run yet: `computation` waits in the slot, and
    /// `task_sender` is the way back onto the run queue.
    pub(crate) fn new(computation: Computation, task_sender: TaskSender) -> (task: Task)
        ensures
            task.sender() == task_sender,
    {
        Task { future: Mutex::new(Some(computation)), task_sender }
    }

    /// One turn at the slot of `task`, with the slot in hand. An empty slot is
    /// left alone. Otherwise the computation is taken out, resumed once with
    /// the waker of `task`, and settled by what it reported.
    ///
    /// What the computation reports is not for the scheduler to know, so the
    /// contract holds whichever way it goes.
    pub fn resume_slot(slot: &mut Option<Computation>, task: &Arc<Task>) -> (resumption: Resumption)
        ensures
            resumption.admitted(*old(slot) is Some),
            *final(slot) is Some <==> resumption.leaves_occupied(),
    {
        match slot.take() {
            None => Resumption::Skipped,
            Some(mut computation) => {
                let waker = task_waker(task);
                let mut cx = Context::from_waker(as_waker(&waker));
                let outcome = computation.poll(&mut cx);
                let (settled, resumption) = settle(computation, outcome);
                *slot = settled;
                resumption
            },
        }
    }

    /// One turn at `task` with the lock of its slot taken, as `locked` holds
    /// it: behind a sound lock the slot gets its [`Task::resume_slot`], behind
    /// a poisoned one it is not touched and the turn fails with
    /// `SlotPoisoned`. The lock is given up on return.
    pub fn resume_locked<'a>(
        locked: Result<MutexGuard<'a, Option<Computation>>, MutexGuard<'a, Option<Computation>>>,
        task: &Arc<Task>,
    ) -> (outcome: Result<Resumption, FatalError>)
        ensures
            locked is Ok ==> outcome is Ok,
            locked is Err ==> outcome == Err::<Resumption, FatalError>(FatalError::SlotPoisoned),
    {
        match locked {
            Ok(mut guard) => Ok(Task::resume_slot(guarded(&mut guard), task)),
            Err(_) => Err(FatalError::SlotPoisoned),
        }
    }

    /// One turn at `task`: locks its slot for the whole of
    /// [`Task::resume_slot`], so that no two resumptions of one computation
    /// overlap.
    ///
    /// Fails with `SlotPoisoned`, and touches nothing, if an earlier
    /// resumption panicked inside the lock. Whether one did, and what the slot
    /// holds, is for the lock to say: the outcome is [`Task::resume_locked`]
    /// of what the lock handed out.
    pub fn resume(task: &Arc<Task>) -> (outcome: Result<Resumption, FatalError>)
        ensures
            outcome matches Err(error) ==> error == FatalError::SlotPoisoned,
    {
        Task::resume_locked(lock(&task.future), task)
    }

    /// Sends one more reference to `task` down its run queue, waiting while
    /// the queue is full.
    ///
    /// Fails with `QueueDisconnected` if the executor is gone.
    pub fn requeue(task: &Arc<Task>) -> (outcome: Result<(), FatalError>)
        ensures
            outcome matches Err(error) ==> error == FatalError::QueueDisconnected,
    {
        task.task_sender.submit(share(task))
    }
}

impl ArcWake for Task {
    /// A wake is [`Task::requeue`]. A waker has nobody to report to: where the
    /// executor is gone the wake is dropped, and the task with it.
    fn wake_by_ref(arc_self: &Arc<Self>) {
        let _ = Task::requeue(arc_self);
    }
}

/// Whether the slot of a task holds a computation before turn `i` of `trace`,
/// where it was `occupied` before the first.
pub open spec fn occupied_before(occupied: bool, trace: Seq<Resumption>, i: int) -> bool {
    if i <= 0 {
        occupied
    } else {
        trace[i - 1].leaves_occupied()
    }
}

/// `trace` is what the successive turns at one task can amount to, as
/// [`Task::resume_slot`] relates each to the slot before and after it.
pub open spec fn slot_trace(occupied: bool, trace: Seq<Resumption>) -> bool {
    forall|i: int|
        0 <= i < trace.len() ==> (#[trigger] trace[i]).admitted(
            occupied_before(occupied, trace, i),
        )
}

/// A computation that reports `Ready` at its first resumption is run that
/// once: every later turn at its task, however it came to be queued, is
/// skipped.
pub proof fn lemma_completed_runs_once(trace: Seq<Resumption>, n: int)
    requires
        slot_trace(true, trace),
        trace.len() > 0,
        trace[0] == Resumption::Completed,
        1 <= n < trace.len(),
    ensures
        trace[n] == Resumption::Skipped,
    decreases n,
{
    if n > 1 {
        lemma_completed_runs_once(trace, n - 1);
    }
    assert(trace[n].admitted(occupied_before(true, trace, n)));
}

/// Stale wakes do no harm. Of two turns in a row at one task, the second
/// finds the computation again if the first suspended it, so nothing is lost;
/// and it is skipped if the first completed the computation or was skipped
/// itself.
pub proof fn lemma_stale_wake(occupied: bool, trace: Seq<Resumption>, n: int)
    requires
        slot_trace(occupied, trace),
        0 <= n,
        n + 1 < trace.len(),
    ensures
        trace[n] == Resumption::Suspended ==> trace[n + 1] != Resumption::Skipped,
        trace[n] != Resumption::Suspended ==> trace[n + 1] == Resumption::Skipped,
{
    assert(trace[n + 1].admitted(occupied_before(occupied, trace, n + 1)));
}

/// A task whose slot is empty stays so: every turn at it is skipped.
pub proof fn lemma_empty_slot_is_skipped(trace: Seq<Resumption>, n: int)
    requires
        slot_trace(false, trace),
        0 <= n < trace.len(),
    ensures
        trace[n] == Resumption::Skipped,
    decreases n,
{
    if n > 0 {
        lemma_empty_slot_is_skipped(trace, n - 1);
    }
    assert(trace[n].admitted(occupied_before(false, trace, n)));
}

} // verus!
