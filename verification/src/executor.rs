//! The executor and its spawner: the two ends of the run queue.
//!
//! The spawner wraps a future in a task and queues it. The executor takes
//! tasks from the queue, oldest first, and gives each one turn. A task that
//! suspends is not queued again by the executor: its waker does that, when
//! whatever the computation waits for has happened.

use crate::std_specs::receive;
use crate::task::{
    bounded_queue, queue_capacity, Computation, FatalError, Resumption, Task, TaskSender,
};
use std::future::Future;
use std::sync::mpsc::Receiver;
use std::sync::Arc;
use vstd::prelude::*;

verus! {

/// The number of tasks that a run queue holds before a sender has to wait.
pub const MAX_QUEUED_TASKS: usize = 10_000;

/// What one turn of the executor did.
#[derive(Clone, Copy, Debug, PartialEq, Eq, Structural)]
pub enum Turn {
    /// The queue is empty and every spawner and waker is gone: no task will
    /// ever arrive.
    Closed,
    /// A task was taken from the queue and given its turn.
    Resumed(Resumption),
}

/// How a bounded run ended.
#[derive(Clone, Copy, Debug, PartialEq, Eq, Structural)]
pub struct Run {
    /// The number of tasks taken from the queue.
    pub turns: usize,
    /// Whether the run ended because the queue was closed.
    pub closed: bool,
}

/// The consumer of the run queue.
pub struct Executor {
    ready_queue: Receiver<Arc<Task>>,
}

/// A producer of the run queue. Its clones feed the same queue.
pub struct Spawner {
    task_sender: TaskSender,
}

impl Executor {
    /// What a turn does with what the queue handed out: nothing more to come
    /// closes the run, a task is resumed once.
    pub fn serve(received: Option<Arc<Task>>) -> (turn: Result<Turn, FatalError>)
        ensures
            received is None <==> turn == Ok::<Turn, FatalError>(Turn::Closed),
            turn matches Err(error) ==> error == FatalError::SlotPoisoned,
    {
        match received {
            None => Ok(Turn::Closed),
            Some(task) => match Task::resume(&task) {
                Ok(resumption) => Ok(Turn::Resumed(resumption)),
                Err(error) => Err(error),
            },
        }
    }

    /// One turn: waits for the next task in the queue and serves it.
    ///
    /// The wait ends when a task arrives or when the last spawner and waker
    /// are dropped; it does not end while one of them lives and the queue is
    /// empty.
    pub fn turn(&self) -> (turn: Result<Turn, FatalError>)
        ensures
            turn matches Err(error) ==> error == FatalError::SlotPoisoned,
    {
        Executor::serve(receive(&self.ready_queue))
    }

    /// How a run goes on after a turn, `turns` being the tasks taken before it.
    /// A closed queue ends the run with that count, a poisoned slot ends it
    /// with the error, and a task that was given its turn counts as one more.
    /// The second part of the result is the outcome of the run where it ends
    /// here.
    pub fn after_turn(turns: usize, turn: Result<Turn, FatalError>) -> (next: (
        usize,
        Option<Result<Run, FatalError>>,
    ))
        requires
            turns < usize::MAX,
        ensures
            turn == Ok::<Turn, FatalError>(Turn::Closed) ==> next == (
                turns,
                Some(Ok::<Run, FatalError>((Run { turns, closed: true }))),
            ),
            turn matches Ok(Turn::Resumed(_)) ==> next == (
                (turns + 1) as usize,
                None::<Result<Run, FatalError>>,
            ),
            turn matches Err(error) ==> next == (turns, Some(Err::<Run, FatalError>(error))),
    {
        match turn {
            Ok(Turn::Closed) => (turns, Some(Ok(Run { turns, closed: true }))),
            Ok(Turn::Resumed(_)) => (turns + 1, None),
            Err(error) => (turns, Some(Err(error))),
        }
    }

    /// Takes turns until the queue is closed, a task's slot is found
    /// poisoned, or `max_turns` tasks have been taken: a run needs a bound to
    /// be shown to end. To drain the queue whatever it takes, run again until
    /// the report says `closed`.
    ///
    /// A run of no turns asks nothing of the queue. Past that, what each turn
    /// brings is for the queue and the tasks to say, and the run goes on as
    /// [`Executor::after_turn`] has it.
    pub fn run(&self, max_turns: usize) -> (outcome: Result<Run, FatalError>)
        ensures
            max_turns == 0 ==> outcome == Ok::<Run, FatalError>((Run { turns: 0, closed: false })),
            outcome matches Ok(run) ==> run.turns <= max_turns && (run.closed <==> run.turns
                < max_turns),
            outcome matches Err(error) ==> error == FatalError::SlotPoisoned,
    {
        let mut turns: usize = 0;
        while turns < max_turns
            invariant
                turns <= max_turns,
            decreases max_turns - turns,
        {
            let (next, ended) = Executor::after_turn(turns, self.turn());
            match ended {
                Some(outcome) => {
                    return outcome;
                },
                None => {
                    turns = next;
                },
            }
        }
        Ok(Run { turns, closed: false })
    }
}

impl Spawner {
    /// The number of tasks that the queue of this spawner holds before
    /// [`Spawner::spawn`] has to wait.
    pub closed spec fn capacity(self) -> nat {
        queue_capacity(self.task_sender)
    }

    /// Wraps `future` in a new task, with the computation in its slot, and
    /// queues the task for its first turn. Waits while the queue is full.
    ///
    /// Fails with `QueueDisconnected` if the executor is gone; the future is
    /// then dropped.
    pub fn spawn(&self, future: impl Future<Output = ()> + 'static + Send) -> (outcome: Result<
        (),
        FatalError,
    >)
        ensures
            outcome matches Err(error) ==> error == FatalError::QueueDisconnected,
    {
        let task = Arc::new(Task::new(Computation::new(future), self.task_sender.duplicate()));
        self.task_sender.submit(task)
    }
}

impl Clone for Spawner {
    /// One more spawner on the same run queue.
    fn clone(&self) -> (other: Spawner)
        ensures
            other.capacity() == self.capacity(),
    {
        Spawner { task_sender: self.task_sender.duplicate() }
    }
}

/// An executor and a spawner on the two ends of one new run queue of
/// [`MAX_QUEUED_TASKS`] places.
pub fn new_executor_and_spawner() -> (pair: (Executor, Spawner))
    ensures
        pair.1.capacity() == MAX_QUEUED_TASKS,
{
    let (task_sender, ready_queue) = bounded_queue(MAX_QUEUED_TASKS);
    (Executor { ready_queue }, Spawner { task_sender })
}

} // verus!
