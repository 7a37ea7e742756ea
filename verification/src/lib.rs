//! A single-threaded executor for suspendable computations, the spawner that
//! feeds it, and a timer future that shows how a computation suspends and is
//! woken from outside.
//!
//! - [`executor`]: the two ends of the run queue and the turns of the executor.
//! - [`task`]: the slot that holds a suspended computation, and its waker.
//! - [`timer_future`]: the state that a timer shares with the future that waits
//!   for it.
//! - [`std_specs`]: what is taken on trust from the standard library.
//!
//! The library starts no thread and keeps no clock. Its host takes the turns
//! of the executor on one thread and fires each timer from wherever it keeps
//! time.

pub mod executor;
pub mod std_specs;
pub mod task;
pub mod timer_future;

pub use executor::new_executor_and_spawner;
pub use executor::Executor;
pub use executor::Run;
pub use executor::Spawner;
pub use executor::Turn;
pub use executor::MAX_QUEUED_TASKS;
pub use task::FatalError;
pub use task::Resumption;
pub use task::Task;
pub use timer_future::SharedState;
pub use timer_future::Timer;
pub use timer_future::TimerEvent;
pub use timer_future::TimerFuture;
