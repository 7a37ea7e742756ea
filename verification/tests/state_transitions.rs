use futures::task::{waker, ArcWake};
use std::sync::atomic::{AtomicUsize, Ordering};
use std::sync::Arc;
use std::task::Poll;
use timer_executor::task::settle;
use timer_executor::{Resumption, SharedState};

struct CountingWake {
    wakes: AtomicUsize,
}

impl ArcWake for CountingWake {
    fn wake_by_ref(arc_self: &Arc<Self>) {
        arc_self.wakes.fetch_add(1, Ordering::SeqCst);
    }
}

fn counter() -> Arc<CountingWake> {
    Arc::new(CountingWake { wakes: AtomicUsize::new(0) })
}

#[test]
fn new_state_is_neither_completed_nor_waited_for() {
    let state = SharedState::new();
    assert!(!state.completed);
    assert!(state.waker.is_none());
}

#[test]
fn poll_before_completion_leaves_the_waker() {
    let count = counter();
    let handed = waker(count.clone());
    let mut state = SharedState::new();
    assert_eq!(state.poll(&handed), Poll::Pending);
    assert!(!state.completed);
    assert!(state.waker.as_ref().unwrap().will_wake(&handed));
    assert_eq!(count.wakes.load(Ordering::SeqCst), 0);
}

#[test]
fn later_poll_replaces_the_waker() {
    let first = counter();
    let second = counter();
    let mut state = SharedState::new();
    assert_eq!(state.poll(&waker(first.clone())), Poll::Pending);
    assert_eq!(state.poll(&waker(second.clone())), Poll::Pending);
    let waiting = state.complete().unwrap();
    waiting.wake();
    assert_eq!(first.wakes.load(Ordering::SeqCst), 0);
    assert_eq!(second.wakes.load(Ordering::SeqCst), 1);
}

#[test]
fn complete_hands_out_the_waiting_waker_once() {
    let count = counter();
    let mut state = SharedState::new();
    assert_eq!(state.poll(&waker(count.clone())), Poll::Pending);
    let waiting = state.complete();
    assert!(waiting.is_some());
    assert!(state.completed);
    assert!(state.waker.is_none());
    assert!(state.complete().is_none());
    assert!(state.completed);
    assert_eq!(count.wakes.load(Ordering::SeqCst), 0);
}

#[test]
fn complete_without_a_waiter_hands_out_nothing() {
    let mut state = SharedState::new();
    assert!(state.complete().is_none());
    assert!(state.completed);
    assert!(state.waker.is_none());
}

#[test]
fn completed_state_is_ready_at_every_poll() {
    let count = counter();
    let handed = waker(count.clone());
    let mut state = SharedState::new();
    state.complete();
    for _ in 0..100 {
        assert_eq!(state.poll(&handed), Poll::Ready(()));
        assert!(state.completed);
        assert!(state.waker.is_none());
    }
    assert_eq!(count.wakes.load(Ordering::SeqCst), 0);
}

#[test]
fn completed_state_keeps_a_waker_it_was_built_with() {
    let count = counter();
    let handed = waker(count.clone());
    let mut state = SharedState { completed: true, waker: Some(handed.clone()) };
    assert_eq!(state.poll(&waker(counter())), Poll::Ready(()));
    assert!(state.waker.as_ref().unwrap().will_wake(&handed));
}

#[test]
fn settle_keeps_a_pending_computation() {
    assert_eq!(settle(7u32, Poll::Pending), (Some(7u32), Resumption::Suspended));
}

#[test]
fn settle_drops_a_ready_computation() {
    assert_eq!(settle(7u32, Poll::Ready(())), (None, Resumption::Completed));
}

#[test]
fn fire_wakes_the_waiting_waker() {
    let count = counter();
    let mut state = SharedState::new();
    assert_eq!(state.poll(&waker(count.clone())), Poll::Pending);
    assert!(state.fire());
    assert!(state.completed);
    assert!(state.waker.is_none());
    assert_eq!(count.wakes.load(Ordering::SeqCst), 1);
}

#[test]
fn fire_without_a_waiter_wakes_nobody() {
    let mut state = SharedState::new();
    assert!(!state.fire());
    assert!(state.completed);
    assert!(state.waker.is_none());
}

#[test]
fn second_fire_finds_nobody_to_wake() {
    let count = counter();
    let mut state = SharedState::new();
    assert_eq!(state.poll(&waker(count.clone())), Poll::Pending);
    assert!(state.fire());
    assert!(!state.fire());
    assert!(state.completed);
    assert_eq!(count.wakes.load(Ordering::SeqCst), 1);
}

#[test]
fn task_that_was_taken_is_reported_queued() {
    assert_eq!(timer_executor::task::TaskSender::report(Ok(())), Ok(()));
}
