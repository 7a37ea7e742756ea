//! A future that becomes ready when its timer fires.
//!
//! The future and its timer meet in a [`SharedState`] behind a mutex: the
//! future leaves its waker there while it waits, the timer marks the state
//! completed and wakes whoever waits. The library keeps no clock. A
//! [`TimerFuture`] hands out its [`Timer`], and whoever owns the clock lets the
//! [`Timer::duration`] pass and then calls [`Timer::fire`], from any thread.
//!
//! Both sides change the state only inside the lock, so every run is a
//! sequence of polls and firings on one `SharedState`. The transitions are
//! [`SharedState::poll`] and [`SharedState::fire`], which is
//! [`SharedState::complete`] and the wake; what holds of their sequences is
//! proved at the end of this file.

use crate::std_specs::{guarded, lock, share};
use std::future::Future;
use std::pin::Pin;
use std::sync::{Arc, Mutex};
use std::task::{Context, Poll, Waker};
use std::time::Duration;
use vstd::prelude::*;

verus! {

/// What a timer and the future that waits for it share.
pub struct SharedState {
    /// Whether the timer has fired.
    pub completed: bool,
    /// The waker of the task that waits, left by its latest poll.
    pub waker: Option<Waker>,
}

impl SharedState {
    /// A completed state holds no waker: the firing took it.
    pub open spec fn wf(self) -> bool {
        self.completed ==> self.waker is None
    }

    /// What a poll of this state reports.
    pub open spec fn poll_outcome(self) -> Poll<()> {
        if self.completed {
            Poll::Ready(())
        } else {
            Poll::Pending
        }
    }

    /// `next` is this state after a poll that was handed `waker`: a completed
    /// state stays as it is, a waiting one holds a copy of `waker` in place of
    /// whatever waker it held.
    pub open spec fn polled(self, waker: Waker, next: SharedState) -> bool {
        if self.completed {
            next == self
        } else {
            &&& !next.completed
            &&& next.waker matches Some(stored)
            &&& cloned(waker, stored)
        }
    }

    /// The state that a firing leaves, whatever it found.
    pub open spec fn fired() -> SharedState {
        SharedState { completed: true, waker: None }
    }

    /// The state of a timer that has not fired and that nobody waits for.
    pub fn new() -> (state: SharedState)
        ensures
            !state.completed,
            state.waker is None,
            state.wf(),
    {
        SharedState { completed: false, waker: None }
    }

    /// One resumption of the future: reports `Ready` if the timer has fired,
    /// else leaves a copy of `waker` for the timer and reports `Pending`.
    pub fn poll(&mut self, waker: &Waker) -> (outcome: Poll<()>)
        ensures
            outcome == old(self).poll_outcome(),
            old(self).polled(*waker, *final(self)),
            old(self).wf() ==> final(self).wf(),
    {
        if self.completed {
            Poll::Ready(())
        } else {
            self.waker = Some(waker.clone());
            Poll::Pending
        }
    }

    /// The firing of the timer: marks the state completed and hands out the
    /// waker that was waiting, if any, for the caller to wake.
    pub fn complete(&mut self) -> (waiting: Option<Waker>)
        ensures
            *final(self) == SharedState::fired(),
            waiting == old(self).waker,
            final(self).wf(),
    {
        self.completed = true;
        self.waker.take()
    }

    /// The firing with its wake: completes the state and wakes the waker that
    /// was waiting. Returns whether there was one.
    pub fn fire(&mut self) -> (woke: bool)
        ensures
            *final(self) == SharedState::fired(),
            woke == (old(self).waker is Some),
    {
        match self.complete() {
            Some(waker) => {
                waker.wake();
                true
            },
            None => false,
        }
    }
}

/// A future that is ready once its timer has fired.
pub struct TimerFuture {
    duration: Duration,
    shared_state: Arc<Mutex<SharedState>>,
}

/// The timer of one [`TimerFuture`], to be run by whoever owns the clock.
pub struct Timer {
    duration: Duration,
    shared_state: Arc<Mutex<SharedState>>,
}

/// `Pin::deref` lends the future behind a pinned mutable reference. Nothing is
/// claimed of it.
#[verifier::external_body]
fn unpinned<'a, 'b>(pinned: &'a Pin<&'b mut TimerFuture>) -> (future: &'a TimerFuture) {
    &**pinned
}

impl TimerFuture {
    /// The time that the timer of this future lets pass before it fires.
    pub closed spec fn spec_duration(self) -> Duration {
        self.duration
    }

    /// A future for a timer of `dur`, with a fresh state that is neither
    /// completed nor waited for. No clock runs yet: see [`TimerFuture::timer`].
    pub fn new(dur: Duration) -> (future: TimerFuture)
        ensures
            future.spec_duration() == dur,
    {
        TimerFuture { duration: dur, shared_state: Arc::new(Mutex::new(SharedState::new())) }
    }

    /// The timer that completes this future.
    pub fn timer(&self) -> (timer: Timer)
        ensures
            timer.serves(*self),
            timer.spec_duration() == self.spec_duration(),
    {
        Timer { duration: self.duration, shared_state: share(&self.shared_state) }
    }

    /// One resumption with `waker` as the waker of the resumed task: a
    /// [`SharedState::poll`] inside the lock.
    ///
    /// The outcome is that of the state which the lock held, and that is for
    /// the timer's thread to decide. A poisoned lock is entered all the same:
    /// no transition leaves the state half-written.
    pub fn poll_with(&self, waker: &Waker) -> (outcome: Poll<()>) {
        let mut guard = match lock(&self.shared_state) {
            Ok(guard) => guard,
            Err(guard) => guard,
        };
        guarded(&mut guard).poll(waker)
    }
}

impl Timer {
    /// Whether this timer completes `future`: both hold the same state.
    pub closed spec fn serves(self, future: TimerFuture) -> bool {
        self.shared_state == future.shared_state
    }

    /// The time to let pass before [`Timer::fire`].
    pub closed spec fn spec_duration(self) -> Duration {
        self.duration
    }

    /// The time to let pass before [`Timer::fire`].
    pub fn duration(&self) -> (dur: Duration)
        ensures
            dur == self.spec_duration(),
    {
        self.duration
    }

    /// Fires the timer: a [`SharedState::fire`] inside the lock, so that the
    /// waiting waker is woken with the lock still held. Returns whether there
    /// was one to wake, which is for the state behind the lock to say.
    ///
    /// Where no task waits yet, nobody is woken and nothing is lost: the first
    /// poll finds the state completed. A waker that polls or fires this very
    /// timer from inside its wake would take the lock a second time; the
    /// wakers of the executor only queue their task.
    pub fn fire(self) -> (woke: bool) {
        let mut guard = match lock(&self.shared_state) {
            Ok(guard) => guard,
            Err(guard) => guard,
        };
        guarded(&mut guard).fire()
    }
}

impl Future for TimerFuture {
    type Output = ();

    fn poll(self: Pin<&mut Self>, cx: &mut Context<'_>) -> Poll<()> {
        unpinned(&self).poll_with(cx.waker())
    }
}

/// What can happen to the state of a timer.
pub enum TimerEvent {
    /// The future is polled, with this waker as the waker of its task.
    Poll(Waker),
    /// The timer fires.
    Fire,
}

impl SharedState {
    /// `next` is this state after `event`, as [`SharedState::poll`] and
    /// [`SharedState::complete`] relate the two.
    pub open spec fn step(self, event: TimerEvent, next: SharedState) -> bool {
        match event {
            TimerEvent::Poll(waker) => self.polled(waker, next),
            TimerEvent::Fire => next == SharedState::fired(),
        }
    }
}

/// `states` are the states that a timer goes through while `events` happen to
/// it one after the other, in whatever order the lock let them in.
pub open spec fn timer_trace(states: Seq<SharedState>, events: Seq<TimerEvent>) -> bool {
    &&& states.len() == events.len() + 1
    &&& forall|i: int|
        #![trigger events[i]]
        0 <= i < events.len() ==> states[i].step(events[i], states[i + 1])
}

/// A waker does not outlive the firing: whatever happens to a timer whose
/// first state is well-formed, none of its completed states holds a waker.
pub proof fn lemma_wf_is_kept(states: Seq<SharedState>, events: Seq<TimerEvent>, n: int)
    requires
        timer_trace(states, events),
        states[0].wf(),
        0 <= n < states.len(),
    ensures
        states[n].wf(),
    decreases n,
{
    if n > 0 {
        lemma_wf_is_kept(states, events, n - 1);
        assert(states[n - 1].step(events[n - 1], states[n]));
    }
}

/// Readiness is kept: once a timer is completed, every further poll reports
/// `Ready`, however many follow and whatever firings come between them, and no
/// poll changes the state.
pub proof fn lemma_completed_stays_ready(
    states: Seq<SharedState>,
    events: Seq<TimerEvent>,
    k: int,
    n: int,
)
    requires
        timer_trace(states, events),
        0 <= k <= n < states.len(),
        states[k].completed,
    ensures
        states[n].completed,
        states[n].poll_outcome() == Poll::Ready(()),
        n < events.len() && events[n] is Poll ==> states[n + 1] == states[n],
        states[k].wf() ==> states[n] == states[k],
    decreases n - k,
{
    if k < n {
        lemma_completed_stays_ready(states, events, k, n - 1);
        assert(states[n - 1].step(events[n - 1], states[n]));
    }
    if n < events.len() {
        assert(states[n].step(events[n], states[n + 1]));
    }
}

/// Only its firing completes a timer: as long as it is polled and does not
/// fire, every poll reports `Pending`.
pub proof fn lemma_only_firing_completes(
    states: Seq<SharedState>,
    events: Seq<TimerEvent>,
    n: int,
)
    requires
        timer_trace(states, events),
        !states[0].completed,
        0 <= n < states.len(),
        forall|i: int| 0 <= i < n ==> events[i] is Poll,
    ensures
        !states[n].completed,
        states[n].poll_outcome() == Poll::<()>::Pending,
    decreases n,
{
    if n > 0 {
        lemma_only_firing_completes(states, events, n - 1);
        assert(states[n - 1].step(events[n - 1], states[n]));
    }
}

/// The latest registration wins: where a timer fires after it was polled some
/// times and nothing else, the waker that the firing finds is a copy of the
/// one that the last poll was handed.
pub proof fn lemma_firing_finds_latest_waker(
    states: Seq<SharedState>,
    events: Seq<TimerEvent>,
    n: int,
    waker: Waker,
)
    requires
        timer_trace(states, events),
        !states[0].completed,
        0 < n < events.len(),
        forall|i: int| 0 <= i < n ==> events[i] is Poll,
        events[n - 1] == TimerEvent::Poll(waker),
        events[n] is Fire,
    ensures
        states[n].waker matches Some(stored) && cloned(waker, stored),
{
    lemma_only_firing_completes(states, events, n - 1);
    assert(states[n - 1].step(events[n - 1], states[n]));
}

/// A timer wakes once at most: whatever waker the first firing found, a later
/// firing finds none.
pub proof fn lemma_later_firing_finds_no_waker(
    states: Seq<SharedState>,
    events: Seq<TimerEvent>,
    i: int,
    j: int,
)
    requires
        timer_trace(states, events),
        0 <= i < j < events.len(),
        events[i] is Fire,
    ensures
        states[j].waker is None,
{
    assert(states[i].step(events[i], states[i + 1]));
    lemma_completed_stays_ready(states, events, i + 1, j);
}

} // verus!
