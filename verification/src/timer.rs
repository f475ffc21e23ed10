//! A non-blocking timer: the readiness state behind the fixture's
//! suspending exports.
//!
//! The timer suspends a computation until its interval has elapsed
//! somewhere else — a thread, an executor's clock — and that elapsing is
//! delivered here as the one `fire`. Polling never blocks: not ready means
//! the poller's waker is parked, to be woken by the firing.

use vstd::prelude::*;

verus! {

/// The mathematical state of a timer: whether it has fired, and the one
/// parked waker, carried as an opaque token.
pub struct TimerModel {
    pub completed: bool,
    pub waker: Option<u64>,
}

/// Non-blocking timer future.
pub struct TimerFuture {
    completed: bool,
    waker: Option<u64>,
}

impl View for TimerFuture {
    type V = TimerModel;

    closed spec fn view(&self) -> TimerModel {
        TimerModel { completed: self.completed, waker: self.waker }
    }
}

impl TimerFuture {
    /// A timer that has not fired and parks no waker yet. The interval is
    /// its surroundings' business: whoever runs the clock calls
    /// [`Self::fire`] when it has elapsed.
    pub fn new() -> (r: Self)
        ensures
            r@ == (TimerModel { completed: false, waker: None }),
    {
        TimerFuture { completed: false, waker: None }
    }

    /// One poll: ready exactly when the timer has fired; otherwise the
    /// caller's waker is parked — replacing any earlier one — to be woken
    /// by the firing.
    pub fn poll(&mut self, waker: u64) -> (ready: bool)
        ensures
            ready == old(self)@.completed,
            ready ==> final(self)@ == old(self)@,
            !ready ==> final(self)@ == (TimerModel { completed: false, waker: Some(waker) }),
    {
        if self.completed {
            true
        } else {
            self.waker = Some(waker);
            false
        }
    }

    /// The interval has elapsed: mark the timer fired, exactly once, and
    /// hand back the parked waker so the caller wakes it.
    pub fn fire(&mut self) -> (w: Option<u64>)
        requires
            !old(self)@.completed,
        ensures
            final(self)@ == (TimerModel { completed: true, waker: None }),
            w == old(self)@.waker,
    {
        self.completed = true;
        let w = self.waker;
        self.waker = None;
        w
    }
}

} // verus!
