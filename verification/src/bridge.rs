//! The asynchronous bridge: the state machine by which a foreign caller
//! drives a native asynchronous computation to completion.
//!
//! One [`ComputationHandle`] stands for one in-flight invocation. The
//! caller polls it; the native executor, from whatever thread finished the
//! work, delivers the one completion; the caller may release the handle at
//! any time instead. Every observable move of a handle is one step of the
//! transition function [`step`], and the guarantees the boundary gives —
//! idempotent polling after completion, at most one callback invocation,
//! supersession of callbacks, cancellation without callback — are proved
//! of `step` and of every trace of steps.

use vstd::prelude::*;
use crate::status::{Outcome, OutcomeV};

verus! {

/// A caller-supplied completion notification: a function pointer and the
/// opaque environment pointer handed back to it, both carried as plain
/// machine words; the boundary never interprets them.
#[derive(Clone, Copy, PartialEq, Eq, Structural, Debug)]
pub struct Callback {
    pub func: u64,
    pub env: u64,
}

/// Where a handle stands: running (initial), completed with a stored
/// outcome (terminal), or released (terminal, nothing retrievable).
#[derive(Clone, Copy, PartialEq, Eq, Structural, Debug)]
pub enum Phase {
    Running,
    Completed,
    Released,
}

/// The mathematical state of one computation handle: its phase, the one
/// registered callback if any, the stored outcome if completed, and how
/// often the native computation has delivered a completion.
pub struct BridgeModel {
    pub phase: Phase,
    pub callback: Option<Callback>,
    pub outcome: Option<OutcomeV>,
    pub runs: nat,
}

/// What well-formedness means for a handle's state: a callback is only
/// held while running, an outcome is stored exactly while completed, and
/// the completion has been delivered exactly as often as the phase says.
pub open spec fn model_wf(s: BridgeModel) -> bool {
    &&& s.callback is Some ==> s.phase is Running
    &&& (s.outcome is Some <==> s.phase is Completed)
    &&& s.phase is Running ==> s.runs == 0
    &&& s.phase is Completed ==> s.runs == 1
    &&& s.runs <= 1
}

/// The state a handle is created in.
pub open spec fn init_model() -> BridgeModel {
    BridgeModel { phase: Phase::Running, callback: None, outcome: None, runs: 0 }
}

/// One thing that can happen to a handle: the caller polls with a
/// callback, the executor delivers the completed outcome, or the caller
/// releases the handle.
pub enum Event {
    Poll(Callback),
    Complete(OutcomeV),
    Release,
}

/// What one step asks its surroundings to do: report not-done, report
/// done with the outcome, invoke the given callback exactly once, cancel
/// the underlying computation, or nothing.
pub enum Action {
    NotDone,
    Done(OutcomeV),
    Invoke(Callback),
    Cancel,
    Quiet,
}

/// The transition function of the bridge: from a state and an event to
/// the next state and the demanded action.
///
/// Polling while running registers the callback, superseding any earlier
/// one, and reports not-done. Polling after completion reports done with
/// the cached outcome and changes nothing. A completion delivered while
/// running stores the outcome and hands the registered callback out for
/// its one invocation; delivered after release it is discarded quietly.
/// Release discards any callback without invoking it and, while running,
/// asks for the computation to be cancelled.
pub open spec fn step(s: BridgeModel, e: Event) -> (BridgeModel, Action) {
    match e {
        Event::Poll(c) => match s.phase {
            Phase::Running => (
                BridgeModel { callback: Some(c), ..s },
                Action::NotDone,
            ),
            Phase::Completed => (s, Action::Done(s.outcome->Some_0)),
            Phase::Released => (s, Action::Quiet),
        },
        Event::Complete(o) => match s.phase {
            Phase::Running => (
                BridgeModel {
                    phase: Phase::Completed,
                    callback: None,
                    outcome: Some(o),
                    runs: s.runs + 1,
                },
                match s.callback {
                    Some(c) => Action::Invoke(c),
                    None => Action::Quiet,
                },
            ),
            Phase::Completed => (s, Action::Quiet),
            Phase::Released => (s, Action::Quiet),
        },
        Event::Release => match s.phase {
            Phase::Running => (
                BridgeModel { phase: Phase::Released, callback: None, outcome: None, runs: s.runs },
                Action::Cancel,
            ),
            Phase::Completed => (
                BridgeModel { phase: Phase::Released, callback: None, outcome: None, runs: s.runs },
                Action::Quiet,
            ),
            Phase::Released => (s, Action::Quiet),
        },
    }
}

/// The state after a whole sequence of events.
pub open spec fn run_trace(s: BridgeModel, evs: Seq<Event>) -> BridgeModel
    decreases evs.len(),
{
    if evs.len() == 0 {
        s
    } else {
        run_trace(step(s, evs[0]).0, evs.skip(1))
    }
}

/// How many steps of the trace demand a callback invocation.
pub open spec fn invocations(s: BridgeModel, evs: Seq<Event>) -> nat
    decreases evs.len(),
{
    if evs.len() == 0 {
        0
    } else {
        (if step(s, evs[0]).1 is Invoke {
            1nat
        } else {
            0nat
        }) + invocations(step(s, evs[0]).0, evs.skip(1))
    }
}

/// How many steps of the trace demand an invocation of this callback.
pub open spec fn invocations_of(s: BridgeModel, evs: Seq<Event>, c: Callback) -> nat
    decreases evs.len(),
{
    if evs.len() == 0 {
        0
    } else {
        (if step(s, evs[0]).1 == Action::Invoke(c) {
            1nat
        } else {
            0nat
        }) + invocations_of(step(s, evs[0]).0, evs.skip(1), c)
    }
}

/// Whether the trace registers this callback at some point.
pub open spec fn polls_with(evs: Seq<Event>, c: Callback) -> bool {
    exists|i: int| 0 <= i < evs.len() && evs[i] == Event::Poll(c)
}

/// Every step keeps the state well formed.
pub proof fn lemma_step_wf(s: BridgeModel, e: Event)
    requires
        model_wf(s),
    ensures
        model_wf(step(s, e).0),
{
}

/// Idempotent polling after completion: once completed, a poll returns
/// done with the stored outcome and moves nothing — not the outcome, not
/// the run count.
pub proof fn lemma_poll_after_completion(s: BridgeModel, c: Callback)
    requires
        model_wf(s),
        s.phase is Completed,
    ensures
        step(s, Event::Poll(c)).0 == s,
        step(s, Event::Poll(c)).1 == Action::Done(s.outcome->Some_0),
        step(s, Event::Poll(c)).0.runs == s.runs,
{
}

/// The native computation runs at most once: no trace from a well-formed
/// state drives the delivered-completion count past one.
pub proof fn lemma_runs_at_most_once(s: BridgeModel, evs: Seq<Event>)
    requires
        model_wf(s),
    ensures
        run_trace(s, evs).runs <= 1,
    decreases evs.len(),
{
    if evs.len() > 0 {
        lemma_step_wf(s, evs[0]);
        lemma_runs_at_most_once(step(s, evs[0]).0, evs.skip(1));
    }
}

/// A handle that has left the running phase never runs again and never
/// invokes a callback again.
pub proof fn lemma_terminal_quiet(s: BridgeModel, evs: Seq<Event>)
    requires
        model_wf(s),
        !(s.phase is Running),
    ensures
        !(run_trace(s, evs).phase is Running),
        invocations(s, evs) == 0,
    decreases evs.len(),
{
    if evs.len() > 0 {
        lemma_step_wf(s, evs[0]);
        lemma_terminal_quiet(step(s, evs[0]).0, evs.skip(1));
    }
}

/// No double callback: over any trace from a well-formed state, at most
/// one step invokes a callback.
pub proof fn lemma_at_most_one_invocation(s: BridgeModel, evs: Seq<Event>)
    requires
        model_wf(s),
    ensures
        invocations(s, evs) <= 1,
    decreases evs.len(),
{
    if evs.len() > 0 {
        let (s1, a) = step(s, evs[0]);
        lemma_step_wf(s, evs[0]);
        if a is Invoke {
            lemma_terminal_quiet(s1, evs.skip(1));
        } else {
            lemma_at_most_one_invocation(s1, evs.skip(1));
        }
    }
}

/// Exactly once on natural completion: while a callback is registered and
/// no release has happened, the delivered completion invokes it.
pub proof fn lemma_invoked_on_completion(s: BridgeModel, o: OutcomeV)
    requires
        model_wf(s),
        s.phase is Running,
        s.callback is Some,
    ensures
        step(s, Event::Complete(o)).1 == Action::Invoke(s.callback->Some_0),
{
}

/// Exactly once over a whole trace: while a callback is registered and no
/// release has happened, the delivered completion invokes it, and nothing
/// that follows — polls, a release, anything — ever invokes a callback
/// again.
pub proof fn lemma_exactly_one_invocation(s: BridgeModel, o: OutcomeV, rest: Seq<Event>)
    requires
        model_wf(s),
        s.phase is Running,
        s.callback is Some,
    ensures
        invocations(s, seq![Event::Complete(o)] + rest) == 1,
{
    let evs = seq![Event::Complete(o)] + rest;
    assert(evs[0] == Event::Complete(o));
    assert(evs.skip(1) =~= rest);
    let s1 = step(s, Event::Complete(o)).0;
    lemma_step_wf(s, Event::Complete(o));
    lemma_terminal_quiet(s1, rest);
}

/// Supersession: once a callback is no longer the registered one, no step
/// of a trace that never registers it again invokes it. In particular,
/// registering a second callback means the first is never invoked.
pub proof fn lemma_superseded_never_invoked(s: BridgeModel, evs: Seq<Event>, c1: Callback)
    requires
        model_wf(s),
        s.callback != Some(c1),
        !polls_with(evs, c1),
    ensures
        invocations_of(s, evs, c1) == 0,
    decreases evs.len(),
{
    if evs.len() > 0 {
        let e = evs[0];
        let (s1, a) = step(s, e);
        lemma_step_wf(s, e);
        assert(e != Event::Poll(c1));
        assert(s1.callback != Some(c1));
        assert(a != Action::Invoke(c1));
        assert(!polls_with(evs.skip(1), c1)) by {
            if polls_with(evs.skip(1), c1) {
                let i = choose|i: int|
                    0 <= i < evs.skip(1).len() && evs.skip(1)[i] == Event::Poll(c1);
                assert(evs[i + 1] == Event::Poll(c1));
            }
        }
        lemma_superseded_never_invoked(s1, evs.skip(1), c1);
    }
}

/// Cancellation safety: when a release races a natural completion, the
/// two orders both end released, exactly one terminal course is taken,
/// and in the release-first order no callback is ever invoked.
pub proof fn lemma_release_completion_race(s: BridgeModel, o: OutcomeV)
    requires
        model_wf(s),
        s.phase is Running,
    ensures
        run_trace(s, seq![Event::Release, Event::Complete(o)]).phase is Released,
        invocations(s, seq![Event::Release, Event::Complete(o)]) == 0,
        run_trace(s, seq![Event::Complete(o), Event::Release]).phase is Released,
        invocations(s, seq![Event::Complete(o), Event::Release]) == (
            if s.callback is Some {
                1nat
            } else {
                0nat
            }
        ),
{
    let evs1 = seq![Event::Release, Event::Complete(o)];
    let evs2 = seq![Event::Complete(o), Event::Release];
    assert(evs1.skip(1) =~= seq![Event::Complete(o)]);
    assert(evs2.skip(1) =~= seq![Event::Release]);
    assert(evs1.skip(1).skip(1) =~= Seq::<Event>::empty());
    assert(evs2.skip(1).skip(1) =~= Seq::<Event>::empty());
    let r1 = step(s, Event::Release).0;
    let c1 = step(s, Event::Complete(o)).0;
    assert(evs1[0] == Event::Release && evs2[0] == Event::Complete(o));
    assert(run_trace(s, evs1) == run_trace(r1, evs1.skip(1)));
    assert(evs1.skip(1)[0] == Event::Complete(o));
    assert(run_trace(r1, evs1.skip(1)) == run_trace(step(r1, Event::Complete(o)).0, evs1.skip(
        1,
    ).skip(1)));
    assert(run_trace(s, evs2) == run_trace(c1, evs2.skip(1)));
    assert(evs2.skip(1)[0] == Event::Release);
    assert(run_trace(c1, evs2.skip(1)) == run_trace(step(c1, Event::Release).0, evs2.skip(1).skip(
        1,
    )));
    assert(invocations(s, evs1) == invocations(r1, evs1.skip(1)));
    assert(invocations(r1, evs1.skip(1)) == invocations(step(r1, Event::Complete(o)).0, evs1.skip(
        1,
    ).skip(1)));
    assert(invocations(step(r1, Event::Complete(o)).0, evs1.skip(1).skip(1)) == 0);
    assert(invocations(c1, evs2.skip(1)) == invocations(step(c1, Event::Release).0, evs2.skip(
        1,
    ).skip(1)));
    assert(invocations(step(c1, Event::Release).0, evs2.skip(1).skip(1)) == 0);
}

/// Release never invokes the callback it discards.
pub proof fn lemma_release_never_invokes(s: BridgeModel)
    ensures
        !(step(s, Event::Release).1 is Invoke),
{
}

/// One in-flight asynchronous invocation, exclusively owned by the
/// boundary and driven by [`Self::poll`], [`Self::complete`] and
/// [`Self::release`]. Each method performs exactly one [`step`] and hands
/// the demanded action back to its caller.
pub struct ComputationHandle {
    phase: Phase,
    callback: Option<Callback>,
    outcome: Option<Outcome>,
    runs: u64,
}

impl View for ComputationHandle {
    type V = BridgeModel;

    closed spec fn view(&self) -> BridgeModel {
        BridgeModel {
            phase: self.phase,
            callback: self.callback,
            outcome: match self.outcome {
                Some(o) => Some(o@),
                None => None,
            },
            runs: self.runs as nat,
        }
    }
}

impl ComputationHandle {
    /// A handle for a computation that has just been started: running, no
    /// callback registered, nothing delivered yet.
    pub fn new() -> (r: Self)
        ensures
            r@ == init_model(),
    {
        let r = ComputationHandle { phase: Phase::Running, callback: None, outcome: None, runs: 0 };
        proof {
            assert(r@ =~= init_model());
        }
        r
    }

    /// The phase the handle is in.
    pub fn phase(&self) -> (r: Phase)
        ensures
            r == self@.phase,
    {
        self.phase
    }

    /// One poll from the foreign caller: if the outcome is already there,
    /// write it into the output slot and report done; otherwise register
    /// the callback, superseding any earlier one, and report not done
    /// without blocking. Never valid on a released handle — release takes
    /// the handle away from the caller.
    pub fn poll(&mut self, cb: Callback, out_slot: &mut Option<Outcome>) -> (done: bool)
        requires
            model_wf(old(self)@),
            !(old(self)@.phase is Released),
        ensures
            model_wf(final(self)@),
            final(self)@ == step(old(self)@, Event::Poll(cb)).0,
            done == (step(old(self)@, Event::Poll(cb)).1 is Done),
            done ==> (match *final(out_slot) {
                Some(o) => Action::Done(o@) == step(old(self)@, Event::Poll(cb)).1,
                None => false,
            }),
            !done ==> *final(out_slot) is None,
    {
        proof {
            lemma_step_wf(old(self)@, Event::Poll(cb));
        }
        match self.phase {
            Phase::Running => {
                self.callback = Some(cb);
                *out_slot = None;
                proof {
                    assert(self@ =~= step(old(self)@, Event::Poll(cb)).0);
                }
                false
            }
            Phase::Completed => {
                let o = match &self.outcome {
                    Some(o) => o.duplicate(),
                    None => {
                        proof {
                            assert(false);
                        }
                        Outcome::Success(crate::abi::AbiValue::Scalar(0))
                    }
                };
                *out_slot = Some(o);
                proof {
                    assert(self@ =~= step(old(self)@, Event::Poll(cb)).0);
                }
                true
            }
            Phase::Released => {
                proof {
                    assert(false);
                }
                *out_slot = None;
                false
            }
        }
    }

    /// The one completion, delivered by whatever thread the native
    /// executor finished the work on. Stores the outcome and hands back
    /// the callback that must now be invoked exactly once, if one is
    /// registered; delivered after a release, it discards the outcome and
    /// hands back nothing. The executor delivers at most one completion,
    /// so the handle is never already completed here.
    pub fn complete(&mut self, o: Outcome) -> (cb: Option<Callback>)
        requires
            model_wf(old(self)@),
            !(old(self)@.phase is Completed),
        ensures
            model_wf(final(self)@),
            final(self)@ == step(old(self)@, Event::Complete(o@)).0,
            match cb {
                Some(c) => Action::Invoke(c) == step(old(self)@, Event::Complete(o@)).1,
                None => !(step(old(self)@, Event::Complete(o@)).1 is Invoke),
            },
    {
        proof {
            lemma_step_wf(old(self)@, Event::Complete(o@));
        }
        match self.phase {
            Phase::Running => {
                let cb = self.callback;
                self.callback = None;
                self.phase = Phase::Completed;
                self.outcome = Some(o);
                self.runs = self.runs + 1;
                proof {
                    assert(self@ =~= step(old(self)@, Event::Complete(o@)).0);
                }
                cb
            }
            Phase::Completed => {
                proof {
                    assert(false);
                }
                None
            }
            Phase::Released => None,
        }
    }

    /// Release from the foreign caller: the handle is destroyed, the
    /// computation is cancelled if still running (cooperatively — its
    /// continuation is dropped, nothing is preempted), and any registered
    /// callback is discarded without ever being invoked. The report says
    /// whether a cancellation is demanded.
    pub fn release(&mut self) -> (cancel: bool)
        requires
            model_wf(old(self)@),
            !(old(self)@.phase is Released),
        ensures
            model_wf(final(self)@),
            final(self)@ == step(old(self)@, Event::Release).0,
            cancel == (step(old(self)@, Event::Release).1 is Cancel),
            !(step(old(self)@, Event::Release).1 is Invoke),
    {
        proof {
            lemma_step_wf(old(self)@, Event::Release);
        }
        let was_running = match self.phase {
            Phase::Running => true,
            _ => false,
        };
        self.phase = Phase::Released;
        self.callback = None;
        self.outcome = None;
        proof {
            assert(self@ =~= step(old(self)@, Event::Release).0);
        }
        was_running
    }
}

} // verus!
