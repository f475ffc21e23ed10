use ffi_bridge::abi::AbiValue;
use ffi_bridge::boundary::{fallible_me_invoke, fallible_me_run, greet_invoke};
use ffi_bridge::bridge::{Callback, ComputationHandle, Phase};
use ffi_bridge::registry::ObjectRegistry;
use ffi_bridge::status::{CallStatus, NativeResult, Outcome, complete_sync_call, map_outcome};
use ffi_bridge::timer::TimerFuture;

const CB1: Callback = Callback { func: 0x10, env: 0x11 };
const CB2: Callback = Callback { func: 0x20, env: 0x21 };

/// The executor's side of one invocation, made observable: running the
/// body bumps the counter, then the outcome is delivered.
fn finish(handle: &mut ComputationHandle, outcome: Outcome, body_runs: &mut u32) -> Option<Callback>
{
    *body_runs += 1;
    handle.complete(outcome)
}

#[test]
fn suspend_then_done_and_idempotent_polls() {
    // An asynchronous export with no declared error type that suspends,
    // then completes with the literal "done".
    let mut handle = ComputationHandle::new();
    let mut body_runs: u32 = 0;
    let mut slot: Option<Outcome> = None;

    // Poll once immediately: not done, the callback is registered.
    assert!(!handle.poll(CB1, &mut slot));
    assert!(slot.is_none());

    // The interval elapses: the executor finishes and the registered
    // callback is handed out for its one invocation.
    let woken = finish(
        &mut handle,
        Outcome::Success(AbiValue::Buffer("done".as_bytes().to_vec())),
        &mut body_runs,
    );
    assert_eq!(woken, Some(CB1));

    // Poll again: done, with the value.
    assert!(handle.poll(CB1, &mut slot));
    assert_eq!(slot, Some(Outcome::Success(AbiValue::Buffer("done".as_bytes().to_vec()))));

    // Poll a third time: done, the same cached outcome, and the body has
    // still run exactly once.
    let mut slot2: Option<Outcome> = None;
    assert!(handle.poll(CB2, &mut slot2));
    assert_eq!(slot, slot2);
    assert_eq!(body_runs, 1);
    assert_eq!(handle.phase(), Phase::Completed);
}

#[test]
fn typed_error_reaches_the_caller_as_data() {
    // An export with a declared error type, invoked with the argument
    // that forces the error branch.
    let reg = ObjectRegistry::new();
    let mut status = CallStatus::Success;
    let (mut handle, do_fail) =
        fallible_me_invoke(AbiValue::Scalar(1), &reg, &mut status).expect("a valid argument");
    assert!(do_fail);
    assert_eq!(status, CallStatus::Success);

    let outcome = map_outcome(true, fallible_me_run(do_fail));
    handle.complete(outcome);

    let mut slot: Option<Outcome> = None;
    assert!(handle.poll(CB1, &mut slot));
    match slot {
        Some(Outcome::TypedError(e)) => assert_eq!(e, AbiValue::Scalar(0)),
        other => panic!("a declared error must arrive as a typed error, got {other:?}"),
    }
}

#[test]
fn success_branch_of_the_fallible_export() {
    let reg = ObjectRegistry::new();
    let mut status = CallStatus::Success;
    let (mut handle, do_fail) =
        fallible_me_invoke(AbiValue::Scalar(0), &reg, &mut status).expect("a valid argument");
    assert!(!do_fail);
    handle.complete(map_outcome(true, fallible_me_run(do_fail)));
    let mut slot: Option<Outcome> = None;
    assert!(handle.poll(CB1, &mut slot));
    assert_eq!(slot, Some(Outcome::Success(AbiValue::Scalar(42))));
}

#[test]
fn invoke_rejects_a_malformed_argument_without_a_handle() {
    let reg = ObjectRegistry::new();
    let mut status = CallStatus::Success;
    assert!(fallible_me_invoke(AbiValue::Scalar(7), &reg, &mut status).is_none());
    assert!(matches!(status, CallStatus::UnrecoverableFault(_)));
}

#[test]
fn release_before_completion_means_no_callback() {
    // Invoke, poll (registering a callback), release before natural
    // completion: no callback invocation, even when the completion
    // arrives later.
    let mut handle = ComputationHandle::new();
    let mut slot: Option<Outcome> = None;
    assert!(!handle.poll(CB1, &mut slot));

    let cancel = handle.release();
    assert!(cancel, "a running computation is asked to cancel");
    assert_eq!(handle.phase(), Phase::Released);

    // Past the natural completion time, the abandoned computation's
    // outcome is discarded quietly.
    let mut body_runs: u32 = 0;
    let woken = finish(
        &mut handle,
        Outcome::Success(AbiValue::Buffer("done".as_bytes().to_vec())),
        &mut body_runs,
    );
    assert_eq!(woken, None);
    assert_eq!(handle.phase(), Phase::Released);
}

#[test]
fn release_after_completion_discards_the_outcome() {
    let mut handle = ComputationHandle::new();
    handle.complete(Outcome::Success(AbiValue::Scalar(1)));
    let cancel = handle.release();
    assert!(!cancel, "a finished computation has nothing to cancel");
    assert_eq!(handle.phase(), Phase::Released);
}

#[test]
fn completion_with_no_callback_registered_invokes_nothing() {
    let mut handle = ComputationHandle::new();
    let woken = handle.complete(Outcome::Success(AbiValue::Scalar(1)));
    assert_eq!(woken, None);
    // The outcome is still there for a later poll.
    let mut slot: Option<Outcome> = None;
    assert!(handle.poll(CB1, &mut slot));
    assert_eq!(slot, Some(Outcome::Success(AbiValue::Scalar(1))));
}

#[test]
fn second_poll_supersedes_the_first_callback() {
    // Registering C2 before completion means C1 is never invoked.
    let mut handle = ComputationHandle::new();
    let mut slot: Option<Outcome> = None;
    assert!(!handle.poll(CB1, &mut slot));
    assert!(!handle.poll(CB2, &mut slot));
    let woken = handle.complete(Outcome::Success(AbiValue::Scalar(5)));
    assert_eq!(woken, Some(CB2));
}

#[test]
fn polls_after_completion_register_nothing() {
    // Once done, polling hands the outcome back and parks no callback:
    // nothing is left that could ever be invoked.
    let mut handle = ComputationHandle::new();
    handle.complete(Outcome::Success(AbiValue::Scalar(9)));
    let mut slot: Option<Outcome> = None;
    assert!(handle.poll(CB1, &mut slot));
    assert!(handle.poll(CB2, &mut slot));
    assert_eq!(handle.phase(), Phase::Completed);
}

#[test]
fn sync_fault_is_contained_in_the_status_cell() {
    // A native unrecoverable fault during a synchronous call yields the
    // fault status code, not a crash, and never a typed error.
    let mut status = CallStatus::Success;
    let ret = complete_sync_call(
        false,
        NativeResult::Fault("assertion failed: invariant".to_string()),
        &mut status,
    );
    assert!(ret.is_none());
    match status {
        CallStatus::UnrecoverableFault(d) => assert_eq!(d, "assertion failed: invariant"),
        other => panic!("a fault must use the fault slot, got {other:?}"),
    }
}

#[test]
fn sync_declared_error_uses_the_typed_error_status() {
    // A declared error travels as data through the status cell, never as
    // a fault.
    let mut status = CallStatus::Success;
    let ret = complete_sync_call(true, NativeResult::DeclaredError(AbiValue::Scalar(0)), &mut status);
    assert!(ret.is_none());
    assert_eq!(status, CallStatus::TypedError(AbiValue::Scalar(0)));
}

#[test]
fn greet_entry_converts_and_reports() {
    let reg = ObjectRegistry::new();
    let mut status = CallStatus::Success;
    let ret = greet_invoke(
        AbiValue::Buffer("world".as_bytes().to_vec()),
        &reg,
        &mut status,
    );
    assert_eq!(ret, Some(AbiValue::Buffer("Hello, world".as_bytes().to_vec())));
    assert_eq!(status, CallStatus::Success);
}

#[test]
fn greet_entry_contains_a_malformed_argument() {
    let reg = ObjectRegistry::new();
    let mut status = CallStatus::Success;
    let ret = greet_invoke(AbiValue::Buffer(vec![0xc3, 0x28]), &reg, &mut status);
    assert!(ret.is_none());
    assert!(matches!(status, CallStatus::UnrecoverableFault(_)));
}

#[test]
fn timer_parks_a_waker_and_wakes_it_once() {
    let mut t = TimerFuture::new();
    assert!(!t.poll(7), "the timer has not fired yet");
    let woken = t.fire();
    assert_eq!(woken, Some(7));
    assert!(t.poll(8), "after firing, every poll is ready");
    assert!(t.poll(9));
}

#[test]
fn timer_fire_with_no_waker_parked() {
    let mut t = TimerFuture::new();
    assert_eq!(t.fire(), None);
    assert!(t.poll(1));
}
