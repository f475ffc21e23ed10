//! The boundary entries of the concrete exports: what a foreign caller
//! actually reaches.
//!
//! A synchronous entry lifts its arguments, runs the export's body, and
//! reports through the return channel and the status cell. An
//! asynchronous invoke lifts its arguments and hands back the computation
//! handle together with the lifted input the executor will feed to the
//! body; the executor later delivers the mapped outcome through
//! [`crate::bridge::ComputationHandle::complete`], and the caller drives
//! the handle with the type-specialized poll and release — here
//! [`crate::bridge::ComputationHandle::poll`] and
//! [`crate::bridge::ComputationHandle::release`]. A lift fault is
//! contained: it surfaces as an unrecoverable fault in the status cell,
//! never as a crash.

use vstd::prelude::*;
use vstd::utf8::encode_utf8;
use crate::abi::{AbiValue, AbiV, NativeValue, NativeV, TypeTag, spec_lift, lift};
use crate::bridge::ComputationHandle;
use crate::bridge::init_model;
use crate::exports::{greet, fallible_me, lower_my_error, spec_lower_my_error, MyError};
use crate::registry::ObjectRegistry;
use crate::status::{CallStatus, NativeResult, NativeResultV, complete_sync_call};

verus! {

/// The diagnostic a boundary entry reports when an argument fails to
/// lift.
fn lift_fault_status(name: &str) -> (r: CallStatus)
    ensures
        r@ is UnrecoverableFault,
{
    let mut d = "Failed to convert arg '".to_owned();
    d.append(name);
    d.append("'");
    CallStatus::UnrecoverableFault(d)
}

/// The synchronous boundary entry of `greet`: lift the one text argument,
/// run the body, lower the answer into the return channel. No error type
/// is declared, so a lifted argument always comes back as a success; a
/// malformed argument is contained as a fault in the status cell.
pub fn greet_invoke(arg: AbiValue, reg: &ObjectRegistry, status: &mut CallStatus) -> (r: Option<
    AbiValue,
>)
    requires
        reg.wf(),
    ensures
        match spec_lift(TypeTag::Text, arg@, reg.live_set()) {
            Ok(n) => (match r {
                Some(v) => v@ == AbiV::Buffer(encode_utf8("Hello, "@ + n->Text_0)),
                None => false,
            }) && final(status)@ is Success,
            Err(_) => r is None && final(status)@ is UnrecoverableFault,
        },
{
    match lift(TypeTag::Text, arg, reg) {
        Ok(n) => match n {
            NativeValue::Text(who) => {
                let answer = greet(who);
                complete_sync_call(false, NativeResult::Value(NativeValue::Text(answer)), status)
            }
            _ => {
                proof {
                    assert(false);
                }
                None
            }
        },
        Err(_) => {
            *status = lift_fault_status("who");
            None
        }
    }
}

/// The asynchronous boundary entry of `fallible_me`: lift the one boolean
/// argument and start the computation — a fresh running handle for the
/// caller, and the lifted input for the executor to feed to
/// [`fallible_me_run`]. A malformed argument is contained as a fault in
/// the status cell, and the caller gets no handle.
pub fn fallible_me_invoke(arg: AbiValue, reg: &ObjectRegistry, status: &mut CallStatus) -> (r:
    Option<(ComputationHandle, bool)>)
    requires
        reg.wf(),
    ensures
        match spec_lift(TypeTag::Boolean, arg@, reg.live_set()) {
            Ok(n) => (match r {
                Some(p) => p.0@ == init_model() && NativeV::Bool(p.1) == n,
                None => false,
            }) && final(status)@ is Success,
            Err(_) => r is None && final(status)@ is UnrecoverableFault,
        },
{
    match lift(TypeTag::Boolean, arg, reg) {
        Ok(n) => match n {
            NativeValue::Bool(do_fail) => {
                *status = CallStatus::Success;
                Some((ComputationHandle::new(), do_fail))
            }
            _ => {
                proof {
                    assert(false);
                }
                None
            }
        },
        Err(_) => {
            *status = lift_fault_status("do_fail");
            None
        }
    }
}

/// What the executor runs for one `fallible_me` invocation: the body on
/// the lifted input, with its success value kept native and its declared
/// error already lowered, ready for the outcome mapper.
pub fn fallible_me_run(do_fail: bool) -> (nr: NativeResult)
    ensures
        do_fail ==> nr@ == NativeResultV::DeclaredError(spec_lower_my_error(MyError::Foo)),
        !do_fail ==> nr@ == NativeResultV::Value(NativeV::U8(42)),
{
    match fallible_me(do_fail) {
        Ok(v) => NativeResult::Value(NativeValue::U8(v)),
        Err(e) => NativeResult::DeclaredError(lower_my_error(e)),
    }
}

} // verus!
