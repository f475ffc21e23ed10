//! Outcomes and the fault/result mapper.
//!
//! A completed invocation produces exactly one [`Outcome`]: the converted
//! success value, the lowered declared error, or an unrecoverable fault's
//! diagnostic. The mapper turns what the native call produced into that
//! outcome; a fault is never coerced into a typed error, and a typed error
//! is never treated as fatal.

use vstd::prelude::*;
use crate::abi::{AbiValue, AbiV, NativeValue, NativeV, spec_lower, lower};

verus! {

/// What one completed invocation produced, in boundary-safe form.
#[derive(PartialEq, Debug)]
pub enum Outcome {
    /// The converted success value.
    Success(AbiValue),
    /// The lowered value of the signature's declared error type.
    TypedError(AbiValue),
    /// The diagnostic of a native unrecoverable fault contained at the
    /// boundary.
    UnrecoverableFault(String),
}

/// The mathematical model of an outcome.
pub enum OutcomeV {
    Success(AbiV),
    TypedError(AbiV),
    UnrecoverableFault(Seq<char>),
}

impl View for Outcome {
    type V = OutcomeV;

    open spec fn view(&self) -> OutcomeV {
        match self {
            Outcome::Success(v) => OutcomeV::Success(v@),
            Outcome::TypedError(v) => OutcomeV::TypedError(v@),
            Outcome::UnrecoverableFault(d) => OutcomeV::UnrecoverableFault(d@),
        }
    }
}

impl Outcome {
    /// An equal outcome, so a cached outcome can be handed out while the
    /// stored one stays where it is.
    pub fn duplicate(&self) -> (r: Self)
        ensures
            r@ == self@,
    {
        match self {
            Outcome::Success(v) => Outcome::Success(v.duplicate()),
            Outcome::TypedError(v) => Outcome::TypedError(v.duplicate()),
            Outcome::UnrecoverableFault(d) => Outcome::UnrecoverableFault(d.clone()),
        }
    }
}

/// What the native side handed back from running an exported body: its
/// return value, the value of the declared error type — lowered by the
/// export's own conversion — or the diagnostic of a fault that escaped
/// the body and was contained at the boundary.
#[derive(Debug)]
pub enum NativeResult {
    Value(NativeValue),
    DeclaredError(AbiValue),
    Fault(String),
}

/// The mathematical model of a native call result.
pub enum NativeResultV {
    Value(NativeV),
    DeclaredError(AbiV),
    Fault(Seq<char>),
}

impl View for NativeResult {
    type V = NativeResultV;

    open spec fn view(&self) -> NativeResultV {
        match self {
            NativeResult::Value(v) => NativeResultV::Value(v@),
            NativeResult::DeclaredError(v) => NativeResultV::DeclaredError(v@),
            NativeResult::Fault(d) => NativeResultV::Fault(d@),
        }
    }
}

/// What the mapper produces: the one outcome of a completed invocation.
pub open spec fn spec_map_outcome(r: NativeResultV) -> OutcomeV {
    match r {
        NativeResultV::Value(v) => OutcomeV::Success(spec_lower(v)),
        NativeResultV::DeclaredError(e) => OutcomeV::TypedError(e),
        NativeResultV::Fault(d) => OutcomeV::UnrecoverableFault(d),
    }
}

/// Map a native call result to its boundary outcome.
///
/// A value of the success type lowers to `Success`; a lowered value of
/// the declared error type becomes `TypedError` and travels through the
/// normal output channel; a fault becomes `UnrecoverableFault` and never a
/// typed error. A declared error can only arise when the signature
/// declares an error type.
pub fn map_outcome(declares_error: bool, r: NativeResult) -> (o: Outcome)
    requires
        r@ is DeclaredError ==> declares_error,
    ensures
        o@ == spec_map_outcome(r@),
        r@ is Fault ==> o@ is UnrecoverableFault,
        o@ is TypedError ==> r@ is DeclaredError,
{
    match r {
        NativeResult::Value(v) => Outcome::Success(lower(&v)),
        NativeResult::DeclaredError(e) => Outcome::TypedError(e),
        NativeResult::Fault(d) => Outcome::UnrecoverableFault(d),
    }
}

/// The status cell a synchronous boundary entry reports through: the
/// out-of-band channel that tells the foreign caller how the call ended.
#[derive(PartialEq, Debug)]
pub enum CallStatus {
    /// The call returned its success value through the output channel.
    Success,
    /// The call returned the lowered declared error.
    TypedError(AbiValue),
    /// A native fault was contained at the boundary; its diagnostic.
    UnrecoverableFault(String),
}

/// The mathematical model of a status cell.
pub enum CallStatusV {
    Success,
    TypedError(AbiV),
    UnrecoverableFault(Seq<char>),
}

impl View for CallStatus {
    type V = CallStatusV;

    open spec fn view(&self) -> CallStatusV {
        match self {
            CallStatus::Success => CallStatusV::Success,
            CallStatus::TypedError(v) => CallStatusV::TypedError(v@),
            CallStatus::UnrecoverableFault(d) => CallStatusV::UnrecoverableFault(d@),
        }
    }
}

/// How a synchronous entry reports an outcome: the success value goes out
/// through the return channel, everything else through the status cell.
pub open spec fn spec_report_sync(o: OutcomeV) -> (Option<AbiV>, CallStatusV) {
    match o {
        OutcomeV::Success(v) => (Some(v), CallStatusV::Success),
        OutcomeV::TypedError(e) => (None, CallStatusV::TypedError(e)),
        OutcomeV::UnrecoverableFault(d) => (None, CallStatusV::UnrecoverableFault(d)),
    }
}

/// Finish a synchronous call: map the native result and report it through
/// the return channel and the status cell. A fault always surfaces as
/// `UnrecoverableFault` in the status cell, never as a crash and never as
/// a typed error.
pub fn complete_sync_call(declares_error: bool, r: NativeResult, status: &mut CallStatus) -> (
    ret: Option<AbiValue>)
    requires
        r@ is DeclaredError ==> declares_error,
    ensures
        match ret {
            Some(v) => spec_report_sync(spec_map_outcome(r@)).0 == Some(v@),
            None => spec_report_sync(spec_map_outcome(r@)).0 is None,
        },
        final(status)@ == spec_report_sync(spec_map_outcome(r@)).1,
        r@ is Fault ==> final(status)@ is UnrecoverableFault,
        final(status)@ is TypedError ==> r@ is DeclaredError,
{
    let o = map_outcome(declares_error, r);
    match o {
        Outcome::Success(v) => {
            *status = CallStatus::Success;
            Some(v)
        }
        Outcome::TypedError(e) => {
            *status = CallStatus::TypedError(e);
            None
        }
        Outcome::UnrecoverableFault(d) => {
            *status = CallStatus::UnrecoverableFault(d);
            None
        }
    }
}

} // verus!
