//! The exported functions and objects this library puts across the
//! boundary, and the values their computations produce.
//!
//! A synchronous export runs to its value inside its invoke entry. An
//! asynchronous export suspends on the executor — the suspension itself
//! lives outside this library, driven through the bridge — and the
//! functions here compute the value its completion delivers.

use vstd::prelude::*;
use vstd::string::StringExecFns;
use crate::abi::{AbiValue, AbiV, ConversionFault};
use crate::registry::ObjectRegistry;

verus! {

/// The uppercase form of a character sequence. Relied on below: the
/// mapping depends on the characters alone.
pub uninterp spec fn upper_of(s: Seq<char>) -> Seq<char>;

/// Relies on str::to_uppercase: the result depends on the characters
/// alone (the mapping is fixed by the Unicode tables compiled in, not by
/// any locale or environment).
#[verifier::external_body]
fn to_upper(s: &str) -> (r: String)
    ensures
        r@ == upper_of(s@),
{
    s.to_uppercase()
}

/// Greet someone by name.
pub fn greet(who: String) -> (r: String)
    ensures
        r@ == "Hello, "@ + who@,
{
    let mut s = "Hello, ".to_owned();
    s.append(who.as_str());
    s
}

/// The value an `always_ready` invocation completes with: it suspends on
/// nothing and is ready at once.
pub fn always_ready() -> (r: bool)
    ensures
        r == true,
{
    true
}

/// The value a `void` invocation completes with: nothing.
pub fn void() -> (r: ())
{
}

/// The value a `say` invocation completes with, once its fixed interval
/// has elapsed on the executor.
pub fn say() -> (r: String)
    ensures
        r@ == "Hello, Future!"@,
{
    "Hello, Future!".to_owned()
}

/// The value a `say_after` invocation completes with, once its interval
/// has elapsed on the executor.
pub fn say_after_message(who: &str) -> (r: String)
    ensures
        r@ == "Hello, "@ + who@ + "!"@,
{
    let mut s = "Hello, ".to_owned();
    s.append(who);
    s.append("!");
    proof {
        assert(s@ =~= "Hello, "@ + who@ + "!"@);
    }
    s
}

/// The value a `sleep` invocation completes with, once its interval has
/// elapsed on the executor.
pub fn sleep() -> (r: bool)
    ensures
        r == true,
{
    true
}

/// The value a `say_after_with_tokio` invocation completes with; the
/// signature's directive runs its suspension on the named alternate
/// executor, which changes nothing about the value.
pub fn say_after_with_tokio_message(who: &str) -> (r: String)
    ensures
        r@ == "Hello, "@ + who@ + " (with Tokio)!"@,
{
    let mut s = "Hello, ".to_owned();
    s.append(who);
    s.append(" (with Tokio)!");
    proof {
        assert(s@ =~= "Hello, "@ + who@ + " (with Tokio)!"@);
    }
    s
}

/// A megaphone. Be careful with the neighbours.
pub struct Megaphone;

impl Megaphone {
    /// The value a megaphone's `say_after` invocation completes with: what
    /// a plain `say_after` would say, yelled.
    pub fn say_after_message(&self, who: &str) -> (r: String)
        ensures
            r@ == upper_of("Hello, "@ + who@ + "!"@),
    {
        let quiet = say_after_message(who);
        to_upper(quiet.as_str())
    }
}

/// Make a new megaphone and export it: the boundary keeps it alive under
/// the fresh handle this returns, with one reference.
pub fn new_megaphone(reg: &mut ObjectRegistry) -> (h: u64)
    requires
        old(reg).wf(),
        old(reg).spec_issued() < u64::MAX,
    ensures
        final(reg).wf(),
        !old(reg).live_set().contains(h),
        final(reg).live_set() =~= old(reg).live_set().insert(h),
        final(reg).spec_count(h) == 1,
{
    reg.register()
}

/// The declared error type of the fallible export.
#[derive(Clone, Copy, PartialEq, Eq, Structural, Debug)]
pub enum MyError {
    Foo,
}

/// The boundary representation of a declared error value: its
/// discriminant as a scalar.
pub open spec fn spec_lower_my_error(e: MyError) -> AbiV {
    AbiV::Scalar(0)
}

/// Lower a declared error value for the status channel.
pub fn lower_my_error(e: MyError) -> (r: AbiValue)
    ensures
        r@ == spec_lower_my_error(e),
{
    match e {
        MyError::Foo => AbiValue::Scalar(0),
    }
}

/// Lift a declared error value back; fails on a scalar that is no
/// variant's discriminant, or on a value of the wrong shape.
pub fn lift_my_error(v: &AbiValue) -> (r: Result<MyError, ConversionFault>)
    ensures
        match r {
            Ok(e) => v@ == spec_lower_my_error(e),
            Err(f) => (forall|e: MyError| v@ != spec_lower_my_error(e)) && (f
                == ConversionFault::OutOfRange <==> v@ is Scalar),
        },
{
    match v {
        AbiValue::Scalar(u) => {
            if *u == 0 {
                Ok(MyError::Foo)
            } else {
                Err(ConversionFault::OutOfRange)
            }
        }
        _ => Err(ConversionFault::WrongShape),
    }
}

/// The fallible export's own body: fail when asked to, else answer.
pub fn fallible_me(do_fail: bool) -> (r: Result<u8, MyError>)
    ensures
        do_fail ==> r == Err::<u8, MyError>(MyError::Foo),
        !do_fail ==> r == Ok::<u8, MyError>(42u8),
{
    if do_fail {
        Err(MyError::Foo)
    } else {
        Ok(42)
    }
}

} // verus!
