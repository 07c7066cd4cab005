//! The wall clock.

use vstd::prelude::*;
use vstd::string::StringExecFns;

use crate::interpreter::error::InterpreterError;
use crate::interpreter::error::InterpreterErrorView;
use crate::interpreter::number::number_of_count;
use crate::interpreter::number::number_quotient;
use crate::interpreter::number::number_sum;
use crate::interpreter::number::Number;
use crate::interpreter::object::model::Value;
use crate::interpreter::object::native_object::NativeObject;
use crate::interpreter::object::native_object::duration_nanos;
use crate::interpreter::object::native_object::duration_secs;
use crate::interpreter::object::native_object::since_epoch;
use crate::interpreter::object::native_object::system_now;
use crate::interpreter::object::Object;
use crate::interpreter::yun_callable::YunCallable;
use crate::interpreter::Interpreter;

verus! {

/// The seconds since the Unix epoch, with their fraction.
pub struct ClockFunc;

impl YunCallable for ClockFunc {
    fn call(_interpreter: &mut Interpreter, _arguments: Vec<Object>) -> (r: Result<
        Object,
        InterpreterError,
    >)
        ensures
            final(_interpreter)@ == old(_interpreter)@,
            match r {
                Ok(seconds) => seconds is Number,
                Err(error) => error@ == InterpreterErrorView::Custom(before_epoch_text()),
            },
    {
        let reading = system_now();
        match since_epoch(&reading) {
            Some(span) => Ok(seconds_result(duration_secs(&span), duration_nanos(&span))),
            None => Err(InterpreterError::Custom(before_epoch())),
        }
    }

    fn arity() -> (r: usize)
        ensures
            r == 0,
    {
        0
    }
}

/// The seconds of a span of `secs` whole seconds and `nanos` nanoseconds
/// beyond them: the whole seconds plus the nanoseconds over 10^9, each
/// step rounded to a double.
pub open spec fn seconds_value(secs: u64, nanos: u32) -> Value {
    Value::Number(
        number_sum(
            number_of_count(secs as u128),
            number_quotient(number_of_count(nanos as u128), number_of_count(1_000_000_000)),
        ),
    )
}

/// What `ClockFunc` gives for the time since the epoch that the host
/// told.
pub fn seconds_result(secs: u64, nanos: u32) -> (r: Object)
    ensures
        r@ == seconds_value(secs, nanos),
{
    let whole = Number::from_count(secs as u128);
    let part = Number::from_count(nanos as u128);
    let fraction = part.divided_by(&Number::from_count(1_000_000_000));
    Object::Number(whole.plus(&fraction))
}

/// What `clock()` gives for a reading of the wall clock: the whole
/// microseconds between the epoch and the reading, and 0 for a reading
/// before the epoch, which has none.
pub open spec fn clock_value(micros: Option<u128>) -> Value {
    Value::Number(
        number_of_count(
            match micros {
                Some(count) => count,
                None => 0,
            },
        ),
    )
}

/// What `elapsed(..)` gives for the whole microseconds that the host
/// counted since the reading in its argument.
pub open spec fn elapsed_value(micros: u128) -> Value {
    Value::Number(number_of_count(micros))
}

/// The value of `clock()` for the time that the host told.
pub fn clock_result(micros: Option<u128>) -> (r: Object)
    ensures
        r@ == clock_value(micros),
{
    match micros {
        Some(count) => Object::Number(Number::from_count(count)),
        None => Object::Number(Number::from_count(0)),
    }
}

/// The value of `elapsed(..)` for the time that the host told.
pub fn elapsed_result(micros: u128) -> (r: Object)
    ensures
        r@ == elapsed_value(micros),
{
    Object::Number(Number::from_count(micros))
}

/// The value of `instant()` for the reading that the host handed out: a
/// handle to that reading.
pub fn instant_result(reading: std::time::Instant) -> (r: Object)
    ensures
        r@ is NativeObject,
        r@->NativeObject_0.value() == reading,
{
    Object::NativeObject(NativeObject::new(reading))
}

/// What the clock says where the host's reading lies before the epoch.
pub open spec fn before_epoch_text() -> Seq<char> {
    "second time provided was later than self"@
}

fn before_epoch() -> (r: String)
    ensures
        r@ == before_epoch_text(),
{
    String::from_str("second time provided was later than self")
}

} // verus!
