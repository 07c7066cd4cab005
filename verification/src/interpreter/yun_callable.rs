//! The interface of a function that the host provides.

use vstd::prelude::*;

use crate::interpreter::error::InterpreterError;
use crate::interpreter::object::Object;
use crate::interpreter::Interpreter;

verus! {

/// A function of the host: how many arguments it takes, and what it does
/// with them.
pub trait YunCallable {
    /// Runs the function.
    fn call(interpreter: &mut Interpreter, arguments: Vec<Object>) -> Result<
        Object,
        InterpreterError,
    > where Self: Sized;

    /// How many arguments the function takes.
    fn arity() -> usize where Self: Sized;
}

} // verus!
