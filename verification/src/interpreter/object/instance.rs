//! Instances.

use std::rc::Rc;
use vstd::prelude::*;

use crate::interpreter::environment::agrees;
use crate::interpreter::environment::HeapView;
use crate::interpreter::error::InterpreterError;
use crate::interpreter::object::class::Class;
use crate::interpreter::object::Object;
use crate::interpreter::scanner::token::Token;
use crate::interpreter::semantics::property;
use crate::interpreter::semantics::set_property;
use crate::interpreter::semantics::Machine;
use crate::interpreter::Interpreter;
use crate::interpreter::object::model::InstanceView;
use crate::interpreter::text::push_text;
use crate::interpreter::text::share;

verus! {

/// An instance: its class, and the place of its fields in the heap.
/// Every copy of an instance names the same fields.
#[derive(Debug)]
pub struct Instance {
    pub class: Rc<Class>,
    pub fields: usize,
}

impl View for Instance {
    type V = InstanceView;

    open spec fn view(&self) -> InstanceView {
        InstanceView { class: self.class@, fields: self.fields }
    }
}

impl Clone for Instance {
    fn clone(&self) -> (r: Self)
        ensures
            r == *self,
    {
        Instance { class: share(&self.class), fields: self.fields }
    }
}

impl Instance {
    /// A new instance of `class`, without fields.
    pub fn new(interpreter: &mut Interpreter, class: &Rc<Class>) -> (r: Self)
        ensures
            final(interpreter)@.heard == old(interpreter)@.heard,
            r@ == (InstanceView {
                class: class@,
                fields: old(interpreter)@.heap.instances.len() as usize,
            }),
            final(interpreter)@ == (Machine {
                heap: HeapView {
                    instances: old(interpreter)@.heap.instances.push(Map::empty()),
                    ..old(interpreter)@.heap
                },
                ..old(interpreter)@
            }),
    {
        interpreter.new_instance(class)
    }

    /// The property `name`: a field where the instance has one of that
    /// name, else the method of that name bound to the instance.
    pub fn get(&self, interpreter: &mut Interpreter, name: &Token) -> (r: Result<
        Object,
        InterpreterError,
    >)
        ensures
            final(interpreter)@.heard == old(interpreter)@.heard,
            final(interpreter)@ == property(old(interpreter)@, self@, name@).machine,
            agrees(r, property(old(interpreter)@, self@, name@).result),
    {
        interpreter.get_property(self, name)
    }

    /// Writes the field `name`.
    pub fn set(&self, interpreter: &mut Interpreter, name: &Token, value: Object) -> (r: Result<
        Object,
        InterpreterError,
    >)
        ensures
            final(interpreter)@.heard == old(interpreter)@.heard,
            final(interpreter)@ == set_property(old(interpreter)@, self@, name@, value@).machine,
            agrees(r, set_property(old(interpreter)@, self@, name@, value@).result),
    {
        interpreter.set_property(self, name, value)
    }

    /// How the instance is written: `<class> instance`.
    pub fn to_string(&self) -> (r: String)
        ensures
            r@ == self@.class.name + " instance"@,
    {
        let mut out = self.class.name.clone();
        push_text(&mut out, " instance");
        out
    }
}

} // verus!
