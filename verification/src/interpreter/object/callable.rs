//! Callables: closures, classes seen as constructors, and functions of
//! the host.

use std::rc::Rc;
use vstd::prelude::*;
use vstd::string::StringExecFns;

use crate::interpreter::ast::stmt::Fun;
use crate::interpreter::error::InterpreterError;
use crate::interpreter::object::class::Class;
use crate::interpreter::object::model::Value;
use crate::interpreter::object::values_of;
use crate::interpreter::object::Object;
use crate::interpreter::Interpreter;
use crate::interpreter::object::model::arity;
use crate::interpreter::object::model::callable_name;
use crate::interpreter::object::model::callable_text;
use crate::interpreter::object::model::declared_arity;
use crate::interpreter::object::model::native_arity;
use crate::interpreter::object::model::native_name;
use crate::interpreter::object::model::CallableView;
use crate::interpreter::object::callable_view;
use crate::interpreter::text::push_decimal;
use crate::interpreter::text::push_text;
use crate::interpreter::text::share;

verus! {

/// The functions that the host provides.
#[derive(Clone, Copy, Debug, PartialEq, Eq, Structural)]
pub enum NativeFunction {
    /// `get(list, index)`: the element at `index`, or `nil`.
    Get,
    /// `clock()`: the microseconds since the Unix epoch.
    Clock,
    /// `panic(msg)`: stops the program with `msg`.
    Panic,
    /// `string(v)`: `v` as a text.
    Text,
    /// `exit()`: ends the process with code 0.
    Exit,
    /// `exitWithCode(n)`: ends the process with code `n`.
    ExitWithCode,
    /// `instant()`: a reading of the monotonic clock.
    Instant,
    /// `elapsed(instant)`: the microseconds since a reading.
    Elapsed,
}

/// What a callable does when it is called.
#[derive(Debug)]
pub enum Behaviour {
    /// Runs the body of its declaration.
    Function,
    /// Makes an instance of the class.
    Construct(Rc<Class>),
    /// Runs a function of the host.
    Native(NativeFunction),
}

/// A callable value.
#[derive(Debug)]
pub struct Callable {
    pub id: u64,
    pub declaration: Option<Rc<Fun>>,
    pub closure: Option<usize>,
    pub behaviour: Behaviour,
    pub is_init: bool,
}

impl View for Callable {
    type V = CallableView;

    open spec fn view(&self) -> CallableView {
        callable_view(*self)
    }
}

impl Clone for Callable {
    fn clone(&self) -> (r: Self)
        ensures
            r == *self,
    {
        let declaration = match &self.declaration {
            Some(declaration) => Some(share(declaration)),
            None => None,
        };
        let behaviour = match &self.behaviour {
            Behaviour::Function => Behaviour::Function,
            Behaviour::Construct(class) => Behaviour::Construct(share(class)),
            Behaviour::Native(native) => Behaviour::Native(*native),
        };
        Callable {
            id: self.id,
            declaration,
            closure: self.closure,
            behaviour,
            is_init: self.is_init,
        }
    }
}

impl NativeFunction {
    /// The name under which the function is defined.
    pub fn name(&self) -> (r: String)
        ensures
            r@ == native_name(*self),
    {
        match self {
            NativeFunction::Get => String::from_str("get"),
            NativeFunction::Clock => String::from_str("clock"),
            NativeFunction::Panic => String::from_str("panic"),
            NativeFunction::Text => String::from_str("string"),
            NativeFunction::Exit => String::from_str("exit"),
            NativeFunction::ExitWithCode => String::from_str("exitWithCode"),
            NativeFunction::Instant => String::from_str("instant"),
            NativeFunction::Elapsed => String::from_str("elapsed"),
        }
    }

    /// How many arguments the function takes.
    pub fn arity(&self) -> (r: usize)
        ensures
            r == native_arity(*self),
    {
        match self {
            NativeFunction::Get => 2,
            NativeFunction::Clock => 0,
            NativeFunction::Panic => 1,
            NativeFunction::Text => 1,
            NativeFunction::Exit => 0,
            NativeFunction::ExitWithCode => 1,
            NativeFunction::Instant => 0,
            NativeFunction::Elapsed => 1,
        }
    }
}

impl Callable {
    /// The closure of `declaration` over the environment `closure`; its
    /// identifier is that of the declaration.
    pub fn new(declaration: Option<Rc<Fun>>, closure: Option<usize>, is_init: bool) -> (r: Self)
        requires
            declaration is Some,
        ensures
            r == (Callable {
                id: declaration->0.id,
                declaration,
                closure,
                behaviour: Behaviour::Function,
                is_init,
            }),
    {
        let id = match &declaration {
            Some(declaration) => declaration.id,
            None => 0,
        };
        Self { id, declaration, closure, behaviour: Behaviour::Function, is_init }
    }

    /// A callable put together from its parts.
    pub fn build(
        id: u64,
        declaration: Option<Rc<Fun>>,
        closure: Option<usize>,
        behaviour: Behaviour,
        is_init: bool,
    ) -> (r: Self)
        ensures
            r == (Callable { id, declaration, closure, behaviour, is_init }),
    {
        Self { id, declaration, closure, behaviour, is_init }
    }

    /// Calls the callable with arguments of which there are as many as
    /// it takes, within the budget `fuel`.
    pub fn call(&self, interpreter: &mut Interpreter, arguments: Vec<Object>, fuel: u64) -> (r:
        Result<Object, InterpreterError>)
        ensures
            final(interpreter).kept(old(interpreter)),
            forall|host: Seq<Value>| #[trigger]
                crate::interpreter::semantics::told(host, final(interpreter)@.heard)
                    ==> final(interpreter).follows(
                    r,
                    crate::interpreter::semantics::call(
                        host,
                        old(interpreter)@,
                        self@,
                        values_of(arguments),
                        fuel as int,
                    ),
                ),
            crate::interpreter::settled(r),
            self.behaviour is Construct && r is Ok ==> crate::interpreter::is_instance(
                r->Ok_0,
                self.behaviour->Construct_0,
                old(interpreter)@.heap.instances.len(),
            ),
    {
        interpreter.call(self, arguments, fuel)
    }

    /// How many parameters the declaration has.
    fn declared_arity(&self) -> (r: usize)
        ensures
            r == declared_arity(self@),
    {
        match &self.declaration {
            Some(declaration) => declaration.params.len(),
            None => 0,
        }
    }

    /// How many arguments the callable takes.
    pub fn arity(&self) -> (r: usize)
        ensures
            r == arity(self@),
    {
        match &self.behaviour {
            Behaviour::Function => self.declared_arity(),
            Behaviour::Native(native) => native.arity(),
            Behaviour::Construct(class) => {
                let init = String::from_str("init");
                match class.find_method(init.as_str()) {
                    Some(initializer) => initializer.declared_arity(),
                    None => 0,
                }
            },
        }
    }

    /// The name of the callable.
    pub fn get_string(&self) -> (r: String)
        ensures
            r@ == callable_name(self@),
    {
        match &self.behaviour {
            Behaviour::Function => match &self.declaration {
                Some(declaration) => declaration.name.lexeme.clone(),
                None => String::new(),
            },
            Behaviour::Native(native) => native.name(),
            Behaviour::Construct(class) => class.name.clone(),
        }
    }

    /// The environment in which the closure was made.
    pub fn get_closure(&self) -> (r: Option<usize>)
        ensures
            r == self.closure,
    {
        self.closure
    }

    /// The declaration of the closure.
    pub fn get_declaration(&self) -> (r: Option<Rc<Fun>>)
        ensures
            r == self.declaration,
    {
        match &self.declaration {
            Some(declaration) => Some(share(declaration)),
            None => None,
        }
    }

    /// Whether the callable is the initializer of a class.
    pub fn is_init(&self) -> (r: bool)
        ensures
            r == self.is_init,
    {
        self.is_init
    }

    /// How the callable is written.
    pub fn to_string(&self) -> (r: String)
        ensures
            r@ == callable_text(self@),
    {
        let mut out = String::from_str("<function#");
        push_decimal(&mut out, self.id);
        out.push(' ');
        let name = self.get_string();
        push_text(&mut out, name.as_str());
        out.push('>');
        assert(out@ =~= callable_text(self@));
        out
    }

    /// Whether two callables are the same: they are when their
    /// identifiers are. A bound method has the identifier of its
    /// declaration, so it equals the method that it was bound from, and
    /// every other binding of that method.
    pub fn equals(&self, other: &Callable) -> (r: bool)
        ensures
            r == (self@.id == other@.id),
    {
        self.id == other.id
    }
}

} // verus!
