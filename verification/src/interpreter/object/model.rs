//! Runtime values as mathematical objects, and what the operators of the
//! language mean on them.

use vstd::prelude::*;

use crate::interpreter::ast::view::FunView;
use crate::interpreter::error::RuntimeErrorTypeView;
use crate::interpreter::number::is_nan;
use crate::interpreter::number::number_difference;
use crate::interpreter::number::number_equal;
use crate::interpreter::number::number_less;
use crate::interpreter::number::number_product;
use crate::interpreter::number::number_quotient;
use crate::interpreter::number::number_sum;
use crate::interpreter::number::SIGN_BIT;
use crate::interpreter::numeral::number_text;
use crate::interpreter::object::callable::NativeFunction;
use crate::interpreter::object::native_object::NativeObject;
use crate::interpreter::text::decimal;

verus! {

/// A runtime value.
pub enum Value {
    String(Seq<char>),
    Number(u64),
    Bool(bool),
    Callable(CallableView),
    Class(ClassView),
    Instance(InstanceView),
    NativeObject(NativeObject),
    /// A value behind a shared handle; equality, arithmetic and
    /// comparison look through it.
    Shared(Box<Value>),
    Nil,
    /// The result of a statement.
    Void,
    List(Seq<Value>),
}

/// What a callable does when it is called.
pub enum BehaviourView {
    /// Runs the body of its declaration.
    Function,
    /// Makes an instance of the class.
    Construct(ClassView),
    /// Runs a function of the host.
    Native(NativeFunction),
}

/// A callable: a closure, a class seen as its constructor, or a function
/// of the host.
pub struct CallableView {
    pub id: u64,
    pub declaration: Option<FunView>,
    /// The environment in which the closure was made.
    pub closure: Option<usize>,
    pub behaviour: BehaviourView,
    pub is_init: bool,
}

/// A class.
pub struct ClassView {
    pub id: u64,
    pub name: Seq<char>,
    pub methods: Map<Seq<char>, CallableView>,
    pub superclass: Option<Box<ClassView>>,
}

/// An instance: its class, and where its fields live.
pub struct InstanceView {
    pub class: ClassView,
    pub fields: usize,
}

/// The value behind every shared handle around `v`.
pub open spec fn inner(v: Value) -> Value
    decreases v,
{
    match v {
        Value::Shared(x) => inner(*x),
        _ => v,
    }
}

/// The method `name` of a class: its own, or else the one that its
/// superclass chain gives.
pub open spec fn find_method(class: ClassView, name: Seq<char>) -> Option<CallableView>
    decreases class,
{
    if class.methods.contains_key(name) {
        Some(class.methods[name])
    } else {
        match class.superclass {
            Some(superclass) => find_method(*superclass, name),
            None => None,
        }
    }
}

/// The name of a function of the host.
pub open spec fn native_name(native: NativeFunction) -> Seq<char> {
    match native {
        NativeFunction::Get => "get"@,
        NativeFunction::Clock => "clock"@,
        NativeFunction::Panic => "panic"@,
        NativeFunction::Text => "string"@,
        NativeFunction::Exit => "exit"@,
        NativeFunction::ExitWithCode => "exitWithCode"@,
        NativeFunction::Instant => "instant"@,
        NativeFunction::Elapsed => "elapsed"@,
    }
}

/// How many arguments a function of the host takes.
pub open spec fn native_arity(native: NativeFunction) -> nat {
    match native {
        NativeFunction::Get => 2,
        NativeFunction::Clock => 0,
        NativeFunction::Panic => 1,
        NativeFunction::Text => 1,
        NativeFunction::Exit => 0,
        NativeFunction::ExitWithCode => 1,
        NativeFunction::Instant => 0,
        NativeFunction::Elapsed => 1,
    }
}

/// How many parameters the declaration of a callable has.
pub open spec fn declared_arity(c: CallableView) -> nat {
    match c.declaration {
        Some(declaration) => declaration.params.len() as nat,
        None => 0,
    }
}

/// How many arguments a callable takes: the parameters of a function,
/// the parameters of `init` for a class, none for a class without it.
pub open spec fn arity(c: CallableView) -> nat {
    match c.behaviour {
        BehaviourView::Function => declared_arity(c),
        BehaviourView::Native(native) => native_arity(native),
        BehaviourView::Construct(class) => match find_method(class, "init"@) {
            Some(init) => declared_arity(init),
            None => 0,
        },
    }
}

/// The name of a callable.
pub open spec fn callable_name(c: CallableView) -> Seq<char> {
    match c.behaviour {
        BehaviourView::Function => match c.declaration {
            Some(declaration) => declaration.name.lexeme,
            None => Seq::<char>::empty(),
        },
        BehaviourView::Native(native) => native_name(native),
        BehaviourView::Construct(class) => class.name,
    }
}

/// The name of the type of a value, as diagnostics write it.
pub open spec fn kind_name(v: Value) -> Seq<char>
    decreases v,
{
    match v {
        Value::String(_) => "string"@,
        Value::Number(_) => "number"@,
        Value::Bool(_) => "boolean"@,
        Value::Nil => "nil"@,
        Value::Void => "void"@,
        Value::Callable(_) => "<callable>"@,
        Value::Class(class) => class.name,
        Value::Instance(instance) => instance.class.name + " instance"@,
        Value::NativeObject(_) => "<native object>"@,
        Value::Shared(x) => kind_name(*x),
        Value::List(_) => "list"@,
    }
}

/// A text between double quotes with its special characters escaped, as
/// the host writes a text for inspection.
pub uninterp spec fn quoted(text: Seq<char>) -> Seq<char>;

/// How a callable is written.
pub open spec fn callable_text(c: CallableView) -> Seq<char> {
    "<function#"@ + decimal(c.id as nat) + seq![' '] + callable_name(c) + seq!['>']
}

/// How a value is written: by `print`, by `string(..)`, and in messages.
pub open spec fn display(v: Value) -> Seq<char>
    decreases v, 0int,
{
    match v {
        Value::String(s) => s,
        Value::Number(bits) => number_text(bits),
        Value::Bool(b) => if b {
            "true"@
        } else {
            "false"@
        },
        Value::Nil => "nil"@,
        Value::Void => Seq::<char>::empty(),
        Value::Callable(c) => callable_text(c),
        Value::Class(class) => class.name,
        Value::Instance(instance) => instance.class.name + " instance"@,
        Value::NativeObject(_) => "<native object>"@,
        Value::Shared(x) => display(*x),
        Value::List(items) => seq!['['] + display_items(items, 0) + seq![']'],
    }
}

/// How an element of a list is written: a text between quotes, any other
/// value as `display` writes it.
pub open spec fn display_item(v: Value) -> Seq<char>
    decreases v, 1int,
{
    match v {
        Value::String(s) => quoted(s),
        _ => display(v),
    }
}

/// The elements `items[from..]` as a list shows them, with `, ` between
/// them.
pub open spec fn display_items(items: Seq<Value>, from: int) -> Seq<char>
    decreases items, items.len() - from,
{
    if 0 <= from < items.len() {
        (if from > 0 {
            seq![',', ' ']
        } else {
            Seq::<char>::empty()
        }) + display_item(items[from]) + display_items(items, from + 1)
    } else {
        Seq::<char>::empty()
    }
}

/// `!v`: the opposite of a boolean; true for `nil` and for the result of
/// a statement; false for every other value.
pub open spec fn logical_not(v: Value) -> bool {
    match v {
        Value::Bool(b) => !b,
        Value::Nil => true,
        Value::Void => true,
        _ => false,
    }
}

/// Whether a condition holds of `v`: `!!v`.
pub open spec fn truthy(v: Value) -> bool {
    !logical_not(v)
}

/// `-v`: defined on numbers only.
pub open spec fn negated(v: Value) -> Result<Value, RuntimeErrorTypeView> {
    match inner(v) {
        Value::Number(bits) => Ok(Value::Number(bits ^ SIGN_BIT)),
        _ => Err(RuntimeErrorTypeView::CannotNegateType(kind_name(v))),
    }
}

/// `l + r`: the sum of two numbers, two texts one behind the other, or a
/// list with one more element at its end.
pub open spec fn sum(l: Value, r: Value) -> Result<Value, RuntimeErrorTypeView> {
    match inner(l) {
        Value::List(items) => Ok(Value::List(items.push(r))),
        a => match (a, inner(r)) {
            (Value::Number(x), Value::Number(y)) => Ok(Value::Number(number_sum(x, y))),
            (Value::String(x), Value::String(y)) => Ok(Value::String(x + y)),
            _ => Err(RuntimeErrorTypeView::CannotAddTypes(kind_name(l), kind_name(r))),
        },
    }
}

/// `l - r`: defined on two numbers.
pub open spec fn difference(l: Value, r: Value) -> Result<Value, RuntimeErrorTypeView> {
    match (inner(l), inner(r)) {
        (Value::Number(x), Value::Number(y)) => Ok(Value::Number(number_difference(x, y))),
        _ => Err(RuntimeErrorTypeView::CannotSubtractTypes(kind_name(l), kind_name(r))),
    }
}

/// `l * r`: defined on two numbers.
pub open spec fn product(l: Value, r: Value) -> Result<Value, RuntimeErrorTypeView> {
    match (inner(l), inner(r)) {
        (Value::Number(x), Value::Number(y)) => Ok(Value::Number(number_product(x, y))),
        _ => Err(RuntimeErrorTypeView::CannotMultiplyTypes(kind_name(l), kind_name(r))),
    }
}

/// `l / r`: defined on two numbers.
pub open spec fn quotient(l: Value, r: Value) -> Result<Value, RuntimeErrorTypeView> {
    match (inner(l), inner(r)) {
        (Value::Number(x), Value::Number(y)) => Ok(Value::Number(number_quotient(x, y))),
        _ => Err(RuntimeErrorTypeView::CannotDivideTypes(kind_name(l), kind_name(r))),
    }
}

/// `l == r`: by value for numbers, texts, booleans, `nil` and the result
/// of a statement; by identifier for callables; false for anything else.
pub open spec fn equal(l: Value, r: Value) -> bool {
    match (inner(l), inner(r)) {
        (Value::Number(x), Value::Number(y)) => number_equal(x, y),
        (Value::String(x), Value::String(y)) => x == y,
        (Value::Bool(x), Value::Bool(y)) => x == y,
        (Value::Nil, Value::Nil) => true,
        (Value::Void, Value::Void) => true,
        (Value::Callable(x), Value::Callable(y)) => x.id == y.id,
        _ => false,
    }
}

/// How two values compare.
#[derive(Clone, Copy, Debug, PartialEq, Eq, Structural)]
pub enum Order {
    Less,
    Equal,
    Greater,
    Unordered,
}

/// The order of two texts: by their first difference, a prefix before
/// what it is a prefix of.
pub open spec fn text_order(a: Seq<char>, b: Seq<char>) -> Order
    decreases a.len(),
{
    if a.len() == 0 {
        if b.len() == 0 {
            Order::Equal
        } else {
            Order::Less
        }
    } else if b.len() == 0 {
        Order::Greater
    } else if a[0] < b[0] {
        Order::Less
    } else if a[0] > b[0] {
        Order::Greater
    } else {
        text_order(a.skip(1), b.skip(1))
    }
}

/// The order of two numbers; a NaN is unordered.
pub open spec fn number_order(a: u64, b: u64) -> Order {
    if is_nan(a) || is_nan(b) {
        Order::Unordered
    } else if number_less(a, b) {
        Order::Less
    } else if number_less(b, a) {
        Order::Greater
    } else {
        Order::Equal
    }
}

/// The order of two values: numbers by value, texts by their characters,
/// `false` before `true`; `nil` and `nil` are unordered; any other pair
/// counts as equal.
pub open spec fn order(l: Value, r: Value) -> Order {
    match (inner(l), inner(r)) {
        (Value::Number(x), Value::Number(y)) => number_order(x, y),
        (Value::String(x), Value::String(y)) => text_order(x, y),
        (Value::Bool(x), Value::Bool(y)) => if x == y {
            Order::Equal
        } else if y {
            Order::Less
        } else {
            Order::Greater
        },
        (Value::Nil, Value::Nil) => Order::Unordered,
        _ => Order::Equal,
    }
}

} // verus!
