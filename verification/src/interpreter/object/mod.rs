//! Runtime values and the operators of the language on them.

pub mod callable;
pub mod class;
pub mod instance;
pub mod model;
pub mod native_object;

use std::rc::Rc;
use vstd::prelude::*;
use vstd::string::StringExecFns;

use crate::interpreter::ast::stmt::Fun;
use crate::interpreter::error::InterpreterError;
use crate::interpreter::error::RuntimeErrorType;
use crate::interpreter::Interpreter;
use crate::utils::IdAllocator;
use crate::interpreter::error::RuntimeErrorTypeView;
use crate::interpreter::object::callable::Behaviour;
use crate::interpreter::object::callable::Callable;
use crate::interpreter::object::class::Class;
use crate::interpreter::object::class::Method;
use crate::interpreter::object::instance::Instance;
use crate::interpreter::object::model::difference;
use crate::interpreter::object::model::display;
use crate::interpreter::object::model::display_item;
use crate::interpreter::object::model::display_items;
use crate::interpreter::object::model::equal;
use crate::interpreter::object::model::inner;
use crate::interpreter::object::model::logical_not;
use crate::interpreter::object::model::negated;
use crate::interpreter::object::model::number_order;
use crate::interpreter::object::model::order;
use crate::interpreter::object::model::product;
use crate::interpreter::object::model::quoted;
use crate::interpreter::object::model::quotient;
use crate::interpreter::object::model::sum;
use crate::interpreter::object::model::text_order;
use crate::interpreter::object::model::truthy;
use crate::interpreter::object::model::kind_name;
use crate::interpreter::object::model::BehaviourView;
use crate::interpreter::object::model::CallableView;
use crate::interpreter::object::model::ClassView;
use crate::interpreter::object::model::InstanceView;
use crate::interpreter::object::model::Order;
use crate::interpreter::object::model::Value;
use crate::interpreter::object::native_object::NativeObject;
use crate::interpreter::number::Number;
use crate::interpreter::scanner::token::literal::Object as Literal;
use crate::interpreter::scanner::token::literal::ObjectView as LiteralView;
use crate::interpreter::text::chars_of;
use crate::interpreter::text::push_text;
use crate::interpreter::text::share;

verus! {

/// A runtime value.
#[derive(Debug)]
pub enum Object {
    String(String),
    Number(Number),
    Bool(bool),
    Callable(Callable),
    Class(Rc<Class>),
    Instance(Instance),
    NativeObject(NativeObject),
    /// A value behind a shared handle.
    Shared(Rc<Object>),
    Nil,
    /// The result of a statement.
    Void,
    List(Vec<Object>),
}

/// The value that an object stands for.
pub open spec fn object_view(o: Object) -> Value
    decreases o, 0int,
{
    match o {
        Object::String(s) => Value::String(s@),
        Object::Number(n) => Value::Number(n.bits()),
        Object::Bool(b) => Value::Bool(b),
        Object::Callable(c) => Value::Callable(callable_view(c)),
        Object::Class(class) => Value::Class(class_view(*class)),
        Object::Instance(instance) => Value::Instance(
            InstanceView { class: class_view(*instance.class), fields: instance.fields },
        ),
        Object::NativeObject(native) => Value::NativeObject(native),
        Object::Shared(x) => Value::Shared(Box::new(object_view(*x))),
        Object::Nil => Value::Nil,
        Object::Void => Value::Void,
        Object::List(items) => Value::List(values_of(items)),
    }
}

/// The values that a vector of objects stands for.
pub open spec fn values_of(items: Vec<Object>) -> Seq<Value>
    decreases items, 0int,
{
    Seq::new(
        items.len() as nat,
        |i: int|
            if 0 <= i < items.len() {
                object_view(items[i])
            } else {
                Value::Nil
            },
    )
}

/// The callable that an executable callable stands for.
pub open spec fn callable_view(c: Callable) -> CallableView
    decreases c, 0int,
{
    CallableView {
        id: c.id,
        declaration: match c.declaration {
            Some(declaration) => Some(crate::interpreter::ast::view::fun_view(*declaration)),
            None => None,
        },
        closure: c.closure,
        behaviour: match c.behaviour {
            Behaviour::Function => BehaviourView::Function,
            Behaviour::Construct(class) => BehaviourView::Construct(class_view(*class)),
            Behaviour::Native(native) => BehaviourView::Native(native),
        },
        is_init: c.is_init,
    }
}

/// The class that an executable class stands for.
pub open spec fn class_view(class: Class) -> ClassView
    decreases class, 0int,
{
    ClassView {
        id: class.id,
        name: class.name@,
        methods: methods_view(class.methods, class.methods.len() as int),
        superclass: match class.superclass {
            Some(superclass) => Some(Box::new(class_view(*superclass))),
            None => None,
        },
    }
}

/// The methods that the first `n` entries of a method table stand for:
/// a later entry for a name replaces an earlier one.
pub open spec fn methods_view(methods: Vec<Method>, n: int) -> Map<Seq<char>, CallableView>
    decreases methods, n,
{
    if 0 < n <= methods.len() {
        methods_view(methods, n - 1).insert(
            methods[n - 1].name@,
            callable_view(methods[n - 1].function),
        )
    } else {
        Map::empty()
    }
}

impl View for Object {
    type V = Value;

    open spec fn view(&self) -> Value {
        object_view(*self)
    }
}

/// The result of the model that an executable result stands for.
pub open spec fn model_of(r: Result<Object, RuntimeErrorType>) -> Result<
    Value,
    RuntimeErrorTypeView,
> {
    match r {
        Ok(value) => Ok(value@),
        Err(error) => Err(error@),
    }
}

/// Whether an executable result stands for a result of the model.
pub open spec fn stands_for(
    r: Result<Object, RuntimeErrorType>,
    m: Result<Value, RuntimeErrorTypeView>,
) -> bool {
    model_of(r) == m
}

/// `std`'s `Debug` for `str`: the text between double quotes, with its
/// special characters escaped.
#[verifier::external_body]
fn debug_quoted(text: &str) -> (r: String)
    ensures
        r@ == quoted(text@),
{
    format!("{:?}", text)
}

/// A copy of the objects.
fn clone_objects(items: &Vec<Object>) -> (r: Vec<Object>)
    ensures
        values_of(r) == values_of(*items),
        r.len() == items.len(),
    decreases items, 1int,
{
    let mut out: Vec<Object> = Vec::new();
    let mut i: usize = 0;
    while i < items.len()
        invariant
            i <= items.len(),
            out.len() == i,
            forall|k: int| 0 <= k < i ==> object_view(out[k]) == object_view(items[k]),
        decreases items.len() - i,
    {
        out.push(items[i].clone());
        i += 1;
    }
    assert(values_of(out) =~= values_of(*items));
    out
}

impl Clone for Object {
    fn clone(&self) -> (r: Self)
        ensures
            r@ == self@,
        decreases self, 0int,
    {
        match self {
            Object::String(s) => Object::String(s.clone()),
            Object::Number(n) => Object::Number(*n),
            Object::Bool(b) => Object::Bool(*b),
            Object::Callable(c) => Object::Callable(c.clone()),
            Object::Class(class) => Object::Class(share(class)),
            Object::Instance(instance) => Object::Instance(instance.clone()),
            Object::NativeObject(native) => Object::NativeObject(native.clone()),
            Object::Shared(x) => Object::Shared(share(x)),
            Object::Nil => Object::Nil,
            Object::Void => Object::Void,
            Object::List(items) => Object::List(clone_objects(items)),
        }
    }
}

/// The order of two texts.
fn compare_texts(a: &str, b: &str) -> (r: Order)
    ensures
        r == text_order(a@, b@),
{
    let x = chars_of(a);
    let y = chars_of(b);
    assert(x@.skip(0) =~= x@);
    assert(y@.skip(0) =~= y@);
    let mut i: usize = 0;
    while i < x.len() && i < y.len()
        invariant
            i <= x.len(),
            i <= y.len(),
            x@ == a@,
            y@ == b@,
            text_order(a@, b@) == text_order(x@.skip(i as int), y@.skip(i as int)),
        decreases x.len() - i,
    {
        assert(x@.skip(i as int)[0] == x@[i as int]);
        assert(y@.skip(i as int)[0] == y@[i as int]);
        assert(x@.skip(i as int).skip(1) =~= x@.skip(i + 1));
        assert(y@.skip(i as int).skip(1) =~= y@.skip(i + 1));
        if x[i] < y[i] {
            return Order::Less;
        }
        if x[i] > y[i] {
            return Order::Greater;
        }
        i += 1;
    }
    if i < y.len() {
        Order::Less
    } else if i < x.len() {
        Order::Greater
    } else {
        Order::Equal
    }
}

/// The order of two numbers.
fn compare_numbers(a: &Number, b: &Number) -> (r: Order)
    ensures
        r == number_order(a.bits(), b.bits()),
{
    if a.is_nan() || b.is_nan() {
        Order::Unordered
    } else if a.less_than(b) {
        Order::Less
    } else if b.less_than(a) {
        Order::Greater
    } else {
        Order::Equal
    }
}

/// How the objects `items[from..]` are written in a list.
fn items_text(items: &Vec<Object>, out: &mut String)
    ensures
        final(out)@ == old(out)@ + display_items(values_of(*items), 0),
    decreases items, 1int,
{
    let ghost values = values_of(*items);
    let mut i: usize = 0;
    while i < items.len()
        invariant
            i <= items.len(),
            values == values_of(*items),
            old(out)@ + display_items(values, 0) == out@ + display_items(values, i as int),
        decreases items.len() - i,
    {
        let ghost before = out@;
        if i > 0 {
            out.push(',');
            out.push(' ');
        }
        let text = match &items[i] {
            Object::String(s) => debug_quoted(s.as_str()),
            other => other.to_string(),
        };
        push_text(out, text.as_str());
        assert(text@ == display_item(values[i as int]));
        i += 1;
        assert(before + display_items(values, i - 1) =~= out@ + display_items(values, i as int));
    }
}

impl Object {
    /// The runtime value of a literal.
    pub fn literal(value: &Literal) -> (r: Object)
        ensures
            r@ == (match value@ {
                LiteralView::String(s) => Value::String(s),
                LiteralView::Number(bits) => Value::Number(bits),
                LiteralView::Bool(b) => Value::Bool(b),
                LiteralView::Nil => Value::Nil,
            }),
    {
        match value {
            Literal::String(s) => Object::String(s.clone()),
            Literal::Number(n) => Object::Number(*n),
            Literal::Bool(b) => Object::Bool(*b),
            Literal::Nil => Object::Nil,
        }
    }

    /// The closure of `stmt` over the frame `closure`.
    pub fn function(stmt: Rc<Fun>, closure: Option<usize>, is_init: bool) -> (r: Object)
        ensures
            r@ == Value::Callable(
                crate::interpreter::semantics::closure_of(
                    crate::interpreter::ast::view::fun_view(*stmt),
                    closure,
                    is_init,
                ),
            ),
    {
        Object::Callable(Callable::new(Some(stmt), closure, is_init))
    }

    /// A class with the next identifier of `ids`.
    pub fn class(
        ids: &mut IdAllocator,
        name: &str,
        methods: Vec<Method>,
        superclass: Option<Rc<Class>>,
    ) -> (r: Object)
        ensures
            r matches Object::Class(class) && *class == (Class {
                id: old(ids).upcoming(),
                name: class.name,
                methods,
                superclass,
            }) && class.name@ == name@,
            final(ids).upcoming() == crate::utils::following(old(ids).upcoming()),
    {
        Object::Class(Rc::new(Class::new(ids, String::from_str(name), methods, superclass)))
    }

    /// Binds the method `self` to the instance `obj`.
    pub fn bind(&self, interpreter: &mut Interpreter, obj: Instance) -> (r: Result<
        Object,
        InterpreterError,
    >)
        requires
            self is Callable,
        ensures
            final(interpreter)@.heard == old(interpreter)@.heard,
            final(interpreter)@ == crate::interpreter::semantics::bind(
                old(interpreter)@,
                self->Callable_0@,
                obj@,
            ).machine,
            r is Ok,
            r->Ok_0@ == Value::Callable(
                crate::interpreter::semantics::bind(
                    old(interpreter)@,
                    self->Callable_0@,
                    obj@,
                ).callable,
            ),
    {
        match self {
            Object::Callable(callable) => Ok(Object::Callable(interpreter.bind(callable, &obj))),
            _ => Ok(Object::Nil),
        }
    }

    /// The name of the type of the value, as diagnostics write it.
    pub fn get_type(&self) -> (r: String)
        ensures
            r@ == kind_name(self@),
        decreases self,
    {
        match self {
            Object::String(_) => String::from_str("string"),
            Object::Number(_) => String::from_str("number"),
            Object::Bool(_) => String::from_str("boolean"),
            Object::Nil => String::from_str("nil"),
            Object::Void => String::from_str("void"),
            Object::Callable(_) => String::from_str("<callable>"),
            Object::Class(class) => class.to_string(),
            Object::Instance(instance) => instance.to_string(),
            Object::NativeObject(_) => String::from_str("<native object>"),
            Object::Shared(x) => x.get_type(),
            Object::List(_) => String::from_str("list"),
        }
    }

    /// How the value is written.
    pub fn to_string(&self) -> (r: String)
        ensures
            r@ == display(self@),
        decreases self, 0int,
    {
        match self {
            Object::String(s) => s.clone(),
            Object::Number(n) => n.to_string(),
            Object::Bool(b) => if *b {
                String::from_str("true")
            } else {
                String::from_str("false")
            },
            Object::Nil => String::from_str("nil"),
            Object::Void => String::new(),
            Object::Callable(c) => c.to_string(),
            Object::Class(class) => class.to_string(),
            Object::Instance(instance) => instance.to_string(),
            Object::NativeObject(_) => String::from_str("<native object>"),
            Object::Shared(x) => x.to_string(),
            Object::List(items) => {
                let mut out = String::new();
                out.push('[');
                items_text(items, &mut out);
                out.push(']');
                assert(out@ =~= display(self@));
                out
            },
        }
    }

    /// The value behind every shared handle around `self`.
    pub fn inner(&self) -> (r: &Object)
        ensures
            r@ == inner(self@),
            !(r is Shared),
        decreases self,
    {
        match self {
            Object::Shared(x) => x.inner(),
            _ => self,
        }
    }

    /// A copy of the value behind the outermost shared handle, or of the
    /// value itself where it is behind none.
    pub fn clone_into_rc(&self) -> (r: Object)
        ensures
            r@ == (match self@ {
                Value::Shared(x) => *x,
                other => other,
            }),
    {
        match self {
            Object::Shared(x) => (**x).clone(),
            _ => self.clone(),
        }
    }

    /// `!self`.
    pub fn not(&self) -> (r: Object)
        ensures
            r@ == Value::Bool(logical_not(self@)),
    {
        match self {
            Object::Bool(b) => Object::Bool(!*b),
            Object::Nil => Object::Bool(true),
            Object::Void => Object::Bool(true),
            _ => Object::Bool(false),
        }
    }

    /// Whether a condition holds of the value.
    pub fn is_truly(&self) -> (r: bool)
        ensures
            r == truthy(self@),
    {
        match self {
            Object::Bool(b) => *b,
            Object::Nil => false,
            Object::Void => false,
            _ => true,
        }
    }

    /// `-self`.
    pub fn negated(&self) -> (r: Result<Object, RuntimeErrorType>)
        ensures
            stands_for(r, negated(self@)),
    {
        match self.inner() {
            Object::Number(n) => Ok(Object::Number(n.negated())),
            _ => Err(RuntimeErrorType::CannotNegateType(self.get_type())),
        }
    }

    /// `self + rhs`.
    pub fn plus(&self, rhs: &Object) -> (r: Result<Object, RuntimeErrorType>)
        ensures
            stands_for(r, sum(self@, rhs@)),
    {
        match self.inner() {
            Object::List(items) => {
                let mut longer = clone_objects(items);
                longer.push(rhs.clone());
                assert(values_of(longer) =~= values_of(*items).push(rhs@));
                Ok(Object::List(longer))
            },
            Object::Number(x) => match rhs.inner() {
                Object::Number(y) => Ok(Object::Number(x.plus(y))),
                _ => Err(RuntimeErrorType::CannotAddTypes(self.get_type(), rhs.get_type())),
            },
            Object::String(x) => match rhs.inner() {
                Object::String(y) => {
                    let mut joined = x.clone();
                    push_text(&mut joined, y.as_str());
                    Ok(Object::String(joined))
                },
                _ => Err(RuntimeErrorType::CannotAddTypes(self.get_type(), rhs.get_type())),
            },
            _ => Err(RuntimeErrorType::CannotAddTypes(self.get_type(), rhs.get_type())),
        }
    }

    /// `self - rhs`.
    pub fn minus(&self, rhs: &Object) -> (r: Result<Object, RuntimeErrorType>)
        ensures
            stands_for(r, difference(self@, rhs@)),
    {
        match self.inner() {
            Object::Number(x) => match rhs.inner() {
                Object::Number(y) => Ok(Object::Number(x.minus(y))),
                _ => Err(RuntimeErrorType::CannotSubtractTypes(self.get_type(), rhs.get_type())),
            },
            _ => Err(RuntimeErrorType::CannotSubtractTypes(self.get_type(), rhs.get_type())),
        }
    }

    /// `self * rhs`.
    pub fn times(&self, rhs: &Object) -> (r: Result<Object, RuntimeErrorType>)
        ensures
            stands_for(r, product(self@, rhs@)),
    {
        match self.inner() {
            Object::Number(x) => match rhs.inner() {
                Object::Number(y) => Ok(Object::Number(x.times(y))),
                _ => Err(RuntimeErrorType::CannotMultiplyTypes(self.get_type(), rhs.get_type())),
            },
            _ => Err(RuntimeErrorType::CannotMultiplyTypes(self.get_type(), rhs.get_type())),
        }
    }

    /// `self / rhs`.
    pub fn divided_by(&self, rhs: &Object) -> (r: Result<Object, RuntimeErrorType>)
        ensures
            stands_for(r, quotient(self@, rhs@)),
    {
        match self.inner() {
            Object::Number(x) => match rhs.inner() {
                Object::Number(y) => Ok(Object::Number(x.divided_by(y))),
                _ => Err(RuntimeErrorType::CannotDivideTypes(self.get_type(), rhs.get_type())),
            },
            _ => Err(RuntimeErrorType::CannotDivideTypes(self.get_type(), rhs.get_type())),
        }
    }

    /// `self == rhs`.
    pub fn equals(&self, rhs: &Object) -> (r: bool)
        ensures
            r == equal(self@, rhs@),
    {
        match self.inner() {
            Object::Number(x) => match rhs.inner() {
                Object::Number(y) => x.equals(y),
                _ => false,
            },
            Object::String(x) => match rhs.inner() {
                Object::String(y) => *x == *y,
                _ => false,
            },
            Object::Bool(x) => match rhs.inner() {
                Object::Bool(y) => *x == *y,
                _ => false,
            },
            Object::Nil => match rhs.inner() {
                Object::Nil => true,
                _ => false,
            },
            Object::Void => match rhs.inner() {
                Object::Void => true,
                _ => false,
            },
            Object::Callable(x) => match rhs.inner() {
                Object::Callable(y) => x.equals(y),
                _ => false,
            },
            _ => false,
        }
    }

    /// How `self` compares with `rhs`.
    pub fn compare(&self, rhs: &Object) -> (r: Order)
        ensures
            r == order(self@, rhs@),
    {
        match self.inner() {
            Object::Number(x) => match rhs.inner() {
                Object::Number(y) => compare_numbers(x, y),
                _ => Order::Equal,
            },
            Object::String(x) => match rhs.inner() {
                Object::String(y) => compare_texts(x.as_str(), y.as_str()),
                _ => Order::Equal,
            },
            Object::Bool(x) => match rhs.inner() {
                Object::Bool(y) => if *x == *y {
                    Order::Equal
                } else if *y {
                    Order::Less
                } else {
                    Order::Greater
                },
                _ => Order::Equal,
            },
            Object::Nil => match rhs.inner() {
                Object::Nil => Order::Unordered,
                _ => Order::Equal,
            },
            _ => Order::Equal,
        }
    }
}

} // verus!
