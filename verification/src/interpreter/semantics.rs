//! What running a program means: evaluation as a function from the state
//! of the machine and a piece of syntax to the next state and an outcome.
//!
//! Every function takes a budget. Evaluating an expression, executing a
//! statement, a call and a turn of a loop each take one unit from the
//! budget of what they contain; where none is left the outcome is
//! `BudgetExhausted`.
//!
//! Every function also takes the readings of the host's clock, `host`:
//! what the clock says the first time a program asks, the second time,
//! and so on. The machine keeps the readings that it has heard. Where a
//! program asks more often than `host` has readings the model stops,
//! with the outcome `HostClock`, which every step around it hands on as
//! it hands on an error.

use vstd::prelude::*;

use crate::interpreter::ast::view::ExprView;
use crate::interpreter::ast::view::FunView;
use crate::interpreter::ast::view::StmtView;
use crate::interpreter::diagnostics::panic_text;
use crate::interpreter::environment::bound;
use crate::interpreter::environment::fault;
use crate::interpreter::environment::read;
use crate::interpreter::environment::read_at;
use crate::interpreter::environment::written;
use crate::interpreter::environment::written_at;
use crate::interpreter::environment::EnvironmentView;
use crate::interpreter::environment::HeapView;
use crate::interpreter::environment::Outcome;
use crate::interpreter::error::InterpreterErrorView;
use crate::interpreter::error::RuntimeErrorTypeView;
use crate::interpreter::number::number_truncated;
use crate::interpreter::number::number_truncated_i32;
use crate::interpreter::object::callable::NativeFunction;
use crate::interpreter::object::model::arity;
use crate::interpreter::object::model::difference;
use crate::interpreter::object::model::display;
use crate::interpreter::object::model::equal;
use crate::interpreter::object::model::find_method;
use crate::interpreter::object::model::inner;
use crate::interpreter::object::model::kind_name;
use crate::interpreter::object::model::logical_not;
use crate::interpreter::object::model::negated;
use crate::interpreter::object::model::order;
use crate::interpreter::object::model::product;
use crate::interpreter::object::model::quotient;
use crate::interpreter::object::model::sum;
use crate::interpreter::object::model::truthy;
use crate::interpreter::object::model::BehaviourView;
use crate::interpreter::object::model::CallableView;
use crate::interpreter::object::model::ClassView;
use crate::interpreter::object::model::InstanceView;
use crate::interpreter::object::model::Order;
use crate::interpreter::object::model::Value;
use crate::interpreter::scanner::token::literal::ObjectView as LiteralView;
use crate::interpreter::scanner::token::token_type::TokenType;
use crate::interpreter::scanner::token::TokenView;
use crate::utils::following;

verus! {

/// The state of the machine between two steps of an evaluation.
pub struct Machine {
    /// The frames and the fields of the instances.
    pub heap: HeapView,
    /// The frame in which evaluation goes on.
    pub env: usize,
    /// The frame of the globals.
    pub globals: usize,
    /// The scope depth of each resolved reference, by node identifier.
    pub locals: Map<u64, usize>,
    /// The lines printed so far.
    pub output: Seq<Seq<char>>,
    /// The identifier that the next class gets.
    pub next_id: u64,
    /// What the host's clock has told so far, one entry for each reading.
    pub heard: Seq<Value>,
}

/// The machine after an evaluation, and the outcome of the evaluation.
pub struct Step {
    pub machine: Machine,
    pub result: Outcome,
}

/// The machine after a sequence of evaluations, and their values.
pub struct Steps {
    pub machine: Machine,
    pub result: Result<Seq<Value>, InterpreterErrorView>,
}

/// The machine after a method was bound, and the bound method.
pub struct Binding {
    pub machine: Machine,
    pub callable: CallableView,
}

/// The step that leaves the machine `machine` and has the outcome `result`.
pub open spec fn step(machine: Machine, result: Outcome) -> Step {
    Step { machine, result }
}

/// The machine with other frames.
pub open spec fn with_frames(m: Machine, frames: Seq<EnvironmentView>) -> Machine {
    Machine { heap: HeapView { frames, ..m.heap }, ..m }
}

/// The machine with one more frame, empty, inside `enclosing`.
pub open spec fn allocate(m: Machine, enclosing: Option<usize>) -> Machine {
    with_frames(m, m.heap.frames.push(EnvironmentView { values: Map::empty(), enclosing }))
}

/// The machine with `name` bound to `value` in the frame `env`.
pub open spec fn define(m: Machine, env: usize, name: Seq<char>, value: Option<Value>) -> Machine {
    with_frames(m, bound(m.heap.frames, env as int, name, value))
}

/// The value of a literal; a literal that carries nothing is `nil`.
pub open spec fn literal_value(literal: Option<LiteralView>) -> Value {
    match literal {
        Some(LiteralView::String(s)) => Value::String(s),
        Some(LiteralView::Number(bits)) => Value::Number(bits),
        Some(LiteralView::Bool(b)) => Value::Bool(b),
        Some(LiteralView::Nil) => Value::Nil,
        None => Value::Nil,
    }
}

/// An error of the evaluator that no token has been attributed to yet.
pub open spec fn raised(r: Result<Value, RuntimeErrorTypeView>) -> Outcome {
    match r {
        Ok(value) => Ok(value),
        Err(error) => Err(InterpreterErrorView::RuntimeErrorType(error)),
    }
}

/// The outcome with its error attributed to `token`, where it is a
/// runtime error that no token has been attributed to yet. A panic of
/// the program becomes its diagnostic.
pub open spec fn attributed(token: TokenView, r: Outcome) -> Outcome {
    match r {
        Err(InterpreterErrorView::RuntimeErrorType(ty)) => match ty {
            RuntimeErrorTypeView::UserPanicWithMsg(msg) => Err(
                InterpreterErrorView::Custom(panic_text(token, display(msg))),
            ),
            _ => Err(fault(token, ty)),
        },
        _ => r,
    }
}

/// Reading the variable `name` by the node `id`: at its resolved depth
/// where the resolver recorded one, else from the globals.
pub open spec fn lookup(m: Machine, name: TokenView, id: u64) -> Outcome {
    if m.locals.contains_key(id) {
        read_at(m.heap.frames, Some(m.env), m.locals[id] as nat, name)
    } else {
        read(m.heap.frames, m.globals as int, name)
    }
}

/// Assigning `value` to the variable `name` by the node `id`: at its
/// resolved depth where the resolver recorded one, else in the globals.
pub open spec fn store(m: Machine, name: TokenView, id: u64, value: Value) -> Step {
    let frames = if m.locals.contains_key(id) {
        written_at(m.heap.frames, Some(m.env), m.locals[id] as nat, name, value)
    } else {
        written(m.heap.frames, m.globals as int, name, value)
    };
    match frames {
        Ok(frames) => step(with_frames(m, frames), Ok(value)),
        Err(error) => step(m, Err(error)),
    }
}

/// The outcome of a unary operator.
pub open spec fn unary(op: TokenView, v: Value) -> Outcome {
    attributed(
        op,
        if op.token_type == TokenType::Minus {
            raised(negated(v))
        } else if op.token_type == TokenType::Bang {
            Ok(Value::Bool(logical_not(v)))
        } else {
            Err(fault(op, RuntimeErrorTypeView::UnsupportedUnaryOperator(op.lexeme)))
        },
    )
}

/// The outcome of a binary operator on two values.
pub open spec fn binary(op: TokenView, l: Value, r: Value) -> Outcome {
    attributed(
        op,
        match op.token_type {
            TokenType::EqualEqual => Ok(Value::Bool(equal(l, r))),
            TokenType::BangEqual => Ok(Value::Bool(!equal(l, r))),
            TokenType::Greater => Ok(Value::Bool(order(l, r) == Order::Greater)),
            TokenType::Less => Ok(Value::Bool(order(l, r) == Order::Less)),
            TokenType::GreaterEqual => Ok(
                Value::Bool(order(l, r) == Order::Greater || order(l, r) == Order::Equal),
            ),
            TokenType::LessEqual => Ok(
                Value::Bool(order(l, r) == Order::Less || order(l, r) == Order::Equal),
            ),
            TokenType::Plus => raised(sum(l, r)),
            TokenType::Minus => raised(difference(l, r)),
            TokenType::Star => raised(product(l, r)),
            TokenType::Slash => raised(quotient(l, r)),
            _ => Err(fault(op, RuntimeErrorTypeView::UnsupportedBinaryOperator(op.lexeme))),
        },
    )
}

/// The token under which a bound method finds its instance.
pub open spec fn self_token() -> TokenView {
    TokenView {
        token_type: TokenType::Slf,
        lexeme: "self"@,
        literal: None,
        line: 0,
        pos_in_line: 0,
    }
}

/// The token under which an initializer reads the instance that it
/// returns: `self`, at the place of the initializer's name.
pub open spec fn init_self_token(name: TokenView) -> TokenView {
    TokenView {
        token_type: TokenType::Identifier,
        lexeme: "self"@,
        literal: name.literal,
        line: name.line,
        pos_in_line: name.pos_in_line,
    }
}

/// The closure of `declaration` over the frame `closure`.
pub open spec fn closure_of(declaration: FunView, closure: Option<usize>, is_init: bool) -> CallableView {
    CallableView {
        id: declaration.id,
        declaration: Some(declaration),
        closure,
        behaviour: BehaviourView::Function,
        is_init,
    }
}

/// A class seen as the callable that makes its instances.
pub open spec fn constructor(class: ClassView) -> CallableView {
    CallableView {
        id: class.id,
        declaration: None,
        closure: None,
        behaviour: BehaviourView::Construct(class),
        is_init: class.methods.contains_key("init"@),
    }
}

/// Binding `method` to `instance`: a new frame inside the closure of the
/// method holds `self`, and the bound method is the method closed over
/// that frame.
pub open spec fn bind(m: Machine, method: CallableView, instance: InstanceView) -> Binding {
    let frame = m.heap.frames.len() as usize;
    Binding {
        machine: define(
            allocate(m, method.closure),
            frame,
            "self"@,
            Some(Value::Instance(instance)),
        ),
        callable: CallableView { closure: Some(frame), behaviour: BehaviourView::Function, ..method },
    }
}

/// Reading the property `name` of `instance`: a field where the instance
/// has one of that name, else the method of that name bound to the
/// instance.
pub open spec fn property(m: Machine, instance: InstanceView, name: TokenView) -> Step {
    if instance.fields < m.heap.instances.len() && m.heap.instances[instance.fields as int].contains_key(
        name.lexeme,
    ) {
        step(m, Ok(m.heap.instances[instance.fields as int][name.lexeme]))
    } else {
        match find_method(instance.class, name.lexeme) {
            Some(method) => {
                let b = bind(m, method, instance);
                step(b.machine, Ok(Value::Callable(b.callable)))
            },
            None => step(
                m,
                Err(fault(name, RuntimeErrorTypeView::UndefinedProperty(name.lexeme))),
            ),
        }
    }
}

/// Writing the property `name` of `instance`.
pub open spec fn set_property(m: Machine, instance: InstanceView, name: TokenView, value: Value) -> Step {
    if instance.fields < m.heap.instances.len() {
        step(
            Machine {
                heap: HeapView {
                    instances: m.heap.instances.update(
                        instance.fields as int,
                        m.heap.instances[instance.fields as int].insert(name.lexeme, value),
                    ),
                    ..m.heap
                },
                ..m
            },
            Ok(value),
        )
    } else {
        step(m, Err(fault(name, RuntimeErrorTypeView::BugEnvironmentNotInit)))
    }
}

/// `super.method`: the method of the superclass chain, bound to the
/// instance that `self` names one scope inside `super`.
pub open spec fn super_method(m: Machine, id: u64, keyword: TokenView, method: TokenView) -> Step {
    if !m.locals.contains_key(id) || m.locals[id] == 0 {
        step(m, Err(fault(keyword, RuntimeErrorTypeView::BugEnvironmentNotInit)))
    } else {
        let distance = m.locals[id] as nat;
        match read_at(m.heap.frames, Some(m.env), distance, keyword) {
            Err(error) => step(m, Err(error)),
            Ok(superclass) => match read_at(
                m.heap.frames,
                Some(m.env),
                (distance - 1) as nat,
                self_token(),
            ) {
                Err(error) => step(m, Err(error)),
                Ok(instance) => match inner(superclass) {
                    Value::Class(class) => match (find_method(class, method.lexeme), instance) {
                        (Some(found), Value::Instance(instance)) => {
                            let b = bind(m, found, instance);
                            step(b.machine, Ok(Value::Callable(b.callable)))
                        },
                        _ => step(
                            m,
                            Err(
                                fault(
                                    method,
                                    RuntimeErrorTypeView::UndefinedProperty(method.lexeme),
                                ),
                            ),
                        ),
                    },
                    _ => step(m, Err(fault(keyword, RuntimeErrorTypeView::BugEnvironmentNotInit))),
                },
            },
        }
    }
}

/// The callable behind the value that a call expression calls: the
/// constructor for a class, also behind one shared handle; the value
/// itself otherwise.
pub open spec fn callee(v: Value) -> Value {
    match v {
        Value::Class(class) => Value::Callable(constructor(class)),
        Value::Shared(x) => match *x {
            Value::Class(class) => Value::Callable(constructor(class)),
            _ => v,
        },
        _ => v,
    }
}

/// The element of `items` at `index`, counted from 0, or `nil` where the
/// list has none there.
pub open spec fn element(items: Seq<Value>, index: u64) -> Value {
    if index < items.len() {
        items[index as int]
    } else {
        Value::Nil
    }
}

/// `get(list, index)`: the element at `index`, or `nil` where the list
/// has none there or the arguments are no list and number.
pub open spec fn native_get(args: Seq<Value>) -> Outcome {
    Ok(
        if args.len() >= 2 {
            match (args[0], args[1]) {
                (Value::List(items), Value::Number(bits)) => element(items, number_truncated(bits)),
                _ => Value::Nil,
            }
        } else {
            Value::Nil
        },
    )
}

/// `panic(msg)`: a panic of the program that carries `msg`.
pub open spec fn native_panic(args: Seq<Value>) -> Outcome {
    if args.len() >= 1 {
        Err(InterpreterErrorView::RuntimeErrorType(RuntimeErrorTypeView::UserPanicWithMsg(args[0])))
    } else {
        Ok(Value::Nil)
    }
}

/// `string(v)`: `v` as it is written.
pub open spec fn native_text(args: Seq<Value>) -> Outcome {
    Ok(
        if args.len() >= 1 {
            Value::String(display(args[0]))
        } else {
            Value::Nil
        },
    )
}

/// `exitWithCode(n)`: the signal to end the process with the code `n`
/// cut to an integer; `CantToNum` for anything but a number.
pub open spec fn native_exit_with_code(args: Seq<Value>) -> Outcome {
    if args.len() >= 1 {
        match args[0] {
            Value::Number(bits) => Err(InterpreterErrorView::Exit(number_truncated_i32(bits))),
            other => Err(
                InterpreterErrorView::RuntimeErrorType(
                    RuntimeErrorTypeView::CantToNum(kind_name(other)),
                ),
            ),
        }
    } else {
        Ok(Value::Nil)
    }
}

/// Whether `elapsed` reads the clock: it does where its first argument is
/// a reading that `instant` handed out.
pub open spec fn elapsed_reads(args: Seq<Value>) -> bool {
    args.len() >= 1 && args[0] is NativeObject
}

/// What a function of the host returns by itself: `HostClock` where the
/// function reads a clock, as the reading decides.
pub open spec fn native_result(function: NativeFunction, args: Seq<Value>) -> Outcome {
    match function {
        NativeFunction::Get => native_get(args),
        NativeFunction::Panic => native_panic(args),
        NativeFunction::Text => native_text(args),
        NativeFunction::Exit => Err(InterpreterErrorView::Exit(0)),
        NativeFunction::ExitWithCode => native_exit_with_code(args),
        NativeFunction::Clock => Err(InterpreterErrorView::HostClock),
        NativeFunction::Instant => Err(InterpreterErrorView::HostClock),
        NativeFunction::Elapsed => if elapsed_reads(args) {
            Err(InterpreterErrorView::HostClock)
        } else {
            Ok(Value::Nil)
        },
    }
}

/// Whether the model stopped at a reading of the host's clock.
pub open spec fn timed<T>(r: Result<T, InterpreterErrorView>) -> bool {
    r is Err && r->Err_0 is HostClock
}

/// Whether `host` goes on where the readings heard so far end: it
/// holds them all, in their order, and may hold more.
pub open spec fn told(host: Seq<Value>, heard: Seq<Value>) -> bool {
    &&& heard.len() <= host.len()
    &&& forall|i: int| 0 <= i < heard.len() ==> host[i] == heard[i]
}

/// Running a function of the host. A function that reads a clock gets
/// the next reading of `host`, which the machine has then heard; where
/// `host` holds no more readings the model stops with `HostClock`. Any
/// other function leaves the machine as it is.
pub open spec fn native(
    host: Seq<Value>,
    m: Machine,
    function: NativeFunction,
    args: Seq<Value>,
) -> Step {
    if timed(native_result(function, args)) && m.heard.len() < host.len() {
        let reading = host[m.heard.len() as int];
        step(Machine { heard: m.heard.push(reading), ..m }, Ok(reading))
    } else {
        step(m, native_result(function, args))
    }
}

/// The frames with the parameters `params[from..]` bound to the arguments
/// at the same places, in the frame `frame`.
pub open spec fn bind_params(
    m: Machine,
    frame: usize,
    params: Seq<TokenView>,
    args: Seq<Value>,
    from: int,
) -> Machine
    decreases params.len() - from,
{
    if 0 <= from < params.len() && from < args.len() {
        bind_params(
            define(m, frame, params[from].lexeme, Some(args[from])),
            frame,
            params,
            args,
            from + 1,
        )
    } else {
        m
    }
}

/// The methods that the first `n` declarations of a class body make,
/// closed over the frame `closure`; the one named `init` is the
/// initializer.
pub open spec fn method_table(methods: Seq<FunView>, n: int, closure: usize) -> Map<
    Seq<char>,
    CallableView,
>
    decreases n,
{
    if 0 < n <= methods.len() {
        method_table(methods, n - 1, closure).insert(
            methods[n - 1].name.lexeme,
            closure_of(methods[n - 1], Some(closure), methods[n - 1].name.lexeme == "init"@),
        )
    } else {
        Map::empty()
    }
}

/// The result of a call of a closure whose body ended with `r` in the
/// frame `frame`: an initializer gives the instance that `self` names,
/// whatever the body returned; any other function gives what `return`
/// carried, or the result of its last statement.
pub open spec fn returned(m: Machine, c: CallableView, frame: usize, r: Outcome) -> Outcome {
    let at_self = match c.declaration {
        Some(declaration) => read_at(
            m.heap.frames,
            Some(frame),
            0,
            init_self_token(declaration.name),
        ),
        None => Err(InterpreterErrorView::BudgetExhausted),
    };
    match r {
        Ok(value) => if c.is_init {
            at_self
        } else {
            Ok(value)
        },
        Err(InterpreterErrorView::Return(value)) => if c.is_init {
            at_self
        } else {
            Ok(value)
        },
        Err(error) => Err(error),
    }
}

/// Evaluates an expression.
pub open spec fn evaluate(host: Seq<Value>, m: Machine, e: ExprView, fuel: int) -> Step
    decreases fuel, 0int,
{
    if fuel <= 0 {
        step(m, Err(InterpreterErrorView::BudgetExhausted))
    } else {
        let less = fuel - 1;
        match e {
            ExprView::Literal { literal, .. } => step(m, Ok(literal_value(literal))),
            ExprView::Grouping { expression, .. } => evaluate(host, m, *expression, less),
            ExprView::Variable { id, token } => step(m, lookup(m, token, id)),
            ExprView::SelfExpr { id, name } => step(m, lookup(m, name, id)),
            ExprView::Assign { id, token, value } => {
                let value = evaluate(host, m, *value, less);
                match value.result {
                    Ok(v) => store(value.machine, token, id, v),
                    Err(_) => value,
                }
            },
            ExprView::Unary { operator, right, .. } => {
                let right = evaluate(host, m, *right, less);
                match right.result {
                    Ok(v) => step(right.machine, unary(operator, v)),
                    Err(_) => right,
                }
            },
            ExprView::Binary { left, operation, right, .. } => {
                let left = evaluate(host, m, *left, less);
                match left.result {
                    Ok(l) => {
                        let right = evaluate(host, left.machine, *right, less);
                        match right.result {
                            Ok(r) => step(right.machine, binary(operation, l, r)),
                            Err(_) => right,
                        }
                    },
                    Err(_) => left,
                }
            },
            ExprView::Logical { left, operator, right, .. } => {
                let left = evaluate(host, m, *left, less);
                match left.result {
                    Ok(v) => if (operator.token_type == TokenType::Or) == truthy(v) {
                        left
                    } else {
                        evaluate(host, left.machine, *right, less)
                    },
                    Err(_) => left,
                }
            },
            ExprView::Call { callable, parens, args, .. } => {
                let called = evaluate(host, m, *callable, less);
                match called.result {
                    Ok(target) => {
                        let args = evaluate_all(host, called.machine, args, 0, Seq::empty(), less);
                        match args.result {
                            Ok(values) => match callee(target) {
                                Value::Callable(callable) => if values.len() != arity(callable) {
                                    step(
                                        args.machine,
                                        Err(
                                            fault(
                                                parens,
                                                RuntimeErrorTypeView::ArityOfFuncNotEqSizeOfArgs,
                                            ),
                                        ),
                                    )
                                } else {
                                    let done = call(host, args.machine, callable, values, less);
                                    step(done.machine, attributed(parens, done.result))
                                },
                                _ => step(
                                    args.machine,
                                    Err(fault(parens, RuntimeErrorTypeView::NotCallable)),
                                ),
                            },
                            Err(error) => step(args.machine, Err(error)),
                        }
                    },
                    Err(_) => called,
                }
            },
            ExprView::Get { name, object, .. } => {
                let object = evaluate(host, m, *object, less);
                match object.result {
                    Ok(Value::Instance(instance)) => property(object.machine, instance, name),
                    Ok(_) => step(
                        object.machine,
                        Err(fault(name, RuntimeErrorTypeView::OnlyInstancesHaveProperties)),
                    ),
                    Err(_) => object,
                }
            },
            ExprView::SetExpr { name, obj, value, .. } => {
                let object = evaluate(host, m, *obj, less);
                match object.result {
                    Ok(Value::Instance(instance)) => {
                        let value = evaluate(host, object.machine, *value, less);
                        match value.result {
                            Ok(v) => set_property(value.machine, instance, name, v),
                            Err(_) => value,
                        }
                    },
                    Ok(_) => step(
                        object.machine,
                        Err(fault(name, RuntimeErrorTypeView::OnlyInstancesHaveProperties)),
                    ),
                    Err(_) => object,
                }
            },
            ExprView::Super { id, keyword, method } => super_method(m, id, keyword, method),
            ExprView::List { values, .. } => {
                let items = evaluate_all(host, m, values, 0, Seq::empty(), less);
                match items.result {
                    Ok(values) => step(items.machine, Ok(Value::List(values))),
                    Err(error) => step(items.machine, Err(error)),
                }
            },
        }
    }
}

/// Evaluates the expressions `es[from..]` from left to right, behind the
/// values `done`, and stops at the first that does not yield a value.
pub open spec fn evaluate_all(
    host: Seq<Value>,
    m: Machine,
    es: Seq<ExprView>,
    from: int,
    done: Seq<Value>,
    fuel: int,
) -> Steps
    decreases fuel, es.len() - from + 1,
{
    if 0 <= from < es.len() {
        let one = evaluate(host, m, es[from], fuel);
        match one.result {
            Ok(value) => evaluate_all(host, one.machine, es, from + 1, done.push(value), fuel),
            Err(error) => Steps { machine: one.machine, result: Err(error) },
        }
    } else {
        Steps { machine: m, result: Ok(done) }
    }
}

/// Calls a callable with arguments of which there are as many as it
/// takes.
pub open spec fn call(
    host: Seq<Value>,
    m: Machine,
    c: CallableView,
    args: Seq<Value>,
    fuel: int,
) -> Step
    decreases fuel, 0int,
{
    if fuel <= 0 {
        step(m, Err(InterpreterErrorView::BudgetExhausted))
    } else {
        let less = fuel - 1;
        match c.behaviour {
            BehaviourView::Native(function) => native(host, m, function, args),
            BehaviourView::Function => match c.declaration {
                Some(declaration) => {
                    let frame = m.heap.frames.len() as usize;
                    let ready = bind_params(
                        allocate(m, c.closure),
                        frame,
                        declaration.params,
                        args,
                        0,
                    );
                    let body = execute_block(host, ready, declaration.body, frame, less);
                    step(body.machine, returned(body.machine, c, frame, body.result))
                },
                None => step(m, Ok(Value::Nil)),
            },
            BehaviourView::Construct(class) => {
                let fields = m.heap.instances.len() as usize;
                let instance = InstanceView { class, fields };
                let made = Machine {
                    heap: HeapView { instances: m.heap.instances.push(Map::empty()), ..m.heap },
                    ..m
                };
                match find_method(class, "init"@) {
                    Some(init) => {
                        let b = bind(made, init, instance);
                        let ran = call(host, b.machine, b.callable, args, less);
                        match ran.result {
                            Ok(_) => step(ran.machine, Ok(Value::Instance(instance))),
                            Err(_) => ran,
                        }
                    },
                    None => step(made, Ok(Value::Instance(instance))),
                }
            },
        }
    }
}

/// Executes the statements in the frame `frame` and goes back to the
/// frame of before, whatever the outcome.
pub open spec fn execute_block(
    host: Seq<Value>,
    m: Machine,
    stmts: Seq<StmtView>,
    frame: usize,
    fuel: int,
) -> Step
    decreases fuel, stmts.len() + 2,
{
    let ran = execute_all(host, Machine { env: frame, ..m }, stmts, 0, Value::Void, fuel);
    step(
        Machine { env: m.env, ..ran.machine },
        match ran.result {
            Ok(_) => Ok(Value::Void),
            Err(error) => Err(error),
        },
    )
}

/// Executes the statements `stmts[from..]` in order and stops at the
/// first that does not end normally; the result is that of the last
/// statement, or `last` where there is none.
pub open spec fn execute_all(
    host: Seq<Value>,
    m: Machine,
    stmts: Seq<StmtView>,
    from: int,
    last: Value,
    fuel: int,
) -> Step
    decreases fuel, stmts.len() - from + 1,
{
    if 0 <= from < stmts.len() {
        let one = execute(host, m, stmts[from], fuel);
        match one.result {
            Ok(value) => execute_all(host, one.machine, stmts, from + 1, value, fuel),
            Err(_) => one,
        }
    } else {
        step(m, Ok(last))
    }
}

/// The turns of a `while` loop with the condition `cond` and the body
/// `body`.
pub open spec fn execute_while(
    host: Seq<Value>,
    m: Machine,
    cond: ExprView,
    body: StmtView,
    fuel: int,
) -> Step
    decreases fuel, 0int,
{
    if fuel <= 0 {
        step(m, Err(InterpreterErrorView::BudgetExhausted))
    } else {
        let less = fuel - 1;
        let tested = evaluate(host, m, cond, less);
        match tested.result {
            Ok(v) => if truthy(v) {
                let ran = execute(host, tested.machine, body, less);
                match ran.result {
                    Ok(_) => execute_while(host, ran.machine, cond, body, less),
                    Err(_) => ran,
                }
            } else {
                step(tested.machine, Ok(Value::Nil))
            },
            Err(_) => tested,
        }
    }
}

/// The machine after a class declaration whose superclass, if it has
/// one, evaluated to `superclass`.
pub open spec fn declare_class(
    m: Machine,
    name: TokenView,
    methods: Seq<FunView>,
    superclass: Option<(Value, ClassView)>,
) -> Machine {
    let closure = match superclass {
        Some(_) => m.heap.frames.len() as usize,
        None => m.env,
    };
    let opened = match superclass {
        Some(parent) => define(allocate(m, Some(m.env)), closure, "super"@, Some(parent.0)),
        None => m,
    };
    let class = ClassView {
        id: m.next_id,
        name: name.lexeme,
        methods: method_table(methods, methods.len() as int, closure),
        superclass: match superclass {
            Some(parent) => Some(Box::new(parent.1)),
            None => None,
        },
    };
    Machine {
        next_id: following(m.next_id),
        ..define(opened, m.env, name.lexeme, Some(Value::Shared(Box::new(Value::Class(class)))))
    }
}

/// Executes a class declaration.
pub open spec fn execute_class(
    host: Seq<Value>,
    m: Machine,
    name: TokenView,
    methods: Seq<FunView>,
    super_class: Option<ExprView>,
) -> Step {
    match super_class {
        Some(ExprView::Variable { id, token }) => match lookup(m, token, id) {
            Ok(Value::Shared(x)) => match *x {
                Value::Class(parent) => step(
                    declare_class(m, name, methods, Some((Value::Shared(x), parent))),
                    Ok(Value::Nil),
                ),
                _ => step(m, Err(fault(token, RuntimeErrorTypeView::SuperclassMustBeClass))),
            },
            Ok(_) => step(m, Err(fault(token, RuntimeErrorTypeView::SuperclassMustBeClass))),
            Err(error) => step(m, Err(error)),
        },
        _ => step(declare_class(m, name, methods, None), Ok(Value::Nil)),
    }
}

/// Executes a statement.
///
/// An `if` takes its first branch, and a `while` goes on, where the
/// condition is `truthy`: neither `false` nor `nil` nor the result of a
/// statement. A function that ends without `return` yields the result
/// of a statement, which is written as the empty text.
pub open spec fn execute(host: Seq<Value>, m: Machine, s: StmtView, fuel: int) -> Step
    decreases fuel, 0int,
{
    if fuel <= 0 {
        step(m, Err(InterpreterErrorView::BudgetExhausted))
    } else {
        let less = fuel - 1;
        match s {
            StmtView::Expr { expr } => evaluate(host, m, expr, less),
            StmtView::Print { expr } => {
                let value = evaluate(host, m, expr, less);
                match value.result {
                    Ok(v) => step(
                        Machine { output: value.machine.output.push(display(v)), ..value.machine },
                        Ok(Value::Nil),
                    ),
                    Err(_) => value,
                }
            },
            StmtView::Let { ident, initializer } => match initializer {
                Some(initializer) => {
                    let value = evaluate(host, m, initializer, less);
                    match value.result {
                        Ok(v) => step(
                            define(value.machine, value.machine.env, ident.lexeme, Some(v)),
                            Ok(Value::Nil),
                        ),
                        Err(_) => value,
                    }
                },
                None => step(define(m, m.env, ident.lexeme, None), Ok(Value::Nil)),
            },
            StmtView::Block { stmts } => {
                let ran = execute_block(
                    host,
                    allocate(m, Some(m.env)),
                    stmts,
                    m.heap.frames.len() as usize,
                    less,
                );
                match ran.result {
                    Ok(_) => step(ran.machine, Ok(Value::Nil)),
                    Err(_) => ran,
                }
            },
            StmtView::If { cond, then_stmt, else_stmt } => {
                let tested = evaluate(host, m, cond, less);
                match tested.result {
                    Ok(v) => if truthy(v) {
                        let ran = execute(host, tested.machine, *then_stmt, less);
                        match ran.result {
                            Ok(_) => step(ran.machine, Ok(Value::Nil)),
                            Err(_) => ran,
                        }
                    } else {
                        match else_stmt {
                            Some(else_stmt) => {
                                let ran = execute(host, tested.machine, *else_stmt, less);
                                match ran.result {
                                    Ok(_) => step(ran.machine, Ok(Value::Nil)),
                                    Err(_) => ran,
                                }
                            },
                            None => step(tested.machine, Ok(Value::Nil)),
                        }
                    },
                    Err(_) => tested,
                }
            },
            StmtView::While { cond, stmt } => execute_while(host, m, cond, *stmt, less),
            StmtView::Fun { fun } => step(
                define(
                    m,
                    m.env,
                    fun.name.lexeme,
                    Some(Value::Callable(closure_of(fun, Some(m.env), false))),
                ),
                Ok(Value::Nil),
            ),
            StmtView::Return { returned, .. } => match returned {
                Some(expr) => {
                    let value = evaluate(host, m, expr, less);
                    match value.result {
                        Ok(v) => step(value.machine, Err(InterpreterErrorView::Return(v))),
                        Err(_) => value,
                    }
                },
                None => step(m, Err(InterpreterErrorView::Return(Value::Nil))),
            },
            StmtView::Class { name, methods, super_class } => execute_class(
                host,
                m,
                name,
                methods,
                super_class,
            ),
            StmtView::Export { stmt, .. } => {
                let ran = execute(host, m, *stmt, less);
                match ran.result {
                    Ok(_) => step(ran.machine, Ok(Value::Nil)),
                    Err(_) => ran,
                }
            },
            StmtView::Use { .. } => step(m, Ok(Value::Nil)),
        }
    }
}

/// The machine after static resolution of a program: the depths that the
/// resolver finds join those of the machine; or the error of the
/// resolver.
pub open spec fn resolved(m: Machine, stmts: Seq<StmtView>) -> Result<
    Machine,
    crate::interpreter::parser::error::ParserErrorView,
> {
    match crate::interpreter::parser::scopes::resolve_stmts(
        crate::interpreter::parser::scopes::Resolution {
            scopes: Seq::empty(),
            function: crate::interpreter::parser::scopes::FunctionType::Outside,
            class: crate::interpreter::parser::scopes::ClassType::Outside,
            locals: m.locals,
        },
        stmts,
        0,
    ) {
        Ok(found) => Ok(Machine { locals: found.locals, ..m }),
        Err(error) => Err(error),
    }
}

/// A whole run of a source text on the machine `m`, with the modules
/// `modules` at hand: the text is scanned and parsed, its modules are
/// spliced in, its references are resolved, and its statements are
/// interpreted. An error before the interpretation leaves the machine as
/// it is.
pub open spec fn run(
    host: Seq<Value>,
    m: Machine,
    source: Seq<char>,
    modules: Seq<crate::interpreter::exporter::ModuleView>,
    fuel: int,
) -> Step {
    match crate::interpreter::exporter::parsed_source(source, m.next_id) {
        Err(error) => step(m, Err(error)),
        Ok(parsed) => match crate::interpreter::exporter::spliced(
            parsed.0,
            modules,
            0,
            parsed.1,
            Seq::empty(),
        ) {
            Err(error) => step(m, Err(error)),
            Ok(program) => match resolved(Machine { next_id: program.1, ..m }, program.0) {
                Err(error) => step(m, Err(InterpreterErrorView::ParserError(error))),
                Ok(ready) => interpret(host, ready, program.0, fuel),
            },
        },
    }
}

/// A function of the host as a callable.
pub open spec fn native_callable(id: u64, function: NativeFunction) -> CallableView {
    CallableView {
        id,
        declaration: None,
        closure: None,
        behaviour: BehaviourView::Native(function),
        is_init: false,
    }
}

/// The bindings of the global frame before any program has run: the
/// functions of the host, numbered from 1 in the order `get`, `clock`,
/// `panic`, `string`, `exit`, `exitWithCode`, `instant`, `elapsed`.
pub open spec fn builtins() -> Map<Seq<char>, Option<Value>> {
    Map::<Seq<char>, Option<Value>>::empty().insert(
        "get"@,
        Some(Value::Callable(native_callable(1, NativeFunction::Get))),
    ).insert("clock"@, Some(Value::Callable(native_callable(2, NativeFunction::Clock)))).insert(
        "panic"@,
        Some(Value::Callable(native_callable(3, NativeFunction::Panic))),
    ).insert("string"@, Some(Value::Callable(native_callable(4, NativeFunction::Text)))).insert(
        "exit"@,
        Some(Value::Callable(native_callable(5, NativeFunction::Exit))),
    ).insert(
        "exitWithCode"@,
        Some(Value::Callable(native_callable(6, NativeFunction::ExitWithCode))),
    ).insert(
        "instant"@,
        Some(Value::Callable(native_callable(7, NativeFunction::Instant))),
    ).insert("elapsed"@, Some(Value::Callable(native_callable(8, NativeFunction::Elapsed))))
}

/// The machine before any program has run: one frame, the globals, which
/// holds the functions of the host; nothing resolved, nothing printed.
pub open spec fn initial() -> Machine {
    Machine {
        heap: HeapView {
            frames: seq![EnvironmentView { values: builtins(), enclosing: None }],
            instances: Seq::empty(),
        },
        env: 0,
        globals: 0,
        locals: Map::empty(),
        output: Seq::empty(),
        next_id: 9,
        heard: Seq::empty(),
    }
}

/// Runs the statements of a program in the current frame; the result is
/// that of the last statement.
pub open spec fn interpret(host: Seq<Value>, m: Machine, stmts: Seq<StmtView>, fuel: int) -> Step {
    execute_all(host, m, stmts, 0, Value::Void, fuel)
}

} // verus!
