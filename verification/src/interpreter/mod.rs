//! The evaluation pipeline: scanner, parser, module resolver, static
//! resolver and tree-walking interpreter.

pub mod ast;
pub mod diagnostics;
pub mod environment;
pub mod error;
pub mod exporter;
pub mod laws;
pub mod native_functions;
pub mod number;
pub mod numeral;
pub mod object;
pub mod parser;
pub mod scanner;
pub mod semantics;
pub mod shell;
pub mod text;
pub mod yun_callable;

use std::collections::HashMap;
use std::rc::Rc;
use vstd::prelude::*;
use vstd::string::StringExecFns;

use crate::interpreter::ast::expr::Expr;
use crate::interpreter::ast::expr::Assign;
use crate::interpreter::ast::expr::Binary;
use crate::interpreter::ast::expr::Call;
use crate::interpreter::ast::expr::Get;
use crate::interpreter::ast::expr::Grouping;
use crate::interpreter::ast::expr::List;
use crate::interpreter::ast::expr::Literal;
use crate::interpreter::ast::expr::Logical;
use crate::interpreter::ast::expr::SelfExpr;
use crate::interpreter::ast::expr::SetExpr;
use crate::interpreter::ast::expr::Unary;
use crate::interpreter::ast::expr::Variable;
use crate::interpreter::ast::view::expr_view;
use crate::interpreter::ast::view::exprs_view;
use crate::interpreter::ast::view::fun_view;
use crate::interpreter::ast::view::funs_view;
use crate::interpreter::ast::view::stmt_view;
use crate::interpreter::ast::view::stmts_view;
use crate::interpreter::scanner::token::literal_view;
use crate::interpreter::scanner::token::token_views;
use crate::interpreter::ast::stmt::Fun;
use crate::interpreter::ast::stmt::Block;
use crate::interpreter::ast::stmt::Export;
use crate::interpreter::ast::stmt::If;
use crate::interpreter::ast::stmt::Let;
use crate::interpreter::ast::stmt::Print;
use crate::interpreter::ast::stmt::Return;
use crate::interpreter::ast::stmt::StmtExpr;
use crate::interpreter::ast::stmt::Use;
use crate::interpreter::ast::stmt::While;
use crate::interpreter::ast::stmt::Stmt;
use crate::interpreter::environment::agrees;
use crate::interpreter::environment::fault;
use crate::interpreter::environment::optional_view;
use crate::interpreter::environment::outcome_of;
use crate::interpreter::environment::Environment;
use crate::interpreter::environment::Heap;
use crate::interpreter::error::InterpreterError;
use crate::interpreter::exporter::module_views;
use crate::interpreter::native_functions::clock::clock_result;
use crate::interpreter::native_functions::clock::elapsed_result;
use crate::interpreter::native_functions::clock::instant_result;
use crate::interpreter::native_functions::list::element_at;
use crate::interpreter::exporter::parse_source;
use crate::interpreter::exporter::Exporter;
use crate::interpreter::exporter::Module;
use crate::interpreter::parser::resolver::Resolver;
use crate::interpreter::error::InterpreterErrorView;
use crate::interpreter::error::RuntimeError;
use crate::interpreter::error::RuntimeErrorType;
use crate::interpreter::object::callable::Behaviour;
use crate::interpreter::object::callable::Callable;
use crate::interpreter::object::callable::NativeFunction;
use crate::interpreter::object::class::Class;
use crate::interpreter::object::class::Method;
use crate::interpreter::object::instance::Instance;
use crate::interpreter::object::methods_view;
use crate::interpreter::object::model::Order;
use crate::interpreter::object::model::Value;
use crate::interpreter::object::native_object::duration_micros;
use crate::interpreter::object::native_object::instant_elapsed;
use crate::interpreter::object::native_object::instant_now;
use crate::interpreter::object::native_object::since_epoch;
use crate::interpreter::object::native_object::system_now;
use crate::interpreter::object::native_object::NativeObject;
use crate::interpreter::object::model_of;
use crate::interpreter::object::object_view;
use crate::interpreter::object::values_of;
use crate::interpreter::object::Object;
use crate::interpreter::number::Number;
use crate::interpreter::scanner::token::token_type::TokenType;
use crate::interpreter::scanner::token::Token;
use semantics::Machine;
use semantics::Step;
use crate::interpreter::text::share;
use crate::utils::IdAllocator;

verus! {

broadcast use vstd::std_specs::hash::group_hash_axioms;

/// Runs programs: holds the heap, the current and the global frame, the
/// depths that the resolver found, and the lines printed so far. It
/// remembers, for the contracts alone, what the host's clock has told the
/// programs that it ran.
pub struct Interpreter {
    heap: Heap,
    env: usize,
    globals: usize,
    locals: HashMap<u64, usize>,
    output: Vec<String>,
    ids: IdAllocator,
    told: Ghost<Seq<Value>>,
}

/// The texts of a list of lines.
pub open spec fn lines_view(lines: Seq<String>) -> Seq<Seq<char>> {
    lines.map_values(|line: String| line@)
}

impl View for Interpreter {
    type V = Machine;

    closed spec fn view(&self) -> Machine {
        Machine {
            heap: self.heap@,
            env: self.env,
            globals: self.globals,
            locals: self.locals@,
            output: lines_view(self.output@),
            next_id: self.ids.upcoming(),
            heard: self.told@,
        }
    }
}

impl Default for Interpreter {
    fn default() -> (r: Self)
        ensures
            r@ == semantics::initial(),
            r.clock_reads() == 0,
    {
        Interpreter::new()
    }
}

/// An error of kind `ty` at `token`.
fn runtime_error(token: &Token, ty: RuntimeErrorType) -> (r: InterpreterError)
    ensures
        r@ == fault(token@, ty@),
{
    InterpreterError::RuntimeError(RuntimeError::new(token.clone(), ty))
}

/// An executable result as an outcome of evaluation.
fn raise(r: Result<Object, RuntimeErrorType>) -> (out: Result<Object, InterpreterError>)
    ensures
        outcome_of(out) == semantics::raised(model_of(r)),
{
    match r {
        Ok(value) => Ok(value),
        Err(error) => Err(InterpreterError::RuntimeErrorType(error)),
    }
}

/// Whether a result is anything but a `return` on its way to the call
/// that it ends.
pub open spec fn settled(r: Result<Object, InterpreterError>) -> bool {
    !(r is Err && r->Err_0 is Return)
}

/// Whether a value is the instance of `class` whose fields stand at
/// `fields`.
pub open spec fn is_instance(value: Object, class: Rc<Class>, fields: nat) -> bool {
    value@ == Value::Instance(
        crate::interpreter::object::model::InstanceView { class: class@, fields: fields as usize },
    )
}

impl Interpreter {
    /// How often the program has read a clock of the host.
    pub closed spec fn clock_reads(&self) -> nat {
        self.told@.len()
    }

    /// An interpreter holds no more frames and no more instances than an
    /// index can count.
    pub proof fn lemma_heap_is_countable(&self)
        ensures
            self@.heap.frames.len() <= usize::MAX,
            self@.heap.instances.len() <= usize::MAX,
    {
        assert(self@.heap.frames.len() == self.heap.frames@.len());
        assert(self.heap.frames@.len() == self.heap.frames.len());
        assert(self@.heap.instances.len() == self.heap.instances@.len());
        assert(self.heap.instances@.len() == self.heap.instances.len());
    }

    /// Whatever the host's clock said during a step from `before` to
    /// `self`: evaluation goes on in the frame in which it went on
    /// before, the globals are where they were, and readings that go on
    /// where those heard now end go on where those heard before end.
    pub open spec fn kept(&self, before: &Interpreter) -> bool {
        &&& self@.env == before@.env
        &&& self@.globals == before@.globals
        &&& forall|host: Seq<Value>| #[trigger]
            semantics::told(host, self@.heard) ==> semantics::told(host, before@.heard)
    }

    /// `self` and `r` are the machine and the outcome of the step `s`.
    pub open spec fn follows(&self, r: Result<Object, InterpreterError>, s: Step) -> bool {
        self@ == s.machine && agrees(r, s.result)
    }

    /// An interpreter that has run nothing yet: its global frame holds the
    /// functions of the host.
    pub fn new() -> (r: Self)
        ensures
            r@ == semantics::initial(),
            r.clock_reads() == 0,
    {
        let mut r = Interpreter {
            heap: Heap::new(),
            env: 0,
            globals: 0,
            locals: HashMap::new(),
            output: Vec::new(),
            ids: IdAllocator::new(),
            told: Ghost(Seq::empty()),
        };
        r.allocate(None);
        r.install(NativeFunction::Get);
        r.install(NativeFunction::Clock);
        r.install(NativeFunction::Panic);
        r.install(NativeFunction::Text);
        r.install(NativeFunction::Exit);
        r.install(NativeFunction::ExitWithCode);
        r.install(NativeFunction::Instant);
        r.install(NativeFunction::Elapsed);
        assert(r@.heap.frames =~= semantics::initial().heap.frames);
        assert(r@.heap.instances =~= semantics::initial().heap.instances);
        assert(r@.output =~= semantics::initial().output);
        assert(r@.locals =~= semantics::initial().locals);
        r
    }

    /// Defines a function of the host in the global frame, under its
    /// name and with the next identifier.
    fn install(&mut self, function: NativeFunction)
        ensures
            final(self)@.heard == old(self)@.heard,
            final(self)@ == (Machine {
                next_id: crate::utils::following(old(self)@.next_id),
                ..semantics::define(
                    old(self)@,
                    old(self)@.globals,
                    crate::interpreter::object::model::native_name(function),
                    Some(
                        Value::Callable(
                            semantics::native_callable(old(self)@.next_id, function),
                        ),
                    ),
                )
            }),
    {
        let id = crate::utils::next_id(&mut self.ids);
        let callable = Callable::build(id, None, None, Behaviour::Native(function), false);
        let globals = self.globals;
        self.define_in(globals, function.name(), Some(Object::Callable(callable)));
    }

    /// Runs a source text: scans it, parses it, splices the modules that
    /// it uses, resolves its references and interprets it.
    ///
    /// An error of the scanner, of the parser or of the module resolver
    /// ends the run before the machine has changed; an error of the
    /// static resolver ends it before anything is executed. Else the
    /// result is that of interpreting the statements with the depths that
    /// the resolver found. The result and the machine behind it are those
    /// of `semantics::run` with the readings that the host's clock gave
    /// during the run: with any `host` that holds the readings heard by
    /// the end, in their order, behind those heard before.
    pub fn run(
        &mut self,
        code: &str,
        modules: Vec<Module>,
        fuel: u64,
    ) -> (r: Result<Object, InterpreterError>)
        ensures
            final(self).kept(old(self)),
            forall|host: Seq<Value>| #[trigger]
                semantics::told(host, final(self)@.heard) ==> final(self).follows(
                    r,
                    semantics::run(host, old(self)@, code@, module_views(modules@), fuel as int),
                ),
    {
        let mut ids = IdAllocator::starting_at(self.ids.peek());
        let ast = match parse_source(code, &mut ids) {
            Ok(ast) => ast,
            Err(error) => {
                return Err(error);
            },
        };
        let ast = match Exporter::new(modules, ast).resolve(
            &mut ids,
        ) {
            Ok(ast) => ast,
            Err(error) => {
                return Err(error);
            },
        };
        let locals = match self.resolve_program(&ast) {
            Ok(locals) => locals,
            Err(error) => {
                return Err(error);
            },
        };
        self.locals = locals;
        self.ids = ids;
        self.interpret(&ast, fuel)
    }

    /// Runs a program whose modules are spliced in: resolves its
    /// references and interprets it.
    ///
    /// An error of the resolver is the result, and nothing is executed;
    /// else the depths that the resolver found join the table of the
    /// machine, and the result is that of interpreting the statements.
    pub fn run_program(&mut self, ast: &Vec<Stmt>, fuel: u64) -> (r: Result<
        Object,
        InterpreterError,
    >)
        ensures
            final(self).kept(old(self)),
            match semantics::resolved(old(self)@, stmts_view(*ast)) {
                Ok(ready) => forall|host: Seq<Value>| #[trigger]
                    semantics::told(host, final(self)@.heard) ==> final(self).follows(
                        r,
                        semantics::interpret(host, ready, stmts_view(*ast), fuel as int),
                    ),
                Err(error) => r is Err && r->Err_0@ == InterpreterErrorView::ParserError(error)
                    && final(self)@ == old(self)@,
            },
    {
        match self.resolve_program(ast) {
            Ok(locals) => {
                self.locals = locals;
                self.interpret(ast, fuel)
            },
            Err(error) => Err(error),
        }
    }

    /// The depths of the machine together with those that the resolver
    /// finds in `ast`, or the error of the resolver.
    fn resolve_program(&self, ast: &Vec<Stmt>) -> (r: Result<
        HashMap<u64, usize>,
        InterpreterError,
    >)
        ensures
            match semantics::resolved(self@, stmts_view(*ast)) {
                Ok(ready) => r is Ok && r->Ok_0@ == ready.locals,
                Err(error) => r is Err && r->Err_0@ == InterpreterErrorView::ParserError(error),
            },
    {
        let mut resolver = Resolver::new(self.locals.clone());
        match resolver.resolve(ast) {
            Ok(()) => Ok(resolver.into_locals()),
            Err(error) => Err(error),
        }
    }

    /// Adds the fields of a new instance of `class`, none yet.
    pub fn new_instance(&mut self, class: &Rc<Class>) -> (r: Instance)
        ensures
            final(self)@.heard == old(self)@.heard,
            r@ == (crate::interpreter::object::model::InstanceView {
                class: class@,
                fields: old(self)@.heap.instances.len() as usize,
            }),
            final(self)@ == (Machine {
                heap: crate::interpreter::environment::HeapView {
                    instances: old(self)@.heap.instances.push(Map::empty()),
                    ..old(self)@.heap
                },
                ..old(self)@
            }),
    {
        let fields = self.heap.new_instance();
        Instance { class: share(class), fields }
    }

    /// Records the depth that the resolver found for the node `id`.
    pub fn resolve(&mut self, id: u64, depth: usize)
        ensures
            final(self)@ == (Machine { locals: old(self)@.locals.insert(id, depth), ..old(self)@ }),
            final(self)@.heard == old(self)@.heard,
    {
        self.locals.insert(id, depth);
    }

    /// The lines printed so far.
    pub fn output(&self) -> (r: &Vec<String>)
        ensures
            lines_view(r@) == self@.output,
    {
        &self.output
    }

    /// Reads a variable: at its resolved depth, or from the globals.
    pub fn look_up_variable(&self, name: &Token, id: u64) -> (r: Result<Object, InterpreterError>)
        ensures
            agrees(r, semantics::lookup(self@, name@, id)),
    {
        match self.locals.get(&id) {
            Some(distance) => Environment::get_at(&self.heap, Some(self.env), *distance, name),
            None => Environment::get(&self.heap, self.globals, name),
        }
    }

    /// Assigns to a variable: at its resolved depth, or in the globals.
    pub fn assign_variable(&mut self, name: &Token, id: u64, value: Object) -> (r: Result<
        Object,
        InterpreterError,
    >)
        ensures
            final(self)@.heard == old(self)@.heard,
            final(self)@ == semantics::store(
                old(self)@,
                name@,
                id,
                value@,
            ).machine,
            agrees(r, semantics::store(old(self)@, name@, id, value@).result),
    {
        let distance = match self.locals.get(&id) {
            Some(distance) => Some(*distance),
            None => None,
        };
        match distance {
            Some(distance) => Environment::assign_at(
                &mut self.heap,
                Some(self.env),
                distance,
                name,
                value,
            ),
            None => Environment::assign(&mut self.heap, self.globals, name, value),
        }
    }

    /// Attributes a runtime error that has no token yet to `token`; a
    /// panic of the program becomes its diagnostic.
    fn handle_runtime_error(token: &Token, res: Result<Object, InterpreterError>) -> (r: Result<
        Object,
        InterpreterError,
    >)
        ensures
            outcome_of(r) == semantics::attributed(token@, outcome_of(res)),
    {
        match res {
            Err(InterpreterError::RuntimeErrorType(ty)) => match ty {
                RuntimeErrorType::UserPanicWithMsg(msg) => {
                    let text = msg.to_string();
                    Err(InterpreterError::Custom(Interpreter::panic_handler(token, text.as_str())))
                },
                other => Err(InterpreterError::RuntimeError(RuntimeError::new(token.clone(), other))),
            },
            other => other,
        }
    }

    /// The diagnostic of a panic of the program at `token`.
    fn panic_handler(token: &Token, msg: &str) -> (r: String)
        ensures
            r@ == crate::interpreter::diagnostics::panic_text(token@, msg@),
    {
        crate::interpreter::diagnostics::panic_handler(token, msg)
    }

    /// The diagnostic of an error attributed to `token`.
    pub fn error_by_token(token: Token, msg: &str) -> (r: String)
        ensures
            r@ == crate::interpreter::diagnostics::token_error_text(token@, msg@),
    {
        crate::interpreter::diagnostics::error_by_token(&token, msg)
    }

    /// Binds `name` to `value` in the frame `env`.
    fn define_in(&mut self, env: usize, name: String, value: Option<Object>)
        ensures
            final(self)@.heard == old(self)@.heard,
            final(self)@ == semantics::define(
                old(self)@,
                env,
                name@,
                optional_view(value),
            ),
    {
        if env < self.heap.frames.len() {
            self.heap.bind(env, name, value);
        }
    }

    /// Adds an empty frame inside `enclosing` and returns its index.
    fn allocate(&mut self, enclosing: Option<usize>) -> (r: usize)
        ensures
            final(self)@.heard == old(self)@.heard,
            final(self)@ == semantics::allocate(old(self)@, enclosing),
            r == old(self)@.heap.frames.len(),
    {
        self.heap.allocate(enclosing)
    }

    /// Binds `method` to `instance`: the bound method finds the instance
    /// under `self` in a frame of its own inside the closure of the
    /// method.
    pub fn bind(&mut self, method: &Callable, instance: &Instance) -> (r: Callable)
        ensures
            final(self)@.heard == old(self)@.heard,
            final(self)@ == semantics::bind(
                old(self)@,
                method@,
                instance@,
            ).machine,
            r@ == semantics::bind(old(self)@, method@, instance@).callable,
    {
        let frame = self.allocate(method.closure);
        self.define_in(frame, String::from_str("self"), Some(Object::Instance(instance.clone())));
        Callable {
            id: method.id,
            declaration: method.get_declaration(),
            closure: Some(frame),
            behaviour: Behaviour::Function,
            is_init: method.is_init,
        }
    }

    /// Reads the property `name` of `instance`.
    pub fn get_property(&mut self, instance: &Instance, name: &Token) -> (r: Result<
        Object,
        InterpreterError,
    >)
        ensures
            final(self)@.heard == old(self)@.heard,
            final(self)@ == semantics::property(
                old(self)@,
                instance@,
                name@,
            ).machine,
            agrees(r, semantics::property(old(self)@, instance@, name@).result),
    {
        if let Some(value) = self.heap.field(instance.fields, &name.lexeme) {
            return Ok(value);
        }
        match instance.class.method_named(&name.lexeme) {
            Some(method) => {
                let bound = self.bind(&method, instance);
                Ok(Object::Callable(bound))
            },
            None => Err(
                runtime_error(name, RuntimeErrorType::UndefinedProperty(name.lexeme.clone())),
            ),
        }
    }

    /// Writes the property `name` of `instance`.
    pub fn set_property(&mut self, instance: &Instance, name: &Token, value: Object) -> (r: Result<
        Object,
        InterpreterError,
    >)
        ensures
            final(self)@.heard == old(self)@.heard,
            final(self)@ == semantics::set_property(
                old(self)@,
                instance@,
                name@,
                value@,
            ).machine,
            agrees(
                r,
                semantics::set_property(
                    old(self)@,
                    instance@,
                    name@,
                    value@,
                ).result,
            ),
    {
        if instance.fields < self.heap.instances.len() {
            let result = value.clone();
            self.heap.set_field(instance.fields, name.lexeme.clone(), value);
            Ok(result)
        } else {
            Err(runtime_error(name, RuntimeErrorType::BugEnvironmentNotInit))
        }
    }

    /// `super.method`: the method of the superclass chain, bound to the
    /// instance of the running method.
    fn super_method(&mut self, id: u64, keyword: &Token, method: &Token) -> (r: Result<
        Object,
        InterpreterError,
    >)
        ensures
            final(self)@.heard == old(self)@.heard,
            final(self)@ == semantics::super_method(
                old(self)@,
                id,
                keyword@,
                method@,
            ).machine,
            agrees(
                r,
                semantics::super_method(
                    old(self)@,
                    id,
                    keyword@,
                    method@,
                ).result,
            ),
    {
        let distance = match self.locals.get(&id) {
            Some(distance) => *distance,
            None => 0,
        };
        if distance == 0 {
            return Err(runtime_error(keyword, RuntimeErrorType::BugEnvironmentNotInit));
        }
        let superclass = match Environment::get_at(&self.heap, Some(self.env), distance, keyword) {
            Ok(value) => value,
            Err(error) => {
                return Err(error);
            },
        };
        let this = Token::builtin_void(TokenType::Slf, "self", None);
        assert(this@ == semantics::self_token());
        let instance = match Environment::get_at(&self.heap, Some(self.env), distance - 1, &this) {
            Ok(value) => value,
            Err(error) => {
                return Err(error);
            },
        };
        match superclass.inner() {
            Object::Class(class) => {
                match class.method_named(&method.lexeme) {
                    Some(found) => match &instance {
                        Object::Instance(instance) => {
                            let bound = self.bind(&found, instance);
                            Ok(Object::Callable(bound))
                        },
                        _ => Err(
                            runtime_error(
                                method,
                                RuntimeErrorType::UndefinedProperty(method.lexeme.clone()),
                            ),
                        ),
                    },
                    None => Err(
                        runtime_error(
                            method,
                            RuntimeErrorType::UndefinedProperty(method.lexeme.clone()),
                        ),
                    ),
                }
            },
            _ => Err(runtime_error(keyword, RuntimeErrorType::BugEnvironmentNotInit)),
        }
    }

    /// Runs a function of the host.
    fn call_native(&mut self, function: NativeFunction, args: &Vec<Object>) -> (r: Result<
        Object,
        InterpreterError,
    >)
        ensures
            final(self).kept(old(self)),
            forall|host: Seq<Value>| #[trigger]
                semantics::told(host, final(self)@.heard) ==> final(self).follows(
                    r,
                    semantics::native(host, old(self)@, function, values_of(*args)),
                ),
            final(self)@ == (Machine { heard: final(self)@.heard, ..old(self)@ }),
            settled(r),
            function is Clock ==> r is Ok && r->Ok_0 is Number,
            function is Instant ==> r is Ok && r->Ok_0 is NativeObject,
            function is Elapsed && semantics::elapsed_reads(values_of(*args)) ==> r is Ok && r->Ok_0
                is Number,
    {
        match function {
            NativeFunction::Get => native_get(args),
            NativeFunction::Panic => native_panic(args),
            NativeFunction::Text => native_text(args),
            NativeFunction::Exit => Err(InterpreterError::Exit(0)),
            NativeFunction::ExitWithCode => native_exit_with_code(args),
            NativeFunction::Clock => {
                let reading = system_now();
                let micros = match since_epoch(&reading) {
                    Some(span) => Some(duration_micros(&span)),
                    None => None,
                };
                let value = clock_result(micros);
                self.told = Ghost(self.told@.push(value@));
                Ok(value)
            },
            NativeFunction::Instant => {
                let value = instant_result(instant_now());
                self.told = Ghost(self.told@.push(value@));
                Ok(value)
            },
            NativeFunction::Elapsed => {
                if args.len() >= 1 {
                    match &args[0] {
                        Object::NativeObject(native) => {
                            let span = instant_elapsed(&native.clone().extract());
                            let value = elapsed_result(duration_micros(&span));
                            self.told = Ghost(self.told@.push(value@));
                            Ok(value)
                        },
                        _ => Ok(Object::Nil),
                    }
                } else {
                    Ok(Object::Nil)
                }
            },
        }
    }

    /// Makes the class of a declaration whose superclass, if it has one,
    /// evaluated to the pair `superclass`, and binds it to its name.
    #[verifier::loop_isolation(false)]
    fn declare_class(
        &mut self,
        name: &Token,
        methods: &Vec<Rc<Fun>>,
        superclass: Option<(Object, Rc<Class>)>,
    )
        ensures
            final(self)@.heard == old(self)@.heard,
            final(self)@ == semantics::declare_class(
                old(self)@,
                name@,
                funs_view(*methods),
                match superclass {
                    Some(parent) => Some((parent.0@, parent.1@)),
                    None => None,
                },
            ),
    {
        let origin = self.env;
        let (closure, parent) = match superclass {
            Some((value, class)) => {
                let frame = self.allocate(Some(origin));
                self.define_in(frame, String::from_str("super"), Some(value));
                (frame, Some(class))
            },
            None => (origin, None),
        };
        let mut table: Vec<Method> = Vec::new();
        let init = String::from_str("init");
        let mut i: usize = 0;
        while i < methods.len()
            invariant
                i <= methods.len(),
                table.len() == i,
                init@ == "init"@,
                methods_view(table, i as int) == semantics::method_table(
                    funs_view(*methods),
                    i as int,
                    closure,
                ),
            decreases methods.len() - i,
        {
            let declaration = &methods[i];
            let is_init = declaration.name.lexeme == init;
            let function = Callable::new(Some(share(declaration)), Some(closure), is_init);
            let ghost before = table;
            table.push(Method { name: declaration.name.lexeme.clone(), function });
            proof {
                lemma_methods_prefix(before, table, i as int);
                assert(table[i as int].name@ == methods[i as int].name.lexeme@);
                assert(funs_view(*methods)[i as int] == fun_view(*methods[i as int]));
                assert(table[i as int].function@ == semantics::closure_of(
                    fun_view(*methods[i as int]),
                    Some(closure),
                    methods[i as int].name.lexeme@ == "init"@,
                ));
            }
            i += 1;
        }
        let class = Class::new(&mut self.ids, name.lexeme.clone(), table, parent);
        let ghost made = class@;
        let value = Object::Shared(Rc::new(Object::Class(Rc::new(class))));
        proof {
            reveal_with_fuel(object_view, 3);
            assert(value@ == Value::Shared(Box::new(Value::Class(made))));
        }
        self.define_in(origin, name.lexeme.clone(), Some(value));
    }

    /// Evaluates an expression within the budget `fuel`.
    pub fn evaluate(&mut self, expr: &Expr, fuel: u64) -> (r: Result<Object, InterpreterError>)
        ensures
            final(self).kept(old(self)),
            forall|host: Seq<Value>| #[trigger]
                semantics::told(host, final(self)@.heard) ==> final(self).follows(
                    r,
                    semantics::evaluate(host, old(self)@, expr_view(*expr), fuel as int),
                ),
        decreases fuel, 1int,
    {
        if fuel == 0 {
            return Err(InterpreterError::BudgetExhausted);
        }
        match expr {
            Expr::Literal(literal) => self.visit_literal(literal),
            Expr::Grouping(grouping) => self.visit_grouping(grouping, fuel),
            Expr::Variable(variable) => self.visit_variable(variable),
            Expr::SelfExpr(self_val) => self.visit_self(self_val),
            Expr::Assign(assign) => self.visit_assign(assign, fuel),
            Expr::Unary(unary) => self.visit_unary(unary, fuel),
            Expr::Binary(binary) => self.visit_binary(binary, fuel),
            Expr::Logical(logical) => self.visit_logical(logical, fuel),
            Expr::Call(call) => self.visit_call(call, fuel),
            Expr::Get(get) => self.visit_get(get, fuel),
            Expr::SetExpr(set) => self.visit_set(set, fuel),
            Expr::Super(super_val) => self.super_method(
                super_val.id,
                &super_val.keyword,
                &super_val.method,
            ),
            Expr::List(list) => self.visit_list(list, fuel),
        }
    }

    /// Evaluates expressions from left to right.
    fn evaluate_all(&mut self, exprs: &Vec<Expr>, fuel: u64) -> (r: Result<
        Vec<Object>,
        InterpreterError,
    >)
        ensures
            final(self).kept(old(self)),
            forall|host: Seq<Value>|
                #[trigger] semantics::told(host, final(self)@.heard) ==> {
                    let s = semantics::evaluate_all(
                        host,
                        old(self)@,
                        exprs_view(*exprs),
                        0,
                        Seq::empty(),
                        fuel as int,
                    );
                    &&& final(self)@ == s.machine
                    &&& match s.result {
                        Ok(values) => r is Ok && values_of(r->Ok_0) == values,
                        Err(error) => r is Err && r->Err_0@ == error,
                    }
                },
        decreases fuel, 2int,
    {
        let mut values: Vec<Object> = Vec::new();
        let mut i: usize = 0;
        assert(values_of(values) =~= Seq::<Value>::empty());
        while i < exprs.len()
            invariant
                i <= exprs.len(),
                self.kept(old(self)),
                forall|host: Seq<Value>|
                    #[trigger] semantics::told(host, self@.heard) ==> semantics::evaluate_all(
                        host,
                        old(self)@,
                        exprs_view(*exprs),
                        0,
                        Seq::empty(),
                        fuel as int,
                    ) == semantics::evaluate_all(
                        host,
                        self@,
                        exprs_view(*exprs),
                        i as int,
                        values_of(values),
                        fuel as int,
                    ),
            decreases exprs.len() - i,
        {
            let ghost done = values_of(values);
            match self.evaluate(&exprs[i], fuel) {
                Ok(value) => {
                    values.push(value);
                    assert(values_of(values) =~= done.push(value@));
                },
                Err(error) => {
                    return Err(error);
                },
            }
            i += 1;
        }
        Ok(values)
    }

    fn visit_literal(&mut self, literal: &Literal) -> (r: Result<
        Object,
        InterpreterError,
    >)
        ensures
            final(self).kept(old(self)),
            final(self).follows(
                r,
                semantics::step(
                    old(self)@,
                    Ok(semantics::literal_value(literal_view(literal.value))),
                ),
            ),
    {
        match &literal.value {
            Some(value) => Ok(Object::literal(value)),
            None => Ok(Object::Nil),
        }
    }

    fn visit_grouping(&mut self, grouping: &Grouping, fuel: u64) -> (r:
        Result<Object, InterpreterError>)
        requires
            fuel > 0,
        ensures
            final(self).kept(old(self)),
            forall|host: Seq<Value>| #[trigger]
                semantics::told(host, final(self)@.heard) ==> final(self).follows(
                    r,
                    semantics::evaluate(
                        host,
                        old(self)@,
                        expr_view(Expr::Grouping(*grouping)),
                        fuel as int,
                    ),
                ),
        decreases fuel, 0int,
    {
        self.evaluate(&grouping.expression, fuel - 1)
    }

    fn visit_variable(&mut self, variable: &Variable) -> (r: Result<
        Object,
        InterpreterError,
    >)
        ensures
            final(self).kept(old(self)),
            final(self).follows(
                r,
                semantics::step(
                    old(self)@,
                    semantics::lookup(old(self)@, variable.token@, variable.id),
                ),
            ),
    {
        self.look_up_variable(&variable.token, variable.id)
    }

    fn visit_self(&mut self, self_val: &SelfExpr) -> (r: Result<
        Object,
        InterpreterError,
    >)
        ensures
            final(self).kept(old(self)),
            final(self).follows(
                r,
                semantics::step(
                    old(self)@,
                    semantics::lookup(old(self)@, self_val.name@, self_val.id),
                ),
            ),
    {
        self.look_up_variable(&self_val.name, self_val.id)
    }

    fn visit_assign(&mut self, assign: &Assign, fuel: u64) -> (r:
        Result<Object, InterpreterError>)
        requires
            fuel > 0,
        ensures
            final(self).kept(old(self)),
            forall|host: Seq<Value>| #[trigger]
                semantics::told(host, final(self)@.heard) ==> final(self).follows(
                    r,
                    semantics::evaluate(
                        host,
                        old(self)@,
                        expr_view(Expr::Assign(*assign)),
                        fuel as int,
                    ),
                ),
        decreases fuel, 0int,
    {
        let value = match self.evaluate(&assign.value, fuel - 1) {
            Ok(value) => value,
            Err(error) => {
                return Err(error);
            },
        };
        self.assign_variable(&assign.token, assign.id, value)
    }

    fn visit_unary(&mut self, unary: &Unary, fuel: u64) -> (r: Result<
        Object,
        InterpreterError,
    >)
        requires
            fuel > 0,
        ensures
            final(self).kept(old(self)),
            forall|host: Seq<Value>| #[trigger]
                semantics::told(host, final(self)@.heard) ==> final(self).follows(
                    r,
                    semantics::evaluate(
                        host,
                        old(self)@,
                        expr_view(Expr::Unary(*unary)),
                        fuel as int,
                    ),
                ),
        decreases fuel, 0int,
    {
        let obj = match self.evaluate(&unary.right, fuel - 1) {
            Ok(value) => value,
            Err(error) => {
                return Err(error);
            },
        };
        Interpreter::unary_op(&unary.operator, &obj)
    }

    /// Evaluates a binary expression: the left operand, then the right
    /// one, then the operator on their values; an error of the operator
    /// is attributed to its token.
    pub fn visit_binary(&mut self, binary: &Binary, fuel: u64) -> (r:
        Result<Object, InterpreterError>)
        requires
            fuel > 0,
        ensures
            final(self).kept(old(self)),
            forall|host: Seq<Value>| #[trigger]
                semantics::told(host, final(self)@.heard) ==> final(self).follows(
                    r,
                    semantics::evaluate(
                        host,
                        old(self)@,
                        expr_view(Expr::Binary(*binary)),
                        fuel as int,
                    ),
                ),
        decreases fuel, 0int,
    {
        let left = match self.evaluate(&binary.left, fuel - 1) {
            Ok(value) => value,
            Err(error) => {
                return Err(error);
            },
        };
        let right = match self.evaluate(&binary.right, fuel - 1) {
            Ok(value) => value,
            Err(error) => {
                return Err(error);
            },
        };
        Interpreter::binary_op(&binary.operation, &left, &right)
    }

    fn visit_logical(&mut self, logical: &Logical, fuel: u64) -> (r:
        Result<Object, InterpreterError>)
        requires
            fuel > 0,
        ensures
            final(self).kept(old(self)),
            forall|host: Seq<Value>| #[trigger]
                semantics::told(host, final(self)@.heard) ==> final(self).follows(
                    r,
                    semantics::evaluate(
                        host,
                        old(self)@,
                        expr_view(Expr::Logical(*logical)),
                        fuel as int,
                    ),
                ),
        decreases fuel, 0int,
    {
        let left = match self.evaluate(&logical.left, fuel - 1) {
            Ok(value) => value,
            Err(error) => {
                return Err(error);
            },
        };
        if logical.operator.token_type == TokenType::Or {
            if left.is_truly() {
                return Ok(left);
            }
        } else if !left.is_truly() {
            return Ok(left);
        }
        self.evaluate(&logical.right, fuel - 1)
    }

    fn visit_call(&mut self, call_: &Call, fuel: u64) -> (r: Result<
        Object,
        InterpreterError,
    >)
        requires
            fuel > 0,
        ensures
            final(self).kept(old(self)),
            forall|host: Seq<Value>| #[trigger]
                semantics::told(host, final(self)@.heard) ==> final(self).follows(
                    r,
                    semantics::evaluate(
                        host,
                        old(self)@,
                        expr_view(Expr::Call(*call_)),
                        fuel as int,
                    ),
                ),
        decreases fuel, 0int,
    {
        let target = match self.evaluate(&call_.callable, fuel - 1) {
            Ok(value) => value,
            Err(error) => {
                return Err(error);
            },
        };
        let args = match self.evaluate_all(&call_.args, fuel - 1) {
            Ok(values) => values,
            Err(error) => {
                return Err(error);
            },
        };
        match as_callee(target) {
            Object::Callable(callable) => {
                if args.len() != callable.arity() {
                    return Err(
                        runtime_error(&call_.parens, RuntimeErrorType::ArityOfFuncNotEqSizeOfArgs),
                    );
                }
                let done = self.call(&callable, args, fuel - 1);
                Interpreter::handle_runtime_error(&call_.parens, done)
            },
            _ => Err(runtime_error(&call_.parens, RuntimeErrorType::NotCallable)),
        }
    }

    fn visit_get(&mut self, get: &Get, fuel: u64) -> (r: Result<
        Object,
        InterpreterError,
    >)
        requires
            fuel > 0,
        ensures
            final(self).kept(old(self)),
            forall|host: Seq<Value>| #[trigger]
                semantics::told(host, final(self)@.heard) ==> final(self).follows(
                    r,
                    semantics::evaluate(host, old(self)@, expr_view(Expr::Get(*get)), fuel as int),
                ),
        decreases fuel, 0int,
    {
        let obj = match self.evaluate(&get.object, fuel - 1) {
            Ok(value) => value,
            Err(error) => {
                return Err(error);
            },
        };
        match &obj {
            Object::Instance(instance) => self.get_property(instance, &get.name),
            _ => Err(runtime_error(&get.name, RuntimeErrorType::OnlyInstancesHaveProperties)),
        }
    }

    fn visit_set(&mut self, set: &SetExpr, fuel: u64) -> (r: Result<
        Object,
        InterpreterError,
    >)
        requires
            fuel > 0,
        ensures
            final(self).kept(old(self)),
            forall|host: Seq<Value>| #[trigger]
                semantics::told(host, final(self)@.heard) ==> final(self).follows(
                    r,
                    semantics::evaluate(
                        host,
                        old(self)@,
                        expr_view(Expr::SetExpr(*set)),
                        fuel as int,
                    ),
                ),
        decreases fuel, 0int,
    {
        let obj = match self.evaluate(&set.obj, fuel - 1) {
            Ok(value) => value,
            Err(error) => {
                return Err(error);
            },
        };
        match &obj {
            Object::Instance(instance) => {
                let value = match self.evaluate(&set.value, fuel - 1) {
                    Ok(value) => value,
                    Err(error) => {
                        return Err(error);
                    },
                };
                self.set_property(instance, &set.name, value)
            },
            _ => Err(runtime_error(&set.name, RuntimeErrorType::OnlyInstancesHaveProperties)),
        }
    }

    fn visit_list(&mut self, list: &List, fuel: u64) -> (r: Result<
        Object,
        InterpreterError,
    >)
        requires
            fuel > 0,
        ensures
            final(self).kept(old(self)),
            forall|host: Seq<Value>| #[trigger]
                semantics::told(host, final(self)@.heard) ==> final(self).follows(
                    r,
                    semantics::evaluate(
                        host,
                        old(self)@,
                        expr_view(Expr::List(*list)),
                        fuel as int,
                    ),
                ),
        decreases fuel, 0int,
    {
        match self.evaluate_all(&list.values, fuel - 1) {
            Ok(values) => Ok(Object::List(values)),
            Err(error) => Err(error),
        }
    }

    /// Calls a callable with arguments of which there are as many as it
    /// takes.
    pub fn call(&mut self, callable: &Callable, args: Vec<Object>, fuel: u64) -> (r: Result<
        Object,
        InterpreterError,
    >)
        ensures
            final(self).kept(old(self)),
            forall|host: Seq<Value>| #[trigger]
                semantics::told(host, final(self)@.heard) ==> final(self).follows(
                    r,
                    semantics::call(host, old(self)@, callable@, values_of(args), fuel as int),
                ),
            settled(r),
            callable.behaviour is Construct && r is Ok ==> is_instance(
                r->Ok_0,
                callable.behaviour->Construct_0,
                old(self)@.heap.instances.len(),
            ),
        decreases fuel, 1int,
    {
        if fuel == 0 {
            return Err(InterpreterError::BudgetExhausted);
        }
        match &callable.behaviour {
            Behaviour::Native(function) => self.call_native(*function, &args),
            Behaviour::Function => match &callable.declaration {
                Some(declaration) => self.call_function(callable, declaration, args, fuel),
                None => Ok(Object::Nil),
            },
            Behaviour::Construct(class) => self.construct(class, args, fuel),
        }
    }

    /// Runs the body of a closure in a new frame that holds its
    /// parameters.
    fn call_function(
        &mut self,
        callable: &Callable,
        declaration: &Rc<Fun>,
        args: Vec<Object>,
        fuel: u64,
    ) -> (r: Result<Object, InterpreterError>)
        requires
            fuel > 0,
            callable.declaration == Some(*declaration),
            callable.behaviour is Function,
        ensures
            final(self).kept(old(self)),
            forall|host: Seq<Value>| #[trigger]
                semantics::told(host, final(self)@.heard) ==> final(self).follows(
                    r,
                    semantics::call(host, old(self)@, callable@, values_of(args), fuel as int),
                ),
            settled(r),
        decreases fuel, 0int,
    {
        let frame = self.allocate(callable.closure);
        let ghost allocated = self@;
        let ghost values = values_of(args);
        let mut i: usize = 0;
        while i < declaration.params.len() && i < args.len()
            invariant
                i <= declaration.params.len(),
                i <= args.len(),
                values == values_of(args),
                self@.heard == old(self)@.heard,
                self@.env == old(self)@.env,
                self@.globals == old(self)@.globals,
                semantics::bind_params(allocated, frame, token_views(declaration.params@), values, 0)
                    == semantics::bind_params(
                    self@,
                    frame,
                    token_views(declaration.params@),
                    values,
                    i as int,
                ),
            decreases declaration.params.len() - i,
        {
            assert(values[i as int] == args[i as int]@);
            self.define_in(frame, declaration.params[i].lexeme.clone(), Some(args[i].clone()));
            i += 1;
        }
        let body = self.execute_block(&declaration.body, frame, fuel - 1);
        self.finish_call(callable, declaration, frame, body)
    }

    /// The result of a call whose body ended with `body` in the frame
    /// `frame`.
    fn finish_call(
        &self,
        callable: &Callable,
        declaration: &Rc<Fun>,
        frame: usize,
        body: Result<Object, InterpreterError>,
    ) -> (r: Result<Object, InterpreterError>)
        requires
            callable.declaration == Some(*declaration),
        ensures
            agrees(r, semantics::returned(self@, callable@, frame, outcome_of(body))),
            settled(r),
    {
        match body {
            Ok(value) => {
                if callable.is_init {
                    self.instance_of(declaration, frame)
                } else {
                    Ok(value)
                }
            },
            Err(InterpreterError::Return(value)) => {
                if callable.is_init {
                    self.instance_of(declaration, frame)
                } else {
                    Ok(value)
                }
            },
            Err(error) => Err(error),
        }
    }

    /// The instance that `self` names for the body of an initializer.
    fn instance_of(&self, declaration: &Rc<Fun>, frame: usize) -> (r: Result<
        Object,
        InterpreterError,
    >)
        ensures
            agrees(
                r,
                crate::interpreter::environment::read_at(
                    self@.heap.frames,
                    Some(frame),
                    0,
                    semantics::init_self_token(declaration.name@),
                ),
            ),
            r is Err ==> r->Err_0 is RuntimeError,
    {
        let name = &declaration.name;
        let this = Token::new(
            TokenType::Identifier,
            "self",
            name.get_lit(),
            name.get_line(),
            name.get_pos_in_line(),
        );
        Environment::get_at(&self.heap, Some(frame), 0, &this)
    }

    /// Makes an instance of `class` and runs its initializer, if it has
    /// one; the result is the instance, whatever the initializer
    /// returned.
    fn construct(&mut self, class: &Rc<Class>, args: Vec<Object>, fuel: u64) -> (r: Result<
        Object,
        InterpreterError,
    >)
        requires
            fuel > 0,
        ensures
            final(self).kept(old(self)),
            forall|host: Seq<Value>| #[trigger]
                semantics::told(host, final(self)@.heard) ==> final(self).follows(
                    r,
                    semantics::call(
                        host,
                        old(self)@,
                        semantics::constructor(class@),
                        values_of(args),
                        fuel as int,
                    ),
                ),
            settled(r),
            r is Ok ==> is_instance(r->Ok_0, *class, old(self)@.heap.instances.len()),
        decreases fuel, 0int,
    {
        let fields = self.heap.new_instance();
        let instance = Instance { class: share(class), fields };
        let init = String::from_str("init");
        match class.method_named(&init) {
            Some(initializer) => {
                let bound = self.bind(&initializer, &instance);
                match self.call(&bound, args, fuel - 1) {
                    Ok(_) => Ok(Object::Instance(instance)),
                    Err(error) => Err(error),
                }
            },
            None => Ok(Object::Instance(instance)),
        }
    }

    /// Executes a statement within the budget `fuel`.
    pub fn execute(&mut self, statement: &Stmt, fuel: u64) -> (r: Result<Object, InterpreterError>)
        ensures
            final(self).kept(old(self)),
            forall|host: Seq<Value>| #[trigger]
                semantics::told(host, final(self)@.heard) ==> final(self).follows(
                    r,
                    semantics::execute(host, old(self)@, stmt_view(*statement), fuel as int),
                ),
        decreases fuel, 1int,
    {
        if fuel == 0 {
            return Err(InterpreterError::BudgetExhausted);
        }
        match statement {
            Stmt::Expr(stmt) => self.visit_expr(stmt, fuel),
            Stmt::Print(stmt) => self.visit_print(stmt, fuel),
            Stmt::Let(stmt) => self.visit_let(stmt, fuel),
            Stmt::Block(stmt) => self.visit_block(stmt, fuel),
            Stmt::If(stmt) => self.visit_if(stmt, fuel),
            Stmt::While(stmt) => self.visit_while(stmt, fuel),
            Stmt::Fun(stmt) => self.visit_fun(stmt),
            Stmt::Return(stmt) => self.visit_return(stmt, fuel),
            Stmt::Class(stmt) => self.visit_class(stmt),
            Stmt::Export(stmt) => self.visit_export(stmt, fuel),
            Stmt::Use(stmt) => self.visit_use(stmt),
        }
    }

    /// Executes statements in order; the result is that of the last one.
    pub fn interpret(&mut self, statements: &Vec<Stmt>, fuel: u64) -> (r: Result<
        Object,
        InterpreterError,
    >)
        ensures
            final(self).kept(old(self)),
            forall|host: Seq<Value>| #[trigger]
                semantics::told(host, final(self)@.heard) ==> final(self).follows(
                    r,
                    semantics::interpret(host, old(self)@, stmts_view(*statements), fuel as int),
                ),
        decreases fuel, 2int,
    {
        let mut res = Object::Void;
        let mut i: usize = 0;
        while i < statements.len()
            invariant
                i <= statements.len(),
                self.kept(old(self)),
                forall|host: Seq<Value>|
                    #[trigger] semantics::told(host, self@.heard) ==> semantics::execute_all(
                        host,
                        old(self)@,
                        stmts_view(*statements),
                        0,
                        Value::Void,
                        fuel as int,
                    ) == semantics::execute_all(
                        host,
                        self@,
                        stmts_view(*statements),
                        i as int,
                        res@,
                        fuel as int,
                    ),
            decreases statements.len() - i,
        {
            match self.execute(&statements[i], fuel) {
                Ok(value) => {
                    res = value;
                },
                Err(error) => {
                    return Err(error);
                },
            }
            i += 1;
        }
        Ok(res)
    }

    /// Executes statements in the frame `environment` and goes back to
    /// the frame of before, whatever the outcome.
    pub fn execute_block(&mut self, statements: &Vec<Stmt>, environment: usize, fuel: u64) -> (r:
        Result<Object, InterpreterError>)
        ensures
            final(self).kept(old(self)),
            forall|host: Seq<Value>| #[trigger]
                semantics::told(host, final(self)@.heard) ==> final(self).follows(
                    r,
                    semantics::execute_block(
                        host,
                        old(self)@,
                        stmts_view(*statements),
                        environment,
                        fuel as int,
                    ),
                ),
            r is Ok ==> r->Ok_0 is Void,
        decreases fuel, 3int,
    {
        let previous = self.env;
        self.env = environment;
        assert(self@.heard == old(self)@.heard);
        assert(self@ == (Machine { env: environment, ..old(self)@ }));
        let ran = self.interpret(statements, fuel);
        let ghost inside = self@;
        self.env = previous;
        assert(self@.heard == inside.heard);
        assert(self@ == (Machine { env: previous, ..inside }));
        match ran {
            Ok(_) => Ok(Object::Void),
            Err(error) => Err(error),
        }
    }

    fn visit_expr(&mut self, stmt: &StmtExpr, fuel: u64) -> (r:
        Result<Object, InterpreterError>)
        requires
            fuel > 0,
        ensures
            final(self).kept(old(self)),
            forall|host: Seq<Value>| #[trigger]
                semantics::told(host, final(self)@.heard) ==> final(self).follows(
                    r,
                    semantics::execute(host, old(self)@, stmt_view(Stmt::Expr(*stmt)), fuel as int),
                ),
        decreases fuel, 0int,
    {
        self.evaluate(&stmt.expr, fuel - 1)
    }

    fn visit_print(&mut self, stmt: &Print, fuel: u64) -> (r: Result<
        Object,
        InterpreterError,
    >)
        requires
            fuel > 0,
        ensures
            final(self).kept(old(self)),
            forall|host: Seq<Value>| #[trigger]
                semantics::told(host, final(self)@.heard) ==> final(self).follows(
                    r,
                    semantics::execute(
                        host,
                        old(self)@,
                        stmt_view(Stmt::Print(*stmt)),
                        fuel as int,
                    ),
                ),
        decreases fuel, 0int,
    {
        let value = match self.evaluate(&stmt.expr, fuel - 1) {
            Ok(value) => value,
            Err(error) => {
                return Err(error);
            },
        };
        self.print(value.to_string());
        Ok(Object::Nil)
    }

    /// Writes one line of output.
    fn print(&mut self, line: String)
        ensures
            final(self)@.heard == old(self)@.heard,
            final(self)@ == (Machine {
                output: old(self)@.output.push(line@),
                ..old(self)@
            }),
    {
        let ghost before = self.output@;
        self.output.push(line);
        assert(lines_view(self.output@) =~= lines_view(before).push(line@));
    }

    fn visit_let(&mut self, stmt: &Let, fuel: u64) -> (r: Result<
        Object,
        InterpreterError,
    >)
        requires
            fuel > 0,
        ensures
            final(self).kept(old(self)),
            forall|host: Seq<Value>| #[trigger]
                semantics::told(host, final(self)@.heard) ==> final(self).follows(
                    r,
                    semantics::execute(host, old(self)@, stmt_view(Stmt::Let(*stmt)), fuel as int),
                ),
        decreases fuel, 0int,
    {
        match &stmt.initializer {
            Some(initializer) => {
                let value = match self.evaluate(initializer, fuel - 1) {
                    Ok(value) => value,
                    Err(error) => {
                        return Err(error);
                    },
                };
                let env = self.env;
                self.define_in(env, stmt.ident.lexeme.clone(), Some(value));
            },
            None => {
                let env = self.env;
                self.define_in(env, stmt.ident.lexeme.clone(), None);
            },
        }
        Ok(Object::Nil)
    }

    fn visit_block(&mut self, stmt: &Block, fuel: u64) -> (r: Result<
        Object,
        InterpreterError,
    >)
        requires
            fuel > 0,
        ensures
            final(self).kept(old(self)),
            forall|host: Seq<Value>| #[trigger]
                semantics::told(host, final(self)@.heard) ==> final(self).follows(
                    r,
                    semantics::execute(
                        host,
                        old(self)@,
                        stmt_view(Stmt::Block(*stmt)),
                        fuel as int,
                    ),
                ),
        decreases fuel, 0int,
    {
        let frame = self.allocate(Some(self.env));
        match self.execute_block(&stmt.stmts, frame, fuel - 1) {
            Ok(_) => Ok(Object::Nil),
            Err(error) => Err(error),
        }
    }

    fn visit_if(&mut self, stmt: &If, fuel: u64) -> (r: Result<
        Object,
        InterpreterError,
    >)
        requires
            fuel > 0,
        ensures
            final(self).kept(old(self)),
            forall|host: Seq<Value>| #[trigger]
                semantics::told(host, final(self)@.heard) ==> final(self).follows(
                    r,
                    semantics::execute(host, old(self)@, stmt_view(Stmt::If(*stmt)), fuel as int),
                ),
        decreases fuel, 0int,
    {
        let cond = match self.evaluate(&stmt.cond, fuel - 1) {
            Ok(value) => value,
            Err(error) => {
                return Err(error);
            },
        };
        if cond.is_truly() {
            match self.execute(&stmt.then_stmt, fuel - 1) {
                Ok(_) => Ok(Object::Nil),
                Err(error) => Err(error),
            }
        } else {
            match &stmt.else_stmt {
                Some(else_stmt) => match self.execute(else_stmt, fuel - 1) {
                    Ok(_) => Ok(Object::Nil),
                    Err(error) => Err(error),
                },
                None => Ok(Object::Nil),
            }
        }
    }

    fn visit_while(&mut self, stmt: &While, fuel: u64) -> (r: Result<
        Object,
        InterpreterError,
    >)
        requires
            fuel > 0,
        ensures
            final(self).kept(old(self)),
            forall|host: Seq<Value>| #[trigger]
                semantics::told(host, final(self)@.heard) ==> final(self).follows(
                    r,
                    semantics::execute(
                        host,
                        old(self)@,
                        stmt_view(Stmt::While(*stmt)),
                        fuel as int,
                    ),
                ),
        decreases fuel, 0int,
    {
        let mut left = fuel - 1;
        loop
            invariant
                left < fuel,
                self.kept(old(self)),
                forall|host: Seq<Value>|
                    #[trigger] semantics::told(host, self@.heard) ==> semantics::execute_while(
                        host,
                        old(self)@,
                        expr_view(stmt.cond),
                        stmt_view(*stmt.stmt),
                        (fuel - 1) as int,
                    ) == semantics::execute_while(
                        host,
                        self@,
                        expr_view(stmt.cond),
                        stmt_view(*stmt.stmt),
                        left as int,
                    ),
            decreases left,
        {
            if left == 0 {
                return Err(InterpreterError::BudgetExhausted);
            }
            let cond = match self.evaluate(&stmt.cond, left - 1) {
                Ok(value) => value,
                Err(error) => {
                    return Err(error);
                },
            };
            if !cond.is_truly() {
                return Ok(Object::Nil);
            }
            match self.execute(&stmt.stmt, left - 1) {
                Ok(_) => {},
                Err(error) => {
                    return Err(error);
                },
            }
            left -= 1;
        }
    }

    fn visit_fun(&mut self, stmt: &Rc<Fun>) -> (r: Result<Object, InterpreterError>)
        ensures
            final(self).kept(old(self)),
            final(self).follows(
                r,
                semantics::step(
                    semantics::define(
                        old(self)@,
                        old(self)@.env,
                        stmt.name.lexeme@,
                        Some(
                            Value::Callable(
                                semantics::closure_of(
                                    fun_view(**stmt),
                                    Some(old(self)@.env),
                                    false,
                                ),
                            ),
                        ),
                    ),
                    Ok(Value::Nil),
                ),
            ),
    {
        let env = self.env;
        let func = Object::Callable(Callable::new(Some(share(stmt)), Some(env), false));
        self.define_in(env, stmt.name.lexeme.clone(), Some(func));
        Ok(Object::Nil)
    }

    fn visit_return(&mut self, stmt: &Return, fuel: u64) -> (r:
        Result<Object, InterpreterError>)
        requires
            fuel > 0,
        ensures
            final(self).kept(old(self)),
            forall|host: Seq<Value>| #[trigger]
                semantics::told(host, final(self)@.heard) ==> final(self).follows(
                    r,
                    semantics::execute(
                        host,
                        old(self)@,
                        stmt_view(Stmt::Return(*stmt)),
                        fuel as int,
                    ),
                ),
        decreases fuel, 0int,
    {
        match &stmt.expr {
            Some(expr) => match self.evaluate(expr, fuel - 1) {
                Ok(value) => Err(InterpreterError::Return(value)),
                Err(error) => Err(error),
            },
            None => Err(InterpreterError::Return(Object::Nil)),
        }
    }

    fn visit_class(&mut self, class: &crate::interpreter::ast::stmt::Class) -> (r: Result<
        Object,
        InterpreterError,
    >)
        ensures
            final(self).kept(old(self)),
            forall|host: Seq<Value>| #[trigger]
                semantics::told(host, final(self)@.heard) ==> final(self).follows(
                    r,
                    semantics::execute(host, old(self)@, stmt_view(Stmt::Class(*class)), 1),
                ),
    {
        match &class.super_class {
            Some(variable) => match self.look_up_variable(&variable.token, variable.id) {
                Ok(Object::Shared(parent_value)) => {
                    proof {
                        reveal_with_fuel(object_view, 2);
                    }
                    match &*parent_value {
                        Object::Class(parent) => {
                            let parent_class = share(parent);
                            self.declare_class(
                                &class.name,
                                &class.methods,
                                Some((Object::Shared(parent_value), parent_class)),
                            );
                            Ok(Object::Nil)
                        },
                        _ => Err(
                            runtime_error(&variable.token, RuntimeErrorType::SuperclassMustBeClass),
                        ),
                    }
                },
                Ok(_) => Err(
                    runtime_error(&variable.token, RuntimeErrorType::SuperclassMustBeClass),
                ),
                Err(error) => Err(error),
            },
            None => {
                self.declare_class(&class.name, &class.methods, None);
                Ok(Object::Nil)
            },
        }
    }

    fn visit_export(&mut self, stmt: &Export, fuel: u64) -> (r:
        Result<Object, InterpreterError>)
        requires
            fuel > 0,
        ensures
            final(self).kept(old(self)),
            forall|host: Seq<Value>| #[trigger]
                semantics::told(host, final(self)@.heard) ==> final(self).follows(
                    r,
                    semantics::execute(
                        host,
                        old(self)@,
                        stmt_view(Stmt::Export(*stmt)),
                        fuel as int,
                    ),
                ),
        decreases fuel, 0int,
    {
        match self.execute(&stmt.stmt, fuel - 1) {
            Ok(_) => Ok(Object::Nil),
            Err(error) => Err(error),
        }
    }

    fn visit_use(&mut self, stmt: &Use) -> (r: Result<
        Object,
        InterpreterError,
    >)
        ensures
            final(self).kept(old(self)),
            final(self).follows(r, semantics::step(old(self)@, Ok(Value::Nil))),
    {
        Ok(Object::Nil)
    }

    /// The outcome of a unary operator on a value.
    pub fn unary_op(op: &Token, value: &Object) -> (r: Result<Object, InterpreterError>)
        ensures
            agrees(r, semantics::unary(op@, value@)),
    {
        let res = match op.token_type {
            TokenType::Minus => raise(value.negated()),
            TokenType::Bang => Ok(value.not()),
            _ => Err(
                runtime_error(op, RuntimeErrorType::UnsupportedUnaryOperator(op.lexeme.clone())),
            ),
        };
        Interpreter::handle_runtime_error(op, res)
    }

    /// The outcome of a binary operator on two values.
    pub fn binary_op(op: &Token, left: &Object, right: &Object) -> (r: Result<Object, InterpreterError>)
        ensures
            agrees(r, semantics::binary(op@, left@, right@)),
    {
        let res = match op.token_type {
            TokenType::EqualEqual => Ok(Object::Bool(left.equals(right))),
            TokenType::BangEqual => Ok(Object::Bool(!left.equals(right))),
            TokenType::Greater => Ok(Object::Bool(left.compare(right) == Order::Greater)),
            TokenType::Less => Ok(Object::Bool(left.compare(right) == Order::Less)),
            TokenType::GreaterEqual => {
                let found = left.compare(right);
                Ok(Object::Bool(found == Order::Greater || found == Order::Equal))
            },
            TokenType::LessEqual => {
                let found = left.compare(right);
                Ok(Object::Bool(found == Order::Less || found == Order::Equal))
            },
            TokenType::Plus => raise(left.plus(right)),
            TokenType::Minus => raise(left.minus(right)),
            TokenType::Star => raise(left.times(right)),
            TokenType::Slash => raise(left.divided_by(right)),
            _ => Err(
                runtime_error(op, RuntimeErrorType::UnsupportedBinaryOperator(op.lexeme.clone())),
            ),
        };
        Interpreter::handle_runtime_error(op, res)
    }
}

/// The callable behind a value that is called.
fn as_callee(target: Object) -> (r: Object)
    ensures
        r@ == semantics::callee(target@),
{
    proof {
        reveal_with_fuel(object_view, 2);
    }
    let class = match &target {
        Object::Class(class) => Some(Class::constructor(class)),
        Object::Shared(shared) => match &**shared {
            Object::Class(class) => Some(Class::constructor(class)),
            _ => None,
        },
        _ => None,
    };
    match class {
        Some(constructor) => Object::Callable(constructor),
        None => target,
    }
}

/// `get(list, index)`.
fn native_get(args: &Vec<Object>) -> (r: Result<Object, InterpreterError>)
    ensures
        agrees(r, semantics::native_get(values_of(*args))),
{
    if args.len() >= 2 {
        assert(values_of(*args)[0] == args[0]@);
        assert(values_of(*args)[1] == args[1]@);
        match &args[0] {
            Object::List(items) => match &args[1] {
                Object::Number(n) => {
                    assert(args[0]@ == Value::List(values_of(*items)));
                    assert(args[1]@ == Value::Number(n.bits()));
                    Ok(element_at(items, n.to_index()))
                },
                _ => Ok(Object::Nil),
            },
            _ => Ok(Object::Nil),
        }
    } else {
        Ok(Object::Nil)
    }
}

/// `panic(msg)`.
fn native_panic(args: &Vec<Object>) -> (r: Result<Object, InterpreterError>)
    ensures
        agrees(r, semantics::native_panic(values_of(*args))),
{
    if args.len() >= 1 {
        assert(values_of(*args)[0] == args[0]@);
        Err(InterpreterError::RuntimeErrorType(RuntimeErrorType::UserPanicWithMsg(args[0].clone())))
    } else {
        Ok(Object::Nil)
    }
}

/// `string(v)`.
fn native_text(args: &Vec<Object>) -> (r: Result<Object, InterpreterError>)
    ensures
        agrees(r, semantics::native_text(values_of(*args))),
{
    if args.len() >= 1 {
        assert(values_of(*args)[0] == args[0]@);
        Ok(Object::String(args[0].to_string()))
    } else {
        Ok(Object::Nil)
    }
}

/// `exitWithCode(n)`.
fn native_exit_with_code(args: &Vec<Object>) -> (r: Result<Object, InterpreterError>)
    ensures
        agrees(r, semantics::native_exit_with_code(values_of(*args))),
{
    if args.len() >= 1 {
        assert(values_of(*args)[0] == args[0]@);
        match &args[0] {
            Object::Number(n) => Err(InterpreterError::Exit(n.to_i32())),
            other => Err(
                InterpreterError::RuntimeErrorType(RuntimeErrorType::CantToNum(other.get_type())),
            ),
        }
    } else {
        Ok(Object::Nil)
    }
}

/// The methods of the first `n` entries are the same in two tables that
/// agree on those entries.
proof fn lemma_methods_prefix(a: Vec<Method>, b: Vec<Method>, n: int)
    requires
        0 <= n <= a.len(),
        n <= b.len(),
        forall|k: int| 0 <= k < n ==> a[k] == b[k],
    ensures
        methods_view(a, n) == methods_view(b, n),
    decreases n,
{
    if n > 0 {
        lemma_methods_prefix(a, b, n - 1);
    }
}

} // verus!
