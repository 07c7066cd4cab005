use std::collections::HashMap;
use std::rc::Rc;
use yun_lib::interpreter::ast::stmt::Fun;
use yun_lib::interpreter::ast::stmt::Stmt;
use yun_lib::interpreter::error::InterpreterError;
use yun_lib::interpreter::exporter::parse_source;
use yun_lib::interpreter::exporter::requested;
use yun_lib::interpreter::exporter::Exporter;
use yun_lib::interpreter::exporter::Module;
use yun_lib::interpreter::native_functions::clock::clock_result;
use yun_lib::interpreter::native_functions::clock::elapsed_result;
use yun_lib::interpreter::native_functions::clock::seconds_result;
use yun_lib::interpreter::native_functions::clock::ClockFunc;
use yun_lib::interpreter::native_functions::list::element_at;
use yun_lib::interpreter::object::native_object::Native;
use yun_lib::interpreter::number::Number;
use yun_lib::interpreter::object::callable::Behaviour;
use yun_lib::interpreter::object::callable::Callable;
use yun_lib::interpreter::object::callable::NativeFunction;
use yun_lib::interpreter::object::class::Class;
use yun_lib::interpreter::object::class::Method;
use yun_lib::interpreter::object::instance::Instance;
use yun_lib::interpreter::object::native_object::NativeObject;
use yun_lib::interpreter::object::Object;
use yun_lib::interpreter::parser::resolver::Resolver;
use yun_lib::interpreter::scanner::token::token_type::TokenType;
use yun_lib::interpreter::scanner::token::Token;
use yun_lib::interpreter::yun_callable::YunCallable;
use yun_lib::interpreter::Interpreter;
use yun_lib::utils::IdAllocator;

const BUDGET: u64 = 100_000;

fn num(x: f64) -> Object {
    Object::Number(Number::from_bits(x.to_bits()))
}

fn value(o: &Object) -> f64 {
    match o {
        Object::Number(n) => f64::from_bits(n.to_bits()),
        _ => panic!("no number"),
    }
}

fn name(lexeme: &str) -> Token {
    Token::new(TokenType::Identifier, lexeme, None, 1, 1)
}

fn program(source: &str, ids: &mut IdAllocator) -> Vec<Stmt> {
    match parse_source(source, ids) {
        Ok(program) => program,
        Err(error) => panic!("{}", error.to_string()),
    }
}

fn resolve_into(interpreter: &mut Interpreter, statements: &Vec<Stmt>) {
    let mut resolver = Resolver::new(HashMap::new());
    match resolver.resolve(statements) {
        Ok(()) => {}
        Err(error) => panic!("{}", error.to_string()),
    }
    for (id, depth) in resolver.into_locals() {
        interpreter.resolve(id, depth);
    }
}

fn method(source: &str, ids: &mut IdAllocator, interpreter: &mut Interpreter) -> Rc<Fun> {
    let statements = program(source, ids);
    resolve_into(interpreter, &statements);
    match &statements[0] {
        Stmt::Class(class) => class.methods[0].clone(),
        Stmt::Fun(fun) => fun.clone(),
        _ => panic!("no declaration"),
    }
}

fn function(source: &str, ids: &mut IdAllocator) -> Rc<Fun> {
    let mut statements = program(source, ids);
    match statements.remove(0) {
        Stmt::Fun(fun) => fun,
        _ => panic!("no function"),
    }
}

#[test]
fn a_method_is_found_along_the_chain_of_superclasses() {
    let mut ids = IdAllocator::starting_at(100);
    let greet = Callable::new(Some(function("fun greet() {}", &mut ids)), None, false);
    let init = Callable::new(Some(function("fun init(a, b) {}", &mut ids)), None, true);
    let base = Rc::new(Class::new(
        &mut ids,
        "Base".to_string(),
        vec![Method { name: "greet".to_string(), function: greet.clone() }, Method { name: "init".to_string(), function: init }],
        None,
    ));
    let other = Callable::new(Some(function("fun other() {}", &mut ids)), None, false);
    let derived = Rc::new(Class::new(
        &mut ids,
        "Derived".to_string(),
        vec![Method { name: "other".to_string(), function: other }],
        Some(base.clone()),
    ));
    assert!(derived.find_method("other").is_some());
    assert!(derived.find_method("greet").unwrap().equals(&greet));
    assert!(derived.find_method("missing").is_none());
    assert!(base.find_method("other").is_none());
    assert_eq!(derived.to_string(), "Derived");
    let constructor = Class::constructor(&derived);
    assert_eq!(constructor.arity(), 2);
    assert_eq!(constructor.get_string(), "Derived");
    assert!(!constructor.is_init());
    assert!(Class::constructor(&base).is_init());
    assert_eq!(Class::constructor(&base).id, base.id);
    assert!(matches!(constructor.behaviour, Behaviour::Construct(_)));
}

#[test]
fn later_methods_replace_earlier_ones_of_the_same_name() {
    let mut ids = IdAllocator::new();
    let first = Callable::new(Some(function("fun m(a) {}", &mut ids)), None, false);
    let second = Callable::new(Some(function("fun m(a, b) {}", &mut ids)), None, false);
    let class = Class::new(
        &mut ids,
        "C".to_string(),
        vec![Method { name: "m".to_string(), function: first }, Method { name: "m".to_string(), function: second }],
        None,
    );
    assert_eq!(class.find_method("m").unwrap().arity(), 2);
}

#[test]
fn callables_know_their_name_and_arity() {
    let mut ids = IdAllocator::starting_at(7);
    let mut interpreter = Interpreter::new();
    let declaration = method("fun add(a, b) { return a + b; }", &mut ids, &mut interpreter);
    let callable = Callable::new(Some(declaration.clone()), Some(0), false);
    assert_eq!(callable.id, declaration.id);
    assert_eq!(callable.arity(), 2);
    assert_eq!(callable.get_string(), "add");
    assert_eq!(callable.get_closure(), Some(0));
    assert!(callable.get_declaration().is_some());
    assert!(!callable.is_init());
    assert_eq!(callable.to_string(), format!("<function#{} add>", declaration.id));
    let native = Callable::build(3, None, None, Behaviour::Native(NativeFunction::ExitWithCode), false);
    assert_eq!(native.arity(), 1);
    assert_eq!(native.get_string(), "exitWithCode");
    assert_eq!(native.to_string(), "<function#3 exitWithCode>");
    assert_eq!(NativeFunction::Get.arity(), 2);
    assert_eq!(NativeFunction::Text.name(), "string");
    let sum = callable.call(&mut interpreter, vec![num(1.0), num(2.0)], BUDGET).ok().unwrap();
    assert_eq!(value(&sum), 3.0);
    match Object::function(declaration, Some(0), false) {
        Object::Callable(c) => assert!(c.equals(&callable)),
        _ => panic!("no callable"),
    }
}

#[test]
fn instances_hold_fields_and_bind_methods() {
    let mut ids = IdAllocator::starting_at(50);
    let mut interpreter = Interpreter::new();
    let declaration = method("class Point { me() { return self; } }", &mut ids, &mut interpreter);
    let me = Callable::new(Some(declaration), Some(0), false);
    let class = match Object::class(&mut ids, "Point", vec![Method { name: "me".to_string(), function: me.clone() }], None) {
        Object::Class(class) => class,
        _ => panic!("no class"),
    };
    let a = Instance::new(&mut interpreter, &class);
    let b = Instance::new(&mut interpreter, &class);
    assert_eq!(a.to_string(), "Point instance");
    assert!(a.set(&mut interpreter, &name("x"), num(1.0)).is_ok());
    assert!(b.set(&mut interpreter, &name("x"), num(2.0)).is_ok());
    assert!(a.clone().set(&mut interpreter, &name("y"), num(3.0)).is_ok());
    assert_eq!(value(&a.get(&mut interpreter, &name("x")).ok().unwrap()), 1.0);
    assert_eq!(value(&b.get(&mut interpreter, &name("x")).ok().unwrap()), 2.0);
    assert_eq!(value(&a.get(&mut interpreter, &name("y")).ok().unwrap()), 3.0);
    match b.get(&mut interpreter, &name("y")) {
        Err(error) => assert_eq!(error.to_string(), "[1:1] Error at 'y': Undefined property 'y'\n"),
        Ok(_) => panic!("no error"),
    }
    let bound = match a.get(&mut interpreter, &name("me")) {
        Ok(Object::Callable(bound)) => bound,
        _ => panic!("no method"),
    };
    assert!(bound.equals(&me));
    match bound.call(&mut interpreter, Vec::new(), BUDGET) {
        Ok(Object::Instance(found)) => assert_eq!(found.fields, a.fields),
        _ => panic!("no instance"),
    }
    match Object::Callable(me).bind(&mut interpreter, b.clone()) {
        Ok(Object::Callable(bound)) => match bound.call(&mut interpreter, Vec::new(), BUDGET) {
            Ok(Object::Instance(found)) => assert_eq!(found.fields, b.fields),
            _ => panic!("no instance"),
        },
        _ => panic!("no method"),
    }
    let constructor = Class::constructor(&class);
    match interpreter.call(&constructor, Vec::new(), BUDGET) {
        Ok(Object::Instance(made)) => assert!(made.fields != a.fields && made.fields != b.fields),
        _ => panic!("no instance"),
    }
}

#[test]
fn the_module_resolver_keeps_exports_only() {
    let mut ids = IdAllocator::new();
    let ast = program("use \"a\"; let x = 1; use \"b/c\"; use 1; export let y = 2;", &mut ids);
    assert_eq!(requested(&ast), vec!["a", "b/c"]);
    let exporter = Exporter::new(Vec::new(), Vec::new());
    let kept = exporter.sift(ast).ok().unwrap();
    assert_eq!(kept.len(), 1);
    assert!(matches!(kept[0], Stmt::Export(_)));
    let main = program("let before = 0; use \"m\"; let after = 1;", &mut ids);
    let modules = vec![
        Module { path: "m".to_string(), source: "export let a = 1; let hidden = 2; export fun f() {}".to_string() },
        Module { path: "m".to_string(), source: "export let second = 1;".to_string() },
    ];
    let resolved = Exporter::new(modules, main).resolve(&mut ids).ok().unwrap();
    assert_eq!(resolved.len(), 4);
    assert!(matches!(resolved[0], Stmt::Let(_)));
    assert!(matches!(resolved[1], Stmt::Export(_)));
    assert!(matches!(resolved[2], Stmt::Export(_)));
    assert!(matches!(resolved[3], Stmt::Let(_)));
    let broken = program("use \"m\";", &mut ids);
    let modules = vec![Module { path: "m".to_string(), source: "export let = 1;".to_string() }];
    match Exporter::new(modules, broken).resolve(&mut ids) {
        Err(InterpreterError::Custom(text)) => assert_eq!(text, "[1:12] Error at '=': Expected variable name!\n"),
        _ => panic!("no parser error"),
    }
}

#[test]
fn the_clock_function_tells_the_seconds_since_the_epoch() {
    assert_eq!(ClockFunc::arity(), 0);
    let mut interpreter = Interpreter::new();
    match ClockFunc::call(&mut interpreter, Vec::new()) {
        Ok(Object::Number(n)) => {
            let seconds = f64::from_bits(n.to_bits());
            assert!(seconds > 1.0e9 && seconds < 1.0e11);
        }
        _ => panic!("no number"),
    }
    let now = std::time::Instant::now();
    assert_eq!(NativeObject::new(now).extract(), now);
}

#[test]
fn statements_run_one_by_one() {
    let mut ids = IdAllocator::starting_at(1000);
    let mut interpreter = Interpreter::new();
    let statements = program("let a = 2; a = a * 21; print a;", &mut ids);
    for statement in &statements {
        assert!(interpreter.execute(statement, BUDGET).is_ok());
    }
    assert_eq!(interpreter.output().clone(), vec!["42"]);
    let more = program("a + 1;", &mut ids);
    match interpreter.interpret(&more, BUDGET) {
        Ok(result) => assert_eq!(value(&result), 43.0),
        Err(error) => panic!("{}", error.to_string()),
    }
    match interpreter.execute(&more[0], 1) {
        Err(InterpreterError::BudgetExhausted) => {}
        _ => panic!("no budget error"),
    }
    interpreter.resolve(5, 0);
    assert!(interpreter.run_program(&program("print a;", &mut ids), BUDGET).is_ok());
    assert_eq!(interpreter.output().len(), 2);
}

#[test]
fn a_host_value_is_copied_as_it_is() {
    let reading = std::time::Instant::now();
    assert_eq!(reading.clone_box(), reading);
    let handle = NativeObject::new(reading);
    assert_eq!(handle.clone().extract(), reading);
}

#[test]
fn readings_of_the_clock_become_numbers() {
    assert_eq!(value(&seconds_result(1, 500_000_000)), 1.5);
    assert_eq!(value(&seconds_result(0, 0)), 0.0);
    assert_eq!(value(&seconds_result(1_700_000_000, 999_999_999)), 1_700_000_000.0 + 999_999_999.0 / 1e9);
    assert_eq!(value(&clock_result(Some(1_700_000_000_000_000))), 1.7e15);
    assert_eq!(value(&clock_result(None)), 0.0);
    assert_eq!(value(&elapsed_result(250)), 250.0);
}

#[test]
fn elements_are_counted_from_zero() {
    let items = vec![num(10.0), num(20.0), num(30.0)];
    assert_eq!(value(&element_at(&items, 0)), 10.0);
    assert_eq!(value(&element_at(&items, 1)), 20.0);
    assert_eq!(value(&element_at(&items, 2)), 30.0);
    assert!(matches!(element_at(&items, 3), Object::Nil));
    assert!(matches!(element_at(&items, u64::MAX), Object::Nil));
    assert!(matches!(element_at(&Vec::new(), 0), Object::Nil));
}
