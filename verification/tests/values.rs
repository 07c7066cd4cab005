use std::rc::Rc;
use yun_lib::interpreter::environment::Environment;
use yun_lib::interpreter::environment::Heap;
use yun_lib::interpreter::error::InterpreterError;
use yun_lib::interpreter::error::RuntimeErrorType;
use yun_lib::interpreter::number::Number;
use yun_lib::interpreter::object::model::Order;
use yun_lib::interpreter::object::Object;
use yun_lib::interpreter::scanner::error::ScannerError;
use yun_lib::interpreter::scanner::error::ScannerErrorType;
use yun_lib::interpreter::scanner::token::token_type::TokenType;
use yun_lib::interpreter::scanner::token::Token;
use yun_lib::interpreter::shell::Shell;
use yun_lib::interpreter::Interpreter;

fn num(x: f64) -> Object {
    Object::Number(Number::from_bits(x.to_bits()))
}

fn text(s: &str) -> Object {
    Object::String(s.to_string())
}

fn value(o: &Object) -> f64 {
    match o {
        Object::Number(n) => f64::from_bits(n.to_bits()),
        _ => panic!("no number"),
    }
}

fn name(lexeme: &str) -> Token {
    Token::new(TokenType::Identifier, lexeme, None, 3, 4)
}

fn ok(r: Result<Object, RuntimeErrorType>) -> Object {
    match r {
        Ok(v) => v,
        Err(e) => panic!("{}", e.to_string()),
    }
}

fn message(r: Result<Object, RuntimeErrorType>) -> String {
    match r {
        Ok(_) => panic!("no error"),
        Err(e) => e.to_string(),
    }
}

#[test]
fn a_list_plus_a_value_is_one_longer_and_ends_with_it() {
    let list = Object::List(vec![num(1.0), text("a")]);
    for x in [num(2.0), text("b"), Object::Nil, Object::List(vec![]), Object::Shared(Rc::new(num(3.0)))] {
        match ok(list.plus(&x)) {
            Object::List(items) => {
                assert_eq!(items.len(), 3);
                assert_eq!(items[2].to_string(), x.to_string());
                assert_eq!(items[2].get_type(), x.get_type());
                assert_eq!(value(&items[0]), 1.0);
            }
            _ => panic!("no list"),
        }
    }
    let shared = Object::Shared(Rc::new(Object::List(vec![])));
    match ok(shared.plus(&num(1.0))) {
        Object::List(items) => assert_eq!(items.len(), 1),
        _ => panic!("no list"),
    }
}

#[test]
fn arithmetic_looks_through_shared_handles() {
    let shared = Object::Shared(Rc::new(Object::Shared(Rc::new(num(4.0)))));
    assert_eq!(value(&ok(shared.plus(&num(1.0)))), 5.0);
    assert_eq!(value(&ok(num(1.0).minus(&shared))), -3.0);
    assert_eq!(value(&ok(shared.times(&shared))), 16.0);
    assert_eq!(value(&ok(num(2.0).divided_by(&shared))), 0.5);
    assert_eq!(value(&ok(shared.negated())), -4.0);
    assert!(shared.equals(&num(4.0)));
    assert_eq!(shared.compare(&num(5.0)), Order::Less);
    assert_eq!(shared.get_type(), "number");
    assert_eq!(shared.to_string(), "4");
    assert_eq!(value(shared.inner()), 4.0);
    assert!(matches!(shared.clone_into_rc(), Object::Shared(_)));
    assert!(matches!(num(1.0).clone_into_rc(), Object::Number(_)));
}

#[test]
fn operators_reject_other_types() {
    assert_eq!(message(num(1.0).plus(&text("a"))), "Cannot add types 'number' and 'string'");
    assert_eq!(message(text("a").plus(&num(1.0))), "Cannot add types 'string' and 'number'");
    assert_eq!(message(Object::Nil.minus(&Object::Bool(true))), "Cannot subtract 'nil' and 'boolean'");
    assert_eq!(message(Object::Void.times(&Object::List(vec![]))), "Cannot multiply 'void' and 'list'");
    assert_eq!(message(text("a").divided_by(&text("b"))), "Cannot divide 'string' and 'string'");
    assert_eq!(message(Object::Bool(false).negated()), "Cannot negate 'boolean'");
}

#[test]
fn truthiness() {
    assert!(!Object::Nil.is_truly());
    assert!(!Object::Void.is_truly());
    assert!(!Object::Bool(false).is_truly());
    assert!(Object::Bool(true).is_truly());
    assert!(num(0.0).is_truly());
    assert!(text("").is_truly());
    assert!(Object::List(vec![]).is_truly());
    assert!(matches!(Object::Nil.not(), Object::Bool(true)));
    assert!(matches!(num(1.0).not(), Object::Bool(false)));
}

#[test]
fn equality_and_order() {
    assert!(num(0.0).equals(&num(-0.0)));
    assert!(!num(f64::NAN).equals(&num(f64::NAN)));
    assert!(text("a").equals(&text("a")));
    assert!(!text("a").equals(&num(1.0)));
    assert!(Object::Nil.equals(&Object::Nil));
    assert!(Object::Void.equals(&Object::Void));
    assert!(!Object::List(vec![]).equals(&Object::List(vec![])));
    assert_eq!(text("abc").compare(&text("abd")), Order::Less);
    assert_eq!(text("abc").compare(&text("ab")), Order::Greater);
    assert_eq!(text("é").compare(&text("z")), Order::Greater);
    assert_eq!(text("").compare(&text("")), Order::Equal);
    assert_eq!(Object::Bool(false).compare(&Object::Bool(true)), Order::Less);
    assert_eq!(Object::Bool(true).compare(&Object::Bool(false)), Order::Greater);
    assert_eq!(Object::Nil.compare(&Object::Nil), Order::Unordered);
    assert_eq!(num(f64::NAN).compare(&num(1.0)), Order::Unordered);
    assert_eq!(num(1.0).compare(&text("a")), Order::Equal);
    assert_eq!(num(2.0).compare(&num(1.0)), Order::Greater);
}

#[test]
fn values_are_written() {
    assert_eq!(Object::Void.to_string(), "");
    assert_eq!(Object::Nil.to_string(), "nil");
    assert_eq!(Object::Bool(false).to_string(), "false");
    assert_eq!(text("a\"b").to_string(), "a\"b");
    assert_eq!(Object::List(vec![text("a\"b\n"), num(1.5), Object::List(vec![Object::Nil])]).to_string(), "[\"a\\\"b\\n\", 1.5, [nil]]");
    assert_eq!(Object::List(vec![]).get_type(), "list");
    assert_eq!(Object::Void.get_type(), "void");
}

#[test]
fn frames_shadow_and_chain() {
    let mut heap = Heap::new();
    let globals = heap.allocate(None);
    let inner = heap.allocate(Some(globals));
    heap.bind(globals, "a".to_string(), Some(num(1.0)));
    heap.bind(globals, "b".to_string(), Some(num(2.0)));
    heap.bind(inner, "a".to_string(), Some(num(3.0)));
    heap.bind(inner, "c".to_string(), None);
    let read = |heap: &Heap, env: usize, n: &str| Environment::get(heap, env, &name(n));
    assert_eq!(value(&read(&heap, inner, "a").ok().unwrap()), 3.0);
    assert_eq!(value(&read(&heap, inner, "b").ok().unwrap()), 2.0);
    assert_eq!(value(&read(&heap, globals, "a").ok().unwrap()), 1.0);
    match read(&heap, inner, "c") {
        Err(e) => assert_eq!(e.to_string(), "[3:4] Error at 'c': Variable 'c' is not initialized\n"),
        Ok(_) => panic!("no error"),
    }
    match read(&heap, inner, "d") {
        Err(e) => assert_eq!(e.to_string(), "[3:4] Error at 'd': Undefined variable 'd'\n"),
        Ok(_) => panic!("no error"),
    }
    match read(&heap, 9, "a") {
        Err(e) => assert_eq!(e.to_string(), "[3:4] Error at 'a': Bug environment not initialized\n"),
        Ok(_) => panic!("no error"),
    }
    assert_eq!(value(&Environment::get_at(&heap, Some(inner), 1, &name("a")).ok().unwrap()), 1.0);
    assert_eq!(value(&Environment::get_at(&heap, Some(inner), 0, &name("a")).ok().unwrap()), 3.0);
    assert!(Environment::get_at(&heap, Some(inner), 2, &name("a")).is_err());
    assert_eq!(Environment::ancestor(&heap, Some(inner), 1), Some(globals));
    assert_eq!(Environment::ancestor(&heap, Some(inner), 2), None);
    assert_eq!(heap.frames[inner].get_enclosing(), Some(globals));
}

#[test]
fn assignment_writes_the_first_frame_that_holds_the_name() {
    let mut heap = Heap::new();
    let globals = heap.allocate(None);
    let inner = heap.allocate(Some(globals));
    heap.bind(globals, "a".to_string(), Some(num(1.0)));
    heap.bind(inner, "c".to_string(), None);
    assert_eq!(value(&Environment::assign(&mut heap, inner, &name("a"), num(5.0)).ok().unwrap()), 5.0);
    assert_eq!(value(&Environment::get(&heap, globals, &name("a")).ok().unwrap()), 5.0);
    assert!(Environment::assign(&mut heap, inner, &name("c"), num(6.0)).is_ok());
    assert_eq!(value(&Environment::get(&heap, inner, &name("c")).ok().unwrap()), 6.0);
    assert!(Environment::get(&heap, globals, &name("c")).is_err());
    match Environment::assign(&mut heap, inner, &name("z"), num(0.0)) {
        Err(e) => assert_eq!(e.to_string(), "[3:4] Error at 'z': Undefined variable 'z'\n"),
        Ok(_) => panic!("no error"),
    }
    assert!(Environment::assign_at(&mut heap, Some(inner), 1, &name("n"), num(7.0)).is_ok());
    assert_eq!(value(&Environment::get(&heap, globals, &name("n")).ok().unwrap()), 7.0);
    assert!(Environment::assign_at(&mut heap, Some(inner), 3, &name("n"), num(7.0)).is_err());
    let mut frame = Environment::new(Some(globals));
    frame.define("x", Some(num(1.0)));
    frame.define("y", Some(num(2.0)));
    frame.define("x", None);
    assert_eq!(frame.values.len(), 2);
    assert_eq!(frame.values[0].name, "x");
    assert!(frame.values[0].value.is_none());
    heap.bind(globals, "n".to_string(), Some(num(8.0)));
    heap.bind(globals, "n".to_string(), Some(num(9.0)));
    assert_eq!(value(&Environment::get(&heap, globals, &name("n")).ok().unwrap()), 9.0);
    assert_eq!(heap.frames[globals].values.iter().filter(|b| b.name == "n").count(), 1);
    let fields = heap.new_instance();
    heap.set_field(fields, "f".to_string(), num(1.0));
    heap.set_field(fields, "g".to_string(), num(2.0));
    heap.set_field(fields, "f".to_string(), num(3.0));
    assert_eq!(heap.instances[fields].len(), 2);
    assert_eq!(value(&heap.field(fields, &"f".to_string()).unwrap()), 3.0);
    assert_eq!(value(&heap.field(fields, &"g".to_string()).unwrap()), 2.0);
    assert_eq!(frame.get_enclosing(), Some(globals));
}

#[test]
fn a_new_interpreter_knows_the_functions_of_the_host() {
    let mut interpreter = Interpreter::new();
    let code = "print get; print clock; print panic; print string; print exit; print exitWithCode; print instant; print elapsed;";
    assert!(interpreter.run(code, Vec::new(), 1000).is_ok());
    assert_eq!(
        interpreter.output().clone(),
        vec![
            "<function#1 get>",
            "<function#2 clock>",
            "<function#3 panic>",
            "<function#4 string>",
            "<function#5 exit>",
            "<function#6 exitWithCode>",
            "<function#7 instant>",
            "<function#8 elapsed>",
        ]
    );
}

#[test]
fn errors_are_written_in_one_format() {
    assert_eq!(
        ScannerError::new(3, 14, ScannerErrorType::UnexpectedCharacter('$')).to_string(),
        "[3:14] Error: Unexpected character '$'\n"
    );
    assert_eq!(
        Interpreter::error_by_token(Token::new(TokenType::Eof, "", None, 1, 2), "m"),
        "[1:2] Error at end: m\n"
    );
    assert_eq!(Interpreter::error_by_token(name("x"), "m"), "[3:4] Error at 'x': m\n");
    assert_eq!(InterpreterError::Custom("c".to_string()).to_string(), "c");
    assert_eq!(InterpreterError::Return(num(1.0)).to_string(), "1");
    assert_eq!(RuntimeErrorType::NotCallable.to_string(), "Not callable");
    assert_eq!(RuntimeErrorType::UnsupportedUnaryOperator("+".to_string()).to_string(), "Unsupported unary operator '+'");
    assert_eq!(RuntimeErrorType::UnsupportedBinaryOperator("!".to_string()).to_string(), "Unsupported binary operator '!'");
    assert_eq!(RuntimeErrorType::UserPanicWithMsg(text("p")).to_string(), "p");
    assert_eq!(RuntimeErrorType::SuperclassMustBeClass.to_string(), "Superclass must be class");
    assert_eq!(RuntimeErrorType::ArityOfFuncNotEqSizeOfArgs.to_string(), "Arity of functions not equal size of args");
}

#[test]
fn the_shell_keeps_the_last_command() {
    let mut shell = Shell::new();
    assert_eq!(shell.get_command(), "");
    shell.set_command("print 1;".to_string());
    assert_eq!(shell.get_command(), "print 1;");
    assert_eq!(Shell::default().get_command(), "");
}
