use std::collections::HashMap;
use yun_lib::interpreter::ast::stmt::Stmt;
use yun_lib::interpreter::error::InterpreterError;
use yun_lib::interpreter::parser::error::ParserError;
use yun_lib::interpreter::parser::error::ParserErrorType;
use yun_lib::interpreter::parser::resolver::Resolver;
use yun_lib::interpreter::parser::Parser;
use yun_lib::interpreter::scanner::Scanner;
use yun_lib::utils::IdAllocator;

fn program(source: &str) -> Vec<Stmt> {
    let tokens = Scanner::new(source).scan_tokens().unwrap();
    match Parser::new(tokens, IdAllocator::new()).parse() {
        Ok(program) => program,
        Err(error) => panic!("{}", error.to_string()),
    }
}

fn failure(source: &str) -> ParserError {
    let mut resolver = Resolver::new(HashMap::new());
    match resolver.resolve(&program(source)) {
        Err(InterpreterError::ParserError(error)) => error,
        _ => panic!("no resolver error"),
    }
}

fn depths(source: &str) -> Vec<usize> {
    let mut resolver = Resolver::new(HashMap::new());
    match resolver.resolve(&program(source)) {
        Ok(()) => {}
        Err(error) => panic!("{}", error.to_string()),
    }
    let locals = resolver.into_locals();
    let mut entries: Vec<(u64, usize)> = locals.into_iter().collect();
    entries.sort();
    entries.into_iter().map(|(_, depth)| depth).collect()
}

#[test]
fn globals_get_no_entry() {
    assert!(depths("let a = 1; print a; a = 2; fun f() { return a; }").is_empty());
}

#[test]
fn locals_get_the_number_of_scopes_between() {
    assert_eq!(depths("{ let a = 1; print a; { print a; { a = 2; } } }"), vec![0, 1, 2]);
    assert_eq!(depths("fun f(x) { print x; { print x; } }"), vec![0, 1]);
    assert_eq!(depths("{ let a = 1; fun f() { print a; } }"), vec![1]);
}

#[test]
fn self_and_super_lie_outside_the_body() {
    assert_eq!(depths("class A { m() { print self; { print self; } } }"), vec![1, 2]);
    assert_eq!(depths("class A {} class B < A { m() { super.m(); self; } }"), vec![2, 1]);
}

#[test]
fn earlier_depths_are_kept() {
    let mut seed = HashMap::new();
    seed.insert(1000, 7);
    let mut resolver = Resolver::new(seed);
    assert!(resolver.resolve(&program("{ let a = 1; a; }")).is_ok());
    let locals = resolver.into_locals();
    assert_eq!(locals.get(&1000), Some(&7));
    assert_eq!(locals.len(), 2);
}

#[test]
fn the_first_error_ends_the_resolution() {
    let error = failure("{ let a = a; } return 1;");
    assert!(matches!(error.ty, ParserErrorType::CantReadLocalVariableInItsOwnInit));
    assert_eq!(error.token.get_lexeme(), "a");
    let error = failure("class A { m() { return 1; } init() { return; } f() { return super.x; } }");
    assert!(matches!(error.ty, ParserErrorType::CantUseSuperInClassWithoutSuperClasses));
}
