use yun_lib::interpreter::ast::expr::Expr;
use yun_lib::interpreter::ast::printer::AstPrinter;
use yun_lib::interpreter::ast::stmt::Stmt;
use yun_lib::interpreter::parser::aggregate;
use yun_lib::interpreter::parser::error::ParserError;
use yun_lib::interpreter::parser::error::ParserErrorType;
use yun_lib::interpreter::parser::Parser;
use yun_lib::interpreter::scanner::token::token_type::TokenType;
use yun_lib::interpreter::scanner::token::Token;
use yun_lib::interpreter::scanner::Scanner;
use yun_lib::utils::IdAllocator;

fn parse(source: &str) -> Result<Vec<Stmt>, String> {
    let tokens = Scanner::new(source).scan_tokens().unwrap();
    match Parser::new(tokens, IdAllocator::new()).parse() {
        Ok(program) => Ok(program),
        Err(error) => Err(error.to_string()),
    }
}

fn statements(source: &str) -> Vec<Stmt> {
    match parse(source) {
        Ok(program) => program,
        Err(text) => panic!("{}", text),
    }
}

fn diagnostics(source: &str) -> String {
    match parse(source) {
        Ok(_) => panic!("no error"),
        Err(text) => text,
    }
}

fn expression(source: &str) -> String {
    let tokens = Scanner::new(source).scan_tokens().unwrap();
    let mut parser = Parser::new(tokens, IdAllocator::new());
    match parser.expression() {
        Ok(expr) => AstPrinter.print(&expr),
        Err(error) => panic!("{}", error.to_string()),
    }
}

#[test]
fn precedence_and_associativity() {
    assert_eq!(expression("1 + 2 * 3"), "(+ 1 (* 2 3))");
    assert_eq!(expression("1 - 2 - 3"), "(- (- 1 2) 3)");
    assert_eq!(expression("1 * 2 / 3"), "(/ (* 1 2) 3)");
    assert_eq!(expression("1 < 2 == 3 >= 4"), "(== (< 1 2) (>= 3 4))");
    assert_eq!(expression("a or b and c"), "(or (variable a) (and (variable b) (variable c)))");
    assert_eq!(expression("-a.b(1)(2, 3).c"), "(- (get (call (call (get (variable a) b) 1) 2 3) c))");
    assert_eq!(expression("(1 + 2) * 3"), "(* (group (+ 1 2)) 3)");
    assert_eq!(expression("a = b = 1 + 2"), "(assign (assign (+ 1 2)))");
    assert_eq!(expression("a.b = 1"), "(set (variable a) b 1)");
    assert_eq!(expression("[1, [2], []]"), "(list 1 (list 2) (list))");
    assert_eq!(expression("super.m"), "(super m)");
    assert_eq!(expression("!self"), "(! self)");
}

#[test]
fn statements_have_their_shape() {
    let parsed = statements("let a = 1; print a; { a; } if (a) a; else a; while (a) a; return; fun f(x, y) {} class A < B { m() {} } use \"m\"; export let b;");
    assert_eq!(parsed.len(), 10);
    assert!(matches!(parsed[0], Stmt::Let(_)));
    assert!(matches!(parsed[1], Stmt::Print(_)));
    assert!(matches!(parsed[2], Stmt::Block(_)));
    assert!(matches!(parsed[3], Stmt::If(_)));
    assert!(matches!(parsed[4], Stmt::While(_)));
    assert!(matches!(parsed[5], Stmt::Return(_)));
    match &parsed[6] {
        Stmt::Fun(f) => {
            assert_eq!(f.get_name().get_lexeme(), "f");
            assert_eq!(f.params.len(), 2);
            assert_eq!(f.params[1].get_lexeme(), "y");
        }
        _ => panic!("no function"),
    }
    match &parsed[7] {
        Stmt::Class(c) => {
            let (name, methods, super_class) = c.extract();
            assert_eq!(name.get_lexeme(), "A");
            assert_eq!(methods.len(), 1);
            assert_eq!(super_class.unwrap().get_token().get_lexeme(), "B");
        }
        _ => panic!("no class"),
    }
    assert!(matches!(parsed[8], Stmt::Use(_)));
    match &parsed[9] {
        Stmt::Export(e) => {
            let (keyword, stmt) = e.extract();
            assert_eq!(keyword.get_type(), TokenType::Export);
            assert!(matches!(stmt, Stmt::Let(_)));
        }
        _ => panic!("no export"),
    }
}

#[test]
fn for_becomes_a_while_in_a_block() {
    let parsed = statements("for (let i = 0; i < 3; i = i + 1) print i;");
    match &parsed[0] {
        Stmt::Block(outer) => {
            let stmts = outer.get_stmts();
            assert_eq!(stmts.len(), 2);
            assert!(matches!(stmts[0], Stmt::Let(_)));
            match &stmts[1] {
                Stmt::While(w) => {
                    let (cond, body) = w.extract();
                    assert_eq!(AstPrinter.print(cond), "(< (variable i) 3)");
                    match body {
                        Stmt::Block(inner) => {
                            assert_eq!(inner.get_stmts().len(), 2);
                            assert!(matches!(inner.get_stmts()[0], Stmt::Print(_)));
                            assert!(matches!(inner.get_stmts()[1], Stmt::Expr(_)));
                        }
                        _ => panic!("no inner block"),
                    }
                }
                _ => panic!("no while"),
            }
        }
        _ => panic!("no block"),
    }
    let bare = statements("for (;;) print 1;");
    match &bare[0] {
        Stmt::While(w) => {
            let (cond, body) = w.extract();
            assert_eq!(AstPrinter.print(cond), "true");
            assert!(matches!(body, Stmt::Print(_)));
        }
        _ => panic!("no while"),
    }
}

#[test]
fn every_node_has_its_own_identifier() {
    let tokens = Scanner::new("a + b * (c - 1)").scan_tokens().unwrap();
    let mut parser = Parser::new(tokens, IdAllocator::starting_at(10));
    let expr = parser.expression().unwrap_or_else(|e| panic!("{}", e.to_string()));
    let mut seen = Vec::new();
    fn walk(e: &Expr, seen: &mut Vec<u64>) {
        seen.push(e.id());
        match e {
            Expr::Binary(b) => {
                walk(b.get_left(), seen);
                walk(b.get_right(), seen);
            }
            Expr::Grouping(g) => walk(g.get_expr(), seen),
            _ => {}
        }
    }
    walk(&expr, &mut seen);
    seen.sort();
    assert_eq!(seen, vec![10, 11, 12, 13, 14, 15, 16, 17]);
    assert_eq!(parser.into_ids().peek(), 18);
}

#[test]
fn errors_name_their_token() {
    let cases = [
        ("(1", "[1:4] Error at end: Expect ')', after expression!\n"),
        ("print;", "[1:6] Error at ';': Expected expression!\n"),
        ("1", "[1:3] Error at end: Expected ';' after expression!\n"),
        ("let 1;", "[1:5] Error at '1': Expected variable name!\n"),
        ("let a", "[1:7] Error at end: Expected ';' after variable declaration!\n"),
        ("1 + 2 = 3;", "[1:7] Error at '=': Invalid assignment target!\n"),
        ("{ 1;", "[1:6] Error at end: Expected '}' after block!\n"),
        ("for 1", "[1:5] Error at '1': Expected '( after for!\n"),
        ("for (;;", "[1:9] Error at end: Expected expression!\n"),
        ("for (;; 1", "[1:11] Error at end: Expected ')' after for statement!\n"),
        ("for (1", "[1:8] Error at end: Expected ';' after expression!\n"),
        ("f(1;", "[1:4] Error at ';': Expected ')' after arguments!\n"),
        ("fun (", "[1:5] Error at '(': Expected identifier after function declaration!\n"),
        ("fun f {", "[1:7] Error at '{': Expected '(' after function identifier!\n"),
        ("fun f(a {", "[1:9] Error at '{': Expected ')' after parameters!\n"),
        ("fun f() 1", "[1:9] Error at '1': Expected '{' after body!\n"),
        ("fun f(1) {}", "[1:7] Error at '1': Expected parameter name!\n"),
        ("class 1", "[1:7] Error at '1': Expected identifier after class declaration!\n"),
        ("a.1;", "[1:3] Error at '1': Expected property after '.'!\n"),
        ("class A < 1 {}", "[1:11] Error at '1': Expected superclass identifier!\n"),
        ("super.1;", "[1:7] Error at '1': Expected method after '.'!\n"),
        ("super;", "[1:6] Error at ';': Expected '.'!\n"),
        ("[1;", "[1:3] Error at ';': Expected ']'!\n"),
    ];
    for (source, expected) in cases {
        assert_eq!(diagnostics(source), expected, "{}", source);
    }
}

#[test]
fn argument_and_parameter_counts_are_capped() {
    let args = vec!["1"; 255].join(", ");
    assert!(parse(&format!("f({});", args)).is_ok());
    let args = vec!["1"; 256].join(", ");
    let text = diagnostics(&format!("f({});", args));
    assert!(text.ends_with("Error at ')': Number of arguments greater than 255!\n"), "{}", text);
    let params: Vec<String> = (0..255).map(|i| format!("a{}", i)).collect();
    assert!(parse(&format!("fun f({}) {{}}", params.join(", "))).is_ok());
    let params: Vec<String> = (0..256).map(|i| format!("a{}", i)).collect();
    let text = diagnostics(&format!("fun f({}) {{}}", params.join(", ")));
    assert!(text.starts_with("[1:") && text.contains("Error at 'a255': Number of params greater than 255!\n"), "{}", text);
}

#[test]
fn the_parser_goes_on_behind_an_error() {
    let text = diagnostics("let = 1; let b = ; print 3 class 4; fun f() { return 1 + ; } print 5;");
    assert_eq!(text.lines().count(), 5, "{}", text);
    assert!(text.contains("Expected variable name!"));
    assert!(text.contains("[1:28] Error at 'class': Expected ';' after expression!"));
    assert!(text.contains("Error at '}': Expected expression!"));
}

#[test]
fn aggregate_joins_the_diagnostics() {
    let eof = Token::new(TokenType::Eof, "", None, 2, 7);
    let plus = Token::new(TokenType::Plus, "+", None, 1, 3);
    let errors = vec![
        ParserError::new(plus, ParserErrorType::ExpectedExpression),
        ParserError::new(eof, ParserErrorType::ExpectedSemicolon),
    ];
    match aggregate(Vec::new(), &errors) {
        Err(text) => assert_eq!(
            text,
            "[1:3] Error at '+': Expected expression!\n[2:7] Error at end: Expected ';' after expression!\n"
        ),
        Ok(_) => panic!("no error"),
    }
    assert!(matches!(aggregate(Vec::new(), &Vec::new()), Ok(program) if program.is_empty()));
    assert_eq!(
        ParserErrorType::UndefinedVariable("x".to_string()).to_string(),
        "Undefined variable: `x`!"
    );
}

#[test]
fn unary_operators_nest() {
    assert_eq!(expression("!!nil"), "(! (! nil))");
    assert_eq!(expression("--1"), "(- (- 1))");
    assert_eq!(expression("!-a.b"), "(! (- (get (variable a) b)))");
    assert_eq!(expression("1 - -2 * !x"), "(- 1 (* (- 2) (! (variable x))))");
}
