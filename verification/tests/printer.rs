use yun_lib::interpreter::ast::expr::Binary;
use yun_lib::interpreter::ast::expr::Expr;
use yun_lib::interpreter::ast::expr::Grouping;
use yun_lib::interpreter::ast::expr::Literal;
use yun_lib::interpreter::ast::expr::Unary;
use yun_lib::interpreter::ast::printer::AstPrinter;
use yun_lib::interpreter::number::Number;
use yun_lib::interpreter::scanner::token::literal::Object;
use yun_lib::interpreter::scanner::token::token_type::TokenType;
use yun_lib::interpreter::scanner::token::Token;
use yun_lib::utils::IdAllocator;

fn number(x: f64) -> Option<Object> {
    Some(Object::Number(Number::from_bits(x.to_bits())))
}

#[test]
fn test_print() {
    let mut ids = IdAllocator::new();
    let left = Expr::Literal(Literal::new(&mut ids, number(123.)));
    let negated =
        Expr::Unary(Unary::new(&mut ids, Token::new(TokenType::Minus, "-", None, 1, 1), Box::new(left)));
    let right = Expr::Literal(Literal::new(&mut ids, number(45.67)));
    let grouped = Expr::Grouping(Grouping::new(&mut ids, Box::new(right)));
    let expr = Expr::Binary(Binary::new(
        &mut ids,
        Box::new(negated),
        Token::new(TokenType::Star, "*", None, 1, 1),
        Box::new(grouped),
    ));
    assert_eq!("(* (- 123) (group 45.67))", AstPrinter.print(&expr));
}

#[test]
fn printer_writes_every_kind_of_literal() {
    let mut ids = IdAllocator::new();
    let mut printer = AstPrinter;
    let text = Expr::Literal(Literal::new(&mut ids, Some(Object::String("hi".to_string()))));
    assert_eq!(printer.print(&text), "\"hi\"");
    let truth = Expr::Literal(Literal::new(&mut ids, Some(Object::Bool(true))));
    assert_eq!(printer.print(&truth), "true");
    let nil = Expr::Literal(Literal::new(&mut ids, Some(Object::Nil)));
    assert_eq!(printer.print(&nil), "nil");
    let nothing = Expr::Literal(Literal::new(&mut ids, None));
    assert_eq!(printer.print(&nothing), "nil");
    assert_eq!(printer.parenthesize("f", vec!["a".to_string(), "b".to_string()]), "(f a b)");
    assert_eq!(printer.parenthesize("f", Vec::new()), "(f)");
}

#[test]
fn node_identifiers_count_up() {
    let mut ids = IdAllocator::new();
    let a = Literal::new(&mut ids, None);
    let b = Literal::new(&mut ids, None);
    assert_eq!(a.id, 1);
    assert_eq!(b.id, 2);
    assert_eq!(yun_lib::utils::next_id(&mut ids), 3);
    assert_eq!(ids.peek(), 4);
    let mut last = IdAllocator::starting_at(u64::MAX);
    assert_eq!(yun_lib::utils::next_id(&mut last), u64::MAX);
    assert_eq!(last.peek(), 0);
}
