use yun_lib::interpreter::error::InterpreterError;
use yun_lib::interpreter::scanner::error::ScannerError;
use yun_lib::interpreter::scanner::error::ScannerErrorType;
use yun_lib::interpreter::scanner::token::literal::Object;
use yun_lib::interpreter::scanner::token::token_type::TokenType;
use yun_lib::interpreter::scanner::Scanner;

fn failure(source: &str) -> ScannerError {
    match Scanner::new(source).scan_tokens() {
        Err(InterpreterError::ScannerError(error)) => error,
        _ => panic!("no scanner error"),
    }
}

fn kinds(source: &str) -> Vec<TokenType> {
    Scanner::new(source).scan_tokens().unwrap().iter().map(|t| t.get_type()).collect()
}

#[test]
fn empty_source_is_a_single_eof() {
    let tokens = Scanner::new("").scan_tokens().unwrap();
    assert_eq!(tokens.len(), 1);
    assert_eq!(tokens[0].get_type(), TokenType::Eof);
    assert_eq!(tokens[0].get_line(), 1);
    assert_eq!(tokens[0].get_pos_in_line(), 2);
}

#[test]
fn punctuation_and_pairs() {
    assert_eq!(
        kinds("( ) [ ] { } , . - + ; * / ! != = == < <= > >="),
        vec![
            TokenType::LeftParen,
            TokenType::RightParen,
            TokenType::LeftBracket,
            TokenType::RightBracket,
            TokenType::LeftBrace,
            TokenType::RightBrace,
            TokenType::Comma,
            TokenType::Dot,
            TokenType::Minus,
            TokenType::Plus,
            TokenType::Semicolon,
            TokenType::Star,
            TokenType::Slash,
            TokenType::Bang,
            TokenType::BangEqual,
            TokenType::Equal,
            TokenType::EqualEqual,
            TokenType::Less,
            TokenType::LessEqual,
            TokenType::Greater,
            TokenType::GreaterEqual,
            TokenType::Eof,
        ]
    );
}

#[test]
fn keywords_are_found_by_their_lexeme() {
    assert_eq!(
        kinds("and or if else true false for while fun class let nil print return super self use export selfish _x"),
        vec![
            TokenType::And,
            TokenType::Or,
            TokenType::If,
            TokenType::Else,
            TokenType::True,
            TokenType::False,
            TokenType::For,
            TokenType::While,
            TokenType::Fun,
            TokenType::Class,
            TokenType::Let,
            TokenType::Nil,
            TokenType::Print,
            TokenType::Return,
            TokenType::Super,
            TokenType::Slf,
            TokenType::Use,
            TokenType::Export,
            TokenType::Identifier,
            TokenType::Identifier,
            TokenType::Eof,
        ]
    );
}

#[test]
fn numbers_carry_their_value() {
    let tokens = Scanner::new("12 3.5 7.").scan_tokens().unwrap();
    assert_eq!(tokens.len(), 5);
    match tokens[0].get_lit() {
        Some(Object::Number(n)) => assert_eq!(f64::from_bits(n.to_bits()), 12.0),
        _ => panic!("no literal"),
    }
    match tokens[1].get_lit() {
        Some(Object::Number(n)) => assert_eq!(f64::from_bits(n.to_bits()), 3.5),
        _ => panic!("no literal"),
    }
    assert_eq!(tokens[1].get_lexeme(), "3.5");
    assert_eq!(tokens[2].get_lexeme(), "7");
    assert_eq!(tokens[3].get_type(), TokenType::Dot);
}

#[test]
fn strings_decode_line_feeds_and_may_span_lines() {
    let tokens = Scanner::new("\"a\\nb\" \"two\nlines\" x").scan_tokens().unwrap();
    match tokens[0].get_lit() {
        Some(Object::String(s)) => assert_eq!(s, "a\nb"),
        _ => panic!("no literal"),
    }
    assert_eq!(tokens[0].get_lexeme(), "\"a\\nb\"");
    match tokens[1].get_lit() {
        Some(Object::String(s)) => assert_eq!(s, "two\nlines"),
        _ => panic!("no literal"),
    }
    assert_eq!(tokens[1].get_line(), 2);
    assert_eq!(tokens[2].get_line(), 2);
    assert_eq!(tokens[2].get_lexeme(), "x");
}

#[test]
fn comments_run_to_the_end_of_the_line() {
    assert_eq!(kinds("1 // two three\n4"), vec![TokenType::Number, TokenType::Number, TokenType::Eof]);
    assert_eq!(kinds("// only"), vec![TokenType::Eof]);
}

#[test]
fn unterminated_string_is_rejected() {
    let err = failure("let a = \"abc");
    assert_eq!(err.ty, ScannerErrorType::UnterminatedString);
    assert_eq!(err.to_string(), "[1:13] Error: Unterminated string\n");
}

#[test]
fn unknown_character_is_rejected() {
    let err = failure("let a = 1;\n  @");
    assert_eq!(err.ty, ScannerErrorType::UnexpectedCharacter('@'));
    assert_eq!(err.line, 2);
    assert_eq!(err.to_string(), "[2:3] Error: Unexpected character '@'\n");
}

#[test]
fn positions_never_go_back() {
    let source = "let a = 1;\nfun f(x) { return x >= 2; }\n\"s\ntr\" != nil // c\n  print a;";
    let tokens = Scanner::new(source).scan_tokens().unwrap();
    for pair in tokens.windows(2) {
        let a = (pair[0].get_line(), pair[0].get_pos_in_line());
        let b = (pair[1].get_line(), pair[1].get_pos_in_line());
        assert!(a <= b, "{:?} then {:?}", a, b);
    }
    assert_eq!(tokens.last().unwrap().get_type(), TokenType::Eof);
    assert_eq!(tokens.iter().filter(|t| t.get_type() == TokenType::Eof).count(), 1);
}

#[test]
fn first_line_positions_count_from_one() {
    let tokens = Scanner::new("ab + c").scan_tokens().unwrap();
    assert_eq!(tokens[0].get_pos_in_line(), 1);
    assert_eq!(tokens[1].get_pos_in_line(), 4);
    assert_eq!(tokens[2].get_pos_in_line(), 6);
}

#[test]
fn non_ascii_text_is_scanned_by_character() {
    let tokens = Scanner::new("\"héllo\" x").scan_tokens().unwrap();
    match tokens[0].get_lit() {
        Some(Object::String(s)) => assert_eq!(s, "héllo"),
        _ => panic!("no literal"),
    }
    assert_eq!(tokens[1].get_lexeme(), "x");
    let err = failure("é");
    assert_eq!(err.ty, ScannerErrorType::UnexpectedCharacter('é'));
}

#[test]
fn every_number_token_has_a_literal() {
    let tokens = Scanner::new("0 007 12.50 3. 1.2.3 99999999999999999999999999 x1 .5").scan_tokens().unwrap();
    let mut numbers = 0;
    for token in &tokens {
        if token.get_type() == TokenType::Number {
            numbers += 1;
            assert!(matches!(token.get_lit(), Some(Object::Number(_))), "{}", token.get_lexeme());
        }
    }
    assert_eq!(numbers, 8);
}
