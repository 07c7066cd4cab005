//! What scanning means: the token sequence of a source text, defined on
//! its characters.

use vstd::prelude::*;

use crate::interpreter::number::number_value;
use crate::interpreter::scanner::error::ScannerError;
use crate::interpreter::scanner::error::ScannerErrorType;
use crate::interpreter::scanner::token::literal::ObjectView;
use crate::interpreter::scanner::token::token_type::TokenType;
use crate::interpreter::scanner::token::TokenView;

verus! {

/// Where the scanner stands: the index of the next character, the current
/// line, and the position counter within the line.
pub struct Cursor {
    pub current: int,
    pub line: int,
    pub column: int,
}

/// The cursor before the first character: line 1, position 1.
pub open spec fn origin() -> Cursor {
    Cursor { current: 0, line: 1, column: 1 }
}

/// Whether `c` is a decimal digit.
pub open spec fn is_digit(c: char) -> bool {
    '0' <= c && c <= '9'
}

/// Whether `c` may start a word: an ASCII letter or the underscore.
pub open spec fn is_alpha(c: char) -> bool {
    ('a' <= c && c <= 'z') || ('A' <= c && c <= 'Z') || c == '_'
}

/// Whether `c` may stand in a word: a letter, the underscore or a digit.
pub open spec fn is_alphanumeric(c: char) -> bool {
    is_alpha(c) || is_digit(c)
}

/// The character at `i`, or NUL past the end.
pub open spec fn peek_at(src: Seq<char>, i: int) -> char {
    if 0 <= i < src.len() {
        src[i]
    } else {
        '\0'
    }
}

/// How many characters from `i` on belong to the line that holds `i`.
pub open spec fn comment_len(src: Seq<char>, i: int) -> nat
    decreases src.len() - i,
{
    if 0 <= i < src.len() && src[i] != '\n' {
        1 + comment_len(src, i + 1)
    } else {
        0
    }
}

/// How many digits stand at `i`.
pub open spec fn digits_len(src: Seq<char>, i: int) -> nat
    decreases src.len() - i,
{
    if 0 <= i < src.len() && is_digit(src[i]) {
        1 + digits_len(src, i + 1)
    } else {
        0
    }
}

/// How many letters, digits and underscores stand at `i`.
pub open spec fn word_len(src: Seq<char>, i: int) -> nat
    decreases src.len() - i,
{
    if 0 <= i < src.len() && is_alphanumeric(src[i]) {
        1 + word_len(src, i + 1)
    } else {
        0
    }
}

/// The length of the rest of a number whose first digit stands before `i`:
/// more digits, then at most one decimal point that digits follow.
pub open spec fn number_len(src: Seq<char>, i: int) -> nat {
    let whole = digits_len(src, i);
    let dot = i + whole;
    if peek_at(src, dot) == '.' && is_digit(peek_at(src, dot + 1)) {
        whole + 1 + digits_len(src, dot + 1)
    } else {
        whole
    }
}

/// How many characters from `i` on stand before the next double quote.
pub open spec fn string_len(src: Seq<char>, i: int) -> nat
    decreases src.len() - i,
{
    if 0 <= i < src.len() && src[i] != '"' {
        1 + string_len(src, i + 1)
    } else {
        0
    }
}

/// The line reached after the characters of a string body that starts at
/// `i` on line `line`.
pub open spec fn string_line(src: Seq<char>, i: int, line: int) -> int
    decreases src.len() - i,
{
    if 0 <= i < src.len() && src[i] != '"' {
        string_line(src, i + 1, if src[i] == '\n' { line + 1 } else { line })
    } else {
        line
    }
}

/// The position counter after the characters of a string body that starts
/// at `i` with the counter at `column`: a line feed sets it back to 0
/// before it is counted.
pub open spec fn string_column(src: Seq<char>, i: int, column: int) -> int
    decreases src.len() - i,
{
    if 0 <= i < src.len() && src[i] != '"' {
        string_column(src, i + 1, if src[i] == '\n' { 1 } else { column + 1 })
    } else {
        column
    }
}

/// The value of a string body: each backslash followed by `n` stands for
/// one line feed, every other character for itself.
pub open spec fn decoded(body: Seq<char>) -> Seq<char>
    decreases body.len(),
{
    if body.len() == 0 {
        body
    } else if body.len() >= 2 && body[0] == '\\' && body[1] == 'n' {
        seq!['\n'] + decoded(body.skip(2))
    } else {
        seq![body[0]] + decoded(body.skip(1))
    }
}

/// The kind of a token that is a single character wherever it stands.
pub open spec fn single_kind(c: char) -> Option<TokenType> {
    if c == '(' {
        Some(TokenType::LeftParen)
    } else if c == ')' {
        Some(TokenType::RightParen)
    } else if c == '[' {
        Some(TokenType::LeftBracket)
    } else if c == ']' {
        Some(TokenType::RightBracket)
    } else if c == '{' {
        Some(TokenType::LeftBrace)
    } else if c == '}' {
        Some(TokenType::RightBrace)
    } else if c == ',' {
        Some(TokenType::Comma)
    } else if c == '.' {
        Some(TokenType::Dot)
    } else if c == '-' {
        Some(TokenType::Minus)
    } else if c == '+' {
        Some(TokenType::Plus)
    } else if c == ';' {
        Some(TokenType::Semicolon)
    } else if c == '*' {
        Some(TokenType::Star)
    } else {
        None
    }
}

/// The kind of a character that may be followed by `=`, standing alone.
pub open spec fn paired_kind(c: char) -> Option<TokenType> {
    if c == '!' {
        Some(TokenType::Bang)
    } else if c == '=' {
        Some(TokenType::Equal)
    } else if c == '<' {
        Some(TokenType::Less)
    } else if c == '>' {
        Some(TokenType::Greater)
    } else {
        None
    }
}

/// The kind of the pair that a token kind forms with a following `=`.
pub open spec fn with_equal(kind: TokenType) -> TokenType {
    match kind {
        TokenType::Bang => TokenType::BangEqual,
        TokenType::Equal => TokenType::EqualEqual,
        TokenType::Less => TokenType::LessEqual,
        _ => TokenType::GreaterEqual,
    }
}

/// The kind of a word: a keyword's own kind, or `Identifier`.
pub open spec fn word_kind(word: Seq<char>) -> TokenType {
    if word == "and"@ {
        TokenType::And
    } else if word == "or"@ {
        TokenType::Or
    } else if word == "if"@ {
        TokenType::If
    } else if word == "else"@ {
        TokenType::Else
    } else if word == "true"@ {
        TokenType::True
    } else if word == "false"@ {
        TokenType::False
    } else if word == "for"@ {
        TokenType::For
    } else if word == "while"@ {
        TokenType::While
    } else if word == "fun"@ {
        TokenType::Fun
    } else if word == "class"@ {
        TokenType::Class
    } else if word == "let"@ {
        TokenType::Let
    } else if word == "nil"@ {
        TokenType::Nil
    } else if word == "print"@ {
        TokenType::Print
    } else if word == "return"@ {
        TokenType::Return
    } else if word == "super"@ {
        TokenType::Super
    } else if word == "self"@ {
        TokenType::Slf
    } else if word == "use"@ {
        TokenType::Use
    } else if word == "export"@ {
        TokenType::Export
    } else {
        TokenType::Identifier
    }
}

/// The position that a token of `len` characters gets when the counter
/// stands at `column` behind it; never below 0.
pub open spec fn token_column(column: int, len: int) -> int {
    if column >= len {
        column - len
    } else {
        0
    }
}

/// A token as the scanner writes it.
pub open spec fn token_at(
    token_type: TokenType,
    lexeme: Seq<char>,
    literal: Option<ObjectView>,
    line: int,
    column: int,
) -> TokenView {
    TokenView {
        token_type,
        lexeme,
        literal,
        line: line as usize,
        pos_in_line: token_column(column, lexeme.len() as int) as usize,
    }
}

/// The literal of a number token: the value of its text, where it has one.
pub open spec fn number_literal(text: Seq<char>) -> Option<ObjectView> {
    match number_value(text) {
        Some(bits) => Some(ObjectView::Number(bits)),
        None => None,
    }
}

/// Whether a token has the literal that its kind asks for: a number
/// token has one.
pub open spec fn valued(token: TokenView) -> bool {
    token.token_type == TokenType::Number ==> token.literal is Some
}

/// Whether every number token among `tokens` has a literal.
pub open spec fn all_valued(tokens: Seq<TokenView>) -> bool {
    forall|k: int| 0 <= k < tokens.len() ==> valued(#[trigger] tokens[k])
}

/// What one step of the scanner yields.
pub struct Step {
    /// The token found, if the step found one, or the failure.
    pub outcome: Result<Option<TokenView>, ScannerError>,
    /// How many characters the step consumed beyond the first.
    pub extra: nat,
    /// The line after the step.
    pub line: int,
    /// The position counter after the step.
    pub column: int,
}

/// One step of the scanner at a cursor that stands on a character.
pub open spec fn step(src: Seq<char>, c: Cursor) -> Step {
    let ch = src[c.current];
    let next = c.current + 1;
    let counted = c.column + 1;
    if single_kind(ch) is Some {
        Step {
            outcome: Ok(Some(token_at(single_kind(ch)->0, seq![ch], None, c.line, counted))),
            extra: 0,
            line: c.line,
            column: counted,
        }
    } else if paired_kind(ch) is Some {
        if peek_at(src, next) == '=' && next < src.len() {
            Step {
                outcome: Ok(
                    Some(token_at(with_equal(paired_kind(ch)->0), seq![ch, '='], None, c.line, counted)),
                ),
                extra: 1,
                line: c.line,
                column: counted,
            }
        } else {
            Step {
                outcome: Ok(Some(token_at(paired_kind(ch)->0, seq![ch], None, c.line, counted))),
                extra: 0,
                line: c.line,
                column: counted,
            }
        }
    } else if ch == '/' {
        if peek_at(src, next) == '/' && next < src.len() {
            let n = comment_len(src, next + 1);
            Step { outcome: Ok(None), extra: 1 + n, line: c.line, column: counted + n }
        } else {
            Step {
                outcome: Ok(Some(token_at(TokenType::Slash, seq![ch], None, c.line, counted))),
                extra: 0,
                line: c.line,
                column: counted,
            }
        }
    } else if ch == ' ' || ch == '\r' || ch == '\t' {
        Step { outcome: Ok(None), extra: 0, line: c.line, column: counted }
    } else if ch == '\n' {
        Step { outcome: Ok(None), extra: 0, line: c.line + 1, column: 0 }
    } else if ch == '"' {
        let n = string_len(src, next);
        let line = string_line(src, next, c.line);
        let column = string_column(src, next, counted);
        if next + n >= src.len() {
            Step {
                outcome: Err(
                    ScannerError {
                        line: line as usize,
                        pos_in_line: column as usize,
                        ty: ScannerErrorType::UnterminatedString,
                    },
                ),
                extra: n,
                line,
                column,
            }
        } else {
            Step {
                outcome: Ok(
                    Some(
                        token_at(
                            TokenType::String,
                            src.subrange(c.current, next + n + 1),
                            Some(ObjectView::String(decoded(src.subrange(next, next + n)))),
                            line,
                            column + 1,
                        ),
                    ),
                ),
                extra: n + 1,
                line,
                column: column + 1,
            }
        }
    } else if is_digit(ch) {
        let n = number_len(src, next);
        let text = src.subrange(c.current, next + n);
        Step {
            outcome: Ok(
                Some(token_at(TokenType::Number, text, number_literal(text), c.line, counted + n)),
            ),
            extra: n,
            line: c.line,
            column: counted + n,
        }
    } else if is_alpha(ch) {
        let n = word_len(src, next);
        let text = src.subrange(c.current, next + n);
        Step {
            outcome: Ok(Some(token_at(word_kind(text), text, None, c.line, counted + n))),
            extra: n,
            line: c.line,
            column: counted + n,
        }
    } else {
        Step {
            outcome: Err(
                ScannerError {
                    line: c.line as usize,
                    pos_in_line: counted as usize,
                    ty: ScannerErrorType::UnexpectedCharacter(ch),
                },
            ),
            extra: 0,
            line: c.line,
            column: counted,
        }
    }
}

/// The cursor after a step.
pub open spec fn after(c: Cursor, s: Step) -> Cursor {
    Cursor { current: c.current + 1 + s.extra, line: s.line, column: s.column }
}

/// The token that ends every token sequence.
pub open spec fn eof_at(c: Cursor) -> TokenView {
    TokenView {
        token_type: TokenType::Eof,
        lexeme: Seq::<char>::empty(),
        literal: None,
        line: c.line as usize,
        pos_in_line: (c.column + 1) as usize,
    }
}

/// How many characters stand at or behind the cursor.
pub open spec fn remaining(src: Seq<char>, c: Cursor) -> nat {
    if 0 <= c.current <= src.len() {
        (src.len() - c.current) as nat
    } else {
        0
    }
}

/// The tokens of `src` from the cursor `c` on, or the first failure.
pub open spec fn scan_from(src: Seq<char>, c: Cursor) -> Result<Seq<TokenView>, ScannerError>
    decreases remaining(src, c),
{
    if 0 <= c.current < src.len() {
        let s = step(src, c);
        match s.outcome {
            Err(e) => Err(e),
            Ok(found) => match scan_from(src, after(c, s)) {
                Err(e) => Err(e),
                Ok(rest) => Ok(
                    match found {
                        Some(token) => seq![token] + rest,
                        None => rest,
                    },
                ),
            },
        }
    } else {
        Ok(seq![eof_at(c)])
    }
}

/// The tokens of a whole source text, or the first failure.
pub open spec fn scan(src: Seq<char>) -> Result<Seq<TokenView>, ScannerError> {
    scan_from(src, origin())
}

} // verus!
