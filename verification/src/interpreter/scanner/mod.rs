//! The scanner: source text to tokens.

pub mod error;
pub mod laws;
pub mod lexicon;
pub mod token;

use vstd::prelude::*;

use crate::interpreter::error::InterpreterError;
use crate::interpreter::number::is_plain_numeral;
use crate::interpreter::number::Number;
use crate::interpreter::scanner::error::ScannerError;
use crate::interpreter::scanner::error::ScannerErrorType;
use crate::interpreter::scanner::lexicon::after;
use crate::interpreter::scanner::lexicon::all_valued;
use crate::interpreter::scanner::lexicon::comment_len;
use crate::interpreter::scanner::lexicon::decoded;
use crate::interpreter::scanner::lexicon::digits_len;
use crate::interpreter::scanner::lexicon::eof_at;
use crate::interpreter::scanner::lexicon::is_alpha;
use crate::interpreter::scanner::lexicon::is_digit;
use crate::interpreter::scanner::lexicon::number_len;
use crate::interpreter::scanner::lexicon::number_literal;
use crate::interpreter::scanner::lexicon::origin;
use crate::interpreter::scanner::lexicon::paired_kind;
use crate::interpreter::scanner::lexicon::peek_at;
use crate::interpreter::scanner::lexicon::scan_from;
use crate::interpreter::scanner::lexicon::single_kind;
use crate::interpreter::scanner::lexicon::step;
use crate::interpreter::scanner::lexicon::string_column;
use crate::interpreter::scanner::lexicon::string_len;
use crate::interpreter::scanner::lexicon::string_line;
use crate::interpreter::scanner::lexicon::token_at;
use crate::interpreter::scanner::lexicon::valued;
use crate::interpreter::scanner::lexicon::with_equal;
use crate::interpreter::scanner::lexicon::word_kind;
use crate::interpreter::scanner::lexicon::word_len;
use crate::interpreter::scanner::lexicon::Cursor;
use crate::interpreter::scanner::token::literal::Object;
use crate::interpreter::scanner::token::literal::ObjectView;
use crate::interpreter::scanner::token::literal_view;
use crate::interpreter::scanner::token::token_type::TokenType;
use crate::interpreter::scanner::token::token_views;
use crate::interpreter::scanner::token::Token;
use crate::interpreter::scanner::token::TokenView;
use crate::interpreter::text::chars_of;
use crate::interpreter::text::spells;
use crate::interpreter::text::string_of;

verus! {

/// Turns a source text into tokens.
pub struct Scanner {
    source: Vec<char>,
    tokens: Vec<Token>,
    start: usize,
    current: usize,
    line: usize,
    pos_in_line: usize,
}

fn digit(c: char) -> (r: bool)
    ensures
        r == is_digit(c),
{
    '0' <= c && c <= '9'
}

fn alpha(c: char) -> (r: bool)
    ensures
        r == is_alpha(c),
{
    ('a' <= c && c <= 'z') || ('A' <= c && c <= 'Z') || c == '_'
}

fn single(c: char) -> (r: Option<TokenType>)
    ensures
        r == single_kind(c),
{
    if c == '(' {
        Some(TokenType::LeftParen)
    } else if c == ')' {
        Some(TokenType::RightParen)
    } else if c == '[' {
        Some(TokenType::LeftBracket)
    } else if c == ']' {
        Some(TokenType::RightBracket)
    } else if c == '{' {
        Some(TokenType::LeftBrace)
    } else if c == '}' {
        Some(TokenType::RightBrace)
    } else if c == ',' {
        Some(TokenType::Comma)
    } else if c == '.' {
        Some(TokenType::Dot)
    } else if c == '-' {
        Some(TokenType::Minus)
    } else if c == '+' {
        Some(TokenType::Plus)
    } else if c == ';' {
        Some(TokenType::Semicolon)
    } else if c == '*' {
        Some(TokenType::Star)
    } else {
        None
    }
}

fn paired(c: char) -> (r: Option<TokenType>)
    ensures
        r == paired_kind(c),
{
    if c == '!' {
        Some(TokenType::Bang)
    } else if c == '=' {
        Some(TokenType::Equal)
    } else if c == '<' {
        Some(TokenType::Less)
    } else if c == '>' {
        Some(TokenType::Greater)
    } else {
        None
    }
}

fn paired_with_equal(kind: TokenType) -> (r: TokenType)
    ensures
        r == with_equal(kind),
{
    match kind {
        TokenType::Bang => TokenType::BangEqual,
        TokenType::Equal => TokenType::EqualEqual,
        TokenType::Less => TokenType::LessEqual,
        _ => TokenType::GreaterEqual,
    }
}

/// The kind of the word `chars[from..to]`.
fn keyword(chars: &Vec<char>, from: usize, to: usize) -> (r: TokenType)
    requires
        from <= to <= chars.len(),
    ensures
        r == word_kind(chars@.subrange(from as int, to as int)),
{
    if spells(chars, from, to, "and") {
        TokenType::And
    } else if spells(chars, from, to, "or") {
        TokenType::Or
    } else if spells(chars, from, to, "if") {
        TokenType::If
    } else if spells(chars, from, to, "else") {
        TokenType::Else
    } else if spells(chars, from, to, "true") {
        TokenType::True
    } else if spells(chars, from, to, "false") {
        TokenType::False
    } else if spells(chars, from, to, "for") {
        TokenType::For
    } else if spells(chars, from, to, "while") {
        TokenType::While
    } else if spells(chars, from, to, "fun") {
        TokenType::Fun
    } else if spells(chars, from, to, "class") {
        TokenType::Class
    } else if spells(chars, from, to, "let") {
        TokenType::Let
    } else if spells(chars, from, to, "nil") {
        TokenType::Nil
    } else if spells(chars, from, to, "print") {
        TokenType::Print
    } else if spells(chars, from, to, "return") {
        TokenType::Return
    } else if spells(chars, from, to, "super") {
        TokenType::Super
    } else if spells(chars, from, to, "self") {
        TokenType::Slf
    } else if spells(chars, from, to, "use") {
        TokenType::Use
    } else if spells(chars, from, to, "export") {
        TokenType::Export
    } else {
        TokenType::Identifier
    }
}

/// The value of the string body `chars[from..to]`.
fn decode(chars: &Vec<char>, from: usize, to: usize) -> (s: String)
    requires
        from <= to <= chars.len(),
    ensures
        s@ == decoded(chars@.subrange(from as int, to as int)),
{
    let mut out = String::new();
    let mut i: usize = from;
    while i < to
        invariant
            from <= i <= to <= chars.len(),
            decoded(chars@.subrange(from as int, to as int)) == out@ + decoded(
                chars@.subrange(i as int, to as int),
            ),
        decreases to - i,
    {
        let ghost body = chars@.subrange(i as int, to as int);
        let ghost before = out@;
        if chars[i] == '\\' && i + 1 < to && chars[i + 1] == 'n' {
            out.push('\n');
            i += 2;
            assert(body.skip(2) =~= chars@.subrange(i as int, to as int));
            assert(before + (seq!['\n'] + decoded(body.skip(2))) =~= out@ + decoded(body.skip(2)));
        } else {
            out.push(chars[i]);
            i += 1;
            assert(body.skip(1) =~= chars@.subrange(i as int, to as int));
            assert(before + (seq![body[0]] + decoded(body.skip(1))) =~= out@ + decoded(
                body.skip(1),
            ));
        }
    }
    assert(out@ + decoded(chars@.subrange(to as int, to as int)) =~= out@);
    out
}

impl Scanner {
    /// The characters of the source text.
    pub closed spec fn source(&self) -> Seq<char> {
        self.source@
    }

    /// Where the scanner stands.
    pub closed spec fn cursor(&self) -> Cursor {
        Cursor {
            current: self.current as int,
            line: self.line as int,
            column: self.pos_in_line as int,
        }
    }

    /// The tokens written so far.
    pub closed spec fn scanned(&self) -> Seq<TokenView> {
        token_views(self.tokens@)
    }

    /// The cursor lies within the source, and the counters have room for
    /// every character still to come.
    pub closed spec fn wf(&self) -> bool {
        &&& self.current <= self.source.len()
        &&& self.source.len() + 3 <= usize::MAX
        &&& self.start <= self.current
        &&& self.line + (self.source.len() - self.current) + 2 <= usize::MAX
        &&& self.pos_in_line + (self.source.len() - self.current) + 2 <= usize::MAX
    }

    /// A scanner at the start of `source`.
    pub fn new(source: &str) -> (r: Self)
        requires
            source@.len() + 3 <= usize::MAX,
        ensures
            r.wf(),
            r.source() == source@,
            r.cursor() == origin(),
            r.scanned() == Seq::<TokenView>::empty(),
    {
        let r = Self {
            source: chars_of(source),
            tokens: Vec::new(),
            start: 0,
            current: 0,
            line: 1,
            pos_in_line: 1,
        };
        assert(r.scanned() =~= Seq::<TokenView>::empty());
        r
    }

    /// Scans from the cursor to the end of the source. On success the
    /// result holds every token written so far, the new ones behind the
    /// old ones, and ends with `Eof`; the first character that starts no
    /// token, or a string without its closing quote, is the failure.
    pub fn scan_tokens(&mut self) -> (r: Result<Vec<Token>, InterpreterError>)
        requires
            old(self).wf(),
        ensures
            final(self).source() == old(self).source(),
            match scan_from(old(self).source(), old(self).cursor()) {
                Ok(found) => r is Ok && token_views(r->Ok_0@) == old(self).scanned() + found
                    && final(self).scanned() == old(self).scanned() + found && final(self).wf(),
                Err(e) => r is Err && r->Err_0 == InterpreterError::ScannerError(e),
            },
            r is Ok ==> all_valued(scan_from(old(self).source(), old(self).cursor())->Ok_0),
    {
        let ghost src = self.source@;
        let ghost first = self.cursor();
        let ghost before = self.scanned();
        let ghost mut fresh = Seq::<TokenView>::empty();
        assert(before + fresh =~= before);
        assert(prepend(fresh, scan_from(src, first)) == scan_from(src, first)) by {
            match scan_from(src, first) {
                Ok(rest) => {
                    assert(fresh + rest =~= rest);
                },
                Err(e) => {},
            }
        }
        while !self.is_at_end()
            invariant
                self.wf(),
                self.source@ == src,
                src == old(self).source(),
                first == old(self).cursor(),
                self.scanned() == before + fresh,
                prepend(fresh, scan_from(src, self.cursor())) == scan_from(src, first),
                all_valued(fresh),
            decreases self.source.len() - self.current,
        {
            self.start = self.current;
            let ghost c = self.cursor();
            let ghost s = step(src, c);
            match self.scan_token() {
                Ok(()) => {
                    proof {
                        let found = s.outcome->Ok_0;
                        let grown = match found {
                            Some(token) => fresh.push(token),
                            None => fresh,
                        };
                        assert(before + grown =~= self.scanned());
                        match scan_from(src, after(c, s)) {
                            Ok(rest) => {
                                let tail = match found {
                                    Some(token) => seq![token] + rest,
                                    None => rest,
                                };
                                assert(fresh + tail =~= grown + rest);
                            },
                            Err(e) => {},
                        }
                        fresh = grown;
                    }
                },
                Err(e) => {
                    return Err(InterpreterError::ScannerError(e));
                },
            }
        }
        let ghost c = self.cursor();
        self.tokens.push(Token::new(TokenType::Eof, "", None, self.line, self.pos_in_line + 1));
        proof {
            reveal_strlit("");
            let eof = self.tokens@.last();
            assert(eof@.lexeme =~= Seq::<char>::empty());
            assert(eof@ == eof_at(c));
            assert(self.scanned() =~= (before + fresh).push(eof_at(c)));
            assert(self.scanned() =~= before + (fresh + seq![eof_at(c)]));
            assert(scan_from(src, first) == Ok::<Seq<TokenView>, ScannerError>(
                fresh + seq![eof_at(c)],
            ));
            assert(all_valued(fresh + seq![eof_at(c)]));
        }
        let result = clone_tokens(&self.tokens);
        Ok(result)
    }

    fn is_at_end(&self) -> (r: bool)
        requires
            self.wf(),
        ensures
            r == (self.current >= self.source.len()),
    {
        self.current >= self.source.len()
    }

    /// Consumes the character under the cursor and counts it.
    fn advance(&mut self) -> (ch: char)
        requires
            old(self).wf(),
            old(self).current < old(self).source.len(),
        ensures
            final(self).wf(),
            ch == old(self).source@[old(self).current as int],
            final(self).source == old(self).source,
            final(self).tokens == old(self).tokens,
            final(self).start == old(self).start,
            final(self).line == old(self).line,
            final(self).current == old(self).current + 1,
            final(self).pos_in_line == old(self).pos_in_line + 1,
    {
        let ch = self.source[self.current];
        self.current += 1;
        self.pos_in_line += 1;
        ch
    }

    /// Writes the token that spans from `start` to the cursor.
    fn add_token(&mut self, ty: TokenType, lit: Option<Object>)
        requires
            old(self).wf(),
        ensures
            final(self).wf(),
            final(self).source == old(self).source,
            final(self).start == old(self).start,
            final(self).current == old(self).current,
            final(self).line == old(self).line,
            final(self).pos_in_line == old(self).pos_in_line,
            final(self).scanned() == old(self).scanned().push(
                token_at(
                    ty,
                    old(self).source@.subrange(old(self).start as int, old(self).current as int),
                    literal_view(lit),
                    old(self).line as int,
                    old(self).pos_in_line as int,
                ),
            ),
    {
        let text = string_of(&self.source, self.start, self.current);
        let len = self.current - self.start;
        let column = if self.pos_in_line >= len {
            self.pos_in_line - len
        } else {
            0
        };
        let token = Token::new(ty, text.as_str(), lit, self.line, column);
        let ghost done = self.tokens@;
        self.tokens.push(token);
        assert(token_views(self.tokens@) =~= token_views(done).push(token@));
    }

    /// Consumes the character under the cursor if it is `expected`; the
    /// position counter stays as it is.
    fn find_match(&mut self, expected: char) -> (r: bool)
        requires
            old(self).wf(),
        ensures
            final(self).wf(),
            r == (peek_at(old(self).source@, old(self).current as int) == expected && old(
                self,
            ).current < old(self).source.len()),
            final(self).source == old(self).source,
            final(self).tokens == old(self).tokens,
            final(self).start == old(self).start,
            final(self).line == old(self).line,
            final(self).pos_in_line == old(self).pos_in_line,
            final(self).current == old(self).current + if r {
                1int
            } else {
                0int
            },
    {
        if self.is_at_end() {
            return false;
        }
        if self.source[self.current] != expected {
            return false;
        }
        self.current += 1;
        true
    }

    /// The character under the cursor, or NUL at the end.
    fn peek(&self) -> (ch: char)
        requires
            self.wf(),
        ensures
            ch == peek_at(self.source@, self.current as int),
    {
        if self.is_at_end() {
            return '\0';
        }
        self.source[self.current]
    }

    /// The character behind the one under the cursor, or NUL at the end.
    fn peek_next(&self) -> (ch: char)
        requires
            self.wf(),
        ensures
            ch == peek_at(self.source@, self.current + 1),
    {
        if self.current + 1 >= self.source.len() {
            return '\0';
        }
        self.source[self.current + 1]
    }

    /// Consumes digits.
    fn digits(&mut self)
        requires
            old(self).wf(),
        ensures
            final(self).wf(),
            final(self).source == old(self).source,
            final(self).tokens == old(self).tokens,
            final(self).start == old(self).start,
            final(self).line == old(self).line,
            final(self).current == old(self).current + digits_len(
                old(self).source@,
                old(self).current as int,
            ),
            final(self).pos_in_line == old(self).pos_in_line + digits_len(
                old(self).source@,
                old(self).current as int,
            ),
    {
        let ghost first = self.current;
        let ghost column = self.pos_in_line;
        let ghost src = self.source@;
        let mut ch = self.peek();
        while digit(ch)
            invariant
                self.wf(),
                self.source@ == src,
                self.source == old(self).source,
                self.tokens == old(self).tokens,
                self.start == old(self).start,
                self.line == old(self).line,
                first <= self.current,
                ch == peek_at(src, self.current as int),
                self.current - first == self.pos_in_line - column,
                digits_len(src, first as int) == (self.current - first) + digits_len(
                    src,
                    self.current as int,
                ),
            decreases self.source.len() - self.current,
        {
            self.advance();
            ch = self.peek();
        }
    }

    /// Scans the rest of a number whose first digit was consumed.
    fn number(&mut self)
        requires
            old(self).wf(),
            old(self).start + 1 == old(self).current,
            is_digit(old(self).source@[old(self).start as int]),
        ensures
            final(self).wf(),
            valued(final(self).scanned().last()),
            final(self).source == old(self).source,
            final(self).line == old(self).line,
            final(self).current == old(self).current + number_len(
                old(self).source@,
                old(self).current as int,
            ),
            final(self).pos_in_line == old(self).pos_in_line + number_len(
                old(self).source@,
                old(self).current as int,
            ),
            final(self).scanned() == old(self).scanned().push(
                token_at(
                    TokenType::Number,
                    old(self).source@.subrange(old(self).start as int, final(self).current as int),
                    number_literal(
                        old(self).source@.subrange(
                            old(self).start as int,
                            final(self).current as int,
                        ),
                    ),
                    old(self).line as int,
                    final(self).pos_in_line as int,
                ),
            ),
    {
        self.digits();
        let ch_n = self.peek_next();
        if self.peek() == '.' && digit(ch_n) {
            self.advance();
            self.digits();
        }
        let text = string_of(&self.source, self.start, self.current);
        proof {
            lemma_number_is_plain(self.source@, self.start as int);
        }
        let lit = match Number::parse(text.as_str()) {
            Some(value) => Some(Object::Number(value)),
            None => None,
        };
        self.add_token(TokenType::Number, lit);
    }

    /// Scans the rest of a word whose first character was consumed.
    fn identifier(&mut self)
        requires
            old(self).wf(),
            old(self).start < old(self).current,
        ensures
            final(self).wf(),
            final(self).source == old(self).source,
            final(self).line == old(self).line,
            final(self).current == old(self).current + word_len(
                old(self).source@,
                old(self).current as int,
            ),
            final(self).pos_in_line == old(self).pos_in_line + word_len(
                old(self).source@,
                old(self).current as int,
            ),
            final(self).scanned() == old(self).scanned().push(
                token_at(
                    word_kind(
                        old(self).source@.subrange(
                            old(self).start as int,
                            final(self).current as int,
                        ),
                    ),
                    old(self).source@.subrange(old(self).start as int, final(self).current as int),
                    None,
                    old(self).line as int,
                    final(self).pos_in_line as int,
                ),
            ),
    {
        let ghost first = self.current;
        let ghost column = self.pos_in_line;
        let ghost src = self.source@;
        let mut ch = self.peek();
        while alpha(ch) || digit(ch)
            invariant
                self.wf(),
                self.source@ == src,
                self.source == old(self).source,
                self.tokens == old(self).tokens,
                self.start == old(self).start,
                self.line == old(self).line,
                first <= self.current,
                ch == peek_at(src, self.current as int),
                self.current - first == self.pos_in_line - column,
                word_len(src, first as int) == (self.current - first) + word_len(
                    src,
                    self.current as int,
                ),
            decreases self.source.len() - self.current,
        {
            self.advance();
            ch = self.peek();
        }
        let ty = keyword(&self.source, self.start, self.current);
        self.add_token(ty, None);
    }

    /// Scans the rest of a string whose opening quote was consumed.
    fn string(&mut self) -> (r: Result<(), ScannerError>)
        requires
            old(self).wf(),
            old(self).start + 1 == old(self).current,
        ensures
            final(self).source == old(self).source,
            ({
                let src = old(self).source@;
                let next = old(self).current as int;
                let n = string_len(src, next);
                let line = string_line(src, next, old(self).line as int);
                let column = string_column(src, next, old(self).pos_in_line as int);
                if next + n >= src.len() {
                    r == Err::<(), ScannerError>(
                        ScannerError {
                            line: line as usize,
                            pos_in_line: column as usize,
                            ty: ScannerErrorType::UnterminatedString,
                        },
                    )
                } else {
                    &&& r is Ok
                    &&& final(self).wf()
                    &&& final(self).current == next + n + 1
                    &&& final(self).line == line
                    &&& final(self).pos_in_line == column + 1
                    &&& final(self).scanned() == old(self).scanned().push(
                        token_at(
                            TokenType::String,
                            src.subrange(old(self).start as int, next + n + 1),
                            Some(ObjectView::String(decoded(src.subrange(next, next + n)))),
                            line,
                            column + 1,
                        ),
                    )
                }
            }),
    {
        let ghost first = self.current;
        let ghost line = self.line;
        let ghost column = self.pos_in_line;
        let ghost src = self.source@;
        while self.peek() != '"' && !self.is_at_end()
            invariant
                self.wf(),
                self.source@ == src,
                self.source == old(self).source,
                self.tokens == old(self).tokens,
                self.start == old(self).start,
                first <= self.current,
                string_len(src, first as int) == (self.current - first) + string_len(
                    src,
                    self.current as int,
                ),
                string_line(src, first as int, line as int) == string_line(
                    src,
                    self.current as int,
                    self.line as int,
                ),
                string_column(src, first as int, column as int) == string_column(
                    src,
                    self.current as int,
                    self.pos_in_line as int,
                ),
            decreases self.source.len() - self.current,
        {
            let ch = self.advance();
            if ch == '\n' {
                self.line += 1;
                self.pos_in_line = 1;
            }
        }
        if self.is_at_end() {
            return Err(
                ScannerError::new(self.line, self.pos_in_line, ScannerErrorType::UnterminatedString),
            );
        }
        self.advance();
        let value = decode(&self.source, self.start + 1, self.current - 1);
        self.add_token(TokenType::String, Some(Object::String(value)));
        Ok(())
    }

    /// One step: consumes the character under the cursor and whatever
    /// belongs to it, and writes the token that it starts, if any.
    fn scan_token(&mut self) -> (r: Result<(), ScannerError>)
        requires
            old(self).wf(),
            old(self).current < old(self).source.len(),
            old(self).start == old(self).current,
        ensures
            final(self).source == old(self).source,
            ({
                let s = step(old(self).source@, old(self).cursor());
                match s.outcome {
                    Err(e) => r == Err::<(), ScannerError>(e),
                    Ok(found) => {
                        &&& r is Ok
                        &&& final(self).wf()
                        &&& final(self).cursor() == after(old(self).cursor(), s)
                        &&& final(self).scanned() == match found {
                            Some(token) => old(self).scanned().push(token),
                            None => old(self).scanned(),
                        }
                        &&& found is Some ==> valued(found->0)
                    },
                }
            }),
    {
        let ghost src = self.source@;
        let c = self.advance();
        assert(src.subrange(self.start as int, self.start + 1) =~= seq![c]);
        if let Some(ty) = single(c) {
            self.add_token(ty, None);
        } else if let Some(ty) = paired(c) {
            if self.find_match('=') {
                assert(src.subrange(self.start as int, self.start + 2) =~= seq![c, '=']);
                self.add_token(paired_with_equal(ty), None);
            } else {
                self.add_token(ty, None);
            }
        } else if c == '/' {
            if self.find_match('/') {
                let ghost first = self.current;
                let ghost column = self.pos_in_line;
                while self.peek() != '\n' && !self.is_at_end()
                    invariant
                        self.wf(),
                        self.source@ == src,
                        self.source == old(self).source,
                        self.tokens == old(self).tokens,
                        self.line == old(self).line,
                        first <= self.current,
                        self.current - first == self.pos_in_line - column,
                        comment_len(src, first as int) == (self.current - first) + comment_len(
                            src,
                            self.current as int,
                        ),
                    decreases self.source.len() - self.current,
                {
                    self.advance();
                }
            } else {
                self.add_token(TokenType::Slash, None);
            }
        } else if c == ' ' || c == '\r' || c == '\t' {
        } else if c == '\n' {
            self.line += 1;
            self.pos_in_line = 0;
        } else if c == '"' {
            return self.string();
        } else if digit(c) {
            self.number();
        } else if alpha(c) {
            self.identifier();
        } else {
            return Err(
                ScannerError::new(
                    self.line,
                    self.pos_in_line,
                    ScannerErrorType::UnexpectedCharacter(c),
                ),
            );
        }
        Ok(())
    }
}

/// The characters that `digits_len` counts are digits.
proof fn lemma_digits(src: Seq<char>, i: int)
    requires
        0 <= i,
    ensures
        i + digits_len(src, i) <= src.len() || digits_len(src, i) == 0,
        forall|k: int| i <= k < i + digits_len(src, i) ==> is_digit(#[trigger] src[k]),
    decreases src.len() - i,
{
    if i < src.len() && is_digit(src[i]) {
        lemma_digits(src, i + 1);
    }
}

/// The text of a number is digits with at most one point among them.
proof fn lemma_number_is_plain(src: Seq<char>, start: int)
    requires
        0 <= start < src.len(),
        is_digit(src[start]),
    ensures
        start + 1 + number_len(src, start + 1) <= src.len(),
        is_plain_numeral(src.subrange(start, start + 1 + number_len(src, start + 1))),
{
    let whole = digits_len(src, start + 1);
    let dot = start + 1 + whole;
    lemma_digits(src, start + 1);
    lemma_digits(src, dot + 1);
    let text = src.subrange(start, start + 1 + number_len(src, start + 1));
    assert forall|i: int| 0 <= i < text.len() implies ('0' <= #[trigger] text[i] && text[i] <= '9')
        || text[i] == '.' by {
        assert(text[i] == src[start + i]);
    }
    assert forall|i: int, j: int|
        0 <= i < j < text.len() && #[trigger] text[i] == '.' implies #[trigger] text[j] != '.' by {
        assert(text[i] == src[start + i]);
        assert(text[j] == src[start + j]);
    }
}

/// `prefix` in front of the tokens of a result that has tokens.
pub open spec fn prepend(prefix: Seq<TokenView>, r: Result<Seq<TokenView>, ScannerError>) -> Result<
    Seq<TokenView>,
    ScannerError,
> {
    match r {
        Ok(rest) => Ok(prefix + rest),
        Err(e) => Err(e),
    }
}

/// A copy of the tokens.
fn clone_tokens(tokens: &Vec<Token>) -> (r: Vec<Token>)
    ensures
        r@ == tokens@,
{
    let mut out: Vec<Token> = Vec::new();
    let mut i: usize = 0;
    while i < tokens.len()
        invariant
            i <= tokens.len(),
            out@ == tokens@.take(i as int),
        decreases tokens.len() - i,
    {
        out.push(tokens[i].clone());
        i += 1;
        assert(out@ =~= tokens@.take(i as int));
    }
    assert(out@ =~= tokens@);
    out
}

} // verus!
