//! Tokens: the lexeme carriers that the scanner hands to the parser.

pub mod literal;
pub mod token_type;

use vstd::prelude::*;
use vstd::string::StringExecFns;

use crate::interpreter::scanner::token::literal::Object;
use crate::interpreter::scanner::token::literal::ObjectView;
use crate::interpreter::scanner::token::token_type::TokenType;

verus! {

/// One token of the source text.
///
/// `literal` is present only on number and string tokens. `line` and
/// `pos_in_line` say where the token stands.
#[derive(Debug)]
pub struct Token {
    pub token_type: TokenType,
    pub lexeme: String,
    pub literal: Option<Object>,
    pub line: usize,
    pub pos_in_line: usize,
}

/// A token with its texts as sequences of characters.
pub struct TokenView {
    pub token_type: TokenType,
    pub lexeme: Seq<char>,
    pub literal: Option<ObjectView>,
    pub line: usize,
    pub pos_in_line: usize,
}

/// The view of an optional literal.
pub open spec fn literal_view(literal: Option<Object>) -> Option<ObjectView> {
    match literal {
        Some(value) => Some(value@),
        None => None,
    }
}

impl View for Token {
    type V = TokenView;

    open spec fn view(&self) -> TokenView {
        TokenView {
            token_type: self.token_type,
            lexeme: self.lexeme@,
            literal: literal_view(self.literal),
            line: self.line,
            pos_in_line: self.pos_in_line,
        }
    }
}

/// The views of a sequence of tokens.
pub open spec fn token_views(tokens: Seq<Token>) -> Seq<TokenView> {
    tokens.map_values(|t: Token| t@)
}

impl Clone for Token {
    fn clone(&self) -> (r: Self)
        ensures
            r == *self,
    {
        let literal = match &self.literal {
            Some(value) => Some(value.clone()),
            None => None,
        };
        Token {
            token_type: self.token_type,
            lexeme: self.lexeme.clone(),
            literal,
            line: self.line,
            pos_in_line: self.pos_in_line,
        }
    }
}

impl Token {
    /// A token found at `line`, `pos_in_line`.
    pub fn new(
        token_type: TokenType,
        lexeme: &str,
        literal: Option<Object>,
        line: usize,
        pos_in_line: usize,
    ) -> (r: Token)
        ensures
            r.token_type == token_type,
            r.lexeme@ == lexeme@,
            r.literal == literal,
            r.line == line,
            r.pos_in_line == pos_in_line,
    {
        Token { token_type, lexeme: String::from_str(lexeme), literal, line, pos_in_line }
    }

    /// A token that stands nowhere in the source: line 0, position 0.
    pub fn builtin_void(token_type: TokenType, lexeme: &str, literal: Option<Object>) -> (r: Token)
        ensures
            r.token_type == token_type,
            r.lexeme@ == lexeme@,
            r.literal == literal,
            r.line == 0,
            r.pos_in_line == 0,
    {
        Token { token_type, lexeme: String::from_str(lexeme), literal, line: 0, pos_in_line: 0 }
    }

    /// The text of the token.
    pub fn get_lexeme(&self) -> (r: &str)
        ensures
            r@ == self.lexeme@,
    {
        self.lexeme.as_str()
    }

    /// The kind of the token.
    pub fn get_type(&self) -> (r: TokenType)
        ensures
            r == self.token_type,
    {
        self.token_type
    }

    /// The literal value of the token, if it has one.
    pub fn get_lit(&self) -> (r: Option<Object>)
        ensures
            r == self.literal,
    {
        match &self.literal {
            Some(value) => Some(value.clone()),
            None => None,
        }
    }

    /// The line of the token.
    pub fn get_line(&self) -> (r: usize)
        ensures
            r == self.line,
    {
        self.line
    }

    /// The position of the token in its line.
    pub fn get_pos_in_line(&self) -> (r: usize)
        ensures
            r == self.pos_in_line,
    {
        self.pos_in_line
    }
}

} // verus!
