//! The one format in which every diagnostic is written.

use vstd::prelude::*;

use crate::interpreter::scanner::token::token_type::TokenType;
use crate::interpreter::scanner::token::Token;
use crate::interpreter::scanner::token::TokenView;
use crate::interpreter::text::decimal;
use crate::interpreter::text::push_decimal;
use crate::interpreter::text::push_text;

verus! {

/// `[<line>:<col>] <kind>[ <place>]: <msg>` and a line feed.
pub open spec fn report_text(
    kind: Seq<char>,
    line: nat,
    pos_in_line: nat,
    place: Seq<char>,
    msg: Seq<char>,
) -> Seq<char> {
    seq!['['] + decimal(line) + seq![':'] + decimal(pos_in_line) + seq![']', ' '] + kind + (if place.len()
        == 0 {
        Seq::<char>::empty()
    } else {
        seq![' '] + place
    }) + seq![':', ' '] + msg + seq!['\n']
}

/// Writes a diagnostic of the given kind.
pub fn report(report_ty: &str, line: usize, pos_in_line: usize, place: &str, msg: &str) -> (r:
    String)
    ensures
        r@ == report_text(report_ty@, line as nat, pos_in_line as nat, place@, msg@),
{
    let mut out = String::new();
    out.push('[');
    push_decimal(&mut out, line as u64);
    out.push(':');
    push_decimal(&mut out, pos_in_line as u64);
    out.push(']');
    out.push(' ');
    push_text(&mut out, report_ty);
    if place.unicode_len() != 0 {
        out.push(' ');
        push_text(&mut out, place);
    }
    out.push(':');
    out.push(' ');
    push_text(&mut out, msg);
    out.push('\n');
    assert(out@ =~= report_text(report_ty@, line as nat, pos_in_line as nat, place@, msg@));
    out
}

/// The text of an error that belongs to a place but to no token.
pub open spec fn error_text(line: nat, pos_in_line: nat, msg: Seq<char>) -> Seq<char> {
    report_text("Error"@, line, pos_in_line, Seq::<char>::empty(), msg)
}

/// Writes an error that belongs to a place but to no token.
pub fn error(line: usize, pos_in_line: usize, msg: &str) -> (r: String)
    ensures
        r@ == error_text(line as nat, pos_in_line as nat, msg@),
{
    let place = String::new();
    report("Error", line, pos_in_line, place.as_str(), msg)
}

/// Where a token stands, in words: `at end` for the end of the input,
/// `at '<lexeme>'` for any other token.
pub open spec fn place_of(token: TokenView) -> Seq<char> {
    if token.token_type == TokenType::Eof {
        seq!['a', 't', ' ', 'e', 'n', 'd']
    } else {
        seq!['a', 't', ' ', '\''] + token.lexeme + seq!['\'']
    }
}

/// The text of an error attributed to `token`.
pub open spec fn token_error_text(token: TokenView, msg: Seq<char>) -> Seq<char> {
    report_text("Error"@, token.line as nat, token.pos_in_line as nat, place_of(token), msg)
}

/// Writes an error attributed to `token`.
pub fn error_by_token(token: &Token, msg: &str) -> (r: String)
    ensures
        r@ == token_error_text(token@, msg@),
{
    let mut place = String::new();
    place.push('a');
    place.push('t');
    place.push(' ');
    if token.token_type == TokenType::Eof {
        place.push('e');
        place.push('n');
        place.push('d');
    } else {
        place.push('\'');
        push_text(&mut place, token.lexeme.as_str());
        place.push('\'');
    }
    assert(place@ =~= place_of(token@));
    assert(place@.len() > 0);
    report("Error", token.line, token.pos_in_line, place.as_str(), msg)
}

/// The text of a panic raised by the program at `token`.
pub open spec fn panic_text(token: TokenView, msg: Seq<char>) -> Seq<char> {
    report_text("Panic"@, token.line as nat, token.pos_in_line as nat, Seq::<char>::empty(), msg)
}

/// Writes a panic raised by the program at `token`.
pub fn panic_handler(token: &Token, msg: &str) -> (r: String)
    ensures
        r@ == panic_text(token@, msg@),
{
    let place = String::new();
    report("Panic", token.line, token.pos_in_line, place.as_str(), msg)
}

} // verus!
