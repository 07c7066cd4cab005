//! What holds of every token sequence that scanning yields.

use vstd::prelude::*;

use crate::interpreter::scanner::lexicon::after;
use crate::interpreter::scanner::lexicon::comment_len;
use crate::interpreter::scanner::lexicon::digits_len;
use crate::interpreter::scanner::lexicon::number_len;
use crate::interpreter::scanner::lexicon::origin;
use crate::interpreter::scanner::lexicon::remaining;
use crate::interpreter::scanner::lexicon::scan;
use crate::interpreter::scanner::lexicon::scan_from;
use crate::interpreter::scanner::lexicon::step;
use crate::interpreter::scanner::lexicon::string_column;
use crate::interpreter::scanner::lexicon::string_len;
use crate::interpreter::scanner::lexicon::string_line;
use crate::interpreter::scanner::lexicon::word_len;
use crate::interpreter::scanner::lexicon::Cursor;
use crate::interpreter::scanner::token::token_type::TokenType;
use crate::interpreter::scanner::token::TokenView;

verus! {

/// `a` stands at or before `b`: on an earlier line, or on the same line
/// at a position that is not larger.
pub open spec fn stands_before(a: TokenView, b: TokenView) -> bool {
    a.line < b.line || (a.line == b.line && a.pos_in_line <= b.pos_in_line)
}

/// Positions never go back along the sequence.
pub open spec fn positions_ascend(tokens: Seq<TokenView>) -> bool {
    forall|i: int, j: int| 0 <= i <= j < tokens.len() ==> stands_before(tokens[i], tokens[j])
}

/// The last token, and no other, is `Eof`.
pub open spec fn ends_with_eof(tokens: Seq<TokenView>) -> bool {
    &&& tokens.len() > 0
    &&& tokens.last().token_type == TokenType::Eof
    &&& forall|i: int| 0 <= i < tokens.len() - 1 ==> tokens[i].token_type != TokenType::Eof
}

/// The cursor lies within the source and its counters have room for every
/// character still to come.
pub open spec fn in_bounds(src: Seq<char>, c: Cursor) -> bool {
    &&& 0 <= c.current <= src.len()
    &&& 0 <= c.line
    &&& 0 <= c.column
    &&& c.line + (src.len() - c.current) + 2 <= usize::MAX
    &&& c.column + (src.len() - c.current) + 2 <= usize::MAX
}

/// `t` stands no earlier than a token that the cursor `c` could start.
pub open spec fn not_before(t: TokenView, c: Cursor) -> bool {
    t.line > c.line || (t.line == c.line && t.pos_in_line >= c.column - 1)
}

proof fn lemma_comment_len(src: Seq<char>, i: int)
    requires
        0 <= i <= src.len(),
    ensures
        i + comment_len(src, i) <= src.len(),
    decreases src.len() - i,
{
    if i < src.len() && src[i] != '\n' {
        lemma_comment_len(src, i + 1);
    }
}

proof fn lemma_digits_len(src: Seq<char>, i: int)
    requires
        0 <= i <= src.len(),
    ensures
        i + digits_len(src, i) <= src.len(),
    decreases src.len() - i,
{
    if i < src.len() && crate::interpreter::scanner::lexicon::is_digit(src[i]) {
        lemma_digits_len(src, i + 1);
    }
}

proof fn lemma_word_len(src: Seq<char>, i: int)
    requires
        0 <= i <= src.len(),
    ensures
        i + word_len(src, i) <= src.len(),
    decreases src.len() - i,
{
    if i < src.len() && crate::interpreter::scanner::lexicon::is_alphanumeric(src[i]) {
        lemma_word_len(src, i + 1);
    }
}

proof fn lemma_number_len(src: Seq<char>, i: int)
    requires
        0 <= i <= src.len(),
    ensures
        i + number_len(src, i) <= src.len(),
{
    lemma_digits_len(src, i);
    let dot = i + digits_len(src, i);
    if dot + 1 <= src.len() {
        lemma_digits_len(src, dot + 1);
    }
}

proof fn lemma_string(src: Seq<char>, i: int, line: int, column: int)
    requires
        0 <= i <= src.len(),
        0 <= column,
    ensures
        i + string_len(src, i) <= src.len(),
        line <= string_line(src, i, line) <= line + string_len(src, i),
        0 <= string_column(src, i, column) <= column + string_len(src, i),
        string_line(src, i, line) == line ==> string_column(src, i, column) == column + string_len(
            src,
            i,
        ),
    decreases src.len() - i,
{
    if i < src.len() && src[i] != '"' {
        if src[i] == '\n' {
            lemma_string(src, i + 1, line + 1, 1);
        } else {
            lemma_string(src, i + 1, line, column + 1);
        }
    }
}

/// One step from a cursor in bounds: the cursor stays in bounds and never
/// goes back, and the token of the step stands between the two cursors.
proof fn lemma_step(src: Seq<char>, c: Cursor)
    requires
        in_bounds(src, c),
        c.current < src.len(),
    ensures
        step(src, c).outcome is Ok ==> {
            let s = step(src, c);
            let next = after(c, s);
            &&& in_bounds(src, next)
            &&& next.line > c.line || (next.line == c.line && next.column >= c.column)
            &&& match s.outcome->Ok_0 {
                Some(t) => {
                    &&& not_before(t, c)
                    &&& t.token_type != TokenType::Eof
                    &&& t.line < next.line || (t.line == next.line && t.pos_in_line <= next.column
                        - 1)
                },
                None => true,
            }
        },
{
    let next = c.current + 1;
    lemma_comment_len(src, next);
    if next + 1 <= src.len() {
        lemma_comment_len(src, next + 1);
    }
    lemma_number_len(src, next);
    lemma_word_len(src, next);
    lemma_string(src, next, c.line, c.column + 1);
}

/// From a cursor in bounds, a successful scan ends with `Eof`, its
/// positions ascend, and none of its tokens stands before the cursor.
proof fn lemma_scan_from(src: Seq<char>, c: Cursor)
    requires
        in_bounds(src, c),
    ensures
        match scan_from(src, c) {
            Ok(tokens) => {
                &&& ends_with_eof(tokens)
                &&& positions_ascend(tokens)
                &&& forall|i: int| 0 <= i < tokens.len() ==> not_before(#[trigger] tokens[i], c)
            },
            Err(e) => true,
        },
    decreases remaining(src, c),
{
    if c.current < src.len() {
        let s = step(src, c);
        lemma_step(src, c);
        if s.outcome is Ok {
            let next = after(c, s);
            lemma_scan_from(src, next);
            match scan_from(src, next) {
                Ok(rest) => {
                    let tokens = scan_from(src, c)->Ok_0;
                    match s.outcome->Ok_0 {
                        Some(t) => {
                            assert(tokens =~= seq![t] + rest);
                            assert forall|i: int| 0 <= i < tokens.len() implies not_before(
                                #[trigger] tokens[i],
                                c,
                            ) by {
                                if i > 0 {
                                    assert(tokens[i] == rest[i - 1]);
                                    assert(not_before(rest[i - 1], next));
                                }
                            }
                            assert forall|i: int, j: int| 0 <= i <= j < tokens.len() implies stands_before(
                                tokens[i],
                                tokens[j],
                            ) by {
                                if i == 0 {
                                    if j > 0 {
                                        assert(tokens[j] == rest[j - 1]);
                                        assert(not_before(rest[j - 1], next));
                                    }
                                } else {
                                    assert(tokens[i] == rest[i - 1]);
                                    assert(tokens[j] == rest[j - 1]);
                                }
                            }
                            assert forall|i: int| 0 <= i < tokens.len() - 1 implies tokens[i].token_type
                                != TokenType::Eof by {
                                if i > 0 {
                                    assert(tokens[i] == rest[i - 1]);
                                }
                            }
                            assert(tokens.last() == rest.last());
                        },
                        None => {
                            assert(tokens == rest);
                            assert forall|i: int| 0 <= i < tokens.len() implies not_before(
                                #[trigger] tokens[i],
                                c,
                            ) by {
                                assert(not_before(rest[i], next));
                            }
                        },
                    }
                },
                Err(e) => {},
            }
        }
    }
}

/// Scanning a source text either fails or yields tokens of which the
/// last, and only the last, is `Eof`, and whose positions never go back.
pub proof fn lemma_scan_is_ordered(src: Seq<char>)
    requires
        src.len() + 3 <= usize::MAX,
    ensures
        match scan(src) {
            Ok(tokens) => ends_with_eof(tokens) && positions_ascend(tokens),
            Err(e) => true,
        },
{
    lemma_scan_from(src, origin());
}

} // verus!
