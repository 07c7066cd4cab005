//! What parsing means: the syntax tree of a token sequence, defined on
//! the tokens.
//!
//! Every function takes the token sequence, the index of the token under
//! the cursor and the identifier that the next node gets, and yields a
//! tree or an error together with the cursor and the identifier behind
//! it. Where a function goes on behind a part that it has parsed, it goes
//! on at `ahead` of that part: the cursor of the part, which lies behind
//! the start of the part.

use vstd::prelude::*;

use crate::interpreter::ast::view::ExprView;
use crate::interpreter::ast::view::FunView;
use crate::interpreter::ast::view::StmtView;
use crate::interpreter::parser::error::ParserErrorView;
use crate::interpreter::parser::error::ParserErrorType;
use crate::interpreter::scanner::token::literal::ObjectView;
use crate::interpreter::scanner::token::token_type::TokenType;
use crate::interpreter::scanner::token::TokenView;
use crate::utils::following;

verus! {

/// The most arguments that a call, and the most parameters that a
/// function, may have.
pub const MAX_ARGS: usize = 255;

/// What parsing a part of the input yields: the part or an error, the
/// cursor behind it, and the identifier that the next node gets.
pub struct Parsed<T> {
    pub result: Result<T, ParserErrorView>,
    pub pos: int,
    pub id: u64,
}

/// What parsing a whole program yields: the statements that parsed and
/// the errors that were met, each in order.
pub struct Program {
    pub statements: Seq<StmtView>,
    pub errors: Seq<ParserErrorView>,
    pub pos: int,
    pub id: u64,
}

/// The part `value`, parsed up to `pos`.
pub open spec fn done<T>(value: T, pos: int, id: u64) -> Parsed<T> {
    Parsed { result: Ok(value), pos, id }
}

/// The error `error`, met with the cursor at `pos`.
pub open spec fn failed<T>(error: ParserErrorView, pos: int, id: u64) -> Parsed<T> {
    Parsed { result: Err(error), pos, id }
}

/// The error `ty` at the token under the cursor.
pub open spec fn fail<T>(t: Seq<TokenView>, pos: int, id: u64, ty: ParserErrorType) -> Parsed<T> {
    failed(ParserErrorView { token: t[pos], ty }, pos, id)
}

/// Whether the cursor stands on a token.
pub open spec fn on_token(t: Seq<TokenView>, pos: int) -> bool {
    0 <= pos < t.len()
}

/// Whether the cursor stands on `Eof`.
pub open spec fn at_end(t: Seq<TokenView>, pos: int) -> bool {
    t[pos].token_type == TokenType::Eof
}

/// Whether the cursor stands on a token of kind `ty` before the end.
pub open spec fn looks_at(t: Seq<TokenView>, pos: int, ty: TokenType) -> bool {
    on_token(t, pos) && !at_end(t, pos) && t[pos].token_type == ty
}

/// How many tokens stand at or behind the cursor.
pub open spec fn remaining(t: Seq<TokenView>, pos: int) -> nat {
    if 0 <= pos <= t.len() {
        (t.len() - pos) as nat
    } else {
        0
    }
}

/// The cursor behind a part that started at `start` and ended at `pos`.
pub open spec fn ahead(start: int, pos: int) -> int {
    if pos > start {
        pos
    } else {
        start + 1
    }
}

/// The later of two cursors.
pub open spec fn later(a: int, b: int) -> int {
    if b > a {
        b
    } else {
        a
    }
}

/// A token of kind `ty`, or the error `error` at the token under the
/// cursor.
pub open spec fn consume(t: Seq<TokenView>, pos: int, id: u64, ty: TokenType, error: ParserErrorType) -> Parsed<
    TokenView,
> {
    if looks_at(t, pos, ty) {
        done(t[pos], pos + 1, id)
    } else {
        fail(t, pos, id, error)
    }
}

/// Whether a token of kind `ty` is an operator of the binary level
/// `level`: 0 for `* /`, 1 for `- +`, 2 for `> >= < <=`, 3 for `!= ==`,
/// 4 for `and`, 5 for `or`.
pub open spec fn level_operator(level: nat, ty: TokenType) -> bool {
    if level == 0 {
        ty == TokenType::Star || ty == TokenType::Slash
    } else if level == 1 {
        ty == TokenType::Minus || ty == TokenType::Plus
    } else if level == 2 {
        ty == TokenType::Greater || ty == TokenType::GreaterEqual || ty == TokenType::Less || ty
            == TokenType::LessEqual
    } else if level == 3 {
        ty == TokenType::BangEqual || ty == TokenType::EqualEqual
    } else if level == 4 {
        ty == TokenType::And
    } else {
        ty == TokenType::Or
    }
}

/// The node of an operator of the binary level `level`.
pub open spec fn joined(level: nat, id: u64, left: ExprView, op: TokenView, right: ExprView) -> ExprView {
    if level <= 3 {
        ExprView::Binary { id, left: Box::new(left), operation: op, right: Box::new(right) }
    } else {
        ExprView::Logical { id, left: Box::new(left), operator: op, right: Box::new(right) }
    }
}

/// primary: a literal, a name, `self`, `super.name`, an expression
/// between parentheses, or a list.
pub open spec fn primary(t: Seq<TokenView>, pos: int, id: u64) -> Parsed<ExprView>
    decreases remaining(t, pos), 7int,
{
    if !on_token(t, pos) {
        fail(t, pos, id, ParserErrorType::ExpectedExpression)
    } else if looks_at(t, pos, TokenType::False) {
        done(ExprView::Literal { id, literal: Some(ObjectView::Bool(false)) }, pos + 1, following(id))
    } else if looks_at(t, pos, TokenType::True) {
        done(ExprView::Literal { id, literal: Some(ObjectView::Bool(true)) }, pos + 1, following(id))
    } else if looks_at(t, pos, TokenType::Nil) {
        done(ExprView::Literal { id, literal: Some(ObjectView::Nil) }, pos + 1, following(id))
    } else if looks_at(t, pos, TokenType::Number) || looks_at(t, pos, TokenType::String) {
        done(ExprView::Literal { id, literal: t[pos].literal }, pos + 1, following(id))
    } else if looks_at(t, pos, TokenType::Identifier) {
        done(ExprView::Variable { id, token: t[pos] }, pos + 1, following(id))
    } else if looks_at(t, pos, TokenType::LeftParen) {
        grouping(t, pos + 1, id)
    } else if looks_at(t, pos, TokenType::Slf) {
        done(ExprView::SelfExpr { id, name: t[pos] }, pos + 1, following(id))
    } else if looks_at(t, pos, TokenType::Super) {
        super_expression(t, pos + 1, id, t[pos])
    } else if looks_at(t, pos, TokenType::LeftBracket) {
        list(t, pos + 1, id)
    } else {
        fail(t, pos, id, ParserErrorType::ExpectedExpression)
    }
}

/// The rest of an expression between parentheses, behind the opening
/// one.
pub open spec fn grouping(t: Seq<TokenView>, pos: int, id: u64) -> Parsed<ExprView>
    decreases remaining(t, pos), 64int,
{
    let inner = closed_expression(
        t,
        pos,
        id,
        TokenType::RightParen,
        ParserErrorType::ExpectedMatchingParens,
    );
    match inner.result {
        Ok(e) => done(
            ExprView::Grouping { id: inner.id, expression: Box::new(e) },
            inner.pos,
            following(inner.id),
        ),
        Err(_) => inner,
    }
}

/// The rest of `super . name` behind the keyword.
pub open spec fn super_expression(t: Seq<TokenView>, pos: int, id: u64, keyword: TokenView) -> Parsed<
    ExprView,
> {
    let dot = consume(t, pos, id, TokenType::Dot, ParserErrorType::ExpectedDotAfterSuper);
    match dot.result {
        Ok(_) => {
            let method = consume(
                t,
                pos + 1,
                id,
                TokenType::Identifier,
                ParserErrorType::ExpectedMethodAfterDot,
            );
            match method.result {
                Ok(name) => done(
                    ExprView::Super { id, keyword, method: name },
                    pos + 2,
                    following(id),
                ),
                Err(error) => failed(error, method.pos, id),
            }
        },
        Err(error) => failed(error, dot.pos, id),
    }
}

/// The rest of a list behind its opening bracket.
pub open spec fn list(t: Seq<TokenView>, pos: int, id: u64) -> Parsed<ExprView>
    decreases remaining(t, pos), 65int,
{
    let values = sequence(t, pos, id, TokenType::RightBracket);
    match values.result {
        Ok(items) => {
            let close = consume(
                t,
                values.pos,
                values.id,
                TokenType::RightBracket,
                ParserErrorType::ExpectedRightBracket,
            );
            match close.result {
                Ok(_) => done(
                    ExprView::List { id: values.id, values: items },
                    close.pos,
                    following(values.id),
                ),
                Err(error) => failed(error, close.pos, close.id),
            }
        },
        Err(error) => failed(error, values.pos, values.id),
    }
}

/// The expressions between an opening bracket, which lies before the
/// cursor, and a token of kind `close`: none, or one and more behind
/// commas.
pub open spec fn sequence(t: Seq<TokenView>, pos: int, id: u64, close: TokenType) -> Parsed<
    Seq<ExprView>,
>
    decreases remaining(t, pos), 61int,
{
    if !on_token(t, pos) || looks_at(t, pos, close) {
        done(Seq::empty(), pos, id)
    } else {
        let first = expression(t, pos, id);
        match first.result {
            Ok(e) => more(t, ahead(pos, first.pos), first.id, seq![e]),
            Err(error) => failed(error, first.pos, first.id),
        }
    }
}

/// The expressions behind commas, behind the expressions `items`.
pub open spec fn more(t: Seq<TokenView>, pos: int, id: u64, items: Seq<ExprView>) -> Parsed<
    Seq<ExprView>,
>
    decreases remaining(t, pos), 60int,
{
    if looks_at(t, pos, TokenType::Comma) {
        let next = expression(t, pos + 1, id);
        match next.result {
            Ok(e) => more(t, ahead(pos + 1, next.pos), next.id, items.push(e)),
            Err(error) => failed(error, next.pos, next.id),
        }
    } else {
        done(items, pos, id)
    }
}

/// The rest of a call whose opening parenthesis lies before the cursor.
pub open spec fn finish_call(t: Seq<TokenView>, pos: int, id: u64, callee: ExprView) -> Parsed<ExprView>
    decreases remaining(t, pos), 62int,
{
    let args = sequence(t, pos, id, TokenType::RightParen);
    match args.result {
        Ok(arguments) => {
            let paren = consume(
                t,
                args.pos,
                args.id,
                TokenType::RightParen,
                ParserErrorType::ExpectedRightParenAfterArguments,
            );
            match paren.result {
                Ok(close) => if arguments.len() > MAX_ARGS {
                    failed(
                        ParserErrorView { token: close, ty: ParserErrorType::CountOfArgsGreaterThen255 },
                        paren.pos,
                        args.id,
                    )
                } else {
                    done(
                        ExprView::Call {
                            id: args.id,
                            callable: Box::new(callee),
                            parens: close,
                            args: arguments,
                        },
                        paren.pos,
                        following(args.id),
                    )
                },
                Err(error) => failed(error, paren.pos, args.id),
            }
        },
        Err(error) => failed(error, args.pos, args.id),
    }
}

/// The calls and property reads behind the expression `expr`.
pub open spec fn call_rest(t: Seq<TokenView>, pos: int, id: u64, expr: ExprView) -> Parsed<ExprView>
    decreases remaining(t, pos), 63int,
{
    if looks_at(t, pos, TokenType::LeftParen) {
        let called = finish_call(t, pos + 1, id, expr);
        match called.result {
            Ok(e) => call_rest(t, ahead(pos + 1, called.pos), called.id, e),
            Err(_) => called,
        }
    } else if looks_at(t, pos, TokenType::Dot) {
        let name = consume(
            t,
            pos + 1,
            id,
            TokenType::Identifier,
            ParserErrorType::ExpectedPropertyAfterDot,
        );
        match name.result {
            Ok(property) => call_rest(
                t,
                pos + 2,
                following(id),
                ExprView::Get { id, name: property, object: Box::new(expr) },
            ),
            Err(error) => failed(error, name.pos, id),
        }
    } else {
        done(expr, pos, id)
    }
}

/// call: a primary with calls and property reads behind it.
pub open spec fn call(t: Seq<TokenView>, pos: int, id: u64) -> Parsed<ExprView>
    decreases remaining(t, pos), 8int,
{
    if !on_token(t, pos) {
        fail(t, pos, id, ParserErrorType::ExpectedExpression)
    } else {
        let first = primary(t, pos, id);
        match first.result {
            Ok(e) => call_rest(t, ahead(pos, first.pos), first.id, e),
            Err(_) => first,
        }
    }
}

/// unary: `!` or `-` before a unary, or a call.
pub open spec fn unary(t: Seq<TokenView>, pos: int, id: u64) -> Parsed<ExprView>
    decreases remaining(t, pos), 9int,
{
    if looks_at(t, pos, TokenType::Bang) || looks_at(t, pos, TokenType::Minus) {
        let operand = unary(t, pos + 1, id);
        match operand.result {
            Ok(right) => done(
                ExprView::Unary { id: operand.id, operator: t[pos], right: Box::new(right) },
                operand.pos,
                following(operand.id),
            ),
            Err(_) => operand,
        }
    } else {
        call(t, pos, id)
    }
}

/// The operand of the binary level `level`: the level below it, or a
/// unary below `* /`.
pub open spec fn operand(level: nat, t: Seq<TokenView>, pos: int, id: u64) -> Parsed<ExprView>
    decreases remaining(t, pos), 10 + 2 * level,
{
    if level == 0 {
        unary(t, pos, id)
    } else {
        binary((level - 1) as nat, t, pos, id)
    }
}

/// The operators of the level `level` and their right operands, behind
/// the left operand `left`: every operator joins all before it with the
/// operand behind it.
pub open spec fn binary_rest(level: nat, t: Seq<TokenView>, pos: int, id: u64, left: ExprView) -> Parsed<
    ExprView,
>
    decreases remaining(t, pos), 100 + 2 * level,
{
    if on_token(t, pos) && !at_end(t, pos) && level_operator(level, t[pos].token_type) {
        let next = operand(level, t, pos + 1, id);
        match next.result {
            Ok(right) => binary_rest(
                level,
                t,
                ahead(pos + 1, next.pos),
                following(next.id),
                joined(level, next.id, left, t[pos], right),
            ),
            Err(_) => next,
        }
    } else {
        done(left, pos, id)
    }
}

/// An expression of the binary level `level`: operands of the level
/// below, joined from the left by the operators of the level.
pub open spec fn binary(level: nat, t: Seq<TokenView>, pos: int, id: u64) -> Parsed<ExprView>
    decreases remaining(t, pos), 11 + 2 * level,
{
    if !on_token(t, pos) {
        fail(t, pos, id, ParserErrorType::ExpectedExpression)
    } else {
        let first = operand(level, t, pos, id);
        match first.result {
            Ok(left) => binary_rest(level, t, ahead(pos, first.pos), first.id, left),
            Err(_) => first,
        }
    }
}

/// The node of an assignment to `target`, or `InvalidAssignmentTarget` at
/// the `=` where the target is neither a variable nor a property.
pub open spec fn assigned(id: u64, target: ExprView, equal: TokenView, value: ExprView) -> Result<
    ExprView,
    ParserErrorView,
> {
    match target {
        ExprView::Variable { id: _, token } => Ok(
            ExprView::Assign { id, token, value: Box::new(value) },
        ),
        ExprView::Get { id: _, name, object } => Ok(
            ExprView::SetExpr { id, name, obj: object, value: Box::new(value) },
        ),
        _ => Err(ParserErrorView { token: equal, ty: ParserErrorType::InvalidAssignmentTarget }),
    }
}

/// assignment: an `or` expression, or a target, `=` and an assignment.
pub open spec fn assignment(t: Seq<TokenView>, pos: int, id: u64) -> Parsed<ExprView>
    decreases remaining(t, pos), 24int,
{
    if !on_token(t, pos) {
        fail(t, pos, id, ParserErrorType::ExpectedExpression)
    } else {
        let target = binary(5, t, pos, id);
        match target.result {
            Ok(expr) => {
                let at = ahead(pos, target.pos);
                if looks_at(t, at, TokenType::Equal) {
                    let value = assignment(t, at + 1, target.id);
                    match value.result {
                        Ok(v) => Parsed {
                            result: assigned(value.id, expr, t[at], v),
                            pos: value.pos,
                            id: if assigned(value.id, expr, t[at], v) is Ok {
                                following(value.id)
                            } else {
                                value.id
                            },
                        },
                        Err(_) => value,
                    }
                } else {
                    done(expr, at, target.id)
                }
            },
            Err(_) => target,
        }
    }
}

/// An expression.
pub open spec fn expression(t: Seq<TokenView>, pos: int, id: u64) -> Parsed<ExprView>
    decreases remaining(t, pos), 25int,
{
    assignment(t, pos, id)
}

/// An expression and the token of kind `close` behind it.
pub open spec fn closed_expression(
    t: Seq<TokenView>,
    pos: int,
    id: u64,
    close: TokenType,
    error: ParserErrorType,
) -> Parsed<ExprView>
    decreases remaining(t, pos), 26int,
{
    let e = expression(t, pos, id);
    match e.result {
        Ok(expr) => {
            let end = consume(t, e.pos, e.id, close, error);
            match end.result {
                Ok(_) => done(expr, end.pos, e.id),
                Err(error) => failed(error, end.pos, e.id),
            }
        },
        Err(_) => e,
    }
}

/// `expr ;`
pub open spec fn expr_statement(t: Seq<TokenView>, pos: int, id: u64) -> Parsed<StmtView>
    decreases remaining(t, pos), 36int,
{
    let e = closed_expression(
        t,
        pos,
        id,
        TokenType::Semicolon,
        ParserErrorType::ExpectedSemicolon,
    );
    match e.result {
        Ok(expr) => done(StmtView::Expr { expr }, e.pos, e.id),
        Err(error) => failed(error, e.pos, e.id),
    }
}

/// The rest of `print expr ;` behind the keyword.
pub open spec fn print_statement(t: Seq<TokenView>, pos: int, id: u64) -> Parsed<StmtView>
    decreases remaining(t, pos), 50int,
{
    let e = closed_expression(
        t,
        pos,
        id,
        TokenType::Semicolon,
        ParserErrorType::ExpectedSemicolon,
    );
    match e.result {
        Ok(expr) => done(StmtView::Print { expr }, e.pos, e.id),
        Err(error) => failed(error, e.pos, e.id),
    }
}

/// The rest of `use expr ;` behind the keyword.
pub open spec fn import(t: Seq<TokenView>, pos: int, id: u64, keyword: TokenView) -> Parsed<StmtView>
    decreases remaining(t, pos), 50int,
{
    let e = closed_expression(
        t,
        pos,
        id,
        TokenType::Semicolon,
        ParserErrorType::ExpectedSemicolon,
    );
    match e.result {
        Ok(expr) => done(StmtView::Use { name: keyword, expr }, e.pos, e.id),
        Err(error) => failed(error, e.pos, e.id),
    }
}

/// The rest of `return expr ;` behind the keyword.
pub open spec fn return_statement(t: Seq<TokenView>, pos: int, id: u64, keyword: TokenView) -> Parsed<
    StmtView,
>
    decreases remaining(t, pos), 50int,
{
    if looks_at(t, pos, TokenType::Semicolon) {
        done(StmtView::Return { token: keyword, returned: None }, pos + 1, id)
    } else {
        let e = closed_expression(
            t,
            pos,
            id,
            TokenType::Semicolon,
            ParserErrorType::ExpectedSemicolon,
        );
        match e.result {
            Ok(expr) => done(StmtView::Return { token: keyword, returned: Some(expr) }, e.pos, e.id),
            Err(error) => failed(error, e.pos, e.id),
        }
    }
}

/// The rest of `let name = expr ;` behind the keyword.
pub open spec fn let_declaration(t: Seq<TokenView>, pos: int, id: u64) -> Parsed<StmtView>
    decreases remaining(t, pos), 50int,
{
    let name = consume(t, pos, id, TokenType::Identifier, ParserErrorType::ExpectedVariableName);
    match name.result {
        Ok(ident) => if looks_at(t, pos + 1, TokenType::Equal) {
            let e = closed_expression(
                t,
                pos + 2,
                id,
                TokenType::Semicolon,
                ParserErrorType::ExpectedSemicolonAfterVarDecl,
            );
            match e.result {
                Ok(expr) => done(StmtView::Let { ident, initializer: Some(expr) }, e.pos, e.id),
                Err(error) => failed(error, e.pos, e.id),
            }
        } else {
            let end = consume(
                t,
                pos + 1,
                id,
                TokenType::Semicolon,
                ParserErrorType::ExpectedSemicolonAfterVarDecl,
            );
            match end.result {
                Ok(_) => done(StmtView::Let { ident, initializer: None }, end.pos, id),
                Err(error) => failed(error, end.pos, id),
            }
        },
        Err(error) => failed(error, name.pos, id),
    }
}

/// The statements up to the closing brace, behind the statements `stmts`,
/// and the brace.
pub open spec fn block(t: Seq<TokenView>, pos: int, id: u64, stmts: Seq<StmtView>) -> Parsed<
    Seq<StmtView>,
>
    decreases remaining(t, pos), 50int,
{
    if on_token(t, pos) && !at_end(t, pos) && t[pos].token_type != TokenType::RightBrace {
        let one = declaration(t, pos, id);
        match one.result {
            Ok(stmt) => block(t, ahead(pos, one.pos), one.id, stmts.push(stmt)),
            Err(error) => failed(error, one.pos, one.id),
        }
    } else {
        let close = consume(
            t,
            pos,
            id,
            TokenType::RightBrace,
            ParserErrorType::ExpectedMatchingBrace,
        );
        match close.result {
            Ok(_) => done(stmts, close.pos, id),
            Err(error) => failed(error, close.pos, id),
        }
    }
}

/// The parameters behind commas, behind the parameters `params`.
pub open spec fn more_params(t: Seq<TokenView>, pos: int, id: u64, params: Seq<TokenView>) -> Parsed<
    Seq<TokenView>,
>
    decreases remaining(t, pos), 50int,
{
    if looks_at(t, pos, TokenType::Comma) {
        if params.len() >= MAX_ARGS {
            fail(t, pos + 1, id, ParserErrorType::CountOfParamsGreaterThen255)
        } else {
            let next = consume(
                t,
                pos + 1,
                id,
                TokenType::Identifier,
                ParserErrorType::ExpectedParamName,
            );
            match next.result {
                Ok(param) => more_params(t, pos + 2, id, params.push(param)),
                Err(error) => failed(error, next.pos, id),
            }
        }
    } else {
        done(params, pos, id)
    }
}

/// The parameters of a function, behind its opening parenthesis.
pub open spec fn parameters(t: Seq<TokenView>, pos: int, id: u64) -> Parsed<Seq<TokenView>> {
    if looks_at(t, pos, TokenType::RightParen) {
        done(Seq::empty(), pos, id)
    } else {
        let first = consume(
            t,
            pos,
            id,
            TokenType::Identifier,
            ParserErrorType::ExpectedParamName,
        );
        match first.result {
            Ok(param) => more_params(t, pos + 1, id, seq![param]),
            Err(error) => failed(error, first.pos, id),
        }
    }
}

/// `name ( params ) { body }`
pub open spec fn fun_declaration(t: Seq<TokenView>, pos: int, id: u64) -> Parsed<FunView>
    decreases remaining(t, pos), 51int,
{
    let name = consume(
        t,
        pos,
        id,
        TokenType::Identifier,
        ParserErrorType::ExpectedIdentAfterFunDecl,
    );
    match name.result {
        Ok(ident) => {
            let open = consume(
                t,
                pos + 1,
                id,
                TokenType::LeftParen,
                ParserErrorType::ExpectedLeftParenAfterFunIdent,
            );
            match open.result {
                Ok(_) => {
                    let params = parameters(t, pos + 2, id);
                    match params.result {
                        Ok(names) => {
                            let at = later(pos + 2, params.pos);
                            let close = consume(
                                t,
                                at,
                                id,
                                TokenType::RightParen,
                                ParserErrorType::ExpectedRightParenAfterParams,
                            );
                            match close.result {
                                Ok(_) => {
                                    let brace = consume(
                                        t,
                                        at + 1,
                                        id,
                                        TokenType::LeftBrace,
                                        ParserErrorType::ExpectedLeftBraceBeforeBody,
                                    );
                                    match brace.result {
                                        Ok(_) => {
                                            let body = block(t, at + 2, id, Seq::empty());
                                            match body.result {
                                                Ok(stmts) => done(
                                                    FunView {
                                                        id: body.id,
                                                        name: ident,
                                                        params: names,
                                                        body: stmts,
                                                    },
                                                    body.pos,
                                                    following(body.id),
                                                ),
                                                Err(error) => failed(error, body.pos, body.id),
                                            }
                                        },
                                        Err(error) => failed(error, brace.pos, id),
                                    }
                                },
                                Err(error) => failed(error, close.pos, id),
                            }
                        },
                        Err(error) => failed(error, params.pos, id),
                    }
                },
                Err(error) => failed(error, open.pos, id),
            }
        },
        Err(error) => failed(error, name.pos, id),
    }
}

/// The methods up to the closing brace, behind the methods `methods`, and
/// the brace.
pub open spec fn methods(t: Seq<TokenView>, pos: int, id: u64, found: Seq<FunView>) -> Parsed<
    Seq<FunView>,
>
    decreases remaining(t, pos), 52int,
{
    if on_token(t, pos) && !at_end(t, pos) && t[pos].token_type != TokenType::RightBrace {
        let one = fun_declaration(t, pos, id);
        match one.result {
            Ok(method) => methods(t, ahead(pos, one.pos), one.id, found.push(method)),
            Err(error) => failed(error, one.pos, one.id),
        }
    } else {
        let close = consume(
            t,
            pos,
            id,
            TokenType::RightBrace,
            ParserErrorType::ExpectedMatchingBrace,
        );
        match close.result {
            Ok(_) => done(found, close.pos, id),
            Err(error) => failed(error, close.pos, id),
        }
    }
}

/// The body of a class behind its name and superclass: `{ methods }`.
pub open spec fn class_body(
    t: Seq<TokenView>,
    pos: int,
    id: u64,
    name: TokenView,
    super_class: Option<ExprView>,
) -> Parsed<StmtView>
    decreases remaining(t, pos), 53int,
{
    let open = consume(
        t,
        pos,
        id,
        TokenType::LeftBrace,
        ParserErrorType::ExpectedLeftBraceBeforeBody,
    );
    match open.result {
        Ok(_) => {
            let body = methods(t, pos + 1, id, Seq::empty());
            match body.result {
                Ok(found) => done(
                    StmtView::Class { name, methods: found, super_class },
                    body.pos,
                    body.id,
                ),
                Err(error) => failed(error, body.pos, body.id),
            }
        },
        Err(error) => failed(error, open.pos, id),
    }
}

/// The rest of `class name < superclass { methods }` behind the keyword.
pub open spec fn class_declaration(t: Seq<TokenView>, pos: int, id: u64) -> Parsed<StmtView>
    decreases remaining(t, pos), 54int,
{
    let name = consume(
        t,
        pos,
        id,
        TokenType::Identifier,
        ParserErrorType::ExpectedIdentAfterClassDecl,
    );
    match name.result {
        Ok(ident) => if looks_at(t, pos + 1, TokenType::Less) {
            let parent = consume(
                t,
                pos + 2,
                id,
                TokenType::Identifier,
                ParserErrorType::ExpectedSuperClassIdent,
            );
            match parent.result {
                Ok(super_name) => class_body(
                    t,
                    pos + 3,
                    following(id),
                    ident,
                    Some(ExprView::Variable { id, token: super_name }),
                ),
                Err(error) => failed(error, parent.pos, id),
            }
        } else {
            class_body(t, pos + 1, id, ident, None)
        },
        Err(error) => failed(error, name.pos, id),
    }
}

/// The `else` branch of an `if`, where it has one.
pub open spec fn else_branch(t: Seq<TokenView>, pos: int, id: u64) -> Parsed<Option<StmtView>>
    decreases remaining(t, pos), 49int,
{
    if looks_at(t, pos, TokenType::Else) {
        let branch = statement(t, pos + 1, id);
        match branch.result {
            Ok(stmt) => done(Some(stmt), branch.pos, branch.id),
            Err(error) => failed(error, branch.pos, branch.id),
        }
    } else {
        done(None, pos, id)
    }
}

/// The rest of `if cond then else other` behind the keyword.
pub open spec fn if_statement(t: Seq<TokenView>, pos: int, id: u64) -> Parsed<StmtView>
    decreases remaining(t, pos), 50int,
{
    if !on_token(t, pos) {
        fail(t, pos, id, ParserErrorType::ExpectedExpression)
    } else {
        let cond = expression(t, pos, id);
        match cond.result {
            Ok(c) => {
                let then_branch = statement(t, ahead(pos, cond.pos), cond.id);
                match then_branch.result {
                    Ok(then_stmt) => {
                        let other = else_branch(t, ahead(pos, then_branch.pos), then_branch.id);
                        match other.result {
                            Ok(else_stmt) => done(
                                StmtView::If {
                                    cond: c,
                                    then_stmt: Box::new(then_stmt),
                                    else_stmt: match else_stmt {
                                        Some(stmt) => Some(Box::new(stmt)),
                                        None => None,
                                    },
                                },
                                other.pos,
                                other.id,
                            ),
                            Err(error) => failed(error, other.pos, other.id),
                        }
                    },
                    Err(_) => then_branch,
                }
            },
            Err(error) => failed(error, cond.pos, cond.id),
        }
    }
}

/// The rest of `while cond body` behind the keyword.
pub open spec fn while_statement(t: Seq<TokenView>, pos: int, id: u64) -> Parsed<StmtView>
    decreases remaining(t, pos), 50int,
{
    if !on_token(t, pos) {
        fail(t, pos, id, ParserErrorType::ExpectedExpression)
    } else {
        let cond = expression(t, pos, id);
        match cond.result {
            Ok(c) => {
                let body = statement(t, ahead(pos, cond.pos), cond.id);
                match body.result {
                    Ok(stmt) => done(
                        StmtView::While { cond: c, stmt: Box::new(stmt) },
                        body.pos,
                        body.id,
                    ),
                    Err(_) => body,
                }
            },
            Err(error) => failed(error, cond.pos, cond.id),
        }
    }
}

/// The loop that a `for` stands for: `{ init; while (cond) { body; step; } }`;
/// a missing condition stands for `true`, a missing `init` or `step` for
/// nothing.
pub open spec fn desugared(
    id: u64,
    initializer: Option<StmtView>,
    condition: Option<ExprView>,
    increment: Option<ExprView>,
    body: StmtView,
) -> StmtView {
    let stepped = match increment {
        Some(step) => StmtView::Block { stmts: seq![body, StmtView::Expr { expr: step }] },
        None => body,
    };
    let looped = StmtView::While {
        cond: match condition {
            Some(cond) => cond,
            None => ExprView::Literal { id, literal: Some(ObjectView::Bool(true)) },
        },
        stmt: Box::new(stepped),
    };
    match initializer {
        Some(init) => StmtView::Block { stmts: seq![init, looped] },
        None => looped,
    }
}

/// An optional expression and the token of kind `close` behind it.
pub open spec fn optional_closed(
    t: Seq<TokenView>,
    pos: int,
    id: u64,
    close: TokenType,
    error: ParserErrorType,
) -> Parsed<Option<ExprView>>
    decreases remaining(t, pos), 27int,
{
    if looks_at(t, pos, close) {
        done(None, pos + 1, id)
    } else {
        let e = closed_expression(t, pos, id, close, error);
        match e.result {
            Ok(expr) => done(Some(expr), e.pos, e.id),
            Err(error) => failed(error, e.pos, e.id),
        }
    }
}

/// The initializer of a `for`, behind its opening parenthesis: nothing
/// and `;`, a `let` declaration, or an expression statement.
pub open spec fn for_initializer(t: Seq<TokenView>, pos: int, id: u64) -> Parsed<Option<StmtView>>
    decreases remaining(t, pos), 37int,
{
    if looks_at(t, pos, TokenType::Semicolon) {
        done(None, pos + 1, id)
    } else if looks_at(t, pos, TokenType::Let) {
        let decl = let_declaration(t, pos + 1, id);
        match decl.result {
            Ok(stmt) => done(Some(stmt), decl.pos, decl.id),
            Err(error) => failed(error, decl.pos, decl.id),
        }
    } else {
        let stmt = expr_statement(t, pos, id);
        match stmt.result {
            Ok(stmt_view) => done(Some(stmt_view), stmt.pos, stmt.id),
            Err(error) => failed(error, stmt.pos, stmt.id),
        }
    }
}

/// The rest of `for ( init ; cond ; step ) body` behind the keyword.
pub open spec fn for_statement(t: Seq<TokenView>, pos: int, id: u64) -> Parsed<StmtView>
    decreases remaining(t, pos), 50int,
{
    let open = consume(t, pos, id, TokenType::LeftParen, ParserErrorType::ExpectedLeftParenAfterFor);
    match open.result {
        Ok(_) => {
            let init = for_initializer(t, pos + 1, id);
            match init.result {
                Ok(initializer) => {
                    let cond = optional_closed(
                        t,
                        ahead(pos + 1, init.pos),
                        init.id,
                        TokenType::Semicolon,
                        ParserErrorType::ExpectedSemicolon,
                    );
                    match cond.result {
                        Ok(condition) => {
                            let step = optional_closed(
                                t,
                                ahead(pos + 1, cond.pos),
                                cond.id,
                                TokenType::RightParen,
                                ParserErrorType::ExpectedRightParenAfterForStatement,
                            );
                            match step.result {
                                Ok(increment) => {
                                    let body = statement(t, ahead(pos + 1, step.pos), step.id);
                                    match body.result {
                                        Ok(stmt) => done(
                                            desugared(
                                                body.id,
                                                initializer,
                                                condition,
                                                increment,
                                                stmt,
                                            ),
                                            body.pos,
                                            if condition is None {
                                                following(body.id)
                                            } else {
                                                body.id
                                            },
                                        ),
                                        Err(_) => body,
                                    }
                                },
                                Err(error) => failed(error, step.pos, step.id),
                            }
                        },
                        Err(error) => failed(error, cond.pos, cond.id),
                    }
                },
                Err(error) => failed(error, init.pos, init.id),
            }
        },
        Err(error) => failed(error, open.pos, id),
    }
}

/// statement: `print`, a block, `if`, `while`, `for`, `return`, or an
/// expression statement.
pub open spec fn statement(t: Seq<TokenView>, pos: int, id: u64) -> Parsed<StmtView>
    decreases remaining(t, pos), 38int,
{
    if looks_at(t, pos, TokenType::Print) {
        print_statement(t, pos + 1, id)
    } else if looks_at(t, pos, TokenType::LeftBrace) {
        let body = block(t, pos + 1, id, Seq::empty());
        match body.result {
            Ok(stmts) => done(StmtView::Block { stmts }, body.pos, body.id),
            Err(error) => failed(error, body.pos, body.id),
        }
    } else if looks_at(t, pos, TokenType::If) {
        if_statement(t, pos + 1, id)
    } else if looks_at(t, pos, TokenType::While) {
        while_statement(t, pos + 1, id)
    } else if looks_at(t, pos, TokenType::For) {
        for_statement(t, pos + 1, id)
    } else if looks_at(t, pos, TokenType::Return) {
        return_statement(t, pos + 1, id, t[pos])
    } else {
        expr_statement(t, pos, id)
    }
}

/// declaration: `let`, `fun`, `class`, or a statement.
pub open spec fn declaration(t: Seq<TokenView>, pos: int, id: u64) -> Parsed<StmtView>
    decreases remaining(t, pos), 39int,
{
    if looks_at(t, pos, TokenType::Let) {
        let_declaration(t, pos + 1, id)
    } else if looks_at(t, pos, TokenType::Fun) {
        let fun = fun_declaration(t, pos + 1, id);
        match fun.result {
            Ok(f) => done(StmtView::Fun { fun: f }, fun.pos, fun.id),
            Err(error) => failed(error, fun.pos, fun.id),
        }
    } else if looks_at(t, pos, TokenType::Class) {
        class_declaration(t, pos + 1, id)
    } else {
        statement(t, pos, id)
    }
}

/// A statement of the top level: `use`, `export` and a declaration, or a
/// declaration.
pub open spec fn export(t: Seq<TokenView>, pos: int, id: u64) -> Parsed<StmtView>
    decreases remaining(t, pos), 40int,
{
    if looks_at(t, pos, TokenType::Use) {
        import(t, pos + 1, id, t[pos])
    } else if looks_at(t, pos, TokenType::Export) {
        let decl = declaration(t, pos + 1, id);
        match decl.result {
            Ok(stmt) => done(
                StmtView::Export { name: t[pos], stmt: Box::new(stmt) },
                decl.pos,
                decl.id,
            ),
            Err(_) => decl,
        }
    } else {
        declaration(t, pos, id)
    }
}

/// Whether a statement starts with a token of this kind.
pub open spec fn starts_statement(ty: TokenType) -> bool {
    ty == TokenType::Class || ty == TokenType::Fun || ty == TokenType::Let || ty == TokenType::For
        || ty == TokenType::If || ty == TokenType::While || ty == TokenType::Print || ty
        == TokenType::Return
}

/// How many tokens from `pos` on the parser skips after an error: those
/// before the end that neither follow a semicolon nor start a statement.
pub open spec fn skipped(t: Seq<TokenView>, pos: int) -> nat
    decreases remaining(t, pos),
{
    if 0 < pos < t.len() && !at_end(t, pos) && t[pos - 1].token_type != TokenType::Semicolon
        && !starts_statement(t[pos].token_type) {
        1 + skipped(t, pos + 1)
    } else {
        0
    }
}

/// The cursor at which the parser goes on after an error that left it at
/// `pos`: it passes the token under the cursor, then every token up to
/// the next place behind a semicolon or before the start of a statement.
pub open spec fn synchronized(t: Seq<TokenView>, pos: int) -> int {
    if on_token(t, pos) && !at_end(t, pos) {
        pos + 1 + skipped(t, pos + 1)
    } else {
        pos
    }
}

/// The cursor at which the top level goes on behind a statement that
/// started at `pos` and was parsed as `one`: behind the statement, or,
/// after an error, where `synchronized` says.
pub open spec fn resumed(t: Seq<TokenView>, pos: int, one: Parsed<StmtView>) -> int {
    match one.result {
        Ok(_) => ahead(pos, one.pos),
        Err(_) => synchronized(t, later(pos, one.pos)),
    }
}

/// How much of the input is left for the top level.
pub open spec fn left(t: Seq<TokenView>, pos: int) -> nat {
    if on_token(t, pos) && !at_end(t, pos) {
        remaining(t, pos) + 1
    } else {
        0
    }
}

/// The statements of the top level up to the end of the input, behind
/// the statements and the errors found so far. After an error the parser
/// goes on where `synchronized` says.
pub open spec fn program(
    t: Seq<TokenView>,
    pos: int,
    id: u64,
    statements: Seq<StmtView>,
    errors: Seq<ParserErrorView>,
) -> Program
    decreases left(t, pos),
{
    if on_token(t, pos) && !at_end(t, pos) {
        let one = export(t, pos, id);
        match one.result {
            Ok(stmt) => program(t, resumed(t, pos, one), one.id, statements.push(stmt), errors),
            Err(error) => program(t, resumed(t, pos, one), one.id, statements, errors.push(error)),
        }
    } else {
        Program { statements, errors, pos, id }
    }
}

} // verus!
