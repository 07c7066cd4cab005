//! The identifiers of a parsed program: every node has one of its own.

use vstd::prelude::*;

use crate::interpreter::ast::view::ExprView;
use crate::interpreter::ast::view::FunView;
use crate::interpreter::ast::view::StmtView;
use crate::interpreter::parser::error::ParserErrorType;
use crate::interpreter::parser::error::ParserErrorView;
use crate::interpreter::parser::grammar::assignment;
use crate::interpreter::parser::grammar::at_end;
use crate::interpreter::parser::grammar::binary;
use crate::interpreter::parser::grammar::binary_rest;
use crate::interpreter::parser::grammar::block;
use crate::interpreter::parser::grammar::call;
use crate::interpreter::parser::grammar::call_rest;
use crate::interpreter::parser::grammar::class_body;
use crate::interpreter::parser::grammar::class_declaration;
use crate::interpreter::parser::grammar::closed_expression;
use crate::interpreter::parser::grammar::consume;
use crate::interpreter::parser::grammar::declaration;
use crate::interpreter::parser::grammar::desugared;
use crate::interpreter::parser::grammar::else_branch;
use crate::interpreter::parser::grammar::export;
use crate::interpreter::parser::grammar::expr_statement;
use crate::interpreter::parser::grammar::expression;
use crate::interpreter::parser::grammar::finish_call;
use crate::interpreter::parser::grammar::for_initializer;
use crate::interpreter::parser::grammar::for_statement;
use crate::interpreter::parser::grammar::fun_declaration;
use crate::interpreter::parser::grammar::grouping;
use crate::interpreter::parser::grammar::if_statement;
use crate::interpreter::parser::grammar::import;
use crate::interpreter::parser::grammar::joined;
use crate::interpreter::parser::grammar::later;
use crate::interpreter::parser::grammar::left;
use crate::interpreter::parser::grammar::let_declaration;
use crate::interpreter::parser::grammar::level_operator;
use crate::interpreter::parser::grammar::list;
use crate::interpreter::parser::grammar::looks_at;
use crate::interpreter::parser::grammar::methods;
use crate::interpreter::parser::grammar::more;
use crate::interpreter::parser::grammar::more_params;
use crate::interpreter::parser::grammar::on_token;
use crate::interpreter::parser::grammar::operand;
use crate::interpreter::parser::grammar::optional_closed;
use crate::interpreter::parser::grammar::parameters;
use crate::interpreter::parser::grammar::primary;
use crate::interpreter::parser::grammar::print_statement;
use crate::interpreter::parser::grammar::program;
use crate::interpreter::parser::grammar::remaining;
use crate::interpreter::parser::grammar::resumed;
use crate::interpreter::parser::grammar::return_statement;
use crate::interpreter::parser::grammar::sequence;
use crate::interpreter::parser::grammar::skipped;
use crate::interpreter::parser::grammar::starts_statement;
use crate::interpreter::parser::grammar::statement;
use crate::interpreter::parser::grammar::unary;
use crate::interpreter::parser::grammar::while_statement;
use crate::interpreter::parser::grammar::Parsed;
use crate::interpreter::parser::grammar::MAX_ARGS;
use crate::interpreter::scanner::token::literal::ObjectView;
use crate::interpreter::scanner::token::token_type::TokenType;
use crate::interpreter::scanner::token::TokenView;

verus! {

/// The identifiers of the nodes of an expression.
pub open spec fn expr_ids(e: ExprView) -> Seq<u64>
    decreases e, 0int,
{
    match e {
        ExprView::Literal { id, .. } => seq![id],
        ExprView::Variable { id, .. } => seq![id],
        ExprView::SelfExpr { id, .. } => seq![id],
        ExprView::Super { id, .. } => seq![id],
        ExprView::Grouping { id, expression } => expr_ids(*expression) + seq![id],
        ExprView::Unary { id, right, .. } => expr_ids(*right) + seq![id],
        ExprView::Assign { id, value, .. } => expr_ids(*value) + seq![id],
        ExprView::Get { id, object, .. } => expr_ids(*object) + seq![id],
        ExprView::Binary { id, left, right, .. } => expr_ids(*left) + expr_ids(*right) + seq![id],
        ExprView::Logical { id, left, right, .. } => expr_ids(*left) + expr_ids(*right) + seq![id],
        ExprView::SetExpr { id, obj, value, .. } => expr_ids(*obj) + expr_ids(*value) + seq![id],
        ExprView::Call { id, callable, args, .. } => expr_ids(*callable) + exprs_ids(
            args,
            args.len() as int,
        ) + seq![id],
        ExprView::List { id, values } => exprs_ids(values, values.len() as int) + seq![id],
    }
}

/// The identifiers of the nodes of the expressions `es[..n]`.
pub open spec fn exprs_ids(es: Seq<ExprView>, n: int) -> Seq<u64>
    decreases es, n,
{
    if 0 < n <= es.len() {
        exprs_ids(es, n - 1) + expr_ids(es[n - 1])
    } else {
        Seq::empty()
    }
}

/// The identifiers of the nodes of an optional expression.
pub open spec fn optional_expr_ids(e: Option<ExprView>) -> Seq<u64> {
    match e {
        Some(e) => expr_ids(e),
        None => Seq::empty(),
    }
}

/// The identifiers of the nodes of a function declaration.
pub open spec fn fun_ids(f: FunView) -> Seq<u64>
    decreases f, 1int,
{
    stmts_ids(f.body, f.body.len() as int) + seq![f.id]
}

/// The identifiers of the nodes of the function declarations `fs[..n]`.
pub open spec fn funs_ids(fs: Seq<FunView>, n: int) -> Seq<u64>
    decreases fs, n,
{
    if 0 < n <= fs.len() {
        funs_ids(fs, n - 1) + fun_ids(fs[n - 1])
    } else {
        Seq::empty()
    }
}

/// The identifiers of the nodes of a statement.
pub open spec fn stmt_ids(s: StmtView) -> Seq<u64>
    decreases s, 0int,
{
    match s {
        StmtView::Expr { expr } => expr_ids(expr),
        StmtView::Print { expr } => expr_ids(expr),
        StmtView::Use { expr, .. } => expr_ids(expr),
        StmtView::Let { initializer, .. } => optional_expr_ids(initializer),
        StmtView::Return { returned, .. } => optional_expr_ids(returned),
        StmtView::Block { stmts } => stmts_ids(stmts, stmts.len() as int),
        StmtView::If { cond, then_stmt, else_stmt } => expr_ids(cond) + stmt_ids(*then_stmt) + (match else_stmt {
            Some(other) => stmt_ids(*other),
            None => Seq::empty(),
        }),
        StmtView::While { cond, stmt } => expr_ids(cond) + stmt_ids(*stmt),
        StmtView::Fun { fun } => fun_ids(fun),
        StmtView::Class { methods, super_class, .. } => optional_expr_ids(super_class) + funs_ids(
            methods,
            methods.len() as int,
        ),
        StmtView::Export { stmt, .. } => stmt_ids(*stmt),
    }
}

/// The identifiers of the nodes of the statements `ss[..n]`.
pub open spec fn stmts_ids(ss: Seq<StmtView>, n: int) -> Seq<u64>
    decreases ss, n,
{
    if 0 < n <= ss.len() {
        stmts_ids(ss, n - 1) + stmt_ids(ss[n - 1])
    } else {
        Seq::empty()
    }
}

/// The identifiers of the nodes of an optional statement.
pub open spec fn optional_stmt_ids(s: Option<StmtView>) -> Seq<u64> {
    match s {
        Some(s) => stmt_ids(s),
        None => Seq::empty(),
    }
}

/// No identifier occurs twice in `ids`, and each lies in `lo..hi`.
spec fn fresh(ids: Seq<u64>, lo: int, hi: int) -> bool {
    &&& ids.no_duplicates()
    &&& forall|i: int| 0 <= i < ids.len() ==> lo <= #[trigger] ids[i] < hi
}

/// The cursor stands on a token of an input that ends with `Eof`, and
/// the identifiers do not run out before the tokens do.
spec fn ready(t: Seq<TokenView>, pos: int, id: u64) -> bool {
    &&& on_token(t, pos)
    &&& t.last().token_type == TokenType::Eof
    &&& id + (t.len() - pos) <= u64::MAX
}

/// A part that was parsed from `pos` and `id` up to `end` and `next`: the
/// cursor did not go back and stands on a token, no more identifiers
/// were taken than tokens were passed, and where the part parsed, its
/// identifiers `ids`, with those taken from `lo` on before it, are fresh.
spec fn sound(
    t: Seq<TokenView>,
    pos: int,
    id: u64,
    lo: int,
    end: int,
    next: u64,
    ok: bool,
    ids: Seq<u64>,
) -> bool {
    &&& pos <= end < t.len()
    &&& id <= next
    &&& next - id <= end - pos
    &&& ok ==> fresh(ids, lo, next as int)
}

/// `sound` of an expression that took its first identifier itself.
spec fn expr_sound(t: Seq<TokenView>, pos: int, id: u64, p: Parsed<ExprView>) -> bool {
    &&& sound(
        t,
        pos,
        id,
        id as int,
        p.pos,
        p.id,
        p.result is Ok,
        match p.result {
            Ok(e) => expr_ids(e),
            Err(_) => Seq::empty(),
        },
    )
    &&& p.result is Ok ==> p.pos > pos
}

/// `sound` of an expression that holds parts parsed before it.
spec fn expr_sound_from(
    t: Seq<TokenView>,
    pos: int,
    id: u64,
    lo: int,
    p: Parsed<ExprView>,
) -> bool {
    sound(
        t,
        pos,
        id,
        lo,
        p.pos,
        p.id,
        p.result is Ok,
        match p.result {
            Ok(e) => expr_ids(e),
            Err(_) => Seq::empty(),
        },
    )
}

/// `sound` of a sequence of expressions.
spec fn exprs_sound_from(
    t: Seq<TokenView>,
    pos: int,
    id: u64,
    lo: int,
    p: Parsed<Seq<ExprView>>,
) -> bool {
    sound(
        t,
        pos,
        id,
        lo,
        p.pos,
        p.id,
        p.result is Ok,
        match p.result {
            Ok(es) => exprs_ids(es, es.len() as int),
            Err(_) => Seq::empty(),
        },
    )
}

/// `sound` of a statement, which passes a token where it parses.
spec fn stmt_sound(t: Seq<TokenView>, pos: int, id: u64, p: Parsed<StmtView>) -> bool {
    &&& sound(
        t,
        pos,
        id,
        id as int,
        p.pos,
        p.id,
        p.result is Ok,
        match p.result {
            Ok(s) => stmt_ids(s),
            Err(_) => Seq::empty(),
        },
    )
    &&& p.result is Ok ==> p.pos > pos
}

/// `sound` of a sequence of statements behind those parsed before.
spec fn stmts_sound_from(
    t: Seq<TokenView>,
    pos: int,
    id: u64,
    lo: int,
    p: Parsed<Seq<StmtView>>,
) -> bool {
    &&& sound(
        t,
        pos,
        id,
        lo,
        p.pos,
        p.id,
        p.result is Ok,
        match p.result {
            Ok(ss) => stmts_ids(ss, ss.len() as int),
            Err(_) => Seq::empty(),
        },
    )
    &&& p.result is Ok ==> p.pos > pos
}

/// `sound` of a function declaration.
spec fn fun_sound(t: Seq<TokenView>, pos: int, id: u64, p: Parsed<FunView>) -> bool {
    &&& sound(
        t,
        pos,
        id,
        id as int,
        p.pos,
        p.id,
        p.result is Ok,
        match p.result {
            Ok(f) => fun_ids(f),
            Err(_) => Seq::empty(),
        },
    )
    &&& p.result is Ok ==> p.pos > pos
}

/// `sound` of a sequence of function declarations.
spec fn funs_sound_from(
    t: Seq<TokenView>,
    pos: int,
    id: u64,
    lo: int,
    p: Parsed<Seq<FunView>>,
) -> bool {
    &&& sound(
        t,
        pos,
        id,
        lo,
        p.pos,
        p.id,
        p.result is Ok,
        match p.result {
            Ok(fs) => funs_ids(fs, fs.len() as int),
            Err(_) => Seq::empty(),
        },
    )
    &&& p.result is Ok ==> p.pos > pos
}

/// `sound` of an optional expression.
spec fn optional_expr_sound(
    t: Seq<TokenView>,
    pos: int,
    id: u64,
    p: Parsed<Option<ExprView>>,
) -> bool {
    sound(
        t,
        pos,
        id,
        id as int,
        p.pos,
        p.id,
        p.result is Ok,
        match p.result {
            Ok(e) => optional_expr_ids(e),
            Err(_) => Seq::empty(),
        },
    )
}

/// `sound` of an optional statement.
spec fn optional_stmt_sound(
    t: Seq<TokenView>,
    pos: int,
    id: u64,
    p: Parsed<Option<StmtView>>,
) -> bool {
    sound(
        t,
        pos,
        id,
        id as int,
        p.pos,
        p.id,
        p.result is Ok,
        match p.result {
            Ok(s) => optional_stmt_ids(s),
            Err(_) => Seq::empty(),
        },
    )
}

/// Two fresh sequences of identifiers from ranges that do not overlap,
/// one behind the other, are fresh.
proof fn lemma_fresh_join(
    a: Seq<u64>,
    b: Seq<u64>,
    alo: int,
    ahi: int,
    blo: int,
    bhi: int,
    lo: int,
    hi: int,
)
    requires
        fresh(a, alo, ahi),
        fresh(b, blo, bhi),
        ahi <= blo || bhi <= alo,
        lo <= alo,
        lo <= blo,
        ahi <= hi,
        bhi <= hi,
    ensures
        fresh(a + b, lo, hi),
{
    let c = a + b;
    assert forall|i: int| 0 <= i < c.len() implies lo <= #[trigger] c[i] < hi by {
        if i < a.len() {
            assert(c[i] == a[i]);
        } else {
            assert(c[i] == b[i - a.len()]);
        }
    }
    assert forall|i: int, j: int| 0 <= i < c.len() && 0 <= j < c.len() && i != j implies c[i]
        != c[j] by {
        if i < a.len() {
            assert(c[i] == a[i]);
        } else {
            assert(c[i] == b[i - a.len()]);
        }
        if j < a.len() {
            assert(c[j] == a[j]);
        } else {
            assert(c[j] == b[j - a.len()]);
        }
    }
}

/// A fresh sequence and one more identifier behind its range are fresh.
proof fn lemma_fresh_push(a: Seq<u64>, lo: int, id: u64)
    requires
        fresh(a, lo, id as int),
        lo <= id,
        id < u64::MAX,
    ensures
        fresh(a + seq![id], lo, id + 1),
{
    assert(fresh(seq![id], id as int, id + 1));
    lemma_fresh_join(a, seq![id], lo, id as int, id as int, id + 1, lo, id + 1);
}

/// The identifiers of the first `n` expressions are those of the first
/// `n` of any sequence that starts with the same expressions.
proof fn lemma_exprs_prefix(a: Seq<ExprView>, b: Seq<ExprView>, n: int)
    requires
        0 <= n <= a.len(),
        n <= b.len(),
        forall|k: int| 0 <= k < n ==> a[k] == b[k],
    ensures
        exprs_ids(a, n) == exprs_ids(b, n),
    decreases n,
{
    if n > 0 {
        lemma_exprs_prefix(a, b, n - 1);
    }
}

proof fn lemma_stmts_prefix(a: Seq<StmtView>, b: Seq<StmtView>, n: int)
    requires
        0 <= n <= a.len(),
        n <= b.len(),
        forall|k: int| 0 <= k < n ==> a[k] == b[k],
    ensures
        stmts_ids(a, n) == stmts_ids(b, n),
    decreases n,
{
    if n > 0 {
        lemma_stmts_prefix(a, b, n - 1);
    }
}

proof fn lemma_funs_prefix(a: Seq<FunView>, b: Seq<FunView>, n: int)
    requires
        0 <= n <= a.len(),
        n <= b.len(),
        forall|k: int| 0 <= k < n ==> a[k] == b[k],
    ensures
        funs_ids(a, n) == funs_ids(b, n),
    decreases n,
{
    if n > 0 {
        lemma_funs_prefix(a, b, n - 1);
    }
}

/// The identifiers of a sequence with one more expression.
proof fn lemma_exprs_push(es: Seq<ExprView>, e: ExprView)
    ensures
        exprs_ids(es.push(e), es.len() as int + 1) == exprs_ids(es, es.len() as int) + expr_ids(e),
{
    lemma_exprs_prefix(es, es.push(e), es.len() as int);
}

proof fn lemma_stmts_push(ss: Seq<StmtView>, s: StmtView)
    ensures
        stmts_ids(ss.push(s), ss.len() as int + 1) == stmts_ids(ss, ss.len() as int) + stmt_ids(s),
{
    lemma_stmts_prefix(ss, ss.push(s), ss.len() as int);
}

proof fn lemma_funs_push(fs: Seq<FunView>, f: FunView)
    ensures
        funs_ids(fs.push(f), fs.len() as int + 1) == funs_ids(fs, fs.len() as int) + fun_ids(f),
{
    lemma_funs_prefix(fs, fs.push(f), fs.len() as int);
}

// One lemma for each production of the grammar, under the measure of the
// production: what it parses is `sound`.

proof fn lemma_primary(t: Seq<TokenView>, pos: int, id: u64)
    requires
        ready(t, pos, id),
    ensures
        expr_sound(t, pos, id, primary(t, pos, id)),
    decreases remaining(t, pos), 7int,
{
    assert(fresh(seq![id], id as int, id + 1));
    if looks_at(t, pos, TokenType::LeftParen) {
        lemma_grouping(t, pos + 1, id);
    } else if looks_at(t, pos, TokenType::LeftBracket) {
        lemma_list(t, pos + 1, id);
    }
}

proof fn lemma_grouping(t: Seq<TokenView>, pos: int, id: u64)
    requires
        ready(t, pos, id),
    ensures
        expr_sound_from(t, pos, id, id as int, grouping(t, pos, id)),
        grouping(t, pos, id).result is Ok ==> grouping(t, pos, id).pos > pos,
    decreases remaining(t, pos), 64int,
{
    lemma_expression(t, pos, id);
    let e = expression(t, pos, id);
    if e.result is Ok {
        let end = consume(
            t,
            e.pos,
            e.id,
            TokenType::RightParen,
            ParserErrorType::ExpectedMatchingParens,
        );
        if end.result is Ok {
            lemma_fresh_push(expr_ids(e.result->Ok_0), id as int, e.id);
        }
    }
}

proof fn lemma_list(t: Seq<TokenView>, pos: int, id: u64)
    requires
        ready(t, pos, id),
    ensures
        expr_sound_from(t, pos, id, id as int, list(t, pos, id)),
        list(t, pos, id).result is Ok ==> list(t, pos, id).pos > pos,
    decreases remaining(t, pos), 65int,
{
    lemma_sequence(t, pos, id, TokenType::RightBracket);
    let values = sequence(t, pos, id, TokenType::RightBracket);
    if values.result is Ok {
        let close = consume(
            t,
            values.pos,
            values.id,
            TokenType::RightBracket,
            ParserErrorType::ExpectedRightBracket,
        );
        if close.result is Ok {
            let items = values.result->Ok_0;
            lemma_fresh_push(exprs_ids(items, items.len() as int), id as int, values.id);
        }
    }
}

proof fn lemma_sequence(t: Seq<TokenView>, pos: int, id: u64, close: TokenType)
    requires
        ready(t, pos, id),
    ensures
        exprs_sound_from(t, pos, id, id as int, sequence(t, pos, id, close)),
    decreases remaining(t, pos), 61int,
{
    if looks_at(t, pos, close) {
        assert(fresh(Seq::<u64>::empty(), id as int, id as int));
    } else {
        lemma_expression(t, pos, id);
        let first = expression(t, pos, id);
        if first.result is Ok {
            let e = first.result->Ok_0;
            lemma_exprs_push(Seq::empty(), e);
            assert(sequence(t, pos, id, close) == more(t, first.pos, first.id, seq![e]));
            assert(Seq::<ExprView>::empty().push(e) =~= seq![e]);
            assert(exprs_ids(seq![e], 1) =~= expr_ids(e));
            lemma_more(t, first.pos, first.id, seq![e], id as int);
        }
    }
}

proof fn lemma_more(t: Seq<TokenView>, pos: int, id: u64, items: Seq<ExprView>, lo: int)
    requires
        ready(t, pos, id),
        lo <= id,
        fresh(exprs_ids(items, items.len() as int), lo, id as int),
    ensures
        exprs_sound_from(t, pos, id, lo, more(t, pos, id, items)),
    decreases remaining(t, pos), 60int,
{
    if looks_at(t, pos, TokenType::Comma) {
        lemma_expression(t, pos + 1, id);
        let next = expression(t, pos + 1, id);
        if next.result is Ok {
            let e = next.result->Ok_0;
            lemma_exprs_push(items, e);
            lemma_fresh_join(
                exprs_ids(items, items.len() as int),
                expr_ids(e),
                lo,
                id as int,
                id as int,
                next.id as int,
                lo,
                next.id as int,
            );
            lemma_more(t, next.pos, next.id, items.push(e), lo);
        }
    }
}

proof fn lemma_finish_call(t: Seq<TokenView>, pos: int, id: u64, callee: ExprView, lo: int)
    requires
        ready(t, pos, id),
        lo <= id,
        fresh(expr_ids(callee), lo, id as int),
    ensures
        expr_sound_from(t, pos, id, lo, finish_call(t, pos, id, callee)),
        finish_call(t, pos, id, callee).result is Ok ==> finish_call(t, pos, id, callee).pos > pos,
    decreases remaining(t, pos), 62int,
{
    lemma_sequence(t, pos, id, TokenType::RightParen);
    let args = sequence(t, pos, id, TokenType::RightParen);
    if args.result is Ok {
        let arguments = args.result->Ok_0;
        let paren = consume(
            t,
            args.pos,
            args.id,
            TokenType::RightParen,
            ParserErrorType::ExpectedRightParenAfterArguments,
        );
        if paren.result is Ok {
            lemma_fresh_join(
                expr_ids(callee),
                exprs_ids(arguments, arguments.len() as int),
                lo,
                id as int,
                id as int,
                args.id as int,
                lo,
                args.id as int,
            );
            lemma_fresh_push(
                expr_ids(callee) + exprs_ids(arguments, arguments.len() as int),
                lo,
                args.id,
            );
        }
    }
}

proof fn lemma_call_rest(t: Seq<TokenView>, pos: int, id: u64, expr: ExprView, lo: int)
    requires
        ready(t, pos, id),
        lo <= id,
        fresh(expr_ids(expr), lo, id as int),
    ensures
        expr_sound_from(t, pos, id, lo, call_rest(t, pos, id, expr)),
    decreases remaining(t, pos), 63int,
{
    if looks_at(t, pos, TokenType::LeftParen) {
        lemma_finish_call(t, pos + 1, id, expr, lo);
        let called = finish_call(t, pos + 1, id, expr);
        if called.result is Ok {
            lemma_call_rest(t, called.pos, called.id, called.result->Ok_0, lo);
        }
    } else if looks_at(t, pos, TokenType::Dot) {
        let name = consume(
            t,
            pos + 1,
            id,
            TokenType::Identifier,
            ParserErrorType::ExpectedPropertyAfterDot,
        );
        if name.result is Ok {
            lemma_fresh_push(expr_ids(expr), lo, id);
            lemma_call_rest(
                t,
                pos + 2,
                (id + 1) as u64,
                ExprView::Get { id, name: name.result->Ok_0, object: Box::new(expr) },
                lo,
            );
        }
    }
}

proof fn lemma_call(t: Seq<TokenView>, pos: int, id: u64)
    requires
        ready(t, pos, id),
    ensures
        expr_sound(t, pos, id, call(t, pos, id)),
    decreases remaining(t, pos), 8int,
{
    lemma_primary(t, pos, id);
    let first = primary(t, pos, id);
    if first.result is Ok {
        lemma_call_rest(t, first.pos, first.id, first.result->Ok_0, id as int);
    }
}

proof fn lemma_unary(t: Seq<TokenView>, pos: int, id: u64)
    requires
        ready(t, pos, id),
    ensures
        expr_sound(t, pos, id, unary(t, pos, id)),
    decreases remaining(t, pos), 9int,
{
    if looks_at(t, pos, TokenType::Bang) || looks_at(t, pos, TokenType::Minus) {
        lemma_unary(t, pos + 1, id);
        let right = unary(t, pos + 1, id);
        if right.result is Ok {
            lemma_fresh_push(expr_ids(right.result->Ok_0), id as int, right.id);
        }
    } else {
        lemma_call(t, pos, id);
    }
}

proof fn lemma_operand(level: nat, t: Seq<TokenView>, pos: int, id: u64)
    requires
        ready(t, pos, id),
    ensures
        expr_sound(t, pos, id, operand(level, t, pos, id)),
    decreases remaining(t, pos), 10 + 2 * level,
{
    if level == 0 {
        lemma_unary(t, pos, id);
    } else {
        lemma_binary((level - 1) as nat, t, pos, id);
    }
}

proof fn lemma_binary_rest(level: nat, t: Seq<TokenView>, pos: int, id: u64, left: ExprView, lo: int)
    requires
        ready(t, pos, id),
        lo <= id,
        fresh(expr_ids(left), lo, id as int),
    ensures
        expr_sound_from(t, pos, id, lo, binary_rest(level, t, pos, id, left)),
    decreases remaining(t, pos), 100 + 2 * level,
{
    if on_token(t, pos) && !at_end(t, pos) && level_operator(level, t[pos].token_type) {
        lemma_operand(level, t, pos + 1, id);
        let next = operand(level, t, pos + 1, id);
        if next.result is Ok {
            let right = next.result->Ok_0;
            lemma_fresh_join(
                expr_ids(left),
                expr_ids(right),
                lo,
                id as int,
                id as int,
                next.id as int,
                lo,
                next.id as int,
            );
            lemma_fresh_push(expr_ids(left) + expr_ids(right), lo, next.id);
            lemma_binary_rest(
                level,
                t,
                next.pos,
                (next.id + 1) as u64,
                joined(level, next.id, left, t[pos], right),
                lo,
            );
        }
    }
}

proof fn lemma_binary(level: nat, t: Seq<TokenView>, pos: int, id: u64)
    requires
        ready(t, pos, id),
    ensures
        expr_sound(t, pos, id, binary(level, t, pos, id)),
    decreases remaining(t, pos), 11 + 2 * level,
{
    lemma_operand(level, t, pos, id);
    let first = operand(level, t, pos, id);
    if first.result is Ok {
        lemma_binary_rest(level, t, first.pos, first.id, first.result->Ok_0, id as int);
    }
}

proof fn lemma_assignment(t: Seq<TokenView>, pos: int, id: u64)
    requires
        ready(t, pos, id),
    ensures
        expr_sound(t, pos, id, assignment(t, pos, id)),
    decreases remaining(t, pos), 24int,
{
    lemma_binary(5, t, pos, id);
    let target = binary(5, t, pos, id);
    if target.result is Ok {
        let at = target.pos;
        if looks_at(t, at, TokenType::Equal) {
            lemma_assignment(t, at + 1, target.id);
            let value = assignment(t, at + 1, target.id);
            if value.result is Ok {
                let v = value.result->Ok_0;
                match target.result->Ok_0 {
                    ExprView::Variable { .. } => {
                        lemma_fresh_push(expr_ids(v), target.id as int, value.id);
                    },
                    ExprView::Get { id: got, name, object } => {
                        assert(expr_ids(target.result->Ok_0) == expr_ids(*object) + seq![got]);
                        assert forall|i: int| 0 <= i < expr_ids(*object).len() implies id
                            <= #[trigger] expr_ids(*object)[i] < target.id by {
                            assert(expr_ids(target.result->Ok_0)[i] == expr_ids(*object)[i]);
                        }
                        assert forall|i: int, j: int|
                            0 <= i < expr_ids(*object).len() && 0 <= j < expr_ids(*object).len()
                                && i != j implies expr_ids(*object)[i] != expr_ids(*object)[j] by {
                            assert(expr_ids(target.result->Ok_0)[i] == expr_ids(*object)[i]);
                            assert(expr_ids(target.result->Ok_0)[j] == expr_ids(*object)[j]);
                        }
                        lemma_fresh_join(
                            expr_ids(*object),
                            expr_ids(v),
                            id as int,
                            target.id as int,
                            target.id as int,
                            value.id as int,
                            id as int,
                            value.id as int,
                        );
                        lemma_fresh_push(expr_ids(*object) + expr_ids(v), id as int, value.id);
                    },
                    _ => {},
                }
            }
        }
    }
}

proof fn lemma_expression(t: Seq<TokenView>, pos: int, id: u64)
    requires
        ready(t, pos, id),
    ensures
        expr_sound(t, pos, id, expression(t, pos, id)),
    decreases remaining(t, pos), 25int,
{
    lemma_assignment(t, pos, id);
}

/// An expression and its closing token: the closing token lies behind
/// the expression, so one more token was passed than the identifiers of
/// the expression need.
proof fn lemma_closed_expression(
    t: Seq<TokenView>,
    pos: int,
    id: u64,
    close: TokenType,
    error: ParserErrorType,
)
    requires
        ready(t, pos, id),
    ensures
        expr_sound(t, pos, id, closed_expression(t, pos, id, close, error)),
        closed_expression(t, pos, id, close, error).result is Ok ==> closed_expression(
            t,
            pos,
            id,
            close,
            error,
        ).id - id < closed_expression(t, pos, id, close, error).pos - pos,
    decreases remaining(t, pos), 26int,
{
    lemma_expression(t, pos, id);
}

/// The identifiers of a block of two statements.
proof fn lemma_stmts_pair(a: StmtView, b: StmtView)
    ensures
        stmts_ids(seq![a, b], 2) == stmt_ids(a) + stmt_ids(b),
{
    lemma_stmts_push(Seq::empty(), a);
    lemma_stmts_push(seq![a], b);
    assert(Seq::<StmtView>::empty().push(a) =~= seq![a]);
    assert(seq![a].push(b) =~= seq![a, b]);
    assert(Seq::<u64>::empty() + stmt_ids(a) =~= stmt_ids(a));
}

/// The loop that a `for` stands for holds the identifiers of its parts,
/// and of the literal that stands for a missing condition.
proof fn lemma_desugared(
    initializer: Option<StmtView>,
    condition: Option<ExprView>,
    increment: Option<ExprView>,
    body: StmtView,
    a: int,
    b: int,
    c: int,
    d: int,
    e: u64,
)
    requires
        a <= b <= c <= d <= e < u64::MAX,
        fresh(optional_stmt_ids(initializer), a, b),
        fresh(optional_expr_ids(condition), b, c),
        fresh(optional_expr_ids(increment), c, d),
        fresh(stmt_ids(body), d, e as int),
    ensures
        fresh(
            stmt_ids(desugared(e, initializer, condition, increment, body)),
            a,
            if condition is None {
                e + 1
            } else {
                e as int
            },
        ),
{
    let stepped = match increment {
        Some(step) => StmtView::Block { stmts: seq![body, StmtView::Expr { expr: step }] },
        None => body,
    };
    match increment {
        Some(step) => {
            lemma_stmts_pair(body, StmtView::Expr { expr: step });
            lemma_fresh_join(stmt_ids(body), expr_ids(step), d, e as int, c, d, c, e as int);
        },
        None => {},
    }
    assert(fresh(stmt_ids(stepped), c, e as int));
    let cond = match condition {
        Some(cond) => cond,
        None => ExprView::Literal { id: e, literal: Some(ObjectView::Bool(true)) },
    };
    let hi = if condition is None {
        e + 1
    } else {
        e as int
    };
    let looped = StmtView::While { cond, stmt: Box::new(stepped) };
    match condition {
        Some(_) => {
            lemma_fresh_join(expr_ids(cond), stmt_ids(stepped), b, c, c, e as int, b, hi);
        },
        None => {
            assert(fresh(seq![e], e as int, e + 1));
            lemma_fresh_join(expr_ids(cond), stmt_ids(stepped), e as int, e + 1, c, e as int, b, hi);
        },
    }
    assert(fresh(stmt_ids(looped), b, hi));
    match initializer {
        Some(init) => {
            lemma_stmts_pair(init, looped);
            lemma_fresh_join(stmt_ids(init), stmt_ids(looped), a, b, b, hi, a, hi);
        },
        None => {},
    }
}

proof fn lemma_expr_statement(t: Seq<TokenView>, pos: int, id: u64)
    requires
        ready(t, pos, id),
    ensures
        stmt_sound(t, pos, id, expr_statement(t, pos, id)),
    decreases remaining(t, pos), 36int,
{
    lemma_closed_expression(
        t,
        pos,
        id,
        TokenType::Semicolon,
        ParserErrorType::ExpectedSemicolon,
    );
}

proof fn lemma_print_statement(t: Seq<TokenView>, pos: int, id: u64)
    requires
        ready(t, pos, id),
    ensures
        stmt_sound(t, pos, id, print_statement(t, pos, id)),
    decreases remaining(t, pos), 50int,
{
    lemma_closed_expression(
        t,
        pos,
        id,
        TokenType::Semicolon,
        ParserErrorType::ExpectedSemicolon,
    );
}

proof fn lemma_import(t: Seq<TokenView>, pos: int, id: u64, keyword: TokenView)
    requires
        ready(t, pos, id),
    ensures
        stmt_sound(t, pos, id, import(t, pos, id, keyword)),
    decreases remaining(t, pos), 50int,
{
    lemma_closed_expression(
        t,
        pos,
        id,
        TokenType::Semicolon,
        ParserErrorType::ExpectedSemicolon,
    );
}

proof fn lemma_return_statement(t: Seq<TokenView>, pos: int, id: u64, keyword: TokenView)
    requires
        ready(t, pos, id),
    ensures
        stmt_sound(t, pos, id, return_statement(t, pos, id, keyword)),
    decreases remaining(t, pos), 50int,
{
    if !looks_at(t, pos, TokenType::Semicolon) {
        lemma_closed_expression(
            t,
            pos,
            id,
            TokenType::Semicolon,
            ParserErrorType::ExpectedSemicolon,
        );
    }
}

proof fn lemma_let_declaration(t: Seq<TokenView>, pos: int, id: u64)
    requires
        ready(t, pos, id),
    ensures
        stmt_sound(t, pos, id, let_declaration(t, pos, id)),
    decreases remaining(t, pos), 50int,
{
    if looks_at(t, pos, TokenType::Identifier) && looks_at(t, pos + 1, TokenType::Equal) {
        lemma_closed_expression(
            t,
            pos + 2,
            id,
            TokenType::Semicolon,
            ParserErrorType::ExpectedSemicolonAfterVarDecl,
        );
    }
}

proof fn lemma_block(t: Seq<TokenView>, pos: int, id: u64, stmts: Seq<StmtView>, lo: int)
    requires
        ready(t, pos, id),
        lo <= id,
        fresh(stmts_ids(stmts, stmts.len() as int), lo, id as int),
    ensures
        stmts_sound_from(t, pos, id, lo, block(t, pos, id, stmts)),
    decreases remaining(t, pos), 50int,
{
    if on_token(t, pos) && !at_end(t, pos) && t[pos].token_type != TokenType::RightBrace {
        lemma_declaration(t, pos, id);
        let one = declaration(t, pos, id);
        if one.result is Ok {
            let stmt = one.result->Ok_0;
            lemma_stmts_push(stmts, stmt);
            lemma_fresh_join(
                stmts_ids(stmts, stmts.len() as int),
                stmt_ids(stmt),
                lo,
                id as int,
                id as int,
                one.id as int,
                lo,
                one.id as int,
            );
            lemma_block(t, one.pos, one.id, stmts.push(stmt), lo);
        }
    }
}

/// The parameters take no identifier, and end on a token.
proof fn lemma_more_params(t: Seq<TokenView>, pos: int, id: u64, params: Seq<TokenView>)
    requires
        ready(t, pos, id),
    ensures
        pos <= more_params(t, pos, id, params).pos < t.len(),
        more_params(t, pos, id, params).id == id,
    decreases remaining(t, pos), 50int,
{
    if looks_at(t, pos, TokenType::Comma) && params.len() < MAX_ARGS && looks_at(
        t,
        pos + 1,
        TokenType::Identifier,
    ) {
        lemma_more_params(t, pos + 2, id, params.push(t[pos + 1]));
    }
}

proof fn lemma_fun_declaration(t: Seq<TokenView>, pos: int, id: u64)
    requires
        ready(t, pos, id),
    ensures
        fun_sound(t, pos, id, fun_declaration(t, pos, id)),
    decreases remaining(t, pos), 51int,
{
    if looks_at(t, pos, TokenType::Identifier) && looks_at(t, pos + 1, TokenType::LeftParen) {
        let params = parameters(t, pos + 2, id);
        if !looks_at(t, pos + 2, TokenType::RightParen) && looks_at(
            t,
            pos + 2,
            TokenType::Identifier,
        ) {
            lemma_more_params(t, pos + 3, id, seq![t[pos + 2]]);
        }
        assert(pos + 2 <= params.pos < t.len());
        assert(params.id == id);
        if params.result is Ok {
            let at = later(pos + 2, params.pos);
            if looks_at(t, at, TokenType::RightParen) && looks_at(t, at + 1, TokenType::LeftBrace) {
                assert(fresh(Seq::<u64>::empty(), id as int, id as int));
                lemma_block(t, at + 2, id, Seq::empty(), id as int);
                let body = block(t, at + 2, id, Seq::empty());
                if body.result is Ok {
                    let stmts = body.result->Ok_0;
                    lemma_fresh_push(stmts_ids(stmts, stmts.len() as int), id as int, body.id);
                }
            }
        }
    }
}

proof fn lemma_methods(t: Seq<TokenView>, pos: int, id: u64, found: Seq<FunView>, lo: int)
    requires
        ready(t, pos, id),
        lo <= id,
        fresh(funs_ids(found, found.len() as int), lo, id as int),
    ensures
        funs_sound_from(t, pos, id, lo, methods(t, pos, id, found)),
    decreases remaining(t, pos), 52int,
{
    if on_token(t, pos) && !at_end(t, pos) && t[pos].token_type != TokenType::RightBrace {
        lemma_fun_declaration(t, pos, id);
        let one = fun_declaration(t, pos, id);
        if one.result is Ok {
            let method = one.result->Ok_0;
            lemma_funs_push(found, method);
            lemma_fresh_join(
                funs_ids(found, found.len() as int),
                fun_ids(method),
                lo,
                id as int,
                id as int,
                one.id as int,
                lo,
                one.id as int,
            );
            lemma_methods(t, one.pos, one.id, found.push(method), lo);
        }
    }
}

proof fn lemma_class_body(
    t: Seq<TokenView>,
    pos: int,
    id: u64,
    name: TokenView,
    super_class: Option<ExprView>,
    lo: int,
)
    requires
        ready(t, pos, id),
        lo <= id,
        fresh(optional_expr_ids(super_class), lo, id as int),
    ensures
        sound(
            t,
            pos,
            id,
            lo,
            class_body(t, pos, id, name, super_class).pos,
            class_body(t, pos, id, name, super_class).id,
            class_body(t, pos, id, name, super_class).result is Ok,
            match class_body(t, pos, id, name, super_class).result {
                Ok(s) => stmt_ids(s),
                Err(_) => Seq::empty(),
            },
        ),
        class_body(t, pos, id, name, super_class).result is Ok ==> class_body(
            t,
            pos,
            id,
            name,
            super_class,
        ).pos > pos,
    decreases remaining(t, pos), 53int,
{
    if looks_at(t, pos, TokenType::LeftBrace) {
        assert(fresh(Seq::<u64>::empty(), id as int, id as int));
        lemma_methods(t, pos + 1, id, Seq::empty(), id as int);
        let body = methods(t, pos + 1, id, Seq::empty());
        if body.result is Ok {
            let found = body.result->Ok_0;
            lemma_fresh_join(
                optional_expr_ids(super_class),
                funs_ids(found, found.len() as int),
                lo,
                id as int,
                id as int,
                body.id as int,
                lo,
                body.id as int,
            );
        }
    }
}

proof fn lemma_class_declaration(t: Seq<TokenView>, pos: int, id: u64)
    requires
        ready(t, pos, id),
    ensures
        stmt_sound(t, pos, id, class_declaration(t, pos, id)),
    decreases remaining(t, pos), 54int,
{
    if looks_at(t, pos, TokenType::Identifier) {
        if looks_at(t, pos + 1, TokenType::Less) {
            if looks_at(t, pos + 2, TokenType::Identifier) {
                assert(fresh(seq![id], id as int, id + 1));
                lemma_class_body(
                    t,
                    pos + 3,
                    (id + 1) as u64,
                    t[pos],
                    Some(ExprView::Variable { id, token: t[pos + 2] }),
                    id as int,
                );
            }
        } else {
            assert(fresh(Seq::<u64>::empty(), id as int, id as int));
            lemma_class_body(t, pos + 1, id, t[pos], None, id as int);
        }
    }
}

proof fn lemma_else_branch(t: Seq<TokenView>, pos: int, id: u64)
    requires
        ready(t, pos, id),
    ensures
        optional_stmt_sound(t, pos, id, else_branch(t, pos, id)),
    decreases remaining(t, pos), 49int,
{
    if looks_at(t, pos, TokenType::Else) {
        lemma_statement(t, pos + 1, id);
    } else {
        assert(fresh(Seq::<u64>::empty(), id as int, id as int));
    }
}

proof fn lemma_if_statement(t: Seq<TokenView>, pos: int, id: u64)
    requires
        ready(t, pos, id),
    ensures
        stmt_sound(t, pos, id, if_statement(t, pos, id)),
    decreases remaining(t, pos), 50int,
{
    lemma_expression(t, pos, id);
    let cond = expression(t, pos, id);
    if cond.result is Ok {
        lemma_statement(t, cond.pos, cond.id);
        let then_branch = statement(t, cond.pos, cond.id);
        if then_branch.result is Ok {
            lemma_else_branch(t, then_branch.pos, then_branch.id);
            let other = else_branch(t, then_branch.pos, then_branch.id);
            if other.result is Ok {
                lemma_fresh_join(
                    expr_ids(cond.result->Ok_0),
                    stmt_ids(then_branch.result->Ok_0),
                    id as int,
                    cond.id as int,
                    cond.id as int,
                    then_branch.id as int,
                    id as int,
                    then_branch.id as int,
                );
                lemma_fresh_join(
                    expr_ids(cond.result->Ok_0) + stmt_ids(then_branch.result->Ok_0),
                    optional_stmt_ids(other.result->Ok_0),
                    id as int,
                    then_branch.id as int,
                    then_branch.id as int,
                    other.id as int,
                    id as int,
                    other.id as int,
                );
            }
        }
    }
}

proof fn lemma_while_statement(t: Seq<TokenView>, pos: int, id: u64)
    requires
        ready(t, pos, id),
    ensures
        stmt_sound(t, pos, id, while_statement(t, pos, id)),
    decreases remaining(t, pos), 50int,
{
    lemma_expression(t, pos, id);
    let cond = expression(t, pos, id);
    if cond.result is Ok {
        lemma_statement(t, cond.pos, cond.id);
        let body = statement(t, cond.pos, cond.id);
        if body.result is Ok {
            lemma_fresh_join(
                expr_ids(cond.result->Ok_0),
                stmt_ids(body.result->Ok_0),
                id as int,
                cond.id as int,
                cond.id as int,
                body.id as int,
                id as int,
                body.id as int,
            );
        }
    }
}

proof fn lemma_optional_closed(
    t: Seq<TokenView>,
    pos: int,
    id: u64,
    close: TokenType,
    error: ParserErrorType,
)
    requires
        ready(t, pos, id),
    ensures
        optional_expr_sound(t, pos, id, optional_closed(t, pos, id, close, error)),
        optional_closed(t, pos, id, close, error).result is Ok ==> optional_closed(
            t,
            pos,
            id,
            close,
            error,
        ).pos > pos,
    decreases remaining(t, pos), 27int,
{
    if looks_at(t, pos, close) {
        assert(fresh(Seq::<u64>::empty(), id as int, id as int));
    } else {
        lemma_closed_expression(t, pos, id, close, error);
    }
}

proof fn lemma_for_initializer(t: Seq<TokenView>, pos: int, id: u64)
    requires
        ready(t, pos, id),
    ensures
        optional_stmt_sound(t, pos, id, for_initializer(t, pos, id)),
        for_initializer(t, pos, id).result is Ok ==> for_initializer(t, pos, id).pos > pos,
    decreases remaining(t, pos), 37int,
{
    if looks_at(t, pos, TokenType::Semicolon) {
        assert(fresh(Seq::<u64>::empty(), id as int, id as int));
    } else if looks_at(t, pos, TokenType::Let) {
        lemma_let_declaration(t, pos + 1, id);
    } else {
        lemma_expr_statement(t, pos, id);
    }
}

proof fn lemma_for_statement(t: Seq<TokenView>, pos: int, id: u64)
    requires
        ready(t, pos, id),
    ensures
        stmt_sound(t, pos, id, for_statement(t, pos, id)),
    decreases remaining(t, pos), 50int,
{
    if looks_at(t, pos, TokenType::LeftParen) {
        lemma_for_initializer(t, pos + 1, id);
        let init = for_initializer(t, pos + 1, id);
        if init.result is Ok {
            lemma_optional_closed(
                t,
                init.pos,
                init.id,
                TokenType::Semicolon,
                ParserErrorType::ExpectedSemicolon,
            );
            let cond = optional_closed(
                t,
                init.pos,
                init.id,
                TokenType::Semicolon,
                ParserErrorType::ExpectedSemicolon,
            );
            if cond.result is Ok {
                lemma_optional_closed(
                    t,
                    cond.pos,
                    cond.id,
                    TokenType::RightParen,
                    ParserErrorType::ExpectedRightParenAfterForStatement,
                );
                let step = optional_closed(
                    t,
                    cond.pos,
                    cond.id,
                    TokenType::RightParen,
                    ParserErrorType::ExpectedRightParenAfterForStatement,
                );
                if step.result is Ok {
                    lemma_statement(t, step.pos, step.id);
                    let body = statement(t, step.pos, step.id);
                    if body.result is Ok {
                        lemma_desugared(
                            init.result->Ok_0,
                            cond.result->Ok_0,
                            step.result->Ok_0,
                            body.result->Ok_0,
                            id as int,
                            init.id as int,
                            cond.id as int,
                            step.id as int,
                            body.id,
                        );
                    }
                }
            }
        }
    }
}

proof fn lemma_statement(t: Seq<TokenView>, pos: int, id: u64)
    requires
        ready(t, pos, id),
    ensures
        stmt_sound(t, pos, id, statement(t, pos, id)),
    decreases remaining(t, pos), 38int,
{
    if looks_at(t, pos, TokenType::Print) {
        lemma_print_statement(t, pos + 1, id);
    } else if looks_at(t, pos, TokenType::LeftBrace) {
        assert(fresh(Seq::<u64>::empty(), id as int, id as int));
        lemma_block(t, pos + 1, id, Seq::empty(), id as int);
    } else if looks_at(t, pos, TokenType::If) {
        lemma_if_statement(t, pos + 1, id);
    } else if looks_at(t, pos, TokenType::While) {
        lemma_while_statement(t, pos + 1, id);
    } else if looks_at(t, pos, TokenType::For) {
        lemma_for_statement(t, pos + 1, id);
    } else if looks_at(t, pos, TokenType::Return) {
        lemma_return_statement(t, pos + 1, id, t[pos]);
    } else {
        lemma_expr_statement(t, pos, id);
    }
}

proof fn lemma_declaration(t: Seq<TokenView>, pos: int, id: u64)
    requires
        ready(t, pos, id),
    ensures
        stmt_sound(t, pos, id, declaration(t, pos, id)),
    decreases remaining(t, pos), 39int,
{
    if looks_at(t, pos, TokenType::Let) {
        lemma_let_declaration(t, pos + 1, id);
    } else if looks_at(t, pos, TokenType::Fun) {
        lemma_fun_declaration(t, pos + 1, id);
    } else if looks_at(t, pos, TokenType::Class) {
        lemma_class_declaration(t, pos + 1, id);
    } else {
        lemma_statement(t, pos, id);
    }
}

proof fn lemma_export(t: Seq<TokenView>, pos: int, id: u64)
    requires
        ready(t, pos, id),
    ensures
        stmt_sound(t, pos, id, export(t, pos, id)),
    decreases remaining(t, pos), 40int,
{
    if looks_at(t, pos, TokenType::Use) {
        lemma_import(t, pos + 1, id, t[pos]);
    } else if looks_at(t, pos, TokenType::Export) {
        lemma_declaration(t, pos + 1, id);
    } else {
        lemma_declaration(t, pos, id);
    }
}

/// Skipping stops at the end of the input at the latest.
proof fn lemma_skipped(t: Seq<TokenView>, pos: int)
    requires
        0 < pos < t.len(),
        t.last().token_type == TokenType::Eof,
    ensures
        pos + skipped(t, pos) < t.len(),
    decreases remaining(t, pos),
{
    if !at_end(t, pos) && t[pos - 1].token_type != TokenType::Semicolon && !starts_statement(
        t[pos].token_type,
    ) {
        lemma_skipped(t, pos + 1);
    }
}

proof fn lemma_program(
    t: Seq<TokenView>,
    pos: int,
    id: u64,
    statements: Seq<StmtView>,
    errors: Seq<ParserErrorView>,
    lo: int,
)
    requires
        ready(t, pos, id),
        lo <= id,
        fresh(stmts_ids(statements, statements.len() as int), lo, id as int),
    ensures
        ({
            let found = program(t, pos, id, statements, errors);
            &&& id <= found.id
            &&& fresh(stmts_ids(found.statements, found.statements.len() as int), lo, found.id as int)
        }),
    decreases left(t, pos),
{
    if on_token(t, pos) && !at_end(t, pos) {
        lemma_export(t, pos, id);
        let one = export(t, pos, id);
        let next = resumed(t, pos, one);
        match one.result {
            Ok(stmt) => {
                lemma_stmts_push(statements, stmt);
                lemma_fresh_join(
                    stmts_ids(statements, statements.len() as int),
                    stmt_ids(stmt),
                    lo,
                    id as int,
                    id as int,
                    one.id as int,
                    lo,
                    one.id as int,
                );
                lemma_program(t, next, one.id, statements.push(stmt), errors, lo);
            },
            Err(error) => {
                if !at_end(t, one.pos) {
                    lemma_skipped(t, one.pos + 1);
                }
                lemma_program(t, next, one.id, statements, errors.push(error), lo);
            },
        }
    }
}

/// In the statements that a token sequence parses to from the cursor
/// `pos` on, whatever errors were met on the way, no two nodes have the
/// same identifier, and every identifier lies between the one that
/// parsing started with and the one that it ended with. This holds
/// where the identifiers cannot run out: there is one left for every
/// token at or behind the cursor.
pub proof fn lemma_node_ids_are_unique(t: Seq<TokenView>, pos: int, id: u64)
    requires
        on_token(t, pos),
        t.last().token_type == TokenType::Eof,
        id + (t.len() - pos) <= u64::MAX,
    ensures
        ({
            let found = program(t, pos, id, Seq::empty(), Seq::empty());
            let ids = stmts_ids(found.statements, found.statements.len() as int);
            &&& id <= found.id
            &&& ids.no_duplicates()
            &&& forall|i: int| 0 <= i < ids.len() ==> id <= #[trigger] ids[i] < found.id
        }),
{
    assert(fresh(Seq::<u64>::empty(), id as int, id as int));
    lemma_program(t, pos, id, Seq::empty(), Seq::empty(), id as int);
}

} // verus!
