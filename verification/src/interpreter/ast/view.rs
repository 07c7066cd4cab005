//! Syntax trees as mathematical objects: the same nodes, with sequences
//! in the place of vectors.

use std::rc::Rc;
use vstd::prelude::*;

use crate::interpreter::ast::expr::Expr;
use crate::interpreter::ast::stmt::Fun;
use crate::interpreter::ast::stmt::Stmt;
use crate::interpreter::scanner::token::literal::ObjectView;
use crate::interpreter::scanner::token::literal_view;
use crate::interpreter::scanner::token::token_views;
use crate::interpreter::scanner::token::TokenView;

verus! {

/// An expression.
pub enum ExprView {
    Binary { id: u64, left: Box<ExprView>, operation: TokenView, right: Box<ExprView> },
    Grouping { id: u64, expression: Box<ExprView> },
    Literal { id: u64, literal: Option<ObjectView> },
    Unary { id: u64, operator: TokenView, right: Box<ExprView> },
    Variable { id: u64, token: TokenView },
    Assign { id: u64, token: TokenView, value: Box<ExprView> },
    Logical { id: u64, left: Box<ExprView>, operator: TokenView, right: Box<ExprView> },
    Call { id: u64, callable: Box<ExprView>, parens: TokenView, args: Seq<ExprView> },
    Get { id: u64, name: TokenView, object: Box<ExprView> },
    SetExpr { id: u64, name: TokenView, obj: Box<ExprView>, value: Box<ExprView> },
    SelfExpr { id: u64, name: TokenView },
    Super { id: u64, keyword: TokenView, method: TokenView },
    List { id: u64, values: Seq<ExprView> },
}

/// A function declaration.
pub struct FunView {
    pub id: u64,
    pub name: TokenView,
    pub params: Seq<TokenView>,
    pub body: Seq<StmtView>,
}

/// A statement.
pub enum StmtView {
    Expr { expr: ExprView },
    Print { expr: ExprView },
    Let { ident: TokenView, initializer: Option<ExprView> },
    Block { stmts: Seq<StmtView> },
    If { cond: ExprView, then_stmt: Box<StmtView>, else_stmt: Option<Box<StmtView>> },
    While { cond: ExprView, stmt: Box<StmtView> },
    Fun { fun: FunView },
    Return { token: TokenView, returned: Option<ExprView> },
    Class { name: TokenView, methods: Seq<FunView>, super_class: Option<ExprView> },
    Export { name: TokenView, stmt: Box<StmtView> },
    Use { name: TokenView, expr: ExprView },
}

/// The view of an expression.
pub open spec fn expr_view(e: Expr) -> ExprView
    decreases e, 0int,
{
    match e {
        Expr::Binary(b) => ExprView::Binary {
            id: b.id,
            left: Box::new(expr_view(*b.left)),
            operation: b.operation@,
            right: Box::new(expr_view(*b.right)),
        },
        Expr::Grouping(g) => ExprView::Grouping {
            id: g.id,
            expression: Box::new(expr_view(*g.expression)),
        },
        Expr::Literal(l) => ExprView::Literal { id: l.id, literal: literal_view(l.value) },
        Expr::Unary(u) => ExprView::Unary {
            id: u.id,
            operator: u.operator@,
            right: Box::new(expr_view(*u.right)),
        },
        Expr::Variable(v) => ExprView::Variable { id: v.id, token: v.token@ },
        Expr::Assign(a) => ExprView::Assign {
            id: a.id,
            token: a.token@,
            value: Box::new(expr_view(*a.value)),
        },
        Expr::Logical(l) => ExprView::Logical {
            id: l.id,
            left: Box::new(expr_view(*l.left)),
            operator: l.operator@,
            right: Box::new(expr_view(*l.right)),
        },
        Expr::Call(c) => ExprView::Call {
            id: c.id,
            callable: Box::new(expr_view(*c.callable)),
            parens: c.parens@,
            args: exprs_view(c.args),
        },
        Expr::Get(g) => ExprView::Get {
            id: g.id,
            name: g.name@,
            object: Box::new(expr_view(*g.object)),
        },
        Expr::SetExpr(s) => ExprView::SetExpr {
            id: s.id,
            name: s.name@,
            obj: Box::new(expr_view(*s.obj)),
            value: Box::new(expr_view(*s.value)),
        },
        Expr::SelfExpr(s) => ExprView::SelfExpr { id: s.id, name: s.name@ },
        Expr::Super(s) => ExprView::Super { id: s.id, keyword: s.keyword@, method: s.method@ },
        Expr::List(l) => ExprView::List { id: l.id, values: exprs_view(l.values) },
    }
}

/// The views of a vector of expressions.
pub open spec fn exprs_view(es: Vec<Expr>) -> Seq<ExprView>
    decreases es, 0int,
{
    Seq::new(
        es.len() as nat,
        |i: int|
            if 0 <= i < es.len() {
                expr_view(es[i])
            } else {
                ExprView::Literal { id: 0, literal: None }
            },
    )
}

/// The view of an optional expression.
pub open spec fn optional_expr_view(e: Option<Expr>) -> Option<ExprView> {
    match e {
        Some(e) => Some(expr_view(e)),
        None => None,
    }
}

/// The view of a function declaration.
pub open spec fn fun_view(f: Fun) -> FunView
    decreases f, 1int,
{
    FunView { id: f.id, name: f.name@, params: token_views(f.params@), body: stmts_view(f.body) }
}

/// The views of a vector of function declarations.
pub open spec fn funs_view(fs: Vec<Rc<Fun>>) -> Seq<FunView>
    decreases fs, 0int,
{
    Seq::new(
        fs.len() as nat,
        |i: int|
            if 0 <= i < fs.len() {
                fun_view(*fs[i])
            } else {
                FunView { id: 0, name: arbitrary(), params: Seq::empty(), body: Seq::empty() }
            },
    )
}

/// The view of a statement.
pub open spec fn stmt_view(s: Stmt) -> StmtView
    decreases s, 0int,
{
    match s {
        Stmt::Expr(e) => StmtView::Expr { expr: expr_view(e.expr) },
        Stmt::Print(p) => StmtView::Print { expr: expr_view(p.expr) },
        Stmt::Let(l) => StmtView::Let {
            ident: l.ident@,
            initializer: optional_expr_view(l.initializer),
        },
        Stmt::Block(b) => StmtView::Block { stmts: stmts_view(b.stmts) },
        Stmt::If(i) => StmtView::If {
            cond: expr_view(i.cond),
            then_stmt: Box::new(stmt_view(*i.then_stmt)),
            else_stmt: match i.else_stmt {
                Some(else_stmt) => Some(Box::new(stmt_view(*else_stmt))),
                None => None,
            },
        },
        Stmt::While(w) => StmtView::While {
            cond: expr_view(w.cond),
            stmt: Box::new(stmt_view(*w.stmt)),
        },
        Stmt::Fun(f) => StmtView::Fun { fun: fun_view(*f) },
        Stmt::Return(r) => StmtView::Return { token: r.token@, returned: optional_expr_view(r.expr) },
        Stmt::Class(c) => StmtView::Class {
            name: c.name@,
            methods: funs_view(c.methods),
            super_class: match c.super_class {
                Some(variable) => Some(
                    ExprView::Variable { id: variable.id, token: variable.token@ },
                ),
                None => None,
            },
        },
        Stmt::Export(e) => StmtView::Export { name: e.name@, stmt: Box::new(stmt_view(*e.stmt)) },
        Stmt::Use(u) => StmtView::Use { name: u.name@, expr: expr_view(u.expr) },
    }
}

/// The views of a vector of statements.
pub open spec fn stmts_view(ss: Vec<Stmt>) -> Seq<StmtView>
    decreases ss, 0int,
{
    Seq::new(
        ss.len() as nat,
        |i: int|
            if 0 <= i < ss.len() {
                stmt_view(ss[i])
            } else {
                StmtView::Block { stmts: Seq::empty() }
            },
    )
}

} // verus!
