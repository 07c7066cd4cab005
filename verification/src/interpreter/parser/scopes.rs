//! What static resolution means: the scope depth of every reference,
//! defined on the syntax tree.

use vstd::prelude::*;

use crate::interpreter::ast::view::ExprView;
use crate::interpreter::ast::view::FunView;
use crate::interpreter::ast::view::StmtView;
use crate::interpreter::parser::error::ParserErrorType;
use crate::interpreter::parser::error::ParserErrorView;
use crate::interpreter::scanner::token::TokenView;

verus! {

/// What kind of function body is being resolved.
#[derive(Clone, Copy, Debug, PartialEq, Eq, Structural)]
pub enum FunctionType {
    Function,
    Method,
    Initializer,
    /// Outside every function.
    Outside,
}

/// What kind of class body is being resolved.
#[derive(Clone, Copy, Debug, PartialEq, Eq, Structural)]
pub enum ClassType {
    Class,
    SubClass,
    /// Outside every class.
    Outside,
}

/// One scope: the names declared in it, each with whether its
/// initializer has been resolved.
pub type Scope = Map<Seq<char>, bool>;

/// The state of a resolution: the open scopes, innermost last; the kinds
/// of the enclosing function and class; and the depths found so far, by
/// node identifier.
pub struct Resolution {
    pub scopes: Seq<Scope>,
    pub function: FunctionType,
    pub class: ClassType,
    pub locals: Map<u64, usize>,
}

/// The state with one more scope, which is empty.
pub open spec fn begin_scope(st: Resolution) -> Resolution {
    Resolution { scopes: st.scopes.push(Map::empty()), ..st }
}

/// The state without its innermost scope.
pub open spec fn end_scope(st: Resolution) -> Resolution {
    if st.scopes.len() == 0 {
        st
    } else {
        Resolution { scopes: st.scopes.drop_last(), ..st }
    }
}

/// The state with `name` bound to `defined` in the innermost scope; at
/// the top level, where no scope is open, nothing is recorded.
pub open spec fn bind(st: Resolution, name: Seq<char>, defined: bool) -> Resolution {
    if st.scopes.len() == 0 {
        st
    } else {
        Resolution {
            scopes: st.scopes.update(st.scopes.len() - 1, st.scopes.last().insert(name, defined)),
            ..st
        }
    }
}

/// `name` declared, its initializer not yet resolved.
pub open spec fn declare(st: Resolution, name: Seq<char>) -> Resolution {
    bind(st, name, false)
}

/// `name` ready for use.
pub open spec fn define(st: Resolution, name: Seq<char>) -> Resolution {
    bind(st, name, true)
}

/// How many scopes lie between the innermost scope and the innermost one
/// that declares `name`; nothing where no open scope declares it.
pub open spec fn depth_of(scopes: Seq<Scope>, name: Seq<char>) -> Option<nat>
    decreases scopes.len(),
{
    if scopes.len() == 0 {
        None
    } else if scopes.last().contains_key(name) {
        Some(0)
    } else {
        match depth_of(scopes.drop_last(), name) {
            Some(d) => Some(d + 1),
            None => None,
        }
    }
}

/// The state after a reference to `name` by the node `id`: the depth of
/// `name` is recorded for the node where a scope declares it; a name that
/// no scope declares is a global and gets no entry.
pub open spec fn refer(st: Resolution, id: u64, name: Seq<char>) -> Resolution {
    match depth_of(st.scopes, name) {
        Some(d) => Resolution { locals: st.locals.insert(id, d as usize), ..st },
        None => st,
    }
}

/// Whether `name` is declared in the innermost scope and its initializer
/// is still being resolved.
pub open spec fn in_own_initializer(st: Resolution, name: Seq<char>) -> bool {
    st.scopes.len() > 0 && st.scopes.last().contains_key(name) && !st.scopes.last()[name]
}

/// The error `ty` at `token`.
pub open spec fn fail(token: TokenView, ty: ParserErrorType) -> Result<
    Resolution,
    ParserErrorView,
> {
    Err(ParserErrorView { token, ty })
}

/// The kind of a method by its name: `init` is the initializer.
pub open spec fn method_kind(name: Seq<char>) -> FunctionType {
    if name == "init"@ {
        FunctionType::Initializer
    } else {
        FunctionType::Method
    }
}

/// A read of the variable `name` by the node `id`.
pub open spec fn resolve_variable(st: Resolution, id: u64, name: TokenView) -> Result<
    Resolution,
    ParserErrorView,
> {
    if in_own_initializer(st, name.lexeme) {
        fail(name, ParserErrorType::CantReadLocalVariableInItsOwnInit)
    } else {
        Ok(refer(st, id, name.lexeme))
    }
}

/// Resolves one expression.
pub open spec fn resolve_expr(st: Resolution, e: ExprView) -> Result<Resolution, ParserErrorView>
    decreases e, 0int,
{
    match e {
        ExprView::Literal { .. } => Ok(st),
        ExprView::Grouping { expression, .. } => resolve_expr(st, *expression),
        ExprView::Unary { right, .. } => resolve_expr(st, *right),
        ExprView::Binary { left, right, .. } => match resolve_expr(st, *left) {
            Ok(st) => resolve_expr(st, *right),
            Err(err) => Err(err),
        },
        ExprView::Logical { left, right, .. } => match resolve_expr(st, *left) {
            Ok(st) => resolve_expr(st, *right),
            Err(err) => Err(err),
        },
        ExprView::Variable { id, token } => resolve_variable(st, id, token),
        ExprView::Assign { id, token, value } => match resolve_expr(st, *value) {
            Ok(st) => Ok(refer(st, id, token.lexeme)),
            Err(err) => Err(err),
        },
        ExprView::Call { callable, args, .. } => match resolve_expr(st, *callable) {
            Ok(st) => resolve_exprs(st, args, 0),
            Err(err) => Err(err),
        },
        ExprView::Get { object, .. } => resolve_expr(st, *object),
        ExprView::SetExpr { obj, value, .. } => match resolve_expr(st, *obj) {
            Ok(st) => resolve_expr(st, *value),
            Err(err) => Err(err),
        },
        ExprView::SelfExpr { id, name } => if st.class == ClassType::Outside {
            fail(name, ParserErrorType::CantUseSelfOutsideClass)
        } else {
            Ok(refer(st, id, name.lexeme))
        },
        ExprView::Super { id, keyword, .. } => if st.class == ClassType::Outside {
            fail(keyword, ParserErrorType::CantUseSuperOutsideOfClass)
        } else if st.class != ClassType::SubClass {
            fail(keyword, ParserErrorType::CantUseSuperInClassWithoutSuperClasses)
        } else {
            Ok(refer(st, id, keyword.lexeme))
        },
        ExprView::List { values, .. } => resolve_exprs(st, values, 0),
    }
}

/// Resolves the expressions `es[from..]`, in order.
pub open spec fn resolve_exprs(st: Resolution, es: Seq<ExprView>, from: int) -> Result<
    Resolution,
    ParserErrorView,
>
    decreases es, es.len() - from,
{
    if 0 <= from < es.len() {
        match resolve_expr(st, es[from]) {
            Ok(st) => resolve_exprs(st, es, from + 1),
            Err(err) => Err(err),
        }
    } else {
        Ok(st)
    }
}

/// The state with every parameter of `params[from..]` declared and
/// defined.
pub open spec fn define_params(st: Resolution, params: Seq<TokenView>, from: int) -> Resolution
    decreases params.len() - from,
{
    if 0 <= from < params.len() {
        define_params(define(declare(st, params[from].lexeme), params[from].lexeme), params, from + 1)
    } else {
        st
    }
}

/// Resolves the body of a function of kind `ty` in a scope of its own
/// that holds the parameters.
pub open spec fn resolve_function(st: Resolution, f: FunView, ty: FunctionType) -> Result<
    Resolution,
    ParserErrorView,
>
    decreases f, 1int,
{
    let inner = define_params(begin_scope(Resolution { function: ty, ..st }), f.params, 0);
    match resolve_stmts(inner, f.body, 0) {
        Ok(done) => Ok(Resolution { function: st.function, ..end_scope(done) }),
        Err(err) => Err(err),
    }
}

/// Resolves the methods `methods[from..]`, in order.
pub open spec fn resolve_methods(st: Resolution, methods: Seq<FunView>, from: int) -> Result<
    Resolution,
    ParserErrorView,
>
    decreases methods, methods.len() - from,
{
    if 0 <= from < methods.len() {
        match resolve_function(st, methods[from], method_kind(methods[from].name.lexeme)) {
            Ok(st) => resolve_methods(st, methods, from + 1),
            Err(err) => Err(err),
        }
    } else {
        Ok(st)
    }
}

/// Resolves a class declaration.
pub open spec fn resolve_class(
    st: Resolution,
    name: TokenView,
    methods: Seq<FunView>,
    super_class: Option<ExprView>,
) -> Result<Resolution, ParserErrorView>
    decreases methods, methods.len() + 1,
{
    let named = define(declare(st, name.lexeme), name.lexeme);
    match super_class {
        Some(ExprView::Variable { id, token }) => if token.lexeme == name.lexeme {
            fail(token, ParserErrorType::CantInheritItSelf)
        } else {
            match resolve_variable(Resolution { class: ClassType::SubClass, ..named }, id, token) {
                Ok(st1) => match resolve_methods(
                    define(begin_scope(define(begin_scope(st1), "super"@)), "self"@),
                    methods,
                    0,
                ) {
                    Ok(done) => Ok(Resolution { class: st.class, ..end_scope(end_scope(done)) }),
                    Err(err) => Err(err),
                },
                Err(err) => Err(err),
            }
        },
        _ => match resolve_methods(
            define(begin_scope(Resolution { class: ClassType::Class, ..named }), "self"@),
            methods,
            0,
        ) {
            Ok(done) => Ok(Resolution { class: st.class, ..end_scope(done) }),
            Err(err) => Err(err),
        },
    }
}

/// Resolves one statement.
pub open spec fn resolve_stmt(st: Resolution, s: StmtView) -> Result<Resolution, ParserErrorView>
    decreases s, 0int,
{
    match s {
        StmtView::Expr { expr } => resolve_expr(st, expr),
        StmtView::Print { expr } => resolve_expr(st, expr),
        StmtView::Let { ident, initializer } => {
            let declared = declare(st, ident.lexeme);
            match initializer {
                Some(initializer) => match resolve_expr(declared, initializer) {
                    Ok(st) => Ok(define(st, ident.lexeme)),
                    Err(err) => Err(err),
                },
                None => Ok(define(declared, ident.lexeme)),
            }
        },
        StmtView::Block { stmts } => match resolve_stmts(begin_scope(st), stmts, 0) {
            Ok(st) => Ok(end_scope(st)),
            Err(err) => Err(err),
        },
        StmtView::If { cond, then_stmt, else_stmt } => match resolve_expr(st, cond) {
            Ok(st) => match resolve_stmt(st, *then_stmt) {
                Ok(st) => match else_stmt {
                    Some(else_stmt) => resolve_stmt(st, *else_stmt),
                    None => Ok(st),
                },
                Err(err) => Err(err),
            },
            Err(err) => Err(err),
        },
        StmtView::While { cond, stmt } => match resolve_expr(st, cond) {
            Ok(st) => resolve_stmt(st, *stmt),
            Err(err) => Err(err),
        },
        StmtView::Fun { fun } => resolve_function(
            define(declare(st, fun.name.lexeme), fun.name.lexeme),
            fun,
            FunctionType::Function,
        ),
        StmtView::Return { token, returned } => if st.function == FunctionType::Outside {
            fail(token, ParserErrorType::CantReturnFromTopLevelCode)
        } else {
            match returned {
                Some(expr) => if st.function == FunctionType::Initializer {
                    fail(token, ParserErrorType::CantReturnFromInitializer)
                } else {
                    resolve_expr(st, expr)
                },
                None => Ok(st),
            }
        },
        StmtView::Class { name, methods, super_class } => resolve_class(
            st,
            name,
            methods,
            super_class,
        ),
        StmtView::Export { stmt, .. } => resolve_stmt(st, *stmt),
        StmtView::Use { expr, .. } => resolve_expr(st, expr),
    }
}

/// Resolves the statements `stmts[from..]`, in order.
pub open spec fn resolve_stmts(st: Resolution, stmts: Seq<StmtView>, from: int) -> Result<
    Resolution,
    ParserErrorView,
>
    decreases stmts, stmts.len() - from,
{
    if 0 <= from < stmts.len() {
        match resolve_stmt(st, stmts[from]) {
            Ok(st) => resolve_stmts(st, stmts, from + 1),
            Err(err) => Err(err),
        }
    } else {
        Ok(st)
    }
}

} // verus!
