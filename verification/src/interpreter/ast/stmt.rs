//! Statements.

use std::rc::Rc;
use vstd::prelude::*;

use crate::interpreter::ast::expr::Expr;
use crate::interpreter::ast::expr::Variable;
use crate::interpreter::scanner::token::Token;
use crate::utils::following;
use crate::utils::next_id;
use crate::utils::IdAllocator;

verus! {

/// A statement.
#[derive(Debug)]
pub enum Stmt {
    Expr(StmtExpr),
    Print(Print),
    Let(Let),
    Block(Block),
    If(If),
    While(While),
    Fun(Rc<Fun>),
    Return(Return),
    Class(Class),
    Export(Export),
    Use(Use),
}

/// `{ stmts }`.
#[derive(Debug)]
pub struct Block {
    pub stmts: Vec<Stmt>,
}

impl Block {
    /// A new node.
    pub fn new(stmts: Vec<Stmt>) -> (r: Self)
        ensures
            r.stmts == stmts,
    {
        Self { stmts }
    }

    /// The statements of the block, in source order.
    pub fn get_stmts(&self) -> (r: &Vec<Stmt>)
        ensures
            *r == self.stmts,
    {
        &self.stmts
    }
}

/// `class name < super_class { methods }`.
#[derive(Debug)]
pub struct Class {
    pub name: Token,
    pub methods: Vec<Rc<Fun>>,
    pub super_class: Option<Variable>,
}

impl Class {
    /// A new node.
    pub fn new(name: Token, methods: Vec<Rc<Fun>>, super_class: Option<Variable>) -> (r: Self)
        ensures
            r.name == name,
            r.methods == methods,
            r.super_class == super_class,
    {
        Self { name, methods, super_class }
    }

    /// The name, the methods and the superclass of the declaration.
    pub fn extract(&self) -> (r: (&Token, &Vec<Rc<Fun>>, Option<&Variable>))
        ensures
            *r.0 == self.name,
            *r.1 == self.methods,
            match r.2 {
                Some(variable) => self.super_class == Some(*variable),
                None => self.super_class is None,
            },
    {
        (&self.name, &self.methods, self.super_class.as_ref())
    }
}

/// `export stmt`; `name` is the keyword.
#[derive(Debug)]
pub struct Export {
    pub name: Token,
    pub stmt: Box<Stmt>,
}

impl Export {
    /// A new node.
    pub fn new(name: Token, stmt: Box<Stmt>) -> (r: Self)
        ensures
            r.name == name,
            r.stmt == stmt,
    {
        Self { name, stmt }
    }

    /// The keyword and the exported statement.
    pub fn extract(&self) -> (r: (&Token, &Stmt))
        ensures
            *r.0 == self.name,
            *r.1 == *self.stmt,
    {
        (&self.name, &*self.stmt)
    }
}

/// `fun name(params) { body }`, or a method of a class.
#[derive(Debug)]
pub struct Fun {
    pub id: u64,
    pub name: Token,
    pub params: Vec<Token>,
    pub body: Vec<Stmt>,
}

impl Fun {
    /// A new node, with the next identifier of `ids`.
    pub fn new(ids: &mut IdAllocator, name: Token, params: Vec<Token>, body: Vec<Stmt>) -> (r: Self)
        ensures
            r.id == old(ids).upcoming(),
            final(ids).upcoming() == following(r.id),
            r.name == name,
            r.params == params,
            r.body == body,
    {
        let id = next_id(ids);
        Self { id, name, params, body }
    }

    /// The identifier, the name, the parameters and the body.
    pub fn extract(self) -> (r: (u64, Token, Vec<Token>, Vec<Stmt>))
        ensures
            r.0 == self.id,
            r.1 == self.name,
            r.2 == self.params,
            r.3 == self.body,
    {
        (self.id, self.name, self.params, self.body)
    }

    /// The name of the function.
    pub fn get_name(&self) -> (r: Token)
        ensures
            r == self.name,
    {
        self.name.clone()
    }
}

/// `if cond then_stmt else else_stmt`.
#[derive(Debug)]
pub struct If {
    pub cond: Expr,
    pub then_stmt: Box<Stmt>,
    pub else_stmt: Option<Box<Stmt>>,
}

impl If {
    /// A new node.
    pub fn new(cond: Expr, then_stmt: Box<Stmt>, else_stmt: Option<Box<Stmt>>) -> (r: Self)
        ensures
            r.cond == cond,
            r.then_stmt == then_stmt,
            r.else_stmt == else_stmt,
    {
        Self { cond, then_stmt, else_stmt }
    }

    /// The condition and the two branches.
    pub fn extract(&self) -> (r: (&Expr, &Stmt, Option<&Stmt>))
        ensures
            *r.0 == self.cond,
            *r.1 == *self.then_stmt,
            match r.2 {
                Some(stmt) => self.else_stmt is Some && *self.else_stmt->0 == *stmt,
                None => self.else_stmt is None,
            },
    {
        let else_stmt: Option<&Stmt> = match &self.else_stmt {
            Some(stmt) => Some(&**stmt),
            None => None,
        };
        (&self.cond, &*self.then_stmt, else_stmt)
    }
}

/// `let ident = initializer;`.
#[derive(Debug)]
pub struct Let {
    pub ident: Token,
    pub initializer: Option<Expr>,
}

impl Let {
    /// A new node.
    pub fn new(ident: Token, initializer: Option<Expr>) -> (r: Self)
        ensures
            r.ident == ident,
            r.initializer == initializer,
    {
        Self { ident, initializer }
    }

    /// The declared name.
    pub fn get_ident(&self) -> (r: Token)
        ensures
            r == self.ident,
    {
        self.ident.clone()
    }

    /// The initializer, if the declaration has one.
    pub fn get_initializer(&self) -> (r: Option<&Expr>)
        ensures
            match r {
                Some(expr) => self.initializer == Some(*expr),
                None => self.initializer is None,
            },
    {
        self.initializer.as_ref()
    }
}

/// `print expr;`.
#[derive(Debug)]
pub struct Print {
    pub expr: Expr,
}

impl Print {
    /// A new node.
    pub fn new(expr: Expr) -> (r: Self)
        ensures
            r.expr == expr,
    {
        Self { expr }
    }

    /// The printed expression.
    pub fn expr(&self) -> (r: &Expr)
        ensures
            *r == self.expr,
    {
        &self.expr
    }
}

/// `return expr;`; `token` is the keyword.
#[derive(Debug)]
pub struct Return {
    pub token: Token,
    pub expr: Option<Expr>,
}

impl Return {
    /// A new node.
    pub fn new(token: Token, expr: Option<Expr>) -> (r: Self)
        ensures
            r.token == token,
            r.expr == expr,
    {
        Self { token, expr }
    }

    /// The keyword and the returned expression, if there is one.
    pub fn extract(&self) -> (r: (&Token, Option<&Expr>))
        ensures
            *r.0 == self.token,
            match r.1 {
                Some(expr) => self.expr == Some(*expr),
                None => self.expr is None,
            },
    {
        (&self.token, self.expr.as_ref())
    }
}

/// `expr;`.
#[derive(Debug)]
pub struct StmtExpr {
    pub expr: Expr,
}

impl StmtExpr {
    /// A new node.
    pub fn new(expr: Expr) -> (r: Self)
        ensures
            r.expr == expr,
    {
        Self { expr }
    }

    /// The evaluated expression.
    pub fn expr(&self) -> (r: &Expr)
        ensures
            *r == self.expr,
    {
        &self.expr
    }
}

/// `use expr;`; `name` is the keyword.
#[derive(Debug)]
pub struct Use {
    pub name: Token,
    pub expr: Expr,
}

impl Use {
    /// A new node.
    pub fn new(name: Token, expr: Expr) -> (r: Self)
        ensures
            r.name == name,
            r.expr == expr,
    {
        Self { name, expr }
    }

    /// The keyword and the path expression.
    pub fn extract(&self) -> (r: (&Token, &Expr))
        ensures
            *r.0 == self.name,
            *r.1 == self.expr,
    {
        (&self.name, &self.expr)
    }
}

/// `while cond stmt`.
#[derive(Debug)]
pub struct While {
    pub cond: Expr,
    pub stmt: Box<Stmt>,
}

impl While {
    /// A new node.
    pub fn new(cond: Expr, stmt: Box<Stmt>) -> (r: Self)
        ensures
            r.cond == cond,
            r.stmt == stmt,
    {
        Self { cond, stmt }
    }

    /// The condition and the body.
    pub fn extract(&self) -> (r: (&Expr, &Stmt))
        ensures
            *r.0 == self.cond,
            *r.1 == *self.stmt,
    {
        (&self.cond, &*self.stmt)
    }
}
} // verus!
