//! The static resolver: one walk over the syntax tree that finds, for
//! every reference to a variable, `self` or `super`, the scope depth at
//! which the interpreter will find it.

use std::collections::HashMap;
use std::rc::Rc;
use vstd::prelude::*;
use vstd::string::StringExecFns;

use crate::interpreter::ast::expr::Expr;
use crate::interpreter::ast::stmt::Fun;
use crate::interpreter::ast::stmt::Stmt;
use crate::interpreter::error::InterpreterError;
use crate::interpreter::error::InterpreterErrorView;
use crate::interpreter::parser::error::ParserError;
use crate::interpreter::parser::error::ParserErrorType;
use crate::interpreter::parser::scopes::begin_scope;
use crate::interpreter::parser::scopes::bind;
use crate::interpreter::parser::scopes::declare;
use crate::interpreter::parser::scopes::define;
use crate::interpreter::parser::scopes::define_params;
use crate::interpreter::parser::scopes::depth_of;
use crate::interpreter::parser::scopes::end_scope;
use crate::interpreter::parser::scopes::refer;
use crate::interpreter::ast::view::expr_view;
use crate::interpreter::ast::view::exprs_view;
use crate::interpreter::ast::view::fun_view;
use crate::interpreter::ast::view::funs_view;
use crate::interpreter::ast::view::stmt_view;
use crate::interpreter::ast::view::stmts_view;
use crate::interpreter::parser::scopes::resolve_class;
use crate::interpreter::parser::scopes::resolve_expr;
use crate::interpreter::parser::scopes::resolve_variable;
use crate::interpreter::scanner::token::token_views;
use crate::interpreter::parser::scopes::resolve_exprs;
use crate::interpreter::parser::scopes::resolve_function;
use crate::interpreter::parser::scopes::resolve_methods;
use crate::interpreter::parser::scopes::resolve_stmt;
use crate::interpreter::parser::scopes::resolve_stmts;
use crate::interpreter::parser::scopes::ClassType;
use crate::interpreter::parser::scopes::FunctionType;
use crate::interpreter::parser::scopes::Resolution;
use crate::interpreter::parser::scopes::Scope;
use crate::interpreter::scanner::token::Token;

verus! {

broadcast use vstd::std_specs::hash::group_hash_axioms;

/// One name of a scope.
pub struct ScopeEntry {
    pub name: String,
    pub defined: bool,
}

/// The scope that a list of entries stands for: a later entry for a name
/// replaces an earlier one.
pub open spec fn scope_view(entries: Seq<ScopeEntry>) -> Scope
    decreases entries.len(),
{
    if entries.len() == 0 {
        Map::empty()
    } else {
        scope_view(entries.drop_last()).insert(entries.last().name@, entries.last().defined)
    }
}

/// The scopes that a stack of entry lists stands for.
pub open spec fn stack_view(stack: Seq<Vec<ScopeEntry>>) -> Seq<Scope> {
    stack.map_values(|entries: Vec<ScopeEntry>| scope_view(entries@))
}

/// Walks a program and records the scope depth of its references.
pub struct Resolver {
    stack: Vec<Vec<ScopeEntry>>,
    current_function: FunctionType,
    current_class: ClassType,
    locals: HashMap<u64, usize>,
}

impl View for Resolver {
    type V = Resolution;

    closed spec fn view(&self) -> Resolution {
        Resolution {
            scopes: stack_view(self.stack@),
            function: self.current_function,
            class: self.current_class,
            locals: self.locals@,
        }
    }
}

/// What a scope says of `name`.
fn lookup(entries: &Vec<ScopeEntry>, name: &String) -> (r: Option<bool>)
    ensures
        match r {
            Some(defined) => scope_view(entries@).contains_key(name@) && scope_view(
                entries@,
            )[name@] == defined,
            None => !scope_view(entries@).contains_key(name@),
        },
{
    let mut found: Option<bool> = None;
    let mut i: usize = 0;
    while i < entries.len()
        invariant
            i <= entries.len(),
            match found {
                Some(defined) => scope_view(entries@.take(i as int)).contains_key(name@)
                    && scope_view(entries@.take(i as int))[name@] == defined,
                None => !scope_view(entries@.take(i as int)).contains_key(name@),
            },
        decreases entries.len() - i,
    {
        if entries[i].name == *name {
            found = Some(entries[i].defined);
        }
        i += 1;
        assert(entries@.take(i as int).drop_last() =~= entries@.take(i - 1));
    }
    assert(entries@.take(i as int) =~= entries@);
    found
}

impl Resolver {
    /// A resolver at the top level, outside every function and class,
    /// which adds to the depths in `locals`.
    pub fn new(locals: HashMap<u64, usize>) -> (r: Self)
        ensures
            r@ == (Resolution {
                scopes: Seq::<Scope>::empty(),
                function: FunctionType::Outside,
                class: ClassType::Outside,
                locals: locals@,
            }),
    {
        let r = Self {
            stack: Vec::new(),
            current_function: FunctionType::Outside,
            current_class: ClassType::Outside,
            locals,
        };
        assert(r@.scopes =~= Seq::<Scope>::empty());
        r
    }

    /// The depths recorded so far, by node identifier.
    pub fn into_locals(self) -> (r: HashMap<u64, usize>)
        ensures
            r@ == self@.locals,
    {
        self.locals
    }

    /// Resolves the statements of `stmts` in order and stops at the first
    /// error.
    pub fn resolve(&mut self, stmts: &Vec<Stmt>) -> (r: Result<(), InterpreterError>)
        ensures
            match resolve_stmts(old(self)@, stmts_view(*stmts), 0) {
                Ok(st) => r is Ok && final(self)@ == st,
                Err(err) => r is Err && r->Err_0@ == InterpreterErrorView::ParserError(err),
            },
    {
        match self.resolve_all(stmts) {
            Ok(()) => Ok(()),
            Err(error) => Err(InterpreterError::ParserError(error)),
        }
    }

    /// Resolves the statements of `stmts` in order and stops at the first
    /// error.
    fn resolve_all(&mut self, stmts: &Vec<Stmt>) -> (r: Result<(), ParserError>)
        ensures
            match resolve_stmts(old(self)@, stmts_view(*stmts), 0) {
                Ok(st) => r is Ok && final(self)@ == st,
                Err(err) => r is Err && r->Err_0@ == err,
            },
        decreases stmts, 1int,
    {
        let mut i: usize = 0;
        while i < stmts.len()
            invariant
                i <= stmts.len(),
                resolve_stmts(old(self)@, stmts_view(*stmts), 0) == resolve_stmts(
                    self@,
                    stmts_view(*stmts),
                    i as int,
                ),
            decreases stmts.len() - i,
        {
            self.resolve_stmt(&stmts[i])?;
            i += 1;
        }
        Ok(())
    }

    fn resolve_stmt(&mut self, stmt: &Stmt) -> (r: Result<(), ParserError>)
        ensures
            match resolve_stmt(old(self)@, stmt_view(*stmt)) {
                Ok(st) => r is Ok && final(self)@ == st,
                Err(err) => r is Err && r->Err_0@ == err,
            },
        decreases stmt, 1int,
    {
        match stmt {
            Stmt::Expr(e) => self.resolve_expr(&e.expr),
            Stmt::Print(p) => self.resolve_expr(&p.expr),
            Stmt::Let(l) => self.resolve_let(l),
            Stmt::Block(b) => {
                self.begin_scope();
                self.resolve_all(&b.stmts)?;
                self.end_scope();
                Ok(())
            },
            Stmt::If(i) => self.resolve_if(i),
            Stmt::While(w) => {
                self.resolve_expr(&w.cond)?;
                self.resolve_stmt(&w.stmt)
            },
            Stmt::Fun(f) => {
                self.declare(&f.name);
                self.define(&f.name);
                self.resolve_function(f, FunctionType::Function)
            },
            Stmt::Return(r) => self.resolve_return(r),
            Stmt::Class(c) => self.resolve_class(c),
            Stmt::Export(e) => self.resolve_stmt(&e.stmt),
            Stmt::Use(u) => self.resolve_expr(&u.expr),
        }
    }

    fn resolve_let(&mut self, l: &crate::interpreter::ast::stmt::Let) -> (r: Result<(), ParserError>)
        ensures
            match resolve_stmt(old(self)@, stmt_view(Stmt::Let(*l))) {
                Ok(st) => r is Ok && final(self)@ == st,
                Err(err) => r is Err && r->Err_0@ == err,
            },
        decreases l, 0int,
    {
        self.declare(&l.ident);
        if let Some(initializer) = &l.initializer {
            match self.resolve_expr(initializer) {
                Ok(()) => {},
                Err(error) => {
                    return Err(error);
                },
            }
        }
        self.define(&l.ident);
        Ok(())
    }

    fn resolve_if(&mut self, i: &crate::interpreter::ast::stmt::If) -> (r: Result<(), ParserError>)
        ensures
            match resolve_stmt(old(self)@, stmt_view(Stmt::If(*i))) {
                Ok(st) => r is Ok && final(self)@ == st,
                Err(err) => r is Err && r->Err_0@ == err,
            },
        decreases i, 0int,
    {
        match self.resolve_expr(&i.cond) {
            Ok(()) => {},
            Err(error) => {
                return Err(error);
            },
        }
        match self.resolve_stmt(&i.then_stmt) {
            Ok(()) => {},
            Err(error) => {
                return Err(error);
            },
        }
        if let Some(else_stmt) = &i.else_stmt {
            return self.resolve_stmt(else_stmt);
        }
        Ok(())
    }

    fn resolve_return(&mut self, r: &crate::interpreter::ast::stmt::Return) -> (out: Result<
        (),
        ParserError,
    >)
        ensures
            match resolve_stmt(old(self)@, stmt_view(Stmt::Return(*r))) {
                Ok(st) => out is Ok && final(self)@ == st,
                Err(err) => out is Err && out->Err_0@ == err,
            },
        decreases r, 0int,
    {
        if self.current_function == FunctionType::Outside {
            return Err(
                ParserError::new(r.token.clone(), ParserErrorType::CantReturnFromTopLevelCode),
            );
        }
        if let Some(expr) = &r.expr {
            if self.current_function == FunctionType::Initializer {
                return Err(
                    ParserError::new(r.token.clone(), ParserErrorType::CantReturnFromInitializer),
                );
            }
            return self.resolve_expr(expr);
        }
        Ok(())
    }

    fn resolve_class(&mut self, c: &crate::interpreter::ast::stmt::Class) -> (r: Result<
        (),
        ParserError,
    >)
        ensures
            match resolve_class(
                old(self)@,
                c.name@,
                funs_view(c.methods),
                match c.super_class {
                    Some(variable) => Some(
                        crate::interpreter::ast::view::ExprView::Variable {
                            id: variable.id,
                            token: variable.token@,
                        },
                    ),
                    None => None,
                },
            ) {
                Ok(st) => r is Ok && final(self)@ == st,
                Err(err) => r is Err && r->Err_0@ == err,
            },
        decreases c.methods, 2int,
    {
        let enclosing = self.current_class;
        self.declare(&c.name);
        self.define(&c.name);
        match &c.super_class {
            Some(super_class) => {
                if super_class.token.lexeme == c.name.lexeme {
                    return Err(
                        ParserError::new(
                            super_class.token.clone(),
                            ParserErrorType::CantInheritItSelf,
                        ),
                    );
                }
                self.current_class = ClassType::SubClass;
                match self.resolve_variable(super_class.id, &super_class.token) {
                    Ok(()) => {},
                    Err(error) => {
                        return Err(error);
                    },
                }
                self.begin_scope();
                self.bind_name(String::from_str("super"), true);
            },
            None => {
                self.current_class = ClassType::Class;
            },
        }
        self.begin_scope();
        self.bind_name(String::from_str("self"), true);
        match self.resolve_methods(&c.methods) {
            Ok(()) => {},
            Err(error) => {
                return Err(error);
            },
        }
        self.end_scope();
        if c.super_class.is_some() {
            self.end_scope();
        }
        self.current_class = enclosing;
        assert(self@.scopes =~= resolve_class(
            old(self)@,
            c.name@,
            funs_view(c.methods),
            match c.super_class {
                Some(variable) => Some(
                    crate::interpreter::ast::view::ExprView::Variable {
                        id: variable.id,
                        token: variable.token@,
                    },
                ),
                None => None,
            },
        )->Ok_0.scopes);
        Ok(())
    }

    fn resolve_methods(&mut self, methods: &Vec<Rc<Fun>>) -> (r: Result<(), ParserError>)
        ensures
            match resolve_methods(old(self)@, funs_view(*methods), 0) {
                Ok(st) => r is Ok && final(self)@ == st,
                Err(err) => r is Err && r->Err_0@ == err,
            },
        decreases methods, 1int,
    {
        let mut i: usize = 0;
        while i < methods.len()
            invariant
                i <= methods.len(),
                resolve_methods(old(self)@, funs_view(*methods), 0) == resolve_methods(
                    self@,
                    funs_view(*methods),
                    i as int,
                ),
            decreases methods.len() - i,
        {
            let method = &methods[i];
            let init = String::from_str("init");
            let ty = if method.name.lexeme == init {
                FunctionType::Initializer
            } else {
                FunctionType::Method
            };
            self.resolve_function(method, ty)?;
            i += 1;
        }
        Ok(())
    }

    fn resolve_expr(&mut self, expr: &Expr) -> (r: Result<(), ParserError>)
        ensures
            match resolve_expr(old(self)@, expr_view(*expr)) {
                Ok(st) => r is Ok && final(self)@ == st,
                Err(err) => r is Err && r->Err_0@ == err,
            },
        decreases expr, 0int,
    {
        match expr {
            Expr::Literal(_) => Ok(()),
            Expr::Grouping(g) => self.resolve_expr(&g.expression),
            Expr::Unary(u) => self.resolve_expr(&u.right),
            Expr::Binary(b) => {
                self.resolve_expr(&b.left)?;
                self.resolve_expr(&b.right)
            },
            Expr::Logical(l) => {
                self.resolve_expr(&l.left)?;
                self.resolve_expr(&l.right)
            },
            Expr::Variable(v) => self.resolve_variable(v.id, &v.token),
            Expr::Assign(a) => {
                self.resolve_expr(&a.value)?;
                self.resolve_local(a.id, &a.token.lexeme);
                Ok(())
            },
            Expr::Call(c) => {
                self.resolve_expr(&c.callable)?;
                self.resolve_exprs(&c.args)
            },
            Expr::Get(g) => self.resolve_expr(&g.object),
            Expr::SetExpr(s) => {
                self.resolve_expr(&s.obj)?;
                self.resolve_expr(&s.value)
            },
            Expr::SelfExpr(s) => {
                if self.current_class == ClassType::Outside {
                    return Err(
                        ParserError::new(s.name.clone(), ParserErrorType::CantUseSelfOutsideClass),
                    );
                }
                self.resolve_local(s.id, &s.name.lexeme);
                Ok(())
            },
            Expr::Super(s) => {
                if self.current_class == ClassType::Outside {
                    return Err(
                        ParserError::new(
                            s.keyword.clone(),
                            ParserErrorType::CantUseSuperOutsideOfClass,
                        ),
                    );
                } else if self.current_class != ClassType::SubClass {
                    return Err(
                        ParserError::new(
                            s.keyword.clone(),
                            ParserErrorType::CantUseSuperInClassWithoutSuperClasses,
                        ),
                    );
                }
                self.resolve_local(s.id, &s.keyword.lexeme);
                Ok(())
            },
            Expr::List(l) => self.resolve_exprs(&l.values),
        }
    }

    fn resolve_exprs(&mut self, exprs: &Vec<Expr>) -> (r: Result<(), ParserError>)
        ensures
            match resolve_exprs(old(self)@, exprs_view(*exprs), 0) {
                Ok(st) => r is Ok && final(self)@ == st,
                Err(err) => r is Err && r->Err_0@ == err,
            },
        decreases exprs, 1int,
    {
        let mut i: usize = 0;
        while i < exprs.len()
            invariant
                i <= exprs.len(),
                resolve_exprs(old(self)@, exprs_view(*exprs), 0) == resolve_exprs(
                    self@,
                    exprs_view(*exprs),
                    i as int,
                ),
            decreases exprs.len() - i,
        {
            self.resolve_expr(&exprs[i])?;
            i += 1;
        }
        Ok(())
    }

    /// A read of the variable `name` by the node `id`.
    fn resolve_variable(&mut self, id: u64, name: &Token) -> (r: Result<(), ParserError>)
        ensures
            match resolve_variable(old(self)@, id, name@) {
                Ok(st) => r is Ok && final(self)@ == st,
                Err(err) => r is Err && r->Err_0@ == err,
            },
    {
        if self.stack.len() > 0 {
            let last = self.stack.len() - 1;
            assert(stack_view(self.stack@).last() == scope_view(self.stack@[last as int]@));
            if let Some(defined) = lookup(&self.stack[last], &name.lexeme) {
                if !defined {
                    return Err(
                        ParserError::new(
                            name.clone(),
                            ParserErrorType::CantReadLocalVariableInItsOwnInit,
                        ),
                    );
                }
            }
        }
        self.resolve_local(id, &name.lexeme);
        Ok(())
    }

    fn begin_scope(&mut self)
        ensures
            final(self)@ == begin_scope(old(self)@),
    {
        self.stack.push(Vec::new());
        assert(self@.scopes =~= old(self)@.scopes.push(Map::empty()));
    }

    fn end_scope(&mut self)
        ensures
            final(self)@ == end_scope(old(self)@),
    {
        self.stack.pop();
        assert(self@.scopes =~= end_scope(old(self)@).scopes);
    }

    fn bind_name(&mut self, name: String, defined: bool)
        ensures
            final(self)@ == bind(old(self)@, name@, defined),
    {
        match self.stack.pop() {
            Some(scope) => {
                let mut scope = scope;
                let ghost before = scope@;
                scope.push(ScopeEntry { name, defined });
                assert(scope@.drop_last() =~= before);
                self.stack.push(scope);
                assert(self@.scopes =~= bind(old(self)@, name@, defined).scopes);
            },
            None => {
                assert(self@.scopes =~= old(self)@.scopes);
            },
        }
    }

    fn declare(&mut self, name: &Token)
        ensures
            final(self)@ == declare(old(self)@, name.lexeme@),
    {
        self.bind_name(name.lexeme.clone(), false);
    }

    fn define(&mut self, name: &Token)
        ensures
            final(self)@ == define(old(self)@, name.lexeme@),
    {
        self.bind_name(name.lexeme.clone(), true);
    }

    /// Records the depth of `name` for the node `id`, where a scope
    /// declares the name.
    pub fn resolve_local(&mut self, id: u64, name: &String)
        ensures
            final(self)@ == refer(old(self)@, id, name@),
    {
        let n = self.stack.len();
        let ghost scopes = stack_view(self.stack@);
        assert(scopes.take(n as int) =~= scopes);
        let mut k: usize = 0;
        while k < n
            invariant
                k <= n,
                n == self.stack.len(),
                *self == *old(self),
                scopes == stack_view(self.stack@),
                depth_of(scopes, name@) == match depth_of(scopes.take(n - k), name@) {
                    Some(d) => Some((d + k) as nat),
                    None => None::<nat>,
                },
            decreases n - k,
        {
            let ghost upper = scopes.take(n - k);
            assert(upper.last() == scope_view(self.stack@[n - k - 1]@));
            assert(upper.drop_last() =~= scopes.take(n - k - 1));
            if lookup(&self.stack[n - k - 1], name).is_some() {
                self.locals.insert(id, k);
                return ;
            }
            k += 1;
        }
        assert(scopes.take(0) =~= Seq::<Scope>::empty());
    }

    fn resolve_function(&mut self, func: &Fun, ty: FunctionType) -> (r: Result<(), ParserError>)
        ensures
            match resolve_function(old(self)@, fun_view(*func), ty) {
                Ok(st) => r is Ok && final(self)@ == st,
                Err(err) => r is Err && r->Err_0@ == err,
            },
        decreases func, 2int,
    {
        let enclosing_func = self.current_function;
        self.current_function = ty;
        self.begin_scope();
        let ghost opened = self@;
        let mut i: usize = 0;
        while i < func.params.len()
            invariant
                i <= func.params.len(),
                define_params(opened, token_views(func.params@), 0) == define_params(
                    self@,
                    token_views(func.params@),
                    i as int,
                ),
            decreases func.params.len() - i,
        {
            self.declare(&func.params[i]);
            self.define(&func.params[i]);
            i += 1;
        }
        self.resolve_all(&func.body)?;
        self.end_scope();
        self.current_function = enclosing_func;
        Ok(())
    }
}

} // verus!
