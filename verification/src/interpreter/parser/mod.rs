//! The parser: tokens to syntax tree, by recursive descent.
//!
//! Precedence, lowest first: assignment, `or`, `and`, equality,
//! comparison, term, factor, unary, call and property, primary.

pub mod error;
pub mod grammar;
pub mod numbering;
pub mod resolver;
pub mod scopes;

use std::rc::Rc;
use vstd::prelude::*;

use crate::interpreter::ast::expr::Assign;
use crate::interpreter::ast::expr::Binary;
use crate::interpreter::ast::expr::Call;
use crate::interpreter::ast::expr::Expr;
use crate::interpreter::ast::expr::Get;
use crate::interpreter::ast::expr::Grouping;
use crate::interpreter::ast::expr::List;
use crate::interpreter::ast::expr::Literal;
use crate::interpreter::ast::expr::Logical;
use crate::interpreter::ast::expr::SelfExpr;
use crate::interpreter::ast::expr::SetExpr;
use crate::interpreter::ast::expr::Super;
use crate::interpreter::ast::expr::Unary;
use crate::interpreter::ast::expr::Variable;
use crate::interpreter::ast::stmt::Block;
use crate::interpreter::ast::stmt::Class;
use crate::interpreter::ast::stmt::Export;
use crate::interpreter::ast::stmt::Fun;
use crate::interpreter::ast::stmt::If;
use crate::interpreter::ast::stmt::Let;
use crate::interpreter::ast::stmt::Print;
use crate::interpreter::ast::stmt::Return;
use crate::interpreter::ast::stmt::Stmt;
use crate::interpreter::ast::stmt::StmtExpr;
use crate::interpreter::ast::stmt::Use;
use crate::interpreter::ast::stmt::While;
use crate::interpreter::ast::view::expr_view;
use crate::interpreter::ast::view::exprs_view;
use crate::interpreter::ast::view::fun_view;
use crate::interpreter::ast::view::funs_view;
use crate::interpreter::ast::view::optional_expr_view;
use crate::interpreter::ast::view::stmt_view;
use crate::interpreter::ast::view::stmts_view;
use crate::interpreter::ast::view::ExprView;
use crate::interpreter::ast::view::FunView;
use crate::interpreter::ast::view::StmtView;
use crate::interpreter::error::InterpreterError;
use crate::interpreter::error::InterpreterErrorView;
use crate::interpreter::parser::error::ParserError;
use crate::interpreter::parser::error::ParserErrorView;
use crate::interpreter::parser::error::ParserErrorType;
use crate::interpreter::parser::grammar::Parsed;
use crate::interpreter::parser::grammar::MAX_ARGS;
use crate::interpreter::scanner::token::literal::Object;
use crate::interpreter::scanner::token::token_type::TokenType;
use crate::interpreter::scanner::token::token_views;
use crate::interpreter::scanner::token::Token;
use crate::interpreter::scanner::token::TokenView;
use crate::interpreter::text::push_text;
use crate::utils::IdAllocator;

verus! {

/// Builds the syntax tree of a token sequence.
pub struct Parser {
    tokens: Vec<Token>,
    current: usize,
    ids: IdAllocator,
}

/// The diagnostics of `errors`, one behind the other.
pub open spec fn joined_texts(errors: Seq<ParserErrorView>) -> Seq<char>
    decreases errors.len(),
{
    if errors.len() == 0 {
        Seq::<char>::empty()
    } else {
        joined_texts(errors.drop_last()) + errors.last().text()
    }
}

/// The views of a sequence of errors.
pub open spec fn error_views(errors: Seq<ParserError>) -> Seq<ParserErrorView> {
    errors.map_values(|e: ParserError| e@)
}

/// The result of a parse that found `statements` and met `errors`: the
/// statements where nothing went wrong, else every diagnostic in the
/// order in which the errors were met.
pub fn aggregate(statements: Vec<Stmt>, errors: &Vec<ParserError>) -> (r: Result<Vec<Stmt>, String>)
    ensures
        errors.len() == 0 ==> r == Ok::<Vec<Stmt>, String>(statements),
        errors.len() > 0 ==> r is Err && r->Err_0@ == joined_texts(error_views(errors@)),
{
    if errors.len() == 0 {
        return Ok(statements);
    }
    let mut out = String::new();
    let mut i: usize = 0;
    while i < errors.len()
        invariant
            i <= errors.len(),
            out@ == joined_texts(error_views(errors@).take(i as int)),
        decreases errors.len() - i,
    {
        let text = errors[i].to_string();
        push_text(&mut out, text.as_str());
        i += 1;
        assert(error_views(errors@).take(i as int).drop_last() =~= error_views(errors@).take(i - 1));
    }
    assert(error_views(errors@).take(i as int) =~= error_views(errors@));
    Err(out)
}

/// The view of the result of parsing an expression.
pub open spec fn expr_result(r: Result<Expr, ParserError>) -> Result<ExprView, ParserErrorView> {
    match r {
        Ok(e) => Ok(expr_view(e)),
        Err(error) => Err(error@),
    }
}

/// The view of the result of parsing a statement.
pub open spec fn stmt_result(r: Result<Stmt, ParserError>) -> Result<StmtView, ParserErrorView> {
    match r {
        Ok(s) => Ok(stmt_view(s)),
        Err(error) => Err(error@),
    }
}

/// The view of the result of parsing a function declaration.
pub open spec fn fun_result(r: Result<Fun, ParserError>) -> Result<FunView, ParserErrorView> {
    match r {
        Ok(f) => Ok(fun_view(f)),
        Err(error) => Err(error@),
    }
}

/// The view of the result of parsing expressions.
pub open spec fn exprs_result(r: Result<Vec<Expr>, ParserError>) -> Result<
    Seq<ExprView>,
    ParserErrorView,
> {
    match r {
        Ok(es) => Ok(exprs_view(es)),
        Err(error) => Err(error@),
    }
}

/// The view of the result of parsing statements.
pub open spec fn stmts_result(r: Result<Vec<Stmt>, ParserError>) -> Result<
    Seq<StmtView>,
    ParserErrorView,
> {
    match r {
        Ok(ss) => Ok(stmts_view(ss)),
        Err(error) => Err(error@),
    }
}

/// The view of the result of parsing an optional expression.
pub open spec fn optional_expr_result(r: Result<Option<Expr>, ParserError>) -> Result<
    Option<ExprView>,
    ParserErrorView,
> {
    match r {
        Ok(e) => Ok(optional_expr_view(e)),
        Err(error) => Err(error@),
    }
}

/// The view of the result of parsing an optional statement.
pub open spec fn optional_stmt_result(r: Result<Option<Stmt>, ParserError>) -> Result<
    Option<StmtView>,
    ParserErrorView,
> {
    match r {
        Ok(Some(s)) => Ok(Some(stmt_view(s))),
        Ok(None) => Ok(None),
        Err(error) => Err(error@),
    }
}

/// The view of the result of parsing a token.
pub open spec fn token_result(r: Result<Token, ParserError>) -> Result<TokenView, ParserErrorView> {
    match r {
        Ok(token) => Ok(token@),
        Err(error) => Err(error@),
    }
}

/// The view of the result of parsing tokens.
pub open spec fn tokens_result(r: Result<Vec<Token>, ParserError>) -> Result<
    Seq<TokenView>,
    ParserErrorView,
> {
    match r {
        Ok(tokens) => Ok(token_views(tokens@)),
        Err(error) => Err(error@),
    }
}

/// The block of two statements.
fn pair(first: Stmt, second: Stmt) -> (r: Stmt)
    ensures
        stmt_view(r) == (StmtView::Block { stmts: seq![stmt_view(first), stmt_view(second)] }),
{
    let mut stmts: Vec<Stmt> = Vec::new();
    stmts.push(first);
    stmts.push(second);
    assert(stmts_view(stmts) =~= seq![stmt_view(first), stmt_view(second)]);
    Stmt::Block(Block::new(stmts))
}

impl Parser {
    /// The tokens that are parsed.
    pub closed spec fn tokens(&self) -> Seq<Token> {
        self.tokens@
    }

    /// The tokens that are parsed, as mathematical objects.
    pub open spec fn views(&self) -> Seq<TokenView> {
        token_views(self.tokens())
    }

    /// The index of the token under the cursor.
    pub closed spec fn position(&self) -> int {
        self.current as int
    }

    /// The identifier that the next node gets.
    pub closed spec fn next_id(&self) -> u64 {
        self.ids.upcoming()
    }

    /// The token sequence ends with `Eof`, and the cursor stands on a
    /// token.
    pub open spec fn wf(&self) -> bool {
        &&& 0 <= self.position() < self.tokens().len()
        &&& self.tokens().last().token_type == TokenType::Eof
    }

    /// Whether the cursor stands on `Eof`.
    pub open spec fn at_end(&self) -> bool {
        grammar::at_end(self.views(), self.position())
    }

    /// Whether the cursor stands on a token of kind `ty` that is not `Eof`.
    pub open spec fn looks_at(&self, ty: TokenType) -> bool {
        grammar::looks_at(self.views(), self.position(), ty)
    }

    /// How many tokens stand at or behind the cursor.
    pub open spec fn remaining(&self) -> int {
        self.tokens().len() - self.position()
    }

    /// `self` is `before` with the cursor moved forward or left in place.
    pub open spec fn follows(&self, before: &Parser) -> bool {
        &&& self.wf()
        &&& self.tokens() == before.tokens()
        &&& before.position() <= self.position()
    }

    /// The parser after it has parsed a part with the result `result`.
    pub open spec fn yields<T>(&self, result: Result<T, ParserErrorView>) -> Parsed<T> {
        Parsed { result, pos: self.position(), id: self.next_id() }
    }

    /// A parser at the first of `tokens`, which numbers its nodes from
    /// `ids`.
    pub fn new(tokens: Vec<Token>, ids: IdAllocator) -> (r: Self)
        requires
            tokens.len() > 0,
            tokens@.last().token_type == TokenType::Eof,
        ensures
            r.wf(),
            r.tokens() == tokens@,
            r.position() == 0,
            r.next_id() == ids.upcoming(),
    {
        Self { tokens, current: 0, ids }
    }

    /// Gives back the allocator, moved past every node that was built.
    pub fn into_ids(self) -> (r: IdAllocator)
        ensures
            r.upcoming() == self.next_id(),
    {
        self.ids
    }

    /// Parses the input from the cursor to its end. After an error the
    /// parser skips to the next statement and goes on; the result is the
    /// program where no error was met, else the diagnostics of all of
    /// them, in order.
    pub fn parse(&mut self) -> (r: Result<Vec<Stmt>, InterpreterError>)
        requires
            old(self).wf(),
        ensures
            final(self).follows(old(self)),
            final(self).at_end(),
            ({
                let found = grammar::program(
                    old(self).views(),
                    old(self).position(),
                    old(self).next_id(),
                    Seq::empty(),
                    Seq::empty(),
                );
                &&& final(self).position() == found.pos
                &&& final(self).next_id() == found.id
                &&& if found.errors.len() == 0 {
                    r is Ok && stmts_view(r->Ok_0) == found.statements
                } else {
                    r is Err && r->Err_0@ == InterpreterErrorView::Custom(
                        joined_texts(found.errors),
                    )
                }
            }),
    {
        let mut statements: Vec<Stmt> = Vec::new();
        let mut error_stack: Vec<ParserError> = Vec::new();
        self.parse_all(&mut statements, &mut error_stack);
        match aggregate(statements, &error_stack) {
            Ok(program) => Ok(program),
            Err(text) => Err(InterpreterError::Custom(text)),
        }
    }

    /// Parses the input from the cursor to its end into `statements` and
    /// `errors`.
    #[verifier::rlimit(30)]
    fn parse_all(&mut self, statements: &mut Vec<Stmt>, errors: &mut Vec<ParserError>)
        requires
            old(self).wf(),
            old(statements).len() == 0,
            old(errors).len() == 0,
        ensures
            final(self).follows(old(self)),
            final(self).at_end(),
            grammar::program(
                old(self).views(),
                old(self).position(),
                old(self).next_id(),
                Seq::empty(),
                Seq::empty(),
            ) == (grammar::Program {
                statements: stmts_view(*final(statements)),
                errors: error_views(final(errors)@),
                pos: final(self).position(),
                id: final(self).next_id(),
            }),
    {
        assert(stmts_view(*statements) =~= Seq::<StmtView>::empty());
        assert(error_views(errors@) =~= Seq::<ParserErrorView>::empty());
        while !self.is_at_end()
            invariant
                self.follows(old(self)),
                grammar::program(
                    old(self).views(),
                    old(self).position(),
                    old(self).next_id(),
                    Seq::empty(),
                    Seq::empty(),
                ) == grammar::program(
                    self.views(),
                    self.position(),
                    self.next_id(),
                    stmts_view(*statements),
                    error_views(errors@),
                ),
            decreases grammar::left(self.views(), self.position()),
        {
            self.top_level(statements, errors);
        }
    }

    /// Parses one statement of the top level: it joins the statements, or
    /// its error joins the errors and the parser skips to the place where
    /// it goes on.
    fn top_level(&mut self, statements: &mut Vec<Stmt>, errors: &mut Vec<ParserError>)
        requires
            old(self).wf(),
            !old(self).at_end(),
        ensures
            final(self).follows(old(self)),
            final(self).position() > old(self).position() || final(self).at_end(),
            ({
                let one = grammar::export(
                    old(self).views(),
                    old(self).position(),
                    old(self).next_id(),
                );
                &&& final(self).next_id() == one.id
                &&& final(self).position() == grammar::resumed(
                    old(self).views(),
                    old(self).position(),
                    one,
                )
                &&& match one.result {
                    Ok(stmt) => stmts_view(*final(statements)) == stmts_view(
                        *old(statements),
                    ).push(stmt) && error_views(final(errors)@) == error_views(old(errors)@),
                    Err(error) => stmts_view(*final(statements)) == stmts_view(*old(statements))
                        && error_views(final(errors)@) == error_views(old(errors)@).push(error),
                }
            }),
    {
        let ghost done = stmts_view(*statements);
        let ghost met = error_views(errors@);
        match self.export() {
            Ok(stmt) => {
                statements.push(stmt);
                assert(stmts_view(*statements) =~= done.push(stmt_view(stmt)));
            },
            Err(err) => {
                errors.push(err);
                assert(error_views(errors@) =~= met.push(err@));
                self.synchronize();
            },
        }
    }

    fn export(&mut self) -> (r: Result<Stmt, ParserError>)
        requires
            old(self).wf(),
        ensures
            final(self).follows(old(self)),
            r is Ok ==> old(self).position() < final(self).position(),
            grammar::export(old(self).views(), old(self).position(), old(self).next_id())
                == final(self).yields(stmt_result(r)),
        decreases old(self).remaining(), 60int,
    {
        if self.take(TokenType::Use) {
            return self.import();
        }
        if self.take(TokenType::Export) {
            let keyword = self.previous();
            let stmt = match self.declaration() {
                Ok(stmt) => stmt,
                Err(error) => {
                    return Err(error);
                },
            };
            return Ok(Stmt::Export(Export::new(keyword, Box::new(stmt))));
        }
        self.declaration()
    }

    fn import(&mut self) -> (r: Result<Stmt, ParserError>)
        requires
            old(self).wf(),
            old(self).position() > 0,
        ensures
            final(self).follows(old(self)),
            r is Ok ==> old(self).position() < final(self).position(),
            grammar::import(
                old(self).views(),
                old(self).position(),
                old(self).next_id(),
                old(self).views()[old(self).position() - 1],
            ) == final(self).yields(stmt_result(r)),
        decreases old(self).remaining(), 70int,
    {
        let name = self.previous();
        let expr = match self.closed_expression(
            TokenType::Semicolon,
            ParserErrorType::ExpectedSemicolon,
        ) {
            Ok(expr) => expr,
            Err(error) => {
                return Err(error);
            },
        };
        Ok(Stmt::Use(Use::new(name, expr)))
    }

    fn declaration(&mut self) -> (r: Result<Stmt, ParserError>)
        requires
            old(self).wf(),
        ensures
            final(self).follows(old(self)),
            r is Ok ==> old(self).position() < final(self).position(),
            grammar::declaration(old(self).views(), old(self).position(), old(self).next_id())
                == final(self).yields(stmt_result(r)),
        decreases old(self).remaining(), 59int,
    {
        if self.take(TokenType::Let) {
            return self.let_declaration();
        }
        if self.take(TokenType::Fun) {
            return match self.fun_declaration() {
                Ok(fun) => Ok(Stmt::Fun(Rc::new(fun))),
                Err(error) => Err(error),
            };
        }
        if self.take(TokenType::Class) {
            return self.class_declaration();
        }
        self.statement()
    }

    #[verifier::rlimit(30)]
    fn class_declaration(&mut self) -> (r: Result<Stmt, ParserError>)
        requires
            old(self).wf(),
        ensures
            final(self).follows(old(self)),
            r is Ok ==> old(self).position() < final(self).position(),
            grammar::class_declaration(
                old(self).views(),
                old(self).position(),
                old(self).next_id(),
            ) == final(self).yields(stmt_result(r)),
        decreases old(self).remaining(), 74int,
    {
        let name = match self.consume(
            TokenType::Identifier,
            ParserErrorType::ExpectedIdentAfterClassDecl,
        ) {
            Ok(name) => name,
            Err(error) => {
                return Err(error);
            },
        };
        let mut super_class: Option<Variable> = None;
        if self.take(TokenType::Less) {
            let super_name = match self.consume(
                TokenType::Identifier,
                ParserErrorType::ExpectedSuperClassIdent,
            ) {
                Ok(name) => name,
                Err(error) => {
                    return Err(error);
                },
            };
            super_class = Some(Variable::new(&mut self.ids, super_name));
        }
        self.class_body(name, super_class)
    }

    /// The body of a class: `{ methods }`.
    #[verifier::rlimit(30)]
    #[verifier::loop_isolation(false)]
    fn class_body(&mut self, name: Token, super_class: Option<Variable>) -> (r: Result<
        Stmt,
        ParserError,
    >)
        requires
            old(self).wf(),
        ensures
            final(self).follows(old(self)),
            r is Ok ==> old(self).position() < final(self).position(),
            grammar::class_body(
                old(self).views(),
                old(self).position(),
                old(self).next_id(),
                name@,
                match super_class {
                    Some(variable) => Some(
                        ExprView::Variable { id: variable.id, token: variable.token@ },
                    ),
                    None => None,
                },
            ) == final(self).yields(stmt_result(r)),
        decreases old(self).remaining(), 73int,
    {
        match self.consume(TokenType::LeftBrace, ParserErrorType::ExpectedLeftBraceBeforeBody) {
            Ok(_) => {},
            Err(error) => {
                return Err(error);
            },
        }
        let ghost start = self.position();
        let ghost first_id = self.next_id();
        let mut methods: Vec<Rc<Fun>> = Vec::new();
        assert(funs_view(methods) =~= Seq::<FunView>::empty());
        while !self.check(TokenType::RightBrace) && !self.is_at_end()
            invariant
                self.follows(old(self)),
                old(self).position() < self.position(),
                start == old(self).position() + 1,
                grammar::methods(old(self).views(), start, first_id, Seq::empty())
                    == grammar::methods(
                    self.views(),
                    self.position(),
                    self.next_id(),
                    funs_view(methods),
                ),
            decreases self.remaining(),
        {
            let ghost done = funs_view(methods);
            let method = match self.fun_declaration() {
                Ok(method) => method,
                Err(error) => {
                    return Err(error);
                },
            };
            methods.push(Rc::new(method));
            assert(funs_view(methods) =~= done.push(fun_view(method)));
        }
        match self.consume(TokenType::RightBrace, ParserErrorType::ExpectedMatchingBrace) {
            Ok(_) => {},
            Err(error) => {
                return Err(error);
            },
        }
        Ok(Stmt::Class(Class::new(name, methods, super_class)))
    }

    /// The parameters of a function, behind its opening parenthesis.
    #[verifier::rlimit(30)]
    #[verifier::loop_isolation(false)]
    fn parameters(&mut self) -> (r: Result<Vec<Token>, ParserError>)
        requires
            old(self).wf(),
        ensures
            final(self).follows(old(self)),
            final(self).next_id() == old(self).next_id(),
            r is Ok ==> r->Ok_0.len() <= MAX_ARGS,
            grammar::parameters(old(self).views(), old(self).position(), old(self).next_id())
                == final(self).yields(tokens_result(r)),
    {
        let mut params: Vec<Token> = Vec::new();
        if self.check(TokenType::RightParen) {
            assert(token_views(params@) =~= Seq::<TokenView>::empty());
            return Ok(params);
        }
        let first = match self.consume(TokenType::Identifier, ParserErrorType::ExpectedParamName) {
            Ok(first) => first,
            Err(error) => {
                return Err(error);
            },
        };
        params.push(first);
        assert(token_views(params@) =~= seq![first@]);
        let ghost start = self.position();
        let ghost first_params = token_views(params@);
        loop
            invariant
                self.follows(old(self)),
                self.next_id() == old(self).next_id(),
                1 <= params.len() <= MAX_ARGS,
                grammar::more_params(old(self).views(), start, old(self).next_id(), first_params)
                    == grammar::more_params(
                    self.views(),
                    self.position(),
                    self.next_id(),
                    token_views(params@),
                ),
            decreases self.remaining(),
        {
            if !self.take(TokenType::Comma) {
                break ;
            }
            if params.len() >= MAX_ARGS {
                return Err(self.error(self.peek(), ParserErrorType::CountOfParamsGreaterThen255));
            }
            let param = match self.consume(
                TokenType::Identifier,
                ParserErrorType::ExpectedParamName,
            ) {
                Ok(param) => param,
                Err(error) => {
                    return Err(error);
                },
            };
            let ghost before = token_views(params@);
            params.push(param);
            assert(token_views(params@) =~= before.push(param@));
        }
        Ok(params)
    }

    #[verifier::rlimit(30)]
    fn fun_declaration(&mut self) -> (r: Result<Fun, ParserError>)
        requires
            old(self).wf(),
        ensures
            final(self).follows(old(self)),
            r is Ok ==> old(self).position() < final(self).position(),
            r is Ok ==> r->Ok_0.params.len() <= MAX_ARGS,
            grammar::fun_declaration(old(self).views(), old(self).position(), old(self).next_id())
                == final(self).yields(fun_result(r)),
        decreases old(self).remaining(), 71int,
    {
        let name = match self.consume(
            TokenType::Identifier,
            ParserErrorType::ExpectedIdentAfterFunDecl,
        ) {
            Ok(name) => name,
            Err(error) => {
                return Err(error);
            },
        };
        match self.consume(TokenType::LeftParen, ParserErrorType::ExpectedLeftParenAfterFunIdent) {
            Ok(_) => {},
            Err(error) => {
                return Err(error);
            },
        }
        let params = match self.parameters() {
            Ok(params) => params,
            Err(error) => {
                return Err(error);
            },
        };
        match self.consume(TokenType::RightParen, ParserErrorType::ExpectedRightParenAfterParams) {
            Ok(_) => {},
            Err(error) => {
                return Err(error);
            },
        }
        match self.consume(TokenType::LeftBrace, ParserErrorType::ExpectedLeftBraceBeforeBody) {
            Ok(_) => {},
            Err(error) => {
                return Err(error);
            },
        }
        let body = match self.block_statement() {
            Ok(body) => body,
            Err(error) => {
                return Err(error);
            },
        };
        Ok(Fun::new(&mut self.ids, name, params, body))
    }

    #[verifier::rlimit(30)]
    fn let_declaration(&mut self) -> (r: Result<Stmt, ParserError>)
        requires
            old(self).wf(),
        ensures
            final(self).follows(old(self)),
            r is Ok ==> old(self).position() < final(self).position(),
            grammar::let_declaration(old(self).views(), old(self).position(), old(self).next_id())
                == final(self).yields(stmt_result(r)),
        decreases old(self).remaining(), 70int,
    {
        let name = match self.consume(TokenType::Identifier, ParserErrorType::ExpectedVariableName) {
            Ok(name) => name,
            Err(error) => {
                return Err(error);
            },
        };
        if self.take(TokenType::Equal) {
            let initializer = match self.closed_expression(
                TokenType::Semicolon,
                ParserErrorType::ExpectedSemicolonAfterVarDecl,
            ) {
                Ok(expr) => expr,
                Err(error) => {
                    return Err(error);
                },
            };
            return Ok(Stmt::Let(Let::new(name, Some(initializer))));
        }
        match self.consume(TokenType::Semicolon, ParserErrorType::ExpectedSemicolonAfterVarDecl) {
            Ok(_) => {},
            Err(error) => {
                return Err(error);
            },
        }
        Ok(Stmt::Let(Let::new(name, None)))
    }

    fn statement(&mut self) -> (r: Result<Stmt, ParserError>)
        requires
            old(self).wf(),
        ensures
            final(self).follows(old(self)),
            r is Ok ==> old(self).position() < final(self).position(),
            grammar::statement(old(self).views(), old(self).position(), old(self).next_id())
                == final(self).yields(stmt_result(r)),
        decreases old(self).remaining(), 58int,
    {
        if self.take(TokenType::Print) {
            return self.print_statement();
        }
        if self.take(TokenType::LeftBrace) {
            return match self.block_statement() {
                Ok(stmts) => Ok(Stmt::Block(Block::new(stmts))),
                Err(error) => Err(error),
            };
        }
        if self.take(TokenType::If) {
            return self.if_statement();
        }
        if self.take(TokenType::While) {
            return self.while_statement();
        }
        if self.take(TokenType::For) {
            return self.for_statement();
        }
        if self.take(TokenType::Return) {
            return self.return_statement();
        }
        self.expr_statement()
    }

    fn return_statement(&mut self) -> (r: Result<Stmt, ParserError>)
        requires
            old(self).wf(),
            old(self).position() > 0,
        ensures
            final(self).follows(old(self)),
            r is Ok ==> old(self).position() < final(self).position(),
            grammar::return_statement(
                old(self).views(),
                old(self).position(),
                old(self).next_id(),
                old(self).views()[old(self).position() - 1],
            ) == final(self).yields(stmt_result(r)),
        decreases old(self).remaining(), 70int,
    {
        let token = self.previous();
        if self.take(TokenType::Semicolon) {
            return Ok(Stmt::Return(Return::new(token, None)));
        }
        let expr = match self.closed_expression(
            TokenType::Semicolon,
            ParserErrorType::ExpectedSemicolon,
        ) {
            Ok(expr) => expr,
            Err(error) => {
                return Err(error);
            },
        };
        Ok(Stmt::Return(Return::new(token, Some(expr))))
    }

    /// The initializer of a `for`, behind its opening parenthesis.
    fn for_initializer(&mut self) -> (r: Result<Option<Stmt>, ParserError>)
        requires
            old(self).wf(),
        ensures
            final(self).follows(old(self)),
            r is Ok ==> old(self).position() < final(self).position(),
            grammar::for_initializer(old(self).views(), old(self).position(), old(self).next_id())
                == final(self).yields(optional_stmt_result(r)),
        decreases old(self).remaining(), 57int,
    {
        if self.take(TokenType::Semicolon) {
            return Ok(None);
        }
        if self.take(TokenType::Let) {
            return match self.let_declaration() {
                Ok(stmt) => Ok(Some(stmt)),
                Err(error) => Err(error),
            };
        }
        match self.expr_statement() {
            Ok(stmt) => Ok(Some(stmt)),
            Err(error) => Err(error),
        }
    }

    /// An optional expression and the token of kind `close` behind it.
    fn optional_closed(&mut self, close: TokenType, error_ty: ParserErrorType) -> (r: Result<
        Option<Expr>,
        ParserError,
    >)
        requires
            old(self).wf(),
        ensures
            final(self).follows(old(self)),
            r is Ok ==> old(self).position() < final(self).position(),
            grammar::optional_closed(
                old(self).views(),
                old(self).position(),
                old(self).next_id(),
                close,
                error_ty,
            ) == final(self).yields(optional_expr_result(r)),
        decreases old(self).remaining(), 47int,
    {
        if self.take(close) {
            return Ok(None);
        }
        match self.closed_expression(close, error_ty) {
            Ok(expr) => Ok(Some(expr)),
            Err(error) => Err(error),
        }
    }

    /// `for (init; cond; step) body` becomes
    /// `{ init; while (cond) { body; step; } }`; a missing condition
    /// stands for `true`, a missing `init` or `step` for nothing.
    #[verifier::rlimit(30)]
    fn for_statement(&mut self) -> (r: Result<Stmt, ParserError>)
        requires
            old(self).wf(),
        ensures
            final(self).follows(old(self)),
            r is Ok ==> old(self).position() < final(self).position(),
            grammar::for_statement(old(self).views(), old(self).position(), old(self).next_id())
                == final(self).yields(stmt_result(r)),
        decreases old(self).remaining(), 70int,
    {
        match self.consume(TokenType::LeftParen, ParserErrorType::ExpectedLeftParenAfterFor) {
            Ok(_) => {},
            Err(error) => {
                return Err(error);
            },
        }
        let initializer = match self.for_initializer() {
            Ok(initializer) => initializer,
            Err(error) => {
                return Err(error);
            },
        };
        let condition = match self.optional_closed(
            TokenType::Semicolon,
            ParserErrorType::ExpectedSemicolon,
        ) {
            Ok(condition) => condition,
            Err(error) => {
                return Err(error);
            },
        };
        let increment = match self.optional_closed(
            TokenType::RightParen,
            ParserErrorType::ExpectedRightParenAfterForStatement,
        ) {
            Ok(increment) => increment,
            Err(error) => {
                return Err(error);
            },
        };
        let body = match self.statement() {
            Ok(body) => body,
            Err(error) => {
                return Err(error);
            },
        };
        Ok(self.desugar(initializer, condition, increment, body))
    }

    /// The loop that a `for` stands for.
    fn desugar(
        &mut self,
        initializer: Option<Stmt>,
        condition: Option<Expr>,
        increment: Option<Expr>,
        body: Stmt,
    ) -> (r: Stmt)
        ensures
            final(self).tokens() == old(self).tokens(),
            final(self).position() == old(self).position(),
            final(self).next_id() == if condition is None {
                crate::utils::following(old(self).next_id())
            } else {
                old(self).next_id()
            },
            stmt_view(r) == grammar::desugared(
                old(self).next_id(),
                match initializer {
                    Some(s) => Some(stmt_view(s)),
                    None => None,
                },
                optional_expr_view(condition),
                optional_expr_view(increment),
                stmt_view(body),
            ),
    {
        let stepped = match increment {
            Some(increment) => pair(body, Stmt::Expr(StmtExpr::new(increment))),
            None => body,
        };
        let condition = match condition {
            Some(condition) => condition,
            None => Expr::Literal(Literal::new(&mut self.ids, Some(Object::Bool(true)))),
        };
        let looped = Stmt::While(While::new(condition, Box::new(stepped)));
        match initializer {
            Some(initializer) => pair(initializer, looped),
            None => looped,
        }
    }

    #[verifier::rlimit(30)]
    fn while_statement(&mut self) -> (r: Result<Stmt, ParserError>)
        requires
            old(self).wf(),
        ensures
            final(self).follows(old(self)),
            r is Ok ==> old(self).position() < final(self).position(),
            grammar::while_statement(old(self).views(), old(self).position(), old(self).next_id())
                == final(self).yields(stmt_result(r)),
        decreases old(self).remaining(), 70int,
    {
        let condition = match self.expression_at() {
            Ok(condition) => condition,
            Err(error) => {
                return Err(error);
            },
        };
        let stmt = match self.statement() {
            Ok(stmt) => stmt,
            Err(error) => {
                return Err(error);
            },
        };
        Ok(Stmt::While(While::new(condition, Box::new(stmt))))
    }

    /// The `else` branch of an `if`, where it has one.
    fn else_branch(&mut self) -> (r: Result<Option<Stmt>, ParserError>)
        requires
            old(self).wf(),
        ensures
            final(self).follows(old(self)),
            grammar::else_branch(old(self).views(), old(self).position(), old(self).next_id())
                == final(self).yields(optional_stmt_result(r)),
        decreases old(self).remaining(), 69int,
    {
        if self.take(TokenType::Else) {
            return match self.statement() {
                Ok(stmt) => Ok(Some(stmt)),
                Err(error) => Err(error),
            };
        }
        Ok(None)
    }

    #[verifier::rlimit(30)]
    fn if_statement(&mut self) -> (r: Result<Stmt, ParserError>)
        requires
            old(self).wf(),
        ensures
            final(self).follows(old(self)),
            r is Ok ==> old(self).position() < final(self).position(),
            grammar::if_statement(old(self).views(), old(self).position(), old(self).next_id())
                == final(self).yields(stmt_result(r)),
        decreases old(self).remaining(), 70int,
    {
        let condition = match self.expression_at() {
            Ok(condition) => condition,
            Err(error) => {
                return Err(error);
            },
        };
        let then_branch = match self.statement() {
            Ok(stmt) => stmt,
            Err(error) => {
                return Err(error);
            },
        };
        let else_branch = match self.else_branch() {
            Ok(Some(stmt)) => Some(Box::new(stmt)),
            Ok(None) => None,
            Err(error) => {
                return Err(error);
            },
        };
        Ok(Stmt::If(If::new(condition, Box::new(then_branch), else_branch)))
    }

    /// The statements of a block whose opening brace lies before the
    /// cursor, and the closing brace.
    #[verifier::rlimit(30)]
    #[verifier::loop_isolation(false)]
    fn block_statement(&mut self) -> (r: Result<Vec<Stmt>, ParserError>)
        requires
            old(self).wf(),
        ensures
            final(self).follows(old(self)),
            r is Ok ==> old(self).position() < final(self).position(),
            grammar::block(
                old(self).views(),
                old(self).position(),
                old(self).next_id(),
                Seq::empty(),
            ) == final(self).yields(stmts_result(r)),
        decreases old(self).remaining(), 70int,
    {
        let mut statements: Vec<Stmt> = Vec::new();
        assert(stmts_view(statements) =~= Seq::<StmtView>::empty());
        while !self.check(TokenType::RightBrace) && !self.is_at_end()
            invariant
                self.follows(old(self)),
                grammar::block(
                    old(self).views(),
                    old(self).position(),
                    old(self).next_id(),
                    Seq::empty(),
                ) == grammar::block(
                    self.views(),
                    self.position(),
                    self.next_id(),
                    stmts_view(statements),
                ),
            decreases self.remaining(),
        {
            let ghost done = stmts_view(statements);
            let stmt = match self.declaration() {
                Ok(stmt) => stmt,
                Err(error) => {
                    return Err(error);
                },
            };
            statements.push(stmt);
            assert(stmts_view(statements) =~= done.push(stmt_view(stmt)));
        }
        match self.consume(TokenType::RightBrace, ParserErrorType::ExpectedMatchingBrace) {
            Ok(_) => {},
            Err(error) => {
                return Err(error);
            },
        }
        Ok(statements)
    }

    fn print_statement(&mut self) -> (r: Result<Stmt, ParserError>)
        requires
            old(self).wf(),
        ensures
            final(self).follows(old(self)),
            r is Ok ==> old(self).position() < final(self).position(),
            grammar::print_statement(old(self).views(), old(self).position(), old(self).next_id())
                == final(self).yields(stmt_result(r)),
        decreases old(self).remaining(), 70int,
    {
        match self.closed_expression(TokenType::Semicolon, ParserErrorType::ExpectedSemicolon) {
            Ok(value) => Ok(Stmt::Print(Print::new(value))),
            Err(error) => Err(error),
        }
    }

    fn expr_statement(&mut self) -> (r: Result<Stmt, ParserError>)
        requires
            old(self).wf(),
        ensures
            final(self).follows(old(self)),
            r is Ok ==> old(self).position() < final(self).position(),
            grammar::expr_statement(old(self).views(), old(self).position(), old(self).next_id())
                == final(self).yields(stmt_result(r)),
        decreases old(self).remaining(), 56int,
    {
        match self.closed_expression(TokenType::Semicolon, ParserErrorType::ExpectedSemicolon) {
            Ok(expr) => Ok(Stmt::Expr(StmtExpr::new(expr))),
            Err(error) => Err(error),
        }
    }

    /// An expression and the token of kind `close` behind it.
    fn closed_expression(&mut self, close: TokenType, error_ty: ParserErrorType) -> (r: Result<
        Expr,
        ParserError,
    >)
        requires
            old(self).wf(),
        ensures
            final(self).follows(old(self)),
            r is Ok ==> old(self).position() < final(self).position(),
            grammar::closed_expression(
                old(self).views(),
                old(self).position(),
                old(self).next_id(),
                close,
                error_ty,
            ) == final(self).yields(expr_result(r)),
        decreases old(self).remaining(), 46int,
    {
        let expr = match self.expression_at() {
            Ok(expr) => expr,
            Err(error) => {
                return Err(error);
            },
        };
        match self.consume(close, error_ty) {
            Ok(_) => Ok(expr),
            Err(error) => Err(error),
        }
    }

    /// Parses one expression at the cursor.
    pub fn expression(&mut self) -> (r: Result<Expr, InterpreterError>)
        requires
            old(self).wf(),
        ensures
            final(self).follows(old(self)),
            r is Ok ==> old(self).position() < final(self).position(),
            r is Err ==> r->Err_0 is ParserError,
            grammar::expression(old(self).views(), old(self).position(), old(self).next_id())
                == final(self).yields(
                match r {
                    Ok(e) => Ok(expr_view(e)),
                    Err(error) => Err(error->ParserError_0@),
                },
            ),
    {
        match self.expression_at() {
            Ok(expr) => Ok(expr),
            Err(error) => Err(InterpreterError::ParserError(error)),
        }
    }

    /// Parses one expression at the cursor.
    fn expression_at(&mut self) -> (r: Result<Expr, ParserError>)
        requires
            old(self).wf(),
        ensures
            final(self).follows(old(self)),
            r is Ok ==> old(self).position() < final(self).position(),
            grammar::expression(old(self).views(), old(self).position(), old(self).next_id())
                == final(self).yields(expr_result(r)),
        decreases old(self).remaining(), 45int,
    {
        self.assignment()
    }

    #[verifier::rlimit(30)]
    fn assignment(&mut self) -> (r: Result<Expr, ParserError>)
        requires
            old(self).wf(),
        ensures
            final(self).follows(old(self)),
            r is Ok ==> old(self).position() < final(self).position(),
            grammar::assignment(old(self).views(), old(self).position(), old(self).next_id())
                == final(self).yields(expr_result(r)),
        decreases old(self).remaining(), 44int,
    {
        let expr = match self.logic_or() {
            Ok(expr) => expr,
            Err(error) => {
                return Err(error);
            },
        };
        if self.take(TokenType::Equal) {
            let token = self.previous();
            let value = match self.expression_at() {
                Ok(value) => value,
                Err(error) => {
                    return Err(error);
                },
            };
            return match expr {
                Expr::Variable(variable) => Ok(
                    Expr::Assign(Assign::new(&mut self.ids, variable.token, Box::new(value))),
                ),
                Expr::Get(get) => Ok(
                    Expr::SetExpr(SetExpr::new(&mut self.ids, get.name, get.object, Box::new(value))),
                ),
                _ => Err(ParserError::new(token, ParserErrorType::InvalidAssignmentTarget)),
            };
        }
        Ok(expr)
    }

    fn logic_or(&mut self) -> (r: Result<Expr, ParserError>)
        requires
            old(self).wf(),
        ensures
            final(self).follows(old(self)),
            r is Ok ==> old(self).position() < final(self).position(),
            grammar::binary(5, old(self).views(), old(self).position(), old(self).next_id())
                == final(self).yields(expr_result(r)),
        decreases old(self).remaining(), 32int,
    {
        self.binary(5)
    }

    fn logic_and(&mut self) -> (r: Result<Expr, ParserError>)
        requires
            old(self).wf(),
        ensures
            final(self).follows(old(self)),
            r is Ok ==> old(self).position() < final(self).position(),
            grammar::binary(4, old(self).views(), old(self).position(), old(self).next_id())
                == final(self).yields(expr_result(r)),
        decreases old(self).remaining(), 28int,
    {
        self.binary(4)
    }

    fn equality(&mut self) -> (r: Result<Expr, ParserError>)
        requires
            old(self).wf(),
        ensures
            final(self).follows(old(self)),
            r is Ok ==> old(self).position() < final(self).position(),
            grammar::binary(3, old(self).views(), old(self).position(), old(self).next_id())
                == final(self).yields(expr_result(r)),
        decreases old(self).remaining(), 24int,
    {
        self.binary(3)
    }

    fn comparison(&mut self) -> (r: Result<Expr, ParserError>)
        requires
            old(self).wf(),
        ensures
            final(self).follows(old(self)),
            r is Ok ==> old(self).position() < final(self).position(),
            grammar::binary(2, old(self).views(), old(self).position(), old(self).next_id())
                == final(self).yields(expr_result(r)),
        decreases old(self).remaining(), 20int,
    {
        self.binary(2)
    }

    fn term(&mut self) -> (r: Result<Expr, ParserError>)
        requires
            old(self).wf(),
        ensures
            final(self).follows(old(self)),
            r is Ok ==> old(self).position() < final(self).position(),
            grammar::binary(1, old(self).views(), old(self).position(), old(self).next_id())
                == final(self).yields(expr_result(r)),
        decreases old(self).remaining(), 16int,
    {
        self.binary(1)
    }

    fn factor(&mut self) -> (r: Result<Expr, ParserError>)
        requires
            old(self).wf(),
        ensures
            final(self).follows(old(self)),
            r is Ok ==> old(self).position() < final(self).position(),
            grammar::binary(0, old(self).views(), old(self).position(), old(self).next_id())
                == final(self).yields(expr_result(r)),
        decreases old(self).remaining(), 12int,
    {
        self.binary(0)
    }

    /// The operand of the binary level `level`.
    fn operand(&mut self, level: u8) -> (r: Result<Expr, ParserError>)
        requires
            old(self).wf(),
            level <= 5,
        ensures
            final(self).follows(old(self)),
            r is Ok ==> old(self).position() < final(self).position(),
            grammar::operand(
                level as nat,
                old(self).views(),
                old(self).position(),
                old(self).next_id(),
            ) == final(self).yields(expr_result(r)),
        decreases old(self).remaining(), 10 + 4 * level,
    {
        if level == 0 {
            self.unary()
        } else if level == 1 {
            self.factor()
        } else if level == 2 {
            self.term()
        } else if level == 3 {
            self.comparison()
        } else if level == 4 {
            self.equality()
        } else {
            self.logic_and()
        }
    }

    /// An expression of the binary level `level`: operands joined from
    /// the left by the operators of the level.
    #[verifier::rlimit(30)]
    #[verifier::loop_isolation(false)]
    fn binary(&mut self, level: u8) -> (r: Result<Expr, ParserError>)
        requires
            old(self).wf(),
            level <= 5,
        ensures
            final(self).follows(old(self)),
            r is Ok ==> old(self).position() < final(self).position(),
            grammar::binary(
                level as nat,
                old(self).views(),
                old(self).position(),
                old(self).next_id(),
            ) == final(self).yields(expr_result(r)),
        decreases old(self).remaining(), 11 + 4 * level,
    {
        let mut expr = match self.operand(level) {
            Ok(expr) => expr,
            Err(error) => {
                return Err(error);
            },
        };
        let ghost start = self.position();
        let ghost first_id = self.next_id();
        let ghost first = expr_view(expr);
        while self.check_operator(level)
            invariant
                self.follows(old(self)),
                old(self).position() < self.position(),
                level <= 5,
                grammar::binary_rest(level as nat, old(self).views(), start, first_id, first)
                    == grammar::binary_rest(
                    level as nat,
                    self.views(),
                    self.position(),
                    self.next_id(),
                    expr_view(expr),
                ),
            decreases self.remaining(),
        {
            let token = self.advance();
            let right = match self.operand(level) {
                Ok(right) => right,
                Err(error) => {
                    return Err(error);
                },
            };
            expr = if level <= 3 {
                Expr::Binary(Binary::new(&mut self.ids, Box::new(expr), token, Box::new(right)))
            } else {
                Expr::Logical(Logical::new(&mut self.ids, Box::new(expr), token, Box::new(right)))
            };
        }
        Ok(expr)
    }

    /// Whether the cursor stands on an operator of the binary level
    /// `level`.
    fn check_operator(&self, level: u8) -> (r: bool)
        requires
            self.wf(),
        ensures
            r == (!self.at_end() && grammar::level_operator(
                level as nat,
                self.views()[self.position()].token_type,
            )),
    {
        if self.is_at_end() {
            return false;
        }
        let ty = self.tokens[self.current].token_type;
        if level == 0 {
            ty == TokenType::Star || ty == TokenType::Slash
        } else if level == 1 {
            ty == TokenType::Minus || ty == TokenType::Plus
        } else if level == 2 {
            ty == TokenType::Greater || ty == TokenType::GreaterEqual || ty == TokenType::Less
                || ty == TokenType::LessEqual
        } else if level == 3 {
            ty == TokenType::BangEqual || ty == TokenType::EqualEqual
        } else if level == 4 {
            ty == TokenType::And
        } else {
            ty == TokenType::Or
        }
    }

    fn unary(&mut self) -> (r: Result<Expr, ParserError>)
        requires
            old(self).wf(),
        ensures
            final(self).follows(old(self)),
            r is Ok ==> old(self).position() < final(self).position(),
            grammar::unary(old(self).views(), old(self).position(), old(self).next_id())
                == final(self).yields(expr_result(r)),
        decreases old(self).remaining(), 9int,
    {
        if self._match(vec![TokenType::Bang, TokenType::Minus]) {
            let token = self.previous();
            let right = match self.unary() {
                Ok(right) => right,
                Err(error) => {
                    return Err(error);
                },
            };
            return Ok(Expr::Unary(Unary::new(&mut self.ids, token, Box::new(right))));
        }
        self.call()
    }

    fn call(&mut self) -> (r: Result<Expr, ParserError>)
        requires
            old(self).wf(),
        ensures
            final(self).follows(old(self)),
            r is Ok ==> old(self).position() < final(self).position(),
            grammar::call(old(self).views(), old(self).position(), old(self).next_id())
                == final(self).yields(expr_result(r)),
        decreases old(self).remaining(), 8int,
    {
        let mut expr = match self.primary() {
            Ok(expr) => expr,
            Err(error) => {
                return Err(error);
            },
        };
        self.call_rest(expr)
    }

    /// The calls and property reads behind the expression `expr`.
    #[verifier::rlimit(30)]
    fn call_rest(&mut self, expr: Expr) -> (r: Result<Expr, ParserError>)
        requires
            old(self).wf(),
        ensures
            final(self).follows(old(self)),
            grammar::call_rest(
                old(self).views(),
                old(self).position(),
                old(self).next_id(),
                expr_view(expr),
            ) == final(self).yields(expr_result(r)),
        decreases old(self).remaining(), 85int,
    {
        if self.take(TokenType::LeftParen) {
            let called = match self.finish_call(expr) {
                Ok(called) => called,
                Err(error) => {
                    return Err(error);
                },
            };
            self.call_rest(called)
        } else if self.take(TokenType::Dot) {
            let name = match self.consume(
                TokenType::Identifier,
                ParserErrorType::ExpectedPropertyAfterDot,
            ) {
                Ok(name) => name,
                Err(error) => {
                    return Err(error);
                },
            };
            let read = Expr::Get(Get::new(&mut self.ids, name, Box::new(expr)));
            self.call_rest(read)
        } else {
            Ok(expr)
        }
    }

    /// The expressions between an opening bracket, which lies before the
    /// cursor, and a token of kind `close`.
    #[verifier::rlimit(30)]
    #[verifier::loop_isolation(false)]
    fn sequence(&mut self, close: TokenType) -> (r: Result<Vec<Expr>, ParserError>)
        requires
            old(self).wf(),
        ensures
            final(self).follows(old(self)),
            grammar::sequence(old(self).views(), old(self).position(), old(self).next_id(), close)
                == final(self).yields(exprs_result(r)),
        decreases old(self).remaining(), 81int,
    {
        let mut items: Vec<Expr> = Vec::new();
        if self.check(close) {
            assert(exprs_view(items) =~= Seq::<ExprView>::empty());
            return Ok(items);
        }
        let first = match self.expression_at() {
            Ok(first) => first,
            Err(error) => {
                return Err(error);
            },
        };
        items.push(first);
        assert(exprs_view(items) =~= seq![expr_view(first)]);
        let ghost start = self.position();
        let ghost first_id = self.next_id();
        let ghost first_items = exprs_view(items);
        while self.take(TokenType::Comma)
            invariant
                self.follows(old(self)),
                grammar::more(old(self).views(), start, first_id, first_items) == grammar::more(
                    self.views(),
                    self.position(),
                    self.next_id(),
                    exprs_view(items),
                ),
            decreases self.remaining(),
        {
            let ghost done = exprs_view(items);
            let item = match self.expression_at() {
                Ok(item) => item,
                Err(error) => {
                    return Err(error);
                },
            };
            items.push(item);
            assert(exprs_view(items) =~= done.push(expr_view(item)));
        }
        Ok(items)
    }

    #[verifier::rlimit(30)]
    fn finish_call(&mut self, expr: Expr) -> (r: Result<Expr, ParserError>)
        requires
            old(self).wf(),
        ensures
            final(self).follows(old(self)),
            r is Ok ==> old(self).position() < final(self).position(),
            grammar::finish_call(
                old(self).views(),
                old(self).position(),
                old(self).next_id(),
                expr_view(expr),
            ) == final(self).yields(expr_result(r)),
        decreases old(self).remaining(), 82int,
    {
        let arguments = match self.sequence(TokenType::RightParen) {
            Ok(arguments) => arguments,
            Err(error) => {
                return Err(error);
            },
        };
        let paren = match self.consume(
            TokenType::RightParen,
            ParserErrorType::ExpectedRightParenAfterArguments,
        ) {
            Ok(paren) => paren,
            Err(error) => {
                return Err(error);
            },
        };
        if arguments.len() > MAX_ARGS {
            return Err(ParserError::new(paren, ParserErrorType::CountOfArgsGreaterThen255));
        }
        Ok(Expr::Call(Call::new(&mut self.ids, Box::new(expr), paren, arguments)))
    }

    #[verifier::rlimit(30)]
    fn primary(&mut self) -> (r: Result<Expr, ParserError>)
        requires
            old(self).wf(),
        ensures
            final(self).follows(old(self)),
            r is Ok ==> old(self).position() < final(self).position(),
            grammar::primary(old(self).views(), old(self).position(), old(self).next_id())
                == final(self).yields(expr_result(r)),
        decreases old(self).remaining(), 7int,
    {
        if self.take(TokenType::False) {
            return Ok(Expr::Literal(Literal::new(&mut self.ids, Some(Object::Bool(false)))));
        }
        if self.take(TokenType::True) {
            return Ok(Expr::Literal(Literal::new(&mut self.ids, Some(Object::Bool(true)))));
        }
        if self.take(TokenType::Nil) {
            return Ok(Expr::Literal(Literal::new(&mut self.ids, Some(Object::Nil))));
        }
        if self._match(vec![TokenType::Number, TokenType::String]) {
            let literal = self.previous().get_lit();
            return Ok(Expr::Literal(Literal::new(&mut self.ids, literal)));
        }
        if self.take(TokenType::Identifier) {
            let name = self.previous();
            return Ok(Expr::Variable(Variable::new(&mut self.ids, name)));
        }
        if self.take(TokenType::LeftParen) {
            return self.grouping();
        }
        if self.take(TokenType::Slf) {
            let name = self.previous();
            return Ok(Expr::SelfExpr(SelfExpr::new(&mut self.ids, name)));
        }
        if self.take(TokenType::Super) {
            return self.super_expression();
        }
        if self.take(TokenType::LeftBracket) {
            return self.list();
        }
        Err(self.error(self.peek(), ParserErrorType::ExpectedExpression))
    }

    /// The rest of an expression between parentheses, behind the opening
    /// one.
    fn grouping(&mut self) -> (r: Result<Expr, ParserError>)
        requires
            old(self).wf(),
        ensures
            final(self).follows(old(self)),
            r is Ok ==> old(self).position() < final(self).position(),
            grammar::grouping(old(self).views(), old(self).position(), old(self).next_id())
                == final(self).yields(expr_result(r)),
        decreases old(self).remaining(), 84int,
    {
        match self.closed_expression(
            TokenType::RightParen,
            ParserErrorType::ExpectedMatchingParens,
        ) {
            Ok(expr) => Ok(Expr::Grouping(Grouping::new(&mut self.ids, Box::new(expr)))),
            Err(error) => Err(error),
        }
    }

    /// The rest of `super . name` behind the keyword.
    fn super_expression(&mut self) -> (r: Result<Expr, ParserError>)
        requires
            old(self).wf(),
            old(self).position() > 0,
        ensures
            final(self).follows(old(self)),
            r is Ok ==> old(self).position() < final(self).position(),
            grammar::super_expression(
                old(self).views(),
                old(self).position(),
                old(self).next_id(),
                old(self).views()[old(self).position() - 1],
            ) == final(self).yields(expr_result(r)),
    {
        let keyword = self.previous();
        match self.consume(TokenType::Dot, ParserErrorType::ExpectedDotAfterSuper) {
            Ok(_) => {},
            Err(error) => {
                return Err(error);
            },
        }
        let method = match self.consume(
            TokenType::Identifier,
            ParserErrorType::ExpectedMethodAfterDot,
        ) {
            Ok(method) => method,
            Err(error) => {
                return Err(error);
            },
        };
        Ok(Expr::Super(Super::new(&mut self.ids, keyword, method)))
    }

    /// The rest of a list behind its opening bracket.
    fn list(&mut self) -> (r: Result<Expr, ParserError>)
        requires
            old(self).wf(),
        ensures
            final(self).follows(old(self)),
            r is Ok ==> old(self).position() < final(self).position(),
            grammar::list(old(self).views(), old(self).position(), old(self).next_id())
                == final(self).yields(expr_result(r)),
        decreases old(self).remaining(), 83int,
    {
        let values = match self.sequence(TokenType::RightBracket) {
            Ok(values) => values,
            Err(error) => {
                return Err(error);
            },
        };
        match self.consume(TokenType::RightBracket, ParserErrorType::ExpectedRightBracket) {
            Ok(_) => {},
            Err(error) => {
                return Err(error);
            },
        }
        Ok(Expr::List(List::new(&mut self.ids, values)))
    }

    /// Consumes the token under the cursor if its kind is `ty`.
    fn take(&mut self, ty: TokenType) -> (r: bool)
        requires
            old(self).wf(),
        ensures
            final(self).follows(old(self)),
            final(self).next_id() == old(self).next_id(),
            r == old(self).looks_at(ty),
            final(self).position() == old(self).position() + if r {
                1int
            } else {
                0int
            },
    {
        if self.check(ty) {
            self.advance();
            return true;
        }
        false
    }

    /// Consumes the token under the cursor if its kind is one of `types`.
    fn _match(&mut self, types: Vec<TokenType>) -> (r: bool)
        requires
            old(self).wf(),
        ensures
            final(self).follows(old(self)),
            final(self).next_id() == old(self).next_id(),
            r == exists|i: int| 0 <= i < types.len() && old(self).looks_at(#[trigger] types[i]),
            types.len() == 2 ==> r == (old(self).looks_at(types[0]) || old(self).looks_at(
                types[1],
            )),
            final(self).position() == old(self).position() + if r {
                1int
            } else {
                0int
            },
    {
        let mut i: usize = 0;
        while i < types.len()
            invariant
                self.wf(),
                *self == *old(self),
                i <= types.len(),
                forall|k: int| 0 <= k < i ==> !self.looks_at(#[trigger] types[k]),
            decreases types.len() - i,
        {
            if self.check(types[i]) {
                self.advance();
                return true;
            }
            i += 1;
        }
        assert(types.len() == 2 ==> !self.looks_at(types[0]) && !self.looks_at(types[1]));
        false
    }

    /// Consumes a token of kind `ty`, or fails with `error_ty` at the
    /// token under the cursor.
    fn consume(&mut self, ty: TokenType, error_ty: ParserErrorType) -> (r: Result<
        Token,
        ParserError,
    >)
        requires
            old(self).wf(),
        ensures
            final(self).follows(old(self)),
            final(self).next_id() == old(self).next_id(),
            r is Ok ==> old(self).position() < final(self).position(),
            grammar::consume(
                old(self).views(),
                old(self).position(),
                old(self).next_id(),
                ty,
                error_ty,
            ) == final(self).yields(token_result(r)),
    {
        if self.check(ty) {
            return Ok(self.advance());
        }
        Err(self.error(self.peek(), error_ty))
    }

    /// Whether the cursor stands on a token of kind `ty` before the end.
    fn check(&self, ty: TokenType) -> (r: bool)
        requires
            self.wf(),
        ensures
            r == self.looks_at(ty),
    {
        if self.is_at_end() {
            return false;
        }
        self.tokens[self.current].token_type == ty
    }

    /// Moves the cursor over one token, unless it stands on `Eof`, and
    /// returns the token before the cursor.
    fn advance(&mut self) -> (r: Token)
        requires
            old(self).wf(),
            !old(self).at_end() || old(self).position() > 0,
        ensures
            final(self).follows(old(self)),
            final(self).next_id() == old(self).next_id(),
            final(self).position() == old(self).position() + if old(self).at_end() {
                0int
            } else {
                1int
            },
            r == final(self).tokens()[final(self).position() - 1],
    {
        if !self.is_at_end() {
            assert(self.current < self.tokens.len());
            self.current += 1;
        }
        self.previous()
    }

    /// The token under the cursor.
    fn peek(&self) -> (r: Token)
        requires
            self.wf(),
        ensures
            r == self.tokens()[self.position()],
    {
        self.tokens[self.current].clone()
    }

    /// The token before the cursor.
    fn previous(&self) -> (r: Token)
        requires
            self.wf(),
            self.position() > 0,
        ensures
            r == self.tokens()[self.position() - 1],
    {
        self.tokens[self.current - 1].clone()
    }

    /// Whether the cursor stands on `Eof`.
    fn is_at_end(&self) -> (r: bool)
        requires
            self.wf(),
        ensures
            r == self.at_end(),
    {
        self.tokens[self.current].token_type == TokenType::Eof
    }

    fn error(&self, token: Token, error_ty: ParserErrorType) -> (r: ParserError)
        ensures
            r == (ParserError { token, ty: error_ty }),
    {
        ParserError::new(token, error_ty)
    }

    /// Skips to the place where the parser goes on after an error: it
    /// passes the token under the cursor, then every token up to the next
    /// place behind a semicolon or before the start of a statement.
    #[verifier::loop_isolation(false)]
    fn synchronize(&mut self)
        requires
            old(self).wf(),
            !old(self).at_end() || old(self).position() > 0,
        ensures
            final(self).follows(old(self)),
            final(self).next_id() == old(self).next_id(),
            final(self).position() == grammar::synchronized(
                old(self).views(),
                old(self).position(),
            ),
    {
        self.advance();
        let ghost start = self.position();
        while !self.is_at_end()
            invariant
                self.follows(old(self)),
                self.next_id() == old(self).next_id(),
                self.position() > 0,
                start + grammar::skipped(self.views(), start) == self.position()
                    + grammar::skipped(self.views(), self.position()),
            decreases self.remaining(),
        {
            if self.tokens[self.current - 1].token_type == TokenType::Semicolon {
                return ;
            }
            let ty = self.tokens[self.current].token_type;
            if ty == TokenType::Class || ty == TokenType::Fun || ty == TokenType::Let || ty
                == TokenType::For || ty == TokenType::If || ty == TokenType::While || ty
                == TokenType::Print || ty == TokenType::Return {
                return ;
            }
            self.advance();
        }
    }
}

} // verus!
