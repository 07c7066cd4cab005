//! The module resolver: replaces every top-level `use "path";` by the
//! exported statements of the module at that path.
//!
//! The resolver reads no files. Whoever runs it hands it the text of
//! every module that the program may use, by the path that follows
//! `use`. A module is scanned and parsed anew at each place where it is
//! used, so each use gets nodes of its own. Of a module only the exports
//! are kept: a `use` at the top of a module is dropped like every other
//! statement of it that is not exported.

pub mod error;

use vstd::prelude::*;
use vstd::string::StringExecFns;

use crate::interpreter::ast::expr::Expr;
use crate::interpreter::ast::stmt::Stmt;
use crate::interpreter::ast::stmt::Use;
use crate::interpreter::ast::view::expr_view;
use crate::interpreter::ast::view::stmt_view;
use crate::interpreter::ast::view::stmts_view;
use crate::interpreter::ast::view::ExprView;
use crate::interpreter::ast::view::StmtView;
use crate::interpreter::error::InterpreterError;
use crate::interpreter::error::InterpreterErrorView;
use crate::interpreter::exporter::error::ExporterError;
use crate::interpreter::exporter::error::ExporterErrorType;
use crate::interpreter::exporter::error::ExporterErrorView;
use crate::interpreter::parser::grammar;
use crate::interpreter::parser::joined_texts;
use crate::interpreter::parser::Parser;
use crate::interpreter::scanner::laws::lemma_scan_is_ordered;
use crate::interpreter::scanner::lexicon::scan;
use crate::interpreter::scanner::token::literal::Object as Literal;
use crate::interpreter::scanner::token::literal::ObjectView as LiteralView;
use crate::interpreter::scanner::token::token_views;
use crate::interpreter::scanner::token::TokenView;
use crate::interpreter::scanner::Scanner;
use crate::utils::IdAllocator;

verus! {

/// The longest source text that the scanner takes.
pub const MAX_SOURCE: usize = usize::MAX - 3;

/// The text of a module, under the path by which programs use it.
pub struct Module {
    pub path: String,
    pub source: String,
}

/// A module as a mathematical object.
pub struct ModuleView {
    pub path: Seq<char>,
    pub source: Seq<char>,
}

impl View for Module {
    type V = ModuleView;

    open spec fn view(&self) -> ModuleView {
        ModuleView { path: self.path@, source: self.source@ }
    }
}

/// The views of a sequence of modules.
pub open spec fn module_views(modules: Seq<Module>) -> Seq<ModuleView> {
    modules.map_values(|m: Module| m@)
}

/// Splices the exported statements of used modules into a program.
pub struct Exporter {
    ast: Vec<Stmt>,
    modules: Vec<Module>,
}

/// A program and the identifier that the next node gets, or the error
/// that kept it from being.
pub type Found = Result<(Seq<StmtView>, u64), InterpreterErrorView>;

/// What scanning and parsing a source text yields, with nodes numbered
/// from `id`: the program, or the error of the scanner, or the
/// diagnostics of the parser. A text that is too long for the scanner is
/// rejected.
pub open spec fn parsed_source(source: Seq<char>, id: u64) -> Found {
    if source.len() > MAX_SOURCE {
        Err(InterpreterErrorView::Custom("Source text too long"@))
    } else {
        match scan(source) {
            Err(error) => Err(InterpreterErrorView::ScannerError(error)),
            Ok(tokens) => {
                let found = grammar::program(tokens, 0, id, Seq::empty(), Seq::empty());
                if found.errors.len() == 0 {
                    Ok((found.statements, found.id))
                } else {
                    Err(InterpreterErrorView::Custom(joined_texts(found.errors)))
                }
            },
        }
    }
}

/// The statements of `ast[..n]` that are exports, in order.
pub open spec fn sifted(ast: Seq<StmtView>, n: int) -> Seq<StmtView>
    decreases n,
{
    if 0 < n <= ast.len() {
        if ast[n - 1] is Export {
            sifted(ast, n - 1).push(ast[n - 1])
        } else {
            sifted(ast, n - 1)
        }
    } else {
        Seq::empty()
    }
}

/// The source of the first of `modules[from..]` that has the path `path`.
pub open spec fn source_of(modules: Seq<ModuleView>, path: Seq<char>, from: int) -> Option<
    Seq<char>,
>
    decreases modules.len() - from,
{
    if 0 <= from < modules.len() {
        if modules[from].path == path {
            Some(modules[from].source)
        } else {
            source_of(modules, path, from + 1)
        }
    } else {
        None
    }
}

/// An error of the resolver at the `use` keyword `keyword`.
pub open spec fn rejected(keyword: TokenView, ty: ExporterErrorType) -> Found {
    Err(InterpreterErrorView::ExporterError(ExporterErrorView { token: keyword, ty }))
}

/// The statements that stand for one `use`: the exports of the module
/// that it names, parsed with nodes numbered from `id`.
pub open spec fn imported(modules: Seq<ModuleView>, keyword: TokenView, expr: ExprView, id: u64) -> Found {
    match expr {
        ExprView::Literal { literal: Some(LiteralView::String(path)), .. } => match source_of(
            modules,
            path,
            0,
        ) {
            Some(source) => match parsed_source(source, id) {
                Ok(found) => Ok((sifted(found.0, found.0.len() as int), found.1)),
                Err(error) => Err(error),
            },
            None => rejected(keyword, ExporterErrorType::ModuleNotFound),
        },
        _ => rejected(keyword, ExporterErrorType::ExpectedPathStringAfterUse),
    }
}

/// The program `ast[from..]` with every `use` replaced by what it
/// imports, behind the statements `done`; the first error ends it.
pub open spec fn spliced(
    ast: Seq<StmtView>,
    modules: Seq<ModuleView>,
    from: int,
    id: u64,
    done: Seq<StmtView>,
) -> Found
    decreases ast.len() - from,
{
    if 0 <= from < ast.len() {
        match ast[from] {
            StmtView::Use { name, expr } => match imported(modules, name, expr, id) {
                Ok(found) => spliced(ast, modules, from + 1, found.1, done + found.0),
                Err(error) => Err(error),
            },
            other => spliced(ast, modules, from + 1, id, done.push(other)),
        }
    } else {
        Ok((done, id))
    }
}

/// Whether an executable result stands for a result of the model.
pub open spec fn found_as(r: Result<Vec<Stmt>, InterpreterError>, id: u64, found: Found) -> bool {
    match found {
        Ok(program) => r is Ok && stmts_view(r->Ok_0) == program.0 && id == program.1,
        Err(error) => r is Err && r->Err_0@ == error,
    }
}

/// Scans and parses a source text, with nodes numbered from `ids`.
pub fn parse_source(source: &str, ids: &mut IdAllocator) -> (r: Result<Vec<Stmt>, InterpreterError>)
    ensures
        found_as(r, final(ids).upcoming(), parsed_source(source@, old(ids).upcoming())),
{
    if source.unicode_len() > MAX_SOURCE {
        return Err(InterpreterError::Custom(too_long()));
    }
    let mut scanner = Scanner::new(source);
    let tokens = match scanner.scan_tokens() {
        Ok(tokens) => tokens,
        Err(error) => {
            return Err(error);
        },
    };
    proof {
        lemma_scan_is_ordered(source@);
        assert(token_views(tokens@) =~= scan(source@)->Ok_0);
        assert(token_views(tokens@).last() == tokens@.last()@);
    }
    let mut parser = Parser::new(tokens, IdAllocator::starting_at(ids.peek()));
    let parsed = parser.parse();
    *ids = parser.into_ids();
    parsed
}

fn too_long() -> (r: String)
    ensures
        r@ == "Source text too long"@,
{
    String::from_str("Source text too long")
}

/// The path that a statement asks for: that of a `use` whose expression
/// is a text between quotes.
pub open spec fn used_path(s: StmtView) -> Option<Seq<char>> {
    match s {
        StmtView::Use { expr: ExprView::Literal { literal: Some(LiteralView::String(path)), .. }, .. } => Some(
            path,
        ),
        _ => None,
    }
}

/// The paths that the statements `ast[..n]` ask for, in order.
pub open spec fn used_paths(ast: Seq<StmtView>, n: int) -> Seq<Seq<char>>
    decreases n,
{
    if 0 < n <= ast.len() {
        match used_path(ast[n - 1]) {
            Some(path) => used_paths(ast, n - 1).push(path),
            None => used_paths(ast, n - 1),
        }
    } else {
        Seq::empty()
    }
}

/// The texts of a sequence of paths.
pub open spec fn path_views(paths: Seq<String>) -> Seq<Seq<char>> {
    paths.map_values(|p: String| p@)
}

/// The paths that the top-level `use` statements of a program name, in
/// order.
pub fn requested(ast: &Vec<Stmt>) -> (r: Vec<String>)
    ensures
        path_views(r@) == used_paths(stmts_view(*ast), ast.len() as int),
{
    let mut paths: Vec<String> = Vec::new();
    let mut i: usize = 0;
    assert(path_views(paths@) =~= used_paths(stmts_view(*ast), 0));
    while i < ast.len()
        invariant
            i <= ast.len(),
            path_views(paths@) == used_paths(stmts_view(*ast), i as int),
        decreases ast.len() - i,
    {
        let ghost before = path_views(paths@);
        assert(stmts_view(*ast)[i as int] == stmt_view(ast[i as int]));
        match &ast[i] {
            Stmt::Use(u) => match path_of(&u.expr) {
                Some(path) => {
                    paths.push(path.clone());
                    assert(path_views(paths@) =~= before.push(path@));
                },
                None => {},
            },
            _ => {},
        }
        i += 1;
    }
    paths
}

/// The path that the expression of a `use` names.
fn path_of(expr: &Expr) -> (r: Option<&String>)
    ensures
        match r {
            Some(path) => expr_view(*expr) matches ExprView::Literal {
                literal: Some(LiteralView::String(p)),
                ..
            } && p == path@,
            None => !(expr_view(*expr) matches ExprView::Literal {
                literal: Some(LiteralView::String(_)),
                ..
            }),
        },
{
    match expr {
        Expr::Literal(l) => match &l.value {
            Some(Literal::String(path)) => Some(path),
            _ => None,
        },
        _ => None,
    }
}

/// A sequence read from its end.
pub open spec fn reverse_of<T>(s: Seq<T>) -> Seq<T> {
    Seq::new(s.len(), |i: int| s[s.len() - 1 - i])
}

/// The statements in the opposite order.
fn reversed(stmts: Vec<Stmt>) -> (r: Vec<Stmt>)
    ensures
        r@ == reverse_of(stmts@),
{
    let ghost all = stmts@;
    let mut rest = stmts;
    let mut out: Vec<Stmt> = Vec::new();
    while rest.len() > 0
        invariant
            rest.len() <= all.len(),
            rest@ == all.take(rest.len() as int),
            out.len() + rest.len() == all.len(),
            forall|k: int| 0 <= k < out.len() ==> out@[k] == all[all.len() - 1 - k],
        decreases rest.len(),
    {
        match rest.pop() {
            Some(stmt) => {
                assert(rest@ =~= all.take(rest.len() as int));
                assert(stmt == all[rest.len() as int]);
                out.push(stmt);
            },
            None => {},
        }
    }
    assert(out@ =~= reverse_of(all));
    out
}

/// The views of statements, by the statements.
pub open spec fn views_of(stmts: Seq<Stmt>) -> Seq<StmtView> {
    stmts.map_values(|s: Stmt| stmt_view(s))
}

/// The view of a vector of statements is made of the views of its
/// statements.
proof fn lemma_views(stmts: Vec<Stmt>)
    ensures
        stmts_view(stmts) == views_of(stmts@),
{
    assert(stmts_view(stmts) =~= views_of(stmts@));
}

/// Keeps the statements that are exports, in order, and drops every
/// other statement.
fn sift_all(ast: Vec<Stmt>) -> (r: Vec<Stmt>)
    ensures
        stmts_view(r) == sifted(stmts_view(ast), ast.len() as int),
{
    let ghost all = ast@;
    let ghost views = stmts_view(ast);
    proof {
        lemma_views(ast);
    }
    let mut kept: Vec<Stmt> = Vec::new();
    let mut rest = reversed(ast);
    assert(views_of(kept@) =~= sifted(views, 0));
    while rest.len() > 0
        invariant
            rest.len() <= all.len(),
            rest@ == reverse_of(all).take(rest.len() as int),
            views == views_of(all),
            views_of(kept@) == sifted(views, all.len() - rest.len()),
        decreases rest.len(),
    {
        let ghost done = all.len() - rest.len();
        let ghost before = views_of(kept@);
        match rest.pop() {
            Some(stmt) => {
                assert(rest@ =~= reverse_of(all).take(rest.len() as int));
                assert(stmt == all[done]);
                assert(views[done] == stmt_view(stmt));
                match stmt {
                    Stmt::Export(export) => {
                        kept.push(Stmt::Export(export));
                        assert(views_of(kept@) =~= before.push(views[done]));
                    },
                    _ => {},
                }
            },
            None => {},
        }
    }
    proof {
        lemma_views(kept);
    }
    kept
}

impl Exporter {
    /// The program that is resolved.
    pub closed spec fn program(&self) -> Seq<StmtView> {
        stmts_view(self.ast)
    }

    /// The modules that the program may use.
    pub closed spec fn modules(&self) -> Seq<ModuleView> {
        module_views(self.modules@)
    }

    /// A resolver for the program `ast` that finds its modules in
    /// `modules`.
    pub fn new(modules: Vec<Module>, ast: Vec<Stmt>) -> (r: Self)
        ensures
            r.program() == stmts_view(ast),
            r.modules() == module_views(modules@),
    {
        Self { ast, modules }
    }

    /// The source of the module at `path`: that of the first module with
    /// this path.
    fn find(&self, path: &String) -> (r: Option<&String>)
        ensures
            match source_of(self.modules(), path@, 0) {
                Some(source) => r is Some && r->0@ == source,
                None => r is None,
            },
    {
        let mut i: usize = 0;
        while i < self.modules.len()
            invariant
                i <= self.modules.len(),
                source_of(self.modules(), path@, 0) == source_of(self.modules(), path@, i as int),
            decreases self.modules.len() - i,
        {
            assert(self.modules()[i as int] == self.modules@[i as int]@);
            if self.modules[i].path == *path {
                return Some(&self.modules[i].source);
            }
            i += 1;
        }
        None
    }

    /// Resolves the program: every statement but `use` stays where it is;
    /// every `use` is replaced by the exports of its module.
    ///
    /// A `use` that names no path between quotes fails with
    /// `ExpectedPathStringAfterUse`, one whose module was not handed over
    /// with `ModuleNotFound`; an error in the text of a module is the
    /// error of the whole.
    pub fn resolve(self, ids: &mut IdAllocator) -> (r: Result<Vec<Stmt>, InterpreterError>)
        ensures
            found_as(
                r,
                final(ids).upcoming(),
                spliced(self.program(), self.modules(), 0, old(ids).upcoming(), Seq::empty()),
            ),
    {
        let Exporter { ast, modules } = self;
        let resolver = Exporter { ast: Vec::new(), modules };
        let ghost all = ast@;
        let ghost views = stmts_view(ast);
        proof {
            lemma_views(ast);
        }
        let mut out: Vec<Stmt> = Vec::new();
        let mut rest = reversed(ast);
        assert(views_of(out@) =~= Seq::<StmtView>::empty());
        while rest.len() > 0
            invariant
                rest.len() <= all.len(),
                rest@ == reverse_of(all).take(rest.len() as int),
                views == views_of(all),
                views == self.program(),
                resolver.modules() == self.modules(),
                spliced(views, self.modules(), 0, old(ids).upcoming(), Seq::empty()) == spliced(
                    views,
                    self.modules(),
                    all.len() - rest.len(),
                    ids.upcoming(),
                    views_of(out@),
                ),
            decreases rest.len(),
        {
            let ghost done = all.len() - rest.len();
            let ghost before = views_of(out@);
            let stmt = match rest.pop() {
                Some(stmt) => stmt,
                None => {
                    assert(false);
                    return Ok(out);
                },
            };
            assert(rest@ =~= reverse_of(all).take(rest.len() as int));
            assert(stmt == all[done]);
            assert(views[done] == stmt_view(stmt));
            match stmt {
                Stmt::Use(u) => {
                    let mut exported = match resolver.import(u, ids) {
                        Ok(exported) => exported,
                        Err(error) => {
                            return Err(error);
                        },
                    };
                    proof {
                        lemma_views(exported);
                    }
                    let ghost added = views_of(exported@);
                    out.append(&mut exported);
                    assert(views_of(out@) =~= before + added);
                },
                other => {
                    out.push(other);
                    assert(views_of(out@) =~= before.push(views[done]));
                },
            }
        }
        proof {
            lemma_views(out);
        }
        Ok(out)
    }

    /// The statements that stand for one `use`: the exports of the
    /// module that it names.
    fn import(&self, stmt: Use, ids: &mut IdAllocator) -> (r: Result<Vec<Stmt>, InterpreterError>)
        ensures
            found_as(
                r,
                final(ids).upcoming(),
                imported(self.modules(), stmt.name@, expr_view(stmt.expr), old(ids).upcoming()),
            ),
    {
        let path = match path_of(&stmt.expr) {
            Some(path) => path,
            None => {
                return Err(
                    InterpreterError::ExporterError(
                        ExporterError::new(
                            stmt.name,
                            ExporterErrorType::ExpectedPathStringAfterUse,
                        ),
                    ),
                );
            },
        };
        let source = match self.find(path) {
            Some(source) => source,
            None => {
                return Err(
                    InterpreterError::ExporterError(
                        ExporterError::new(stmt.name, ExporterErrorType::ModuleNotFound),
                    ),
                );
            },
        };
        let parsed = match parse_source(source.as_str(), ids) {
            Ok(parsed) => parsed,
            Err(error) => {
                return Err(error);
            },
        };
        Ok(sift_all(parsed))
    }

    /// Keeps the statements that are exports, in order, and drops every
    /// other statement.
    pub fn sift(&self, ast: Vec<Stmt>) -> (r: Result<Vec<Stmt>, InterpreterError>)
        ensures
            r is Ok,
            stmts_view(r->Ok_0) == sifted(stmts_view(ast), ast.len() as int),
    {
        Ok(sift_all(ast))
    }
}

} // verus!
