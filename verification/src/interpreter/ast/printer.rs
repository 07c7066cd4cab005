//! Writes an expression as a list between parentheses, the operator
//! first.

use vstd::prelude::*;
use vstd::string::StringExecFns;

use crate::interpreter::ast::expr::Expr;
use crate::interpreter::numeral::number_text;
use crate::interpreter::scanner::token::literal::Object;
use crate::interpreter::text::push_text;

verus! {

/// Writes expressions.
pub struct AstPrinter;

/// How a literal is written: a text between double quotes, `nil` for a
/// literal that carries nothing.
pub open spec fn literal_text(value: Option<Object>) -> Seq<char> {
    match value {
        Some(Object::String(s)) => seq!['"'] + s@ + seq!['"'],
        Some(Object::Number(n)) => number_text(n.bits()),
        Some(Object::Bool(b)) => if b {
            "true"@
        } else {
            "false"@
        },
        Some(Object::Nil) => "nil"@,
        None => "nil"@,
    }
}

/// `(name` and the written operands, each behind a space, and `)`.
pub open spec fn parenthesized(name: Seq<char>, operands: Seq<Seq<char>>) -> Seq<char> {
    seq!['('] + name + spaced(operands, 0) + seq![')']
}

/// The texts `operands[from..]`, each behind a space.
pub open spec fn spaced(operands: Seq<Seq<char>>, from: int) -> Seq<char>
    decreases operands.len() - from,
{
    if 0 <= from < operands.len() {
        seq![' '] + operands[from] + spaced(operands, from + 1)
    } else {
        Seq::empty()
    }
}

/// How an expression is written.
pub open spec fn printed(e: Expr) -> Seq<char>
    decreases e, 0int,
{
    match e {
        Expr::Binary(b) => parenthesized(
            b.operation.lexeme@,
            seq![printed(*b.left), printed(*b.right)],
        ),
        Expr::Grouping(g) => parenthesized("group"@, seq![printed(*g.expression)]),
        Expr::Literal(l) => literal_text(l.value),
        Expr::Unary(u) => parenthesized(u.operator.lexeme@, seq![printed(*u.right)]),
        Expr::Variable(v) => parenthesized("variable"@, seq![v.token.lexeme@]),
        Expr::Assign(a) => parenthesized("assign"@, seq![printed(*a.value)]),
        Expr::Logical(l) => parenthesized(
            l.operator.lexeme@,
            seq![printed(*l.left), printed(*l.right)],
        ),
        Expr::Call(c) => parenthesized(
            "call"@,
            seq![printed(*c.callable)] + printed_all(c.args, 0),
        ),
        Expr::Get(g) => parenthesized("get"@, seq![printed(*g.object), g.name.lexeme@]),
        Expr::SetExpr(s) => parenthesized(
            "set"@,
            seq![printed(*s.obj), s.name.lexeme@, printed(*s.value)],
        ),
        Expr::SelfExpr(_) => "self"@,
        Expr::Super(s) => parenthesized("super"@, seq![s.method.lexeme@]),
        Expr::List(l) => parenthesized("list"@, printed_all(l.values, 0)),
    }
}

/// How the expressions `es[from..]` are written, in order.
pub open spec fn printed_all(es: Vec<Expr>, from: int) -> Seq<Seq<char>>
    decreases es, es.len() - from,
{
    if 0 <= from < es.len() {
        seq![printed(es[from])] + printed_all(es, from + 1)
    } else {
        Seq::empty()
    }
}

impl Object {
    /// How the literal is written: a text between double quotes.
    pub fn to_string(&self) -> (r: String)
        ensures
            r@ == literal_text(Some(*self)),
    {
        match self {
            Object::String(s) => {
                let mut out = String::new();
                out.push('"');
                push_text(&mut out, s.as_str());
                out.push('"');
                assert(out@ =~= literal_text(Some(*self)));
                out
            },
            Object::Number(n) => n.to_string(),
            Object::Bool(b) => if *b {
                String::from_str("true")
            } else {
                String::from_str("false")
            },
            Object::Nil => String::from_str("nil"),
        }
    }
}

/// The views of a list of texts.
pub open spec fn texts_view(texts: Seq<String>) -> Seq<Seq<char>> {
    texts.map_values(|t: String| t@)
}

impl AstPrinter {
    /// Writes an expression.
    pub fn print(&mut self, expr: &Expr) -> (r: String)
        ensures
            r@ == printed(*expr),
        decreases expr, 0int,
    {
        match expr {
            Expr::Binary(b) => {
                let mut operands: Vec<String> = Vec::new();
                operands.push(self.print(&b.left));
                operands.push(self.print(&b.right));
                assert(texts_view(operands@) =~= seq![printed(*b.left), printed(*b.right)]);
                self.parenthesize(b.operation.lexeme.as_str(), operands)
            },
            Expr::Grouping(g) => {
                let mut operands: Vec<String> = Vec::new();
                operands.push(self.print(&g.expression));
                assert(texts_view(operands@) =~= seq![printed(*g.expression)]);
                self.parenthesize("group", operands)
            },
            Expr::Literal(l) => match &l.value {
                Some(value) => value.to_string(),
                None => String::from_str("nil"),
            },
            Expr::Unary(u) => {
                let mut operands: Vec<String> = Vec::new();
                operands.push(self.print(&u.right));
                assert(texts_view(operands@) =~= seq![printed(*u.right)]);
                self.parenthesize(u.operator.lexeme.as_str(), operands)
            },
            Expr::Variable(v) => {
                let mut operands: Vec<String> = Vec::new();
                operands.push(v.token.lexeme.clone());
                assert(texts_view(operands@) =~= seq![v.token.lexeme@]);
                self.parenthesize("variable", operands)
            },
            Expr::Assign(a) => {
                let mut operands: Vec<String> = Vec::new();
                operands.push(self.print(&a.value));
                assert(texts_view(operands@) =~= seq![printed(*a.value)]);
                self.parenthesize("assign", operands)
            },
            Expr::Logical(l) => {
                let mut operands: Vec<String> = Vec::new();
                operands.push(self.print(&l.left));
                operands.push(self.print(&l.right));
                assert(texts_view(operands@) =~= seq![printed(*l.left), printed(*l.right)]);
                self.parenthesize(l.operator.lexeme.as_str(), operands)
            },
            Expr::Call(c) => {
                let mut operands: Vec<String> = Vec::new();
                operands.push(self.print(&c.callable));
                assert(texts_view(operands@) =~= seq![printed(*c.callable)]);
                self.print_all(&c.args, &mut operands);
                self.parenthesize("call", operands)
            },
            Expr::Get(g) => {
                let mut operands: Vec<String> = Vec::new();
                operands.push(self.print(&g.object));
                operands.push(g.name.lexeme.clone());
                assert(texts_view(operands@) =~= seq![printed(*g.object), g.name.lexeme@]);
                self.parenthesize("get", operands)
            },
            Expr::SetExpr(s) => {
                let mut operands: Vec<String> = Vec::new();
                operands.push(self.print(&s.obj));
                operands.push(s.name.lexeme.clone());
                operands.push(self.print(&s.value));
                assert(texts_view(operands@) =~= seq![
                    printed(*s.obj),
                    s.name.lexeme@,
                    printed(*s.value),
                ]);
                self.parenthesize("set", operands)
            },
            Expr::SelfExpr(_) => String::from_str("self"),
            Expr::Super(s) => {
                let mut operands: Vec<String> = Vec::new();
                operands.push(s.method.lexeme.clone());
                assert(texts_view(operands@) =~= seq![s.method.lexeme@]);
                self.parenthesize("super", operands)
            },
            Expr::List(l) => {
                let mut operands: Vec<String> = Vec::new();
                assert(texts_view(operands@) =~= Seq::<Seq<char>>::empty());
                self.print_all(&l.values, &mut operands);
                assert(Seq::<Seq<char>>::empty() + printed_all(l.values, 0) =~= printed_all(
                    l.values,
                    0,
                ));
                self.parenthesize("list", operands)
            },
        }
    }

    /// Writes the expressions of `exprs` behind `out`.
    fn print_all(&mut self, exprs: &Vec<Expr>, out: &mut Vec<String>)
        ensures
            texts_view(final(out)@) == texts_view(old(out)@) + printed_all(*exprs, 0),
        decreases exprs, 1int,
    {
        let mut i: usize = 0;
        while i < exprs.len()
            invariant
                i <= exprs.len(),
                texts_view(old(out)@) + printed_all(*exprs, 0) == texts_view(out@) + printed_all(
                    *exprs,
                    i as int,
                ),
            decreases exprs.len() - i,
        {
            let ghost before = texts_view(out@);
            let text = self.print(&exprs[i]);
            out.push(text);
            assert(texts_view(out@) =~= before.push(text@));
            i += 1;
            assert(before + printed_all(*exprs, i - 1) =~= texts_view(out@) + printed_all(
                *exprs,
                i as int,
            ));
        }
        assert(texts_view(out@) + printed_all(*exprs, exprs.len() as int) =~= texts_view(out@));
    }

    /// Writes `name` and the operands between parentheses.
    pub fn parenthesize(&mut self, name: &str, operands: Vec<String>) -> (r: String)
        ensures
            r@ == parenthesized(name@, texts_view(operands@)),
    {
        let ghost texts = texts_view(operands@);
        let mut builder = String::new();
        builder.push('(');
        push_text(&mut builder, name);
        let mut i: usize = 0;
        while i < operands.len()
            invariant
                i <= operands.len(),
                texts == texts_view(operands@),
                seq!['('] + name@ + spaced(texts, 0) == builder@ + spaced(texts, i as int),
            decreases operands.len() - i,
        {
            let ghost before = builder@;
            builder.push(' ');
            push_text(&mut builder, operands[i].as_str());
            assert(texts[i as int] == operands@[i as int]@);
            i += 1;
            assert(before + spaced(texts, i - 1) =~= builder@ + spaced(texts, i as int));
        }
        builder.push(')');
        assert(builder@ =~= parenthesized(name@, texts));
        builder
    }
}

} // verus!
