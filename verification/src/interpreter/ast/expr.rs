//! Expressions.

use vstd::prelude::*;

use crate::interpreter::scanner::token::literal::Object;
use crate::interpreter::scanner::token::token_type::TokenType;
use crate::interpreter::scanner::token::Token;
use crate::utils::following;
use crate::utils::next_id;
use crate::utils::IdAllocator;

verus! {

/// An expression. Every expression carries an identifier that no other
/// node taken from the same allocator carries.
#[derive(Debug)]
pub enum Expr {
    Binary(Binary),
    Grouping(Grouping),
    Literal(Literal),
    Unary(Unary),
    Variable(Variable),
    Assign(Assign),
    Logical(Logical),
    Call(Call),
    Get(Get),
    SetExpr(SetExpr),
    SelfExpr(SelfExpr),
    Super(Super),
    List(List),
}

impl Expr {
    /// The identifier of the node.
    pub open spec fn node_id(self) -> u64 {
        match self {
            Expr::Binary(e) => e.id,
            Expr::Grouping(e) => e.id,
            Expr::Literal(e) => e.id,
            Expr::Unary(e) => e.id,
            Expr::Variable(e) => e.id,
            Expr::Assign(e) => e.id,
            Expr::Logical(e) => e.id,
            Expr::Call(e) => e.id,
            Expr::Get(e) => e.id,
            Expr::SetExpr(e) => e.id,
            Expr::SelfExpr(e) => e.id,
            Expr::Super(e) => e.id,
            Expr::List(e) => e.id,
        }
    }

    /// The identifier of the node.
    pub fn id(&self) -> (r: u64)
        ensures
            r == self.node_id(),
    {
        match self {
            Expr::Binary(e) => e.id,
            Expr::Grouping(e) => e.id,
            Expr::Literal(e) => e.id,
            Expr::Unary(e) => e.id,
            Expr::Variable(e) => e.id,
            Expr::Assign(e) => e.id,
            Expr::Logical(e) => e.id,
            Expr::Call(e) => e.id,
            Expr::Get(e) => e.id,
            Expr::SetExpr(e) => e.id,
            Expr::SelfExpr(e) => e.id,
            Expr::Super(e) => e.id,
            Expr::List(e) => e.id,
        }
    }
}

/// `name = value`.
#[derive(Debug)]
pub struct Assign {
    pub id: u64,
    pub token: Token,
    pub value: Box<Expr>,
}

impl Assign {
    /// A new node, with the next identifier of `ids`.
    pub fn new(ids: &mut IdAllocator, token: Token, value: Box<Expr>) -> (r: Self)
        ensures
            r.id == old(ids).upcoming(),
            final(ids).upcoming() == following(r.id),
            r.token == token,
            r.value == value,
    {
        let id = next_id(ids);
        Self { id, token, value }
    }

    /// The name that is assigned to.
    pub fn get_token(&self) -> (r: Token)
        ensures
            r == self.token,
    {
        self.token.clone()
    }

    /// The expression whose value is assigned.
    pub fn get_value(&self) -> (r: &Expr)
        ensures
            *r == *self.value,
    {
        &*self.value
    }
}

/// `left op right` for an arithmetic, relational or equality operator.
#[derive(Debug)]
pub struct Binary {
    pub id: u64,
    pub left: Box<Expr>,
    pub operation: Token,
    pub right: Box<Expr>,
}

impl Binary {
    /// A new node, with the next identifier of `ids`.
    pub fn new(ids: &mut IdAllocator, left: Box<Expr>, operation: Token, right: Box<Expr>) -> (r: Self)
        ensures
            r.id == old(ids).upcoming(),
            final(ids).upcoming() == following(r.id),
            r.left == left,
            r.operation == operation,
            r.right == right,
    {
        let id = next_id(ids);
        Self { id, left, operation, right }
    }

    /// The left operand.
    pub fn get_left(&self) -> (r: &Expr)
        ensures
            *r == *self.left,
    {
        &*self.left
    }

    /// The right operand.
    pub fn get_right(&self) -> (r: &Expr)
        ensures
            *r == *self.right,
    {
        &*self.right
    }

    /// The text of the operator.
    pub fn get_op_lexeme(&self) -> (r: &str)
        ensures
            r@ == self.operation.lexeme@,
    {
        self.operation.get_lexeme()
    }

    /// The kind of the operator.
    pub fn get_op_type(&self) -> (r: TokenType)
        ensures
            r == self.operation.token_type,
    {
        self.operation.get_type()
    }

    /// The operator.
    pub fn get_token(&self) -> (r: Token)
        ensures
            r == self.operation,
    {
        self.operation.clone()
    }
}

/// `callable(args)`; `parens` is the closing parenthesis.
#[derive(Debug)]
pub struct Call {
    pub id: u64,
    pub callable: Box<Expr>,
    pub parens: Token,
    pub args: Vec<Expr>,
}

impl Call {
    /// A new node, with the next identifier of `ids`.
    pub fn new(ids: &mut IdAllocator, callable: Box<Expr>, parens: Token, args: Vec<Expr>) -> (r: Self)
        ensures
            r.id == old(ids).upcoming(),
            final(ids).upcoming() == following(r.id),
            r.callable == callable,
            r.parens == parens,
            r.args == args,
    {
        let id = next_id(ids);
        Self { id, callable, parens, args }
    }

    /// The expression that is called.
    pub fn get_callable(&self) -> (r: &Expr)
        ensures
            *r == *self.callable,
    {
        &*self.callable
    }

    /// The arguments, in source order.
    pub fn get_args(&self) -> (r: &Vec<Expr>)
        ensures
            *r == self.args,
    {
        &self.args
    }

    /// The closing parenthesis.
    pub fn get_token(&self) -> (r: Token)
        ensures
            r == self.parens,
    {
        self.parens.clone()
    }
}

/// `object.name`.
#[derive(Debug)]
pub struct Get {
    pub id: u64,
    pub name: Token,
    pub object: Box<Expr>,
}

impl Get {
    /// A new node, with the next identifier of `ids`.
    pub fn new(ids: &mut IdAllocator, name: Token, object: Box<Expr>) -> (r: Self)
        ensures
            r.id == old(ids).upcoming(),
            final(ids).upcoming() == following(r.id),
            r.name == name,
            r.object == object,
    {
        let id = next_id(ids);
        Self { id, name, object }
    }

    /// The property name and the expression whose property is read.
    pub fn extract(&self) -> (r: (&Token, &Expr))
        ensures
            *r.0 == self.name,
            *r.1 == *self.object,
    {
        (&self.name, &*self.object)
    }
}

/// `(expression)`.
#[derive(Debug)]
pub struct Grouping {
    pub id: u64,
    pub expression: Box<Expr>,
}

impl Grouping {
    /// A new node, with the next identifier of `ids`.
    pub fn new(ids: &mut IdAllocator, expression: Box<Expr>) -> (r: Self)
        ensures
            r.id == old(ids).upcoming(),
            final(ids).upcoming() == following(r.id),
            r.expression == expression,
    {
        let id = next_id(ids);
        Self { id, expression }
    }

    /// The expression between the parentheses.
    pub fn get_expr(&self) -> (r: &Expr)
        ensures
            *r == *self.expression,
    {
        &*self.expression
    }
}

/// `[values]`.
#[derive(Debug)]
pub struct List {
    pub id: u64,
    pub values: Vec<Expr>,
}

impl List {
    /// A new node, with the next identifier of `ids`.
    pub fn new(ids: &mut IdAllocator, values: Vec<Expr>) -> (r: Self)
        ensures
            r.id == old(ids).upcoming(),
            final(ids).upcoming() == following(r.id),
            r.values == values,
    {
        let id = next_id(ids);
        Self { id, values }
    }

    /// The element expressions, in source order.
    pub fn extract_values(&self) -> (r: &Vec<Expr>)
        ensures
            *r == self.values,
    {
        &self.values
    }
}

/// A literal value; `None` stands for a token that carried no value.
#[derive(Debug)]
pub struct Literal {
    pub id: u64,
    pub value: Option<Object>,
}

impl Literal {
    /// A new node, with the next identifier of `ids`.
    pub fn new(ids: &mut IdAllocator, value: Option<Object>) -> (r: Self)
        ensures
            r.id == old(ids).upcoming(),
            final(ids).upcoming() == following(r.id),
            r.value == value,
    {
        let id = next_id(ids);
        Self { id, value }
    }

    /// The value of the literal.
    pub fn get_value(&self) -> (r: Option<&Object>)
        ensures
            match r {
                Some(value) => self.value == Some(*value),
                None => self.value is None,
            },
    {
        self.value.as_ref()
    }
}

/// `left and right` or `left or right`.
#[derive(Debug)]
pub struct Logical {
    pub id: u64,
    pub left: Box<Expr>,
    pub operator: Token,
    pub right: Box<Expr>,
}

impl Logical {
    /// A new node, with the next identifier of `ids`.
    pub fn new(ids: &mut IdAllocator, left: Box<Expr>, operator: Token, right: Box<Expr>) -> (r: Self)
        ensures
            r.id == old(ids).upcoming(),
            final(ids).upcoming() == following(r.id),
            r.left == left,
            r.operator == operator,
            r.right == right,
    {
        let id = next_id(ids);
        Self { id, left, operator, right }
    }

    /// The left operand.
    pub fn get_left(&self) -> (r: &Expr)
        ensures
            *r == *self.left,
    {
        &*self.left
    }

    /// The operator.
    pub fn get_operator(&self) -> (r: Token)
        ensures
            r == self.operator,
    {
        self.operator.clone()
    }

    /// The right operand.
    pub fn get_right(&self) -> (r: &Expr)
        ensures
            *r == *self.right,
    {
        &*self.right
    }
}

/// `left or right`, as a node without an identifier.
#[derive(Debug)]
pub struct Or {
    pub left: Box<Expr>,
    pub operator: Token,
    pub right: Box<Expr>,
}

impl Or {
    /// A new node.
    pub fn new(left: Box<Expr>, operator: Token, right: Box<Expr>) -> (r: Self)
        ensures
            r.left == left,
            r.operator == operator,
            r.right == right,
    {
        Self { left, operator, right }
    }

    /// The left operand.
    pub fn get_left(&self) -> (r: &Expr)
        ensures
            *r == *self.left,
    {
        &*self.left
    }

    /// The operator.
    pub fn get_operator(&self) -> (r: Token)
        ensures
            r == self.operator,
    {
        self.operator.clone()
    }

    /// The right operand.
    pub fn get_right(&self) -> (r: &Expr)
        ensures
            *r == *self.right,
    {
        &*self.right
    }
}

/// `self`.
#[derive(Debug)]
pub struct SelfExpr {
    pub id: u64,
    pub name: Token,
}

impl SelfExpr {
    /// A new node, with the next identifier of `ids`.
    pub fn new(ids: &mut IdAllocator, name: Token) -> (r: Self)
        ensures
            r.id == old(ids).upcoming(),
            final(ids).upcoming() == following(r.id),
            r.name == name,
    {
        let id = next_id(ids);
        Self { id, name }
    }

    /// The keyword.
    pub fn get_name(&self) -> (r: Token)
        ensures
            r == self.name,
    {
        self.name.clone()
    }
}

/// `obj.name = value`.
#[derive(Debug)]
pub struct SetExpr {
    pub id: u64,
    pub name: Token,
    pub obj: Box<Expr>,
    pub value: Box<Expr>,
}

impl SetExpr {
    /// A new node, with the next identifier of `ids`.
    pub fn new(ids: &mut IdAllocator, name: Token, obj: Box<Expr>, value: Box<Expr>) -> (r: Self)
        ensures
            r.id == old(ids).upcoming(),
            final(ids).upcoming() == following(r.id),
            r.name == name,
            r.obj == obj,
            r.value == value,
    {
        let id = next_id(ids);
        Self { id, name, obj, value }
    }

    /// The property name, the expression whose property is written, and the
    /// expression whose value is written.
    pub fn extract(&self) -> (r: (&Token, &Expr, &Expr))
        ensures
            *r.0 == self.name,
            *r.1 == *self.obj,
            *r.2 == *self.value,
    {
        (&self.name, &*self.obj, &*self.value)
    }
}

/// `super.method`.
#[derive(Debug)]
pub struct Super {
    pub id: u64,
    pub keyword: Token,
    pub method: Token,
}

impl Super {
    /// A new node, with the next identifier of `ids`.
    pub fn new(ids: &mut IdAllocator, keyword: Token, method: Token) -> (r: Self)
        ensures
            r.id == old(ids).upcoming(),
            final(ids).upcoming() == following(r.id),
            r.keyword == keyword,
            r.method == method,
    {
        let id = next_id(ids);
        Self { id, keyword, method }
    }

    /// The keyword and the method name.
    pub fn extract(&self) -> (r: (Token, Token))
        ensures
            r.0 == self.keyword,
            r.1 == self.method,
    {
        (self.keyword.clone(), self.method.clone())
    }
}

/// `op right` for `-` or `!`.
#[derive(Debug)]
pub struct Unary {
    pub id: u64,
    pub operator: Token,
    pub right: Box<Expr>,
}

impl Unary {
    /// A new node, with the next identifier of `ids`.
    pub fn new(ids: &mut IdAllocator, operator: Token, right: Box<Expr>) -> (r: Self)
        ensures
            r.id == old(ids).upcoming(),
            final(ids).upcoming() == following(r.id),
            r.operator == operator,
            r.right == right,
    {
        let id = next_id(ids);
        Self { id, operator, right }
    }

    /// The text of the operator.
    pub fn get_op_lexeme(&self) -> (r: &str)
        ensures
            r@ == self.operator.lexeme@,
    {
        self.operator.get_lexeme()
    }

    /// The operand.
    pub fn get_right(&self) -> (r: &Expr)
        ensures
            *r == *self.right,
    {
        &*self.right
    }

    /// The kind of the operator.
    pub fn get_op_type(&self) -> (r: TokenType)
        ensures
            r == self.operator.token_type,
    {
        self.operator.get_type()
    }

    /// The operator.
    pub fn get_token(&self) -> (r: Token)
        ensures
            r == self.operator,
    {
        self.operator.clone()
    }
}

/// A name that is read.
#[derive(Debug)]
pub struct Variable {
    pub id: u64,
    pub token: Token,
}

impl Variable {
    /// A new node, with the next identifier of `ids`.
    pub fn new(ids: &mut IdAllocator, token: Token) -> (r: Self)
        ensures
            r.id == old(ids).upcoming(),
            final(ids).upcoming() == following(r.id),
            r.token == token,
    {
        let id = next_id(ids);
        Self { id, token }
    }

    /// The name.
    pub fn get_token(&self) -> (r: Token)
        ensures
            r == self.token,
    {
        self.token.clone()
    }
}
} // verus!
