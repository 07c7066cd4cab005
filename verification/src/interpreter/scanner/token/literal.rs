//! The values that a token or a literal expression can carry.

use vstd::prelude::*;

use crate::interpreter::number::Number;

verus! {

/// A literal value of the source text.
#[derive(Debug)]
pub enum Object {
    String(String),
    Number(Number),
    Bool(bool),
    Nil,
}

/// What a literal value is, with its text as a sequence of characters.
pub enum ObjectView {
    String(Seq<char>),
    Number(u64),
    Bool(bool),
    Nil,
}

impl View for Object {
    type V = ObjectView;

    open spec fn view(&self) -> ObjectView {
        match self {
            Object::String(s) => ObjectView::String(s@),
            Object::Number(n) => ObjectView::Number(n.bits()),
            Object::Bool(b) => ObjectView::Bool(*b),
            Object::Nil => ObjectView::Nil,
        }
    }
}

impl Clone for Object {
    fn clone(&self) -> (r: Self)
        ensures
            r == *self,
    {
        match self {
            Object::String(s) => Object::String(s.clone()),
            Object::Number(n) => Object::Number(*n),
            Object::Bool(b) => Object::Bool(*b),
            Object::Nil => Object::Nil,
        }
    }
}

} // verus!
